//! Tests of the quote store: insertion, the two distinguishable duplicate
//! errors, keyed lookup, random lookup, and display.

use oxbow::quotes::Quote;
use oxbow::quotes::QuotesError;
use oxbow::quotes::QuotesStore;
use oxbow::timestamp::Timestamp;

fn storage() -> QuotesStore {
    let db = oxbow::store::in_memory().expect("opening an in-memory database should succeed");
    QuotesStore::new(db)
}

fn stamp() -> Timestamp {
    Timestamp { year: 2021, month: 9, day: 14, hour: 21, minute: 6 }
}

#[test]
fn add_and_get_keyed_quote() {
    let mut quotes = storage();
    quotes
        .add_quote_keyed("#foo", "nerosnm", "tea", "tea is mandatory", &stamp())
        .expect("adding a keyed quote should succeed");

    let found = quotes
        .get_quote_keyed("#foo", "tea")
        .expect("getting the quote should succeed")
        .expect("the quote should be there");

    assert_eq!(found.quote, "tea is mandatory");
    assert_eq!(found.username, "nerosnm");
    assert_eq!(found.key.as_deref(), Some("tea"));
    assert_eq!(found.when.as_deref(), Some("14 Sep 2021"));
}

#[test]
fn duplicate_key_is_reported() {
    let mut quotes = storage();
    quotes
        .add_quote_keyed("#foo", "nerosnm", "tea", "tea is mandatory", &stamp())
        .expect("adding a keyed quote should succeed");

    let err = quotes
        .add_quote_keyed("#foo", "someone", "tea", "entirely new text", &stamp())
        .expect_err("reusing the key should fail");

    assert_eq!(
        err,
        QuotesError::DuplicateKey { channel: "#foo".into(), key: "tea".into() }
    );
}

#[test]
fn duplicate_text_is_reported() {
    let mut quotes = storage();
    quotes
        .add_quote_unkeyed("#foo", "nerosnm", "tea is mandatory", &stamp())
        .expect("adding a quote should succeed");

    let err = quotes
        .add_quote_unkeyed("#foo", "nerosnm", "tea is mandatory", &stamp())
        .expect_err("repeating the quote should fail");

    assert_eq!(
        err,
        QuotesError::DuplicateQuote {
            channel: "#foo".into(),
            username: "nerosnm".into(),
            text: "tea is mandatory".into(),
        }
    );
}

#[test]
fn keyed_duplicate_text_with_fresh_key_is_text_error() {
    let mut quotes = storage();
    quotes
        .add_quote_keyed("#foo", "nerosnm", "tea", "tea is mandatory", &stamp())
        .expect("adding a keyed quote should succeed");

    let err = quotes
        .add_quote_keyed("#foo", "nerosnm", "othertea", "tea is mandatory", &stamp())
        .expect_err("repeating the text should fail");

    assert_eq!(
        err,
        QuotesError::DuplicateQuote {
            channel: "#foo".into(),
            username: "nerosnm".into(),
            text: "tea is mandatory".into(),
        }
    );
}

#[test]
fn missing_key_returns_nothing() {
    let quotes = storage();
    let found = quotes
        .get_quote_keyed("#foo", "nope")
        .expect("getting a quote should succeed");
    assert!(found.is_none());
}

#[test]
fn random_quote_from_empty_channel_is_none() {
    let quotes = storage();
    let found = quotes
        .get_quote_random("#foo")
        .expect("getting a random quote should succeed");
    assert!(found.is_none());
}

#[test]
fn random_quote_returns_a_stored_quote() {
    let mut quotes = storage();
    quotes
        .add_quote_unkeyed("#foo", "nerosnm", "tea is mandatory", &stamp())
        .expect("adding a quote should succeed");

    let found = quotes
        .get_quote_random("#foo")
        .expect("getting a random quote should succeed")
        .expect("the only quote should come back");

    assert_eq!(found.quote, "tea is mandatory");
    assert_eq!(found.username, "nerosnm");
}

#[test]
fn quotes_are_scoped_by_channel() {
    let mut quotes = storage();
    quotes
        .add_quote_keyed("#foo", "nerosnm", "tea", "tea is mandatory", &stamp())
        .expect("adding a keyed quote should succeed");

    let other = quotes
        .get_quote_keyed("#bar", "tea")
        .expect("getting a quote should succeed");
    assert!(other.is_none(), "another channel must not see the quote");
}

#[test]
fn quote_display_form() {
    let full = Quote {
        quote: "tea is mandatory".into(),
        username: "nerosnm".into(),
        when: Some("14 Sep 2021".into()),
        key: Some("tea".into()),
    };
    assert_eq!(
        full.to_message(),
        "\"tea is mandatory\" - @nerosnm, 14 Sep 2021 (#tea)"
    );

    let bare = Quote {
        quote: "tea is mandatory".into(),
        username: "nerosnm".into(),
        when: None,
        key: None,
    };
    assert_eq!(bare.to_message(), "\"tea is mandatory\" - @nerosnm");
}

#[test]
fn timestamp_formatting() {
    let t = stamp();
    assert_eq!(t.date_string(), "14 Sep 2021");
    assert_eq!(t.time_string(), "21:06");

    let t2 = Timestamp { year: 2026, month: 1, day: 2, hour: 5, minute: 59 };
    assert_eq!(t2.date_string(), "02 Jan 2026");
    assert_eq!(t2.time_string(), "05:59");
}

#[test]
fn clock_yields_calendar_ranges() {
    let now = oxbow::timestamp::now_utc();
    assert!(1 <= now.month && now.month <= 12);
    assert!(1 <= now.day && now.day <= 31);
    assert!(now.hour <= 23);
    assert!(now.minute <= 59);
    assert!(now.year >= 2020);
}
