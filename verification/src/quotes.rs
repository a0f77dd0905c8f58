//! Storage of quotes: per channel, a quote is unique both by its text (for a
//! given quoted user) and by its optional retrieval key. Backed by the quotes
//! table of the pooled SQLite database; the stored contents are modeled as a
//! set of records.
//!
//! A failed insertion is classified by a follow-up read: when the key is
//! already taken the error names the key, otherwise the quote text was a
//! duplicate.

use vstd::prelude::*;
use vstd::string::StrSliceExecFns;
use vstd::string::StringExecFns;

use r2d2_sqlite::rusqlite;
use r2d2_sqlite::rusqlite::OptionalExtension;
use rand::Rng;

use crate::store::Db;
use crate::store::QuoteRec;
use crate::store::quotes_in;
use crate::timestamp::Timestamp;

verus! {

/// A quote as read back from the store.
#[derive(Debug, Clone, PartialEq, Eq)]
pub struct Quote {
    /// The quote text.
    pub quote: String,
    /// The user who was quoted.
    pub username: String,
    /// The date the quote was added, already formatted, when recorded.
    pub when: Option<String>,
    /// The key the quote can be fetched by, when it has one.
    pub key: Option<String>,
}

/// The record a [`Quote`] read from `channel` stands for.
pub open spec fn quote_rec(channel: Seq<char>, q: Quote) -> QuoteRec {
    (
        channel,
        q.username@,
        crate::msg::option_view(q.key),
        q.quote@,
        crate::msg::option_view(q.when),
    )
}

/// Some stored quote in `channel` has key `key`.
pub open spec fn has_key(s: Set<QuoteRec>, channel: Seq<char>, key: Seq<char>) -> bool {
    exists|r: QuoteRec|
        s.contains(r) && r.0 == channel && r.2 == Option::Some(key)
}

/// Some stored quote in `channel` quotes `username` with exactly `text`.
pub open spec fn has_text(
    s: Set<QuoteRec>,
    channel: Seq<char>,
    username: Seq<char>,
    text: Seq<char>,
) -> bool {
    exists|r: QuoteRec|
        s.contains(r) && r.0 == channel && r.1 == username && r.3 == text
}

/// Some quote is stored for `channel`.
pub open spec fn has_channel(s: Set<QuoteRec>, channel: Seq<char>) -> bool {
    exists|r: QuoteRec| s.contains(r) && r.0 == channel
}

/// How a stored quote is displayed: its text in quotation marks, the quoted
/// user, and, when recorded, the date and the key.
pub open spec fn quote_display(
    username: Seq<char>,
    key: Option<Seq<char>>,
    text: Seq<char>,
    date: Option<Seq<char>>,
) -> Seq<char> {
    "\""@ + text + "\" - @"@ + username + (match date {
        Option::Some(d) => ", "@ + d,
        Option::None => Seq::empty(),
    }) + (match key {
        Option::Some(k) => " (#"@ + k + ")"@,
        Option::None => Seq::empty(),
    })
}

impl Quote {
    /// The chat form of this quote.
    pub fn to_message(&self) -> (r: String)
        ensures
            r@ == quote_display(
                self.username@,
                crate::msg::option_view(self.key),
                self.quote@,
                crate::msg::option_view(self.when),
            ),
    {
        let mut s = String::from_str("\"");
        s.append(self.quote.as_str());
        s.append("\" - @");
        s.append(self.username.as_str());
        match &self.when {
            Some(d) => {
                s.append(", ");
                s.append(d.as_str());
            },
            None => {
            },
        }
        match &self.key {
            Some(k) => {
                s.append(" (#");
                s.append(k.as_str());
                s.append(")");
            },
            None => {
            },
        }
        proof {
            assert(s@ =~= quote_display(
                self.username@,
                crate::msg::option_view(self.key),
                self.quote@,
                crate::msg::option_view(self.when),
            ));
        }
        s
    }
}

/// Errors a quote-store operation can fail with. The two duplicate variants
/// are domain-level conditions and carry the inputs that collided.
#[derive(Debug, Clone, PartialEq, Eq)]
#[allow(inconsistent_fields)]
pub enum QuotesError {
    /// The same user is already quoted with the same text in this channel.
    DuplicateQuote { channel: String, username: String, text: String },
    /// The key is already taken in this channel.
    DuplicateKey { channel: String, key: String },
    /// No connection could be had from the pool.
    Pool,
    /// The database refused the operation.
    Database,
}

/// How a raw insertion can fail.
enum InsertFailure {
    /// A uniqueness constraint was violated.
    Constraint,
    /// No connection could be had from the pool.
    Pool,
    /// The database refused the operation.
    Database,
}

/// Storage of quotes in an SQLite database.
pub struct QuotesStore {
    db: Db,
}

impl QuotesStore {
    /// What this store holds.
    pub closed spec fn contents(&self) -> Set<QuoteRec> {
        quotes_in(self.db)
    }

    /// Create a `QuotesStore` with a connection to a database.
    pub fn new(db: Db) -> (r: Self)
        ensures
            r.contents() == quotes_in(db),
    {
        Self { db }
    }

    /// Insert one quote row.
    ///
    /// Relies on `rusqlite::Connection::execute` running the single insert
    /// statement in the body against the table's two uniqueness constraints:
    /// on success the record is added and no duplicate existed; on a
    /// constraint violation nothing changes and a duplicate (of the text, or
    /// of the key when one was given) existed.
    #[verifier::external_body]
    fn insert_quote(
        &mut self,
        channel: &str,
        username: &str,
        key: Option<&str>,
        text: &str,
        stamp: &str,
    ) -> (r: Result<(), InsertFailure>)
        ensures
            match r {
                Result::Ok(()) => {
                    let rec =
                    (
                        channel@,
                        username@,
                        match key {
                            Option::Some(k) => Option::Some(k@),
                            Option::None => Option::None,
                        },
                        text@,
                        Option::Some(stamp@),
                    );
                    &&& final(self).contents() == old(self).contents().insert(rec)
                    &&& !has_text(old(self).contents(), channel@, username@, text@)
                    &&& match key {
                        Option::Some(k) => !has_key(old(self).contents(), channel@, k@),
                        Option::None => true,
                    }
                },
                Result::Err(InsertFailure::Constraint) => {
                    &&& final(self).contents() == old(self).contents()
                    &&& (has_text(old(self).contents(), channel@, username@, text@) || match key {
                        Option::Some(k) => has_key(old(self).contents(), channel@, k@),
                        Option::None => false,
                    })
                },
                Result::Err(_) => true,
            },
    {
        let conn = match self.db.pool.get() {
            Ok(c) => c,
            Err(_) => return Err(InsertFailure::Pool),
        };
        match conn.execute(
            "INSERT INTO quotes (channel, username, key, quote, time) VALUES (?1, ?2, ?3, ?4, ?5);",
            (channel, username, key, text, stamp),
        ) {
            Ok(_) => Ok(()),
            Err(rusqlite::Error::SqliteFailure(e, _)) if e.code
                == rusqlite::ErrorCode::ConstraintViolation => Err(InsertFailure::Constraint),
            Err(_) => Err(InsertFailure::Database),
        }
    }

    /// Whether some quote in `channel` already has `key`.
    ///
    /// Relies on `rusqlite::Connection::query_row` running the single select
    /// statement in the body.
    #[verifier::external_body]
    fn key_taken(&self, channel: &str, key: &str) -> (r: Result<bool, QuotesError>)
        ensures
            match r {
                Result::Ok(b) => b == has_key(self.contents(), channel@, key@),
                Result::Err(e) => e is Pool || e is Database,
            },
    {
        let conn = match self.db.pool.get() {
            Ok(c) => c,
            Err(_) => return Err(QuotesError::Pool),
        };
        match conn.query_row(
            "SELECT 1 FROM quotes WHERE channel = ?1 AND key = ?2 LIMIT 1;",
            (channel, key),
            |_row| Ok(()),
        ).optional() {
            Ok(found) => Ok(found.is_some()),
            Err(_) => Err(QuotesError::Database),
        }
    }

    /// Add an unkeyed quote. Fails with `DuplicateQuote` exactly when the
    /// same user is already quoted with the same text in this channel; on
    /// success the record, stamped with the date of `now`, is added.
    pub fn add_quote_unkeyed(
        &mut self,
        channel: &str,
        username: &str,
        text: &str,
        now: &Timestamp,
    ) -> (r: Result<(), QuotesError>)
        requires
            now.wf(),
        ensures
            match r {
                Result::Ok(()) => {
                    &&& final(self).contents() == old(self).contents().insert(
                        (
                            channel@,
                            username@,
                            Option::None,
                            text@,
                            Option::Some(now.spec_date()),
                        ),
                    )
                    &&& !has_text(old(self).contents(), channel@, username@, text@)
                },
                Result::Err(QuotesError::DuplicateQuote { channel: c, username: u, text: t }) => {
                    &&& final(self).contents() == old(self).contents()
                    &&& has_text(old(self).contents(), channel@, username@, text@)
                    &&& c@ == channel@
                    &&& u@ == username@
                    &&& t@ == text@
                },
                Result::Err(QuotesError::DuplicateKey { .. }) => false,
                Result::Err(_) => true,
            },
    {
        let date = now.date_string();
        match self.insert_quote(channel, username, None, text, date.as_str()) {
            Ok(()) => Ok(()),
            Err(InsertFailure::Constraint) => Err(
                QuotesError::DuplicateQuote {
                    channel: channel.to_owned(),
                    username: username.to_owned(),
                    text: text.to_owned(),
                },
            ),
            Err(InsertFailure::Pool) => Err(QuotesError::Pool),
            Err(InsertFailure::Database) => Err(QuotesError::Database),
        }
    }

    /// Add a keyed quote. Fails with `DuplicateKey` when the key is already
    /// taken in this channel, with `DuplicateQuote` when the key is free but
    /// the same user is already quoted with the same text; on success the
    /// record, stamped with the date of `when`, is added.
    pub fn add_quote_keyed(
        &mut self,
        channel: &str,
        username: &str,
        key: &str,
        text: &str,
        now: &Timestamp,
    ) -> (r: Result<(), QuotesError>)
        requires
            now.wf(),
        ensures
            match r {
                Result::Ok(()) => {
                    &&& final(self).contents() == old(self).contents().insert(
                        (
                            channel@,
                            username@,
                            Option::Some(key@),
                            text@,
                            Option::Some(now.spec_date()),
                        ),
                    )
                    &&& !has_text(old(self).contents(), channel@, username@, text@)
                    &&& !has_key(old(self).contents(), channel@, key@)
                },
                Result::Err(QuotesError::DuplicateKey { channel: c, key: k }) => {
                    &&& final(self).contents() == old(self).contents()
                    &&& has_key(old(self).contents(), channel@, key@)
                    &&& c@ == channel@
                    &&& k@ == key@
                },
                Result::Err(QuotesError::DuplicateQuote { channel: c, username: u, text: t }) => {
                    &&& final(self).contents() == old(self).contents()
                    &&& has_text(old(self).contents(), channel@, username@, text@)
                    &&& !has_key(old(self).contents(), channel@, key@)
                    &&& c@ == channel@
                    &&& u@ == username@
                    &&& t@ == text@
                },
                Result::Err(_) => true,
            },
    {
        let date = now.date_string();
        match self.insert_quote(channel, username, Some(key), text, date.as_str()) {
            Ok(()) => Ok(()),
            Err(InsertFailure::Constraint) => {
                match self.key_taken(channel, key) {
                    Ok(true) => Err(
                        QuotesError::DuplicateKey {
                            channel: channel.to_owned(),
                            key: key.to_owned(),
                        },
                    ),
                    Ok(false) => Err(
                        QuotesError::DuplicateQuote {
                            channel: channel.to_owned(),
                            username: username.to_owned(),
                            text: text.to_owned(),
                        },
                    ),
                    Err(e) => Err(e),
                }
            },
            Err(InsertFailure::Pool) => Err(QuotesError::Pool),
            Err(InsertFailure::Database) => Err(QuotesError::Database),
        }
    }

    /// Fetch the quote stored in `channel` under `key`, if any.
    ///
    /// Relies on `rusqlite::Connection::query_row` running the single select
    /// statement in the body: it returns a stored row exactly when one has
    /// this channel and key.
    #[verifier::external_body]
    pub fn get_quote_keyed(&self, channel: &str, key: &str) -> (r: Result<
        Option<Quote>,
        QuotesError,
    >)
        ensures
            match r {
                Result::Ok(Option::Some(q)) => self.contents().contains(quote_rec(channel@, q))
                    && crate::msg::option_view(q.key) == Option::Some(key@),
                Result::Ok(Option::None) => !has_key(self.contents(), channel@, key@),
                Result::Err(_) => true,
            },
    {
        let conn = match self.db.pool.get() {
            Ok(c) => c,
            Err(_) => return Err(QuotesError::Pool),
        };
        match conn.query_row(
            "SELECT quote, username, time, key FROM quotes WHERE channel = ?1 AND key = ?2 LIMIT 1;",
            (channel, key),
            |row| Ok(Quote { quote: row.get(0)?, username: row.get(1)?, when: row.get(2)?, key: row.get(3)? }),
        ).optional() {
            Ok(q) => Ok(q),
            Err(_) => Err(QuotesError::Database),
        }
    }

    /// Every quote stored for `channel`.
    ///
    /// Relies on `rusqlite` running the single select statement in the body:
    /// each returned row is a stored record of this channel, and no row comes
    /// back exactly when the channel has none.
    #[verifier::external_body]
    fn quotes_for_channel(&self, channel: &str) -> (r: Result<Vec<Quote>, QuotesError>)
        ensures
            match r {
                Result::Ok(v) => (forall|i: int|
                    0 <= i < v@.len() ==> self.contents().contains(
                        #[trigger] quote_rec(channel@, v@[i]),
                    )) && (v@.len() == 0 <==> !has_channel(self.contents(), channel@)),
                Result::Err(_) => true,
            },
    {
        let conn = match self.db.pool.get() {
            Ok(c) => c,
            Err(_) => return Err(QuotesError::Pool),
        };
        let mut stmt = match conn.prepare("SELECT quote, username, time, key FROM quotes WHERE channel = ?1;") {
            Ok(s) => s,
            Err(_) => return Err(QuotesError::Database),
        };
        let rows = stmt.query_map((channel,), |row| {
            Ok(Quote { quote: row.get(0)?, username: row.get(1)?, when: row.get(2)?, key: row.get(3)? })
        });
        match rows {
            Ok(it) => it.collect::<Result<Vec<Quote>, _>>().map_err(|_| QuotesError::Database),
            Err(_) => Err(QuotesError::Database),
        }
    }

    /// Fetch a quote stored for `channel`, chosen at random; `None` exactly
    /// when the channel has none.
    pub fn get_quote_random(&self, channel: &str) -> (r: Result<Option<Quote>, QuotesError>)
        ensures
            match r {
                Result::Ok(Option::Some(q)) => self.contents().contains(quote_rec(channel@, q)),
                Result::Ok(Option::None) => !has_channel(self.contents(), channel@),
                Result::Err(_) => true,
            },
    {
        let mut all = match self.quotes_for_channel(channel) {
            Ok(v) => v,
            Err(e) => return Err(e),
        };
        if all.len() == 0 {
            Ok(None)
        } else {
            let i = random_below(all.len());
            let q = all.swap_remove(i);
            Ok(Some(q))
        }
    }
}

/// Relies on `rand::thread_rng` and `Rng::gen_range`: a value uniformly
/// distributed below `n`.
#[verifier::external_body]
fn random_below(n: usize) -> (r: usize)
    requires
        n > 0,
    ensures
        r < n,
{
    rand::thread_rng().gen_range(0..n)
}

} // verus!
