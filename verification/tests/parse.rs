//! Tests of the command-line grammar.

use oxbow::parse::ast::Command;
use oxbow::parse::ast::Help;
use oxbow::parse::ast::MetaCommand;
use oxbow::parse::ast::PotentialUser;
use oxbow::parse::ast::Quote;
use oxbow::parse::ast::Search;
use oxbow::parse::parse;

fn parse_quote(input: &str) -> Option<Quote> {
    match parse(input) {
        Some(Command::Quote(q)) => Some(q),
        _ => None,
    }
}

#[test]
fn quote_simple() {
    let input = r#"quote @nerosnm "hi hello there""#;
    let expected = Quote::Add {
        username: "nerosnm".into(),
        key: None,
        text: r#"hi hello there"#.into(),
    };

    let actual = parse_quote(input).expect("valid input parses successfully");

    assert_eq!(actual, expected);
}

#[test]
fn quote_tricky() {
    let input = r#"quote @nerosnm "i quote @nerosnm as having #said: 'hi'""#;
    let expected = Quote::Add {
        username: "nerosnm".into(),
        key: None,
        text: r#"i quote @nerosnm as having #said: 'hi'"#.into(),
    };

    let actual = parse_quote(input).expect("valid input parses successfully");

    assert_eq!(actual, expected);
}

#[test]
fn quote_keyword_start() {
    let input = r#"quote @nerosnm #test-quote "this is a test quote""#;
    let expected = Quote::Add {
        username: "nerosnm".into(),
        key: Some("test-quote".into()),
        text: r#"this is a test quote"#.into(),
    };

    let actual = parse_quote(input).expect("valid input parses successfully");

    assert_eq!(actual, expected);
}

#[test]
fn quote_keyword_end() {
    let input = r#"quote @nerosnm "this is a test quote" #testquote"#;
    let expected = Quote::Add {
        username: "nerosnm".into(),
        key: Some("testquote".into()),
        text: r#"this is a test quote"#.into(),
    };

    let actual = parse_quote(input).expect("valid input parses successfully");

    assert_eq!(actual, expected);
}

#[test]
fn quote_get_by_key() {
    assert_eq!(parse_quote("quote testquote"), Some(Quote::Get { key: "testquote".into() }));
    assert_eq!(parse_quote("quote #testquote"), Some(Quote::Get { key: "testquote".into() }));
}

#[test]
fn quote_random() {
    assert_eq!(parse_quote("quote"), Some(Quote::Random));
}

#[test]
fn quote_add_needs_closing_mark() {
    assert_eq!(parse(r#"quote @nerosnm "no closing mark"#), None);
}

#[test]
fn quote_add_needs_text() {
    assert_eq!(parse("quote @nerosnm"), None);
}

#[test]
fn command_definition() {
    let actual = parse("command hello hi there").expect("valid input parses successfully");
    assert_eq!(
        actual,
        Command::Meta(MetaCommand { trigger: "hello".into(), response: "hi there".into() })
    );
}

#[test]
fn command_definition_needs_response() {
    assert_eq!(parse("command hello"), None);
    assert_eq!(parse("command hello   "), None);
}

#[test]
fn help_forms() {
    assert_eq!(parse("help"), Some(Command::Help(Help::General)));
    assert_eq!(parse("help quote"), Some(Command::Help(Help::Quote)));
    assert_eq!(parse("help me"), None);
}

#[test]
fn search_forms() {
    assert_eq!(parse("search"), Some(Command::Search(Search::Search)));
    assert_eq!(parse("found"), Some(Command::Search(Search::Found)));
    assert_eq!(
        parse("lower mint"),
        Some(Command::Search(Search::Lower { word: "mint".into(), distance: None }))
    );
    assert_eq!(
        parse("lower mint 2"),
        Some(Command::Search(Search::Lower { word: "mint".into(), distance: Some(2) }))
    );
    assert_eq!(
        parse("upper mint"),
        Some(Command::Search(Search::Upper { word: "mint".into(), distance: None }))
    );
    assert_eq!(
        parse("upper mint 3"),
        Some(Command::Search(Search::Upper { word: "mint".into(), distance: Some(3) }))
    );
}

#[test]
fn search_rejects_malformed_forms() {
    assert_eq!(parse("lower"), None);
    assert_eq!(
        parse("lower mint 99999999999999999999999999"),
        None,
        "a distance beyond the machine's range is a parse error"
    );
    assert_eq!(parse("lower mint two"), None);
    assert_eq!(parse("lower mint 2 3"), None);
    assert_eq!(parse("search now"), None);
}

#[test]
fn bare_token_is_potential_user_command() {
    assert_eq!(
        parse("hello"),
        Some(Command::PotentialUser(PotentialUser { trigger: "hello".into() }))
    );
    // A trigger takes no arguments; extra tokens are a parse error.
    assert_eq!(parse("hello world"), None);
}

#[test]
fn empty_line_does_not_parse() {
    assert_eq!(parse(""), None);
    assert_eq!(parse("   "), None);
}
