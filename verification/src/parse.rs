//! The command-line grammar: what stands after the prefix in a chat message.
//!
//! A command line is the first whitespace-delimited token followed by that
//! token's own arguments:
//!
//! - `command <trigger> <response...>` defines a user command;
//! - `search`, `lower <word> [<distance>]`, `upper <word> [<distance>]` and
//!   `found` drive the word-elimination game;
//! - `help` and `help quote` request help text;
//! - `quote` fetches a random quote, `quote <key>` (or `quote #<key>`) fetches
//!   one by key, and `quote @<user> "<text>"` adds one, with an optional
//!   `#<key>` before or after the quoted text;
//! - any other single token may name a user-defined command.
//!
//! Anything else is a parse error and produces nothing.

pub mod ast;

use vstd::prelude::*;
use vstd::string::StrSliceExecFns;
use vstd::string::StringExecFns;

use crate::text::all_digits;
use crate::text::digits_val;
use crate::text::is_space;
use self::ast::Command;
use self::ast::CommandModel;
use self::ast::Help;
use self::ast::MetaCommand;
use self::ast::PotentialUser;
use self::ast::Quote;
use self::ast::QuoteModel;
use self::ast::Search;
use self::ast::SearchModel;

verus! {

/// The first index at or after `i` holding a non-space character, or the end.
pub open spec fn skip_spaces(s: Seq<char>, i: int) -> int
    decreases s.len() - i,
{
    if 0 <= i < s.len() && is_space(s[i]) {
        skip_spaces(s, i + 1)
    } else {
        i
    }
}

/// The first index at or after `i` holding a space, or the end: the end of the
/// token starting at `i`.
pub open spec fn token_end(s: Seq<char>, i: int) -> int
    decreases s.len() - i,
{
    if 0 <= i < s.len() && !is_space(s[i]) {
        token_end(s, i + 1)
    } else {
        i
    }
}

/// The first index at or after `i` holding a double quote, or the end.
pub open spec fn find_quote(s: Seq<char>, i: int) -> int
    decreases s.len() - i,
{
    if 0 <= i < s.len() && s[i] != '"' {
        find_quote(s, i + 1)
    } else {
        i
    }
}

/// Only spaces (or nothing) stand at or after `i`.
pub open spec fn only_spaces_from(s: Seq<char>, i: int) -> bool {
    skip_spaces(s, i) == s.len()
}

/// The end of `s` with trailing spaces removed.
pub open spec fn rtrim_end(s: Seq<char>) -> int
    decreases s.len(),
{
    if s.len() > 0 && is_space(s.last()) {
        rtrim_end(s.drop_last())
    } else {
        s.len() as int
    }
}

/// The `command <trigger> <response...>` form, parsed after the end `e1` of
/// the first token.
pub open spec fn parse_meta_spec(s: Seq<char>, e1: int) -> Option<CommandModel> {
    let i2 = skip_spaces(s, e1);
    let e2 = token_end(s, i2);
    if i2 == e2 {
        Option::None
    } else {
        let trigger = s.subrange(i2, e2);
        let i3 = skip_spaces(s, e2);
        let end = rtrim_end(s);
        if i3 < end {
            Option::Some(CommandModel::Meta { trigger, response: s.subrange(i3, end) })
        } else {
            Option::None
        }
    }
}

/// The `lower <word> [<distance>]` / `upper <word> [<distance>]` forms.
pub open spec fn parse_bound_spec(s: Seq<char>, e1: int, lower: bool) -> Option<CommandModel> {
    let i2 = skip_spaces(s, e1);
    let e2 = token_end(s, i2);
    if i2 == e2 {
        Option::None
    } else {
        let word = s.subrange(i2, e2);
        let i3 = skip_spaces(s, e2);
        if i3 == s.len() {
            Option::Some(bound_model(word, Option::None, lower))
        } else {
            let e3 = token_end(s, i3);
            let t3 = s.subrange(i3, e3);
            if only_spaces_from(s, e3) && all_digits(t3) && digits_val(t3) <= usize::MAX {
                Option::Some(bound_model(word, Option::Some(digits_val(t3) as usize), lower))
            } else {
                Option::None
            }
        }
    }
}

/// A lower or upper search bound with the given word and optional distance.
pub open spec fn bound_model(word: Seq<char>, distance: Option<usize>, lower: bool) -> CommandModel {
    if lower {
        CommandModel::Search(SearchModel::Lower { word, distance })
    } else {
        CommandModel::Search(SearchModel::Upper { word, distance })
    }
}

/// The `help` / `help quote` forms.
pub open spec fn parse_help_spec(s: Seq<char>, e1: int) -> Option<CommandModel> {
    let i2 = skip_spaces(s, e1);
    if i2 == s.len() {
        Option::Some(CommandModel::Help(Help::General))
    } else {
        let e2 = token_end(s, i2);
        if s.subrange(i2, e2) == "quote"@ && only_spaces_from(s, e2) {
            Option::Some(CommandModel::Help(Help::Quote))
        } else {
            Option::None
        }
    }
}

/// The `quote @<user> ...` add forms, parsed at the position `at` of the `@`.
pub open spec fn parse_quote_add_spec(s: Seq<char>, at: int) -> Option<CommandModel> {
    let e2 = token_end(s, at + 1);
    if e2 == at + 1 {
        Option::None
    } else {
        let username = s.subrange(at + 1, e2);
        let i3 = skip_spaces(s, e2);
        if i3 == s.len() {
            Option::None
        } else if s[i3] == '#' {
            parse_keyed_text_spec(s, username, i3)
        } else if s[i3] == '"' {
            parse_text_keyed_spec(s, username, i3)
        } else {
            Option::None
        }
    }
}

/// The `#<key> "<text>"` tail of a quote addition, at the position `i3` of
/// the `#`.
pub open spec fn parse_keyed_text_spec(s: Seq<char>, username: Seq<char>, i3: int) -> Option<
    CommandModel,
> {
    let ek = token_end(s, i3 + 1);
    if ek == i3 + 1 {
        Option::None
    } else {
        let key = s.subrange(i3 + 1, ek);
        let i4 = skip_spaces(s, ek);
        if i4 < s.len() && s[i4] == '"' {
            let close = find_quote(s, i4 + 1);
            if close < s.len() && only_spaces_from(s, close + 1) {
                Option::Some(
                    CommandModel::Quote(
                        QuoteModel::Add {
                            username,
                            key: Option::Some(key),
                            text: s.subrange(i4 + 1, close),
                        },
                    ),
                )
            } else {
                Option::None
            }
        } else {
            Option::None
        }
    }
}

/// The `"<text>" [#<key>]` tail of a quote addition, at the position `i3` of
/// the opening quote.
pub open spec fn parse_text_keyed_spec(s: Seq<char>, username: Seq<char>, i3: int) -> Option<
    CommandModel,
> {
    let close = find_quote(s, i3 + 1);
    if close == s.len() {
        Option::None
    } else {
        let text = s.subrange(i3 + 1, close);
        let i5 = skip_spaces(s, close + 1);
        if i5 == s.len() {
            Option::Some(CommandModel::Quote(QuoteModel::Add { username, key: Option::None, text }))
        } else if s[i5] == '#' {
            let ek = token_end(s, i5 + 1);
            if ek > i5 + 1 && only_spaces_from(s, ek) {
                Option::Some(
                    CommandModel::Quote(
                        QuoteModel::Add {
                            username,
                            key: Option::Some(s.subrange(i5 + 1, ek)),
                            text,
                        },
                    ),
                )
            } else {
                Option::None
            }
        } else {
            Option::None
        }
    }
}

/// The `quote ...` forms, parsed after the end `e1` of the first token.
pub open spec fn parse_quote_spec(s: Seq<char>, e1: int) -> Option<CommandModel> {
    let i2 = skip_spaces(s, e1);
    if i2 == s.len() {
        Option::Some(CommandModel::Quote(QuoteModel::Random))
    } else if s[i2] == '@' {
        parse_quote_add_spec(s, i2)
    } else {
        let e2 = token_end(s, i2);
        if !only_spaces_from(s, e2) {
            Option::None
        } else {
            let w2 = s.subrange(i2, e2);
            let key = if w2[0] == '#' {
                w2.subrange(1, w2.len() as int)
            } else {
                w2
            };
            if key.len() == 0 {
                Option::None
            } else {
                Option::Some(CommandModel::Quote(QuoteModel::Get { key }))
            }
        }
    }
}

/// What a whole command line means, if anything.
pub open spec fn parse_spec(s: Seq<char>) -> Option<CommandModel> {
    let i0 = skip_spaces(s, 0);
    let e1 = token_end(s, i0);
    if i0 == e1 {
        Option::None
    } else {
        let w1 = s.subrange(i0, e1);
        if w1 == "command"@ {
            parse_meta_spec(s, e1)
        } else if w1 == "search"@ {
            if only_spaces_from(s, e1) {
                Option::Some(CommandModel::Search(SearchModel::Search))
            } else {
                Option::None
            }
        } else if w1 == "lower"@ {
            parse_bound_spec(s, e1, true)
        } else if w1 == "upper"@ {
            parse_bound_spec(s, e1, false)
        } else if w1 == "found"@ {
            if only_spaces_from(s, e1) {
                Option::Some(CommandModel::Search(SearchModel::Found))
            } else {
                Option::None
            }
        } else if w1 == "help"@ {
            parse_help_spec(s, e1)
        } else if w1 == "quote"@ {
            parse_quote_spec(s, e1)
        } else {
            if only_spaces_from(s, e1) {
                Option::Some(CommandModel::PotentialUser { trigger: w1 })
            } else {
                Option::None
            }
        }
    }
}

proof fn lemma_skip_spaces_bounds(s: Seq<char>, i: int)
    requires
        0 <= i <= s.len(),
    ensures
        i <= skip_spaces(s, i) <= s.len(),
    decreases s.len() - i,
{
    if i < s.len() && is_space(s[i]) {
        lemma_skip_spaces_bounds(s, i + 1);
    }
}

proof fn lemma_token_end_bounds(s: Seq<char>, i: int)
    requires
        0 <= i <= s.len(),
    ensures
        i <= token_end(s, i) <= s.len(),
    decreases s.len() - i,
{
    if i < s.len() && !is_space(s[i]) {
        lemma_token_end_bounds(s, i + 1);
    }
}

proof fn lemma_find_quote_bounds(s: Seq<char>, i: int)
    requires
        0 <= i <= s.len(),
    ensures
        i <= find_quote(s, i) <= s.len(),
    decreases s.len() - i,
{
    if i < s.len() && s[i] != '"' {
        lemma_find_quote_bounds(s, i + 1);
    }
}

/// The first non-space position at or after `i`.
fn skip_spaces_exec(s: &str, i: usize) -> (r: usize)
    requires
        i <= s@.len(),
        s@.len() <= usize::MAX,
    ensures
        r == skip_spaces(s@, i as int),
        i <= r <= s@.len(),
        r == s@.len() || !is_space(s@[r as int]),
{
    let n = s.unicode_len();
    let mut j: usize = i;
    while j < n && crate::text::char_is_space(s.get_char(j))
        invariant
            n == s@.len(),
            i <= j <= n,
            skip_spaces(s@, i as int) == skip_spaces(s@, j as int),
        decreases n - j,
    {
        j = j + 1;
    }
    j
}

/// The end of the token starting at `i`.
fn token_end_exec(s: &str, i: usize) -> (r: usize)
    requires
        i <= s@.len(),
        s@.len() <= usize::MAX,
    ensures
        r == token_end(s@, i as int),
        i <= r <= s@.len(),
        r == s@.len() || is_space(s@[r as int]),
        (i < s@.len() && !is_space(s@[i as int])) ==> r > i,
{
    let n = s.unicode_len();
    let mut j: usize = i;
    while j < n && !crate::text::char_is_space(s.get_char(j))
        invariant
            n == s@.len(),
            i <= j <= n,
            token_end(s@, i as int) == token_end(s@, j as int),
        decreases n - j,
    {
        j = j + 1;
    }
    j
}

/// The first double quote at or after `i`.
fn find_quote_exec(s: &str, i: usize) -> (r: usize)
    requires
        i <= s@.len(),
        s@.len() <= usize::MAX,
    ensures
        r == find_quote(s@, i as int),
        i <= r <= s@.len(),
{
    let n = s.unicode_len();
    let mut j: usize = i;
    while j < n && s.get_char(j) != '"'
        invariant
            n == s@.len(),
            i <= j <= n,
            find_quote(s@, i as int) == find_quote(s@, j as int),
        decreases n - j,
    {
        j = j + 1;
    }
    j
}

/// The end of `s` with trailing spaces removed.
fn rtrim_end_exec(s: &str) -> (r: usize)
    requires
        s@.len() <= usize::MAX,
    ensures
        r == rtrim_end(s@),
        r <= s@.len(),
{
    let n = s.unicode_len();
    let mut j: usize = n;
    proof {
        assert(s@.take(n as int) =~= s@);
    }
    while j > 0 && crate::text::char_is_space(s.get_char(j - 1))
        invariant
            n == s@.len(),
            j <= n,
            rtrim_end(s@) == rtrim_end(s@.take(j as int)),
        decreases j,
    {
        proof {
            assert(s@.take(j as int).drop_last() =~= s@.take(j - 1));
            assert(s@.take(j as int).last() == s@[j - 1]);
        }
        j = j - 1;
    }
    proof {
        if j > 0 {
            assert(s@.take(j as int).last() == s@[j - 1]);
        }
        assert(rtrim_end(s@.take(j as int)) == j);
    }
    j
}

/// Parse the `command <trigger> <response...>` form.
fn parse_meta_exec(s: &str, e1: usize) -> (r: Option<Command>)
    requires
        e1 <= s@.len(),
        s@.len() <= usize::MAX,
    ensures
        match r {
            Option::Some(c) => parse_meta_spec(s@, e1 as int) == Option::Some(c@),
            Option::None => parse_meta_spec(s@, e1 as int) is None,
        },
{
    let i2 = skip_spaces_exec(s, e1);
    let e2 = token_end_exec(s, i2);
    if i2 == e2 {
        return None;
    }
    let trigger = s.substring_char(i2, e2).to_owned();
    let i3 = skip_spaces_exec(s, e2);
    let end = rtrim_end_exec(s);
    if i3 < end {
        let response = s.substring_char(i3, end).to_owned();
        Some(Command::Meta(MetaCommand { trigger, response }))
    } else {
        None
    }
}

/// Parse the `lower <word> [<distance>]` / `upper <word> [<distance>]` forms.
fn parse_bound_exec(s: &str, e1: usize, lower: bool) -> (r: Option<Command>)
    requires
        e1 <= s@.len(),
        s@.len() <= usize::MAX,
    ensures
        match r {
            Option::Some(c) => parse_bound_spec(s@, e1 as int, lower) == Option::Some(c@),
            Option::None => parse_bound_spec(s@, e1 as int, lower) is None,
        },
{
    let i2 = skip_spaces_exec(s, e1);
    let e2 = token_end_exec(s, i2);
    if i2 == e2 {
        return None;
    }
    let word = s.substring_char(i2, e2).to_owned();
    let i3 = skip_spaces_exec(s, e2);
    let n = s.unicode_len();
    let distance: Option<usize>;
    if i3 == n {
        distance = None;
    } else {
        let e3 = token_end_exec(s, i3);
        proof {
            assert(e3 > i3);
        }
        let t3 = s.substring_char(i3, e3);
        let after = skip_spaces_exec(s, e3);
        if after != n {
            return None;
        }
        match crate::text::parse_usize(t3) {
            Some(d) => {
                distance = Some(d);
            },
            None => {
                return None;
            },
        }
    }
    if lower {
        Some(Command::Search(Search::Lower { word, distance }))
    } else {
        Some(Command::Search(Search::Upper { word, distance }))
    }
}

/// Parse the `help` / `help quote` forms.
fn parse_help_exec(s: &str, e1: usize) -> (r: Option<Command>)
    requires
        e1 <= s@.len(),
        s@.len() <= usize::MAX,
    ensures
        match r {
            Option::Some(c) => parse_help_spec(s@, e1 as int) == Option::Some(c@),
            Option::None => parse_help_spec(s@, e1 as int) is None,
        },
{
    let i2 = skip_spaces_exec(s, e1);
    let n = s.unicode_len();
    if i2 == n {
        return Some(Command::Help(Help::General));
    }
    let e2 = token_end_exec(s, i2);
    let w2 = s.substring_char(i2, e2);
    let after = skip_spaces_exec(s, e2);
    if crate::text::str_eq(w2, "quote") && after == n {
        Some(Command::Help(Help::Quote))
    } else {
        None
    }
}

/// Parse the `#<key> "<text>"` tail of a quote addition.
fn parse_keyed_text_exec(s: &str, username: String, i3: usize) -> (r: Option<Command>)
    requires
        i3 < s@.len(),
        s@.len() <= usize::MAX,
    ensures
        match r {
            Option::Some(c) => parse_keyed_text_spec(s@, username@, i3 as int) == Option::Some(c@),
            Option::None => parse_keyed_text_spec(s@, username@, i3 as int) is None,
        },
{
    let n = s.unicode_len();
    let ek = token_end_exec(s, i3 + 1);
    if ek == i3 + 1 {
        return None;
    }
    let key = s.substring_char(i3 + 1, ek).to_owned();
    let i4 = skip_spaces_exec(s, ek);
    if i4 < n && s.get_char(i4) == '"' {
        let close = find_quote_exec(s, i4 + 1);
        if close < n {
            let after = skip_spaces_exec(s, close + 1);
            if after == n {
                let text = s.substring_char(i4 + 1, close).to_owned();
                return Some(Command::Quote(Quote::Add { username, key: Some(key), text }));
            }
        }
        None
    } else {
        None
    }
}

/// Parse the `"<text>" [#<key>]` tail of a quote addition.
fn parse_text_keyed_exec(s: &str, username: String, i3: usize) -> (r: Option<Command>)
    requires
        i3 < s@.len(),
        s@.len() <= usize::MAX,
    ensures
        match r {
            Option::Some(c) => parse_text_keyed_spec(s@, username@, i3 as int) == Option::Some(c@),
            Option::None => parse_text_keyed_spec(s@, username@, i3 as int) is None,
        },
{
    let n = s.unicode_len();
    let close = find_quote_exec(s, i3 + 1);
    if close == n {
        return None;
    }
    let text = s.substring_char(i3 + 1, close).to_owned();
    let i5 = skip_spaces_exec(s, close + 1);
    if i5 == n {
        return Some(Command::Quote(Quote::Add { username, key: None, text }));
    }
    if s.get_char(i5) == '#' {
        let ek = token_end_exec(s, i5 + 1);
        let after = skip_spaces_exec(s, ek);
        if ek > i5 + 1 && after == n {
            let key = s.substring_char(i5 + 1, ek).to_owned();
            return Some(Command::Quote(Quote::Add { username, key: Some(key), text }));
        }
        None
    } else {
        None
    }
}

/// Parse the `quote @<user> ...` add forms.
fn parse_quote_add_exec(s: &str, at: usize) -> (r: Option<Command>)
    requires
        at < s@.len(),
        s@.len() <= usize::MAX,
    ensures
        match r {
            Option::Some(c) => parse_quote_add_spec(s@, at as int) == Option::Some(c@),
            Option::None => parse_quote_add_spec(s@, at as int) is None,
        },
{
    let n = s.unicode_len();
    let e2 = token_end_exec(s, at + 1);
    if e2 == at + 1 {
        return None;
    }
    let username = s.substring_char(at + 1, e2).to_owned();
    let i3 = skip_spaces_exec(s, e2);
    if i3 == n {
        return None;
    }
    let c = s.get_char(i3);
    if c == '#' {
        parse_keyed_text_exec(s, username, i3)
    } else if c == '"' {
        parse_text_keyed_exec(s, username, i3)
    } else {
        None
    }
}

/// Parse the `quote ...` forms.
fn parse_quote_exec(s: &str, e1: usize) -> (r: Option<Command>)
    requires
        e1 <= s@.len(),
        s@.len() <= usize::MAX,
    ensures
        match r {
            Option::Some(c) => parse_quote_spec(s@, e1 as int) == Option::Some(c@),
            Option::None => parse_quote_spec(s@, e1 as int) is None,
        },
{
    let n = s.unicode_len();
    let i2 = skip_spaces_exec(s, e1);
    if i2 == n {
        return Some(Command::Quote(Quote::Random));
    }
    let c = s.get_char(i2);
    if c == '@' {
        return parse_quote_add_exec(s, i2);
    }
    let e2 = token_end_exec(s, i2);
    let after = skip_spaces_exec(s, e2);
    if after != n {
        return None;
    }
    proof {
        assert(s@.subrange(i2 as int, e2 as int).len() > 0);
        assert(s@.subrange(i2 as int, e2 as int)[0] == s@[i2 as int]);
    }
    if c == '#' {
        if e2 == i2 + 1 {
            proof {
                assert(s@.subrange(i2 as int, e2 as int).subrange(
                    1,
                    s@.subrange(i2 as int, e2 as int).len() as int,
                ).len() == 0);
            }
            return None;
        }
        let key = s.substring_char(i2 + 1, e2).to_owned();
        proof {
            assert(s@.subrange(i2 + 1, e2 as int) =~= s@.subrange(i2 as int, e2 as int).subrange(
                1,
                s@.subrange(i2 as int, e2 as int).len() as int,
            ));
        }
        Some(Command::Quote(Quote::Get { key }))
    } else {
        let key = s.substring_char(i2, e2).to_owned();
        Some(Command::Quote(Quote::Get { key }))
    }
}

/// Parse a whole command line; `None` when it matches no rule of the grammar.
pub fn parse(s: &str) -> (r: Option<Command>)
    ensures
        match r {
            Option::Some(c) => parse_spec(s@) == Option::Some(c@),
            Option::None => parse_spec(s@) is None,
        },
{
    let n = s.unicode_len();
    let i0 = skip_spaces_exec(s, 0);
    let e1 = token_end_exec(s, i0);
    if i0 == e1 {
        return None;
    }
    let w1 = s.substring_char(i0, e1);
    let rest_ok = skip_spaces_exec(s, e1) == n;
    if crate::text::str_eq(w1, "command") {
        parse_meta_exec(s, e1)
    } else if crate::text::str_eq(w1, "search") {
        if rest_ok {
            Some(Command::Search(Search::Search))
        } else {
            None
        }
    } else if crate::text::str_eq(w1, "lower") {
        parse_bound_exec(s, e1, true)
    } else if crate::text::str_eq(w1, "upper") {
        parse_bound_exec(s, e1, false)
    } else if crate::text::str_eq(w1, "found") {
        if rest_ok {
            Some(Command::Search(Search::Found))
        } else {
            None
        }
    } else if crate::text::str_eq(w1, "help") {
        parse_help_exec(s, e1)
    } else if crate::text::str_eq(w1, "quote") {
        parse_quote_exec(s, e1)
    } else {
        if rest_ok {
            let trigger = w1.to_owned();
            Some(Command::PotentialUser(PotentialUser { trigger }))
        } else {
            None
        }
    }
}

} // verus!
