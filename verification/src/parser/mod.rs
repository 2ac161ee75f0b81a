//! The query language.
//!
//! A query is a sequence of words separated by white space. A word may start
//! with `+` (the word must match) or `-` (it must not match). What follows is
//! either a filter, `field:value` or `field:lower..upper`, or a text term
//! whose sub-words are separated by underscores.

mod error;

pub use self::error::QueryParserError;
pub use self::error::QueryParserResult;

use crate::text::chars_of;
use crate::text::classify;
use crate::text::find_separator;
use crate::text::part;
use crate::text::pieces;
use crate::text::run_end;
use crate::text::split;
use crate::text::symbol_views;
use crate::text::symbols_of;
use crate::text::text_of;
use crate::text::Separator;
use crate::text::Symbol;
use vstd::prelude::*;
use vstd::string::StringExecFns;

verus! {

/// Whether a word is required or forbidden. A word without either is
/// optional.
#[derive(Debug, PartialOrd, Ord, PartialEq, Eq, Clone, Copy, Structural)]
pub enum Occurance {
    Must,
    MustNot,
}

/// One word of a query.
#[derive(Debug, PartialOrd, Ord, PartialEq, Eq, Clone)]
pub enum Token {
    /// Free text: the sub-words of the word.
    Text { occurance: Option<Occurance>, strings: Vec<String> },
    /// A field that must hold a value.
    FilterEquals { occurance: Option<Occurance>, field: String, value: String },
    /// A field that must lie in a range. A bound that is `None` is open.
    FilterRange {
        occurance: Option<Occurance>,
        field: String,
        left_bound: Option<String>,
        right_bound: Option<String>,
    },
}

/// A token as a mathematical value.
pub enum TokenView {
    Text { occurance: Option<Occurance>, strings: Seq<Seq<char>> },
    FilterEquals { occurance: Option<Occurance>, field: Seq<char>, value: Seq<char> },
    FilterRange {
        occurance: Option<Occurance>,
        field: Seq<char>,
        left_bound: Option<Seq<char>>,
        right_bound: Option<Seq<char>>,
    },
}

/// The views of a sequence of strings.
pub open spec fn texts(strings: Seq<String>) -> Seq<Seq<char>> {
    Seq::new(strings.len(), |i: int| strings[i]@)
}

/// The view of an optional string.
pub open spec fn optional_text(text: Option<String>) -> Option<Seq<char>> {
    match text {
        Some(text) => Some(text@),
        None => None,
    }
}

impl View for Token {
    type V = TokenView;

    open spec fn view(&self) -> TokenView {
        match *self {
            Token::Text { occurance, strings } => TokenView::Text {
                occurance,
                strings: texts(strings@),
            },
            Token::FilterEquals { occurance, field, value } => TokenView::FilterEquals {
                occurance,
                field: field@,
                value: value@,
            },
            Token::FilterRange {
                occurance,
                field,
                left_bound,
                right_bound,
            } => TokenView::FilterRange {
                occurance,
                field: field@,
                left_bound: optional_text(left_bound),
                right_bound: optional_text(right_bound),
            },
        }
    }
}

/// The views of a sequence of tokens.
pub open spec fn token_views(tokens: Seq<Token>) -> Seq<TokenView> {
    Seq::new(tokens.len(), |i: int| tokens[i]@)
}

/// What parsing gives, as a mathematical value: the tokens, or the message of
/// the error.
pub open spec fn parsed_view(result: QueryParserResult<Vec<Token>>) -> Result<
    Seq<TokenView>,
    Seq<char>,
> {
    match result {
        Ok(tokens) => Ok(token_views(tokens@)),
        Err(error) => Err(error@),
    }
}

/// The message for a range bound that is not a number.
pub open spec fn not_a_number(value: Seq<char>) -> Seq<char> {
    "Value `"@ + value + "` is not a number"@
}

/// The occurrence mark of a word, and the word without it.
pub open spec fn occurance_spec(word: Seq<Symbol>) -> (Option<Occurance>, Seq<Symbol>) {
    if word.len() > 0 && word[0].ch == '+' {
        (Some(Occurance::Must), word.skip(1))
    } else if word.len() > 0 && word[0].ch == '-' {
        (Some(Occurance::MustNot), word.skip(1))
    } else {
        (None, word)
    }
}

/// Whether every symbol is numeric.
pub open spec fn all_numeric(value: Seq<Symbol>) -> bool {
    forall|i: int| 0 <= i < value.len() ==> (#[trigger] value[i]).numeric
}

/// A range bound: absent when empty, the digits when numeric, an error
/// otherwise.
pub open spec fn number_spec(value: Seq<Symbol>) -> Result<Option<Seq<char>>, Seq<char>> {
    if value.len() == 0 {
        Ok(None)
    } else if all_numeric(value) {
        Ok(Some(chars_of(value)))
    } else {
        Err(not_a_number(chars_of(value)))
    }
}

/// Whether two dots stand at `at`.
pub open spec fn dots_at(value: Seq<Symbol>, at: int) -> bool {
    0 <= at && at + 1 < value.len() && value[at].ch == '.' && value[at + 1].ch == '.'
}

/// The position of the first `..` at or after `from`, or the length of
/// `value` if there is none.
pub open spec fn find_dots(value: Seq<Symbol>, from: int) -> int
    decreases value.len() - from,
{
    if !(0 <= from < value.len()) {
        value.len() as int
    } else if dots_at(value, from) {
        from
    } else {
        find_dots(value, from + 1)
    }
}

/// A filter on `field`: a range where the value holds `..`, an equality
/// otherwise. Of two bad bounds the left one is reported.
pub open spec fn filter_spec(
    occurance: Option<Occurance>,
    field: Seq<Symbol>,
    value: Seq<Symbol>,
) -> Result<TokenView, Seq<char>> {
    let at = find_dots(value, 0);
    if at < value.len() {
        match number_spec(value.subrange(0, at)) {
            Err(message) => Err(message),
            Ok(left_bound) => match number_spec(value.subrange(at + 2, value.len() as int)) {
                Err(message) => Err(message),
                Ok(right_bound) => Ok(
                    TokenView::FilterRange {
                        occurance,
                        field: chars_of(field),
                        left_bound,
                        right_bound,
                    },
                ),
            },
        }
    } else {
        Ok(TokenView::FilterEquals { occurance, field: chars_of(field), value: chars_of(value) })
    }
}

/// The sub-words of a text term: its non-empty pieces between underscores.
pub open spec fn strings_spec(value: Seq<Symbol>) -> Seq<Seq<char>> {
    let parts = pieces(value, Separator::Underscore);
    Seq::new(parts.len(), |i: int| chars_of(parts[i]))
}

/// The token that a word stands for. The first colon ends the field name of
/// a filter; a word without a colon is a text term.
pub open spec fn token_spec(word: Seq<Symbol>) -> Result<TokenView, Seq<char>> {
    let (occurance, rest) = occurance_spec(word);
    let colon = run_end(rest, Separator::Colon, 0);
    if colon < rest.len() {
        filter_spec(
            occurance,
            rest.subrange(0, colon),
            rest.subrange(colon + 1, rest.len() as int),
        )
    } else {
        Ok(TokenView::Text { occurance, strings: strings_spec(rest) })
    }
}

/// The tokens of a sequence of words, or the error of the first word that has
/// one.
pub open spec fn tokens_spec(words: Seq<Seq<Symbol>>) -> Result<Seq<TokenView>, Seq<char>>
    decreases words.len(),
{
    if words.len() == 0 {
        Ok(Seq::empty())
    } else {
        match tokens_spec(words.drop_last()) {
            Err(message) => Err(message),
            Ok(tokens) => match token_spec(words.last()) {
                Err(message) => Err(message),
                Ok(token) => Ok(tokens.push(token)),
            },
        }
    }
}

/// The meaning of a query: the tokens of its words, where the words are the
/// non-empty pieces between white space.
pub open spec fn query_spec(query: Seq<Symbol>) -> Result<Seq<TokenView>, Seq<char>> {
    tokens_spec(pieces(query, Separator::Space))
}

/// An error among the first words is the error of the whole.
pub proof fn lemma_first_error(words: Seq<Seq<Symbol>>, n: int)
    requires
        0 <= n <= words.len(),
        tokens_spec(words.take(n)) is Err,
    ensures
        tokens_spec(words) == tokens_spec(words.take(n)),
    decreases words.len() - n,
{
    if n == words.len() {
        assert(words.take(n) =~= words);
    } else {
        assert(words.take(n + 1).drop_last() =~= words.take(n));
        lemma_first_error(words, n + 1);
    }
}

/// A word is in error only for a range bound that is present and not
/// numeric, and the message names that bound.
pub proof fn law_only_a_bad_bound_fails(word: Seq<Symbol>)
    ensures
        token_spec(word) matches Err(message) ==> exists|bound: Seq<Symbol>|
            bound.len() > 0 && !all_numeric(bound) && message == not_a_number(
                #[trigger] chars_of(bound),
            ),
{
    let (occurance, rest) = occurance_spec(word);
    let colon = run_end(rest, Separator::Colon, 0);
    if token_spec(word) is Err {
        let value = rest.subrange(colon + 1, rest.len() as int);
        let at = find_dots(value, 0);
        let left = value.subrange(0, at);
        let right = value.subrange(at + 2, value.len() as int);
        if number_spec(left) is Err {
            assert(token_spec(word)->Err_0 == not_a_number(chars_of(left)));
        } else {
            assert(token_spec(word)->Err_0 == not_a_number(chars_of(right)));
        }
    }
}

/// A query parses exactly when each of its words does, and then it has one
/// token for each word.
pub proof fn law_query_parses_word_by_word(words: Seq<Seq<Symbol>>)
    ensures
        tokens_spec(words) is Ok <==> forall|i: int|
            0 <= i < words.len() ==> token_spec(#[trigger] words[i]) is Ok,
        tokens_spec(words) matches Ok(tokens) ==> tokens.len() == words.len() && forall|i: int|
            0 <= i < words.len() ==> token_spec(words[i]) == Ok::<TokenView, Seq<char>>(
                #[trigger] tokens[i],
            ),
    decreases words.len(),
{
    if words.len() > 0 {
        let init = words.drop_last();
        law_query_parses_word_by_word(init);
        if tokens_spec(words) is Ok {
            assert forall|i: int| 0 <= i < words.len() implies token_spec(
                #[trigger] words[i],
            ) is Ok by {
                if i < init.len() {
                    assert(init[i] == words[i]);
                }
            }
        }
        if forall|i: int| 0 <= i < words.len() ==> token_spec(#[trigger] words[i]) is Ok {
            assert forall|i: int| 0 <= i < init.len() implies token_spec(
                #[trigger] init[i],
            ) is Ok by {
                assert(init[i] == words[i]);
            }
            assert(token_spec(words[words.len() - 1]) is Ok);
        }
    }
}

/// The empty query has no token.
pub proof fn law_empty_query_has_no_token()
    ensures
        query_spec(Seq::empty()) == Ok::<Seq<TokenView>, Seq<char>>(Seq::empty()),
{
}

/// Parses a query.
///
/// The result is `query_spec` of the classified query: the tokens in the
/// order of the words, or the message of the first word in error. The empty
/// query, and one of white space only, gives no token.
pub fn parse_query(query: &str) -> (result: QueryParserResult<Vec<Token>>)
    ensures
        parsed_view(result) == query_spec(symbols_of(query@)),
{
    let symbols = classify(query);
    parse_symbols(&symbols)
}

/// Parses a classified query.
pub fn parse_symbols(symbols: &Vec<Symbol>) -> (result: QueryParserResult<Vec<Token>>)
    ensures
        parsed_view(result) == query_spec(symbols@),
{
    let words = split(symbols, Separator::Space);
    let ghost all = symbol_views(words@);
    let mut tokens: Vec<Token> = Vec::new();
    let mut k: usize = 0;
    assert(all.take(0) =~= Seq::<Seq<Symbol>>::empty());
    assert(token_views(tokens@) =~= Seq::<TokenView>::empty());
    while k < words.len()
        invariant
            k <= words.len(),
            all == symbol_views(words@),
            all == pieces(symbols@, Separator::Space),
            tokens_spec(all.take(k as int)) == Ok::<Seq<TokenView>, Seq<char>>(
                token_views(tokens@),
            ),
        decreases words.len() - k,
    {
        assert(all.take(k + 1).drop_last() =~= all.take(k as int));
        assert(all.take(k + 1).last() == words[k as int]@);
        match parse_word(&words[k]) {
            Ok(token) => {
                let ghost before = token_views(tokens@);
                tokens.push(token);
                assert(token_views(tokens@) =~= before.push(token@));
            },
            Err(error) => {
                proof {
                    assert(tokens_spec(all.take(k + 1)) == Err::<Seq<TokenView>, Seq<char>>(
                        error@,
                    ));
                    lemma_first_error(all, k + 1);
                }
                return Err(error);
            },
        }
        k = k + 1;
    }
    assert(all.take(k as int) =~= all);
    Ok(tokens)
}

/// Parses one word.
pub fn parse_word(word: &Vec<Symbol>) -> (result: QueryParserResult<Token>)
    ensures
        match result {
            Ok(token) => token_spec(word@) == Ok::<TokenView, Seq<char>>(token@),
            Err(error) => token_spec(word@) == Err::<TokenView, Seq<char>>(error@),
        },
{
    let mut occurance: Option<Occurance> = None;
    let mut start: usize = 0;
    if word.len() > 0 {
        if word[0].ch == '+' {
            occurance = Some(Occurance::Must);
            start = 1;
        } else if word[0].ch == '-' {
            occurance = Some(Occurance::MustNot);
            start = 1;
        }
    }
    let rest = part(word, start, word.len());
    assert(rest@ =~= occurance_spec(word@).1);
    let colon = find_separator(&rest, Separator::Colon, 0);
    if colon < rest.len() {
        let field = part(&rest, 0, colon);
        let value = part(&rest, colon + 1, rest.len());
        parse_filter(occurance, &field, &value)
    } else {
        parse_text(occurance, &rest)
    }
}

/// The position of the first `..` in `value`, if there is one.
pub fn find_range(value: &Vec<Symbol>) -> (at: Option<usize>)
    ensures
        match at {
            Some(at) => at == find_dots(value@, 0) && at + 1 < value.len(),
            None => find_dots(value@, 0) == value.len(),
        },
{
    let mut i: usize = 0;
    while i < value.len()
        invariant
            i <= value.len(),
            find_dots(value@, 0) == find_dots(value@, i as int),
        decreases value.len() - i,
    {
        if value[i].ch == '.' && i + 1 < value.len() && value[i + 1].ch == '.' {
            return Some(i);
        }
        i = i + 1;
    }
    None
}

/// Parses the part of a word after the colon.
pub fn parse_filter(occurance: Option<Occurance>, field: &Vec<Symbol>, value: &Vec<Symbol>) -> (result:
    QueryParserResult<Token>)
    ensures
        match result {
            Ok(token) => filter_spec(occurance, field@, value@) == Ok::<TokenView, Seq<char>>(
                token@,
            ),
            Err(error) => filter_spec(occurance, field@, value@) == Err::<TokenView, Seq<char>>(
                error@,
            ),
        },
{
    let field = text_of(field);
    match find_range(value) {
        Some(at) => {
            let left = part(value, 0, at);
            let right = part(value, at + 2, value.len());
            let left_bound = match parse_number(&left) {
                Ok(bound) => bound,
                Err(error) => {
                    return Err(error);
                },
            };
            let right_bound = match parse_number(&right) {
                Ok(bound) => bound,
                Err(error) => {
                    return Err(error);
                },
            };
            Ok(Token::FilterRange { occurance, field, left_bound, right_bound })
        },
        None => Ok(Token::FilterEquals { occurance, field, value: text_of(value) }),
    }
}

/// Parses a range bound.
pub fn parse_number(value: &Vec<Symbol>) -> (result: QueryParserResult<Option<String>>)
    ensures
        match result {
            Ok(bound) => number_spec(value@) == Ok::<Option<Seq<char>>, Seq<char>>(
                optional_text(bound),
            ),
            Err(error) => number_spec(value@) == Err::<Option<Seq<char>>, Seq<char>>(error@),
        },
{
    if value.len() == 0 {
        return Ok(None);
    }
    let mut i: usize = 0;
    while i < value.len()
        invariant
            i <= value.len(),
            forall|j: int| 0 <= j < i ==> (#[trigger] value@[j]).numeric,
        decreases value.len() - i,
    {
        if !value[i].numeric {
            let text = text_of(value);
            let mut message = String::from_str("Value `");
            message.append(text.as_str());
            message.append("` is not a number");
            return Err(QueryParserError::new(message.as_str()));
        }
        i = i + 1;
    }
    Ok(Some(text_of(value)))
}

/// Parses a word without a colon.
pub fn parse_text(occurance: Option<Occurance>, value: &Vec<Symbol>) -> (result: QueryParserResult<
    Token,
>)
    ensures
        result matches Ok(token) && token@ == (TokenView::Text {
            occurance,
            strings: strings_spec(value@),
        }),
{
    let strings = as_strings(value);
    Ok(Token::Text { occurance, strings })
}

/// The sub-words of a text term.
pub fn as_strings(value: &Vec<Symbol>) -> (strings: Vec<String>)
    ensures
        texts(strings@) == strings_spec(value@),
{
    let parts = split(value, Separator::Underscore);
    let mut strings: Vec<String> = Vec::new();
    let mut k: usize = 0;
    while k < parts.len()
        invariant
            k <= parts.len(),
            symbol_views(parts@) == pieces(value@, Separator::Underscore),
            strings.len() == k,
            forall|j: int| 0 <= j < k ==> (#[trigger] strings@[j])@ == chars_of(parts@[j]@),
        decreases parts.len() - k,
    {
        strings.push(text_of(&parts[k]));
        k = k + 1;
    }
    assert(texts(strings@) =~= strings_spec(value@)) by {
        assert forall|j: int| 0 <= j < parts.len() implies chars_of(parts@[j]@) == chars_of(
            pieces(value@, Separator::Underscore)[j],
        ) by {
            assert(symbol_views(parts@)[j] == parts@[j]@);
        }
    }
    strings
}

} // verus!
