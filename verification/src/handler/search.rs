//! Compiles the tokens of a query into a boolean query over the fields of
//! the index.

use crate::document::Document;
use crate::document::FieldValueView;
use crate::document::Value;
use crate::document::ValueView;
use crate::handler::HandlerError;
use crate::handler::HandlerResult;
use crate::index::catalogue_views;
use crate::index::CatalogueEntry;
use crate::index::CatalogueEntryView;
use crate::index::entry_of;
use crate::index::FieldEntry;
use crate::index::FieldEntryView;
use crate::index::FieldKind;
use crate::index::FieldTable;
use crate::parser::parse_query;
use crate::parser::query_spec;
use crate::parser::Occurance;
use crate::parser::Token;
use crate::parser::TokenView;
use crate::text::decimal;
use crate::text::i64_to_string;
use crate::text::symbols_of;
use crate::text::u64_to_string;
use crate::text::i64_of_text;
use crate::text::lowercase;
use crate::text::parse_i64;
use crate::text::parse_u64;
use crate::text::to_lowercase;
use crate::text::u64_of_text;
use vstd::prelude::*;
use vstd::string::StringExecFns;

verus! {

/// How a clause counts towards a match.
#[derive(Clone, Copy, Debug, PartialEq, Eq, Structural)]
pub enum Occurrence {
    /// A document that matches the clause ranks higher.
    Should,
    /// A document must match the clause.
    Must,
    /// A document must not match the clause.
    MustNot,
}

/// A condition on one field. Range bounds are inclusive; a bound that is
/// `None` is open.
#[derive(Clone, Debug, PartialEq, Eq)]
pub enum Predicate {
    Text { field: u32, value: String },
    UInt { field: u32, value: u64 },
    Int { field: u32, value: i64 },
    UIntRange { field: u32, lower: Option<u64>, upper: Option<u64> },
    IntRange { field: u32, lower: Option<i64>, upper: Option<i64> },
}

/// A predicate as a mathematical value.
pub enum PredicateView {
    Text { field: u32, value: Seq<char> },
    UInt { field: u32, value: u64 },
    Int { field: u32, value: i64 },
    UIntRange { field: u32, lower: Option<u64>, upper: Option<u64> },
    IntRange { field: u32, lower: Option<i64>, upper: Option<i64> },
}

impl View for Predicate {
    type V = PredicateView;

    open spec fn view(&self) -> PredicateView {
        match *self {
            Predicate::Text { field, value } => PredicateView::Text { field, value: value@ },
            Predicate::UInt { field, value } => PredicateView::UInt { field, value },
            Predicate::Int { field, value } => PredicateView::Int { field, value },
            Predicate::UIntRange { field, lower, upper } => PredicateView::UIntRange {
                field,
                lower,
                upper,
            },
            Predicate::IntRange { field, lower, upper } => PredicateView::IntRange {
                field,
                lower,
                upper,
            },
        }
    }
}

/// The views of a sequence of predicates.
pub open spec fn predicate_views(predicates: Seq<Predicate>) -> Seq<PredicateView> {
    Seq::new(predicates.len(), |i: int| predicates[i]@)
}

/// What a clause matches: one predicate, or any of several.
#[derive(Clone, Debug, PartialEq, Eq)]
pub enum Matcher {
    One(Predicate),
    AnyOf(Vec<Predicate>),
}

/// A matcher as a mathematical value.
pub enum MatcherView {
    One(PredicateView),
    AnyOf(Seq<PredicateView>),
}

impl View for Matcher {
    type V = MatcherView;

    open spec fn view(&self) -> MatcherView {
        match *self {
            Matcher::One(predicate) => MatcherView::One(predicate@),
            Matcher::AnyOf(predicates) => MatcherView::AnyOf(predicate_views(predicates@)),
        }
    }
}

/// One clause of a compiled query.
#[derive(Clone, Debug, PartialEq, Eq)]
pub struct Clause {
    pub occur: Occurrence,
    pub matcher: Matcher,
}

/// A clause as a mathematical value.
pub struct ClauseView {
    pub occur: Occurrence,
    pub matcher: MatcherView,
}

impl View for Clause {
    type V = ClauseView;

    open spec fn view(&self) -> ClauseView {
        ClauseView { occur: self.occur, matcher: self.matcher@ }
    }
}

/// The views of a sequence of clauses.
pub open spec fn clause_views(clauses: Seq<Clause>) -> Seq<ClauseView> {
    Seq::new(clauses.len(), |i: int| clauses[i]@)
}

/// A compiled query: a flat list of clauses, each with its occurrence.
#[derive(Clone, Debug, PartialEq, Eq)]
pub struct CompiledQuery {
    pub clauses: Vec<Clause>,
}

impl View for CompiledQuery {
    type V = Seq<ClauseView>;

    open spec fn view(&self) -> Seq<ClauseView> {
        clause_views(self.clauses@)
    }
}

/// What compiling gives, as a mathematical value: the clauses, or the message
/// of the error.
pub open spec fn compiled_view(result: HandlerResult<CompiledQuery>) -> Result<
    Seq<ClauseView>,
    Seq<char>,
> {
    match result {
        Ok(query) => Ok(query@),
        Err(error) => Err(error@),
    }
}

/// The message for a field that cannot be searched.
pub open spec fn not_defined(field: Seq<char>) -> Seq<char> {
    "Field `"@ + field + "` not defined"@
}

/// The message for a range over a field that holds no numbers.
pub open spec fn not_numeric(field: Seq<char>) -> Seq<char> {
    "Field `"@ + field + "` not numeric"@
}

/// The message for a value that is no number of the field's type.
pub open spec fn bad_number(value: Seq<char>, field: Seq<char>) -> Seq<char> {
    "Failed to parse value `"@ + value + "` of field `"@ + field + "`"@
}

/// The occurrence of a clause for the mark of a word: optional when there is
/// no mark.
pub open spec fn occur_of(occurance: Option<Occurance>) -> Occurrence {
    match occurance {
        Some(Occurance::Must) => Occurrence::Must,
        Some(Occurance::MustNot) => Occurrence::MustNot,
        None => Occurrence::Should,
    }
}

/// The entry by which a query reaches the field named `name`: the entry of
/// the table, if the field is indexed.
pub open spec fn searchable(table: Seq<FieldEntryView>, name: Seq<char>) -> Option<
    FieldEntryView,
> {
    match entry_of(table, name) {
        Some(entry) => if entry.indexed {
            Some(entry)
        } else {
            None
        },
        None => None,
    }
}

/// A term predicate for `word` on each indexed text field among the first
/// `upto` entries, in the order of the table.
pub open spec fn text_terms(table: Seq<FieldEntryView>, word: Seq<char>, upto: int) -> Seq<
    PredicateView,
>
    decreases upto,
{
    if upto <= 0 {
        Seq::empty()
    } else {
        let before = text_terms(table, word, upto - 1);
        let entry = table[upto - 1];
        if entry.indexed && entry.kind == FieldKind::Text {
            before.push(PredicateView::Text { field: entry.handle, value: word })
        } else {
            before
        }
    }
}

/// The clause of a sub-word that is already in lower case: any indexed text
/// field may hold it.
pub open spec fn word_clause(table: Seq<FieldEntryView>, occur: Occurrence, word: Seq<char>)
    -> ClauseView {
    ClauseView { occur, matcher: MatcherView::AnyOf(text_terms(table, word, table.len() as int)) }
}

/// The clauses of the first `upto` sub-words of a text term, one each, on
/// the lower case form of the sub-word.
pub open spec fn word_clauses(
    table: Seq<FieldEntryView>,
    occur: Occurrence,
    words: Seq<Seq<char>>,
    upto: int,
) -> Seq<ClauseView>
    decreases upto,
{
    if upto <= 0 {
        Seq::empty()
    } else {
        word_clauses(table, occur, words, upto - 1).push(
            word_clause(table, occur, lowercase(words[upto - 1])),
        )
    }
}

/// An unsigned range bound: open when absent or empty, else the number that
/// the text denotes.
pub open spec fn bound_u64(bound: Option<Seq<char>>, field: Seq<char>) -> Result<
    Option<u64>,
    Seq<char>,
> {
    match bound {
        None => Ok(None),
        Some(text) => if text.len() == 0 {
            Ok(None)
        } else {
            match u64_of_text(text) {
                Some(value) => Ok(Some(value)),
                None => Err(bad_number(text, field)),
            }
        },
    }
}

/// A signed range bound: open when absent or empty, else the number that the
/// text denotes.
pub open spec fn bound_i64(bound: Option<Seq<char>>, field: Seq<char>) -> Result<
    Option<i64>,
    Seq<char>,
> {
    match bound {
        None => Ok(None),
        Some(text) => if text.len() == 0 {
            Ok(None)
        } else {
            match i64_of_text(text) {
                Some(value) => Ok(Some(value)),
                None => Err(bad_number(text, field)),
            }
        },
    }
}

/// A clause of one predicate.
pub open spec fn single(occur: Occurrence, predicate: PredicateView) -> Seq<ClauseView> {
    seq![ClauseView { occur, matcher: MatcherView::One(predicate) }]
}

/// The clauses of an equality filter. A text field is compared in lower
/// case; a numeric field needs a numeral of its type.
pub open spec fn equals_clauses(
    table: Seq<FieldEntryView>,
    occur: Occurrence,
    field: Seq<char>,
    value: Seq<char>,
) -> Result<Seq<ClauseView>, Seq<char>> {
    match searchable(table, field) {
        None => Err(not_defined(field)),
        Some(entry) => match entry.kind {
            FieldKind::Text => Ok(
                single(occur, PredicateView::Text { field: entry.handle, value: lowercase(value) }),
            ),
            FieldKind::UInt => match u64_of_text(value) {
                Some(number) => Ok(
                    single(occur, PredicateView::UInt { field: entry.handle, value: number }),
                ),
                None => Err(bad_number(value, field)),
            },
            FieldKind::Int => match i64_of_text(value) {
                Some(number) => Ok(
                    single(occur, PredicateView::Int { field: entry.handle, value: number }),
                ),
                None => Err(bad_number(value, field)),
            },
        },
    }
}

/// The clauses of a range filter. Only a numeric field has ranges; of two
/// bad bounds the left one is reported.
pub open spec fn range_clauses(
    table: Seq<FieldEntryView>,
    occur: Occurrence,
    field: Seq<char>,
    left_bound: Option<Seq<char>>,
    right_bound: Option<Seq<char>>,
) -> Result<Seq<ClauseView>, Seq<char>> {
    match searchable(table, field) {
        None => Err(not_defined(field)),
        Some(entry) => match entry.kind {
            FieldKind::Text => Err(not_numeric(field)),
            FieldKind::UInt => match bound_u64(left_bound, field) {
                Err(message) => Err(message),
                Ok(lower) => match bound_u64(right_bound, field) {
                    Err(message) => Err(message),
                    Ok(upper) => Ok(
                        single(
                            occur,
                            PredicateView::UIntRange { field: entry.handle, lower, upper },
                        ),
                    ),
                },
            },
            FieldKind::Int => match bound_i64(left_bound, field) {
                Err(message) => Err(message),
                Ok(lower) => match bound_i64(right_bound, field) {
                    Err(message) => Err(message),
                    Ok(upper) => Ok(
                        single(
                            occur,
                            PredicateView::IntRange { field: entry.handle, lower, upper },
                        ),
                    ),
                },
            },
        },
    }
}

/// The clauses that one token compiles to.
pub open spec fn token_clauses(table: Seq<FieldEntryView>, token: TokenView) -> Result<
    Seq<ClauseView>,
    Seq<char>,
> {
    match token {
        TokenView::Text { occurance, strings } => Ok(
            word_clauses(table, occur_of(occurance), strings, strings.len() as int),
        ),
        TokenView::FilterEquals { occurance, field, value } => equals_clauses(
            table,
            occur_of(occurance),
            field,
            value,
        ),
        TokenView::FilterRange { occurance, field, left_bound, right_bound } => range_clauses(
            table,
            occur_of(occurance),
            field,
            left_bound,
            right_bound,
        ),
    }
}

/// The compiled form of a sequence of tokens: the clauses of the tokens one
/// after another, or the error of the first token that has one.
pub open spec fn query_clauses(table: Seq<FieldEntryView>, tokens: Seq<TokenView>) -> Result<
    Seq<ClauseView>,
    Seq<char>,
>
    decreases tokens.len(),
{
    if tokens.len() == 0 {
        Ok(Seq::empty())
    } else {
        match query_clauses(table, tokens.drop_last()) {
            Err(message) => Err(message),
            Ok(clauses) => match token_clauses(table, tokens.last()) {
                Err(message) => Err(message),
                Ok(more) => Ok(clauses + more),
            },
        }
    }
}

/// An error among the first tokens is the error of the whole.
pub proof fn lemma_first_failure(table: Seq<FieldEntryView>, tokens: Seq<TokenView>, n: int)
    requires
        0 <= n <= tokens.len(),
        query_clauses(table, tokens.take(n)) is Err,
    ensures
        query_clauses(table, tokens) == query_clauses(table, tokens.take(n)),
    decreases tokens.len() - n,
{
    if n == tokens.len() {
        assert(tokens.take(n) =~= tokens);
    } else {
        assert(tokens.take(n + 1).drop_last() =~= tokens.take(n));
        lemma_first_failure(table, tokens, n + 1);
    }
}

/// A query compiles exactly when each of its tokens does: no token is
/// dropped, and one token in error fails the whole.
pub proof fn law_query_compiles_token_by_token(
    table: Seq<FieldEntryView>,
    tokens: Seq<TokenView>,
)
    ensures
        query_clauses(table, tokens) is Ok <==> forall|i: int|
            0 <= i < tokens.len() ==> token_clauses(table, #[trigger] tokens[i]) is Ok,
    decreases tokens.len(),
{
    if tokens.len() > 0 {
        let init = tokens.drop_last();
        law_query_compiles_token_by_token(table, init);
        if query_clauses(table, tokens) is Ok {
            assert forall|i: int| 0 <= i < tokens.len() implies token_clauses(
                table,
                #[trigger] tokens[i],
            ) is Ok by {
                if i < init.len() {
                    assert(init[i] == tokens[i]);
                }
            }
        }
        if forall|i: int| 0 <= i < tokens.len() ==> token_clauses(table, #[trigger] tokens[i]) is Ok {
            assert forall|i: int| 0 <= i < init.len() implies token_clauses(
                table,
                #[trigger] init[i],
            ) is Ok by {
                assert(init[i] == tokens[i]);
            }
            assert(token_clauses(table, tokens[tokens.len() - 1]) is Ok);
        }
    }
}

/// Whether a predicate is over an indexed field of the table, and of the
/// type of that field.
pub open spec fn over_field(table: Seq<FieldEntryView>, predicate: PredicateView) -> bool {
    exists|i: int|
        0 <= i < table.len() && (#[trigger] table[i]).indexed && match predicate {
            PredicateView::Text { field, .. } => table[i].handle == field && table[i].kind
                == FieldKind::Text,
            PredicateView::UInt { field, .. } => table[i].handle == field && table[i].kind
                == FieldKind::UInt,
            PredicateView::Int { field, .. } => table[i].handle == field && table[i].kind
                == FieldKind::Int,
            PredicateView::UIntRange { field, .. } => table[i].handle == field && table[i].kind
                == FieldKind::UInt,
            PredicateView::IntRange { field, .. } => table[i].handle == field && table[i].kind
                == FieldKind::Int,
        }
}

/// Whether every predicate of a clause is over an indexed field of the
/// table.
pub open spec fn clause_over_fields(table: Seq<FieldEntryView>, clause: ClauseView) -> bool {
    match clause.matcher {
        MatcherView::One(predicate) => over_field(table, predicate),
        MatcherView::AnyOf(predicates) => forall|j: int|
            0 <= j < predicates.len() ==> over_field(table, #[trigger] predicates[j]),
    }
}

/// The term predicates of a word are over indexed text fields.
pub proof fn lemma_text_terms_over_fields(table: Seq<FieldEntryView>, word: Seq<char>, upto: int)
    requires
        0 <= upto <= table.len(),
    ensures
        forall|j: int|
            0 <= j < text_terms(table, word, upto).len() ==> over_field(
                table,
                #[trigger] text_terms(table, word, upto)[j],
            ),
    decreases upto,
{
    if upto > 0 {
        lemma_text_terms_over_fields(table, word, upto - 1);
        let before = text_terms(table, word, upto - 1);
        let terms = text_terms(table, word, upto);
        let entry = table[upto - 1];
        assert forall|j: int| 0 <= j < terms.len() implies over_field(
            table,
            #[trigger] terms[j],
        ) by {
            if j < before.len() {
                assert(terms[j] == before[j]);
            } else {
                assert(entry.indexed && entry.kind == FieldKind::Text);
                assert(terms[j] == (PredicateView::Text { field: entry.handle, value: word }));
            }
        }
    }
}

/// The clauses of the sub-words of a text term are over indexed text
/// fields.
pub proof fn lemma_word_clauses_over_fields(
    table: Seq<FieldEntryView>,
    occur: Occurrence,
    words: Seq<Seq<char>>,
    upto: int,
)
    requires
        0 <= upto <= words.len(),
    ensures
        forall|j: int|
            0 <= j < word_clauses(table, occur, words, upto).len() ==> clause_over_fields(
                table,
                #[trigger] word_clauses(table, occur, words, upto)[j],
            ),
    decreases upto,
{
    if upto > 0 {
        lemma_word_clauses_over_fields(table, occur, words, upto - 1);
        lemma_text_terms_over_fields(table, lowercase(words[upto - 1]), table.len() as int);
        let before = word_clauses(table, occur, words, upto - 1);
        let clauses = word_clauses(table, occur, words, upto);
        assert forall|j: int| 0 <= j < clauses.len() implies clause_over_fields(
            table,
            #[trigger] clauses[j],
        ) by {
            if j < before.len() {
                assert(clauses[j] == before[j]);
            }
        }
    }
}

/// The clauses of a token are over indexed fields of the table.
pub proof fn lemma_token_over_fields(table: Seq<FieldEntryView>, token: TokenView)
    requires
        token_clauses(table, token) is Ok,
    ensures
        forall|j: int|
            0 <= j < token_clauses(table, token)->Ok_0.len() ==> clause_over_fields(
                table,
                #[trigger] token_clauses(table, token)->Ok_0[j],
            ),
{
    match token {
        TokenView::Text { occurance, strings } => {
            lemma_word_clauses_over_fields(
                table,
                occur_of(occurance),
                strings,
                strings.len() as int,
            );
        },
        TokenView::FilterEquals { field, .. } => {
            crate::index::lemma_entry_of(table, field, 0);
            let at = crate::index::position_of(table, field, 0);
            assert(table[at].indexed);
        },
        TokenView::FilterRange { field, .. } => {
            crate::index::lemma_entry_of(table, field, 0);
            let at = crate::index::position_of(table, field, 0);
            assert(table[at].indexed);
        },
    }
}

/// A compiled query asks only indexed fields of the table, each for values
/// of its type.
pub proof fn law_query_asks_indexed_fields(table: Seq<FieldEntryView>, tokens: Seq<TokenView>)
    requires
        query_clauses(table, tokens) is Ok,
    ensures
        forall|j: int|
            0 <= j < query_clauses(table, tokens)->Ok_0.len() ==> clause_over_fields(
                table,
                #[trigger] query_clauses(table, tokens)->Ok_0[j],
            ),
    decreases tokens.len(),
{
    if tokens.len() > 0 {
        law_query_asks_indexed_fields(table, tokens.drop_last());
        lemma_token_over_fields(table, tokens.last());
        let before = query_clauses(table, tokens.drop_last())->Ok_0;
        let more = token_clauses(table, tokens.last())->Ok_0;
        let clauses = query_clauses(table, tokens)->Ok_0;
        assert forall|j: int| 0 <= j < clauses.len() implies clause_over_fields(
            table,
            #[trigger] clauses[j],
        ) by {
            if j < before.len() {
                assert(clauses[j] == before[j]);
            } else {
                assert(clauses[j] == more[j - before.len()]);
            }
        }
    }
}

/// The occurrence of a clause for the mark of a word.
pub fn map_occurance(occurance: &Option<Occurance>) -> (occur: Occurrence)
    ensures
        occur == occur_of(*occurance),
{
    match occurance {
        Some(Occurance::Must) => Occurrence::Must,
        Some(Occurance::MustNot) => Occurrence::MustNot,
        None => Occurrence::Should,
    }
}

/// A predicate that holds where the text field holds the term `value`.
pub fn create_term_query_text(field: u32, value: &str) -> (predicate: Predicate)
    ensures
        predicate@ == (PredicateView::Text { field, value: value@ }),
{
    Predicate::Text { field, value: value.to_owned() }
}

/// A predicate that holds where the field holds `value`.
pub fn create_term_query_u64(field: u32, value: u64) -> (predicate: Predicate)
    ensures
        predicate@ == (PredicateView::UInt { field, value }),
{
    Predicate::UInt { field, value }
}

/// A predicate that holds where the field holds `value`.
pub fn create_term_query_i64(field: u32, value: i64) -> (predicate: Predicate)
    ensures
        predicate@ == (PredicateView::Int { field, value }),
{
    Predicate::Int { field, value }
}

/// A predicate that holds where the field lies between the bounds.
pub fn create_bound_query_u64(field: u32, left_bound: Option<u64>, right_bound: Option<u64>) -> (predicate:
    Predicate)
    ensures
        predicate@ == (PredicateView::UIntRange { field, lower: left_bound, upper: right_bound }),
{
    Predicate::UIntRange { field, lower: left_bound, upper: right_bound }
}

/// A predicate that holds where the field lies between the bounds.
pub fn create_bound_query_i64(field: u32, left_bound: Option<i64>, right_bound: Option<i64>) -> (predicate:
    Predicate)
    ensures
        predicate@ == (PredicateView::IntRange { field, lower: left_bound, upper: right_bound }),
{
    Predicate::IntRange { field, lower: left_bound, upper: right_bound }
}

/// The error for a value that is no number of the field's type.
fn number_error(value: &str, field: &str) -> (error: HandlerError)
    ensures
        error@ == bad_number(value@, field@),
{
    let mut message = String::from_str("Failed to parse value `");
    message.append(value);
    message.append("` of field `");
    message.append(field);
    message.append("`");
    HandlerError::new(message.as_str())
}

/// The error for a field that a query names and cannot reach.
fn field_error(field: &str, complaint: &str) -> (error: HandlerError)
    ensures
        error@ == "Field `"@ + field@ + complaint@,
{
    let mut message = String::from_str("Field `");
    message.append(field);
    message.append(complaint);
    HandlerError::new(message.as_str())
}

/// Reads an unsigned range bound.
pub fn parse_bound_u64(value: &Option<String>, field: &str) -> (result: HandlerResult<Option<u64>>)
    ensures
        match result {
            Ok(bound) => bound_u64(crate::parser::optional_text(*value), field@) == Ok::<
                Option<u64>,
                Seq<char>,
            >(bound),
            Err(error) => bound_u64(crate::parser::optional_text(*value), field@) == Err::<
                Option<u64>,
                Seq<char>,
            >(error@),
        },
{
    match value {
        None => Ok(None),
        Some(text) => {
            if text.as_str().unicode_len() == 0 {
                Ok(None)
            } else {
                match parse_u64(text.as_str()) {
                    Some(number) => Ok(Some(number)),
                    None => Err(number_error(text.as_str(), field)),
                }
            }
        },
    }
}

/// Reads a signed range bound.
pub fn parse_bound_i64(value: &Option<String>, field: &str) -> (result: HandlerResult<Option<i64>>)
    ensures
        match result {
            Ok(bound) => bound_i64(crate::parser::optional_text(*value), field@) == Ok::<
                Option<i64>,
                Seq<char>,
            >(bound),
            Err(error) => bound_i64(crate::parser::optional_text(*value), field@) == Err::<
                Option<i64>,
                Seq<char>,
            >(error@),
        },
{
    match value {
        None => Ok(None),
        Some(text) => {
            if text.as_str().unicode_len() == 0 {
                Ok(None)
            } else {
                match parse_i64(text.as_str()) {
                    Some(number) => Ok(Some(number)),
                    None => Err(number_error(text.as_str(), field)),
                }
            }
        },
    }
}

/// The entry by which a query reaches the field named `name`.
pub fn find_searchable<'a>(table: &'a FieldTable, name: &str) -> (entry: Option<&'a FieldEntry>)
    ensures
        match entry {
            Some(entry) => searchable(table@, name@) == Some(entry@),
            None => searchable(table@, name@) is None,
        },
{
    match table.get(name) {
        Some(entry) => if entry.indexed {
            Some(entry)
        } else {
            None
        },
        None => None,
    }
}

/// The clause of a sub-word that is already in lower case.
pub fn text_clause(table: &FieldTable, occur: Occurrence, word: &str) -> (clause: Clause)
    ensures
        clause@ == word_clause(table@, occur, word@),
{
    let mut terms: Vec<Predicate> = Vec::new();
    let mut i: usize = 0;
    while i < table.entries.len()
        invariant
            i <= table.entries.len(),
            predicate_views(terms@) == text_terms(table@, word@, i as int),
        decreases table.entries.len() - i,
    {
        let entry = &table.entries[i];
        assert(table@[i as int] == entry@);
        let ghost before = predicate_views(terms@);
        if entry.indexed && entry.kind == FieldKind::Text {
            terms.push(create_term_query_text(entry.handle, word));
            assert(predicate_views(terms@) =~= before.push(
                PredicateView::Text { field: entry.handle, value: word@ },
            ));
        }
        i = i + 1;
    }
    Clause { occur, matcher: Matcher::AnyOf(terms) }
}

/// The clauses of an equality filter.
pub fn equals_filter(table: &FieldTable, occur: Occurrence, field: &str, value: &str) -> (result:
    HandlerResult<Vec<Clause>>)
    ensures
        match result {
            Ok(clauses) => equals_clauses(table@, occur, field@, value@) == Ok::<
                Seq<ClauseView>,
                Seq<char>,
            >(clause_views(clauses@)),
            Err(error) => equals_clauses(table@, occur, field@, value@) == Err::<
                Seq<ClauseView>,
                Seq<char>,
            >(error@),
        },
{
    let entry = match find_searchable(table, field) {
        Some(entry) => entry,
        None => {
            return Err(field_error(field, "` not defined"));
        },
    };
    let predicate = match entry.kind {
        FieldKind::Text => {
            let value = to_lowercase(value);
            create_term_query_text(entry.handle, value.as_str())
        },
        FieldKind::UInt => match parse_u64(value) {
            Some(number) => create_term_query_u64(entry.handle, number),
            None => {
                return Err(number_error(value, field));
            },
        },
        FieldKind::Int => match parse_i64(value) {
            Some(number) => create_term_query_i64(entry.handle, number),
            None => {
                return Err(number_error(value, field));
            },
        },
    };
    Ok(one_clause(occur, predicate))
}

/// A list of one clause of one predicate.
fn one_clause(occur: Occurrence, predicate: Predicate) -> (clauses: Vec<Clause>)
    ensures
        clause_views(clauses@) == single(occur, predicate@),
{
    let mut clauses: Vec<Clause> = Vec::new();
    clauses.push(Clause { occur, matcher: Matcher::One(predicate) });
    assert(clause_views(clauses@) =~= single(occur, predicate@));
    clauses
}

/// The clauses of a range filter.
pub fn range_filter(
    table: &FieldTable,
    occur: Occurrence,
    field: &str,
    left_bound: &Option<String>,
    right_bound: &Option<String>,
) -> (result: HandlerResult<Vec<Clause>>)
    ensures
        match result {
            Ok(clauses) => range_clauses(
                table@,
                occur,
                field@,
                crate::parser::optional_text(*left_bound),
                crate::parser::optional_text(*right_bound),
            ) == Ok::<Seq<ClauseView>, Seq<char>>(clause_views(clauses@)),
            Err(error) => range_clauses(
                table@,
                occur,
                field@,
                crate::parser::optional_text(*left_bound),
                crate::parser::optional_text(*right_bound),
            ) == Err::<Seq<ClauseView>, Seq<char>>(error@),
        },
{
    let entry = match find_searchable(table, field) {
        Some(entry) => entry,
        None => {
            return Err(field_error(field, "` not defined"));
        },
    };
    let predicate = match entry.kind {
        FieldKind::Text => {
            return Err(field_error(field, "` not numeric"));
        },
        FieldKind::UInt => {
            let lower = match parse_bound_u64(left_bound, field) {
                Ok(bound) => bound,
                Err(error) => {
                    return Err(error);
                },
            };
            let upper = match parse_bound_u64(right_bound, field) {
                Ok(bound) => bound,
                Err(error) => {
                    return Err(error);
                },
            };
            create_bound_query_u64(entry.handle, lower, upper)
        },
        FieldKind::Int => {
            let lower = match parse_bound_i64(left_bound, field) {
                Ok(bound) => bound,
                Err(error) => {
                    return Err(error);
                },
            };
            let upper = match parse_bound_i64(right_bound, field) {
                Ok(bound) => bound,
                Err(error) => {
                    return Err(error);
                },
            };
            create_bound_query_i64(entry.handle, lower, upper)
        },
    };
    Ok(one_clause(occur, predicate))
}

/// The clauses of a text term: one for each sub-word.
pub fn text_filter(table: &FieldTable, occur: Occurrence, strings: &Vec<String>) -> (clauses: Vec<
    Clause,
>)
    ensures
        clause_views(clauses@) == word_clauses(
            table@,
            occur,
            crate::parser::texts(strings@),
            strings.len() as int,
        ),
{
    let mut clauses: Vec<Clause> = Vec::new();
    let mut i: usize = 0;
    assert(clause_views(clauses@) =~= Seq::<ClauseView>::empty());
    while i < strings.len()
        invariant
            i <= strings.len(),
            clause_views(clauses@) == word_clauses(
                table@,
                occur,
                crate::parser::texts(strings@),
                i as int,
            ),
        decreases strings.len() - i,
    {
        let word = to_lowercase(strings[i].as_str());
        let ghost before = clause_views(clauses@);
        let clause = text_clause(table, occur, word.as_str());
        clauses.push(clause);
        assert(clause_views(clauses@) =~= before.push(clause@));
        i = i + 1;
    }
    clauses
}

/// The clauses that one token compiles to.
pub fn compile_token(table: &FieldTable, token: &Token) -> (result: HandlerResult<Vec<Clause>>)
    ensures
        match result {
            Ok(clauses) => token_clauses(table@, token@) == Ok::<Seq<ClauseView>, Seq<char>>(
                clause_views(clauses@),
            ),
            Err(error) => token_clauses(table@, token@) == Err::<Seq<ClauseView>, Seq<char>>(
                error@,
            ),
        },
{
    match token {
        Token::Text { occurance, strings } => Ok(
            text_filter(table, map_occurance(occurance), strings),
        ),
        Token::FilterEquals { occurance, field, value } => equals_filter(
            table,
            map_occurance(occurance),
            field.as_str(),
            value.as_str(),
        ),
        Token::FilterRange { occurance, field, left_bound, right_bound } => range_filter(
            table,
            map_occurance(occurance),
            field.as_str(),
            left_bound,
            right_bound,
        ),
    }
}

/// Compiles the tokens of a query against the field table of the index.
///
/// The result is `query_clauses`: the clauses of the tokens in order, or the
/// error of the first token that cannot be compiled, in which case nothing
/// of the query is kept.
pub fn build_query(tokens: &[Token], table: &FieldTable) -> (result: HandlerResult<CompiledQuery>)
    ensures
        compiled_view(result) == query_clauses(table@, crate::parser::token_views(tokens@)),
{
    let ghost all = crate::parser::token_views(tokens@);
    let mut clauses: Vec<Clause> = Vec::new();
    let mut k: usize = 0;
    assert(all.take(0) =~= Seq::<TokenView>::empty());
    assert(clause_views(clauses@) =~= Seq::<ClauseView>::empty());
    while k < tokens.len()
        invariant
            k <= tokens.len(),
            all == crate::parser::token_views(tokens@),
            query_clauses(table@, all.take(k as int)) == Ok::<Seq<ClauseView>, Seq<char>>(
                clause_views(clauses@),
            ),
        decreases tokens.len() - k,
    {
        assert(all.take(k + 1).drop_last() =~= all.take(k as int));
        assert(all.take(k + 1).last() == tokens@[k as int]@);
        match compile_token(table, &tokens[k]) {
            Ok(mut more) => {
                let ghost before = clause_views(clauses@);
                let ghost added = clause_views(more@);
                clauses.append(&mut more);
                assert(clause_views(clauses@) =~= before + added);
            },
            Err(error) => {
                proof {
                    assert(query_clauses(table@, all.take(k + 1)) == Err::<
                        Seq<ClauseView>,
                        Seq<char>,
                    >(error@));
                    lemma_first_failure(table@, all, k + 1);
                }
                return Err(error);
            },
        }
        k = k + 1;
    }
    assert(all.take(k as int) =~= all);
    Ok(CompiledQuery { clauses })
}

/// What is to be done for a search.
#[derive(Clone, Debug, PartialEq, Eq)]
pub enum SearchPlan {
    /// The query has no token: the answer is empty, and the index is not
    /// asked.
    Nothing,
    /// The index is asked with this query.
    Run(CompiledQuery),
}

/// A search plan as a mathematical value.
pub enum SearchPlanView {
    Nothing,
    Run(Seq<ClauseView>),
}

/// What planning gives, as a mathematical value: the plan, or the message of
/// the error.
pub open spec fn planned_view(result: HandlerResult<SearchPlan>) -> Result<
    SearchPlanView,
    Seq<char>,
> {
    match result {
        Ok(SearchPlan::Nothing) => Ok(SearchPlanView::Nothing),
        Ok(SearchPlan::Run(query)) => Ok(SearchPlanView::Run(query@)),
        Err(error) => Err(error@),
    }
}

/// The plan for given tokens: nothing for no token, else the compiled
/// query or the error of compiling.
pub open spec fn plan_for(table: Seq<FieldEntryView>, tokens: Seq<TokenView>) -> Result<
    SearchPlanView,
    Seq<char>,
> {
    if tokens.len() == 0 {
        Ok(SearchPlanView::Nothing)
    } else {
        match query_clauses(table, tokens) {
            Ok(clauses) => Ok(SearchPlanView::Run(clauses)),
            Err(message) => Err(message),
        }
    }
}

/// The plan for a query: the error of parsing, or the plan for its tokens.
pub open spec fn plan_spec(table: Seq<FieldEntryView>, query: Seq<char>) -> Result<
    SearchPlanView,
    Seq<char>,
> {
    match query_spec(symbols_of(query)) {
        Err(message) => Err(message),
        Ok(tokens) => plan_for(table, tokens),
    }
}

/// The empty query is answered with nothing, whatever the fields of the
/// index.
pub proof fn law_empty_query_finds_nothing(table: Seq<FieldEntryView>)
    ensures
        plan_spec(table, Seq::empty()) == Ok::<SearchPlanView, Seq<char>>(SearchPlanView::Nothing),
{
    assert(symbols_of(Seq::<char>::empty()) =~= Seq::<crate::text::Symbol>::empty());
    crate::parser::law_empty_query_has_no_token();
}

/// Plans the search for parsed tokens.
pub fn plan_tokens(tokens: &[Token], table: &FieldTable) -> (result: HandlerResult<SearchPlan>)
    ensures
        planned_view(result) == plan_for(table@, crate::parser::token_views(tokens@)),
{
    if tokens.len() == 0 {
        Ok(SearchPlan::Nothing)
    } else {
        match build_query(tokens, table) {
            Ok(query) => Ok(SearchPlan::Run(query)),
            Err(error) => Err(error),
        }
    }
}

/// Plans the search for a query as a client wrote it.
///
/// A query that cannot be parsed or compiled is an error with the message
/// of the parser or the compiler. A query without tokens, such as the
/// empty one, matches nothing and is answered without the index.
pub fn plan_search(query: &str, table: &FieldTable) -> (result: HandlerResult<SearchPlan>)
    ensures
        planned_view(result) == plan_spec(table@, query@),
{
    match parse_query(query) {
        Ok(tokens) => plan_tokens(tokens.as_slice(), table),
        Err(error) => {
            let message = error.to_string();
            Err(HandlerError::new(message.as_str()))
        },
    }
}

/// The most rows that a search returns.
pub const RESULT_LIMIT: usize = 50;

/// How a stored value is shown: a text as it is, a number as its decimal
/// numeral, any other value not at all.
pub open spec fn shown(value: ValueView) -> Option<Seq<char>> {
    match value {
        ValueView::Str(text) => Some(text),
        ValueView::U64(number) => Some(decimal(number as int)),
        ValueView::I64(number) => Some(decimal(number as int)),
        ValueView::Other => None,
    }
}

/// How a stored value is shown.
pub fn value_to_string(value: &Value) -> (text: Option<String>)
    ensures
        crate::parser::optional_text(text) == shown(value@),
{
    match value {
        Value::Str(value) => Some(value.clone()),
        Value::U64(value) => Some(u64_to_string(*value)),
        Value::I64(value) => Some(i64_to_string(*value)),
        Value::Other => None,
    }
}

/// One field of a result row: the name of the field and its value as text.
#[derive(Clone, Debug, PartialEq, Eq)]
pub struct RowField {
    pub name: String,
    pub value: Option<String>,
}

/// A field of a result row as a mathematical value.
pub struct RowFieldView {
    pub name: Seq<char>,
    pub value: Option<Seq<char>>,
}

impl View for RowField {
    type V = RowFieldView;

    open spec fn view(&self) -> RowFieldView {
        RowFieldView { name: self.name@, value: crate::parser::optional_text(self.value) }
    }
}

/// The views of the fields of a row.
pub open spec fn row_view(row: Seq<RowField>) -> Seq<RowFieldView> {
    Seq::new(row.len(), |i: int| row[i]@)
}

/// The position of the first catalogue entry at or after `from` with the
/// given handle, or the length of the catalogue if there is none.
pub open spec fn handle_at(catalogue: Seq<CatalogueEntryView>, handle: u32, from: int) -> int
    decreases catalogue.len() - from,
{
    if !(0 <= from < catalogue.len()) {
        catalogue.len() as int
    } else if catalogue[from].handle == handle {
        from
    } else {
        handle_at(catalogue, handle, from + 1)
    }
}

/// The row of the first `upto` values of a document: for each value whose
/// field the catalogue knows, in order, the name of the field and the value
/// as it is shown. A field that the document does not hold has no entry.
pub open spec fn rendered(
    catalogue: Seq<CatalogueEntryView>,
    document: Seq<FieldValueView>,
    upto: int,
) -> Seq<RowFieldView>
    decreases upto,
{
    if upto <= 0 {
        Seq::empty()
    } else {
        let before = rendered(catalogue, document, upto - 1);
        let at = handle_at(catalogue, document[upto - 1].field, 0);
        if at < catalogue.len() {
            before.push(
                RowFieldView { name: catalogue[at].name, value: shown(document[upto - 1].value) },
            )
        } else {
            before
        }
    }
}

/// The name under which the catalogue lists a handle.
pub fn field_name<'a>(catalogue: &'a [CatalogueEntry], handle: u32) -> (name: Option<&'a str>)
    ensures
        match name {
            Some(name) => handle_at(catalogue_views(catalogue@), handle, 0) < catalogue@.len()
                && name@ == catalogue_views(catalogue@)[handle_at(
                catalogue_views(catalogue@),
                handle,
                0,
            )].name,
            None => handle_at(catalogue_views(catalogue@), handle, 0) == catalogue@.len(),
        },
{
    let ghost listed = catalogue_views(catalogue@);
    let mut i: usize = 0;
    while i < catalogue.len()
        invariant
            i <= catalogue.len(),
            listed == catalogue_views(catalogue@),
            handle_at(listed, handle, 0) == handle_at(listed, handle, i as int),
        decreases catalogue.len() - i,
    {
        assert(listed[i as int] == catalogue@[i as int]@);
        if catalogue[i].handle == handle {
            return Some(catalogue[i].name.as_str());
        }
        i = i + 1;
    }
    None
}

/// Renders a document that a search found.
pub fn render_document(catalogue: &[CatalogueEntry], document: &Document) -> (row: Vec<RowField>)
    ensures
        row_view(row@) == rendered(
            catalogue_views(catalogue@),
            document@,
            document@.len() as int,
        ),
{
    let ghost listed = catalogue_views(catalogue@);
    let mut row: Vec<RowField> = Vec::new();
    let mut i: usize = 0;
    assert(row_view(row@) =~= rendered(listed, document@, 0));
    while i < document.field_values.len()
        invariant
            i <= document.field_values.len(),
            listed == catalogue_views(catalogue@),
            row_view(row@) == rendered(listed, document@, i as int),
        decreases document.field_values.len() - i,
    {
        let field_value = &document.field_values[i];
        assert(document@[i as int] == field_value@);
        let ghost before = row_view(row@);
        match field_name(catalogue, field_value.field) {
            Some(name) => {
                let field = RowField {
                    name: name.to_owned(),
                    value: value_to_string(&field_value.value),
                };
                row.push(field);
                assert(row_view(row@) =~= before.push(field@));
            },
            None => {},
        }
        i = i + 1;
    }
    row
}

/// The number of rows for `found` documents.
pub open spec fn row_count(found: int) -> int {
    if found < RESULT_LIMIT {
        found
    } else {
        RESULT_LIMIT as int
    }
}

/// Renders the documents that a search found, in their order, up to the
/// limit on the rows of a result.
pub fn render_rows(catalogue: &[CatalogueEntry], found: &[Document]) -> (rows: Vec<Vec<RowField>>)
    ensures
        rows@.len() == row_count(found@.len() as int),
        forall|i: int|
            0 <= i < rows@.len() ==> row_view((#[trigger] rows@[i])@) == rendered(
                catalogue_views(catalogue@),
                found@[i]@,
                found@[i]@.len() as int,
            ),
{
    let count = if found.len() < RESULT_LIMIT {
        found.len()
    } else {
        RESULT_LIMIT
    };
    let mut rows: Vec<Vec<RowField>> = Vec::new();
    let mut i: usize = 0;
    while i < count
        invariant
            i <= count <= found.len(),
            rows@.len() == i,
            forall|j: int|
                0 <= j < i ==> row_view((#[trigger] rows@[j])@) == rendered(
                    catalogue_views(catalogue@),
                    found@[j]@,
                    found@[j]@.len() as int,
                ),
        decreases count - i,
    {
        rows.push(render_document(catalogue, &found[i]));
        i = i + 1;
    }
    rows
}

} // verus!
