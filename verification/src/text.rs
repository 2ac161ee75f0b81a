//! Text as a sequence of classified characters.
//!
//! The query grammar, the trimming of text values and the splitting of words
//! are defined over `Symbol`s: a character together with the character
//! classes the standard library assigns to it. `classify` asks the standard
//! library once per character; everything after that is plain verified code
//! over the classified sequence.

use vstd::prelude::*;

verus! {

/// The set of characters for which `char::is_whitespace` answers `true`
/// (the Unicode `White_Space` property).
pub uninterp spec fn whitespace_char(c: char) -> bool;

/// The set of characters for which `char::is_numeric` answers `true`
/// (the Unicode general categories `Nd`, `Nl` and `No`).
pub uninterp spec fn numeric_char(c: char) -> bool;

/// `char::is_whitespace` decides membership in `whitespace_char`: its answer
/// depends on the character alone.
pub assume_specification[ char::is_whitespace ](c: char) -> (b: bool)
    ensures
        b == whitespace_char(c),
;

/// `char::is_numeric` decides membership in `numeric_char`: its answer
/// depends on the character alone.
pub assume_specification[ char::is_numeric ](c: char) -> (b: bool)
    ensures
        b == numeric_char(c),
;

/// A character with its classes.
#[derive(Clone, Copy, Debug, PartialEq, Eq, Structural)]
pub struct Symbol {
    pub ch: char,
    pub space: bool,
    pub numeric: bool,
}

/// The symbol the standard library's character classes give for `c`.
pub open spec fn symbol_of(c: char) -> Symbol {
    Symbol { ch: c, space: whitespace_char(c), numeric: numeric_char(c) }
}

/// The classified form of a text.
pub open spec fn symbols_of(s: Seq<char>) -> Seq<Symbol> {
    Seq::new(s.len(), |i: int| symbol_of(s[i]))
}

/// The characters of a classified text.
pub open spec fn chars_of(s: Seq<Symbol>) -> Seq<char> {
    Seq::new(s.len(), |i: int| s[i].ch)
}

/// Classifies every character of `text`.
pub fn classify(text: &str) -> (symbols: Vec<Symbol>)
    ensures
        symbols@ == symbols_of(text@),
{
    let mut symbols: Vec<Symbol> = Vec::new();
    let chars = text.chars();
    for c in it: chars
        invariant
            it.seq() == text@,
            symbols@ == symbols_of(it.seq().take(it.index() as int)),
    {
        let ghost seen = it.seq().take(it.index() as int);
        let ghost next = it.seq().take(it.index() + 1);
        assert(next =~= seen.push(c));
        let symbol = Symbol { ch: c, space: c.is_whitespace(), numeric: c.is_numeric() };
        assert(symbol == symbol_of(c));
        symbols.push(symbol);
        assert(symbols@.len() == next.len());
        assert forall|i: int| 0 <= i < next.len() implies symbols@[i] == symbol_of(next[i]) by {
            if i < seen.len() {
                assert(symbols@[i] == symbols_of(seen)[i]);
            }
        }
        assert(symbols@ =~= symbols_of(next));
    }
    assert(text@.take(text@.len() as int) =~= text@);
    symbols
}

/// What separates the pieces of a text.
#[derive(Clone, Copy, Debug, PartialEq, Eq, Structural)]
pub enum Separator {
    /// Any white space character.
    Space,
    /// The underscore, which separates the words of a text term.
    Underscore,
    /// The colon, which ends a field name.
    Colon,
}

impl Separator {
    /// Whether `symbol` is this separator.
    pub open spec fn matches(self, symbol: Symbol) -> bool {
        match self {
            Separator::Space => symbol.space,
            Separator::Underscore => symbol.ch == '_',
            Separator::Colon => symbol.ch == ':',
        }
    }

    /// Decides `matches`.
    pub fn is_match(self, symbol: Symbol) -> (b: bool)
        ensures
            b == self.matches(symbol),
    {
        match self {
            Separator::Space => symbol.space,
            Separator::Underscore => symbol.ch == '_',
            Separator::Colon => symbol.ch == ':',
        }
    }
}

/// The end of the separator-free run that starts at `from`: the position of
/// the first separator at or after `from`, or the length of `s` if there is
/// none.
pub open spec fn run_end(s: Seq<Symbol>, sep: Separator, from: int) -> int
    decreases s.len() - from,
{
    if 0 <= from < s.len() && !sep.matches(s[from]) {
        run_end(s, sep, from + 1)
    } else {
        from
    }
}

/// `run_end` stops at the first separator and never leaves the text.
pub proof fn lemma_run_end(s: Seq<Symbol>, sep: Separator, from: int)
    requires
        0 <= from <= s.len(),
    ensures
        from <= run_end(s, sep, from) <= s.len(),
        forall|i: int| from <= i < run_end(s, sep, from) ==> !sep.matches(#[trigger] s[i]),
        run_end(s, sep, from) < s.len() ==> sep.matches(s[run_end(s, sep, from)]),
    decreases s.len() - from,
{
    if from < s.len() && !sep.matches(s[from]) {
        lemma_run_end(s, sep, from + 1);
    }
}

/// The pieces of `s` at or after `from`: its maximal non-empty runs without
/// a separator, in order.
pub open spec fn pieces_from(s: Seq<Symbol>, sep: Separator, from: int) -> Seq<Seq<Symbol>>
    decreases s.len() - from,
    via pieces_from_decreases
{
    if !(0 <= from < s.len()) {
        Seq::<Seq<Symbol>>::empty()
    } else if sep.matches(s[from]) {
        pieces_from(s, sep, from + 1)
    } else {
        seq![s.subrange(from, run_end(s, sep, from))] + pieces_from(
            s,
            sep,
            run_end(s, sep, from),
        )
    }
}

#[via_fn]
proof fn pieces_from_decreases(s: Seq<Symbol>, sep: Separator, from: int) {
    if 0 <= from < s.len() && !sep.matches(s[from]) {
        lemma_run_end(s, sep, from + 1);
    }
}

/// The pieces of the whole of `s`.
pub open spec fn pieces(s: Seq<Symbol>, sep: Separator) -> Seq<Seq<Symbol>> {
    pieces_from(s, sep, 0)
}

/// The views of a vector of symbol vectors.
pub open spec fn symbol_views(v: Seq<Vec<Symbol>>) -> Seq<Seq<Symbol>> {
    Seq::new(v.len(), |i: int| v[i]@)
}

/// The position of the first separator at or after `from`.
pub fn find_separator(symbols: &Vec<Symbol>, sep: Separator, from: usize) -> (end: usize)
    requires
        from <= symbols.len(),
    ensures
        end == run_end(symbols@, sep, from as int),
        from <= end <= symbols.len(),
{
    let mut i: usize = from;
    while i < symbols.len() && !sep.is_match(symbols[i])
        invariant
            from <= i <= symbols.len(),
            run_end(symbols@, sep, from as int) == run_end(symbols@, sep, i as int),
        decreases symbols.len() - i,
    {
        i = i + 1;
    }
    i
}

/// A copy of the symbols from `from` up to `to`.
pub fn part(symbols: &Vec<Symbol>, from: usize, to: usize) -> (r: Vec<Symbol>)
    requires
        from <= to <= symbols.len(),
    ensures
        r@ == symbols@.subrange(from as int, to as int),
{
    let mut r: Vec<Symbol> = Vec::new();
    let mut i: usize = from;
    while i < to
        invariant
            from <= i <= to <= symbols.len(),
            r@ == symbols@.subrange(from as int, i as int),
        decreases to - i,
    {
        r.push(symbols[i]);
        assert(r@ =~= symbols@.subrange(from as int, i + 1));
        i = i + 1;
    }
    r
}

/// Splits `symbols` at the separator and drops the empty pieces.
pub fn split(symbols: &Vec<Symbol>, sep: Separator) -> (r: Vec<Vec<Symbol>>)
    ensures
        symbol_views(r@) == pieces(symbols@, sep),
{
    let mut r: Vec<Vec<Symbol>> = Vec::new();
    let mut i: usize = 0;
    while i < symbols.len()
        invariant
            i <= symbols.len(),
            pieces(symbols@, sep) == symbol_views(r@) + pieces_from(symbols@, sep, i as int),
        decreases symbols.len() - i,
    {
        if sep.is_match(symbols[i]) {
            i = i + 1;
        } else {
            let end = find_separator(symbols, sep, i);
            proof {
                lemma_run_end(symbols@, sep, i + 1);
            }
            let piece = part(symbols, i, end);
            let ghost before = symbol_views(r@);
            r.push(piece);
            assert(symbol_views(r@) =~= before + seq![symbols@.subrange(i as int, end as int)]);
            assert(pieces(symbols@, sep) =~= symbol_views(r@) + pieces_from(
                symbols@,
                sep,
                end as int,
            ));
            i = end;
        }
    }
    assert(pieces(symbols@, sep) =~= symbol_views(r@));
    r
}

/// The text that `symbols` spell.
pub fn text_of(symbols: &Vec<Symbol>) -> (r: String)
    ensures
        r@ == chars_of(symbols@),
{
    let mut chars: Vec<char> = Vec::new();
    let mut i: usize = 0;
    while i < symbols.len()
        invariant
            i <= symbols.len(),
            chars@ == chars_of(symbols@.take(i as int)),
        decreases symbols.len() - i,
    {
        chars.push(symbols[i].ch);
        assert(chars@ =~= chars_of(symbols@.take(i + 1)));
        i = i + 1;
    }
    assert(symbols@.take(symbols.len() as int) =~= symbols@);
    string_from_chars(chars.as_slice())
}

/// `String::from_iter` over a slice of characters: the string holds exactly
/// those characters, in order.
#[verifier::external_body]
fn string_from_chars(chars: &[char]) -> (s: String)
    ensures
        s@ == chars@,
{
    String::from_iter(chars)
}

/// The position of the first symbol at or after `from` that is not white
/// space, or `from` itself where there is none to skip.
pub open spec fn trim_start(s: Seq<Symbol>, from: int) -> int
    decreases s.len() - from,
{
    if 0 <= from < s.len() && s[from].space {
        trim_start(s, from + 1)
    } else {
        from
    }
}

/// The position after the last symbol before `to` that is not white space.
pub open spec fn trim_end(s: Seq<Symbol>, to: int) -> int
    decreases to,
{
    if 0 < to <= s.len() && s[to - 1].space {
        trim_end(s, to - 1)
    } else {
        to
    }
}

/// A text without the white space at its two ends.
pub open spec fn trimmed(s: Seq<Symbol>) -> Seq<Symbol> {
    let start = trim_start(s, 0);
    let end = trim_end(s, s.len() as int);
    if start < end {
        s.subrange(start, end)
    } else {
        Seq::empty()
    }
}

/// Removes the white space at the two ends of a classified text.
pub fn trim(symbols: &Vec<Symbol>) -> (r: Vec<Symbol>)
    ensures
        r@ == trimmed(symbols@),
{
    let mut start: usize = 0;
    while start < symbols.len() && symbols[start].space
        invariant
            start <= symbols.len(),
            trim_start(symbols@, 0) == trim_start(symbols@, start as int),
        decreases symbols.len() - start,
    {
        start = start + 1;
    }
    let mut end: usize = symbols.len();
    while end > 0 && symbols[end - 1].space
        invariant
            end <= symbols.len(),
            trim_end(symbols@, symbols.len() as int) == trim_end(symbols@, end as int),
        decreases end,
    {
        end = end - 1;
    }
    if start < end {
        part(symbols, start, end)
    } else {
        Vec::new()
    }
}

/// A copy of `text` without the white space at its two ends.
pub fn trim_text(text: &str) -> (r: String)
    ensures
        r@ == chars_of(trimmed(symbols_of(text@))),
{
    let symbols = classify(text);
    let kept = trim(&symbols);
    text_of(&kept)
}

/// `str::eq`: two string slices are equal exactly when they hold the same
/// characters.
pub assume_specification[ <str as PartialEq>::eq ](a: &str, b: &str) -> (r: bool)
    ensures
        r == (a@ == b@),
;

/// What `str::to_lowercase` gives for a text: its lower case form under the
/// Unicode case mappings.
pub uninterp spec fn lowercase(s: Seq<char>) -> Seq<char>;

/// `str::to_lowercase`: the result depends on the characters of the text
/// alone, and is named `lowercase`.
#[verifier::external_body]
pub(crate) fn to_lowercase(s: &str) -> (r: String)
    ensures
        r@ == lowercase(s@),
{
    s.to_lowercase()
}

/// Whether `c` is one of the ten decimal digits.
pub open spec fn is_digit(c: char) -> bool {
    '0' <= c <= '9'
}

/// The number that a sequence of decimal digits denotes.
pub open spec fn digits_value(s: Seq<char>) -> int
    decreases s.len(),
{
    if s.len() == 0 {
        0
    } else {
        digits_value(s.drop_last()) * 10 + (s.last() as int - '0' as int)
    }
}

/// Whether `s` is one or more decimal digits.
pub open spec fn all_digits(s: Seq<char>) -> bool {
    s.len() > 0 && forall|i: int| 0 <= i < s.len() ==> is_digit(#[trigger] s[i])
}

/// The integer that a decimal numeral denotes: digits, after a `+`, or, if
/// `signed`, after a `-`. `None` for any other text.
pub open spec fn numeral_value(s: Seq<char>, signed: bool) -> Option<int> {
    if s.len() > 0 && s[0] == '+' && all_digits(s.skip(1)) {
        Some(digits_value(s.skip(1)))
    } else if signed && s.len() > 0 && s[0] == '-' && all_digits(s.skip(1)) {
        Some(-digits_value(s.skip(1)))
    } else if all_digits(s) {
        Some(digits_value(s))
    } else {
        None
    }
}

/// The `u64` that a text denotes, if it is a numeral in range.
pub open spec fn u64_of_text(s: Seq<char>) -> Option<u64> {
    match numeral_value(s, false) {
        Some(value) if value <= u64::MAX => Some(value as u64),
        _ => None,
    }
}

/// The `i64` that a text denotes, if it is a numeral in range.
pub open spec fn i64_of_text(s: Seq<char>) -> Option<i64> {
    match numeral_value(s, true) {
        Some(value) if i64::MIN <= value <= i64::MAX => Some(value as i64),
        _ => None,
    }
}

/// The characters of a text.
pub fn characters(text: &str) -> (chars: Vec<char>)
    ensures
        chars@ == text@,
{
    let mut chars: Vec<char> = Vec::new();
    let source = text.chars();
    for c in it: source
        invariant
            it.seq() == text@,
            chars@ == it.seq().take(it.index() as int),
    {
        chars.push(c);
    }
    assert(text@.take(text@.len() as int) =~= text@);
    chars
}

/// The value of a decimal digit, or `None` for any other character.
pub fn digit_of(c: char) -> (digit: Option<u64>)
    ensures
        match digit {
            Some(digit) => is_digit(c) && digit == c as int - '0' as int,
            None => !is_digit(c),
        },
{
    match c {
        '0' => Some(0),
        '1' => Some(1),
        '2' => Some(2),
        '3' => Some(3),
        '4' => Some(4),
        '5' => Some(5),
        '6' => Some(6),
        '7' => Some(7),
        '8' => Some(8),
        '9' => Some(9),
        _ => None,
    }
}

/// Digits denote a number that is not negative, and more digits denote no
/// smaller number.
pub proof fn lemma_digits_value_grows(s: Seq<char>, k: int)
    requires
        0 <= k <= s.len(),
        forall|i: int| 0 <= i < s.len() ==> is_digit(#[trigger] s[i]),
    ensures
        0 <= digits_value(s.take(k)) <= digits_value(s),
    decreases s.len(),
{
    if k == s.len() {
        assert(s.take(k) =~= s);
        if s.len() > 0 {
            lemma_digits_value_grows(s.drop_last(), s.len() - 1);
            assert(s.drop_last().take(s.len() - 1) =~= s.drop_last());
        }
    } else {
        lemma_digits_value_grows(s.drop_last(), k);
        lemma_digits_value_grows(s.drop_last(), s.len() - 1);
        assert(s.drop_last().take(s.len() - 1) =~= s.drop_last());
        assert(s.drop_last().take(k) =~= s.take(k));
    }
}

/// The number that the characters from `start` on denote, if they are one or
/// more decimal digits and the number fits.
pub fn parse_digits(chars: &Vec<char>, start: usize) -> (value: Option<u64>)
    requires
        start <= chars.len(),
    ensures
        match value {
            Some(value) => all_digits(chars@.skip(start as int)) && value == digits_value(
                chars@.skip(start as int),
            ),
            None => !all_digits(chars@.skip(start as int)) || digits_value(
                chars@.skip(start as int),
            ) > u64::MAX,
        },
{
    let ghost digits = chars@.skip(start as int);
    if start >= chars.len() {
        return None;
    }
    let mut value: u64 = 0;
    let mut i: usize = start;
    assert(digits.take(0) =~= Seq::<char>::empty());
    while i < chars.len()
        invariant
            start <= i <= chars.len(),
            digits == chars@.skip(start as int),
            forall|j: int| 0 <= j < i - start ==> is_digit(#[trigger] digits[j]),
            value == digits_value(digits.take(i - start)),
        decreases chars.len() - i,
    {
        assert(digits[i - start] == chars@[i as int]);
        assert(digits.take(i - start + 1).drop_last() =~= digits.take(i - start));
        match digit_of(chars[i]) {
            None => {
                return None;
            },
            Some(digit) => {
                if value > (u64::MAX - digit) / 10 {
                    proof {
                        if all_digits(digits) {
                            lemma_digits_value_grows(digits, i - start + 1);
                        }
                    }
                    return None;
                }
                value = value * 10 + digit;
            },
        }
        i = i + 1;
    }
    assert(digits.take(i - start) =~= digits);
    Some(value)
}

/// The `u64` that a text denotes: an optional `+`, then one or more decimal
/// digits whose number fits.
pub fn parse_u64(s: &str) -> (r: Option<u64>)
    ensures
        r == u64_of_text(s@),
{
    let chars = characters(s);
    let start: usize = if chars.len() > 0 && chars[0] == '+' {
        1
    } else {
        0
    };
    assert(chars@.skip(0) =~= chars@);
    parse_digits(&chars, start)
}

/// The `i64` that a text denotes: an optional `+` or `-`, then one or more
/// decimal digits whose number, with the sign, fits.
pub fn parse_i64(s: &str) -> (r: Option<i64>)
    ensures
        r == i64_of_text(s@),
{
    let chars = characters(s);
    let negative = chars.len() > 0 && chars[0] == '-';
    let start: usize = if chars.len() > 0 && (chars[0] == '+' || chars[0] == '-') {
        1
    } else {
        0
    };
    assert(chars@.skip(0) =~= chars@);
    match parse_digits(&chars, start) {
        None => None,
        Some(magnitude) => {
            if negative {
                if magnitude > 0x8000_0000_0000_0000 {
                    None
                } else if magnitude == 0x8000_0000_0000_0000 {
                    Some(i64::MIN)
                } else {
                    Some(-(magnitude as i64))
                }
            } else if magnitude > 0x7fff_ffff_ffff_ffff {
                None
            } else {
                Some(magnitude as i64)
            }
        },
    }
}

/// The character of a decimal digit.
pub open spec fn digit_char(d: int) -> char {
    if d == 0 {
        '0'
    } else if d == 1 {
        '1'
    } else if d == 2 {
        '2'
    } else if d == 3 {
        '3'
    } else if d == 4 {
        '4'
    } else if d == 5 {
        '5'
    } else if d == 6 {
        '6'
    } else if d == 7 {
        '7'
    } else if d == 8 {
        '8'
    } else {
        '9'
    }
}

/// The decimal digits of a natural number, without leading zeros.
pub open spec fn decimal_digits(n: nat) -> Seq<char>
    decreases n,
{
    if n < 10 {
        seq![digit_char(n as int)]
    } else {
        decimal_digits(n / 10).push(digit_char((n % 10) as int))
    }
}

/// The decimal numeral of an integer, with `-` before a negative one.
pub open spec fn decimal(n: int) -> Seq<char> {
    if n < 0 {
        seq!['-'] + decimal_digits((-n) as nat)
    } else {
        decimal_digits(n as nat)
    }
}

/// The character of a decimal digit.
pub fn digit_character(digit: u64) -> (c: char)
    requires
        digit < 10,
    ensures
        c == digit_char(digit as int),
{
    if digit == 0 {
        '0'
    } else if digit == 1 {
        '1'
    } else if digit == 2 {
        '2'
    } else if digit == 3 {
        '3'
    } else if digit == 4 {
        '4'
    } else if digit == 5 {
        '5'
    } else if digit == 6 {
        '6'
    } else if digit == 7 {
        '7'
    } else if digit == 8 {
        '8'
    } else {
        '9'
    }
}

/// Appends the decimal digits of a number.
pub fn push_digits(number: u64, out: &mut Vec<char>)
    ensures
        final(out)@ == old(out)@ + decimal_digits(number as nat),
    decreases number,
{
    if number >= 10 {
        push_digits(number / 10, out);
    }
    out.push(digit_character(number % 10));
    assert(out@ =~= old(out)@ + decimal_digits(number as nat));
}

/// The decimal numeral of a number.
pub fn u64_to_string(value: u64) -> (r: String)
    ensures
        r@ == decimal(value as int),
{
    let mut chars: Vec<char> = Vec::new();
    push_digits(value, &mut chars);
    assert(chars@ =~= decimal(value as int));
    string_from_chars(chars.as_slice())
}

/// The decimal numeral of a number, with `-` before a negative one.
pub fn i64_to_string(value: i64) -> (r: String)
    ensures
        r@ == decimal(value as int),
{
    let mut chars: Vec<char> = Vec::new();
    if value < 0 {
        chars.push('-');
        let magnitude: u64 = if value == i64::MIN {
            0x8000_0000_0000_0000
        } else {
            (-value) as u64
        };
        push_digits(magnitude, &mut chars);
    } else {
        push_digits(value as u64, &mut chars);
    }
    assert(chars@ =~= decimal(value as int));
    string_from_chars(chars.as_slice())
}

} // verus!
