//! Text: comparisons, letter case, the `0x` prefix and decimal numerals.
use vstd::prelude::*;

verus! {

/// `pattern` stands somewhere in `text`.
pub open spec fn has_substring(text: Seq<char>, pattern: Seq<char>) -> bool {
    exists|i: int|
        0 <= i <= text.len() - pattern.len() && #[trigger] text.subrange(i, i + pattern.len())
            == pattern
}

/// `a` comes before `b`: at the first place where they differ its code point is
/// smaller, or it is a proper prefix of `b`.
pub open spec fn lex_less(a: Seq<char>, b: Seq<char>) -> bool
    decreases a.len(),
{
    if b.len() == 0 {
        false
    } else if a.len() == 0 {
        true
    } else if a[0] != b[0] {
        (a[0] as int) < (b[0] as int)
    } else {
        lex_less(a.drop_first(), b.drop_first())
    }
}

/// What `str::to_lowercase` returns.
pub uninterp spec fn lowercase(text: Seq<char>) -> Seq<char>;

/// What `str::to_uppercase` returns.
pub uninterp spec fn uppercase(text: Seq<char>) -> Seq<char>;

/// Every character is an ASCII one.
pub open spec fn all_ascii(text: Seq<char>) -> bool {
    forall|i: int| 0 <= i < text.len() ==> (#[trigger] text[i] as int) < 128
}

/// An ASCII capital letter turned small; any other character as it is.
pub open spec fn ascii_lower(c: char) -> char {
    if 'A' <= c && c <= 'Z' {
        (c as u32 + 32) as char
    } else {
        c
    }
}

/// An ASCII small letter turned capital; any other character as it is.
pub open spec fn ascii_upper(c: char) -> char {
    if 'a' <= c && c <= 'z' {
        (c as u32 - 32) as char
    } else {
        c
    }
}

/// Calls `==` of `str`: two string slices are equal when they hold the same
/// characters.
#[verifier::external_body]
pub(crate) fn text_eq(a: &str, b: &str) -> (r: bool)
    ensures
        r == (a@ == b@),
{
    a == b
}

/// Calls `<` of `str`, which std documents as the order of the code points.
#[verifier::external_body]
pub(crate) fn text_less(a: &str, b: &str) -> (r: bool)
    ensures
        r == lex_less(a@, b@),
{
    a < b
}

/// Calls `str::starts_with` with a string pattern.
#[verifier::external_body]
pub(crate) fn starts_with(text: &str, prefix: &str) -> (r: bool)
    ensures
        r == prefix@.is_prefix_of(text@),
{
    text.starts_with(prefix)
}

/// Calls `str::contains` with a string pattern.
#[verifier::external_body]
pub(crate) fn contains_text(text: &str, pattern: &str) -> (r: bool)
    ensures
        r == has_substring(text@, pattern@),
{
    text.contains(pattern)
}

/// Calls `str::to_lowercase`. Of ASCII text it is stated what comes out: the
/// capital letters turn small and nothing else changes. Of other text the
/// result is only named.
#[verifier::external_body]
pub(crate) fn to_lower(text: &str) -> (r: String)
    ensures
        r@ == lowercase(text@),
        all_ascii(text@) ==> r@ == text@.map_values(|c: char| ascii_lower(c)),
{
    text.to_lowercase()
}

/// Calls `str::to_uppercase`. Of ASCII text it is stated what comes out: the
/// small letters turn capital and nothing else changes. Of other text the
/// result is only named.
#[verifier::external_body]
pub(crate) fn to_upper(text: &str) -> (r: String)
    ensures
        r@ == uppercase(text@),
        all_ascii(text@) ==> r@ == text@.map_values(|c: char| ascii_upper(c)),
{
    text.to_uppercase()
}

/// The lower-case form of `text` is `word`.
pub open spec fn lower_is(text: Seq<char>, word: Seq<char>) -> bool {
    lowercase(text) == word
}

/// Whether the lower-case form of `text` is `word`.
pub fn is_lower(text: &str, word: &str) -> (r: bool)
    ensures
        r == lower_is(text@, word@),
{
    let lower = to_lower(text);
    text_eq(lower.as_str(), word)
}

/// The text with `0x` in front, unless it stands there already.
pub open spec fn hex_prefixed(text: Seq<char>) -> Seq<char> {
    if "0x"@.is_prefix_of(text) {
        text
    } else {
        "0x"@ + text
    }
}

/// Puts `0x` in front of `text` unless it stands there already.
pub fn with_hex_prefix(text: &str) -> (r: String)
    ensures
        r@ == hex_prefixed(text@),
{
    if starts_with(text, "0x") {
        text.to_owned()
    } else {
        let mut prefixed = "0x".to_owned();
        prefixed.append(text);
        prefixed
    }
}

/// Prefixing a prefixed text changes nothing, and the outcome always carries
/// the prefix.
pub proof fn hex_prefixed_is_idempotent(text: Seq<char>)
    ensures
        "0x"@.is_prefix_of(hex_prefixed(text)),
        hex_prefixed(hex_prefixed(text)) == hex_prefixed(text),
{
    assert(("0x"@ + text).subrange(0, "0x"@.len() as int) =~= "0x"@);
}

/// The text without one leading `0x`.
pub open spec fn hex_stripped(text: Seq<char>) -> Seq<char> {
    if "0x"@.is_prefix_of(text) {
        text.skip(2)
    } else {
        text
    }
}

/// Takes one leading `0x` away, if there is one.
pub fn without_hex_prefix(text: &str) -> (r: String)
    ensures
        r@ == hex_stripped(text@),
{
    proof {
        reveal_strlit("0x");
    }
    if starts_with(text, "0x") {
        let end: usize = text.unicode_len();
        text.substring_char(2, end).to_owned()
    } else {
        text.to_owned()
    }
}

/// Taking the prefix away undoes putting it there, on text that had none.
pub proof fn hex_stripped_undoes_hex_prefixed(text: Seq<char>)
    requires
        !"0x"@.is_prefix_of(text),
    ensures
        hex_stripped(hex_prefixed(text)) == text,
{
    reveal_strlit("0x");
    assert(("0x"@ + text).subrange(0, 2) =~= "0x"@);
    assert(("0x"@ + text).skip(2) =~= text);
}

/// The decimal digit `d`.
pub open spec fn digit(d: int) -> char {
    (48 + d) as char
}

/// The decimal numeral of `n`, without leading zeros.
pub open spec fn nat_text(n: nat) -> Seq<char>
    decreases n,
{
    if n < 10 {
        seq![digit(n as int)]
    } else {
        nat_text(n / 10).push(digit((n % 10) as int))
    }
}

/// The decimal numeral of `i`, with a minus sign in front of a negative one.
pub open spec fn int_text(i: int) -> Seq<char> {
    if i < 0 {
        seq!['-'] + nat_text((-i) as nat)
    } else {
        nat_text(i as nat)
    }
}

/// The last `width` decimal digits of `n`, leading zeros included.
pub open spec fn padded_text(n: nat, width: nat) -> Seq<char>
    decreases width,
{
    if width == 0 {
        Seq::empty()
    } else {
        padded_text(n / 10, (width - 1) as nat).push(digit((n % 10) as int))
    }
}

/// The decimal digit `d` as text.
fn digit_text(d: u8) -> (r: &'static str)
    requires
        d < 10,
    ensures
        r@ == seq![digit(d as int)],
{
    proof {
        reveal_strlit("0");
        reveal_strlit("1");
        reveal_strlit("2");
        reveal_strlit("3");
        reveal_strlit("4");
        reveal_strlit("5");
        reveal_strlit("6");
        reveal_strlit("7");
        reveal_strlit("8");
        reveal_strlit("9");
    }
    match d {
        0 => "0",
        1 => "1",
        2 => "2",
        3 => "3",
        4 => "4",
        5 => "5",
        6 => "6",
        7 => "7",
        8 => "8",
        _ => "9",
    }
}

/// Writes `n` in decimal.
pub fn write_nat(n: u128) -> (r: String)
    ensures
        r@ == nat_text(n as nat),
    decreases n,
{
    if n < 10 {
        digit_text(n as u8).to_owned()
    } else {
        let mut text = write_nat(n / 10);
        text.append(digit_text((n % 10) as u8));
        text
    }
}

/// Writes `i` in decimal.
pub fn write_int(i: i64) -> (r: String)
    ensures
        r@ == int_text(i as int),
{
    if i < 0 {
        proof {
            reveal_strlit("-");
        }
        let magnitude: u128 = (-(i as i128)) as u128;
        let mut text = "-".to_owned();
        text.append(write_nat(magnitude).as_str());
        assert(text@ =~= int_text(i as int));
        text
    } else {
        write_nat(i as u128)
    }
}

/// Writes the last `width` decimal digits of `n`.
pub fn write_padded(n: u128, width: u32) -> (r: String)
    ensures
        r@ == padded_text(n as nat, width as nat),
    decreases width,
{
    if width == 0 {
        String::new()
    } else {
        let mut text = write_padded(n / 10, width - 1);
        text.append(digit_text((n % 10) as u8));
        text
    }
}

/// `a` followed by `b`.
pub fn join(a: &str, b: &str) -> (r: String)
    ensures
        r@ == a@ + b@,
{
    let mut text = a.to_owned();
    text.append(b);
    text
}

/// A numeral has one digit for each power of ten that the number reaches, each
/// digit counts by its place, and a negative number has a minus sign in front.
pub proof fn a_numeral_goes_by_its_digits(n: nat)
    ensures
        n < 10 ==> nat_text(n).len() == 1,
        nat_text(n).last() as int == 48 + n % 10,
        n >= 10 ==> nat_text(n).drop_last() == nat_text(n / 10),
        int_text(n as int) == nat_text(n),
        n > 0 ==> int_text(-n).len() == nat_text(n).len() + 1 && int_text(-n)[0] == '-'
            && int_text(-n).drop_first() == nat_text(n),
{
    if n >= 10 {
        assert(nat_text(n).drop_last() =~= nat_text(n / 10));
    }
    if n > 0 {
        assert(int_text(-n).drop_first() =~= nat_text(n));
    }
}

/// Each capital letter has its small one 32 places on, and the other way round;
/// all other characters stay as they are.
pub proof fn letters_have_two_cases(c: char)
    ensures
        'A' <= c && c <= 'Z' ==> ascii_lower(c) as int == c as int + 32 && ascii_upper(
            ascii_lower(c),
        ) == c,
        'a' <= c && c <= 'z' ==> ascii_upper(c) as int == c as int - 32 && ascii_lower(
            ascii_upper(c),
        ) == c,
        !('A' <= c && c <= 'Z') ==> ascii_lower(c) == c,
        !('a' <= c && c <= 'z') ==> ascii_upper(c) == c,
{
}

} // verus!
