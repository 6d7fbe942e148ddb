use vstd::prelude::*;

verus! {

/// A lower-case hexadecimal digit.
pub open spec fn hex_digit(d: int) -> char {
    if d < 10 {
        (d + '0' as int) as char
    } else {
        (d - 10 + 'a' as int) as char
    }
}

/// How one character is written inside a JSON string literal: quote and
/// backslash after a backslash, the five short escapes, other control
/// characters as `\u00XX`, everything else as it is.
pub open spec fn json_escape(c: char) -> Seq<char> {
    if c == '"' {
        seq!['\\', '"']
    } else if c == '\\' {
        seq!['\\', '\\']
    } else if c == '\u{8}' {
        seq!['\\', 'b']
    } else if c == '\t' {
        seq!['\\', 't']
    } else if c == '\n' {
        seq!['\\', 'n']
    } else if c == '\u{c}' {
        seq!['\\', 'f']
    } else if c == '\r' {
        seq!['\\', 'r']
    } else if (c as int) < 0x20 {
        seq!['\\', 'u', '0', '0', hex_digit(c as int / 16), hex_digit(c as int % 16)]
    } else {
        seq![c]
    }
}

/// The characters of `s`, each escaped.
pub open spec fn json_escaped(s: Seq<char>) -> Seq<char>
    decreases s.len(),
{
    if s.len() == 0 {
        Seq::<char>::empty()
    } else {
        json_escaped(s.drop_last()) + json_escape(s.last())
    }
}

/// The JSON string literal for the text `s`.
pub open spec fn json_text(s: Seq<char>) -> Seq<char> {
    seq!['"'] + json_escaped(s) + seq!['"']
}

/// The string that the JSON text `s` holds, if `s` is a JSON string literal.
pub uninterp spec fn json_string_in(s: Seq<char>) -> Option<Seq<char>>;

/// `s` without its leading and trailing whitespace.
pub uninterp spec fn trimmed(s: Seq<char>) -> Seq<char>;

pub open spec fn digit_char(d: nat) -> char {
    ((d % 10) + '0' as nat) as char
}

/// The decimal numeral of `n`, without leading zeros.
pub open spec fn decimal_text(n: nat) -> Seq<char>
    decreases n,
{
    if n < 10 {
        seq![digit_char(n)]
    } else {
        decimal_text(n / 10).push(digit_char(n % 10))
    }
}

/// Relies on serde_json::to_string on a `str`: the text between double
/// quotes, each character escaped as serde_json's escape table says (its
/// `ESCAPE` table and `write_char_escape`). It writes into a `Vec` and cannot
/// fail.
#[verifier::external_body]
pub(crate) fn quote_json(s: &str) -> (r: Option<String>)
    ensures
        r is Some,
        r matches Some(t) ==> t@ == json_text(s@),
{
    serde_json::to_string(s).ok()
}

/// Relies on serde_json::from_str for `String`: decodes a JSON string literal.
#[verifier::external_body]
pub(crate) fn unquote_json(s: &str) -> (r: Option<String>)
    ensures
        r matches Some(t) ==> json_string_in(s@) == Some(t@),
        r is None ==> json_string_in(s@) is None,
{
    serde_json::from_str::<String>(s).ok()
}

/// Relies on str::trim: removes leading and trailing whitespace.
#[verifier::external_body]
pub(crate) fn trim(s: &str) -> (r: &str)
    ensures
        r@ == trimmed(s@),
{
    s.trim()
}

/// The decimal numeral of `n`.
pub fn decimal(n: usize) -> (r: String)
    ensures
        r@ == decimal_text(n as nat),
    decreases n,
{
    let digits = "0123456789";
    proof {
        reveal_strlit("0123456789");
    }
    let d = n % 10;
    let last = digits.substring_char(d, d + 1);
    assert(last@ =~= seq![digit_char(d as nat)]) by {
        assert(last@[0] == digits@[d as int]);
        assert(digit_char(d as nat) == digits@[d as int]);
    }
    if n < 10 {
        last.to_owned()
    } else {
        let mut out = decimal(n / 10);
        out.append(last);
        assert(digit_char(d as nat) == digit_char((n % 10) as nat));
        out
    }
}

} // verus!
