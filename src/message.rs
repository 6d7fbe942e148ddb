use vstd::prelude::*;

verus! {

/// A message posted by a page script, decoded.
#[derive(Debug, PartialEq, Eq)]
pub enum PageMessage {
    LoadUrl(String),
    CreateTab,
    SwitchTab(usize),
    Unrecognized,
}

pub open spec fn load_prefix() -> Seq<char> {
    seq!['l', 'o', 'a', 'd', 'U', 'r', 'l', ':']
}

pub open spec fn switch_prefix() -> Seq<char> {
    seq!['s', 'w', 'i', 't', 'c', 'h', 'T', 'a', 'b', ':']
}

pub open spec fn create_word() -> Seq<char> {
    seq!['c', 'r', 'e', 'a', 't', 'e', 'N', 'e', 'w', 'T', 'a', 'b']
}

pub open spec fn starts_with(s: Seq<char>, p: Seq<char>) -> bool {
    p.len() <= s.len() && s.subrange(0, p.len() as int) == p
}

pub open spec fn is_digit(c: char) -> bool {
    '0' <= c && c <= '9'
}

pub open spec fn digit_value(c: char) -> nat {
    (c as int - '0' as int) as nat
}

/// The number that a run of decimal digits spells.
pub open spec fn decimal_value(s: Seq<char>) -> nat
    decreases s.len(),
{
    if s.len() == 0 {
        0
    } else {
        decimal_value(s.drop_last()) * 10 + digit_value(s.last())
    }
}

pub open spec fn all_digits(s: Seq<char>) -> bool {
    forall|i: int| 0 <= i < s.len() ==> is_digit(#[trigger] s[i])
}

/// The digits of an index: the text with at most one leading `+` taken off.
pub open spec fn index_digits(s: Seq<char>) -> Seq<char> {
    if s.len() > 0 && s[0] == '+' {
        s.skip(1)
    } else {
        s
    }
}

/// Whether `s` is a non-negative decimal integer that fits in `usize`.
pub open spec fn is_index(s: Seq<char>) -> bool {
    let d = index_digits(s);
    d.len() > 0 && all_digits(d) && decimal_value(d) <= usize::MAX
}

/// Whether `s` begins with `p`.
fn has_prefix(s: &str, p: &str) -> (r: bool)
    ensures
        r == starts_with(s@, p@),
{
    let n = p.unicode_len();
    if n > s.unicode_len() {
        return false;
    }
    let mut i: usize = 0;
    while i < n
        invariant
            n == p@.len(),
            n <= s@.len(),
            i <= n,
            forall|j: int| 0 <= j < i ==> s@[j] == p@[j],
        decreases n - i,
    {
        if s.get_char(i) != p.get_char(i) {
            assert(s@.subrange(0, n as int)[i as int] != p@[i as int]);
            return false;
        }
        i = i + 1;
    }
    assert(s@.subrange(0, n as int) =~= p@);
    true
}

/// Parses a tab index: decimal digits, optionally after one `+`, whose value
/// fits in `usize`.
pub fn parse_index(s: &str) -> (r: Option<usize>)
    ensures
        is_index(s@) ==> r == Some(decimal_value(index_digits(s@)) as usize),
        !is_index(s@) ==> r is None,
{
    let len = s.unicode_len();
    let mut start: usize = 0;
    if len > 0 && s.get_char(0) == '+' {
        start = 1;
    }
    let ghost d = index_digits(s@);
    assert(d =~= s@.subrange(start as int, len as int));
    if start == len {
        return None;
    }
    let mut value: usize = 0;
    let mut overflow = false;
    let mut i: usize = start;
    while i < len
        invariant
            len == s@.len(),
            d == s@.subrange(start as int, len as int),
            d == index_digits(s@),
            start <= i <= len,
            all_digits(s@.subrange(start as int, i as int)),
            !overflow ==> value == decimal_value(s@.subrange(start as int, i as int)),
            overflow ==> decimal_value(s@.subrange(start as int, i as int)) > usize::MAX,
        decreases len - i,
    {
        let c = s.get_char(i);
        let ghost prev = s@.subrange(start as int, i as int);
        let ghost next = s@.subrange(start as int, i + 1);
        assert(next.drop_last() =~= prev);
        if !('0' <= c && c <= '9') {
            assert(d[i - start] == c);
            assert(!all_digits(d));
            return None;
        }
        assert(all_digits(next)) by {
            assert forall|j: int| 0 <= j < next.len() implies is_digit(#[trigger] next[j]) by {
                if j < prev.len() {
                    assert(next[j] == prev[j]);
                }
            }
        }
        let digit = (c as u32 - '0' as u32) as usize;
        assert(digit == digit_value(c));
        if !overflow {
            if value > (usize::MAX - digit) / 10 {
                overflow = true;
            } else {
                value = value * 10 + digit;
            }
        }
        i = i + 1;
    }
    assert(s@.subrange(start as int, len as int) == d);
    if overflow {
        None
    } else {
        Some(value)
    }
}

/// Decodes the text of a page message: `loadUrl:` and a URL, the word
/// `createNewTab`, or `switchTab:` and an index; anything else is
/// `Unrecognized`.
pub fn decode_message(raw: &str) -> (r: PageMessage)
    ensures
        starts_with(raw@, load_prefix()) ==> (r matches PageMessage::LoadUrl(u) && u@ == raw@.skip(
            8,
        )),
        !starts_with(raw@, load_prefix()) && raw@ == create_word() ==> r is CreateTab,
        !starts_with(raw@, load_prefix()) && raw@ != create_word() && starts_with(
            raw@,
            switch_prefix(),
        ) && is_index(raw@.skip(10)) ==> r == PageMessage::SwitchTab(
            decimal_value(index_digits(raw@.skip(10))) as usize,
        ),
        !starts_with(raw@, load_prefix()) && raw@ != create_word() && !(starts_with(
            raw@,
            switch_prefix(),
        ) && is_index(raw@.skip(10))) ==> r is Unrecognized,
{
    proof {
        reveal_strlit("loadUrl:");
        reveal_strlit("createNewTab");
        reveal_strlit("switchTab:");
        assert("loadUrl:"@ =~= load_prefix());
        assert("createNewTab"@ =~= create_word());
        assert("switchTab:"@ =~= switch_prefix());
    }
    let len = raw.unicode_len();
    if has_prefix(raw, "loadUrl:") {
        let rest = raw.substring_char(8, len);
        assert(rest@ =~= raw@.skip(8));
        return PageMessage::LoadUrl(rest.to_owned());
    }
    if has_prefix(raw, "createNewTab") && len == 12 {
        assert(raw@ =~= create_word());
        return PageMessage::CreateTab;
    }
    proof {
        if raw@ == create_word() {
            assert(raw@.subrange(0, 12) =~= raw@);
        }
    }
    if has_prefix(raw, "switchTab:") {
        let rest = raw.substring_char(10, len);
        assert(rest@ =~= raw@.skip(10));
        match parse_index(rest) {
            Some(index) => PageMessage::SwitchTab(index),
            None => PageMessage::Unrecognized,
        }
    } else {
        PageMessage::Unrecognized
    }
}

} // verus!
