//! Host parts: the hostname and the optional port of a `host:port` text.

use vstd::prelude::*;
use vstd::string::StrSliceExecFns;

verus! {

/// Whether `i` is the first index at which `text` holds `delimiter`.
pub open spec fn is_first_index(text: Seq<char>, delimiter: char, i: int) -> bool {
    &&& 0 <= i < text.len()
    &&& text[i] == delimiter
    &&& forall|j: int| 0 <= j < i ==> text[j] != delimiter
}

/// The text before the first `delimiter` and the text after it, if the
/// delimiter occurs.
pub open spec fn split_once(text: Seq<char>, delimiter: char) -> Option<(Seq<char>, Seq<char>)> {
    if exists|i: int| is_first_index(text, delimiter, i) {
        let i = choose|i: int| is_first_index(text, delimiter, i);
        Some((text.subrange(0, i), text.subrange(i + 1, text.len() as int)))
    } else {
        None
    }
}

/// The value of a decimal digit.
pub open spec fn digit_value(c: char) -> nat {
    (c as u32 - '0' as u32) as nat
}

/// Whether the character is one of `0` to `9`.
pub open spec fn is_digit(c: char) -> bool {
    '0' <= c && c <= '9'
}

/// The number that a string of decimal digits stands for.
pub open spec fn decimal_value(digits: Seq<char>) -> nat
    decreases digits.len(),
{
    if digits.len() == 0 {
        0
    } else {
        decimal_value(digits.drop_last()) * 10 + digit_value(digits.last())
    }
}

/// Whether every character is a decimal digit.
pub open spec fn all_digits(text: Seq<char>) -> bool {
    forall|i: int| 0 <= i < text.len() ==> is_digit(#[trigger] text[i])
}

/// The text without a leading `+`.
pub open spec fn unsigned_part(text: Seq<char>) -> Seq<char> {
    if text.len() > 0 && text[0] == '+' {
        text.subrange(1, text.len() as int)
    } else {
        text
    }
}

/// The port that a text stands for: decimal digits, at least one, after an
/// optional `+`, with a value that fits 16 bits.
pub open spec fn parse_port(text: Seq<char>) -> Option<u16> {
    let digits = unsigned_part(text);
    if digits.len() > 0 && all_digits(digits) && decimal_value(digits) <= u16::MAX {
        Some(decimal_value(digits) as u16)
    } else {
        None
    }
}

/// The hostname of a host text: what stands before the first `:`, or all of
/// it.
pub open spec fn hostname_of(text: Seq<char>) -> Seq<char> {
    match split_once(text, ':') {
        Some(parts) => parts.0,
        None => text,
    }
}

/// The port of a host text: what stands after the first `:`, if that is a
/// port number.
pub open spec fn port_of(text: Seq<char>) -> Option<u16> {
    match split_once(text, ':') {
        Some(parts) => parse_port(parts.1),
        None => None,
    }
}

/// The first index that meets `is_first_index` is the only one.
pub proof fn lemma_first_index_unique(text: Seq<char>, delimiter: char, i: int, k: int)
    requires
        is_first_index(text, delimiter, i),
        is_first_index(text, delimiter, k),
    ensures
        i == k,
{
    if i < k {
        assert(text[i] != delimiter);
    } else if k < i {
        assert(text[k] != delimiter);
    }
}

/// A prefix of a digit string stands for no larger number than the whole.
pub proof fn lemma_decimal_prefix(digits: Seq<char>, n: int)
    requires
        0 <= n <= digits.len(),
    ensures
        decimal_value(digits.take(n)) <= decimal_value(digits),
    decreases digits.len() - n,
{
    if n < digits.len() {
        let next = digits.take(n + 1);
        assert(next.drop_last() =~= digits.take(n));
        lemma_decimal_prefix(digits, n + 1);
    } else {
        assert(digits.take(n) =~= digits);
    }
}

/// Splits the text at the first `delimiter`: the part before it and the
/// part after it, or `None` if the delimiter does not occur.
pub fn str_split_once(str: &str, delimiter: char) -> (parts: Option<(&str, &str)>)
    ensures
        match split_once(str@, delimiter) {
            Some(expected) => (parts matches Some(p) && p.0@ == expected.0 && p.1@ == expected.1),
            None => parts is None,
        },
{
    let n = str.unicode_len();
    let mut i: usize = 0;
    while i < n
        invariant
            n == str@.len(),
            i <= n,
            forall|j: int| 0 <= j < i ==> str@[j] != delimiter,
        decreases n - i,
    {
        if str.get_char(i) == delimiter {
            proof {
                assert(is_first_index(str@, delimiter, i as int));
                let k = choose|k: int| is_first_index(str@, delimiter, k);
                lemma_first_index_unique(str@, delimiter, i as int, k);
            }
            let prefix = str.substring_char(0, i);
            let suffix = str.substring_char(i + 1, n);
            return Some((prefix, suffix));
        }
        i = i + 1;
    }
    None
}

/// Reads a port number: decimal digits after an optional `+`.
pub fn parse_port_number(text: &str) -> (port: Option<u16>)
    ensures
        port == parse_port(text@),
{
    let n = text.unicode_len();
    if n == 0 {
        return None;
    }
    let start: usize = if text.get_char(0) == '+' {
        1
    } else {
        0
    };
    if start == n {
        return None;
    }
    let ghost digits = unsigned_part(text@);
    assert(digits =~= text@.subrange(start as int, n as int));
    let mut value: u16 = 0;
    let mut i: usize = start;
    while i < n
        invariant
            n == text@.len(),
            start <= i <= n,
            digits == text@.subrange(start as int, n as int),
            digits == unsigned_part(text@),
            forall|j: int| 0 <= j < i - start ==> is_digit(#[trigger] digits[j]),
            value == decimal_value(digits.take(i - start)),
        decreases n - i,
    {
        let c = text.get_char(i);
        let ghost k = i - start;
        assert(digits[k] == c);
        if c < '0' || c > '9' {
            assert(!is_digit(digits[k]));
            return None;
        }
        let d: u16 = (c as u32 - '0' as u32) as u16;
        proof {
            let next = digits.take(k + 1);
            assert(next.drop_last() =~= digits.take(k));
            assert(next.last() == c);
            lemma_decimal_prefix(digits, k + 1);
        }
        if value > 6553 || (value == 6553 && d > 5) {
            return None;
        }
        value = value * 10 + d;
        i = i + 1;
    }
    proof {
        assert(digits.take(n - start) =~= digits);
    }
    Some(value)
}

/// An interface for types where host parts (hostname and port) can be
/// derived.
pub trait Host: 'static {
    /// Extract hostname.
    fn hostname(&self) -> &str;

    /// Whether the type derives a port of its own, in place of the default.
    open spec fn derives_port() -> bool {
        false
    }

    /// Extract optional port. A type that derives none of its own has none.
    fn port(&self) -> (port: Option<u16>)
        ensures
            !Self::derives_port() ==> port is None,
    {
        None
    }
}

impl Host for String {
    fn hostname(&self) -> (name: &str)
        ensures
            name@ == hostname_of(self@),
    {
        match str_split_once(self.as_str(), ':') {
            Some(parts) => parts.0,
            None => self.as_str(),
        }
    }

    open spec fn derives_port() -> bool {
        true
    }

    fn port(&self) -> (port: Option<u16>)
        ensures
            port == port_of(self@),
    {
        match str_split_once(self.as_str(), ':') {
            Some(parts) => parse_port_number(parts.1),
            None => None,
        }
    }
}

impl Host for &'static str {
    fn hostname(&self) -> (name: &str)
        ensures
            name@ == hostname_of(self@),
    {
        match str_split_once(self, ':') {
            Some(parts) => parts.0,
            None => self,
        }
    }

    open spec fn derives_port() -> bool {
        true
    }

    fn port(&self) -> (port: Option<u16>)
        ensures
            port == port_of(self@),
    {
        match str_split_once(self, ':') {
            Some(parts) => parse_port_number(parts.1),
            None => None,
        }
    }
}

} // verus!
