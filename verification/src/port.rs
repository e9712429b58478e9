//! The port number that the filter listens on, read from its decimal text as
//! `u16::from_str` reads it.

use vstd::prelude::*;

verus! {

/// Whether `c` is an ASCII decimal digit.
pub open spec fn is_digit(c: char) -> bool {
    '0' <= c && c <= '9'
}

/// The value of the digit `c`.
pub open spec fn digit_value(c: char) -> nat {
    ((c as u32) - ('0' as u32)) as nat
}

/// The value of the decimal digits `s`, most significant first.
pub open spec fn digits_value(s: Seq<char>) -> nat
    decreases s.len(),
{
    if s.len() == 0 {
        0
    } else {
        digits_value(s.drop_last()) * 10 + digit_value(s.last())
    }
}

/// The digits of a port text: the text without a leading `+`, if any.
pub open spec fn port_digits(s: Seq<char>) -> Seq<char> {
    if s.len() > 0 && s[0] == '+' {
        s.drop_first()
    } else {
        s
    }
}

/// The port that the text `s` denotes: an optional `+`, then one or more
/// decimal digits whose value is at most 65535. Any other text denotes none.
pub open spec fn port_of_text(s: Seq<char>) -> Option<u16> {
    let d = port_digits(s);
    if d.len() > 0 && (forall|i: int| 0 <= i < d.len() ==> is_digit(#[trigger] d[i]))
        && digits_value(d) <= 65535 {
        Some(digits_value(d) as u16)
    } else {
        None
    }
}

/// A digit string is worth at least as much as any of its prefixes.
proof fn prefix_value_le(s: Seq<char>, k: int)
    requires
        0 <= k <= s.len(),
    ensures
        digits_value(s.take(k)) <= digits_value(s),
    decreases s.len(),
{
    if k < s.len() {
        assert(s.drop_last().take(k) =~= s.take(k));
        prefix_value_le(s.drop_last(), k);
    } else {
        assert(s.take(k) =~= s);
    }
}

/// Reads a port number from its decimal text, as `u16::from_str` does: an
/// optional `+` and at least one ASCII digit, with a value that fits in 16
/// bits.
pub fn parse_port(text: &str) -> (r: Option<u16>)
    ensures
        r == port_of_text(text@),
{
    let n: usize = text.unicode_len();
    let ghost s = text@;
    let mut start: usize = 0;
    if n > 0 && text.get_char(0) == '+' {
        start = 1;
    }
    let ghost d = port_digits(s);
    assert(d =~= s.subrange(start as int, n as int));
    if start == n {
        return None;
    }
    let mut value: u32 = 0;
    let mut i: usize = start;
    while i < n
        invariant
            n == s.len(),
            s == text@,
            d == s.subrange(start as int, n as int),
            d == port_digits(text@),
            start <= i <= n,
            start < n,
            value <= 65535,
            value == digits_value(d.take(i - start)),
            forall|j: int| 0 <= j < i - start ==> is_digit(#[trigger] d[j]),
        decreases n - i,
    {
        let c = text.get_char(i);
        assert(c == d[i - start]);
        if c < '0' || c > '9' {
            assert(!is_digit(d[i - start]));
            return None;
        }
        let digit: u32 = (c as u32) - ('0' as u32);
        assert(d.take(i + 1 - start).drop_last() =~= d.take(i - start));
        assert(d.take(i + 1 - start).last() == c);
        assert(digit_value(c) == digit);
        assert(digits_value(d.take(i + 1 - start)) == value * 10 + digit);
        let next: u32 = value * 10 + digit;
        if next > 65535 {
            proof {
                if forall|j: int| 0 <= j < d.len() ==> is_digit(#[trigger] d[j]) {
                    prefix_value_le(d, i + 1 - start);
                }
            }
            return None;
        }
        value = next;
        i = i + 1;
    }
    assert(d.take(n - start) =~= d);
    Some(value as u16)
}

/// The character of the decimal digit `d`, for `d` below ten.
pub open spec fn digit_char(d: nat) -> char {
    if d == 0 { '0' }
    else if d == 1 { '1' }
    else if d == 2 { '2' }
    else if d == 3 { '3' }
    else if d == 4 { '4' }
    else if d == 5 { '5' }
    else if d == 6 { '6' }
    else if d == 7 { '7' }
    else if d == 8 { '8' }
    else { '9' }
}

/// How port texts read, digit by digit: a single digit reads as its value;
/// a digit appended to a port text multiplies its value by ten and adds the
/// digit, while the result stays within 65535; a `+` in front of a text that
/// starts with a digit changes nothing; the empty text and `+` alone read as
/// nothing; and a text that reads as a port is one or more ASCII digits,
/// after at most one leading `+`.
pub proof fn port_text_reads_digit_by_digit(s: Seq<char>, c: char)
    ensures
        '0' <= c && c <= '9' ==> port_of_text(seq![c]) == Some(((c as u32) - 48) as u16),
        port_of_text(s) matches Some(v) ==> ('0' <= c && c <= '9' && (v as int) * 10 + ((c as u32) - 48)
            <= 65535 ==> port_of_text(s.push(c)) == Some(((v as int) * 10 + ((c as u32) - 48)) as u16)),
        s.len() > 0 && '0' <= s[0] && s[0] <= '9' ==> port_of_text(seq!['+'] + s) == port_of_text(s),
        port_of_text(Seq::empty()) is None,
        port_of_text(seq!['+']) is None,
        port_of_text(s) is Some ==> s.len() > 0 && forall|i: int|
            0 <= i < s.len() ==> ('0' <= #[trigger] s[i] && s[i] <= '9') || (i == 0 && s[i] == '+' && s.len()
                > 1),
{
    let single = seq![c];
    assert(single.drop_last() =~= Seq::<char>::empty());
    assert(digits_value(Seq::<char>::empty()) == 0);
    if let Some(v) = port_of_text(s) {
        let d = port_digits(s);
        let e = port_digits(s.push(c));
        assert(e =~= d.push(c));
        assert(e.drop_last() =~= d);
        if '0' <= c && c <= '9' {
            assert forall|i: int| 0 <= i < e.len() implies is_digit(#[trigger] e[i]) by {
                if i < d.len() {
                    assert(e[i] == d[i]);
                }
            }
        }
        assert forall|i: int| 0 <= i < s.len() implies ('0' <= #[trigger] s[i] && s[i] <= '9') || (i == 0
            && s[i] == '+' && s.len() > 1) by {
            if s[0] == '+' {
                if i > 0 {
                    assert(s[i] == d[i - 1]);
                    assert(is_digit(d[i - 1]));
                }
            } else {
                assert(s[i] == d[i]);
                assert(is_digit(d[i]));
            }
        }
    }
    if s.len() > 0 && '0' <= s[0] && s[0] <= '9' {
        assert((seq!['+'] + s).drop_first() =~= s);
    }
}

/// `0.0.0.0`: the filter listens on every interface.
pub open spec fn any_interface() -> Seq<char> {
    seq!['0', '.', '0', '.', '0', '.', '0']
}

/// Where the filter listens: a host and a port.
pub struct ListenAddress {
    pub host: String,
    pub port: u16,
}

/// The address the filter listens on, given the text of its port: every
/// interface, at that port; `None` where the text is no port number.
pub fn filter_listen_address(port_text: &str) -> (r: Option<ListenAddress>)
    ensures
        r is None <==> port_of_text(port_text@) is None,
        r matches Some(a) ==> a.host@ == any_interface() && port_of_text(port_text@) == Some(a.port),
        r matches Some(a) ==> a.host@ == seq!['0', '.', '0', '.', '0', '.', '0'],
{
    match parse_port(port_text) {
        Some(port) => {
            proof {
                reveal_strlit("0.0.0.0");
            }
            let host = String::from_str("0.0.0.0");
            assert(host@ =~= any_interface());
            Some(ListenAddress { host, port })
        },
        None => None,
    }
}

/// The decimal digits of `n`, most significant first, without leading zeros.
pub open spec fn decimal_text(n: nat) -> Seq<char>
    decreases n,
{
    if n < 10 {
        seq![digit_char(n)]
    } else {
        decimal_text(n / 10).push(digit_char(n % 10))
    }
}

proof fn digit_char_value(d: nat)
    requires
        d < 10,
    ensures
        is_digit(digit_char(d)),
        digit_value(digit_char(d)) == d,
{
}

proof fn decimal_text_digits(n: nat)
    ensures
        decimal_text(n).len() > 0,
        decimal_text(n)[0] != '+',
        forall|i: int| 0 <= i < decimal_text(n).len() ==> is_digit(#[trigger] decimal_text(n)[i]),
        digits_value(decimal_text(n)) == n,
    decreases n,
{
    if n >= 10 {
        decimal_text_digits(n / 10);
        digit_char_value(n % 10);
        let t = decimal_text(n);
        let c = digit_char(n % 10);
        assert(t.drop_last() =~= decimal_text(n / 10));
        assert(t.last() == c);
        assert forall|i: int| 0 <= i < t.len() implies is_digit(#[trigger] t[i]) by {
            if i < t.len() - 1 {
                assert(t[i] == decimal_text(n / 10)[i]);
            }
        }
        assert(n == (n / 10) * 10 + n % 10);
        assert(digits_value(t) == digits_value(t.drop_last()) * 10 + digit_value(t.last()));
    } else {
        digit_char_value(n);
        let t = decimal_text(n);
        assert(t.drop_last() =~= Seq::<char>::empty());
        assert(digits_value(t.drop_last()) == 0);
        assert(digits_value(t) == digits_value(t.drop_last()) * 10 + digit_value(t.last()));
    }
}

/// Every port number reads back from its decimal text.
pub proof fn port_text_round_trip(port: u16)
    ensures
        port_of_text(decimal_text(port as nat)) == Some(port),
{
    decimal_text_digits(port as nat);
}

} // verus!
