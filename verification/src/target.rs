//! Reading a `host[:port]` target given on the command line.

use vstd::prelude::*;
use crate::text::{decimal_spec, digit_char};

verus! {

/// Why a target was refused.
#[derive(Debug, Clone, Copy, PartialEq, Eq, Structural)]
pub enum TargetError {
    /// The target has more than one `:` (for example a bare IPv6 address).
    InvalidValue,
}

/// Whether `c` is an ASCII decimal digit.
pub open spec fn is_digit(c: char) -> bool {
    '0' <= c && c <= '9'
}

/// The value of a decimal digit.
pub open spec fn digit_value(c: char) -> nat {
    (c as int - '0' as int) as nat
}

/// The number written by a run of decimal digits (most significant first).
pub open spec fn digits_value(s: Seq<char>) -> nat
    decreases s.len(),
{
    if s.len() == 0 {
        0
    } else {
        digits_value(s.drop_last()) * 10 + digit_value(s.last())
    }
}

/// Every character of `s` is a decimal digit.
pub open spec fn all_digits(s: Seq<char>) -> bool {
    forall|i: int| 0 <= i < s.len() ==> is_digit(#[trigger] s[i])
}

/// What `str::parse::<u16>` gives back: an optional leading `+`, then one or
/// more decimal digits whose value fits in 16 bits.
pub open spec fn parse_u16_spec(s: Seq<char>) -> Option<u16> {
    let d = if s.len() > 0 && s[0] == '+' { s.drop_first() } else { s };
    if d.len() > 0 && all_digits(d) && digits_value(d) <= 65535 {
        Some(digits_value(d) as u16)
    } else {
        None
    }
}

/// `s` holds two `:` or more.
pub open spec fn has_two_colons(s: Seq<char>) -> bool {
    exists|i: int, j: int| 0 <= i < j < s.len() && s[i] == ':' && s[j] == ':'
}

/// `s` holds a `:`.
pub open spec fn has_colon(s: Seq<char>) -> bool {
    exists|i: int| 0 <= i < s.len() && s[i] == ':'
}

/// The position of a `:` in `s` (the only one, where there is exactly one).
pub open spec fn colon_index(s: Seq<char>) -> int {
    choose|i: int| 0 <= i < s.len() && s[i] == ':'
}

/// What a target reads as: more than one `:` is refused; no `:` gives the
/// whole text with port 0; one `:` splits host from port, and a port that
/// does not read as a number is 0.
pub open spec fn parse_target_spec(s: Seq<char>) -> Result<(Seq<char>, u16), TargetError> {
    if has_two_colons(s) {
        Err(TargetError::InvalidValue)
    } else if !has_colon(s) {
        Ok((s, 0u16))
    } else {
        let i = colon_index(s);
        let port = match parse_u16_spec(s.subrange(i + 1, s.len() as int)) {
            Some(p) => p,
            None => 0u16,
        };
        Ok((s.subrange(0, i), port))
    }
}

proof fn lemma_digits_value_step(s: Seq<char>, i: int)
    requires
        0 <= i < s.len(),
    ensures
        digits_value(s.subrange(0, i + 1)) == digits_value(s.subrange(0, i)) * 10 + digit_value(s[i]),
{
    assert(s.subrange(0, i + 1).drop_last() =~= s.subrange(0, i));
}

/// Reads a decimal port number as `str::parse::<u16>` does.
pub fn parse_port(s: &str) -> (res: Option<u16>)
    ensures
        res == parse_u16_spec(s@),
{
    let n = s.unicode_len();
    let mut start: usize = 0;
    if n > 0 && s.get_char(0) == '+' {
        start = 1;
    }
    let ghost d = if s@.len() > 0 && s@[0] == '+' { s@.drop_first() } else { s@ };
    if start == n {
        return None;
    }
    let mut value: u32 = 0;
    let mut i: usize = start;
    while i < n
        invariant
            s@.len() == n,
            start <= i <= n,
            start < n,
            d =~= s@.subrange(start as int, n as int),
            d == (if s@.len() > 0 && s@[0] == '+' { s@.drop_first() } else { s@ }),
            all_digits(d.subrange(0, i - start)),
            value == digits_value(d.subrange(0, i - start)),
            value <= 65535,
        decreases n - i,
    {
        let c = s.get_char(i);
        if !('0' <= c && c <= '9') {
            assert(!all_digits(d)) by {
                assert(d[i - start] == c);
            }
            return None;
        }
        let dv: u32 = (c as u32) - ('0' as u32);
        proof {
            lemma_digits_value_step(d, i - start);
            assert(d[i - start] == c);
        }
        let next: u32 = value * 10 + dv;
        assert(d.subrange(0, i - start + 1) =~= d.subrange(0, (i + 1) - start));
        if next > 65535 {
            proof {
                lemma_prefix_value_bound(d, (i + 1 - start) as int);
            }
            return None;
        }
        value = next;
        i = i + 1;
        assert(all_digits(d.subrange(0, i - start))) by {
            assert forall|k: int| 0 <= k < i - start implies is_digit(#[trigger] d.subrange(0, i - start)[k]) by {
                if k < i - start - 1 {
                    assert(d.subrange(0, i - start)[k] == d.subrange(0, i - start - 1)[k]);
                }
            }
        }
    }
    assert(d.subrange(0, n - start) =~= d);
    Some(value as u16)
}

/// A value read from a prefix of digits never exceeds the value of the whole.
proof fn lemma_prefix_value_bound(d: Seq<char>, k: int)
    requires
        0 <= k <= d.len(),
        all_digits(d.subrange(0, k)),
    ensures
        all_digits(d) ==> digits_value(d.subrange(0, k)) <= digits_value(d),
    decreases d.len() - k,
{
    if k < d.len() && all_digits(d) {
        assert(all_digits(d.subrange(0, k + 1))) by {
            assert forall|j: int| 0 <= j < k + 1 implies is_digit(#[trigger] d.subrange(0, k + 1)[j]) by {
                assert(d.subrange(0, k + 1)[j] == d[j]);
            }
        }
        lemma_digits_value_step(d, k);
        lemma_prefix_value_bound(d, k + 1);
    } else if k == d.len() {
        assert(d.subrange(0, k) =~= d);
    }
}

/// Splits a `host[:port]` target into its host and port.
///
/// A target with more than one `:` is refused; without `:` the port is 0;
/// a port that does not read as a 16-bit number is 0 as well.
pub fn parse_target(target: &str) -> (res: Result<(String, u16), TargetError>)
    ensures
        match (res, parse_target_spec(target@)) {
            (Ok((host, port)), Ok((h, p))) => host@ == h && port == p,
            (Err(e), Err(f)) => e == f,
            _ => false,
        },
{
    let n = target.unicode_len();
    let mut colon: Option<usize> = None;
    let mut i: usize = 0;
    while i < n
        invariant
            target@.len() == n,
            0 <= i <= n,
            match colon {
                None => forall|k: int| 0 <= k < i ==> target@[k] != ':',
                Some(c) => c < i && target@[c as int] == ':' && forall|k: int|
                    0 <= k < i && target@[k] == ':' ==> k == c,
            },
        decreases n - i,
    {
        if target.get_char(i) == ':' {
            match colon {
                Some(c) => {
                    assert(0 <= c < i < n && target@[c as int] == ':' && target@[i as int] == ':');
                    assert(has_two_colons(target@));
                    return Err(TargetError::InvalidValue);
                },
                None => {
                    colon = Some(i);
                },
            }
        }
        i = i + 1;
    }
    match colon {
        None => {
            assert(!has_two_colons(target@));
            assert(!has_colon(target@));
            Ok((target.to_owned(), 0))
        },
        Some(c) => {
            assert(!has_two_colons(target@));
            assert(has_colon(target@));
            assert(colon_index(target@) == c as int);
            let host = target.substring_char(0, c);
            let rest = target.substring_char(c + 1, n);
            let port = match parse_port(rest) {
                Some(p) => p,
                None => 0,
            };
            Ok((host.to_owned(), port))
        },
    }
}

proof fn lemma_digit_char_value(d: nat)
    requires
        d < 10,
    ensures
        is_digit(digit_char(d)),
        digit_value(digit_char(d)) == d,
        digit_char(d) != '+',
{
    assert('0' as int == 48 && '1' as int == 49 && '2' as int == 50 && '3' as int == 51
        && '4' as int == 52 && '5' as int == 53 && '6' as int == 54 && '7' as int == 55
        && '8' as int == 56 && '9' as int == 57 && '+' as int == 43);
}

proof fn lemma_decimal_reads_back(n: nat)
    ensures
        decimal_spec(n).len() > 0,
        all_digits(decimal_spec(n)),
        digits_value(decimal_spec(n)) == n,
    decreases n,
{
    lemma_digit_char_value(n % 10);
    if n < 10 {
        assert(decimal_spec(n).drop_last() =~= Seq::<char>::empty());
        assert(n % 10 == n);
        assert(decimal_spec(n).last() == digit_char(n));
        assert(digits_value(Seq::<char>::empty()) == 0);
        assert(digits_value(decimal_spec(n)) == digits_value(decimal_spec(n).drop_last()) * 10
            + digit_value(decimal_spec(n).last()));
    } else {
        lemma_decimal_reads_back(n / 10);
        let s = decimal_spec(n);
        assert(s.drop_last() =~= decimal_spec(n / 10));
        assert(s.last() == digit_char(n % 10));
        assert(n == (n / 10) * 10 + n % 10);
        assert(digits_value(s) == digits_value(s.drop_last()) * 10 + digit_value(s.last()));
        assert(all_digits(s)) by {
            assert forall|i: int| 0 <= i < s.len() implies is_digit(#[trigger] s[i]) by {
                if i < s.len() - 1 {
                    assert(s[i] == decimal_spec(n / 10)[i]);
                }
            }
        }
    }
}

/// A host without `:` followed by `:` and a port written in decimal reads
/// back as that host and that port.
pub proof fn law_target_round_trip(host: Seq<char>, port: u16)
    requires
        !has_colon(host),
    ensures
        parse_target_spec(host + seq![':'] + decimal_spec(port as nat)) == Ok::<(Seq<char>, u16), TargetError>((host, port)),
{
    let d = decimal_spec(port as nat);
    let s = host + seq![':'] + d;
    let c = host.len() as int;
    lemma_decimal_reads_back(port as nat);
    assert(s[c] == ':');
    assert(has_colon(s));
    assert forall|i: int| 0 <= i < s.len() && s[i] == ':' implies i == c by {
        if i < c {
            assert(s[i] == host[i]);
        } else if i > c {
            assert(s[i] == d[i - c - 1]);
            assert(is_digit(d[i - c - 1]));
        }
    }
    assert(!has_two_colons(s));
    assert(colon_index(s) == c);
    assert(s.subrange(0, c) =~= host);
    assert(s.subrange(c + 1, s.len() as int) =~= d);
    assert(is_digit(d[0]));
    assert(d[0] != '+') by {
        assert('+' as int == 43 && '0' as int == 48);
    }
}

/// A target without `:` names a host alone, with port 0.
pub proof fn law_target_without_port(target: Seq<char>)
    requires
        !has_colon(target),
    ensures
        parse_target_spec(target) == Ok::<(Seq<char>, u16), TargetError>((target, 0u16)),
{
    assert(!has_two_colons(target));
}

/// A target with two `:` or more, as a bare IPv6 address has, is refused.
pub proof fn law_target_two_colons_refused(target: Seq<char>)
    requires
        has_two_colons(target),
    ensures
        parse_target_spec(target) == Err::<(Seq<char>, u16), TargetError>(TargetError::InvalidValue),
{
}

} // verus!
