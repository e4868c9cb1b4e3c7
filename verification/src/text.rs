//! Small verified text helpers: comparing, rendering numbers, padding.

use vstd::prelude::*;

verus! {

/// Compares two string slices character by character.
pub fn text_eq(a: &str, b: &str) -> (res: bool)
    ensures
        res == (a@ == b@),
{
    let n = a.unicode_len();
    let m = b.unicode_len();
    if n != m {
        return false;
    }
    let mut i: usize = 0;
    while i < n
        invariant
            a@.len() == n,
            b@.len() == n,
            0 <= i <= n,
            forall|k: int| 0 <= k < i ==> a@[k] == b@[k],
        decreases n - i,
    {
        if a.get_char(i) != b.get_char(i) {
            return false;
        }
        i = i + 1;
    }
    assert(a@ =~= b@);
    true
}

/// The character of a decimal digit.
pub open spec fn digit_char(d: nat) -> char {
    if d == 0 { '0' }
    else if d == 1 { '1' }
    else if d == 2 { '2' }
    else if d == 3 { '3' }
    else if d == 4 { '4' }
    else if d == 5 { '5' }
    else if d == 6 { '6' }
    else if d == 7 { '7' }
    else if d == 8 { '8' }
    else { '9' }
}

/// The decimal text of `n`, without leading zeros.
pub open spec fn decimal_spec(n: nat) -> Seq<char>
    decreases n,
{
    if n < 10 {
        seq![digit_char(n)]
    } else {
        decimal_spec(n / 10).push(digit_char(n % 10))
    }
}

fn digit_text(d: u128) -> (res: &'static str)
    requires
        d < 10,
    ensures
        res@ == seq![digit_char(d as nat)],
{
    proof {
        reveal_strlit("0");
        reveal_strlit("1");
        reveal_strlit("2");
        reveal_strlit("3");
        reveal_strlit("4");
        reveal_strlit("5");
        reveal_strlit("6");
        reveal_strlit("7");
        reveal_strlit("8");
        reveal_strlit("9");
    }
    if d == 0 { "0" }
    else if d == 1 { "1" }
    else if d == 2 { "2" }
    else if d == 3 { "3" }
    else if d == 4 { "4" }
    else if d == 5 { "5" }
    else if d == 6 { "6" }
    else if d == 7 { "7" }
    else if d == 8 { "8" }
    else { "9" }
}

/// Renders `n` in decimal, as `n.to_string()` does.
pub fn decimal(n: u128) -> (res: String)
    ensures
        res@ == decimal_spec(n as nat),
    decreases n,
{
    if n < 10 {
        digit_text(n).to_owned()
    } else {
        let head = decimal(n / 10);
        let res = head.concat(digit_text(n % 10));
        assert(res@ =~= decimal_spec(n as nat));
        res
    }
}

/// `n` copies of `c`.
pub open spec fn repeat_char(c: char, n: nat) -> Seq<char> {
    Seq::new(n, |_i: int| c)
}

/// `text` followed by spaces up to `width` characters, as `{:<width}` pads.
pub open spec fn pad_right_spec(text: Seq<char>, width: nat) -> Seq<char> {
    if text.len() >= width {
        text
    } else {
        text + repeat_char(' ', (width - text.len()) as nat)
    }
}

/// Pads `text` with spaces on the right to at least `width` characters.
pub fn pad_right(text: &str, width: usize) -> (res: String)
    ensures
        res@ == pad_right_spec(text@, width as nat),
{
    let n = text.unicode_len();
    let mut res = text.to_owned();
    if n >= width {
        return res;
    }
    let mut k: usize = n;
    proof {
        reveal_strlit(" ");
    }
    while k < width
        invariant
            text@.len() == n,
            n <= k <= width,
            res@ =~= text@ + repeat_char(' ', (k - n) as nat),
        decreases width - k,
    {
        proof {
            reveal_strlit(" ");
        }
        res.append(" ");
        k = k + 1;
        assert(res@ =~= text@ + repeat_char(' ', (k - n) as nat));
    }
    res
}

/// A run of `n` copies of `-`.
pub fn dashes(n: usize) -> (res: String)
    ensures
        res@ == repeat_char('-', n as nat),
{
    let mut res = String::new();
    let mut k: usize = 0;
    proof {
        reveal_strlit("-");
    }
    while k < n
        invariant
            k <= n,
            res@ =~= repeat_char('-', k as nat),
        decreases n - k,
    {
        proof {
            reveal_strlit("-");
        }
        res.append("-");
        k = k + 1;
        assert(res@ =~= repeat_char('-', k as nat));
    }
    res
}

} // verus!
