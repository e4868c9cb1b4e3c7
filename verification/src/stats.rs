//! Ping statistics: what was sent and received, the received round-trip
//! times in order, where the percentiles fall, and how bad the loss is.
//!
//! Round-trip times are nanoseconds. The averages, deviations and the
//! interpolation between percentile neighbours are floating-point work left
//! to the application; the choices they rest on are made here.

use vstd::prelude::*;

verus! {

broadcast use vstd::seq_lib::group_to_multiset_ensures;

/// The round-trip times of the probes that got an answer, in order.
pub open spec fn present(s: Seq<Option<u128>>) -> Seq<u128>
    decreases s.len(),
{
    if s.len() == 0 {
        Seq::empty()
    } else {
        match s.last() {
            Some(v) => present(s.drop_last()).push(v),
            None => present(s.drop_last()),
        }
    }
}

/// The sum of a run of round-trip times.
pub open spec fn total(s: Seq<u128>) -> nat
    decreases s.len(),
{
    if s.len() == 0 {
        0
    } else {
        total(s.drop_last()) + s.last() as nat
    }
}

/// `s` is in non-decreasing order.
pub open spec fn ascending(s: Seq<u128>) -> bool {
    forall|i: int, j: int| 0 <= i <= j < s.len() ==> s[i] <= s[j]
}

/// The round-trip times of the answered probes, in the order they came.
pub fn received_rtts(durations: &[Option<u128>]) -> (res: Vec<u128>)
    ensures
        res@ == present(durations@),
{
    let mut res: Vec<u128> = Vec::new();
    let mut i: usize = 0;
    while i < durations.len()
        invariant
            0 <= i <= durations@.len(),
            res@ == present(durations@.subrange(0, i as int)),
        decreases durations@.len() - i,
    {
        assert(durations@.subrange(0, i + 1).drop_last() =~= durations@.subrange(0, i as int));
        match durations[i] {
            Some(v) => res.push(v),
            None => {},
        }
        i = i + 1;
    }
    assert(durations@.subrange(0, durations@.len() as int) =~= durations@);
    res
}

/// Sorts round-trip times in ascending order, keeping every one of them.
pub fn sort_rtts(values: &Vec<u128>) -> (res: Vec<u128>)
    ensures
        ascending(res@),
        res@.to_multiset() == values@.to_multiset(),
{
    let mut out: Vec<u128> = Vec::new();
    let mut i: usize = 0;
    while i < values.len()
        invariant
            0 <= i <= values@.len(),
            ascending(out@),
            out@.to_multiset() == values@.subrange(0, i as int).to_multiset(),
        decreases values@.len() - i,
    {
        let x = values[i];
        let mut pos: usize = 0;
        while pos < out.len() && out[pos] <= x
            invariant
                0 <= pos <= out@.len(),
                forall|k: int| 0 <= k < pos ==> out@[k] <= x,
            decreases out@.len() - pos,
        {
            pos = pos + 1;
        }
        let ghost before = out@;
        out.insert(pos, x);
        proof {
            assert(out@.remove(pos as int) =~= before);
            assert(out@[pos as int] == x);
            assert(values@.subrange(0, i + 1) =~= values@.subrange(0, i as int).push(x));
            assert(out@.to_multiset() =~= before.to_multiset().insert(x));
        }
        i = i + 1;
    }
    assert(values@.subrange(0, values@.len() as int) =~= values@);
    out
}

/// The transmitted and received counts of a session, with its received
/// round-trip times sorted.
#[derive(Debug, Clone, PartialEq, Eq)]
pub struct Summary {
    pub transmitted: usize,
    pub received: usize,
    pub sorted_rtts: Vec<u128>,
}

/// Sums up the outcomes of a session: one entry per counted probe, with
/// the round-trip time of each answered one.
pub fn summarize(durations: &[Option<u128>]) -> (res: Summary)
    ensures
        res.transmitted == durations@.len(),
        res.received == present(durations@).len(),
        res.received <= res.transmitted,
        ascending(res.sorted_rtts@),
        res.sorted_rtts@.to_multiset() == present(durations@).to_multiset(),
{
    let rtts = received_rtts(durations);
    proof {
        lemma_present_len(durations@);
    }
    let sorted = sort_rtts(&rtts);
    Summary { transmitted: durations.len(), received: rtts.len(), sorted_rtts: sorted }
}

/// The neighbours between which the `q`-th percentile of `n` sorted values
/// lies: the floor and the ceiling of `q * (n - 1) / 100`.
pub open spec fn percentile_bounds_spec(n: nat, q: nat) -> (nat, nat) {
    let x = q * ((n - 1) as nat);
    let lower = x / 100;
    (lower, if x % 100 == 0 { lower } else { lower + 1 })
}

/// Where the `q`-th percentile (`q` in whole percent) of `n` sorted values
/// lies: the positions of the two values to interpolate between.
pub fn percentile_bounds(n: usize, q: u8) -> (res: (usize, usize))
    requires
        n >= 1,
        q <= 100,
    ensures
        res.0 as nat == percentile_bounds_spec(n as nat, q as nat).0,
        res.1 as nat == percentile_bounds_spec(n as nat, q as nat).1,
        res.0 <= res.1 < n,
{
    proof {
        let a = q as int;
        let b = (n - 1) as int;
        assert(a * b <= 100 * b) by (nonlinear_arith)
            requires
                a <= 100,
                b >= 0;
    }
    let x: u128 = (q as u128) * ((n - 1) as u128);
    let lower: u128 = x / 100;
    proof {
        assert(x <= 100 * (n - 1)) by (nonlinear_arith)
            requires
                x == q * (n - 1),
                q <= 100,
                n >= 1;
    }
    let upper: u128 = if x % 100 == 0 { lower } else { lower + 1 };
    assert(upper <= n - 1);
    (lower as usize, upper as usize)
}

/// How heavy the packet loss of a session is.
#[derive(Debug, Clone, Copy, PartialEq, Eq, Structural)]
pub enum LossLevel {
    /// Nothing was lost.
    Lossless,
    /// Less than a fifth was lost.
    Low,
    /// A fifth or more was lost.
    High,
}

/// The loss level of `received` answers out of `transmitted` probes.
pub open spec fn loss_level_spec(transmitted: nat, received: nat) -> LossLevel {
    if received == transmitted {
        LossLevel::Lossless
    } else if 5 * (transmitted - received) < transmitted {
        LossLevel::Low
    } else {
        LossLevel::High
    }
}

/// Grades the packet loss: none, under 20 %, or 20 % and more.
pub fn loss_level(transmitted: usize, received: usize) -> (res: LossLevel)
    requires
        received <= transmitted,
    ensures
        res == loss_level_spec(transmitted as nat, received as nat),
{
    if received == transmitted {
        LossLevel::Lossless
    } else if 5 * ((transmitted - received) as u128) < transmitted as u128 {
        LossLevel::Low
    } else {
        LossLevel::High
    }
}

/// The sum and the number of the round-trip times of the answered probes;
/// `None` when the sum does not fit in 128 bits.
pub fn present_total(durations: &[Option<u128>]) -> (res: Option<(u128, usize)>)
    ensures
        match res {
            Some((sum, n)) => sum == total(present(durations@)) && n == present(durations@).len(),
            None => total(present(durations@)) > u128::MAX,
        },
{
    let mut sum: u128 = 0;
    let mut n: usize = 0;
    let mut i: usize = 0;
    while i < durations.len()
        invariant
            0 <= i <= durations@.len(),
            sum == total(present(durations@.subrange(0, i as int))),
            n == present(durations@.subrange(0, i as int)).len(),
        decreases durations@.len() - i,
    {
        let ghost pre = durations@.subrange(0, i as int);
        assert(durations@.subrange(0, i + 1).drop_last() =~= pre);
        proof {
            lemma_total_prefix(durations@, i + 1);
        }
        match durations[i] {
            Some(v) => {
                assert(present(durations@.subrange(0, i + 1)).drop_last() =~= present(pre));
                proof { lemma_present_len(durations@); }
                match sum.checked_add(v) {
                    Some(t) => {
                        sum = t;
                    },
                    None => {
                        return None;
                    },
                }
                n = n + 1;
            },
            None => {},
        }
        i = i + 1;
    }
    assert(durations@.subrange(0, durations@.len() as int) =~= durations@);
    Some((sum, n))
}

proof fn lemma_present_len(s: Seq<Option<u128>>)
    ensures
        present(s).len() <= s.len(),
    decreases s.len(),
{
    if s.len() > 0 {
        lemma_present_len(s.drop_last());
    }
}

proof fn lemma_total_prefix(s: Seq<Option<u128>>, k: int)
    requires
        0 <= k <= s.len(),
    ensures
        total(present(s.subrange(0, k))) <= total(present(s)),
        present(s.subrange(0, k)).len() <= present(s).len(),
    decreases s.len() - k,
{
    if k < s.len() {
        lemma_total_prefix(s, k + 1);
        let a = s.subrange(0, k + 1);
        assert(a.drop_last() =~= s.subrange(0, k));
        match a.last() {
            Some(v) => {
                assert(present(a).drop_last() =~= present(s.subrange(0, k)));
            },
            None => {},
        }
    } else {
        assert(s.subrange(0, k) =~= s);
    }
}

/// The first and last of the sorted round-trip times are the smallest and
/// the largest of those received.
pub proof fn law_sorted_extremes(sorted: Seq<u128>, received: Seq<u128>)
    requires
        ascending(sorted),
        sorted.to_multiset() == received.to_multiset(),
        received.len() > 0,
    ensures
        received.contains(sorted[0]),
        received.contains(sorted.last()),
        forall|i: int| 0 <= i < received.len() ==> sorted[0] <= #[trigger] received[i] <= sorted.last(),
{
    sorted.to_multiset_ensures();
    received.to_multiset_ensures();
    assert(sorted.len() == received.len());
    assert(sorted.contains(sorted[0]));
    assert(sorted.contains(sorted.last()));
    assert(sorted.to_multiset().count(sorted[0]) > 0);
    assert(received.to_multiset().count(sorted[0]) > 0);
    assert(sorted.to_multiset().count(sorted.last()) > 0);
    assert(received.to_multiset().count(sorted.last()) > 0);
    assert forall|i: int| 0 <= i < received.len() implies sorted[0] <= #[trigger] received[i] <= sorted.last() by {
        assert(received.contains(received[i]));
        assert(sorted.to_multiset().count(received[i]) > 0);
        assert(sorted.contains(received[i]));
        let k = choose|k: int| 0 <= k < sorted.len() && sorted[k] == received[i];
        assert(sorted[0] <= sorted[k]);
        assert(sorted[k] <= sorted[sorted.len() - 1]);
    }
}

/// A lower percentile never lies after a higher one: the bounds grow with
/// the percentile, so the spread between the 5th and 95th is never negative.
pub proof fn law_percentile_bounds_monotone(n: nat, q1: nat, q2: nat)
    requires
        n >= 1,
        q1 <= q2 <= 100,
    ensures
        percentile_bounds_spec(n, q1).0 <= percentile_bounds_spec(n, q2).0,
        percentile_bounds_spec(n, q1).1 <= percentile_bounds_spec(n, q2).1,
        percentile_bounds_spec(n, q2).1 <= n - 1,
{
    let m = (n - 1) as nat;
    let x1 = q1 * m;
    let x2 = q2 * m;
    assert(x1 <= x2) by (nonlinear_arith)
        requires
            q1 <= q2,
            x1 == q1 * m,
            x2 == q2 * m;
    assert(x2 <= 100 * m) by (nonlinear_arith)
        requires
            q2 <= 100,
            x2 == q2 * m;
    assert(x1 / 100 <= x2 / 100) by (nonlinear_arith)
        requires
            x1 <= x2;
    if x1 % 100 != 0 && x2 % 100 == 0 {
        assert(x1 / 100 < x2 / 100) by (nonlinear_arith)
            requires
                x1 <= x2,
                x1 % 100 != 0,
                x2 % 100 == 0;
    }
    if x2 % 100 != 0 {
        assert(x2 / 100 < m) by (nonlinear_arith)
            requires
                x2 <= 100 * m,
                x2 % 100 != 0;
    }
}

/// Between no loss and total loss, the loss is low exactly when less than
/// 20 % of the probes were lost, whatever the number of probes.
pub proof fn law_loss_level_by_percentage(transmitted: nat, received: nat)
    requires
        received <= transmitted,
    ensures
        received == transmitted <==> loss_level_spec(transmitted, received) == LossLevel::Lossless,
        received < transmitted ==> (loss_level_spec(transmitted, received) == LossLevel::Low
            <==> (transmitted - received) * 100 < 20 * transmitted),
        received < transmitted ==> (loss_level_spec(transmitted, received) == LossLevel::High
            <==> (transmitted - received) * 100 >= 20 * transmitted),
{
}

/// The loss level depends only on the share of probes lost: scaling both
/// counts by the same factor keeps it.
pub proof fn law_loss_level_scale_free(transmitted: nat, received: nat, k: nat)
    requires
        received <= transmitted,
        k >= 1,
    ensures
        loss_level_spec(k * transmitted, k * received) == loss_level_spec(transmitted, received),
{
    let t = transmitted as int;
    let r = received as int;
    let kk = k as int;
    assert(k * transmitted - k * received == kk * (t - r)) by (nonlinear_arith)
        requires
            kk == k,
            t == transmitted,
            r == received;
    assert((k * received == k * transmitted) <==> (received == transmitted)) by (nonlinear_arith)
        requires
            k >= 1;
    assert((5 * (kk * (t - r)) < kk * t) <==> (5 * (t - r) < t)) by (nonlinear_arith)
        requires
            kk >= 1;
}

} // verus!
