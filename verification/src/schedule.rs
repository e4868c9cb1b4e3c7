//! The local ping loop: warm-up probes first, then counted probes whose
//! outcomes are kept, until the count is reached.
//!
//! The application runs the loop: it asks for the next step, makes the
//! probe, and hands the outcome back; the decisions are taken here.

use vstd::prelude::*;
use crate::model::{status_rtt, PingStatus};

verus! {

/// What the loop does next.
#[derive(Debug, Clone, Copy, PartialEq, Eq, Structural)]
pub enum Step {
    /// The loop is over.
    Stop,
    /// Make one probe; a warm-up probe is neither shown nor kept.
    Probe { warmup: bool },
}

/// The number of warm-up probes asked for.
pub open spec fn warmup_target(warmup: Option<usize>) -> nat {
    match warmup {
        Some(w) => w as nat,
        None => 0,
    }
}

/// The step taken after `warmups_done` warm-up probes and `sent` counted ones.
pub open spec fn step_spec(warmups_done: nat, sent: nat, warmup: Option<usize>, count: Option<usize>) -> Step {
    let is_warmup = warmups_done < warmup_target(warmup);
    if !is_warmup && (count matches Some(max) && sent >= max) {
        Step::Stop
    } else {
        Step::Probe { warmup: is_warmup }
    }
}

/// The progress of a ping loop.
pub struct PingLoop {
    warmups_done: usize,
    results: Vec<Option<u128>>,
}

impl PingLoop {
    /// Warm-up probes made so far.
    pub closed spec fn warmups_done_spec(self) -> nat {
        self.warmups_done as nat
    }

    /// Counted probes made so far.
    pub closed spec fn sent_spec(self) -> nat {
        self.results@.len()
    }

    /// The round-trip time of each counted probe, in order (`None` for a
    /// probe that failed or timed out).
    pub closed spec fn results_spec(self) -> Seq<Option<u128>> {
        self.results@
    }

    /// A loop that has made no probe.
    pub fn new() -> (res: PingLoop)
        ensures
            res.warmups_done_spec() == 0,
            res.sent_spec() == 0,
            res.results_spec() == Seq::<Option<u128>>::empty(),
    {
        PingLoop { warmups_done: 0, results: Vec::new() }
    }

    /// Counted probes made so far.
    pub fn sent(&self) -> (res: usize)
        ensures
            res == self.sent_spec(),
    {
        self.results.len()
    }

    /// The next step, under the `warmup` and `count` options.
    pub fn next_step(&self, warmup: Option<usize>, count: Option<usize>) -> (res: Step)
        ensures
            res == step_spec(self.warmups_done_spec(), self.sent_spec(), warmup, count),
    {
        let is_warmup = match warmup {
            Some(w) => self.warmups_done < w,
            None => false,
        };
        let reached = match count {
            Some(max) => self.results.len() >= max,
            None => false,
        };
        if !is_warmup && reached {
            Step::Stop
        } else {
            Step::Probe { warmup: is_warmup }
        }
    }

    /// Takes in the outcome of a probe: a warm-up probe is only counted as
    /// done, a counted probe has its round-trip time kept.
    pub fn record(&mut self, warmup: bool, status: &PingStatus)
        requires
            warmup ==> old(self).warmups_done_spec() < usize::MAX,
            !warmup ==> old(self).sent_spec() < usize::MAX,
        ensures
            warmup ==> final(self).warmups_done_spec() == old(self).warmups_done_spec() + 1
                && final(self).sent_spec() == old(self).sent_spec()
                && final(self).results_spec() == old(self).results_spec(),
            !warmup ==> final(self).warmups_done_spec() == old(self).warmups_done_spec()
                && final(self).sent_spec() == old(self).sent_spec() + 1
                && final(self).results_spec() == old(self).results_spec().push(status_rtt(*status)),
    {
        if warmup {
            self.warmups_done = self.warmups_done + 1;
        } else {
            let rtt = status.rtt();
            self.results.push(rtt);
        }
    }

    /// The round-trip times kept so far.
    pub fn results(&self) -> (res: &Vec<Option<u128>>)
        ensures
            res@ == self.results_spec(),
    {
        &self.results
    }

    /// Ends the loop, handing back the round-trip times kept.
    pub fn into_results(self) -> (res: Vec<Option<u128>>)
        ensures
            res@ == self.results_spec(),
    {
        self.results
    }
}

/// Whether a relay's stream of probes ends after `sent` probes: it makes
/// `count` probes if a count is given, and runs on otherwise.
pub fn relay_should_stop(sent: usize, count: Option<usize>) -> (res: bool)
    ensures
        res == (step_spec(0, sent as nat, None, count) == Step::Stop),
{
    match count {
        Some(max) => sent >= max,
        None => false,
    }
}

/// The (warm-up, counted) probes made after `n` probes that each followed
/// the loop's step.
pub open spec fn run_spec(n: nat, warmup: Option<usize>, count: Option<usize>) -> (nat, nat)
    decreases n,
{
    if n == 0 {
        (0, 0)
    } else {
        let (w, s) = run_spec((n - 1) as nat, warmup, count);
        match step_spec(w, s, warmup, count) {
            Step::Probe { warmup: true } => (w + 1, s),
            _ => (w, s + 1),
        }
    }
}

/// The warm-up probes come first: after `n` probes, `min(n, W)` were
/// warm-ups and the rest were counted.
pub proof fn law_warmups_come_first(n: nat, warmup: Option<usize>, count: Option<usize>)
    ensures
        run_spec(n, warmup, count) == (
            if n < warmup_target(warmup) { n } else { warmup_target(warmup) },
            if n < warmup_target(warmup) { 0 } else { (n - warmup_target(warmup)) as nat },
        ),
    decreases n,
{
    if n > 0 {
        law_warmups_come_first((n - 1) as nat, warmup, count);
    }
}

/// With a count `c` and `W` warm-ups, the loop stops after exactly `W + c`
/// probes: never before, and there it does.
pub proof fn law_loop_stops_after_warmup_and_count(n: nat, warmup: Option<usize>, count: Option<usize>)
    ensures
        ({
            let (w, s) = run_spec(n, warmup, count);
            (step_spec(w, s, warmup, count) == Step::Stop) <==> (count matches Some(c) && n >= warmup_target(warmup) + c)
        }),
{
    law_warmups_come_first(n, warmup, count);
}

/// When the loop stops with a count `c`, exactly `c` probes were counted:
/// one result is kept per counted probe and none per warm-up.
pub proof fn law_counted_probes_match_count(warmup: Option<usize>, c: usize)
    ensures
        ({
            let n = warmup_target(warmup) + c as nat;
            let (w, s) = run_spec(n, warmup, Some(c));
            &&& step_spec(w, s, warmup, Some(c)) == Step::Stop
            &&& w == warmup_target(warmup)
            &&& s == c
        }),
{
    law_warmups_come_first(warmup_target(warmup) + c as nat, warmup, Some(c));
}

/// Without a count, the loop never stops on its own.
pub proof fn law_loop_without_count_runs_on(warmups_done: nat, sent: nat, warmup: Option<usize>)
    ensures
        step_spec(warmups_done, sent, warmup, None) != Step::Stop,
{
}

} // verus!
