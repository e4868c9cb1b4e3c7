use geoping::model::PingStatus;
use geoping::schedule::{relay_should_stop, PingLoop, Step};
use geoping::stats::{
    loss_level, percentile_bounds, present_total, received_rtts, sort_rtts, summarize, LossLevel,
};

fn ok(ns: u128) -> PingStatus {
    PingStatus::Success { elapsed_ns: ns }
}

#[test]
fn loop_runs_warmups_then_counted_probes() {
    let mut lp = PingLoop::new();
    let mut steps = Vec::new();
    let outcomes = [ok(1), ok(2), ok(3), PingStatus::Timeout, ok(5)];
    let mut k = 0;
    loop {
        let step = lp.next_step(Some(2), Some(3));
        steps.push(step);
        match step {
            Step::Stop => break,
            Step::Probe { warmup } => {
                lp.record(warmup, &outcomes[k]);
                k += 1;
            }
        }
    }
    assert_eq!(
        steps,
        vec![
            Step::Probe { warmup: true },
            Step::Probe { warmup: true },
            Step::Probe { warmup: false },
            Step::Probe { warmup: false },
            Step::Probe { warmup: false },
            Step::Stop,
        ]
    );
    assert_eq!(lp.sent(), 3);
    assert_eq!(lp.into_results(), vec![Some(3), None, Some(5)]);
}

#[test]
fn loop_with_zero_count_stops_after_warmups() {
    let mut lp = PingLoop::new();
    assert_eq!(lp.next_step(Some(1), Some(0)), Step::Probe { warmup: true });
    lp.record(true, &ok(9));
    assert_eq!(lp.next_step(Some(1), Some(0)), Step::Stop);
    assert!(lp.results().is_empty());
}

#[test]
fn loop_without_count_keeps_going() {
    let mut lp = PingLoop::new();
    for _ in 0..50 {
        assert_eq!(lp.next_step(None, None), Step::Probe { warmup: false });
        lp.record(false, &PingStatus::Error("refused".to_string()));
    }
    assert_eq!(lp.sent(), 50);
    assert!(lp.results().iter().all(|r| r.is_none()));
}

#[test]
fn relay_stream_length() {
    assert!(!relay_should_stop(0, Some(2)));
    assert!(!relay_should_stop(1, Some(2)));
    assert!(relay_should_stop(2, Some(2)));
    assert!(relay_should_stop(0, Some(0)));
    assert!(!relay_should_stop(1_000_000, None));
}

#[test]
fn received_times_keep_order() {
    let d = vec![Some(30), None, Some(10), Some(20), None];
    assert_eq!(received_rtts(&d), vec![30, 10, 20]);
    assert_eq!(received_rtts(&[]), Vec::<u128>::new());
}

#[test]
fn sorting_keeps_every_value() {
    let v = vec![5, 3, 9, 3, 1, 9, 0];
    assert_eq!(sort_rtts(&v), vec![0, 1, 3, 3, 5, 9, 9]);
    assert_eq!(sort_rtts(&vec![]), Vec::<u128>::new());
}

#[test]
fn summary_of_session() {
    let d = vec![Some(30_000_000), None, Some(10_000_000), Some(20_000_000)];
    let s = summarize(&d);
    assert_eq!(s.transmitted, 4);
    assert_eq!(s.received, 3);
    assert_eq!(s.sorted_rtts, vec![10_000_000, 20_000_000, 30_000_000]);
    let empty = summarize(&[]);
    assert_eq!(empty.transmitted, 0);
    assert_eq!(empty.received, 0);
}

#[test]
fn sorted_extremes_on_values() {
    let d = vec![Some(7), Some(2), None, Some(11)];
    let s = summarize(&d);
    assert_eq!(s.sorted_rtts[0], 2);
    assert_eq!(*s.sorted_rtts.last().unwrap(), 11);
}

#[test]
fn percentile_positions() {
    assert_eq!(percentile_bounds(1, 5), (0, 0));
    assert_eq!(percentile_bounds(1, 95), (0, 0));
    assert_eq!(percentile_bounds(20, 5), (0, 1));
    assert_eq!(percentile_bounds(20, 95), (18, 19));
    assert_eq!(percentile_bounds(21, 5), (1, 1));
    assert_eq!(percentile_bounds(21, 95), (19, 19));
    assert_eq!(percentile_bounds(10, 100), (9, 9));
    assert_eq!(percentile_bounds(10, 0), (0, 0));
}

#[test]
fn percentile_positions_match_floating_point_ones() {
    for n in 1usize..500 {
        for (q, p) in [(5u8, 0.05f64), (95u8, 0.95f64)] {
            let i = p * (n - 1) as f64;
            assert_eq!(
                percentile_bounds(n, q),
                (i.floor() as usize, i.ceil() as usize),
                "n = {}, q = {}",
                n,
                q
            );
        }
    }
}

#[test]
fn percentiles_grow_with_rank() {
    for n in 1usize..100 {
        let a = percentile_bounds(n, 5);
        let b = percentile_bounds(n, 95);
        assert!(a.0 <= b.0 && a.1 <= b.1);
    }
}

#[test]
fn loss_levels() {
    assert_eq!(loss_level(10, 10), LossLevel::Lossless);
    assert_eq!(loss_level(0, 0), LossLevel::Lossless);
    assert_eq!(loss_level(10, 9), LossLevel::Low);
    assert_eq!(loss_level(10, 8), LossLevel::High);
    assert_eq!(loss_level(5, 4), LossLevel::High);
    assert_eq!(loss_level(6, 5), LossLevel::Low);
    assert_eq!(loss_level(3, 0), LossLevel::High);
}

#[test]
fn loss_levels_match_percentages() {
    for t in 1usize..60 {
        for r in 0..=t {
            let loss = ((t - r) as f64 / t as f64) * 100.0;
            let expected = if loss == 0.0 {
                LossLevel::Lossless
            } else if loss < 20.0 {
                LossLevel::Low
            } else {
                LossLevel::High
            };
            assert_eq!(loss_level(t, r), expected, "t = {}, r = {}", t, r);
        }
    }
}

#[test]
fn totals_of_received_times() {
    assert_eq!(present_total(&[Some(5), None, Some(7)]), Some((12, 2)));
    assert_eq!(present_total(&[None, None]), Some((0, 0)));
    assert_eq!(present_total(&[Some(u128::MAX), None, Some(1)]), None);
}
