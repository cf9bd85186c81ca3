use cobitis::retry::{RetryPolicy, RetryStep};
use cobitis::schedule::PeriodicSchedule;
use cobitis::wait::{ReadyWait, WaitAction};

#[test]
fn retry_succeeds_on_third_attempt() {
    let policy = RetryPolicy::cycle_read();
    assert_eq!(policy.max_attempts, 3);
    let outcomes: [Result<i32, &str>; 3] = [Err("crc"), Err("crc"), Ok(215)];
    let mut made: u32 = 0;
    let mut result = None;
    for outcome in outcomes {
        made += 1;
        match policy.step(made, outcome) {
            RetryStep::Again { delay_ms } => assert_eq!(delay_ms, 0),
            RetryStep::Done(r) => {
                result = Some(r);
                break;
            }
        }
    }
    assert_eq!(made, 3);
    assert_eq!(result, Some(Ok(215)));
}

#[test]
fn retry_exhausted_returns_last_failure() {
    let policy = RetryPolicy::device_discovery();
    assert_eq!(policy.delay_ms, 1000);
    assert!(matches!(policy.step::<i32, i32>(1, Err(1)), RetryStep::Again { delay_ms: 1000 }));
    assert!(matches!(policy.step::<i32, i32>(2, Err(2)), RetryStep::Again { delay_ms: 1000 }));
    assert!(matches!(policy.step::<i32, i32>(3, Err(3)), RetryStep::Done(Err(3))));
    assert!(matches!(policy.step::<i32, i32>(1, Ok(9)), RetryStep::Done(Ok(9))));
}

#[test]
fn schedule_skips_missed_ticks() {
    let mut s = PeriodicSchedule::new(0, 5000);
    assert!(s.poll(0));
    assert_eq!(s.next_due(), 5000);
    assert!(!s.poll(4999));
    assert_eq!(s.wait_ms(4999), 1);
    assert!(s.poll(5000));
    assert_eq!(s.next_due(), 10000);
    // the cycle overran two boundaries
    assert!(s.poll(22_300));
    assert_eq!(s.next_due(), 25000);
    assert!(!s.poll(22_301));
    assert!(!s.poll(24_999));
    assert!(s.poll(25_000));
    assert_eq!(s.next_due(), 30000);
    assert_eq!(s.wait_ms(31_000), 0);
}

#[test]
fn wait_times_out_after_ten_seconds() {
    let mut w = ReadyWait::link();
    let mut checks = 0;
    while !w.timed_out() {
        checks += 1;
        assert_eq!(w.check(false), WaitAction::Delay { ms: 10 });
    }
    assert_eq!(checks, 1000);
    assert_eq!(w.elapsed_ms(), 10_000);
}

#[test]
fn wait_ready_at_last_check() {
    let mut w = ReadyWait::link();
    for _ in 0..999 {
        assert_eq!(w.check(false), WaitAction::Delay { ms: 10 });
    }
    assert!(!w.timed_out());
    assert_eq!(w.check(true), WaitAction::Ready);
}

#[test]
fn wait_ready_at_once() {
    let mut w = ReadyWait::link();
    assert_eq!(w.check(true), WaitAction::Ready);
    assert_eq!(w.elapsed_ms(), 0);
}

#[test]
fn schedule_fires_at_most_once_per_boundary() {
    let mut s = PeriodicSchedule::new(0, 5000);
    let mut now: u64 = 0;
    let mut fired: u64 = 0;
    // every cycle takes 12.3 s, overrunning two boundaries; the overrun activation
    // fires as the cycle ends: at 0, 12.3, 24.6, ... 98.4 s
    while now < 100_000 {
        if s.poll(now) {
            fired += 1;
            now += 12_300;
        } else {
            now += 1;
        }
        assert!(fired <= now / 5000 + 1);
    }
    assert_eq!(fired, 9);
}
