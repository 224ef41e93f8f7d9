use proxy_gates::handlers::Reply;
use proxy_gates::job::{AuthorizeParams, Job};
use proxy_gates::scheduler::{CpuGauge, InFlightCpuGuard};
use proxy_gates::scheduler::{Event, Lane, Next, Scheduler, HIGH_BUDGET};

/// Runs the policy over two queues of the given lengths and returns the lanes
/// in the order in which jobs were processed.
fn drive(mut high: u32, mut norm: u32) -> Vec<Lane> {
    let mut sched = Scheduler::new();
    let mut order = Vec::new();
    loop {
        let event = match sched.next() {
            Next::Stop => break,
            Next::TryHigh => {
                if high > 0 {
                    high -= 1;
                    Event::High
                } else {
                    Event::Idle
                }
            }
            Next::AwaitHigh => {
                if high > 0 {
                    high -= 1;
                    Event::High
                } else {
                    Event::Shutdown
                }
            }
            Next::AwaitNormThenHigh => {
                if norm > 0 {
                    norm -= 1;
                    Event::Norm
                } else if high > 0 {
                    high -= 1;
                    Event::High
                } else {
                    Event::Shutdown
                }
            }
        };
        if let Some(lane) = sched.on_event(event) {
            order.push(lane);
        }
    }
    order
}

#[test]
fn budget_is_thirty_two() {
    assert_eq!(HIGH_BUDGET, 32);
    assert_eq!(Scheduler::new().remaining_high(), 32);
}

#[test]
fn fresh_scheduler_polls_the_high_queue() {
    assert_eq!(Scheduler::new().next(), Next::TryHigh);
}

#[test]
fn high_job_costs_one_unit() {
    let mut s = Scheduler::new();
    assert_eq!(s.on_event(Event::High), Some(Lane::High));
    assert_eq!(s.remaining_high(), 31);
    assert_eq!(s.next(), Next::TryHigh);
}

#[test]
fn empty_poll_leads_to_waiting_on_high() {
    let mut s = Scheduler::new();
    assert_eq!(s.on_event(Event::Idle), None);
    assert_eq!(s.next(), Next::AwaitHigh);
    assert_eq!(s.on_event(Event::High), Some(Lane::High));
    assert_eq!(s.next(), Next::TryHigh);
    assert_eq!(s.remaining_high(), 31);
}

#[test]
fn exhausted_budget_waits_on_norm_first() {
    let mut s = Scheduler::new();
    for _ in 0..32 {
        assert_eq!(s.on_event(Event::High), Some(Lane::High));
    }
    assert_eq!(s.remaining_high(), 0);
    assert_eq!(s.next(), Next::AwaitNormThenHigh);
    assert_eq!(s.on_event(Event::High), Some(Lane::High));
    assert_eq!(s.remaining_high(), 0);
    assert_eq!(s.next(), Next::AwaitNormThenHigh);
    assert_eq!(s.on_event(Event::Norm), Some(Lane::Norm));
    assert_eq!(s.remaining_high(), 32);
    assert_eq!(s.next(), Next::TryHigh);
}

#[test]
fn shutdown_stops_everything() {
    let mut s = Scheduler::new();
    assert_eq!(s.on_event(Event::Shutdown), None);
    assert_eq!(s.next(), Next::Stop);
    assert_eq!(s.on_event(Event::High), None);
    assert_eq!(s.on_event(Event::Norm), None);
    assert_eq!(s.remaining_high(), 32);
    assert_eq!(s.next(), Next::Stop);
}

#[test]
fn priority_starvation_bound() {
    let order = drive(100, 1);
    assert_eq!(order.len(), 101);
    let norm_at = order.iter().position(|l| *l == Lane::Norm).unwrap();
    assert_eq!(norm_at, 32);
    assert!(order[..32].iter().all(|l| *l == Lane::High));
    assert!(order[33..].iter().all(|l| *l == Lane::High));
}

#[test]
fn norm_jobs_are_never_more_than_a_budget_apart() {
    let order = drive(200, 5);
    let mut since = 0;
    let mut norms = 0;
    for lane in order.iter() {
        match lane {
            Lane::High => since += 1,
            Lane::Norm => {
                assert!(since <= 33);
                since = 0;
                norms += 1;
            }
        }
    }
    assert_eq!(norms, 5);
    assert_eq!(order.len(), 205);
}

#[test]
fn pings_alone_are_served() {
    let order = drive(0, 3);
    assert!(order.is_empty());
    let mut s = Scheduler::new();
    assert_eq!(s.on_event(Event::Norm), Some(Lane::Norm));
    assert_eq!(s.remaining_high(), 32);
}

#[test]
fn lanes_of_jobs() {
    assert_eq!(Job::Ping.lane(), Lane::Norm);
    let auth = Job::MiningAuthorize(AuthorizeParams::new("u".to_string(), None));
    assert_eq!(auth.lane(), Lane::High);
}

#[test]
fn submit_under_load() {
    let mut gauge = CpuGauge::new(2);
    let mut waiting = 5;
    let mut running: Vec<InFlightCpuGuard> = Vec::new();
    let mut replies = 0;
    let mut peak = 0;
    while waiting > 0 || !running.is_empty() {
        while waiting > 0 {
            match InFlightCpuGuard::new(&mut gauge) {
                Some(guard) => {
                    running.push(guard);
                    waiting -= 1;
                }
                None => break,
            }
        }
        assert!(gauge.in_flight() <= gauge.permits());
        if gauge.in_flight() > peak {
            peak = gauge.in_flight();
        }
        let guard = running.remove(0);
        if let Reply::Send(_) = Scheduler::handle_submit(true) {
            replies += 1;
        }
        guard.release(&mut gauge);
    }
    assert_eq!(replies, 5);
    assert_eq!(peak, 2);
    assert_eq!(gauge.in_flight(), 0);
}

#[test]
fn gauge_refuses_beyond_its_permits() {
    let mut gauge = CpuGauge::new(1);
    let first = InFlightCpuGuard::new(&mut gauge);
    assert!(first.is_some());
    assert!(InFlightCpuGuard::new(&mut gauge).is_none());
    assert_eq!(gauge.in_flight(), 1);
    first.unwrap().release(&mut gauge);
    assert_eq!(gauge.in_flight(), 0);
    let mut none = CpuGauge::new(0);
    assert!(InFlightCpuGuard::new(&mut none).is_none());
}
