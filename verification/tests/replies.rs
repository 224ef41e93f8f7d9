use proxy_gates::job::ProxyMessage;
use proxy_gates::reply::{
    after_write, await_and_replay, jobs_telemetry, metrics_record_job_outcome, JobCounters,
    Outcome, ReplyEvent, WaiterStep,
};
use proxy_gates::server::ConnIds;
use proxy_gates::telemetry::ActivityTelemetry;
use proxy_gates::config::Config;
use proxy_gates::decimal::to_decimal;

fn io_error() -> std::io::Error {
    std::io::Error::new(std::io::ErrorKind::BrokenPipe, "gone")
}

#[test]
fn response_is_written() {
    let step = await_and_replay(ReplyEvent::Message(ProxyMessage::Response("OK\n".to_string())));
    match step {
        WaiterStep::Write(text) => assert_eq!(text, "OK\n"),
        other => panic!("unexpected {:?}", other),
    }
}

#[test]
fn wait_error_and_request_write_nothing() {
    for message in [
        ProxyMessage::Wait,
        ProxyMessage::Error("not found".to_string()),
        ProxyMessage::Request("x".to_string()),
    ] {
        let step = await_and_replay(ReplyEvent::Message(message));
        assert!(matches!(step, WaiterStep::Finish(Outcome::NoReply)));
    }
}

#[test]
fn dropped_channel_is_no_reply() {
    assert!(matches!(await_and_replay(ReplyEvent::Dropped), WaiterStep::Finish(Outcome::NoReply)));
}

#[test]
fn cancelled_waiter_writes_nothing() {
    assert!(matches!(
        await_and_replay(ReplyEvent::Cancelled),
        WaiterStep::Finish(Outcome::Cancelled)
    ));
}

#[test]
fn write_result_decides_the_outcome() {
    assert!(matches!(after_write(Ok(())), Outcome::Replied));
    match after_write(Err(io_error())) {
        Outcome::IoError(e) => assert_eq!(e.kind(), std::io::ErrorKind::BrokenPipe),
        other => panic!("unexpected {:?}", other),
    }
}

#[test]
fn ping_round_trip_counts_one_success() {
    let mut counters = JobCounters::new();
    let step = await_and_replay(ReplyEvent::Message(ProxyMessage::Response("OK\n".to_string())));
    assert!(matches!(step, WaiterStep::Write(_)));
    let outcome = after_write(Ok(()));
    metrics_record_job_outcome(&mut counters, &outcome);
    assert_eq!(counters, JobCounters { total: 1, succeeded: 1, failed: 0 });
}

#[test]
fn buffered_subscribe_counts_one_failure() {
    let mut counters = JobCounters::new();
    match await_and_replay(ReplyEvent::Message(ProxyMessage::Wait)) {
        WaiterStep::Finish(outcome) => metrics_record_job_outcome(&mut counters, &outcome),
        other => panic!("unexpected {:?}", other),
    }
    assert_eq!(counters, JobCounters { total: 1, succeeded: 0, failed: 1 });
}

#[test]
fn every_other_outcome_is_a_failure() {
    let mut counters = JobCounters::new();
    metrics_record_job_outcome(&mut counters, &Outcome::NoReply);
    metrics_record_job_outcome(&mut counters, &Outcome::Cancelled);
    metrics_record_job_outcome(&mut counters, &Outcome::IoError(io_error()));
    metrics_record_job_outcome(&mut counters, &Outcome::Replied);
    assert_eq!(counters, JobCounters { total: 4, succeeded: 1, failed: 3 });
}

#[test]
fn counters_wrap_around() {
    let mut counters = JobCounters { total: u64::MAX, succeeded: u64::MAX, failed: 7 };
    metrics_record_job_outcome(&mut counters, &Outcome::Replied);
    assert_eq!(counters, JobCounters { total: 0, succeeded: 0, failed: 7 });
}

#[test]
fn report_names_the_three_counters() {
    let counters = JobCounters { total: 12, succeeded: 9, failed: 3 };
    assert_eq!(
        jobs_telemetry(&counters),
        vec![
            "[JOBS] Total Jobs: 12".to_string(),
            "[JOBS] Total succeeded jobs: 9".to_string(),
            "[JOBS] Total failed jobs: 3".to_string(),
        ]
    );
}

#[test]
fn telemetry_reports_only_when_switched_on() {
    let counters = JobCounters { total: 1, succeeded: 1, failed: 0 };
    let off = ActivityTelemetry::new(10);
    assert!(!off.is_jobs_telemetry);
    assert_eq!(off.frequency_secs, 10);
    assert!(off.run_telemetry(&counters).is_empty());
    let on = off.set_jobs_telemetry(true);
    assert_eq!(on.run_telemetry(&counters)[0], "[JOBS] Total Jobs: 1");
    assert_eq!(on.run_telemetry(&counters).len(), 3);
    assert_eq!(on.set_jobs_telemetry(false), off);
}

#[test]
fn connection_numbers_count_up_from_one() {
    let mut ids = ConnIds::new();
    assert_eq!(ids.accepted(), 0);
    assert_eq!(ids.next_id(), Some(1));
    assert_eq!(ids.next_id(), Some(2));
    assert_eq!(ids.accepted(), 2);
}

#[test]
fn settings_path_comes_from_the_arguments() {
    let none = vec!["proxy".to_string()];
    assert_eq!(Config::path_from_args(&none), "./config/config.json");
    assert_eq!(Config::path_from_args(&Vec::new()), "./config/config.json");
    let some = vec!["proxy".to_string(), "/etc/p.json".to_string(), "x".to_string()];
    assert_eq!(Config::path_from_args(&some), "/etc/p.json");
}

#[test]
fn numbers_are_written_in_decimal() {
    assert_eq!(to_decimal(0), "0");
    assert_eq!(to_decimal(7), "7");
    assert_eq!(to_decimal(10), "10");
    assert_eq!(to_decimal(1905), "1905");
    assert_eq!(to_decimal(u64::MAX), "18446744073709551615");
}
