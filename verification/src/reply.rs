//! The task that waits for a job's reply and answers the miner, and the
//! counters that record how each job ended.

use crate::decimal::{decimal, to_decimal};
use crate::job::ProxyMessage;
use vstd::prelude::*;
use vstd::string::StringExecFns;

verus! {

/// `std::io::Error`, the failure of a write. It is carried through and never
/// looked into.
#[verifier::external_type_specification]
#[verifier::external_body]
pub struct ExIoError(std::io::Error);

/// How a job ended for the miner.
#[derive(Debug)]
pub enum Outcome {
    Replied,
    NoReply,
    Cancelled,
    IoError(std::io::Error),
}

/// What the waiter's wait ended with. Cancellation is looked at first.
#[derive(Debug)]
pub enum ReplyEvent {
    /// The connection's cancellation fired.
    Cancelled,
    /// The reply channel was dropped without a message.
    Dropped,
    /// The handler sent a message.
    Message(ProxyMessage),
}

/// What the waiter does next.
#[derive(Debug)]
pub enum WaiterStep {
    /// Write this text to the miner, then report how the write went.
    Write(String),
    /// Write nothing; the job ended this way.
    Finish(Outcome),
}

/// The waiter's decision. Only a `Response` is written to the miner; a
/// cancelled waiter writes nothing, and neither does one whose handler asked
/// to wait, failed, or dropped the channel.
pub fn await_and_replay(event: ReplyEvent) -> (step: WaiterStep)
    ensures
        match event {
            ReplyEvent::Cancelled => step == WaiterStep::Finish(Outcome::Cancelled),
            ReplyEvent::Dropped => step == WaiterStep::Finish(Outcome::NoReply),
            ReplyEvent::Message(ProxyMessage::Response(text)) => step == WaiterStep::Write(text),
            ReplyEvent::Message(_) => step == WaiterStep::Finish(Outcome::NoReply),
        },
{
    match event {
        ReplyEvent::Cancelled => WaiterStep::Finish(Outcome::Cancelled),
        ReplyEvent::Dropped => WaiterStep::Finish(Outcome::NoReply),
        ReplyEvent::Message(ProxyMessage::Response(text)) => WaiterStep::Write(text),
        ReplyEvent::Message(_) => WaiterStep::Finish(Outcome::NoReply),
    }
}

/// How the job ended, given how the write of its reply went.
pub fn after_write(written: Result<(), std::io::Error>) -> (outcome: Outcome)
    ensures
        match written {
            Ok(_) => outcome is Replied,
            Err(e) => outcome == Outcome::IoError(e),
        },
{
    match written {
        Ok(_) => Outcome::Replied,
        Err(e) => Outcome::IoError(e),
    }
}

/// The job counters: all jobs that ended, those that were answered, and those
/// that were not. Each wraps around at the end of its range.
#[derive(Debug, Clone, Copy, PartialEq, Eq)]
pub struct JobCounters {
    pub total: u64,
    pub succeeded: u64,
    pub failed: u64,
}

/// The successor of a counter.
pub open spec fn bumped(n: u64) -> u64 {
    if n == u64::MAX {
        0
    } else {
        (n + 1) as u64
    }
}

fn bump(n: u64) -> (r: u64)
    ensures
        r == bumped(n),
{
    if n == u64::MAX {
        0
    } else {
        n + 1
    }
}

impl JobCounters {
    /// Counters at zero.
    pub fn new() -> (c: JobCounters)
        ensures
            c == (JobCounters { total: 0, succeeded: 0, failed: 0 }),
    {
        JobCounters { total: 0, succeeded: 0, failed: 0 }
    }
}

/// Records one outcome: every job counts as one, an answered job as a
/// success, and any other as a failure.
pub fn metrics_record_job_outcome(counters: &mut JobCounters, outcome: &Outcome)
    ensures
        final(counters).total == bumped(old(counters).total),
        final(counters).succeeded == if *outcome is Replied {
            bumped(old(counters).succeeded)
        } else {
            old(counters).succeeded
        },
        final(counters).failed == if *outcome is Replied {
            old(counters).failed
        } else {
            bumped(old(counters).failed)
        },
{
    match outcome {
        Outcome::Replied => {
            counters.succeeded = bump(counters.succeeded);
        },
        _ => {
            counters.failed = bump(counters.failed);
        },
    }
    counters.total = bump(counters.total);
}

/// A line of the report: a label and a counter in decimal.
pub open spec fn report_line(label: Seq<char>, n: u64) -> Seq<char> {
    label + decimal(n as nat)
}

fn report(label: &str, n: u64) -> (line: String)
    ensures
        line@ == report_line(label@, n),
{
    let digits = to_decimal(n);
    let mut line = label.to_owned();
    line.append(digits.as_str());
    line
}

/// The three lines of the periodic job report.
pub fn jobs_telemetry(counters: &JobCounters) -> (lines: Vec<String>)
    ensures
        lines@.len() == 3,
        lines@[0]@ == report_line("[JOBS] Total Jobs: "@, counters.total),
        lines@[1]@ == report_line("[JOBS] Total succeeded jobs: "@, counters.succeeded),
        lines@[2]@ == report_line("[JOBS] Total failed jobs: "@, counters.failed),
{
    let mut lines: Vec<String> = Vec::new();
    lines.push(report("[JOBS] Total Jobs: ", counters.total));
    lines.push(report("[JOBS] Total succeeded jobs: ", counters.succeeded));
    lines.push(report("[JOBS] Total failed jobs: ", counters.failed));
    lines
}

} // verus!
