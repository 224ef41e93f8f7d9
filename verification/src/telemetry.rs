//! The periodic report.

use crate::reply::{jobs_telemetry, report_line, JobCounters};
use vstd::prelude::*;

verus! {

/// What the periodic report holds and how often it is made.
#[derive(Debug, Clone, Copy, PartialEq, Eq)]
pub struct ActivityTelemetry {
    pub is_jobs_telemetry: bool,
    pub is_cpu_telemetry: bool,
    pub frequency_secs: u64,
}

impl ActivityTelemetry {
    /// A report every `frequency_secs` seconds, with nothing switched on.
    pub fn new(frequency_secs: u64) -> (t: ActivityTelemetry)
        ensures
            t == (ActivityTelemetry {
                is_jobs_telemetry: false,
                is_cpu_telemetry: false,
                frequency_secs,
            }),
    {
        ActivityTelemetry { is_jobs_telemetry: false, is_cpu_telemetry: false, frequency_secs }
    }

    /// Switches the job counters on or off.
    pub fn set_jobs_telemetry(self, is_jobs_telemetry: bool) -> (t: ActivityTelemetry)
        ensures
            t == (ActivityTelemetry { is_jobs_telemetry, ..self }),
    {
        ActivityTelemetry {
            is_jobs_telemetry,
            is_cpu_telemetry: self.is_cpu_telemetry,
            frequency_secs: self.frequency_secs,
        }
    }

    /// The lines of one report: the three job lines where the job counters
    /// are switched on, else none.
    pub fn run_telemetry(&self, counters: &JobCounters) -> (lines: Vec<String>)
        ensures
            !self.is_jobs_telemetry ==> lines@.len() == 0,
            self.is_jobs_telemetry ==> {
                &&& lines@.len() == 3
                &&& lines@[0]@ == report_line("[JOBS] Total Jobs: "@, counters.total)
                &&& lines@[1]@ == report_line("[JOBS] Total succeeded jobs: "@, counters.succeeded)
                &&& lines@[2]@ == report_line("[JOBS] Total failed jobs: "@, counters.failed)
            },
    {
        if self.is_jobs_telemetry {
            jobs_telemetry(counters)
        } else {
            Vec::new()
        }
    }
}

} // verus!
