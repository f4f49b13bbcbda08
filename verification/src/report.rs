//! The account of a run: how many devices are done, how long it took, and
//! the lines that say so.

use vstd::prelude::*;
use vstd::string::StringExecFns;
use crate::outcome::{DownloadOutcome, ErrorKind, OutcomeView};
use crate::text::{decimal, decimal_string, signed_decimal, signed_decimal_string};

verus! {

/// Whole minutes in a span of milliseconds, rounded towards zero.
pub open spec fn whole_minutes(millis: int) -> int {
    if millis >= 0 {
        millis / 60000
    } else {
        -((-millis) / 60000)
    }
}

/// The counter as it is shown: done, a slash, total.
pub open spec fn progress_text(done: nat, total: nat) -> Seq<char> {
    decimal(done) + "/"@ + decimal(total)
}

/// The line that follows each device.
pub open spec fn progress_line_text(name: Seq<char>, done: nat, total: nat) -> Seq<char> {
    "Ended work on: "@ + name + " ("@ + progress_text(done, total) + ")"@
}

/// The line that ends a run.
pub open spec fn finished_line_text(minutes: int) -> Seq<char> {
    "Finished in "@ + signed_decimal(minutes) + " minutes."@
}

/// The line for a device whose listing could not be fetched.
pub open spec fn fetch_error_text(device: Seq<char>, description: Seq<char>) -> Seq<char> {
    "Process errored when downloading firmware for "@ + device + ". Description: "@
        + description
}

/// The name of an error kind in a status line.
pub open spec fn kind_text(kind: ErrorKind) -> Seq<char> {
    match kind {
        ErrorKind::RemoteUnavailable => "remote unavailable"@,
        ErrorKind::IoError => "i/o error"@,
        ErrorKind::Cancelled => "cancelled"@,
    }
}

/// The status line of a device: its name and what became of it.
pub open spec fn status_text(name: Seq<char>, outcome: OutcomeView) -> Seq<char> {
    match outcome {
        OutcomeView::Skipped(reason) => name + ": skipped ("@ + reason + ")"@,
        OutcomeView::Completed(bytes) => name + ": completed ("@ + decimal(bytes as nat)
            + " bytes)"@,
        OutcomeView::Failed(kind, message) => name + ": failed ("@ + kind_text(kind) + ": "@
            + message + ")"@,
    }
}

/// The counters and the start time of a run.
#[derive(Clone, Copy, Debug, PartialEq, Eq, Structural)]
pub struct RunReport {
    /// When the run started, in milliseconds since the Unix epoch.
    pub start_time: i64,
    /// Devices handled so far.
    pub total_done: u64,
    /// Devices that the run is to handle.
    pub total_todo: u64,
}

impl RunReport {
    /// The report of a run that starts at `start_time` with nothing done.
    pub fn new(start_time: i64, total_todo: u64) -> (report: RunReport)
        ensures
            report == (RunReport { start_time, total_done: 0, total_todo }),
    {
        RunReport { start_time, total_done: 0, total_todo }
    }

    /// Counts one more device as done.
    pub fn count_device(&mut self)
        requires
            old(self).total_done < u64::MAX,
        ensures
            *final(self) == (RunReport { total_done: (old(self).total_done + 1) as u64, ..*old(self) }),
    {
        self.total_done = self.total_done + 1;
    }

    /// The whole minutes between the start of the run and `now`, which is
    /// given in milliseconds since the Unix epoch. A clock that went
    /// backwards gives a negative number.
    pub fn elapsed_minutes(&self, now: i64) -> (minutes: i64)
        ensures
            minutes == whole_minutes(now - self.start_time),
    {
        let span: i128 = now as i128 - self.start_time as i128;
        if span >= 0 {
            let m: u128 = (span as u128) / 60000;
            m as i64
        } else {
            let m: u128 = ((-span) as u128) / 60000;
            -(m as i64)
        }
    }

    /// The line that follows a device: its name and `done/total`.
    pub fn progress_line(&self, name: &str) -> (line: String)
        ensures
            line@ == progress_line_text(name@, self.total_done as nat, self.total_todo as nat),
    {
        let mut line = String::from_str("Ended work on: ");
        line.append(name);
        line.append(" (");
        let done = decimal_string(self.total_done);
        line.append(done.as_str());
        line.append("/");
        let total = decimal_string(self.total_todo);
        line.append(total.as_str());
        line.append(")");
        assert(line@ =~= progress_line_text(
            name@,
            self.total_done as nat,
            self.total_todo as nat,
        ));
        line
    }

    /// The line that ends a run, with the minutes it took until `now`.
    pub fn finished_line(&self, now: i64) -> (line: String)
        ensures
            line@ == finished_line_text(whole_minutes(now - self.start_time)),
    {
        let minutes = signed_decimal_string(self.elapsed_minutes(now));
        let mut line = String::from_str("Finished in ");
        line.append(minutes.as_str());
        line.append(" minutes.");
        line
    }
}

/// The line for a device whose listing could not be fetched.
pub fn fetch_error_line(device: &str, description: &str) -> (line: String)
    ensures
        line@ == fetch_error_text(device@, description@),
{
    let mut line = String::from_str("Process errored when downloading firmware for ");
    line.append(device);
    line.append(". Description: ");
    line.append(description);
    line
}

fn kind_name(kind: ErrorKind) -> (name: &'static str)
    ensures
        name@ == kind_text(kind),
{
    match kind {
        ErrorKind::RemoteUnavailable => "remote unavailable",
        ErrorKind::IoError => "i/o error",
        ErrorKind::Cancelled => "cancelled",
    }
}

/// The one status line of a device: its name and what became of it.
pub fn status_line(name: &str, outcome: &DownloadOutcome) -> (line: String)
    ensures
        line@ == status_text(name@, outcome@),
{
    let mut line = String::from_str(name);
    match outcome {
        DownloadOutcome::Skipped(reason) => {
            line.append(": skipped (");
            line.append(reason.as_str());
            line.append(")");
        },
        DownloadOutcome::Completed(bytes) => {
            line.append(": completed (");
            let count = decimal_string(*bytes);
            line.append(count.as_str());
            line.append(" bytes)");
        },
        DownloadOutcome::Failed(kind, message) => {
            line.append(": failed (");
            line.append(kind_name(*kind));
            line.append(": ");
            line.append(message.as_str());
            line.append(")");
        },
    }
    line
}

} // verus!
