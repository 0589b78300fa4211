//! Patient-demographic synchronisation: the rules that turn rows of a
//! replication log into patient records, patient records into clinical
//! messages, and peer requests into acknowledgments.

use vstd::prelude::*;

pub mod adapters;
pub mod api;
pub mod binlog;
pub mod config;
pub mod domain;
pub mod ext;
pub mod proto;
pub mod service;
pub mod text;
pub mod webhook;

use vstd::string::StringExecFns;

use crate::domain::patient::{DomainPatient, DomainPatientView};

verus! {

/// What the producers tell the forwarder. Each kind of change is one variant.
#[derive(Debug)]
pub enum Event {
    /// A patient was created or changed; the two are not told apart.
    PatientUpsert(DomainPatient),
}

/// What an [`Event`] holds, as plain text.
pub enum EventView {
    PatientUpsert(DomainPatientView),
}

impl View for Event {
    type V = EventView;

    open spec fn view(&self) -> EventView {
        match self {
            Event::PatientUpsert(patient) => EventView::PatientUpsert(patient@),
        }
    }
}

impl DeepView for Event {
    type V = EventView;

    open spec fn deep_view(&self) -> EventView {
        self@
    }
}

/// How loudly the exit of a task is reported.
#[derive(Debug, Clone, Copy, PartialEq, Eq, Structural)]
pub enum LogLevel {
    Info,
    Error,
}

/// The line that reports the exit of a task.
#[derive(Debug, Clone)]
pub struct ExitReport {
    pub level: LogLevel,
    pub message: String,
}

/// What an [`ExitReport`] holds, as plain text.
pub struct ExitReportView {
    pub level: LogLevel,
    pub message: Seq<char>,
}

impl View for ExitReport {
    type V = ExitReportView;

    open spec fn view(&self) -> ExitReportView {
        ExitReportView { level: self.level, message: self.message@ }
    }
}

/// The report for a task that ended.
///
/// The outer result tells whether the task could be joined, the inner one
/// whether it succeeded; each failure comes as the text that describes it.
/// Only a task that was joined and succeeded is reported without alarm.
pub open spec fn exit_report(
    name: Seq<char>,
    res: Result<Result<(), Seq<char>>, Seq<char>>,
) -> ExitReportView {
    match res {
        Ok(Ok(())) => ExitReportView {
            level: LogLevel::Info,
            message: name + " task exited cleanly"@,
        },
        Ok(Err(fault)) => ExitReportView {
            level: LogLevel::Error,
            message: name + " task exited with error: "@ + fault,
        },
        Err(fault) => ExitReportView {
            level: LogLevel::Error,
            message: name + " task exited with join error: "@ + fault,
        },
    }
}

/// The outcome of a task, with each failure as plain text.
pub open spec fn outcome_text(res: Result<Result<(), String>, String>) -> Result<
    Result<(), Seq<char>>,
    Seq<char>,
> {
    match res {
        Ok(Ok(())) => Ok(Ok(())),
        Ok(Err(fault)) => Ok(Err(fault@)),
        Err(fault) => Err(fault@),
    }
}

/// Says how the task called `name` ended. The caller writes the report to
/// the log.
pub fn handle_exit(name: &str, res: Result<Result<(), String>, String>) -> (report: ExitReport)
    ensures
        report@ == exit_report(name@, outcome_text(res)),
{
    let mut message = String::from_str(name);
    match res {
        Ok(Ok(())) => {
            message.append(" task exited cleanly");
            ExitReport { level: LogLevel::Info, message }
        },
        Ok(Err(fault)) => {
            message.append(" task exited with error: ");
            message.append(fault.as_str());
            ExitReport { level: LogLevel::Error, message }
        },
        Err(fault) => {
            message.append(" task exited with join error: ");
            message.append(fault.as_str());
            ExitReport { level: LogLevel::Error, message }
        },
    }
}

/// Number of events the bus between the producers and the forwarder holds
/// before a publisher has to wait.
pub const EVENT_BUS_CAPACITY: usize = 1024;

} // verus!
