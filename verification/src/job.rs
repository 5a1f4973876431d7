//! The job engine: one state machine for the controller that launches a job and
//! the writer that fans its output out to the local file and the remote relay.
//!
//! The machine decides; the program around it acts. Each [`Action`] names one piece
//! of outside work, and the [`Event`] handed back says how it went. The machine
//! issues one action at a time, so the local append of a record always comes
//! before its submission to the relay, and the next line is read only after both.

use vstd::prelude::*;
use vstd::string::*;
use crate::completion::CompletionFlag;
use crate::identity::{
    default_name, error_path, fresh_identity, job_directory, job_paths, output_path, pid_path,
    token_text, working_directory, Identity,
};
use crate::record::{exit_line, exit_marker, header, header_line, terminate, terminated};
use crate::text::{join, optional_text, single_line};

verus! {

/// Where the machine stands.
#[derive(Clone, Copy, Debug, PartialEq, Eq, Structural)]
pub enum Phase {
    /// Nothing has been asked of the outside yet.
    Created,
    /// The remote job record has been requested.
    Registering,
    /// The command's process is being started.
    Spawning,
    /// The process is being detached from its terminal.
    Detaching,
    /// A record is on its way to the local file.
    Appending,
    /// The same record is on its way to the relay.
    Submitting,
    /// The next line of output is awaited.
    Reading,
    /// The terminal marker has been handled by both sinks.
    Completed,
    /// The job record could not be created; the command never runs.
    Rejected,
    /// The command could not be started or detached; the job never runs.
    Failed,
}

/// The life of a job as its observers see it.
#[derive(Clone, Copy, Debug, PartialEq, Eq, Structural)]
pub enum Lifecycle {
    Created,
    Detaching,
    Running,
    Completed,
}

/// The stage of a job's life that a phase belongs to. A job that was stopped
/// before it ran stays in the stage in which it stopped.
pub open spec fn lifecycle_of(phase: Phase) -> Lifecycle {
    match phase {
        Phase::Created | Phase::Registering | Phase::Rejected => Lifecycle::Created,
        Phase::Spawning | Phase::Detaching | Phase::Failed => Lifecycle::Detaching,
        Phase::Appending | Phase::Submitting | Phase::Reading => Lifecycle::Running,
        Phase::Completed => Lifecycle::Completed,
    }
}

/// The completion flag that goes with a phase.
pub open spec fn flag_of(phase: Phase) -> CompletionFlag {
    if phase == Phase::Completed {
        CompletionFlag::Done
    } else {
        CompletionFlag::Pending
    }
}

/// What the outside reports back to the machine.
#[derive(Debug, PartialEq, Eq)]
pub enum Event {
    /// The user asked for the job to start.
    Launch,
    /// The remote job record exists.
    RecordCreated,
    /// The remote job record could not be created.
    RecordRejected { reason: String },
    /// The command's process runs and its output can be read.
    Spawned,
    /// The command's process could not be started.
    SpawnFailed { reason: String },
    /// The process is detached; `timestamp` is the time at which it was.
    Detached { timestamp: String },
    /// The process could not be detached.
    DetachFailed { reason: String, timestamp: String },
    /// The local file took the record.
    LocalWritten,
    /// The local file did not take the record.
    LocalFailed { reason: String },
    /// The relay took the record.
    RemoteAccepted,
    /// The relay did not take the record.
    RemoteFailed { reason: String },
    /// The command printed a line.
    Line { text: String },
    /// The command's output stream is closed.
    EndOfStream,
}

/// An [`Event`] as contracts see it.
pub enum EventView {
    Launch,
    RecordCreated,
    RecordRejected { reason: Seq<char> },
    Spawned,
    SpawnFailed { reason: Seq<char> },
    Detached { timestamp: Seq<char> },
    DetachFailed { reason: Seq<char>, timestamp: Seq<char> },
    LocalWritten,
    LocalFailed { reason: Seq<char> },
    RemoteAccepted,
    RemoteFailed { reason: Seq<char> },
    Line { text: Seq<char> },
    EndOfStream,
}

impl View for Event {
    type V = EventView;

    open spec fn view(&self) -> EventView {
        match self {
            Event::Launch => EventView::Launch,
            Event::RecordCreated => EventView::RecordCreated,
            Event::RecordRejected { reason } => EventView::RecordRejected { reason: reason@ },
            Event::Spawned => EventView::Spawned,
            Event::SpawnFailed { reason } => EventView::SpawnFailed { reason: reason@ },
            Event::Detached { timestamp } => EventView::Detached { timestamp: timestamp@ },
            Event::DetachFailed { reason, timestamp } => EventView::DetachFailed {
                reason: reason@,
                timestamp: timestamp@,
            },
            Event::LocalWritten => EventView::LocalWritten,
            Event::LocalFailed { reason } => EventView::LocalFailed { reason: reason@ },
            Event::RemoteAccepted => EventView::RemoteAccepted,
            Event::RemoteFailed { reason } => EventView::RemoteFailed { reason: reason@ },
            Event::Line { text } => EventView::Line { text: text@ },
            Event::EndOfStream => EventView::EndOfStream,
        }
    }
}

/// The outside work that the machine asks for next.
#[derive(Debug, PartialEq, Eq)]
pub enum Action {
    /// Create the remote job record.
    CreateRecord { machine: String, name: String, description: String },
    /// Start the command through the host's command interpreter.
    Spawn { command: String },
    /// Detach from the terminal: record the process id in `pid_file`, run in
    /// `directory`, and send the process's own output and error streams to the
    /// files `output` and `error`.
    Detach { pid_file: String, directory: String, output: String, error: String },
    /// Append `text` to the file at `path` in one write, opening the file for this
    /// write alone and flushing it.
    AppendLocal { path: String, text: String },
    /// Submit `line` to the relay under the job name `job`.
    SubmitRemote { job: String, line: String },
    /// Read the next line of the command's output.
    ReadLine,
    /// The job is done: set the completion flag and leave with success.
    Complete,
    /// The job does not run: end the command's process if it was started, and
    /// leave.
    Abort,
    /// The event was not awaited; there is nothing to do.
    Ignore,
}

/// An [`Action`] as contracts see it.
pub enum ActionView {
    CreateRecord { machine: Seq<char>, name: Seq<char>, description: Seq<char> },
    Spawn { command: Seq<char> },
    Detach { pid_file: Seq<char>, directory: Seq<char>, output: Seq<char>, error: Seq<char> },
    AppendLocal { path: Seq<char>, text: Seq<char> },
    SubmitRemote { job: Seq<char>, line: Seq<char> },
    ReadLine,
    Complete,
    Abort,
    Ignore,
}

impl View for Action {
    type V = ActionView;

    open spec fn view(&self) -> ActionView {
        match self {
            Action::CreateRecord { machine, name, description } => ActionView::CreateRecord {
                machine: machine@,
                name: name@,
                description: description@,
            },
            Action::Spawn { command } => ActionView::Spawn { command: command@ },
            Action::Detach { pid_file, directory, output, error } => ActionView::Detach {
                pid_file: pid_file@,
                directory: directory@,
                output: output@,
                error: error@,
            },
            Action::AppendLocal { path, text } => ActionView::AppendLocal {
                path: path@,
                text: text@,
            },
            Action::SubmitRemote { job, line } => ActionView::SubmitRemote {
                job: job@,
                line: line@,
            },
            Action::ReadLine => ActionView::ReadLine,
            Action::Complete => ActionView::Complete,
            Action::Abort => ActionView::Abort,
            Action::Ignore => ActionView::Ignore,
        }
    }
}

/// The machine's answer to one event: a message for the standard error stream,
/// where something went wrong, and the next action.
#[derive(Debug, PartialEq, Eq)]
pub struct Step {
    pub report: Option<String>,
    pub action: Action,
}

/// A [`Step`] as contracts see it.
pub struct StepView {
    pub report: Option<Seq<char>>,
    pub action: ActionView,
}

impl View for Step {
    type V = StepView;

    open spec fn view(&self) -> StepView {
        StepView {
            report: optional_text(self.report),
            action: self.action@,
        }
    }
}

/// One job: what was asked for, and how far the engine has come with it.
#[derive(Debug)]
pub struct Job {
    machine: String,
    identity: String,
    description: String,
    command: String,
    phase: Phase,
    current: String,
    closing: bool,
}

/// A [`Job`] as contracts see it.
pub struct JobView {
    /// The machine that owns the job.
    pub machine: Seq<char>,
    /// The job's identity.
    pub identity: Seq<char>,
    /// What the user said of the job.
    pub description: Seq<char>,
    /// The command as the user wrote it.
    pub command: Seq<char>,
    /// Where the machine stands.
    pub phase: Phase,
    /// The record that is on its way to a sink; empty between records.
    pub current: Seq<char>,
    /// The record on its way is the terminal marker, or was.
    pub closing: bool,
}

impl View for Job {
    type V = JobView;

    closed spec fn view(&self) -> JobView {
        JobView {
            machine: self.machine@,
            identity: self.identity@,
            description: self.description@,
            command: self.command@,
            phase: self.phase,
            current: self.current@,
            closing: self.closing,
        }
    }
}

/// A job on which nothing has been done yet.
pub open spec fn fresh(
    machine: Seq<char>,
    identity: Seq<char>,
    description: Seq<char>,
    command: Seq<char>,
) -> JobView {
    JobView {
        machine,
        identity,
        description,
        command,
        phase: Phase::Created,
        current: Seq::empty(),
        closing: false,
    }
}

/// The message for a record that the local file did not take.
pub open spec fn local_failure_report(reason: Seq<char>) -> Seq<char> {
    "Couldn't write to file: "@ + reason
}

/// The message for a process that could not be detached.
pub open spec fn detach_failure_report(timestamp: Seq<char>, reason: Seq<char>) -> Seq<char> {
    "Kraken - Job - Error - "@ + timestamp + "\n======\n"@ + reason + "\n"@
}

/// The answer to an event that was not awaited.
pub open spec fn ignored(job: JobView) -> (JobView, StepView) {
    (job, StepView { report: None, action: ActionView::Ignore })
}

/// The machine moves on to the local append of `line`.
pub open spec fn append_next(job: JobView, line: Seq<char>, closing: bool) -> (JobView, StepView) {
    (
        JobView { phase: Phase::Appending, current: line, closing, ..job },
        StepView {
            report: None,
            action: ActionView::AppendLocal {
                path: output_path(job.identity),
                text: terminated(line),
            },
        },
    )
}

/// The local file has answered, well or badly: the record goes to the relay.
pub open spec fn submit_current(job: JobView, report: Option<Seq<char>>) -> (JobView, StepView) {
    (
        JobView { phase: Phase::Submitting, ..job },
        StepView {
            report,
            action: ActionView::SubmitRemote { job: job.identity, line: job.current },
        },
    )
}

/// The relay has answered, well or badly: after the terminal marker the job is
/// complete, after any other record the next line is read.
pub open spec fn after_relay(job: JobView, report: Option<Seq<char>>) -> (JobView, StepView) {
    if job.closing {
        (
            JobView { phase: Phase::Completed, current: Seq::empty(), ..job },
            StepView { report, action: ActionView::Complete },
        )
    } else {
        (
            JobView { phase: Phase::Reading, current: Seq::empty(), ..job },
            StepView { report, action: ActionView::ReadLine },
        )
    }
}

/// The job stops before it ran.
pub open spec fn stopped(job: JobView, phase: Phase, report: Seq<char>) -> (JobView, StepView) {
    (JobView { phase, ..job }, StepView { report: Some(report), action: ActionView::Abort })
}

/// The machine: the state after an event, the message to report and the next
/// action. An event that the current phase does not await changes nothing.
pub open spec fn transition(job: JobView, event: EventView) -> (JobView, StepView) {
    match (job.phase, event) {
        (Phase::Created, EventView::Launch) => (
            JobView { phase: Phase::Registering, ..job },
            StepView {
                report: None,
                action: ActionView::CreateRecord {
                    machine: job.machine,
                    name: job.identity,
                    description: job.description,
                },
            },
        ),
        (Phase::Registering, EventView::RecordCreated) => (
            JobView { phase: Phase::Spawning, ..job },
            StepView { report: None, action: ActionView::Spawn { command: job.command } },
        ),
        (Phase::Registering, EventView::RecordRejected { reason }) => stopped(
            job,
            Phase::Rejected,
            reason,
        ),
        (Phase::Spawning, EventView::Spawned) => (
            JobView { phase: Phase::Detaching, ..job },
            StepView {
                report: None,
                action: ActionView::Detach {
                    pid_file: pid_path(job.identity),
                    directory: working_directory(),
                    output: output_path(job.identity),
                    error: error_path(job.identity),
                },
            },
        ),
        (Phase::Spawning, EventView::SpawnFailed { reason }) => stopped(
            job,
            Phase::Failed,
            reason,
        ),
        (Phase::Detaching, EventView::Detached { timestamp }) => append_next(
            job,
            header(job.identity, timestamp, job.command),
            false,
        ),
        (Phase::Detaching, EventView::DetachFailed { reason, timestamp }) => stopped(
            job,
            Phase::Failed,
            detach_failure_report(timestamp, reason),
        ),
        (Phase::Appending, EventView::LocalWritten) => submit_current(job, None),
        (Phase::Appending, EventView::LocalFailed { reason }) => submit_current(
            job,
            Some(local_failure_report(reason)),
        ),
        (Phase::Submitting, EventView::RemoteAccepted) => after_relay(job, None),
        (Phase::Submitting, EventView::RemoteFailed { reason }) => after_relay(job, Some(reason)),
        (Phase::Reading, EventView::Line { text }) => append_next(job, text, false),
        (Phase::Reading, EventView::EndOfStream) => append_next(job, exit_marker(), true),
        _ => ignored(job),
    }
}

/// The events that a phase awaits. The program that drives the machine hands it
/// only such events: each is the outcome of the action issued just before.
pub open spec fn awaits(phase: Phase, event: EventView) -> bool {
    match (phase, event) {
        (Phase::Created, EventView::Launch) => true,
        (Phase::Registering, EventView::RecordCreated) => true,
        (Phase::Registering, EventView::RecordRejected { .. }) => true,
        (Phase::Spawning, EventView::Spawned) => true,
        (Phase::Spawning, EventView::SpawnFailed { .. }) => true,
        (Phase::Detaching, EventView::Detached { .. }) => true,
        (Phase::Detaching, EventView::DetachFailed { .. }) => true,
        (Phase::Appending, EventView::LocalWritten) => true,
        (Phase::Appending, EventView::LocalFailed { .. }) => true,
        (Phase::Submitting, EventView::RemoteAccepted) => true,
        (Phase::Submitting, EventView::RemoteFailed { .. }) => true,
        (Phase::Reading, EventView::Line { .. }) => true,
        (Phase::Reading, EventView::EndOfStream) => true,
        _ => false,
    }
}

/// The event says how a local append went.
pub open spec fn is_local_outcome(event: EventView) -> bool {
    event is LocalWritten || event is LocalFailed
}

/// The event says how a submission to the relay went.
pub open spec fn is_remote_outcome(event: EventView) -> bool {
    event is RemoteAccepted || event is RemoteFailed
}

/// The current time in UTC: the system clock's reading, turned into a
/// `chrono::DateTime<Utc>` by chrono's `From<SystemTime>`, which counts forward
/// or back from 1970 as the clock stands, and written as chrono's `Display` for
/// `DateTime` writes it: the date in digits and hyphens, a space, the time of day
/// in digits, colons and a point, a space and the letters `UTC`. The contract
/// claims only that the text holds no line feed.
#[verifier::external_body]
fn utc_now() -> (timestamp: String)
    ensures
        single_line(timestamp@),
{
    chrono::DateTime::<chrono::Utc>::from(std::time::SystemTime::now()).to_string()
}

/// The event that says how detaching went at the time `timestamp`.
pub open spec fn detach_event(failure: Option<Seq<char>>, timestamp: Seq<char>) -> EventView {
    match failure {
        None => EventView::Detached { timestamp },
        Some(reason) => EventView::DetachFailed { reason, timestamp },
    }
}

impl Job {
    /// A job that has not started.
    pub fn new(identity: Identity, description: String, command: String) -> (job: Job)
        ensures
            job@ == fresh(identity.machine@, identity.name@, description@, command@),
    {
        Job {
            machine: identity.machine,
            identity: identity.name,
            description,
            command,
            phase: Phase::Created,
            current: String::new(),
            closing: false,
        }
    }

    /// A job for this machine that has not started. Its identity is the requested
    /// name where there is one; else the machine's host name, a hyphen and a random
    /// token. There is no job where the host name cannot be read.
    pub fn create(requested: Option<String>, description: String, command: String) -> (job:
        Option<Job>)
        ensures
            job matches Some(made) ==> {
                &&& made@ == fresh(made@.machine, made@.identity, description@, command@)
                &&& match requested {
                    Some(name) => made@.identity == name@,
                    None => exists|token: Seq<char>|
                        token_text(token) && made@.identity == #[trigger] default_name(
                            made@.machine,
                            token,
                        ),
                }
            },
    {
        match fresh_identity(requested) {
            Some(identity) => Some(Job::new(identity, description, command)),
            None => None,
        }
    }

    /// Where the machine stands.
    pub fn phase(&self) -> (phase: Phase)
        ensures
            phase == self@.phase,
    {
        self.phase
    }

    /// The stage of the job's life.
    pub fn lifecycle(&self) -> (stage: Lifecycle)
        ensures
            stage == lifecycle_of(self@.phase),
    {
        match self.phase {
            Phase::Created | Phase::Registering | Phase::Rejected => Lifecycle::Created,
            Phase::Spawning | Phase::Detaching | Phase::Failed => Lifecycle::Detaching,
            Phase::Appending | Phase::Submitting | Phase::Reading => Lifecycle::Running,
            Phase::Completed => Lifecycle::Completed,
        }
    }

    /// The job's completion flag: `Done` once the terminal marker has been handled
    /// by both sinks, `Pending` until then.
    pub fn flag(&self) -> (flag: CompletionFlag)
        ensures
            flag == flag_of(self@.phase),
    {
        match self.phase {
            Phase::Completed => CompletionFlag::Done,
            _ => CompletionFlag::Pending,
        }
    }

    /// The job's identity.
    pub fn identity(&self) -> (name: &str)
        ensures
            name@ == self@.identity,
    {
        self.identity.as_str()
    }

    /// The machine that owns the job.
    pub fn machine(&self) -> (name: &str)
        ensures
            name@ == self@.machine,
    {
        self.machine.as_str()
    }

    /// The action that appends `line` to the job's local file.
    fn append_action(&self, line: &str) -> (action: Action)
        ensures
            action@ == (ActionView::AppendLocal {
                path: output_path(self@.identity),
                text: terminated(line@),
            }),
    {
        let paths = job_paths(self.identity.as_str());
        Action::AppendLocal { path: paths.output, text: terminate(line) }
    }

    /// Takes one event and answers with the next action, as [`transition`] says.
    pub fn step(&mut self, event: Event) -> (step: Step)
        ensures
            (final(self)@, step@) == transition(old(self)@, event@),
    {
        match event {
            Event::Launch => {
                if self.phase == Phase::Created {
                    self.phase = Phase::Registering;
                    return Step {
                        report: None,
                        action: Action::CreateRecord {
                            machine: self.machine.clone(),
                            name: self.identity.clone(),
                            description: self.description.clone(),
                        },
                    };
                }
            },
            Event::RecordCreated => {
                if self.phase == Phase::Registering {
                    self.phase = Phase::Spawning;
                    return Step {
                        report: None,
                        action: Action::Spawn { command: self.command.clone() },
                    };
                }
            },
            Event::RecordRejected { reason } => {
                if self.phase == Phase::Registering {
                    self.phase = Phase::Rejected;
                    return Step { report: Some(reason), action: Action::Abort };
                }
            },
            Event::Spawned => {
                if self.phase == Phase::Spawning {
                    self.phase = Phase::Detaching;
                    let paths = job_paths(self.identity.as_str());
                    return Step {
                        report: None,
                        action: Action::Detach {
                            pid_file: paths.pid,
                            directory: job_directory(),
                            output: paths.output,
                            error: paths.error,
                        },
                    };
                }
            },
            Event::SpawnFailed { reason } => {
                if self.phase == Phase::Spawning {
                    self.phase = Phase::Failed;
                    return Step { report: Some(reason), action: Action::Abort };
                }
            },
            Event::Detached { timestamp } => {
                if self.phase == Phase::Detaching {
                    let line = header_line(
                        self.identity.as_str(),
                        timestamp.as_str(),
                        self.command.as_str(),
                    );
                    let action = self.append_action(line.as_str());
                    self.phase = Phase::Appending;
                    self.current = line;
                    self.closing = false;
                    return Step { report: None, action };
                }
            },
            Event::DetachFailed { reason, timestamp } => {
                if self.phase == Phase::Detaching {
                    self.phase = Phase::Failed;
                    let mut report = join("Kraken - Job - Error - ", timestamp.as_str());
                    report.append("\n======\n");
                    report.append(reason.as_str());
                    report.append("\n");
                    return Step { report: Some(report), action: Action::Abort };
                }
            },
            Event::LocalWritten => {
                if self.phase == Phase::Appending {
                    self.phase = Phase::Submitting;
                    return Step {
                        report: None,
                        action: Action::SubmitRemote {
                            job: self.identity.clone(),
                            line: self.current.clone(),
                        },
                    };
                }
            },
            Event::LocalFailed { reason } => {
                if self.phase == Phase::Appending {
                    self.phase = Phase::Submitting;
                    return Step {
                        report: Some(join("Couldn't write to file: ", reason.as_str())),
                        action: Action::SubmitRemote {
                            job: self.identity.clone(),
                            line: self.current.clone(),
                        },
                    };
                }
            },
            Event::RemoteAccepted => {
                if self.phase == Phase::Submitting {
                    return self.relay_answered(None);
                }
            },
            Event::RemoteFailed { reason } => {
                if self.phase == Phase::Submitting {
                    return self.relay_answered(Some(reason));
                }
            },
            Event::Line { text } => {
                if self.phase == Phase::Reading {
                    let action = self.append_action(text.as_str());
                    self.phase = Phase::Appending;
                    self.current = text;
                    self.closing = false;
                    return Step { report: None, action };
                }
            },
            Event::EndOfStream => {
                if self.phase == Phase::Reading {
                    let line = exit_line();
                    let action = self.append_action(line.as_str());
                    self.phase = Phase::Appending;
                    self.current = line;
                    self.closing = true;
                    return Step { report: None, action };
                }
            },
        }
        Step { report: None, action: Action::Ignore }
    }

    /// Reads the clock and takes the outcome of detaching: `None` where the process
    /// is detached, the reason where it is not. The job then starts its log with a
    /// header that bears the time read, or stops with a report that bears it.
    pub fn detach_outcome(&mut self, failure: Option<String>) -> (step: Step)
        ensures
            exists|timestamp: Seq<char>|
                single_line(timestamp) && (final(self)@, step@) == #[trigger] transition(
                    old(self)@,
                    detach_event(optional_text(failure), timestamp),
                ),
    {
        let timestamp = utc_now();
        let ghost before = self@;
        let ghost event = detach_event(optional_text(failure), timestamp@);
        let step = match failure {
            None => self.step(Event::Detached { timestamp }),
            Some(reason) => self.step(Event::DetachFailed { reason, timestamp }),
        };
        assert((self@, step@) == transition(before, event));
        step
    }

    /// The relay has answered for the record on its way.
    fn relay_answered(&mut self, report: Option<String>) -> (step: Step)
        ensures
            (final(self)@, step@) == after_relay(old(self)@, optional_text(report)),
    {
        self.current = String::new();
        if self.closing {
            self.phase = Phase::Completed;
            Step { report, action: Action::Complete }
        } else {
            self.phase = Phase::Reading;
            Step { report, action: Action::ReadLine }
        }
    }
}

} // verus!
