//! From parsed arguments to the command to carry out.
//!
//! The argument parser is the program's business. It hands over what it found as
//! plain values, and this module says which command that is.

use vstd::pervasive::unreached;
use vstd::prelude::*;
use vstd::string::*;
use crate::text::{optional_text, same};

verus! {

/// What the argument parser found on the command line.
#[derive(Debug, PartialEq, Eq)]
pub struct Parsed {
    /// The subcommand, if one was given: `new`, `show`, `remove`, `login`, `logout`.
    pub subcommand: Option<String>,
    /// The subcommand's own subcommand, if one was given: `job`, `jobs`.
    pub target: Option<String>,
    /// The shell command of `new job`.
    pub command: Option<String>,
    /// The job name of `new job`, `show job` and `remove job`.
    pub job_name: Option<String>,
    /// The description of `new job`.
    pub description: Option<String>,
    /// The number of lines of `show job`.
    pub line_limit: Option<String>,
    /// Whether `remove job` was asked to remove all jobs.
    pub all: bool,
    /// The e-mail address of `login`.
    pub email: Option<String>,
    /// The password of `login`.
    pub password: Option<String>,
}

/// A [`Parsed`] as contracts see it.
pub struct ParsedView {
    pub subcommand: Option<Seq<char>>,
    pub target: Option<Seq<char>>,
    pub command: Option<Seq<char>>,
    pub job_name: Option<Seq<char>>,
    pub description: Option<Seq<char>>,
    pub line_limit: Option<Seq<char>>,
    pub all: bool,
    pub email: Option<Seq<char>>,
    pub password: Option<Seq<char>>,
}

impl View for Parsed {
    type V = ParsedView;

    open spec fn view(&self) -> ParsedView {
        ParsedView {
            subcommand: optional_text(self.subcommand),
            target: optional_text(self.target),
            command: optional_text(self.command),
            job_name: optional_text(self.job_name),
            description: optional_text(self.description),
            line_limit: optional_text(self.line_limit),
            all: self.all,
            email: optional_text(self.email),
            password: optional_text(self.password),
        }
    }
}

/// What the user asked for.
#[derive(Debug, PartialEq, Eq)]
pub enum Command {
    /// Start `command` as a detached job, under `name` if one is given.
    NewJob { command: String, name: Option<String>, description: String },
    /// List the user's jobs.
    ShowJobs,
    /// Show the last `line_limit` lines of a job's log.
    ShowJob { job_name: String, line_limit: String },
    /// Remove one job.
    RemoveJob { job_name: String },
    /// Remove all jobs.
    RemoveAllJobs,
    /// Log in.
    Login { email: String, password: String },
    /// Log out.
    Logout,
    /// Nothing that can be carried out: tell the user where help is.
    Help { text: String },
}

/// A [`Command`] as contracts see it.
pub enum CommandView {
    NewJob { command: Seq<char>, name: Option<Seq<char>>, description: Seq<char> },
    ShowJobs,
    ShowJob { job_name: Seq<char>, line_limit: Seq<char> },
    RemoveJob { job_name: Seq<char> },
    RemoveAllJobs,
    Login { email: Seq<char>, password: Seq<char> },
    Logout,
    Help { text: Seq<char> },
}

impl View for Command {
    type V = CommandView;

    open spec fn view(&self) -> CommandView {
        match self {
            Command::NewJob { command, name, description } => CommandView::NewJob {
                command: command@,
                name: optional_text(*name),
                description: description@,
            },
            Command::ShowJobs => CommandView::ShowJobs,
            Command::ShowJob { job_name, line_limit } => CommandView::ShowJob {
                job_name: job_name@,
                line_limit: line_limit@,
            },
            Command::RemoveJob { job_name } => CommandView::RemoveJob { job_name: job_name@ },
            Command::RemoveAllJobs => CommandView::RemoveAllJobs,
            Command::Login { email, password } => CommandView::Login {
                email: email@,
                password: password@,
            },
            Command::Logout => CommandView::Logout,
            Command::Help { text } => CommandView::Help { text: text@ },
        }
    }
}

/// A description that was not given is empty.
pub open spec fn or_empty(text: Option<Seq<char>>) -> Seq<char> {
    match text {
        Some(present) => present,
        None => Seq::empty(),
    }
}

/// The command of `kraken new ...`.
pub open spec fn new_command(parsed: ParsedView) -> Option<CommandView> {
    if parsed.target == Some("job"@) {
        match parsed.command {
            Some(command) => Some(
                CommandView::NewJob {
                    command,
                    name: parsed.job_name,
                    description: or_empty(parsed.description),
                },
            ),
            None => None,
        }
    } else {
        Some(CommandView::Help { text: "Use `kraken new -h` for help"@ })
    }
}

/// The command of `kraken show ...`.
pub open spec fn show_command(parsed: ParsedView) -> Option<CommandView> {
    if parsed.target == Some("jobs"@) {
        Some(CommandView::ShowJobs)
    } else if parsed.target == Some("job"@) {
        match (parsed.job_name, parsed.line_limit) {
            (Some(job_name), Some(line_limit)) => Some(
                CommandView::ShowJob { job_name, line_limit },
            ),
            _ => None,
        }
    } else {
        Some(CommandView::Help { text: "Use `kraken show -h` for help"@ })
    }
}

/// The command of `kraken remove ...`. Where all jobs are to go, a job name is
/// not looked at.
pub open spec fn remove_command(parsed: ParsedView) -> Option<CommandView> {
    if parsed.target == Some("job"@) {
        if parsed.all {
            Some(CommandView::RemoveAllJobs)
        } else {
            match parsed.job_name {
                Some(job_name) => Some(CommandView::RemoveJob { job_name }),
                None => None,
            }
        }
    } else {
        Some(CommandView::Help { text: "Use `kraken remove -h` for help"@ })
    }
}

/// The command of `kraken login ...`.
pub open spec fn login_command(parsed: ParsedView) -> Option<CommandView> {
    match (parsed.email, parsed.password) {
        (Some(email), Some(password)) => Some(CommandView::Login { email, password }),
        _ => None,
    }
}

/// The command that the arguments ask for. There is none where a value that the
/// command cannot do without is missing; such arguments are not dispatched.
pub open spec fn command_of(parsed: ParsedView) -> Option<CommandView> {
    if parsed.subcommand == Some("new"@) {
        new_command(parsed)
    } else if parsed.subcommand == Some("login"@) {
        login_command(parsed)
    } else if parsed.subcommand == Some("logout"@) {
        Some(CommandView::Logout)
    } else if parsed.subcommand == Some("show"@) {
        show_command(parsed)
    } else if parsed.subcommand == Some("remove"@) {
        remove_command(parsed)
    } else {
        Some(CommandView::Help { text: "Use `kraken -h` for help"@ })
    }
}

/// `kraken new job` comes with its command.
pub open spec fn new_is_complete(parsed: ParsedView) -> bool {
    parsed.target == Some("job"@) ==> parsed.command is Some
}

/// `kraken show job` comes with the job's name and the number of lines.
pub open spec fn show_is_complete(parsed: ParsedView) -> bool {
    parsed.target == Some("job"@) ==> parsed.job_name is Some && parsed.line_limit is Some
}

/// `kraken remove job` comes with the job's name unless all jobs are to go.
pub open spec fn remove_is_complete(parsed: ParsedView) -> bool {
    parsed.target == Some("job"@) && !parsed.all ==> parsed.job_name is Some
}

/// `kraken login` comes with the e-mail address and the password.
pub open spec fn login_is_complete(parsed: ParsedView) -> bool {
    parsed.email is Some && parsed.password is Some
}

/// The arguments hold every value that their subcommand cannot do without.
pub open spec fn complete(parsed: ParsedView) -> bool {
    if parsed.subcommand == Some("new"@) {
        new_is_complete(parsed)
    } else if parsed.subcommand == Some("login"@) {
        login_is_complete(parsed)
    } else if parsed.subcommand == Some("logout"@) {
        true
    } else if parsed.subcommand == Some("show"@) {
        show_is_complete(parsed)
    } else if parsed.subcommand == Some("remove"@) {
        remove_is_complete(parsed)
    } else {
        true
    }
}

/// Whether a name that may be missing is `name`.
fn is_named(given: &Option<String>, name: &str) -> (named: bool)
    ensures
        named == (optional_text(*given) == Some(name@)),
{
    match given {
        Some(text) => same(text.as_str(), name),
        None => false,
    }
}

/// The pointer to the help that `text` names.
fn help(text: &str) -> (command: Command)
    ensures
        command@ == (CommandView::Help { text: text@ }),
{
    Command::Help { text: text.to_owned() }
}

impl Parsed {
    /// Whether the arguments hold every value that their subcommand cannot do
    /// without. Only such arguments can be dispatched.
    pub fn is_complete(&self) -> (whole: bool)
        ensures
            whole == complete(self@),
            whole ==> command_of(self@) is Some,
    {
        if is_named(&self.subcommand, "new") {
            !is_named(&self.target, "job") || self.command.is_some()
        } else if is_named(&self.subcommand, "login") {
            self.email.is_some() && self.password.is_some()
        } else if is_named(&self.subcommand, "logout") {
            true
        } else if is_named(&self.subcommand, "show") {
            !is_named(&self.target, "job") || (self.job_name.is_some()
                && self.line_limit.is_some())
        } else if is_named(&self.subcommand, "remove") {
            !is_named(&self.target, "job") || self.all || self.job_name.is_some()
        } else {
            true
        }
    }
}

/// The command of `kraken new ...`.
pub fn new(parsed: Parsed) -> (command: Command)
    requires
        new_is_complete(parsed@),
    ensures
        Some(command@) == new_command(parsed@),
{
    if is_named(&parsed.target, "job") {
        match parsed.command {
            Some(command) => {
                let description = match parsed.description {
                    Some(text) => text,
                    None => String::new(),
                };
                Command::NewJob { command, name: parsed.job_name, description }
            },
            None => unreached(),
        }
    } else {
        help("Use `kraken new -h` for help")
    }
}

/// The command of `kraken show ...`.
pub fn show(parsed: Parsed) -> (command: Command)
    requires
        show_is_complete(parsed@),
    ensures
        Some(command@) == show_command(parsed@),
{
    if is_named(&parsed.target, "jobs") {
        Command::ShowJobs
    } else if is_named(&parsed.target, "job") {
        match (parsed.job_name, parsed.line_limit) {
            (Some(job_name), Some(line_limit)) => Command::ShowJob { job_name, line_limit },
            _ => unreached(),
        }
    } else {
        help("Use `kraken show -h` for help")
    }
}

/// The command of `kraken remove ...`.
pub fn remove(parsed: Parsed) -> (command: Command)
    requires
        remove_is_complete(parsed@),
    ensures
        Some(command@) == remove_command(parsed@),
{
    if is_named(&parsed.target, "job") {
        if parsed.all {
            Command::RemoveAllJobs
        } else {
            match parsed.job_name {
                Some(job_name) => Command::RemoveJob { job_name },
                None => unreached(),
            }
        }
    } else {
        help("Use `kraken remove -h` for help")
    }
}

/// The command of `kraken login ...`.
pub fn login(parsed: Parsed) -> (command: Command)
    requires
        login_is_complete(parsed@),
    ensures
        Some(command@) == login_command(parsed@),
{
    match (parsed.email, parsed.password) {
        (Some(email), Some(password)) => Command::Login { email, password },
        _ => unreached(),
    }
}

/// The command that the arguments ask for, as [`command_of`] says.
pub fn dispatch(parsed: Parsed) -> (command: Command)
    requires
        complete(parsed@),
    ensures
        Some(command@) == command_of(parsed@),
{
    if is_named(&parsed.subcommand, "new") {
        new(parsed)
    } else if is_named(&parsed.subcommand, "login") {
        login(parsed)
    } else if is_named(&parsed.subcommand, "logout") {
        Command::Logout
    } else if is_named(&parsed.subcommand, "show") {
        show(parsed)
    } else if is_named(&parsed.subcommand, "remove") {
        remove(parsed)
    } else {
        help("Use `kraken -h` for help")
    }
}

} // verus!
