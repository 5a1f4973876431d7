//! The calls to the job service: what is sent for each, and what its answer means.
//!
//! Nothing here touches the network. A [`Request`] says what to send; the program
//! sends it and hands back the status and the parsed body.

use vstd::prelude::*;
use vstd::string::*;
use crate::kraken_utils::{ErrorJSON, FetchError, JobJSON, LogJSON, store_token};
use crate::record::terminated;
use crate::text::join;

verus! {

/// The service's address.
pub open spec fn base_url() -> Seq<char> {
    "http://kraken-grantgumina.herokuapp.com"@
}

/// How a request asks.
#[derive(Clone, Copy, Debug, PartialEq, Eq, Structural)]
pub enum Method {
    Get,
    Post,
    Delete,
}

/// A named text: a header of a request, or a member of a JSON object.
#[derive(Debug, PartialEq, Eq)]
pub struct Entry {
    pub name: String,
    pub value: String,
}

impl View for Entry {
    type V = (Seq<char>, Seq<char>);

    open spec fn view(&self) -> (Seq<char>, Seq<char>) {
        (self.name@, self.value@)
    }
}

/// The entries of a list as contracts see them.
pub open spec fn entry_views(entries: Seq<Entry>) -> Seq<(Seq<char>, Seq<char>)> {
    entries.map_values(|entry: Entry| entry@)
}

/// One request to the service.
#[derive(Debug, PartialEq, Eq)]
pub struct Request {
    pub method: Method,
    pub url: String,
    pub headers: Vec<Entry>,
    /// The body; `None` where the request has none.
    pub body: Option<String>,
}

/// A [`Request`] as contracts see it.
pub struct RequestView {
    pub method: Method,
    pub url: Seq<char>,
    pub headers: Seq<(Seq<char>, Seq<char>)>,
    pub body: Option<Seq<char>>,
}

impl View for Request {
    type V = RequestView;

    open spec fn view(&self) -> RequestView {
        RequestView {
            method: self.method,
            url: self.url@,
            headers: entry_views(self.headers@),
            body: crate::text::optional_text(self.body),
        }
    }
}

/// The compact JSON text of an object whose members are `members`, each value a
/// JSON string, as `serde_json` writes it.
pub uninterp spec fn json_object_text(members: Seq<(Seq<char>, Seq<char>)>) -> Seq<char>;

/// Writes a JSON object with `serde_json`: the members are collected into a
/// `serde_json::Map`, each value as a `serde_json::Value::String`, and the object
/// is written by `Value`'s `Display`, which is the compact form. The contract
/// gives that text its name.
#[verifier::external_body]
fn json_object(members: &Vec<Entry>) -> (text: String)
    ensures
        text@ == json_object_text(entry_views(members@)),
{
    let object: serde_json::Map<String, serde_json::Value> = members.iter().map(
        |member| (member.name.clone(), serde_json::Value::String(member.value.clone())),
    ).collect();
    serde_json::Value::Object(object).to_string()
}

/// The header that carries the user's token.
pub open spec fn token_header(token: Seq<char>) -> (Seq<char>, Seq<char>) {
    ("x-access-token"@, token)
}

/// The header that says the body is JSON.
pub open spec fn json_header() -> (Seq<char>, Seq<char>) {
    ("content-type"@, "application/json"@)
}

/// The request that lists the user's jobs.
pub open spec fn fetch_jobs_spec(token: Seq<char>) -> RequestView {
    RequestView {
        method: Method::Get,
        url: base_url() + "/jobs"@,
        headers: seq![token_header(token)],
        body: None,
    }
}

/// The request that reads the last `line_limit` lines of a job's log.
pub open spec fn fetch_logs_spec(
    token: Seq<char>,
    job_id: Seq<char>,
    line_limit: Seq<char>,
) -> RequestView {
    RequestView {
        method: Method::Get,
        url: base_url() + "/jobs/"@ + job_id,
        headers: seq![token_header(token), ("x-line-limit"@, line_limit)],
        body: None,
    }
}

/// The request that logs a user in.
pub open spec fn fetch_token_spec(email: Seq<char>, password: Seq<char>) -> RequestView {
    RequestView {
        method: Method::Post,
        url: base_url() + "/auth/login"@,
        headers: seq![json_header()],
        body: Some(json_object_text(seq![("email"@, email), ("password"@, password)])),
    }
}

/// The request that creates a job record.
pub open spec fn create_job_spec(
    token: Seq<char>,
    machine: Seq<char>,
    name: Seq<char>,
    description: Seq<char>,
) -> RequestView {
    RequestView {
        method: Method::Post,
        url: base_url() + "/jobs/new"@,
        headers: seq![token_header(token), json_header()],
        body: Some(
            json_object_text(
                seq![("machine"@, machine), ("name"@, name), ("description"@, description)],
            ),
        ),
    }
}

/// The request that submits one line of a job's log.
pub open spec fn create_log_spec(token: Seq<char>, job: Seq<char>, line: Seq<char>) -> RequestView {
    RequestView {
        method: Method::Post,
        url: base_url() + "/logs/new"@,
        headers: seq![token_header(token), json_header()],
        body: Some(json_object_text(seq![("jobName"@, job), ("line"@, line)])),
    }
}

/// The request that removes one job.
pub open spec fn drop_job_spec(token: Seq<char>, job: Seq<char>) -> RequestView {
    RequestView {
        method: Method::Delete,
        url: base_url() + "/jobs/"@ + job,
        headers: seq![token_header(token), json_header()],
        body: None,
    }
}

/// The request that removes all jobs of the user.
pub open spec fn drop_all_jobs_spec(token: Seq<char>) -> RequestView {
    RequestView {
        method: Method::Post,
        url: base_url() + "/jobs/remove-all"@,
        headers: seq![token_header(token), json_header()],
        body: None,
    }
}

/// A named text.
fn entry(name: &str, value: &str) -> (made: Entry)
    ensures
        made@ == (name@, value@),
{
    Entry { name: name.to_owned(), value: value.to_owned() }
}

/// A list of one entry.
fn one_entry(first: Entry) -> (entries: Vec<Entry>)
    ensures
        entry_views(entries@) == seq![first@],
{
    let mut entries: Vec<Entry> = Vec::new();
    entries.push(first);
    assert(entry_views(entries@) =~= seq![first@]);
    entries
}

/// A list of two entries.
fn two_entries(first: Entry, second: Entry) -> (entries: Vec<Entry>)
    ensures
        entry_views(entries@) == seq![first@, second@],
{
    let mut entries: Vec<Entry> = Vec::new();
    entries.push(first);
    entries.push(second);
    assert(entry_views(entries@) =~= seq![first@, second@]);
    entries
}

/// A list of three entries.
fn three_entries(first: Entry, second: Entry, third: Entry) -> (entries: Vec<Entry>)
    ensures
        entry_views(entries@) == seq![first@, second@, third@],
{
    let mut entries: Vec<Entry> = Vec::new();
    entries.push(first);
    entries.push(second);
    entries.push(third);
    assert(entry_views(entries@) =~= seq![first@, second@, third@]);
    entries
}

/// The address of `path` at the service.
fn address(path: &str) -> (url: String)
    ensures
        url@ == base_url() + path@,
{
    join("http://kraken-grantgumina.herokuapp.com", path)
}

/// The headers of a request that carries the token and a JSON body.
fn token_and_json(token: &str) -> (headers: Vec<Entry>)
    ensures
        entry_views(headers@) == seq![token_header(token@), json_header()],
{
    two_entries(entry("x-access-token", token), entry("content-type", "application/json"))
}

impl Request {
    /// A request without a body.
    pub fn bare(method: Method, url: String, headers: Vec<Entry>) -> (request: Request)
        ensures
            request@ == (RequestView {
                method,
                url: url@,
                headers: entry_views(headers@),
                body: None,
            }),
    {
        Request { method, url, headers, body: None }
    }

    /// A request that carries `body`.
    pub fn carrying(method: Method, url: String, headers: Vec<Entry>, body: String) -> (request:
        Request)
        ensures
            request@ == (RequestView {
                method,
                url: url@,
                headers: entry_views(headers@),
                body: Some(body@),
            }),
    {
        Request { method, url, headers, body: Some(body) }
    }
}

/// The request that lists the user's jobs.
pub fn fetch_jobs(token: &str) -> (request: Request)
    ensures
        request@ == fetch_jobs_spec(token@),
{
    Request::bare(Method::Get, address("/jobs"), one_entry(entry("x-access-token", token)))
}

/// The request that reads the last `line_limit` lines of the log of `job_id`.
pub fn fetch_logs(token: &str, job_id: &str, line_limit: &str) -> (request: Request)
    ensures
        request@ == fetch_logs_spec(token@, job_id@, line_limit@),
{
    let mut url = address("/jobs/");
    url.append(job_id);
    Request::bare(
        Method::Get,
        url,
        two_entries(entry("x-access-token", token), entry("x-line-limit", line_limit)),
    )
}

/// The request that logs a user in.
pub fn fetch_token(email: &str, password: &str) -> (request: Request)
    ensures
        request@ == fetch_token_spec(email@, password@),
{
    let members = two_entries(entry("email", email), entry("password", password));
    Request::carrying(
        Method::Post,
        address("/auth/login"),
        one_entry(entry("content-type", "application/json")),
        json_object(&members),
    )
}

/// The request that creates the record of the job `name` on `machine`.
pub fn create_job(token: &str, machine: &str, name: &str, description: &str) -> (request: Request)
    ensures
        request@ == create_job_spec(token@, machine@, name@, description@),
{
    let members = three_entries(
        entry("machine", machine),
        entry("name", name),
        entry("description", description),
    );
    Request::carrying(
        Method::Post,
        address("/jobs/new"),
        token_and_json(token),
        json_object(&members),
    )
}

/// The request that submits `line` to the log of `job`.
pub fn create_log(token: &str, job: &str, line: &str) -> (request: Request)
    ensures
        request@ == create_log_spec(token@, job@, line@),
{
    let members = two_entries(entry("jobName", job), entry("line", line));
    Request::carrying(
        Method::Post,
        address("/logs/new"),
        token_and_json(token),
        json_object(&members),
    )
}

/// The request that removes `job`.
pub fn drop_job(token: &str, job: &str) -> (request: Request)
    ensures
        request@ == drop_job_spec(token@, job@),
{
    let mut url = address("/jobs/");
    url.append(job);
    Request::bare(Method::Delete, url, token_and_json(token))
}

/// The request that removes all jobs of the user.
pub fn drop_all_jobs(token: &str) -> (request: Request)
    ensures
        request@ == drop_all_jobs_spec(token@),
{
    Request::bare(Method::Post, address("/jobs/remove-all"), token_and_json(token))
}

/// What the user is told when the credential file cannot be read.
pub open spec fn login_hint(error: Seq<char>) -> Seq<char> {
    "Run `kraken login` to authenticate this machine. Token will be stored in ~/.krakenrc.\n"@
        + error
}

/// A call that needs the user's token: with a token it is `request`, and without
/// one it is the hint to log in, followed by the reason the token is missing.
pub open spec fn authorized_call(
    token: Result<String, String>,
    request: spec_fn(Seq<char>) -> RequestView,
    call: Result<Request, String>,
) -> bool {
    match token {
        Ok(text) => call matches Ok(made) && made@ == request(text@),
        Err(error) => call matches Err(hint) && hint@ == login_hint(error@),
    }
}

/// The hint to log in.
fn hint(error: &str) -> (message: String)
    ensures
        message@ == login_hint(error@),
{
    join(
        "Run `kraken login` to authenticate this machine. Token will be stored in ~/.krakenrc.\n",
        error,
    )
}

/// Logging in: the request that asks for a token.
pub fn login(email: String, password: String) -> (request: Request)
    ensures
        request@ == fetch_token_spec(email@, password@),
{
    fetch_token(email.as_str(), password.as_str())
}

/// Logging out: the text that replaces the credential file's, with the word
/// `empty` where the token was.
pub fn logout() -> (contents: String)
    ensures
        contents@ == terminated("empty"@),
{
    store_token("empty")
}

/// Listing the jobs: the request, or the hint to log in.
pub fn show_jobs(token: Result<String, String>) -> (call: Result<Request, String>)
    ensures
        authorized_call(token, |text: Seq<char>| fetch_jobs_spec(text), call),
{
    match token {
        Ok(text) => Ok(fetch_jobs(text.as_str())),
        Err(error) => Err(hint(error.as_str())),
    }
}

/// Showing a job's log: the request, or the hint to log in.
pub fn show_job(token: Result<String, String>, job_id: &str, line_limit: &str) -> (call: Result<
    Request,
    String,
>)
    ensures
        authorized_call(
            token,
            |text: Seq<char>| fetch_logs_spec(text, job_id@, line_limit@),
            call,
        ),
{
    match token {
        Ok(text) => Ok(fetch_logs(text.as_str(), job_id, line_limit)),
        Err(error) => Err(hint(error.as_str())),
    }
}

/// Creating a job record: the request, or the hint to log in.
pub fn new_job(
    token: Result<String, String>,
    machine_name: &str,
    job_name: &str,
    description: &str,
) -> (call: Result<Request, String>)
    ensures
        authorized_call(
            token,
            |text: Seq<char>| create_job_spec(text, machine_name@, job_name@, description@),
            call,
        ),
{
    match token {
        Ok(text) => Ok(create_job(text.as_str(), machine_name, job_name, description)),
        Err(error) => Err(hint(error.as_str())),
    }
}

/// Submitting a log line: the request, or the hint to log in.
pub fn new_log(token: Result<String, String>, job_id: &str, line: &str) -> (call: Result<
    Request,
    String,
>)
    ensures
        authorized_call(token, |text: Seq<char>| create_log_spec(text, job_id@, line@), call),
{
    match token {
        Ok(text) => Ok(create_log(text.as_str(), job_id, line)),
        Err(error) => Err(hint(error.as_str())),
    }
}

/// Removing a job: the request, or the hint to log in.
pub fn remove_job(token: Result<String, String>, job_name: &str) -> (call: Result<Request, String>)
    ensures
        authorized_call(token, |text: Seq<char>| drop_job_spec(text, job_name@), call),
{
    match token {
        Ok(text) => Ok(drop_job(text.as_str(), job_name)),
        Err(error) => Err(hint(error.as_str())),
    }
}

/// Removing all jobs: the request, or the hint to log in.
pub fn remove_all_jobs(token: Result<String, String>) -> (call: Result<Request, String>)
    ensures
        authorized_call(token, |text: Seq<char>| drop_all_jobs_spec(text), call),
{
    match token {
        Ok(text) => Ok(drop_all_jobs(text.as_str())),
        Err(error) => Err(hint(error.as_str())),
    }
}

/// The status with which the service reports an error of its own.
pub open spec fn server_error_status() -> u16 {
    500
}

/// Whether an answer with this status carries the service's error report in
/// place of what was asked for.
pub fn is_server_error(status: u16) -> (reported: bool)
    ensures
        reported == (status == server_error_status()),
{
    status == 500
}

/// The outcome of a call whose answer was the service's error report: the report
/// where it could be read, else the parser's complaint.
pub fn failed(report: Result<ErrorJSON, String>) -> (error: FetchError)
    ensures
        match report {
            Ok(read) => error == FetchError::KrakenServerError(read),
            Err(complaint) => error == FetchError::Json(complaint),
        },
{
    match report {
        Ok(read) => FetchError::KrakenServerError(read),
        Err(complaint) => FetchError::Json(complaint),
    }
}

/// The outcome of a call whose answer was what was asked for: the answer where it
/// could be read, else the parser's complaint.
pub fn succeeded<T>(answer: Result<T, String>) -> (outcome: Result<T, FetchError>)
    ensures
        match answer {
            Ok(read) => outcome == Ok::<T, FetchError>(read),
            Err(complaint) => outcome == Err::<T, FetchError>(FetchError::Json(complaint)),
        },
{
    match answer {
        Ok(read) => Ok(read),
        Err(complaint) => Err(FetchError::Json(complaint)),
    }
}

/// One row of the table of jobs.
#[derive(Debug, PartialEq, Eq)]
pub struct JobRow {
    pub name: String,
    pub description: String,
    pub status: String,
}

impl View for JobRow {
    type V = (Seq<char>, Seq<char>, Seq<char>);

    open spec fn view(&self) -> (Seq<char>, Seq<char>, Seq<char>) {
        (self.name@, self.description@, self.status@)
    }
}

/// A text that may be missing, shown as empty where it is.
pub open spec fn shown(text: Option<String>) -> Seq<char> {
    match text {
        Some(present) => present@,
        None => Seq::empty(),
    }
}

/// The row that shows `job`.
pub open spec fn row_of(job: JobJSON) -> (Seq<char>, Seq<char>, Seq<char>) {
    (job.name@, shown(job.description), shown(job.status))
}

/// The titles above the table of jobs.
pub fn table_header() -> (row: JobRow)
    ensures
        row@ == ("Job Name"@, "Description"@, "Status"@),
{
    JobRow {
        name: "Job Name".to_owned(),
        description: "Description".to_owned(),
        status: "Status".to_owned(),
    }
}

/// A text that may be missing, as it is shown.
fn show(text: &Option<String>) -> (cell: String)
    ensures
        cell@ == shown(*text),
{
    match text {
        Some(present) => present.clone(),
        None => String::new(),
    }
}

/// The rows of the table of jobs: one for each job, in the service's order, with
/// an empty cell where the job has no description or no status.
pub fn job_table(jobs: &Vec<JobJSON>) -> (rows: Vec<JobRow>)
    ensures
        rows@.len() == jobs@.len(),
        forall|i: int| 0 <= i < jobs@.len() ==> (#[trigger] rows@[i])@ == row_of(jobs@[i]),
{
    let mut rows: Vec<JobRow> = Vec::new();
    let mut index: usize = 0;
    while index < jobs.len()
        invariant
            index <= jobs@.len(),
            rows@.len() == index,
            forall|i: int| 0 <= i < index ==> (#[trigger] rows@[i])@ == row_of(jobs@[i]),
        decreases jobs@.len() - index,
    {
        let job = &jobs[index];
        rows.push(
            JobRow {
                name: job.name.clone(),
                description: show(&job.description),
                status: show(&job.status),
            },
        );
        index += 1;
    }
    rows
}

/// The lines of a job's log as they are printed: one for each record, in the
/// service's order.
pub fn log_lines(logs: &Vec<LogJSON>) -> (lines: Vec<String>)
    ensures
        lines@.len() == logs@.len(),
        forall|i: int| 0 <= i < logs@.len() ==> (#[trigger] lines@[i])@ == logs@[i].line@,
{
    let mut lines: Vec<String> = Vec::new();
    let mut index: usize = 0;
    while index < logs.len()
        invariant
            index <= logs@.len(),
            lines@.len() == index,
            forall|i: int| 0 <= i < index ==> (#[trigger] lines@[i])@ == logs@[i].line@,
        decreases logs@.len() - index,
    {
        lines.push(logs[index].line.clone());
        index += 1;
    }
    lines
}

} // verus!
