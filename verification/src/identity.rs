//! Job identities and the local paths derived from them.
//!
//! An identity is either the name the user asked for or the machine's host name
//! joined to a random readable token. It names the job's local files and tags
//! every record sent to the relay.

use vstd::prelude::*;
use vstd::string::*;
use crate::text::{join, optional_text};

verus! {

/// The generated identity of a job on `host`.
pub open spec fn default_name(host: Seq<char>, token: Seq<char>) -> Seq<char> {
    host + "-"@ + token
}

/// The identity of a job: the requested name where there is one, else the
/// generated one.
pub open spec fn chosen_name(
    host: Seq<char>,
    token: Seq<char>,
    requested: Option<Seq<char>>,
) -> Seq<char> {
    match requested {
        Some(name) => name,
        None => default_name(host, token),
    }
}

/// The stem shared by the local files of one job.
pub open spec fn path_stem(identity: Seq<char>) -> Seq<char> {
    "/tmp/kraken-job-"@ + identity
}

/// The file that receives the job's log.
pub open spec fn output_path(identity: Seq<char>) -> Seq<char> {
    path_stem(identity) + ".out"@
}

/// The file set aside for the job's error stream.
pub open spec fn error_path(identity: Seq<char>) -> Seq<char> {
    path_stem(identity) + ".err"@
}

/// The file that records the detached process's id.
pub open spec fn pid_path(identity: Seq<char>) -> Seq<char> {
    path_stem(identity) + ".pid"@
}

/// The directory in which the detached process runs.
pub open spec fn working_directory() -> Seq<char> {
    "/tmp"@
}

/// What the user is told before the job starts.
pub open spec fn announcement_text(identity: Seq<char>) -> Seq<char> {
    "Local output/error files below:\n"@ + output_path(identity) + "\n"@ + error_path(identity)
}

/// The characters a random token is made of: lower-case letters, digits and the
/// hyphen that joins its parts.
pub open spec fn token_text(token: Seq<char>) -> bool {
    forall|i: int|
        0 <= i < token.len() ==> {
            let c = #[trigger] token[i];
            ('a' <= c && c <= 'z') || ('0' <= c && c <= '9') || c == '-'
        }
}

/// The machine a job runs on and the name it runs under.
#[derive(Debug, PartialEq, Eq)]
pub struct Identity {
    pub machine: String,
    pub name: String,
}

/// The three local paths of a job.
#[derive(Debug, PartialEq, Eq)]
pub struct JobPaths {
    pub output: String,
    pub error: String,
    pub pid: String,
}

/// The host name of this machine, as `hostname::get_hostname` reports it. Nothing
/// is claimed of the result: it is whatever the operating system answers, and
/// `None` where it does not.
#[verifier::external_body]
fn host_name() -> (name: Option<String>) {
    hostname::get_hostname()
}

/// A random readable token from `haikunator::Haikunator::haikunate` with the
/// crate's default settings: an adjective, a noun and four digits from its word
/// lists, joined by hyphens. The contract claims only the alphabet of the result.
#[verifier::external_body]
fn random_token() -> (token: String)
    ensures
        token_text(token@),
{
    haikunator::Haikunator::default().haikunate()
}

/// The name a job runs under.
pub fn job_name(host: &str, token: &str, requested: Option<String>) -> (name: String)
    ensures
        name@ == chosen_name(host@, token@, optional_text(requested)),
{
    match requested {
        Some(text) => text,
        None => {
            let mut name = join(host, "-");
            name.append(token);
            name
        },
    }
}

/// The identity of a job from what the machine answered: there is none without a
/// host name, and otherwise the machine is the host and the name is the chosen one.
pub fn identity_from(host: Option<String>, token: &str, requested: Option<String>) -> (identity:
    Option<Identity>)
    ensures
        host is None <==> identity is None,
        identity matches Some(id) ==> {
            &&& id.machine@ == host->0@
            &&& id.name@ == chosen_name(host->0@, token@, optional_text(requested))
        },
{
    match host {
        Some(machine) => {
            let name = job_name(machine.as_str(), token, requested);
            Some(Identity { machine, name })
        },
        None => None,
    }
}

/// Asks the machine for its host name and draws a random token, then settles the
/// job's identity. A requested name is kept as it is; a generated one is the host
/// name, a hyphen and a token. There is no identity where the host name cannot be
/// read.
pub fn fresh_identity(requested: Option<String>) -> (identity: Option<Identity>)
    ensures
        identity matches Some(id) ==> match requested {
            Some(text) => id.name@ == text@,
            None => exists|token: Seq<char>|
                token_text(token) && id.name@ == #[trigger] default_name(id.machine@, token),
        },
{
    let host = host_name();
    let token = random_token();
    identity_from(host, token.as_str(), requested)
}

/// The local paths of the job named `identity`.
pub fn job_paths(identity: &str) -> (paths: JobPaths)
    ensures
        paths.output@ == output_path(identity@),
        paths.error@ == error_path(identity@),
        paths.pid@ == pid_path(identity@),
{
    let stem = join("/tmp/kraken-job-", identity);
    JobPaths {
        output: join(stem.as_str(), ".out"),
        error: join(stem.as_str(), ".err"),
        pid: join(stem.as_str(), ".pid"),
    }
}

/// The directory in which every detached job runs.
pub fn job_directory() -> (directory: String)
    ensures
        directory@ == working_directory(),
{
    "/tmp".to_owned()
}

/// The two lines that tell the user where the job's local files are.
pub fn announcement(identity: &str) -> (text: String)
    ensures
        text@ == announcement_text(identity@),
{
    let paths = job_paths(identity);
    let mut text = join("Local output/error files below:\n", paths.output.as_str());
    text.append("\n");
    text.append(paths.error.as_str());
    text
}

/// Jobs with different identities never share a local file.
pub proof fn lemma_paths_are_injective(first: Seq<char>, second: Seq<char>)
    ensures
        output_path(first) == output_path(second) ==> first == second,
        error_path(first) == error_path(second) ==> first == second,
        pid_path(first) == pid_path(second) ==> first == second,
{
    let stem = "/tmp/kraken-job-"@;
    if output_path(first) == output_path(second) {
        lemma_middle_is_determined(stem, first, second, ".out"@);
    }
    if error_path(first) == error_path(second) {
        lemma_middle_is_determined(stem, first, second, ".err"@);
    }
    if pid_path(first) == pid_path(second) {
        lemma_middle_is_determined(stem, first, second, ".pid"@);
    }
}

/// On one machine, generated names collide only where the random tokens do.
pub proof fn lemma_generated_names_are_injective(
    host: Seq<char>,
    first: Seq<char>,
    second: Seq<char>,
)
    ensures
        default_name(host, first) == default_name(host, second) ==> first == second,
{
    let prefix = host + "-"@;
    let nothing = Seq::<char>::empty();
    if default_name(host, first) == default_name(host, second) {
        assert(prefix + first + nothing =~= default_name(host, first));
        assert(prefix + second + nothing =~= default_name(host, second));
        lemma_middle_is_determined(prefix, first, second, nothing);
    }
}

/// Two texts between the same prefix and suffix are equal when the wholes are.
proof fn lemma_middle_is_determined(
    prefix: Seq<char>,
    first: Seq<char>,
    second: Seq<char>,
    suffix: Seq<char>,
)
    requires
        prefix + first + suffix == prefix + second + suffix,
    ensures
        first == second,
{
    let left = prefix + first + suffix;
    let right = prefix + second + suffix;
    assert(left.len() == right.len());
    assert(first.len() == second.len());
    assert forall|i: int| 0 <= i < first.len() implies first[i] == second[i] by {
        assert(left[prefix.len() + i] == first[i]);
        assert(right[prefix.len() + i] == second[i]);
    }
    assert(first =~= second);
}

} // verus!
