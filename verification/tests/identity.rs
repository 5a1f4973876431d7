use kraken::identity::{
    announcement, fresh_identity, identity_from, job_directory, job_name, job_paths, Identity,
    JobPaths,
};
use kraken::record::{exit_line, header_line, terminate};
use kraken::text::{join, same};

#[test]
fn generated_name_joins_host_and_token() {
    assert_eq!(job_name("box", "icy-moon-0042", None), "box-icy-moon-0042");
    assert_eq!(job_name("", "t", None), "-t");
}

#[test]
fn requested_name_is_kept_as_it_is() {
    assert_eq!(job_name("box", "icy-moon-0042", Some("nightly".to_string())), "nightly");
    assert_eq!(job_name("box", "icy-moon-0042", Some(String::new())), "");
}

#[test]
fn identity_needs_a_host_name() {
    assert_eq!(identity_from(None, "icy-moon-0042", None), None);
    assert_eq!(identity_from(None, "icy-moon-0042", Some("nightly".to_string())), None);
}

#[test]
fn identity_holds_machine_and_name() {
    assert_eq!(
        identity_from(Some("box".to_string()), "icy-moon-0042", None),
        Some(Identity { machine: "box".to_string(), name: "box-icy-moon-0042".to_string() })
    );
    assert_eq!(
        identity_from(Some("box".to_string()), "icy-moon-0042", Some("nightly".to_string())),
        Some(Identity { machine: "box".to_string(), name: "nightly".to_string() })
    );
}

#[test]
fn fresh_identity_is_host_hyphen_token() {
    let identity = fresh_identity(None).unwrap();
    assert!(!identity.machine.is_empty());
    let prefix = format!("{}-", identity.machine);
    assert!(identity.name.starts_with(&prefix));
    let token = &identity.name[prefix.len()..];
    let parts: Vec<&str> = token.split('-').collect();
    assert_eq!(parts.len(), 3);
    assert!(parts[0].chars().all(|c| c.is_ascii_lowercase()));
    assert!(parts[1].chars().all(|c| c.is_ascii_lowercase()));
    assert_eq!(parts[2].len(), 4);
    assert!(parts[2].chars().all(|c| c.is_ascii_digit()));
}

#[test]
fn fresh_identity_keeps_a_requested_name() {
    let identity = fresh_identity(Some("nightly".to_string())).unwrap();
    assert_eq!(identity.name, "nightly");
    assert_eq!(identity.machine, fresh_identity(None).unwrap().machine);
}

#[test]
fn paths_are_derived_from_the_identity() {
    assert_eq!(
        job_paths("box-icy-moon-0042"),
        JobPaths {
            output: "/tmp/kraken-job-box-icy-moon-0042.out".to_string(),
            error: "/tmp/kraken-job-box-icy-moon-0042.err".to_string(),
            pid: "/tmp/kraken-job-box-icy-moon-0042.pid".to_string(),
        }
    );
}

#[test]
fn same_name_gives_the_same_files_and_another_name_other_files() {
    assert_eq!(job_paths("nightly"), job_paths("nightly"));
    let first = job_paths("nightly");
    let second = job_paths("nightly2");
    assert_ne!(first.output, second.output);
    assert_ne!(first.error, second.error);
    assert_ne!(first.pid, second.pid);
}

#[test]
fn jobs_run_in_the_temporary_directory() {
    assert_eq!(job_directory(), "/tmp");
}

#[test]
fn announcement_names_output_and_error_files() {
    assert_eq!(
        announcement("nightly"),
        "Local output/error files below:\n/tmp/kraken-job-nightly.out\n/tmp/kraken-job-nightly.err"
    );
}

#[test]
fn header_holds_identity_time_and_command() {
    assert_eq!(
        header_line("nightly", "2018-11-03 09:15:00 UTC", "make -j4 all"),
        "Kraken - Job - nightly - 2018-11-03 09:15:00 UTC - $> make -j4 all"
    );
    assert_eq!(header_line("", "", ""), "Kraken - Job -  -  - $> ");
}

#[test]
fn marker_is_the_word_exit() {
    assert_eq!(exit_line(), "exit");
}

#[test]
fn a_record_ends_with_one_line_feed() {
    assert_eq!(terminate("hello"), "hello\n");
    assert_eq!(terminate(""), "\n");
    assert_eq!(terminate(&exit_line()), "exit\n");
}

#[test]
fn records_are_read_back_as_lines() {
    let records = ["Kraken - Job - j - t - $> c", "", "two words", "exit"];
    let mut file = String::new();
    for record in records {
        file.push_str(&terminate(record));
    }
    let lines: Vec<&str> = file.lines().collect();
    assert_eq!(lines, records);
}

#[test]
fn texts_are_joined_and_told_apart() {
    assert_eq!(join("ab", "cd"), "abcd");
    assert_eq!(join("", ""), "");
    assert!(same("job", "job"));
    assert!(same("", ""));
    assert!(!same("job", "jobs"));
    assert!(!same("job", "Job"));
}
