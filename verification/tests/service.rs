use kraken::kraken_utils::{
    retrieve_token, store_token, ErrorJSON, FetchError, JobJSON, LogJSON, TokenJSON,
};
use kraken::krephis::{
    create_job, create_log, drop_all_jobs, drop_job, failed, fetch_jobs, fetch_logs, fetch_token,
    is_server_error, job_table, log_lines, login, logout, new_job, new_log, remove_all_jobs,
    remove_job, show_job, show_jobs, succeeded, table_header, Entry, JobRow, Method, Request,
};

const BASE: &str = "http://kraken-grantgumina.herokuapp.com";
const HINT: &str =
    "Run `kraken login` to authenticate this machine. Token will be stored in ~/.krakenrc.\n";

fn entry(name: &str, value: &str) -> Entry {
    Entry { name: name.to_string(), value: value.to_string() }
}

fn token_and_json(token: &str) -> Vec<Entry> {
    vec![entry("x-access-token", token), entry("content-type", "application/json")]
}

#[test]
fn stored_token_ends_with_a_line_feed() {
    assert_eq!(store_token("abc.def"), "abc.def\n");
    assert_eq!(store_token(""), "\n");
}

#[test]
fn retrieved_token_loses_its_last_character() {
    assert_eq!(retrieve_token(Ok("abc.def\n".to_string())), Ok("abc.def".to_string()));
    assert_eq!(retrieve_token(Ok("abc".to_string())), Ok("ab".to_string()));
    assert_eq!(retrieve_token(Ok("é\n".to_string())), Ok("é".to_string()));
    assert_eq!(retrieve_token(Ok("ab\u{e9}".to_string())), Ok("ab".to_string()));
    assert_eq!(retrieve_token(Ok(String::new())), Ok(String::new()));
}

#[test]
fn unreadable_credential_file_keeps_its_error() {
    assert_eq!(
        retrieve_token(Err("No such file or directory (os error 2)".to_string())),
        Err("No such file or directory (os error 2)".to_string())
    );
}

#[test]
fn stored_token_is_retrieved_unchanged() {
    for token in ["", "t", "eyJhbGciOi.J9-_", "two\nlines", "ünï"] {
        assert_eq!(retrieve_token(Ok(store_token(token))), Ok(token.to_string()));
    }
}

#[test]
fn fetch_errors_are_described_by_kind() {
    assert_eq!(FetchError::Http("timed out".to_string()).describe(), "http error: timed out");
    assert_eq!(
        FetchError::Json("expected value at line 1 column 1".to_string()).describe(),
        "json parsing error: expected value at line 1 column 1"
    );
    assert_eq!(
        FetchError::KrakenServerError(ErrorJSON {
            auth: Some(false),
            message: "Failed to authenticate token.".to_string(),
        })
        .describe(),
        "Server error: Failed to authenticate token."
    );
    assert_eq!(FetchError::Other("odd".to_string()).describe(), "Error: odd");
}

#[test]
fn jobs_are_listed_with_the_token_in_a_header() {
    assert_eq!(
        fetch_jobs("tok"),
        Request {
            method: Method::Get,
            url: format!("{}/jobs", BASE),
            headers: vec![entry("x-access-token", "tok")],
            body: None,
        }
    );
}

#[test]
fn logs_are_fetched_by_job_with_a_line_limit() {
    assert_eq!(
        fetch_logs("tok", "nightly", "10"),
        Request {
            method: Method::Get,
            url: format!("{}/jobs/nightly", BASE),
            headers: vec![entry("x-access-token", "tok"), entry("x-line-limit", "10")],
            body: None,
        }
    );
}

#[test]
fn token_is_asked_for_with_a_json_body() {
    assert_eq!(
        fetch_token("a@b.c", "pass \"word\""),
        Request {
            method: Method::Post,
            url: format!("{}/auth/login", BASE),
            headers: vec![entry("content-type", "application/json")],
            body: Some("{\"email\":\"a@b.c\",\"password\":\"pass \\\"word\\\"\"}".to_string()),
        }
    );
}

#[test]
fn job_record_request_names_machine_job_and_description() {
    let request = create_job("tok", "box", "nightly", "the nightly build");
    assert_eq!(request.method, Method::Post);
    assert_eq!(request.url, format!("{}/jobs/new", BASE));
    assert_eq!(request.headers, token_and_json("tok"));
    let body: serde_json::Value = serde_json::from_str(request.body.as_deref().unwrap()).unwrap();
    let object = body.as_object().unwrap();
    assert_eq!(object.len(), 3);
    assert_eq!(object["machine"], "box");
    assert_eq!(object["name"], "nightly");
    assert_eq!(object["description"], "the nightly build");
    assert_eq!(
        request.body.unwrap(),
        "{\"description\":\"the nightly build\",\"machine\":\"box\",\"name\":\"nightly\"}"
    );
}

#[test]
fn log_line_request_carries_job_and_line() {
    assert_eq!(
        create_log("tok", "nightly", "hello\tworld"),
        Request {
            method: Method::Post,
            url: format!("{}/logs/new", BASE),
            headers: token_and_json("tok"),
            body: Some("{\"jobName\":\"nightly\",\"line\":\"hello\\tworld\"}".to_string()),
        }
    );
}

#[test]
fn job_record_and_log_lines_share_the_identity() {
    let identity = "box-icy-moon-0042";
    let record = create_job("tok", "box", identity, "");
    let line = create_log("tok", identity, "out");
    let record_body: serde_json::Value =
        serde_json::from_str(record.body.as_deref().unwrap()).unwrap();
    let line_body: serde_json::Value =
        serde_json::from_str(line.body.as_deref().unwrap()).unwrap();
    assert_eq!(record_body["name"], line_body["jobName"]);
    assert_eq!(line_body["jobName"], identity);
}

#[test]
fn one_job_is_removed_by_name() {
    assert_eq!(
        drop_job("tok", "nightly"),
        Request {
            method: Method::Delete,
            url: format!("{}/jobs/nightly", BASE),
            headers: token_and_json("tok"),
            body: None,
        }
    );
}

#[test]
fn all_jobs_are_removed_by_one_request() {
    assert_eq!(
        drop_all_jobs("tok"),
        Request {
            method: Method::Post,
            url: format!("{}/jobs/remove-all", BASE),
            headers: token_and_json("tok"),
            body: None,
        }
    );
}

#[test]
fn login_asks_for_a_token() {
    assert_eq!(login("a@b.c".to_string(), "pw".to_string()), fetch_token("a@b.c", "pw"));
}

#[test]
fn logout_overwrites_the_token() {
    assert_eq!(logout(), "empty\n");
    assert_eq!(retrieve_token(Ok(logout())), Ok("empty".to_string()));
}

#[test]
fn calls_with_a_token_make_their_requests() {
    let token = || Ok("tok".to_string());
    assert_eq!(show_jobs(token()), Ok(fetch_jobs("tok")));
    assert_eq!(show_job(token(), "j", "25"), Ok(fetch_logs("tok", "j", "25")));
    assert_eq!(new_job(token(), "box", "j", "d"), Ok(create_job("tok", "box", "j", "d")));
    assert_eq!(new_log(token(), "j", "a line"), Ok(create_log("tok", "j", "a line")));
    assert_eq!(remove_job(token(), "j"), Ok(drop_job("tok", "j")));
    assert_eq!(remove_all_jobs(token()), Ok(drop_all_jobs("tok")));
}

#[test]
fn calls_without_a_token_hint_at_login() {
    let missing = || Err("No such file or directory (os error 2)".to_string());
    let expected = Err(format!("{}No such file or directory (os error 2)", HINT));
    assert_eq!(show_jobs(missing()), expected);
    assert_eq!(show_job(missing(), "j", "25"), expected);
    assert_eq!(new_job(missing(), "box", "j", "d"), expected);
    assert_eq!(new_log(missing(), "j", "a line"), expected);
    assert_eq!(remove_job(missing(), "j"), expected);
    assert_eq!(remove_all_jobs(missing()), expected);
}

#[test]
fn only_status_500_is_a_server_error() {
    assert!(is_server_error(500));
    for status in [0, 200, 201, 204, 301, 400, 401, 404, 499, 501, 503, u16::MAX] {
        assert!(!is_server_error(status));
    }
}

#[test]
fn a_read_error_report_is_a_server_error() {
    let report = ErrorJSON { auth: None, message: "boom".to_string() };
    assert_eq!(
        failed(Ok(ErrorJSON { auth: None, message: "boom".to_string() })),
        FetchError::KrakenServerError(report)
    );
    assert_eq!(failed(Err("EOF".to_string())), FetchError::Json("EOF".to_string()));
}

#[test]
fn a_read_answer_is_the_outcome() {
    let answer = TokenJSON { auth: true, token: "tok".to_string() };
    assert_eq!(
        succeeded(Ok(TokenJSON { auth: true, token: "tok".to_string() })),
        Ok(answer)
    );
    assert_eq!(
        succeeded::<TokenJSON>(Err("EOF".to_string())),
        Err(FetchError::Json("EOF".to_string()))
    );
}

#[test]
fn table_has_its_titles() {
    assert_eq!(
        table_header(),
        JobRow {
            name: "Job Name".to_string(),
            description: "Description".to_string(),
            status: "Status".to_string(),
        }
    );
}

#[test]
fn table_shows_missing_cells_as_empty() {
    let jobs = vec![
        JobJSON {
            _id: "1".to_string(),
            machine: "box".to_string(),
            name: "full".to_string(),
            description: Some("all there".to_string()),
            status: Some("running".to_string()),
        },
        JobJSON {
            _id: "2".to_string(),
            machine: "box".to_string(),
            name: "bare".to_string(),
            description: None,
            status: None,
        },
        JobJSON {
            _id: "3".to_string(),
            machine: "box".to_string(),
            name: "blank".to_string(),
            description: Some(String::new()),
            status: Some("done".to_string()),
        },
    ];
    let row = |name: &str, description: &str, status: &str| JobRow {
        name: name.to_string(),
        description: description.to_string(),
        status: status.to_string(),
    };
    assert_eq!(
        job_table(&jobs),
        vec![row("full", "all there", "running"), row("bare", "", ""), row("blank", "", "done")]
    );
    assert_eq!(job_table(&Vec::new()), Vec::<JobRow>::new());
}

#[test]
fn log_lines_come_in_the_service_order() {
    let logs = vec![
        LogJSON { job_id: "j".to_string(), line: "b".to_string() },
        LogJSON { job_id: "j".to_string(), line: "a".to_string() },
        LogJSON { job_id: "j".to_string(), line: "b".to_string() },
    ];
    assert_eq!(log_lines(&logs), vec!["b".to_string(), "a".to_string(), "b".to_string()]);
    assert_eq!(log_lines(&Vec::new()), Vec::<String>::new());
}

#[test]
fn requests_are_built_with_and_without_a_body() {
    let headers = || vec![entry("a", "1"), entry("b", "2")];
    assert_eq!(
        Request::bare(Method::Delete, "http://h/p".to_string(), headers()),
        Request {
            method: Method::Delete,
            url: "http://h/p".to_string(),
            headers: headers(),
            body: None,
        }
    );
    assert_eq!(
        Request::carrying(Method::Post, "http://h/p".to_string(), Vec::new(), "{}".to_string()),
        Request {
            method: Method::Post,
            url: "http://h/p".to_string(),
            headers: Vec::new(),
            body: Some("{}".to_string()),
        }
    );
}
