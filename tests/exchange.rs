use piston_rs::{
    body_kind, rejected_response, BodyKind, Client, ExecError, ExecResult, Executor, File,
    RawExecResponse, Reply,
};

fn rust_executor() -> Executor {
    Executor::new()
        .set_language("rust")
        .set_version("1.50.0")
        .add_file(File::default().set_content("fn main() { println!(\"42\"); }"))
}

fn decoded_reply() -> Reply {
    // {"language":"rust","version":"1.50.0","run":{"stdout":"42\n","stderr":"","output":"42\n","code":0,"signal":null}}
    Reply::Decoded {
        status: 200,
        raw: RawExecResponse {
            language: "rust".to_string(),
            version: "1.50.0".to_string(),
            run: ExecResult {
                stdout: "42\n".to_string(),
                stderr: String::new(),
                output: "42\n".to_string(),
                code: 0,
                signal: None,
            },
            compile: None,
        },
    }
}

#[test]
fn success_reply_is_passed_through() {
    let executor = rust_executor();
    let response = Client::settle_execute(&executor, decoded_reply()).unwrap();
    assert_eq!(response.status, 200);
    assert!(response.compile.is_none());
    assert_eq!(response.run.code, 0);
    assert_eq!(response.run.stdout, "42\n");
    assert_eq!(response.language, "rust");
    assert_eq!(response.version, "1.50.0");
}

#[test]
fn rejected_reply_becomes_a_response() {
    let executor = rust_executor();
    let reply = Reply::Text { status: 400, body: "bad request".to_string() };
    let response = Client::settle_execute(&executor, reply).unwrap();
    assert_eq!(response.status, 400);
    assert_eq!(response.run.code, 1);
    assert_eq!(response.run.stderr, "400 Bad Request: bad request");
    assert_eq!(response.run.output, "400 Bad Request: bad request");
    assert_eq!(response.run.stdout, "");
    assert!(response.run.signal.is_none());
    assert!(response.compile.is_none());
    assert_eq!(response.language, "rust");
    assert_eq!(response.version, "1.50.0");
}

#[test]
fn rejected_reply_echoes_request_not_reply() {
    let executor = Executor::new().set_language("python").set_version("3.10.0");
    let reply = Reply::Text { status: 404, body: "{\"language\":\"rust\"}".to_string() };
    let response = Client::settle_execute(&executor, reply).unwrap();
    assert_eq!(response.language, "python");
    assert_eq!(response.version, "3.10.0");
    assert_eq!(response.run.stderr, "404 Not Found: {\"language\":\"rust\"}");
}

#[test]
fn server_error_uses_its_reason_phrase() {
    let executor = rust_executor();
    let reply = Reply::Text { status: 500, body: String::new() };
    let response = Client::settle_execute(&executor, reply).unwrap();
    assert_eq!(response.status, 500);
    assert_eq!(response.run.output, "500 Internal Server Error: ");
}

#[test]
fn unknown_status_code_is_displayed_as_such() {
    let executor = rust_executor();
    let reply = Reply::Text { status: 599, body: "x".to_string() };
    let response = Client::settle_execute(&executor, reply).unwrap();
    assert_eq!(response.run.stderr, "599 <unknown status code>: x");
}

#[test]
fn transport_failure_is_an_error() {
    let executor = rust_executor();
    let reply = Reply::NoReply { message: "connection refused".to_string() };
    let outcome = Client::settle_execute(&executor, reply);
    assert_eq!(
        outcome,
        Err(ExecError::Transport { message: "connection refused".to_string() })
    );
}

#[test]
fn unreadable_body_is_an_error() {
    let executor = rust_executor();
    let reply = Reply::Unreadable { status: 200, message: "expected value".to_string() };
    let outcome = Client::settle_execute(&executor, reply);
    assert_eq!(
        outcome,
        Err(ExecError::Body { status: 200, message: "expected value".to_string() })
    );
}

#[test]
fn settling_twice_gives_the_same_response() {
    let executor = rust_executor();
    let first = Client::settle_execute(&executor, decoded_reply()).unwrap();
    let second = Client::settle_execute(&executor, decoded_reply()).unwrap();
    assert_eq!(first, second);
    let reply = Reply::Text { status: 400, body: "bad request".to_string() };
    let third = Client::settle_execute(&executor, reply.clone()).unwrap();
    let fourth = Client::settle_execute(&executor, reply).unwrap();
    assert_eq!(third, fourth);
}

#[test]
fn body_is_read_as_json_only_on_200() {
    assert_eq!(body_kind(200), BodyKind::Json);
    assert_eq!(body_kind(201), BodyKind::Text);
    assert_eq!(body_kind(400), BodyKind::Text);
    assert_eq!(body_kind(500), BodyKind::Text);
}

#[test]
fn rejected_response_formats_the_diagnostic() {
    let executor = rust_executor();
    let response = rejected_response(&executor, 418, "418 I'm a teapot", "short");
    assert_eq!(response.run.stderr, "418 I'm a teapot: short");
    assert_eq!(response.run.output, "418 I'm a teapot: short");
    assert_eq!(response.run.code, 1);
    assert_eq!(response.status, 418);
}
