use fabro_sandbox::aca::client::{
    decode_failure, extract_problem_message, found_body, map_status, ok_body, ok_bytes, send_failure,
    succeeds, AcaApiError, AcaClient, ApiCall, AutoSuspendPolicy, Body, CreateDiskImage,
    CreateResources, CreateSandboxRequest, CreateSourcesRef, HttpRequest, Lifecycle, Method, Operation,
    RawReply, SandboxState, API_VERSION, USER_AGENT,
};
use fabro_sandbox::error::Error;

const NOT_FOUND_BODY: &str = r#"{"detail":"Requested document not found.","errorCode":1,"requestId":"req-1","status":404,"title":"SandboxNotFound","traceId":"trace-1"}"#;
const NOT_RUNNING_BODY: &str = r#"{"title":"GlobalSandboxNotRunning","status":409,"detail":"Sandbox 'sbx-1' is not in Running state","errorCode":501,"traceId":"trace-1","requestId":"req-1"}"#;

fn test_client() -> AcaClient {
    match AcaClient::new(
        "http://127.0.0.1:5000",
        "sub-1".to_string(),
        "rg-1".to_string(),
        "sg-1".to_string(),
    ) {
        Ok(client) => client,
        Err(e) => panic!("client: {:?}", e),
    }
}

fn sandboxes_path() -> String {
    "/subscriptions/sub-1/resourceGroups/rg-1/sandboxGroups/sg-1/sandboxes".to_string()
}

fn sandbox_path(id: &str) -> String {
    format!("{}/{}", sandboxes_path(), id)
}

fn sandbox_action_path(id: &str, action: &str) -> String {
    format!("{}/{}", sandbox_path(id), action)
}

fn sent(call: ApiCall) -> HttpRequest {
    let client = test_client();
    assert!(client.addressable(&call));
    client.send(call, "test-token")
}

fn header(request: &HttpRequest, name: &str) -> Option<String> {
    request.headers.iter().find(|h| h.name == name).map(|h| h.value.clone())
}

fn query(request: &HttpRequest, name: &str) -> Option<String> {
    request.query.iter().find(|q| q.name == name).map(|q| q.value.clone())
}

fn api_cause(error: &Error) -> &AcaApiError {
    match error.source() {
        Some(Error::Api(e)) => e,
        other => panic!("no API cause: {:?}", other),
    }
}

#[test]
fn get_sandbox_parses_running_state_from_200() {
    let call = test_client().get_sandbox("sbx-1");
    let request = sent(call);
    assert_eq!(request.method, Method::Get);
    assert_eq!(request.url, format!("http://127.0.0.1:5000{}", sandbox_path("sbx-1")));
    assert_eq!(query(&request, "api-version").as_deref(), Some(API_VERSION));
    assert_eq!(header(&request, "authorization").as_deref(), Some("Bearer test-token"));
    assert_eq!(header(&request, "accept").as_deref(), Some("application/json"));
    assert_eq!(header(&request, "content-type"), None);

    let body = found_body(Operation::GetSandbox, 200, Ok("{}".to_string())).unwrap();
    assert_eq!(body.as_deref(), Some("{}"));
    assert_eq!(SandboxState::from_wire("Running"), SandboxState::Running);
}

#[test]
fn get_sandbox_returns_none_on_captured_404_sandbox_not_found() {
    let found = found_body(Operation::GetSandbox, 404, Ok(NOT_FOUND_BODY.to_string()));
    assert!(found.unwrap().is_none());
    let unread = found_body(Operation::GetSandbox, 404, Err("reset".to_string()));
    assert!(unread.unwrap().is_none());
}

#[test]
fn get_sandbox_maps_other_statuses_to_errors() {
    let error = found_body(Operation::GetSandbox, 403, Ok(String::new())).unwrap_err();
    assert_eq!(error.text(), "ACA get sandbox request failed");
    assert!(matches!(api_cause(&error), AcaApiError::Auth));
    let unread = found_body(Operation::GetSandbox, 200, Err("reset".to_string())).unwrap_err();
    assert_eq!(unread.text(), "Failed to read ACA get sandbox response body");
    assert_eq!(unread.source().unwrap().text(), "reset");
}

#[test]
fn delete_sandbox_maps_409_global_sandbox_not_running() {
    let error = ok_body(Operation::DeleteSandbox, 409, Ok(NOT_RUNNING_BODY.to_string())).unwrap_err();
    assert_eq!(error.text(), "ACA delete sandbox request failed");
    assert!(matches!(api_cause(&error), AcaApiError::NotRunning));
    assert_eq!(
        api_cause(&error).message(),
        "ACA sandbox is not running (GlobalSandboxNotRunning)"
    );
}

#[test]
fn delete_sandbox_maps_403_to_auth_naming_required_role() {
    let body = r#"{"title":"Forbidden","status":403,"detail":"The caller does not have permission"}"#;
    let error = ok_body(Operation::DeleteSandbox, 403, Ok(body.to_string())).unwrap_err();
    assert!(matches!(api_cause(&error), AcaApiError::Auth));
    assert!(api_cause(&error).message().contains("Container Apps SandboxGroup Data Owner"));
}

#[test]
fn delete_sandbox_maps_404_to_not_found() {
    let error = ok_body(Operation::DeleteSandbox, 404, Ok(NOT_FOUND_BODY.to_string())).unwrap_err();
    assert!(matches!(api_cause(&error), AcaApiError::NotFound));
    assert_eq!(api_cause(&error).message(), "ACA sandbox not found");
}

#[test]
fn delete_sandbox_sends_no_accept_and_no_body() {
    let request = sent(test_client().delete_sandbox("sbx-1"));
    assert_eq!(request.method, Method::Delete);
    assert_eq!(request.url, format!("http://127.0.0.1:5000{}", sandbox_path("sbx-1")));
    assert_eq!(header(&request, "accept"), None);
    assert_eq!(header(&request, "content-type"), None);
    assert!(matches!(request.body, Body::Nothing));
}

#[test]
fn other_statuses_carry_the_problem_message() {
    let body = r#"{"title":"InternalError","detail":"boom"}"#;
    match map_status(500, body) {
        AcaApiError::Other { status, message } => {
            assert_eq!(status, 500);
            assert_eq!(message, "InternalError: boom");
        }
        other => panic!("unexpected {:?}", other),
    }
    assert_eq!(
        map_status(500, body).message(),
        "ACA data-plane request failed with HTTP 500: InternalError: boom"
    );
    match map_status(502, "<html>bad gateway</html>") {
        AcaApiError::Other { status, message } => {
            assert_eq!(status, 502);
            assert_eq!(message, "<html>bad gateway</html>");
        }
        other => panic!("unexpected {:?}", other),
    }
}

#[test]
fn problem_message_takes_what_is_there() {
    assert_eq!(extract_problem_message(r#"{"title":"T","detail":"D"}"#).as_deref(), Some("T: D"));
    assert_eq!(extract_problem_message(r#"{"title":"T","detail":7}"#).as_deref(), Some("T"));
    assert_eq!(extract_problem_message(r#"{"detail":"D"}"#).as_deref(), Some("D"));
    assert_eq!(extract_problem_message(r#"{"other":"x"}"#), None);
    assert_eq!(extract_problem_message(r#"["title"]"#), None);
    assert_eq!(extract_problem_message("not json"), None);
}

#[test]
fn list_sandboxes_parses_array_response() {
    let request = sent(test_client().list_sandboxes());
    assert_eq!(request.method, Method::Get);
    assert_eq!(request.url, format!("http://127.0.0.1:5000{}", sandboxes_path()));
    assert_eq!(query(&request, "api-version").as_deref(), Some(API_VERSION));
    assert_eq!(header(&request, "authorization").as_deref(), Some("Bearer test-token"));
    assert_eq!(SandboxState::from_wire("Stopped"), SandboxState::Stopped);
    let body = ok_body(Operation::ListSandboxes, 200, Ok("[1,2]".to_string())).unwrap();
    assert_eq!(body, "[1,2]");
}

#[test]
fn list_sandboxes_handles_empty_array() {
    let body = ok_body(Operation::ListSandboxes, 200, Ok("[]".to_string())).unwrap();
    assert_eq!(body, "[]");
}

#[test]
fn create_sandbox_sends_request_body_and_parses_response() {
    let request = CreateSandboxRequest {
        lifecycle: Lifecycle {
            auto_suspend_policy: AutoSuspendPolicy {
                enabled: true,
                interval: 600,
                mode: "Memory".to_string(),
            },
        },
        resources: CreateResources { cpu: "1000m".to_string(), memory: "2048Mi".to_string() },
        sources_ref: CreateSourcesRef {
            disk_image: CreateDiskImage { is_public: true, name: "ubuntu".to_string() },
        },
    };
    let request = sent(test_client().create_sandbox(request));
    assert_eq!(request.method, Method::Put);
    assert_eq!(request.url, format!("http://127.0.0.1:5000{}", sandboxes_path()));
    assert_eq!(query(&request, "api-version").as_deref(), Some(API_VERSION));
    assert_eq!(header(&request, "authorization").as_deref(), Some("Bearer test-token"));
    assert_eq!(header(&request, "content-type").as_deref(), Some("application/json"));
    match request.body {
        Body::Create(body) => {
            assert!(body.lifecycle.auto_suspend_policy.enabled);
            assert_eq!(body.lifecycle.auto_suspend_policy.interval, 600);
            assert_eq!(body.lifecycle.auto_suspend_policy.mode, "Memory");
            assert_eq!(body.resources.cpu, "1000m");
            assert_eq!(body.resources.memory, "2048Mi");
            assert!(body.sources_ref.disk_image.is_public);
            assert_eq!(body.sources_ref.disk_image.name, "ubuntu");
        }
        other => panic!("unexpected {:?}", other),
    }
}

#[test]
fn every_request_carries_api_version_and_authorization() {
    let request = sent(test_client().get_sandbox("sbx-1"));
    assert_eq!(query(&request, "api-version").as_deref(), Some(API_VERSION));
    assert_eq!(header(&request, "authorization").as_deref(), Some("Bearer test-token"));
    assert_eq!(header(&request, "user-agent").as_deref(), Some(USER_AGENT));
    assert_eq!(API_VERSION, "2026-02-01-preview");
}

#[test]
fn every_request_has_a_random_id_of_its_own() {
    let a = header(&sent(test_client().list_sandboxes()), "x-ms-client-request-id").unwrap();
    let b = header(&sent(test_client().list_sandboxes()), "x-ms-client-request-id").unwrap();
    assert_ne!(a, b);
    for id in [a, b] {
        let chars: Vec<char> = id.chars().collect();
        assert_eq!(chars.len(), 36);
        for (i, c) in chars.iter().enumerate() {
            if i == 8 || i == 13 || i == 18 || i == 23 {
                assert_eq!(*c, '-');
            } else {
                assert!(c.is_ascii_digit() || ('a'..='f').contains(c));
            }
        }
        assert_eq!(chars[14], '4');
        assert!(['8', '9', 'a', 'b'].contains(&chars[19]));
    }
}

#[test]
fn request_with_id_sends_that_id() {
    let client = test_client();
    let request = client.request_with_id(client.list_sandboxes(), "tok", "id-1");
    assert_eq!(header(&request, "x-ms-client-request-id").as_deref(), Some("id-1"));
    assert_eq!(header(&request, "authorization").as_deref(), Some("Bearer tok"));
}

#[test]
fn paths_are_percent_encoded_in_the_url() {
    let request = sent(test_client().get_sandbox("a b"));
    assert_eq!(request.url, format!("http://127.0.0.1:5000{}", sandbox_path("a%20b")));
}

#[test]
fn client_needs_a_url() {
    match AcaClient::new("not a url", String::new(), String::new(), String::new()) {
        Ok(_) => panic!("no URL was accepted"),
        Err(e) => assert_eq!(e.text(), "relative URL without a base"),
    }
}

#[test]
fn calls_beyond_the_size_of_a_url_are_not_addressable() {
    let client = test_client();
    assert!(client.addressable(&client.get_sandbox("sbx-1")));
    let long = "x".repeat(0x100_0001);
    assert!(!client.addressable(&client.get_sandbox(&long)));
}

#[test]
fn exec_sends_command_verbatim_and_parses_response() {
    let request = sent(test_client().exec("sbx-1", "printf hi && echo done"));
    assert_eq!(request.method, Method::Post);
    assert_eq!(
        request.url,
        format!("http://127.0.0.1:5000{}", sandbox_action_path("sbx-1", "executeShellCommand"))
    );
    assert_eq!(query(&request, "api-version").as_deref(), Some(API_VERSION));
    assert_eq!(header(&request, "authorization").as_deref(), Some("Bearer test-token"));
    assert_eq!(header(&request, "content-type").as_deref(), Some("application/json"));
    match request.body {
        Body::Command(command) => assert_eq!(command, "printf hi && echo done"),
        other => panic!("unexpected {:?}", other),
    }
}

#[test]
fn exec_maps_409_to_not_running() {
    let error = ok_body(Operation::Exec, 409, Ok(NOT_RUNNING_BODY.to_string())).unwrap_err();
    assert_eq!(error.text(), "ACA exec request failed");
    assert!(matches!(api_cause(&error), AcaApiError::NotRunning));
}

#[test]
fn fs_write_sends_octet_stream_body_and_query_params() {
    let call = test_client().fs_write("sbx-1", "/workspace/test.txt", b"hello world".to_vec(), true);
    let request = sent(call);
    assert_eq!(request.method, Method::Put);
    assert_eq!(
        request.url,
        format!("http://127.0.0.1:5000{}", sandbox_action_path("sbx-1", "files"))
    );
    assert_eq!(query(&request, "api-version").as_deref(), Some(API_VERSION));
    assert_eq!(query(&request, "path").as_deref(), Some("/workspace/test.txt"));
    assert_eq!(query(&request, "createDirs").as_deref(), Some("true"));
    assert_eq!(header(&request, "authorization").as_deref(), Some("Bearer test-token"));
    assert_eq!(header(&request, "content-type").as_deref(), Some("application/octet-stream"));
    assert_eq!(header(&request, "accept"), None);
    match request.body {
        Body::Bytes(bytes) => assert_eq!(bytes, b"hello world".to_vec()),
        other => panic!("unexpected {:?}", other),
    }
    let without = sent(test_client().fs_write("sbx-1", "/x", Vec::new(), false));
    assert_eq!(query(&without, "createDirs").as_deref(), Some("false"));
}

#[test]
fn fs_cat_returns_raw_bytes_not_json() {
    let request = sent(test_client().fs_cat("sbx-1", "/workspace/test.txt"));
    assert_eq!(request.method, Method::Get);
    assert_eq!(
        request.url,
        format!("http://127.0.0.1:5000{}", sandbox_action_path("sbx-1", "files"))
    );
    assert_eq!(query(&request, "path").as_deref(), Some("/workspace/test.txt"));
    let bytes = ok_bytes(Operation::FsCat, 200, RawReply::Bytes(b"raw file bytes".to_vec())).unwrap();
    assert_eq!(bytes, b"raw file bytes".to_vec());
}

#[test]
fn fs_cat_maps_errors() {
    let refused =
        ok_bytes(Operation::FsCat, 404, RawReply::Text(NOT_FOUND_BODY.to_string())).unwrap_err();
    assert_eq!(refused.text(), "ACA fs cat request failed");
    assert!(matches!(api_cause(&refused), AcaApiError::NotFound));
    let unread = ok_bytes(Operation::FsCat, 200, RawReply::Unread("reset".to_string())).unwrap_err();
    assert_eq!(unread.text(), "Failed to read ACA fs cat response body");
}

#[test]
fn fs_stat_returns_some_on_200() {
    let request = sent(test_client().fs_stat("sbx-1", "/workspace/test.txt"));
    assert_eq!(
        request.url,
        format!("http://127.0.0.1:5000{}", sandbox_action_path("sbx-1", "files/stat"))
    );
    assert_eq!(query(&request, "path").as_deref(), Some("/workspace/test.txt"));
    let body = found_body(Operation::FsStat, 200, Ok("{\"name\":\"test.txt\"}".to_string())).unwrap();
    assert_eq!(body.as_deref(), Some("{\"name\":\"test.txt\"}"));
}

#[test]
fn fs_stat_returns_none_on_404() {
    let body = found_body(Operation::FsStat, 404, Ok(NOT_FOUND_BODY.to_string())).unwrap();
    assert!(body.is_none());
}

#[test]
fn fs_ls_returns_entries() {
    let request = sent(test_client().fs_ls("sbx-1", "/workspace"));
    assert_eq!(
        request.url,
        format!("http://127.0.0.1:5000{}", sandbox_action_path("sbx-1", "files/list"))
    );
    assert_eq!(query(&request, "path").as_deref(), Some("/workspace"));
    assert_eq!(ok_body(Operation::FsLs, 200, Ok("{}".to_string())).unwrap(), "{}");
}

#[test]
fn suspend_treats_snapshot_response_as_success() {
    let request = sent(test_client().suspend("sbx-1"));
    assert_eq!(request.method, Method::Post);
    assert_eq!(
        request.url,
        format!("http://127.0.0.1:5000{}", sandbox_action_path("sbx-1", "stop"))
    );
    assert_eq!(header(&request, "content-type").as_deref(), Some("application/json"));
    assert!(matches!(request.body, Body::EmptyObject));
    assert!(ok_body(Operation::Suspend, 200, Ok("{\"id\":\"snap-1\"}".to_string())).is_ok());
}

#[test]
fn resume_returns_ok_on_200() {
    let request = sent(test_client().resume("sbx-1"));
    assert_eq!(
        request.url,
        format!("http://127.0.0.1:5000{}", sandbox_action_path("sbx-1", "resume"))
    );
    assert!(matches!(request.body, Body::EmptyObject));
    assert!(ok_body(Operation::Resume, 200, Ok("{}".to_string())).is_ok());
}

#[test]
fn set_egress_sends_traffic_inspection_and_nested_host_rules() {
    let rules = vec!["github.com:Allow".to_string()];
    let request = sent(test_client().set_egress("sbx-1", "Deny", &rules, "Full"));
    assert_eq!(
        request.url,
        format!("http://127.0.0.1:5000{}", sandbox_action_path("sbx-1", "egresspolicy"))
    );
    assert_eq!(header(&request, "authorization").as_deref(), Some("Bearer test-token"));
    match request.body {
        Body::Egress(body) => {
            assert_eq!(body.default_action, "Deny");
            assert_eq!(body.host_rules.len(), 1);
            assert_eq!(body.host_rules[0].action, "Allow");
            assert_eq!(body.host_rules[0].pattern, "github.com");
            assert_eq!(body.traffic_inspection, "Full");
        }
        other => panic!("unexpected {:?}", other),
    }
}

#[test]
fn set_egress_rule_without_colon_falls_back_to_default_action() {
    let rules = vec!["example.com".to_string()];
    let call = test_client().set_egress("sbx-1", "Allow", &rules, "None");
    match call.body {
        Body::Egress(body) => {
            assert_eq!(body.default_action, "Allow");
            assert_eq!(body.host_rules[0].action, "Allow");
            assert_eq!(body.host_rules[0].pattern, "example.com");
            assert_eq!(body.traffic_inspection, "None");
        }
        other => panic!("unexpected {:?}", other),
    }
}

#[test]
fn set_egress_splits_a_rule_at_its_first_colon() {
    let rules = vec!["a:b:c".to_string(), ":Allow".to_string(), "x:".to_string()];
    let call = test_client().set_egress("sbx-1", "Deny", &rules, "Full");
    match call.body {
        Body::Egress(body) => {
            assert_eq!(body.host_rules[0].pattern, "a");
            assert_eq!(body.host_rules[0].action, "b:c");
            assert_eq!(body.host_rules[1].pattern, "");
            assert_eq!(body.host_rules[1].action, "Allow");
            assert_eq!(body.host_rules[2].pattern, "x");
            assert_eq!(body.host_rules[2].action, "");
        }
        other => panic!("unexpected {:?}", other),
    }
}

#[test]
fn unknown_states_fail_soft() {
    assert_eq!(SandboxState::from_wire("Suspending"), SandboxState::Unknown);
    assert_eq!(SandboxState::from_wire("running"), SandboxState::Unknown);
    assert_eq!(SandboxState::from_wire(""), SandboxState::Unknown);
}

#[test]
fn only_the_two_hundreds_are_success() {
    assert!(!succeeds(199));
    assert!(succeeds(200));
    assert!(succeeds(204));
    assert!(succeeds(299));
    assert!(!succeeds(300));
}

#[test]
fn failures_to_send_and_to_decode_are_told_apart() {
    let send = send_failure("connection refused".to_string());
    assert_eq!(send.text(), "ACA data-plane request failed");
    assert_eq!(send.source().unwrap().text(), "connection refused");
    let decode = decode_failure(Operation::FsLs, "missing field".to_string());
    assert_eq!(decode.text(), "Failed to decode ACA fs ls response");
    assert_eq!(decode.source().unwrap().text(), "missing field");
}

#[test]
fn operations_have_their_names() {
    assert_eq!(Operation::CreateSandbox.name(), "create sandbox");
    assert_eq!(Operation::SetEgress.name(), "set egress policy");
    assert_eq!(Operation::Suspend.name(), "suspend sandbox");
    assert_eq!(Operation::Resume.name(), "resume sandbox");
    assert_eq!(Operation::FsWrite.name(), "fs write");
}
