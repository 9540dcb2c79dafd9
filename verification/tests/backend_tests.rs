use askai::backend::{build_request, command_from_response, content_of, read_response, BackendError};
use askai::config::{ApiConfig, Config};

fn settings(base_url: &str, api_key: &str, model: &str) -> Config {
    Config {
        api: ApiConfig {
            base_url: String::from(base_url),
            api_key: String::from(api_key),
            model: String::from(model),
        },
        language: String::from("en"),
    }
}

fn json_error() -> serde_json::Error {
    serde_json::from_str::<serde_json::Value>("{").unwrap_err()
}

#[test]
fn request_is_framed() {
    let c = settings("https://api.example.com/v1", "k-123", "gpt-4");
    let r = build_request(&c, "be brief", "list files").unwrap();
    assert_eq!(r.url, "https://api.example.com/v1/chat/completions");
    assert_eq!(r.authorization, "Bearer k-123");
    assert_eq!(
        r.body,
        "{\"model\":\"gpt-4\",\"messages\":[{\"role\":\"system\",\"content\":\"be brief\"},{\"role\":\"user\",\"content\":\"list files\"}]}"
    );
}

#[test]
fn request_body_escapes_text() {
    let c = settings("http://h", "k", "m\"x");
    let system = "line one\nline \"two\"\t\\ end";
    let user = "\u{7528}\u{6237} {\"a\":1}";
    let r = build_request(&c, system, user).unwrap();
    let v: serde_json::Value = serde_json::from_str(&r.body).unwrap();
    assert_eq!(v["model"].as_str(), Some("m\"x"));
    assert_eq!(v["messages"].as_array().unwrap().len(), 2);
    assert_eq!(v["messages"][0]["role"].as_str(), Some("system"));
    assert_eq!(v["messages"][0]["content"].as_str(), Some(system));
    assert_eq!(v["messages"][1]["role"].as_str(), Some("user"));
    assert_eq!(v["messages"][1]["content"].as_str(), Some(user));
    assert!(r.body.contains("line one\\nline \\\"two\\\"\\t\\\\ end"));
}

#[test]
fn empty_credential_is_refused_before_any_call() {
    let c = settings("https://api.example.com/v1", "", "gpt-4");
    assert_eq!(build_request(&c, "s", "u"), Err(BackendError::MissingConfig));
}

#[test]
fn empty_endpoint_or_model_is_refused() {
    assert_eq!(build_request(&settings("", "k", "m"), "s", "u"), Err(BackendError::MissingConfig));
    assert_eq!(build_request(&settings("h", "k", ""), "s", "u"), Err(BackendError::MissingConfig));
    assert_eq!(build_request(&settings("", "", ""), "s", "u"), Err(BackendError::MissingConfig));
}

#[test]
fn empty_prompts_are_no_fault() {
    assert!(build_request(&settings("h", "k", "m"), "", "").is_ok());
}

#[test]
fn response_yields_the_reply() {
    let body = "{\"choices\":[{\"message\":{\"role\":\"assistant\",\"content\":\"ls -la\"}}]}";
    assert_eq!(read_response(200, body), Ok(String::from("ls -la")));
    assert_eq!(read_response(299, body), Ok(String::from("ls -la")));
}

#[test]
fn response_reply_is_unescaped() {
    let body = "{\"choices\":[{\"message\":{\"content\":\"echo \\\"a\\\"\\nls\"}}]}";
    assert_eq!(read_response(200, body), Ok(String::from("echo \"a\"\nls")));
}

#[test]
fn only_the_first_choice_counts() {
    let body = "{\"choices\":[{\"message\":{\"content\":\"one\"}},{\"message\":{\"content\":\"two\"}}]}";
    assert_eq!(read_response(200, body), Ok(String::from("one")));
}

#[test]
fn failure_status_is_an_error() {
    let body = "{\"choices\":[{\"message\":{\"content\":\"ls\"}}]}";
    assert_eq!(read_response(500, body), Err(BackendError::HttpStatus(500)));
    assert_eq!(read_response(401, body), Err(BackendError::HttpStatus(401)));
    assert_eq!(read_response(199, body), Err(BackendError::HttpStatus(199)));
    assert_eq!(read_response(300, body), Err(BackendError::HttpStatus(300)));
    assert_eq!(read_response(404, "not json"), Err(BackendError::HttpStatus(404)));
}

#[test]
fn body_that_is_no_json_is_an_error() {
    assert_eq!(read_response(200, "<html>"), Err(BackendError::BadResponse));
    assert_eq!(read_response(200, ""), Err(BackendError::BadResponse));
    assert_eq!(read_response(200, "{\"choices\":"), Err(BackendError::BadResponse));
}

#[test]
fn body_without_the_text_is_an_error() {
    assert_eq!(read_response(200, "{}"), Err(BackendError::MissingContent));
    assert_eq!(read_response(200, "{\"choices\":[]}"), Err(BackendError::MissingContent));
    assert_eq!(read_response(200, "{\"choices\":[{\"message\":{}}]}"), Err(BackendError::MissingContent));
    assert_eq!(
        read_response(200, "{\"choices\":[{\"message\":{\"content\":null}}]}"),
        Err(BackendError::MissingContent)
    );
    assert_eq!(
        read_response(200, "{\"choices\":[{\"message\":{\"content\":42}}]}"),
        Err(BackendError::MissingContent)
    );
    assert_eq!(
        read_response(200, "{\"choices\":{\"0\":{\"message\":{\"content\":\"ls\"}}}}"),
        Err(BackendError::MissingContent)
    );
    assert_eq!(read_response(200, "[1,2]"), Err(BackendError::MissingContent));
}

#[test]
fn content_of_maps_each_case() {
    assert_eq!(content_of(Ok(Some(String::from("ls")))), Ok(String::from("ls")));
    assert_eq!(content_of(Ok(None)), Err(BackendError::MissingContent));
    assert_eq!(content_of(Err(json_error())), Err(BackendError::BadResponse));
}

#[test]
fn command_from_response_sanitizes_the_reply() {
    let body = "{\"choices\":[{\"message\":{\"content\":\"```bash\\nls -la\\n```\"}}]}";
    assert_eq!(command_from_response(200, body), Ok(String::from("ls -la")));
    assert_eq!(command_from_response(503, body), Err(BackendError::HttpStatus(503)));
    assert_eq!(command_from_response(200, "{}"), Err(BackendError::MissingContent));
}
