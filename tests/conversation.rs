use yuchi::auth::Auth;
use yuchi::commands::{ask, NO_CHANNEL_ID, NO_CREDENTIALS, NO_USER_ID};
use yuchi::config::Config;
use yuchi::conversation::{
    adjust_prompt, start, Content, Message, Session, Stage, Step, ToolChoice, FORBIDDEN,
    NOT_FOUND, NO_TOOL_REPLY, RATE_LIMITED,
};
use yuchi::errors::YuchiError;
use yuchi::image::ImageSource;
use yuchi::json::Json;
use yuchi::tool::{decide_run, tool_outcome, RunPlan};

fn key_session(prompt: &str) -> Session {
    start(prompt, Some("k-123"), None, None, "shapesinc/ariwa", "u1", "ch1", None).unwrap()
}

fn api(m: &str) -> Step {
    Step::Done(Err(YuchiError::Api(m.to_string())))
}

#[test]
fn plain_prompt_is_sent_unchanged() {
    let s = key_session("What is the TEXT of this?");
    assert_eq!(s.stage, Stage::AwaitingReply);
    assert_eq!(s.messages.len(), 1);
    assert_eq!(
        s.messages[0],
        Message::User(Content::Text("What is the TEXT of this?".to_string()))
    );
    assert_eq!(s.model, "shapesinc/ariwa");
}

#[test]
fn image_prompt_mentioning_text_is_rewritten() {
    let s = start(
        "What's the TeXt here?",
        Some("k"),
        None,
        None,
        "m",
        "u",
        "c",
        Some(("pics/meme.png", ImageSource::Loaded(vec![1, 2, 3]))),
    )
    .unwrap();
    assert_eq!(
        s.messages[0],
        Message::User(Content::WithImage {
            text: "Extract the text from this image: What's the TeXt here?".to_string(),
            image_url: "data:image/png;base64,AQID".to_string(),
        })
    );
}

#[test]
fn image_prompt_without_text_is_kept() {
    let s = start(
        "Describe it",
        Some("k"),
        None,
        None,
        "m",
        "u",
        "c",
        Some(("photo.jpeg", ImageSource::Loaded(b"hello".to_vec()))),
    )
    .unwrap();
    assert_eq!(
        s.messages[0],
        Message::User(Content::WithImage {
            text: "Describe it".to_string(),
            image_url: "data:image/jpeg;base64,aGVsbG8=".to_string(),
        })
    );
}

#[test]
fn adjust_prompt_needs_an_image() {
    assert_eq!(adjust_prompt("read the TEXT", false), "read the TEXT");
    assert_eq!(
        adjust_prompt("read the TEXT", true),
        "Extract the text from this image: read the TEXT"
    );
    assert_eq!(adjust_prompt("read it", true), "read it");
}

#[test]
fn unsupported_image_format_fails_before_sending() {
    let r = start(
        "hi",
        Some("k"),
        None,
        None,
        "m",
        "u",
        "c",
        Some(("anim.gif", ImageSource::Loaded(vec![0]))),
    );
    assert_eq!(
        r.unwrap_err(),
        YuchiError::Image("Unsupported image format for 'anim.gif'. Use PNG or JPEG.".to_string())
    );
}

#[test]
fn missing_image_fails_before_sending() {
    let r = start("hi", Some("k"), None, None, "m", "u", "c", Some(("nope.png", ImageSource::Missing)));
    assert_eq!(
        r.unwrap_err(),
        YuchiError::Image("Image file 'nope.png' does not exist or is not a file".to_string())
    );
}

#[test]
fn image_error_comes_before_credential_error() {
    let r = start("hi", None, None, None, "m", "u", "c", Some(("a.bmp", ImageSource::Loaded(vec![]))));
    assert!(matches!(r, Err(YuchiError::Image(_))));
}

#[test]
fn no_credential_fails_at_once() {
    let r = start("hi", None, None, None, "m", "u", "c", None);
    assert_eq!(
        r.unwrap_err(),
        YuchiError::Api("No API key or user auth token provided.".to_string())
    );
}

#[test]
fn token_without_app_id_is_a_config_error() {
    let r = start("hi", Some("k"), Some("tok"), None, "m", "u", "c", None);
    assert_eq!(
        r.unwrap_err(),
        YuchiError::Config("No app ID set for user auth token.".to_string())
    );
}

#[test]
fn token_takes_precedence_over_key() {
    let s = start("hi", Some("k"), Some("tok"), Some("app"), "m", "u", "c", None).unwrap();
    assert_eq!(
        s.auth,
        Auth::Token { app_id: "app".to_string(), token: "tok".to_string() }
    );
    assert_eq!(
        s.headers(),
        vec![
            ("X-App-ID".to_string(), "app".to_string()),
            ("X-User-Auth".to_string(), "tok".to_string())
        ]
    );
}

#[test]
fn key_mode_headers() {
    let s = key_session("hi");
    assert_eq!(
        s.headers(),
        vec![
            ("X-User-ID".to_string(), "u1".to_string()),
            ("X-Channel-ID".to_string(), "ch1".to_string()),
            ("Authorization".to_string(), "Bearer k-123".to_string())
        ]
    );
}

#[test]
fn structured_tool_call_round_trip() {
    let mut s = key_session("list files");
    let body = r#"{"choices":[{"message":{"tool_calls":[{"id":"c1","type":"function","function":{"name":"run_shell_command","arguments":"{\"command\":\"echo hi\"}"}}]}}]}"#;
    let step = s.on_reply(200, "200 OK", Some(body));
    assert_eq!(step, Step::Run("echo hi".to_string()));
    assert_eq!(s.stage, Stage::RunningTools);
    // an executor that confirms on its own
    let plan = decide_run("echo hi", "y").unwrap();
    assert_eq!(
        plan,
        RunPlan::Execute { program: "echo".to_string(), args: vec!["hi".to_string()] }
    );
    let (text, ok) = tool_outcome("echo hi", true, &b"hi\n".to_vec(), &vec![]);
    assert!(ok);
    let step = s.on_tool_result(Ok(text));
    assert_eq!(step, Step::Send(ToolChoice::Disabled));
    assert_eq!(s.stage, Stage::AwaitingFinalReply);
    assert_eq!(s.messages.len(), 3);
    assert_eq!(s.messages[0], Message::User(Content::Text("list files".to_string())));
    match &s.messages[1] {
        Message::Assistant(calls) => {
            assert_eq!(calls.len(), 1);
            assert_eq!(calls[0].get("id"), Some(&Json::Str("c1".to_string())));
        }
        other => panic!("expected the assistant message, got {:?}", other),
    }
    match &s.messages[2] {
        Message::Tool { call_id, content } => {
            assert_eq!(call_id, "c1");
            assert!(content.starts_with("`echo hi` succeeded:"));
        }
        other => panic!("expected a tool message, got {:?}", other),
    }
    let step = s.on_reply(200, "200 OK", Some(r#"{"choices":[{"message":{"content":"done"}}]}"#));
    assert_eq!(step, Step::Done(Ok("done".to_string())));
    assert_eq!(s.stage, Stage::Finished);
}

#[test]
fn fallback_envelope_uses_placeholder_id() {
    let mut s = key_session("list");
    let body = r#"{"choices":[{"message":{"content":"<function>{\"command\":\"ls\"}</function>"}}]}"#;
    let step = s.on_reply(200, "200 OK", Some(body));
    assert_eq!(step, Step::Run("ls".to_string()));
    assert_eq!(s.calls.len(), 1);
    assert_eq!(s.calls[0].id, "fallback");
    let step = s.on_tool_result(Ok("`ls` succeeded:\na\n".to_string()));
    assert_eq!(step, Step::Send(ToolChoice::Disabled));
    assert_eq!(s.messages.len(), 2);
    assert_eq!(
        s.messages[1],
        Message::Tool { call_id: "fallback".to_string(), content: "`ls` succeeded:\na\n".to_string() }
    );
}

#[test]
fn plain_answer_is_returned() {
    let mut s = key_session("hi");
    let step = s.on_reply(200, "200 OK", Some(r#"{"choices":[{"message":{"content":"Hello!"}}]}"#));
    assert_eq!(step, Step::Done(Ok("Hello!".to_string())));
    assert_eq!(s.stage, Stage::Finished);
}

#[test]
fn missing_content_answers_empty() {
    let mut s = key_session("hi");
    let step = s.on_reply(200, "200 OK", Some(r#"{"choices":[]}"#));
    assert_eq!(step, Step::Done(Ok(String::new())));
}

#[test]
fn rate_limit_ignores_body() {
    let mut s = key_session("hi");
    assert_eq!(s.on_reply(429, "429 Too Many Requests", Some("whatever")), api(RATE_LIMITED));
    let mut s = key_session("hi");
    assert_eq!(s.on_reply(429, "429 Too Many Requests", None), api(RATE_LIMITED));
}

#[test]
fn other_statuses_map_to_their_messages() {
    let mut s = key_session("hi");
    assert_eq!(s.on_reply(404, "404 Not Found", Some("x")), api(NOT_FOUND));
    let mut s = key_session("hi");
    assert_eq!(s.on_reply(403, "403 Forbidden", Some("x")), api(FORBIDDEN));
    let mut s = key_session("hi");
    assert_eq!(
        s.on_reply(500, "500 Internal Server Error", Some("boom")),
        api("API request failed with status: 500 Internal Server Error. Response: boom")
    );
    let mut s = key_session("hi");
    assert_eq!(
        s.on_reply(502, "502 Bad Gateway", None),
        api("API request failed with status: 502 Bad Gateway. Response: No response body")
    );
}

#[test]
fn body_that_is_not_json_fails() {
    let mut s = key_session("hi");
    match s.on_reply(200, "200 OK", Some("not json")) {
        Step::Done(Err(YuchiError::Api(m))) => assert!(m.starts_with("Failed to parse API response: ")),
        other => panic!("unexpected {:?}", other),
    }
}

#[test]
fn bad_tool_entries_report_their_fault() {
    let cases = [
        (r#"{"function":{"arguments":"{}"}}"#, "Missing tool call ID"),
        (r#"{"id":"a"}"#, "Missing tool arguments"),
        (r#"{"id":"a","function":{"arguments":{"command":"ls"}}}"#, "Tool arguments must be a JSON string"),
        (r#"{"id":"a","function":{"arguments":"{\"cmd\":\"ls\"}"}}"#, "Missing command parameter"),
    ];
    for (entry, message) in cases {
        let mut s = key_session("hi");
        let body = format!(r#"{{"choices":[{{"message":{{"tool_calls":[{}]}}}}]}}"#, entry);
        assert_eq!(s.on_reply(200, "200 OK", Some(&body)), api(message));
        assert_eq!(s.messages.len(), 2);
    }
    let mut s = key_session("hi");
    let body = r#"{"choices":[{"message":{"tool_calls":[{"id":"a","function":{"arguments":"{oops"}}]}}]}"#;
    match s.on_reply(200, "200 OK", Some(body)) {
        Step::Done(Err(YuchiError::Api(m))) => assert!(m.starts_with("Failed to parse tool arguments: ")),
        other => panic!("unexpected {:?}", other),
    }
}

#[test]
fn bad_entry_fails_after_earlier_calls_ran() {
    let mut s = key_session("hi");
    let body = r#"{"choices":[{"message":{"tool_calls":[{"id":"a","function":{"arguments":"{\"command\":\"pwd\"}"}},{"id":"b"}]}}]}"#;
    assert_eq!(s.on_reply(200, "200 OK", Some(body)), Step::Run("pwd".to_string()));
    assert_eq!(
        s.on_tool_result(Ok("`pwd` succeeded:\n/\n".to_string())),
        api("Missing tool arguments")
    );
    assert_eq!(s.messages.len(), 3);
}

#[test]
fn two_calls_run_in_order() {
    let mut s = key_session("hi");
    let body = r#"{"choices":[{"message":{"tool_calls":[{"id":"a","function":{"arguments":"{\"command\":\"pwd\"}"}},{"id":"b","function":{"arguments":"{\"command\":\"ls -l\"}"}}]}}]}"#;
    assert_eq!(s.on_reply(200, "200 OK", Some(body)), Step::Run("pwd".to_string()));
    assert_eq!(s.on_tool_result(Ok("one".to_string())), Step::Run("ls -l".to_string()));
    assert_eq!(s.on_tool_result(Ok("two".to_string())), Step::Send(ToolChoice::Disabled));
    assert_eq!(s.messages[2], Message::Tool { call_id: "a".to_string(), content: "one".to_string() });
    assert_eq!(s.messages[3], Message::Tool { call_id: "b".to_string(), content: "two".to_string() });
}

#[test]
fn empty_tool_calls_go_straight_to_final_request() {
    let mut s = key_session("hi");
    let body = r#"{"choices":[{"message":{"tool_calls":[]}}]}"#;
    assert_eq!(s.on_reply(200, "200 OK", Some(body)), Step::Send(ToolChoice::Disabled));
}

#[test]
fn tool_error_ends_exchange() {
    let mut s = key_session("hi");
    let body = r#"{"choices":[{"message":{"content":"<function>{\"command\":\"zz\"}</function>"}}]}"#;
    s.on_reply(200, "200 OK", Some(body));
    let e = YuchiError::Tool("Failed to execute `zz`: not found".to_string());
    assert_eq!(s.on_tool_result(Err(e.clone())), Step::Done(Err(e)));
    assert_eq!(s.stage, Stage::Finished);
}

#[test]
fn fallback_with_bad_json_fails() {
    let mut s = key_session("hi");
    let body = r#"{"choices":[{"message":{"content":"<function>nope</function>"}}]}"#;
    match s.on_reply(200, "200 OK", Some(body)) {
        Step::Done(Err(YuchiError::Api(m))) => assert!(m.starts_with("Failed to parse function arguments: ")),
        other => panic!("unexpected {:?}", other),
    }
    let mut s = key_session("hi");
    let body = r#"{"choices":[{"message":{"content":"<function>{\"x\":1}</function>"}}]}"#;
    assert_eq!(s.on_reply(200, "200 OK", Some(body)), api("Missing command parameter"));
}

fn awaiting_final() -> Session {
    let mut s = key_session("hi");
    let body = r#"{"choices":[{"message":{"content":"<function>{\"command\":\"ls\"}</function>"}}]}"#;
    s.on_reply(200, "200 OK", Some(body));
    s.on_tool_result(Ok("ok".to_string()));
    s
}

#[test]
fn final_reply_without_content_uses_stand_in() {
    let mut s = awaiting_final();
    assert_eq!(
        s.on_reply(200, "200 OK", Some(r#"{"choices":[{"message":{}}]}"#)),
        Step::Done(Ok(NO_TOOL_REPLY.to_string()))
    );
}

#[test]
fn final_reply_failures() {
    let mut s = awaiting_final();
    assert_eq!(
        s.on_reply(429, "429 Too Many Requests", Some("slow")),
        api("Second API request failed with status: 429 Too Many Requests. Response: slow")
    );
    let mut s = awaiting_final();
    match s.on_reply(200, "200 OK", Some("[")) {
        Step::Done(Err(YuchiError::Api(m))) => assert!(m.starts_with("Failed to parse second API response: ")),
        other => panic!("unexpected {:?}", other),
    }
}

#[test]
fn send_failures() {
    let mut s = key_session("hi");
    assert_eq!(s.on_send_failed("timed out"), api("Failed to send request to ShapesAI API: timed out"));
    let mut s = awaiting_final();
    assert_eq!(
        s.on_send_failed("reset"),
        api("Failed to send second request to ShapesAI API: reset")
    );
}

fn config() -> Config {
    Config {
        api_key: Some("key".to_string()),
        app_id: None,
        user_auth_token: None,
        username: None,
        user_id: Some("u".to_string()),
        channel_id: Some("c".to_string()),
    }
}

#[test]
fn ask_checks_the_stored_configuration() {
    let mut c = config();
    c.user_id = None;
    assert_eq!(ask(&c, "hi", None, None).unwrap_err(), YuchiError::Config(NO_USER_ID.to_string()));
    let mut c = config();
    c.channel_id = None;
    assert_eq!(ask(&c, "hi", None, None).unwrap_err(), YuchiError::Config(NO_CHANNEL_ID.to_string()));
    let mut c = config();
    c.api_key = None;
    assert_eq!(ask(&c, "hi", None, None).unwrap_err(), YuchiError::Config(NO_CREDENTIALS.to_string()));
}

#[test]
fn ask_chooses_the_model() {
    let s = ask(&config(), "hi", None, None).unwrap();
    assert_eq!(s.model, "shapesinc/ariwa");
    let mut c = config();
    c.username = Some("bob".to_string());
    assert_eq!(ask(&c, "hi", None, None).unwrap().model, "shapesinc/bob");
    assert_eq!(ask(&c, "hi", Some("other/m"), None).unwrap().model, "other/m");
}

#[test]
fn ask_prefers_the_token() {
    let mut c = config();
    c.user_auth_token = Some("tok".to_string());
    c.app_id = Some("app".to_string());
    let s = ask(&c, "hi", None, None).unwrap();
    assert_eq!(s.auth, Auth::Token { app_id: "app".to_string(), token: "tok".to_string() });
    c.app_id = None;
    assert_eq!(
        ask(&c, "hi", None, None).unwrap_err(),
        YuchiError::Config("No app ID set for user auth token.".to_string())
    );
}
