use yuchi::commands::{
    auth_method, authorize_url, fill_ids, find_image_url, image_file_name, keep_api_key,
    keep_token, model_for, new_image_file_name, read_auth_token, require_entry, require_reply,
    set_app_id, shape_model, AuthMethod, APP_ID,
};
use yuchi::config::Config;
use yuchi::conversation::{envelope_inner, prompt_for_image};
use yuchi::errors::YuchiError;
use yuchi::image::{image_data_url, mime_type, path_extension, ImageSource};
use yuchi::json::{parse_json, Json};
use yuchi::text::{contains, ends_with, split_words, starts_with, trim};
use yuchi::tool::{
    cancelled, command_line, confirmation_prompt, confirmed, decide_run, outcome_of,
    spawn_error, tool_outcome, RunPlan, CANCELLED,
};

#[test]
fn refusal_cancels_without_running() {
    for answer in ["n", "N", "", "yes", "no", " ", "yy", " y", "Y\n"] {
        assert_eq!(
            decide_run("rm -rf build", answer).unwrap(),
            RunPlan::Cancelled(CANCELLED.to_string())
        );
    }
    assert_eq!(cancelled(), ("Command execution cancelled by user.".to_string(), false));
}

#[test]
fn confirmation_accepts_y_in_either_case() {
    assert!(confirmed("y"));
    assert!(confirmed("Y"));
    assert!(!confirmed("  y\n"));
    assert!(!confirmed(" y"));
    assert!(!confirmed("n"));
    assert!(!confirmed("yes"));
}

#[test]
fn confirmed_empty_command_is_a_tool_error() {
    assert_eq!(
        decide_run("   ", "y").unwrap_err(),
        YuchiError::Tool("Empty command".to_string())
    );
}

#[test]
fn command_is_split_on_white_space() {
    assert_eq!(
        command_line("  npm   install\texpress ").unwrap(),
        ("npm".to_string(), vec!["install".to_string(), "express".to_string()])
    );
    assert_eq!(command_line("ls").unwrap(), ("ls".to_string(), vec![]));
    assert!(command_line("").is_err());
}

#[test]
fn printf_outcome_text() {
    assert_eq!(
        tool_outcome("printf hi", true, &b"hi".to_vec(), &vec![]),
        ("`printf hi` succeeded:\nhi".to_string(), true)
    );
}

#[test]
fn failed_outcome_uses_stderr() {
    assert_eq!(
        tool_outcome("ls nope", false, &b"out".to_vec(), &b"no such file".to_vec()),
        ("`ls nope` failed:\nno such file".to_string(), false)
    );
    assert_eq!(
        outcome_of("x", false, "o", "e"),
        ("`x` failed:\ne".to_string(), false)
    );
}

#[test]
fn invalid_utf8_is_replaced() {
    let (text, _) = tool_outcome("cat f", true, &vec![b'a', 0xff, b'b'], &vec![]);
    assert_eq!(text, "`cat f` succeeded:\na\u{fffd}b");
}

#[test]
fn prompts_and_errors_of_the_executor() {
    assert_eq!(confirmation_prompt("ls -l", "/tmp"), "Run `ls -l` in /tmp? (y/n): ");
    assert_eq!(
        spawn_error("zz", "No such file or directory (os error 2)"),
        YuchiError::Tool("Failed to execute `zz`: No such file or directory (os error 2)".to_string())
    );
}

#[test]
fn text_helpers() {
    assert_eq!(trim(" \t a b \u{3000}"), "a b");
    assert_eq!(trim("   "), "");
    assert_eq!(split_words(" a  bc\u{a0}d "), vec!["a".to_string(), "bc".to_string(), "d".to_string()]);
    assert!(split_words(" \n ").is_empty());
    assert!(contains("some text here", "text"));
    assert!(!contains("tex", "text"));
    assert!(contains("abc", ""));
    assert!(starts_with("<function>x", "<function>"));
    assert!(!starts_with("<fun", "<function>"));
    assert!(ends_with("x</function>", "</function>"));
}

#[test]
fn prompt_for_image_uses_the_lowered_form() {
    assert_eq!(prompt_for_image("Read THIS", "read this"), "Read THIS");
    assert_eq!(
        prompt_for_image("TEXT?", "text?"),
        "Extract the text from this image: TEXT?"
    );
}

#[test]
fn envelope_is_recognised_exactly() {
    assert_eq!(envelope_inner("<function>{}</function>"), Some("{}"));
    assert_eq!(envelope_inner("<function></function>"), Some(""));
    assert_eq!(envelope_inner(" <function>{}</function>"), None);
    assert_eq!(envelope_inner("<function>{}"), None);
}

#[test]
fn extensions_and_mime_types() {
    assert_eq!(path_extension("dir.v2/photo.JPG"), Some("JPG"));
    assert_eq!(path_extension("dir.v2/photo"), None);
    assert_eq!(path_extension(".png"), None);
    assert_eq!(path_extension("a/b.tar.png"), Some("png"));
    assert_eq!(mime_type("x.png"), Some("image/png"));
    assert_eq!(mime_type("x.jpg"), Some("image/jpeg"));
    assert_eq!(mime_type("x.jpeg"), Some("image/jpeg"));
    assert_eq!(mime_type("x.PNG"), None);
    assert_eq!(mime_type("x.gif"), None);
}

#[test]
fn data_urls() {
    assert_eq!(
        image_data_url("a.png", ImageSource::Loaded(vec![0xff, 0xfe])).unwrap(),
        "data:image/png;base64,//4="
    );
    assert_eq!(
        image_data_url("a.png", ImageSource::Unreadable("denied".to_string())).unwrap_err(),
        YuchiError::Image("Failed to read image file 'a.png': denied".to_string())
    );
}

#[test]
fn json_values_are_carried_over() {
    let j = parse_json(r#"{"a":[1,true,null,"s"],"b":{"c":"d"}}"#).unwrap();
    let a = j.get("a").unwrap();
    assert_eq!(a.at(1), Some(&Json::Bool(true)));
    assert_eq!(a.at(2), Some(&Json::Null));
    assert_eq!(a.at(3).unwrap().as_str().map(|s| s.as_str()), Some("s"));
    assert!(a.at(4).is_none());
    assert_eq!(j.get("b").unwrap().get("c"), Some(&Json::Str("d".to_string())));
    assert!(j.get("z").is_none());
    assert!(parse_json("{").is_err());
}

#[test]
fn sign_in_choices() {
    assert_eq!(auth_method(" 1 ").unwrap(), AuthMethod::ApiKey);
    assert_eq!(auth_method("2").unwrap(), AuthMethod::UserToken);
    assert_eq!(
        auth_method("3").unwrap_err(),
        YuchiError::Input(
            "Invalid authentication method. Choose 1 for API key or 2 for user auth token.".to_string()
        )
    );
    assert_eq!(
        require_entry("  ", "API key cannot be empty").unwrap_err(),
        YuchiError::Input("API key cannot be empty".to_string())
    );
    assert!(require_entry(" k ", "x").is_ok());
    assert_eq!(
        require_reply("", "Username validation failed: No response received.").unwrap_err(),
        YuchiError::Api("Username validation failed: No response received.".to_string())
    );
    assert!(require_reply("hi", "x").is_ok());
}

#[test]
fn ids_are_filled_only_where_missing() {
    let mut c = Config::default();
    c.user_id = Some("kept".to_string());
    assert_eq!(fill_ids(&mut c), (false, true));
    assert_eq!(c.user_id.as_deref(), Some("kept"));
    let channel = c.channel_id.clone().unwrap();
    assert_eq!(channel.len(), 36);
    assert_eq!(fill_ids(&mut c), (false, false));
    assert_eq!(c.channel_id, Some(channel));
}

#[test]
fn credentials_are_kept_alone() {
    let mut c = Config::default();
    c.user_auth_token = Some("old".to_string());
    c.app_id = Some("app".to_string());
    keep_api_key(&mut c, "k".to_string());
    assert_eq!(c.api_key.as_deref(), Some("k"));
    assert!(c.app_id.is_none() && c.user_auth_token.is_none());
    set_app_id(&mut c);
    assert_eq!(c.app_id.as_deref(), Some(APP_ID));
    keep_token(&mut c, "t".to_string());
    assert_eq!(c.user_auth_token.as_deref(), Some("t"));
    assert!(c.api_key.is_none());
}

#[test]
fn auth_token_exchange_replies() {
    assert_eq!(read_auth_token(200, "200 OK", Some(r#"{"auth_token":"abc"}"#)).unwrap(), "abc");
    assert_eq!(
        read_auth_token(200, "200 OK", Some(r#"{"token":"abc"}"#)).unwrap_err(),
        YuchiError::Api("Missing auth_token in response".to_string())
    );
    assert_eq!(
        read_auth_token(400, "400 Bad Request", Some("bad code")).unwrap_err(),
        YuchiError::Api(
            "Failed to exchange one-time code with status: 400 Bad Request. Response: bad code".to_string()
        )
    );
    match read_auth_token(200, "200 OK", Some("<html>")) {
        Err(YuchiError::Api(m)) => assert!(m.starts_with("Failed to parse auth token response: ")),
        other => panic!("unexpected {:?}", other),
    }
}

#[test]
fn models_and_urls() {
    assert_eq!(shape_model("bob"), "shapesinc/bob");
    assert_eq!(model_for(&Config::default(), None), "shapesinc/ariwa");
    assert_eq!(
        authorize_url(),
        "https://shapes.inc/authorize?app_id=3718bde3-c803-4bfc-b41b-3b5f0aa0ddd8"
    );
}

#[test]
fn image_links_are_found() {
    assert_eq!(
        find_image_url("Here: https://files.shapes.inc/abc.png and more").unwrap(),
        "https://files.shapes.inc/abc.png"
    );
    assert_eq!(
        find_image_url("x https://files.shapes.inc/ https://files.shapes.inc/q?x=1").unwrap(),
        "https://files.shapes.inc/q?x=1"
    );
    assert_eq!(
        find_image_url("https://example.com/a.png").unwrap_err(),
        YuchiError::Api("No valid image URL found in response".to_string())
    );
}

#[test]
fn image_file_names() {
    assert_eq!(image_file_name("1234"), "/sdcard/yuchi_image_1234.png");
    let name = new_image_file_name();
    assert!(name.starts_with("/sdcard/yuchi_image_") && name.ends_with(".png"));
    assert_eq!(name.len(), "/sdcard/yuchi_image_".len() + 36 + 4);
}

#[test]
fn error_texts() {
    assert_eq!(
        YuchiError::Config("x".to_string()).to_string(),
        "Configuration error: x"
    );
    assert_eq!(YuchiError::Image("y".to_string()).to_string(), "Image processing error: y");
    assert_eq!(
        YuchiError::Api("z".to_string()).duplicate(),
        YuchiError::Api("z".to_string())
    );
}

#[test]
fn data_url_from_encoded_text() {
    assert_eq!(
        yuchi::image::data_url("image/png", "AQID"),
        "data:image/png;base64,AQID"
    );
}
