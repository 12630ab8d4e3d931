use ama::Config;
use ama::ConfigError;
use ama::Stage;
use ama::default_port;
use ama::default_stage;
use ama::modal::ModalError;
use ama::modal::RequestBody;
use ama::modal::decide_modal_response;
use ama::BootstrapError;
use ama::SocketMode;

#[test]
fn config_accepts_non_empty_credentials() {
    let c = Config::new(
        50051,
        Stage::Dev,
        "bot".to_string(),
        "socket".to_string(),
        "chan".to_string(),
    )
    .expect("all credentials given");
    assert_eq!(c.port, 50051);
    assert!(c.stage.is_dev());
    assert_eq!(c.slack_bot_token, "bot");
    assert_eq!(c.slack_bot_socket_mode_token, "socket");
    assert_eq!(c.slack_bot_channel_id, "chan");
}

#[test]
fn config_names_the_first_empty_credential() {
    let e1 = Config::new(1, Stage::Local, "".into(), "s".into(), "c".into()).unwrap_err();
    assert_eq!(e1, ConfigError::EmptyBotToken);
    assert_eq!(e1.setting_name(), "SLACK_BOT_TOKEN");
    let e2 = Config::new(1, Stage::Local, "b".into(), "".into(), "c".into()).unwrap_err();
    assert_eq!(e2, ConfigError::EmptySocketModeToken);
    let e3 = Config::new(1, Stage::Local, "b".into(), "s".into(), "".into()).unwrap_err();
    assert_eq!(e3, ConfigError::EmptyChannelId);
}

#[test]
fn defaults_are_the_documented_ones() {
    assert_eq!(default_port(), 50051);
    assert_eq!(default_stage(), Stage::Local);
    assert!(default_stage().is_local());
    assert!(!default_stage().is_prod());
}

#[test]
fn create_user_modal_builds_the_documented_wire_shape() {
    let body = RequestBody::new_create_user_modal("T-77");
    let json = body.to_json();
    let v: serde_json::Value = serde_json::from_str(&json).expect("request body is JSON");
    assert_eq!(v.get("trigger_id").and_then(|x| x.as_str()), Some("T-77"));
    let view = v.get("view").expect("view");
    assert_eq!(view.get("type").and_then(|x| x.as_str()), Some("modal"));
    let title = view.get("title").unwrap();
    assert_eq!(title.get("type").and_then(|x| x.as_str()), Some("plain_text"));
    assert_eq!(title.get("text").and_then(|x| x.as_str()), Some("Create User"));
    let blocks = view.get("blocks").and_then(|b| b.as_array()).expect("blocks");
    assert_eq!(blocks.len(), 2);
    assert_eq!(blocks[0].get("block_id").and_then(|x| x.as_str()), Some("email"));
    assert_eq!(blocks[0].get("type").and_then(|x| x.as_str()), Some("input"));
    let element = blocks[0].get("element").unwrap();
    assert_eq!(element.get("action_id").and_then(|x| x.as_str()), Some("action_email"));
    assert_eq!(element.get("type").and_then(|x| x.as_str()), Some("plain_text_input"));
    assert_eq!(
        element.get("placeholder").and_then(|p| p.get("text")).and_then(|x| x.as_str()),
        Some("Enter an email"),
    );
    assert_eq!(blocks[1].get("block_id").and_then(|x| x.as_str()), Some("password"));
    assert_eq!(view.get("submit").and_then(|s| s.get("text")).and_then(|x| x.as_str()), Some("submit"));
    assert_eq!(view.get("close").and_then(|s| s.get("text")).and_then(|x| x.as_str()), Some("cancel"));
}

#[test]
fn block_builder_derives_the_action_id() {
    let b = RequestBody::new_block("age", "Your age", "Digits only");
    assert_eq!(b.id, "age");
    assert_eq!(b.detail.id, "action_age");
    assert_eq!(b.content.content, "Your age");
    assert_eq!(b.detail.detail.content, "Digits only");
}

#[test]
fn modal_response_failure_shape_carries_the_message() {
    let r = decide_modal_response("{\"ok\":false,\"error_message\":\"bad trigger\"}");
    match r {
        Err(ModalError::Failed { message }) => assert_eq!(message, "bad trigger"),
        other => panic!("expected the failure shape, got {:?}", other),
    }
}

#[test]
fn modal_response_success_shape_yields_the_ids() {
    let r = decide_modal_response(
        "{\"ok\":true,\"view\":{\"id\":\"V99\",\"callback_id\":\"CB7\"}}",
    );
    let p = r.expect("success shape");
    assert_eq!(p.id, "V99");
    assert_eq!(p.callback_id, "CB7");
}

#[test]
fn modal_response_garbage_is_unparsable() {
    assert!(matches!(
        decide_modal_response("not json at all"),
        Err(ModalError::UnparsableResponse)
    ));
    assert!(matches!(
        decide_modal_response("{\"ok\":true}"),
        Err(ModalError::UnparsableResponse)
    ));
}

#[test]
fn bootstrap_response_yields_the_connection_url() {
    let sm = SocketMode::from_response("{\"url\":\"wss://example.com/link/abc\"}")
        .expect("a url field makes a socket mode");
    assert_eq!(sm.url, "wss://example.com/link/abc");
}

#[test]
fn bootstrap_url_is_normalised_not_echoed() {
    // The URL library lowercases the host and completes the path, so
    // the stored URL differs from the raw field text.
    let sm = SocketMode::from_response("{\"url\":\"wss://EXAMPLE.com\"}").expect("valid url");
    assert_eq!(sm.url, "wss://example.com/");
}

#[test]
fn bootstrap_response_without_url_fails() {
    assert!(matches!(
        SocketMode::from_response("{\"ok\":false}"),
        Err(BootstrapError::MissingUrl)
    ));
    assert!(matches!(
        SocketMode::from_response("no json"),
        Err(BootstrapError::MissingUrl)
    ));
    assert!(matches!(
        SocketMode::from_response("{\"url\":\"not a url\"}"),
        Err(BootstrapError::InvalidUrl)
    ));
}
