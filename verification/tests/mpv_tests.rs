use cadence::CadenceError;
use cadence::mpv::{
    ConnectRetry, IpcCommand, MpvReply, PropertyValue, ReplyStep, RetryAction, SOCKET_CONNECT_MAX_ATTEMPTS,
    classify_reply, frame, mpv_args, on_reply_line, optional_property,
};

fn json_of(cmd: &IpcCommand) -> String {
    cmd.to_json().expect("encode command")
}

#[test]
fn commands_are_written_as_mpv_expects() {
    assert_eq!(
        json_of(&IpcCommand::load("https://example.invalid/does-not-exist.mp3")),
        r#"{"command":["loadfile","https://example.invalid/does-not-exist.mp3"]}"#
    );
    assert_eq!(json_of(&IpcCommand::stop()), r#"{"command":["stop"]}"#);
    assert_eq!(json_of(&IpcCommand::pause()), r#"{"command":["set_property","pause",true]}"#);
    assert_eq!(json_of(&IpcCommand::resume()), r#"{"command":["set_property","pause",false]}"#);
    assert_eq!(
        json_of(&IpcCommand::set_volume("42.0".to_string())),
        r#"{"command":["set_property","volume",42.0]}"#
    );
    assert_eq!(
        json_of(&IpcCommand::seek("12.5".to_string())),
        r#"{"command":["set_property","time-pos",12.5]}"#
    );
    assert_eq!(json_of(&IpcCommand::get_property("time-pos")), r#"{"command":["get_property","time-pos"]}"#);
}

fn command_value(args: Vec<serde_json::Value>) -> serde_json::Value {
    let mut map = serde_json::Map::new();
    map.insert("command".to_string(), serde_json::Value::Array(args));
    serde_json::Value::Object(map)
}

#[test]
fn commands_match_serde_json_for_the_same_value() {
    let url = "https://x/\"q\"\\p\n\t\u{1}é";
    let expected = command_value(vec![
        serde_json::Value::String("loadfile".to_string()),
        serde_json::Value::String(url.to_string()),
    ]);
    assert_eq!(json_of(&IpcCommand::load(url)), expected.to_string());
    let expected = command_value(vec![
        serde_json::Value::String("set_property".to_string()),
        serde_json::Value::String("pause".to_string()),
        serde_json::Value::Bool(true),
    ]);
    assert_eq!(json_of(&IpcCommand::pause()), expected.to_string());
}

#[test]
fn a_request_is_one_line() {
    let text = json_of(&IpcCommand::load("a\nb\r\nc"));
    assert!(!text.contains('\n'));
    let line = frame(&text);
    assert!(line.ends_with('\n'));
    assert_eq!(line.matches('\n').count(), 1);
    assert_eq!(&line[..line.len() - 1], text);
}

#[test]
fn events_are_skipped_until_the_reply() {
    let cmd = r#"{"command":["get_property","pause"]}"#;
    let line = "{\"event\":\"pause\"}\n";
    assert!(matches!(on_reply_line(cmd, line.len(), line), ReplyStep::KeepReading));
    let line = "{\"data\":true,\"request_id\":0,\"error\":\"success\"}\n";
    match on_reply_line(cmd, line.len(), line) {
        ReplyStep::Done(Ok(reply)) => {
            assert_eq!(reply.error.as_deref(), Some("success"));
            assert_eq!(reply.data_flag, Some(true));
            assert!(reply.flag());
            assert_eq!(reply.json["data"], serde_json::Value::Bool(true));
        }
        other => panic!("unexpected step {other:?}"),
    }
}

#[test]
fn a_failed_command_carries_its_text_and_message() {
    let cmd = r#"{"command":["get_property","time-pos"]}"#;
    let line = "{\"request_id\":0,\"error\":\"property unavailable\"}\n";
    match on_reply_line(cmd, line.len(), line) {
        ReplyStep::Done(Err(CadenceError::MpvCommand { command, message })) => {
            assert_eq!(command, cmd);
            assert_eq!(message, "property unavailable");
        }
        other => panic!("unexpected step {other:?}"),
    }
}

#[test]
fn a_closed_connection_or_bad_line_ends_the_wait() {
    assert!(matches!(
        on_reply_line("{}", 0, ""),
        ReplyStep::Done(Err(CadenceError::MpvConnectionClosed))
    ));
    assert!(matches!(
        on_reply_line("{}", 9, "not json\n"),
        ReplyStep::Done(Err(CadenceError::MpvSerialize(_)))
    ));
    let line = "{\"error\":5}\n";
    assert!(matches!(on_reply_line("{}", line.len(), line), ReplyStep::KeepReading));
}

#[test]
fn classify_reply_uses_only_the_error_member() {
    let reply = MpvReply { json: serde_json::Value::Null, error: None, data_flag: Some(true) };
    assert!(matches!(classify_reply("c", Ok(reply)), ReplyStep::KeepReading));
    let reply = MpvReply { json: serde_json::Value::Null, error: Some("success".to_string()), data_flag: None };
    assert!(matches!(classify_reply("c", Ok(reply)), ReplyStep::Done(Ok(_))));
    let reply = MpvReply { json: serde_json::Value::Null, error: Some("Success".to_string()), data_flag: None };
    assert!(matches!(classify_reply("c", Ok(reply)), ReplyStep::Done(Err(CadenceError::MpvCommand { .. }))));
}

#[test]
fn flag_is_false_unless_data_is_true() {
    let reply = |data_flag| MpvReply { json: serde_json::Value::Null, error: None, data_flag };
    assert!(!reply(None).flag());
    assert!(!reply(Some(false)).flag());
    assert!(reply(Some(true)).flag());
}

#[test]
fn unavailable_properties_read_as_none() {
    let unavailable = Err(CadenceError::MpvCommand {
        command: "c".to_string(),
        message: "property unavailable".to_string(),
    });
    assert!(matches!(optional_property(unavailable), Ok(None)));
    let other = Err(CadenceError::MpvCommand { command: "c".to_string(), message: "invalid parameter".to_string() });
    assert!(matches!(optional_property(other), Err(CadenceError::MpvCommand { .. })));
    assert!(matches!(optional_property(Err(CadenceError::MpvConnectionClosed)), Err(CadenceError::MpvConnectionClosed)));
    let reply = MpvReply { json: serde_json::from_str("{\"data\": 3.5}").unwrap(), error: Some("success".to_string()), data_flag: None };
    match optional_property(Ok(reply)) {
        Ok(Some(r)) => assert_eq!(r.json["data"].as_f64(), Some(3.5)),
        other => panic!("unexpected {other:?}"),
    }
}

#[test]
fn mpv_is_started_idle_without_video() {
    assert_eq!(
        mpv_args("/tmp/cadence-mpv.sock"),
        vec!["--idle=yes", "--no-video", "--really-quiet", "--input-ipc-server=/tmp/cadence-mpv.sock"]
    );
}

#[test]
fn socket_wait_gives_up_after_fifty_attempts() {
    let mut retry = ConnectRetry::new();
    for _ in 1..SOCKET_CONNECT_MAX_ATTEMPTS {
        assert_eq!(retry.on_failure(), RetryAction::RetryAfter(100));
    }
    assert_eq!(retry.on_failure(), RetryAction::GiveUpAfter(100));
    assert_eq!(SOCKET_CONNECT_MAX_ATTEMPTS, 50);
}

#[test]
fn property_values_compare() {
    assert_eq!(PropertyValue::Flag(true), PropertyValue::Flag(true));
    assert_ne!(IpcCommand::pause(), IpcCommand::resume());
}
