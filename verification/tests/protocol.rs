use serde_json::{Number, Value};
use tcp_protocol::framing::{frame, split_frames};
use tcp_protocol::text::str_eq;
use tcp_protocol::{
    ClientKind, ClientMessage, DecodeError, FakeKeyActionMessage, ServerKind, ServerMessage,
    ServerResponse,
};

fn text(s: &str) -> String {
    s.to_string()
}

fn payload_of(line: &[u8]) -> &[u8] {
    assert_eq!(line.last(), Some(&b'\n'));
    &line[..line.len() - 1]
}

fn payload_text(line: &[u8]) -> String {
    String::from_utf8(payload_of(line).to_vec()).unwrap()
}

fn all_client_messages(session_id: Option<String>) -> Vec<ClientMessage> {
    vec![
        ClientMessage::Authenticate { token: text("secret"), client_name: Some(text("cli")) },
        ClientMessage::Authenticate { token: text("secret"), client_name: None },
        ClientMessage::ChangeLayer { new: text("qwerty"), session_id: session_id.clone() },
        ClientMessage::RequestLayerNames { session_id: session_id.clone() },
        ClientMessage::RequestCurrentLayerInfo { session_id: session_id.clone() },
        ClientMessage::RequestCurrentLayerName { session_id: session_id.clone() },
        ClientMessage::ActOnFakeKey {
            name: text("macro1"),
            action: FakeKeyActionMessage::Toggle,
            session_id: session_id.clone(),
        },
        ClientMessage::SetMouse { x: 0, y: 65535, session_id: session_id.clone() },
        ClientMessage::Reload { session_id: session_id.clone() },
        ClientMessage::ReloadNext { session_id: session_id.clone() },
        ClientMessage::ReloadPrev { session_id: session_id.clone() },
        ClientMessage::ReloadNum { index: 3, session_id: session_id.clone() },
        ClientMessage::ReloadFile { path: text("/etc/kbd.cfg"), session_id },
    ]
}

fn sample_push() -> Value {
    let mut inner = serde_json::Map::new();
    inner.insert(text("zeta"), Value::from(1.5));
    inner.insert(text("alpha"), Value::Array(vec![Value::Null, Value::Bool(true), Value::from(-7)]));
    Value::Object(inner)
}

fn all_server_messages() -> Vec<ServerMessage> {
    vec![
        ServerMessage::LayerChange { new: text("nav") },
        ServerMessage::LayerNames { names: vec![text("base"), text("nav"), text("sym")] },
        ServerMessage::LayerNames { names: vec![] },
        ServerMessage::CurrentLayerInfo { name: text("base"), cfg_text: text("(deflayer base)\n") },
        ServerMessage::ConfigFileReload { new: text("kbd.cfg") },
        ServerMessage::CurrentLayerName { name: text("base") },
        ServerMessage::MessagePush { message: sample_push() },
        ServerMessage::MessagePush { message: Value::Null },
        ServerMessage::Error { msg: text("unknown layer") },
        ServerMessage::AuthResult {
            success: true,
            session_id: Some(text("s-1")),
            expires_in_seconds: Some(3600),
        },
        ServerMessage::AuthResult { success: false, session_id: None, expires_in_seconds: None },
        ServerMessage::AuthRequired,
        ServerMessage::SessionExpired,
    ]
}

fn nested_arrays(depth: usize) -> Value {
    let mut value = Value::Array(vec![]);
    for _ in 1..depth {
        value = Value::Array(vec![value]);
    }
    value
}

#[test]
fn test_server_response_json_format() {
    assert_eq!(
        serde_json::to_string(&ServerResponse::Okay.to_value()).unwrap(),
        r#"{"status":"Ok"}"#
    );
    assert_eq!(
        serde_json::to_string(&ServerResponse::Error { msg: "test".to_string() }.to_value())
            .unwrap(),
        r#"{"status":"Error","msg":"test"}"#
    );
}

#[test]
fn test_as_bytes_includes_newline() {
    let response = ServerResponse::Okay;
    let bytes = response.as_bytes();
    assert!(bytes.ends_with(b"\n"), "Response should end with newline");

    let error_response = ServerResponse::Error { msg: "test".to_string() };
    let error_bytes = error_response.as_bytes();
    assert!(error_bytes.ends_with(b"\n"), "Error response should end with newline");
}

#[test]
fn response_ok_encodes_to_the_literal_line() {
    assert_eq!(ServerResponse::Okay.as_bytes(), b"{\"status\":\"Ok\"}\n".to_vec());
}

#[test]
fn response_error_encodes_to_the_literal_line() {
    assert_eq!(
        ServerResponse::Error { msg: text("test") }.as_bytes(),
        b"{\"status\":\"Error\",\"msg\":\"test\"}\n".to_vec()
    );
}

#[test]
fn change_layer_with_session_round_trips() {
    let message = ClientMessage::ChangeLayer { new: text("qwerty"), session_id: Some(text("abc")) };
    let line = message.as_bytes();
    let encoded = payload_text(&line);
    assert!(encoded.contains(r#""new":"qwerty""#));
    assert!(encoded.contains(r#""session_id":"abc""#));
    assert_eq!(encoded, r#"{"ChangeLayer":{"new":"qwerty","session_id":"abc"}}"#);
    assert_eq!(ClientMessage::decode(payload_of(&line)), Ok(message));
}

#[test]
fn reload_without_session_omits_the_key() {
    let message = ClientMessage::Reload { session_id: None };
    let line = message.as_bytes();
    let encoded = payload_text(&line);
    assert!(!encoded.contains("session_id"));
    assert!(!encoded.contains("null"));
    assert_eq!(encoded, r#"{"Reload":{}}"#);
    assert_eq!(
        ClientMessage::decode(payload_of(&line)),
        Ok(ClientMessage::Reload { session_id: None })
    );
}

#[test]
fn empty_object_is_rejected_by_every_type() {
    assert_eq!(ClientMessage::decode(b"{}"), Err(DecodeError::MissingTag));
    assert_eq!(ServerMessage::decode(b"{}"), Err(DecodeError::MissingTag));
    assert_eq!(ServerResponse::decode(b"{}"), Err(DecodeError::MissingTag));
}

#[test]
fn failed_auth_result_round_trips_without_optional_fields() {
    let message =
        ServerMessage::AuthResult { success: false, session_id: None, expires_in_seconds: None };
    let line = message.as_bytes();
    let encoded = payload_text(&line);
    assert_eq!(encoded, r#"{"AuthResult":{"success":false}}"#);
    assert!(!encoded.contains("session_id"));
    assert!(!encoded.contains("expires_in_seconds"));
    assert_eq!(ServerMessage::decode(payload_of(&line)), Ok(message));
}

#[test]
fn every_client_message_round_trips() {
    for session_id in [None, Some(text("abc")), Some(text(""))] {
        for message in all_client_messages(session_id) {
            let line = message.as_bytes();
            assert_eq!(ClientMessage::decode(payload_of(&line)), Ok(message.clone()));
            assert_eq!(ClientMessage::from_value(&message.to_value()), Ok(message));
        }
    }
}

#[test]
fn every_server_message_round_trips() {
    for message in all_server_messages() {
        let line = message.as_bytes();
        assert_eq!(ServerMessage::decode(payload_of(&line)), Ok(message.clone()));
        assert_eq!(ServerMessage::from_value(&message.to_value()), Ok(message));
    }
}

#[test]
fn every_server_response_round_trips() {
    for response in [ServerResponse::Okay, ServerResponse::Error { msg: text("no such layer") }] {
        let line = response.as_bytes();
        assert_eq!(ServerResponse::decode(payload_of(&line)), Ok(response.clone()));
        assert_eq!(ServerResponse::from_value(&response.to_value()), Ok(response));
    }
}

#[test]
fn every_fake_key_action_round_trips() {
    for action in [
        FakeKeyActionMessage::Press,
        FakeKeyActionMessage::Release,
        FakeKeyActionMessage::Tap,
        FakeKeyActionMessage::Toggle,
    ] {
        assert_eq!(action.to_value(), Value::String(action.name().to_string()));
        assert_eq!(FakeKeyActionMessage::from_value(&action.to_value()), Ok(action));
        assert_eq!(FakeKeyActionMessage::from_name(action.name()), Some(action));
    }
    assert_eq!(FakeKeyActionMessage::Press.name(), "Press");
    assert_eq!(FakeKeyActionMessage::Release.name(), "Release");
    assert_eq!(FakeKeyActionMessage::Tap.name(), "Tap");
    assert_eq!(FakeKeyActionMessage::Toggle.name(), "Toggle");
    assert_eq!(FakeKeyActionMessage::from_name("press"), None);
}

#[test]
fn client_messages_have_their_exact_wire_text() {
    let expected = [
        r#"{"Authenticate":{"token":"secret","client_name":"cli"}}"#,
        r#"{"Authenticate":{"token":"secret"}}"#,
        r#"{"ChangeLayer":{"new":"qwerty","session_id":"abc"}}"#,
        r#"{"RequestLayerNames":{"session_id":"abc"}}"#,
        r#"{"RequestCurrentLayerInfo":{"session_id":"abc"}}"#,
        r#"{"RequestCurrentLayerName":{"session_id":"abc"}}"#,
        r#"{"ActOnFakeKey":{"name":"macro1","action":"Toggle","session_id":"abc"}}"#,
        r#"{"SetMouse":{"x":0,"y":65535,"session_id":"abc"}}"#,
        r#"{"Reload":{"session_id":"abc"}}"#,
        r#"{"ReloadNext":{"session_id":"abc"}}"#,
        r#"{"ReloadPrev":{"session_id":"abc"}}"#,
        r#"{"ReloadNum":{"index":3,"session_id":"abc"}}"#,
        r#"{"ReloadFile":{"path":"/etc/kbd.cfg","session_id":"abc"}}"#,
    ];
    let messages = all_client_messages(Some(text("abc")));
    assert_eq!(messages.len(), expected.len());
    for (message, text) in messages.iter().zip(expected) {
        assert_eq!(payload_text(&message.as_bytes()), text);
    }
}

#[test]
fn server_messages_have_their_exact_wire_text() {
    let expected = [
        r#"{"LayerChange":{"new":"nav"}}"#,
        r#"{"LayerNames":{"names":["base","nav","sym"]}}"#,
        r#"{"LayerNames":{"names":[]}}"#,
        r#"{"CurrentLayerInfo":{"name":"base","cfg_text":"(deflayer base)\n"}}"#,
        r#"{"ConfigFileReload":{"new":"kbd.cfg"}}"#,
        r#"{"CurrentLayerName":{"name":"base"}}"#,
        r#"{"MessagePush":{"message":{"zeta":1.5,"alpha":[null,true,-7]}}}"#,
        r#"{"MessagePush":{"message":null}}"#,
        r#"{"Error":{"msg":"unknown layer"}}"#,
        r#"{"AuthResult":{"success":true,"session_id":"s-1","expires_in_seconds":3600}}"#,
        r#"{"AuthResult":{"success":false}}"#,
        r#""AuthRequired""#,
        r#""SessionExpired""#,
    ];
    let messages = all_server_messages();
    assert_eq!(messages.len(), expected.len());
    for (message, text) in messages.iter().zip(expected) {
        assert_eq!(payload_text(&message.as_bytes()), text);
    }
}

#[test]
fn unknown_discriminators_are_rejected() {
    assert_eq!(ClientMessage::decode(br#"{"Shutdown":{}}"#), Err(DecodeError::UnknownVariant));
    assert_eq!(ClientMessage::decode(br#"{"reload":{}}"#), Err(DecodeError::UnknownVariant));
    assert_eq!(ClientMessage::decode(br#""Shutdown""#), Err(DecodeError::UnknownVariant));
    assert_eq!(ClientMessage::decode(br#"{"":{}}"#), Err(DecodeError::UnknownVariant));
    assert_eq!(ServerMessage::decode(br#"{"LayerGone":{"new":"x"}}"#), Err(DecodeError::UnknownVariant));
    assert_eq!(ServerMessage::decode(br#""AuthOptional""#), Err(DecodeError::UnknownVariant));
    assert_eq!(ServerResponse::decode(br#"{"status":"Maybe"}"#), Err(DecodeError::UnknownVariant));
    assert_eq!(ServerResponse::decode(br#"{"status":"ok"}"#), Err(DecodeError::UnknownVariant));
    assert_eq!(
        FakeKeyActionMessage::from_value(&Value::String(text("Hold"))),
        Err(DecodeError::UnknownVariant)
    );
    assert_eq!(
        ClientMessage::decode(br#"{"ActOnFakeKey":{"name":"k","action":"Hold"}}"#),
        Err(DecodeError::UnknownVariant)
    );
}

#[test]
fn kinds_and_names_correspond() {
    let client = [
        (ClientKind::Authenticate, "Authenticate"),
        (ClientKind::ChangeLayer, "ChangeLayer"),
        (ClientKind::RequestLayerNames, "RequestLayerNames"),
        (ClientKind::RequestCurrentLayerInfo, "RequestCurrentLayerInfo"),
        (ClientKind::RequestCurrentLayerName, "RequestCurrentLayerName"),
        (ClientKind::ActOnFakeKey, "ActOnFakeKey"),
        (ClientKind::SetMouse, "SetMouse"),
        (ClientKind::Reload, "Reload"),
        (ClientKind::ReloadNext, "ReloadNext"),
        (ClientKind::ReloadPrev, "ReloadPrev"),
        (ClientKind::ReloadNum, "ReloadNum"),
        (ClientKind::ReloadFile, "ReloadFile"),
    ];
    for (kind, name) in client {
        assert_eq!(kind.name(), name);
        assert_eq!(ClientKind::from_name(name), Some(kind));
    }
    assert_eq!(ClientKind::from_name("Reloaded"), None);
    assert_eq!(ClientKind::from_name(""), None);
    let server = [
        (ServerKind::LayerChange, "LayerChange", false),
        (ServerKind::LayerNames, "LayerNames", false),
        (ServerKind::CurrentLayerInfo, "CurrentLayerInfo", false),
        (ServerKind::ConfigFileReload, "ConfigFileReload", false),
        (ServerKind::CurrentLayerName, "CurrentLayerName", false),
        (ServerKind::MessagePush, "MessagePush", false),
        (ServerKind::Error, "Error", false),
        (ServerKind::AuthResult, "AuthResult", false),
        (ServerKind::AuthRequired, "AuthRequired", true),
        (ServerKind::SessionExpired, "SessionExpired", true),
    ];
    for (kind, name, unit) in server {
        assert_eq!(kind.name(), name);
        assert_eq!(ServerKind::from_name(name), Some(kind));
        assert_eq!(kind.has_no_fields(), unit);
    }
    assert_eq!(ServerKind::from_name("Authenticate"), None);
    for message in all_client_messages(None) {
        let encoded = payload_text(&message.as_bytes());
        assert!(encoded.starts_with(&format!("{{\"{}\":", message.kind().name())));
    }
    for message in all_server_messages() {
        let encoded = payload_text(&message.as_bytes());
        assert!(encoded.contains(message.kind().name()));
    }
}

#[test]
fn values_without_a_discriminator_are_rejected() {
    for input in [&b"[]"[..], b"17", b"null", b"true", br#"{"Reload":{},"ReloadNext":{}}"#] {
        assert_eq!(ClientMessage::decode(input), Err(DecodeError::MissingTag));
        assert_eq!(ServerMessage::decode(input), Err(DecodeError::MissingTag));
        assert_eq!(ServerResponse::decode(input), Err(DecodeError::MissingTag));
    }
    assert_eq!(ServerResponse::decode(br#""Ok""#), Err(DecodeError::MissingTag));
    assert_eq!(ServerResponse::decode(br#"{"msg":"x"}"#), Err(DecodeError::MissingTag));
    assert_eq!(FakeKeyActionMessage::from_value(&Value::Null), Err(DecodeError::MissingTag));
}

#[test]
fn malformed_text_is_a_syntax_error() {
    for input in [&b""[..], b"{", br#"{"Reload":{}"#, br#"{"Reload":{}} x"#, b"\xff", b"nul"] {
        assert_eq!(ClientMessage::decode(input), Err(DecodeError::Syntax));
        assert_eq!(ServerMessage::decode(input), Err(DecodeError::Syntax));
        assert_eq!(ServerResponse::decode(input), Err(DecodeError::Syntax));
    }
}

#[test]
fn missing_required_fields_are_rejected() {
    assert_eq!(ClientMessage::decode(br#"{"ChangeLayer":{}}"#), Err(DecodeError::MissingField));
    assert_eq!(
        ClientMessage::decode(br#"{"ChangeLayer":{"session_id":"abc"}}"#),
        Err(DecodeError::MissingField)
    );
    assert_eq!(
        ClientMessage::decode(br#"{"Authenticate":{"client_name":"cli"}}"#),
        Err(DecodeError::MissingField)
    );
    assert_eq!(
        ClientMessage::decode(br#"{"ActOnFakeKey":{"name":"k"}}"#),
        Err(DecodeError::MissingField)
    );
    assert_eq!(ClientMessage::decode(br#"{"SetMouse":{"x":1}}"#), Err(DecodeError::MissingField));
    assert_eq!(ClientMessage::decode(br#"{"ReloadNum":{}}"#), Err(DecodeError::MissingField));
    assert_eq!(ClientMessage::decode(br#"{"ReloadFile":{}}"#), Err(DecodeError::MissingField));
    assert_eq!(ServerMessage::decode(br#"{"LayerNames":{}}"#), Err(DecodeError::MissingField));
    assert_eq!(
        ServerMessage::decode(br#"{"CurrentLayerInfo":{"name":"base"}}"#),
        Err(DecodeError::MissingField)
    );
    assert_eq!(ServerMessage::decode(br#"{"MessagePush":{}}"#), Err(DecodeError::MissingField));
    assert_eq!(
        ServerMessage::decode(br#"{"AuthResult":{"session_id":"s"}}"#),
        Err(DecodeError::MissingField)
    );
    assert_eq!(ServerResponse::decode(br#"{"status":"Error"}"#), Err(DecodeError::MissingField));
}

#[test]
fn values_of_the_wrong_kind_are_rejected() {
    let client: [&[u8]; 14] = [
        br#"{"ChangeLayer":{"new":7}}"#,
        br#"{"ChangeLayer":{"new":null}}"#,
        br#"{"ChangeLayer":{"new":"x","session_id":7}}"#,
        br#"{"ChangeLayer":["x","abc"]}"#,
        br#"{"ChangeLayer":null}"#,
        br#""Reload""#,
        br#"{"SetMouse":{"x":65536,"y":0}}"#,
        br#"{"SetMouse":{"x":-1,"y":0}}"#,
        br#"{"SetMouse":{"x":1.0,"y":0}}"#,
        br#"{"SetMouse":{"x":"1","y":0}}"#,
        br#"{"ReloadNum":{"index":-3}}"#,
        br#"{"ReloadNum":{"index":18446744073709551616}}"#,
        br#"{"ActOnFakeKey":{"name":"k","action":{"Tap":{}}}}"#,
        br#"{"Authenticate":{"token":"t","client_name":false}}"#,
    ];
    for input in client {
        assert_eq!(ClientMessage::decode(input), Err(DecodeError::InvalidType));
    }
    let server: [&[u8]; 8] = [
        br#"{"LayerNames":{"names":"base"}}"#,
        br#"{"LayerNames":{"names":["base",1]}}"#,
        br#"{"AuthResult":{"success":"yes"}}"#,
        br#"{"AuthResult":{"success":true,"expires_in_seconds":"soon"}}"#,
        br#"{"AuthResult":{"success":true,"expires_in_seconds":-1}}"#,
        br#"{"AuthRequired":{}}"#,
        br#""LayerChange""#,
        br#"{"Error":"msg"}"#,
    ];
    for input in server {
        assert_eq!(ServerMessage::decode(input), Err(DecodeError::InvalidType));
    }
    assert_eq!(ServerResponse::decode(br#"{"status":1}"#), Err(DecodeError::InvalidType));
    assert_eq!(
        ServerResponse::decode(br#"{"status":"Error","msg":[]}"#),
        Err(DecodeError::InvalidType)
    );
    assert_eq!(
        FakeKeyActionMessage::from_value(&Value::Array(vec![])),
        Err(DecodeError::MissingTag)
    );
}

#[test]
fn the_first_failure_is_the_one_reported() {
    assert_eq!(
        ClientMessage::decode(br#"{"SetMouse":{"x":"a","session_id":1}}"#),
        Err(DecodeError::InvalidType)
    );
    assert_eq!(
        ClientMessage::decode(br#"{"SetMouse":{"y":"a","session_id":1}}"#),
        Err(DecodeError::MissingField)
    );
    assert_eq!(
        ClientMessage::decode(br#"{"Nope":7}"#),
        Err(DecodeError::UnknownVariant)
    );
}

#[test]
fn null_and_absent_are_both_not_provided() {
    assert_eq!(
        ClientMessage::decode(br#"{"Reload":{"session_id":null}}"#),
        Ok(ClientMessage::Reload { session_id: None })
    );
    assert_eq!(
        ClientMessage::decode(br#"{"Authenticate":{"token":"t","client_name":null}}"#),
        Ok(ClientMessage::Authenticate { token: text("t"), client_name: None })
    );
    assert_eq!(
        ServerMessage::decode(
            br#"{"AuthResult":{"success":false,"session_id":null,"expires_in_seconds":null}}"#
        ),
        Ok(ServerMessage::AuthResult { success: false, session_id: None, expires_in_seconds: None })
    );
    assert_eq!(
        ServerMessage::decode(br#"{"AuthRequired":null}"#),
        Ok(ServerMessage::AuthRequired)
    );
    assert_eq!(
        ClientMessage::decode(br#"{"ActOnFakeKey":{"name":"k","action":{"Tap":null}}}"#),
        Ok(ClientMessage::ActOnFakeKey {
            name: text("k"),
            action: FakeKeyActionMessage::Tap,
            session_id: None
        })
    );
}

#[test]
fn unknown_members_and_whitespace_are_passed_over() {
    assert_eq!(
        ClientMessage::decode(b" { \"ChangeLayer\" : { \"extra\" : [1, 2], \"new\" : \"nav\" } } "),
        Ok(ClientMessage::ChangeLayer { new: text("nav"), session_id: None })
    );
    assert_eq!(
        ServerResponse::decode(br#"{"msg":"late","note":1,"status":"Error"}"#),
        Ok(ServerResponse::Error { msg: text("late") })
    );
    assert_eq!(
        ServerResponse::decode(br#"{"status":"Ok","msg":7}"#),
        Ok(ServerResponse::Okay)
    );
}

#[test]
fn lenient_auth_results_are_carried_as_they_are() {
    let odd = ServerMessage::AuthResult {
        success: false,
        session_id: Some(text("left-over")),
        expires_in_seconds: None,
    };
    assert!(!odd.is_consistent());
    let line = odd.as_bytes();
    assert_eq!(
        payload_text(&line),
        r#"{"AuthResult":{"success":false,"session_id":"left-over"}}"#
    );
    assert_eq!(ServerMessage::decode(payload_of(&line)), Ok(odd));
    let odd = ServerMessage::AuthResult {
        success: true,
        session_id: None,
        expires_in_seconds: Some(u64::MAX),
    };
    assert!(!odd.is_consistent());
    let line = odd.as_bytes();
    assert_eq!(
        payload_text(&line),
        r#"{"AuthResult":{"success":true,"expires_in_seconds":18446744073709551615}}"#
    );
    assert_eq!(ServerMessage::decode(payload_of(&line)), Ok(odd));
}

#[test]
fn auth_replies_are_built_consistent() {
    let granted = ServerMessage::auth_granted(text("s-9"), 60);
    assert_eq!(
        granted,
        ServerMessage::AuthResult {
            success: true,
            session_id: Some(text("s-9")),
            expires_in_seconds: Some(60)
        }
    );
    assert!(granted.is_consistent());
    assert!(!granted.is_authentication_error());
    let denied = ServerMessage::auth_denied();
    assert_eq!(
        denied,
        ServerMessage::AuthResult { success: false, session_id: None, expires_in_seconds: None }
    );
    assert!(denied.is_consistent());
    assert!(denied.is_authentication_error());
    assert!(ServerMessage::AuthRequired.is_authentication_error());
    assert!(ServerMessage::SessionExpired.is_authentication_error());
    assert!(!ServerMessage::Error { msg: text("x") }.is_authentication_error());
    assert!(ServerMessage::Error { msg: text("x") }.is_consistent());
}

#[test]
fn session_tokens_are_carried_untouched() {
    for token in ["", "abc", "with \"quotes\" and \\ and \n newline", "\u{1F511} clé"] {
        let message = ClientMessage::Reload { session_id: Some(text(token)) };
        assert_eq!(message.session_id(), Some(&text(token)));
        let line = message.as_bytes();
        assert_eq!(ClientMessage::decode(payload_of(&line)), Ok(message));
    }
    let authenticate = ClientMessage::Authenticate { token: text("t"), client_name: None };
    assert_eq!(authenticate.session_id(), None);
    for message in all_client_messages(None) {
        assert_eq!(message.session_id(), None);
    }
    for message in all_client_messages(Some(text("abc"))) {
        let expected = if message.kind() == ClientKind::Authenticate { None } else { Some(text("abc")) };
        assert_eq!(message.session_id().cloned(), expected);
    }
}

#[test]
fn with_session_id_replaces_the_token_only() {
    let request = ClientMessage::ChangeLayer { new: text("nav"), session_id: None };
    assert_eq!(
        request.with_session_id(Some(text("s-1"))),
        ClientMessage::ChangeLayer { new: text("nav"), session_id: Some(text("s-1")) }
    );
    let request = ClientMessage::SetMouse { x: 1, y: 2, session_id: Some(text("old")) };
    assert_eq!(
        request.with_session_id(None),
        ClientMessage::SetMouse { x: 1, y: 2, session_id: None }
    );
    let authenticate = ClientMessage::Authenticate { token: text("t"), client_name: Some(text("c")) };
    assert_eq!(authenticate.clone().with_session_id(Some(text("s-1"))), authenticate);
    for message in all_client_messages(None) {
        let kind = message.kind();
        let stamped = message.with_session_id(Some(text("s-2")));
        assert_eq!(stamped.kind(), kind);
        if kind != ClientKind::Authenticate {
            assert_eq!(stamped.session_id(), Some(&text("s-2")));
        }
    }
}

#[test]
fn policy_asks_for_a_token_on_every_request_but_authenticate() {
    for message in all_client_messages(None) {
        assert!(message.meets_policy(false));
        assert_eq!(message.meets_policy(true), message.kind() == ClientKind::Authenticate);
    }
    for message in all_client_messages(Some(text("abc"))) {
        assert!(message.meets_policy(false));
        assert!(message.meets_policy(true));
    }
}

#[test]
fn payloads_never_hold_a_newline() {
    let tricky = "line one\nline two\r\n\ttabbed \u{0} \u{1f} \u{7f} \u{2028}";
    let lines = [
        ClientMessage::ChangeLayer { new: text(tricky), session_id: Some(text(tricky)) }.as_bytes(),
        ServerMessage::CurrentLayerInfo { name: text(tricky), cfg_text: text(tricky) }.as_bytes(),
        ServerMessage::MessagePush { message: Value::String(text(tricky)) }.as_bytes(),
        ServerMessage::LayerNames { names: vec![text("\n"), text("\n\n")] }.as_bytes(),
        ServerResponse::Error { msg: text(tricky) }.as_bytes(),
    ];
    for line in lines {
        assert_eq!(line.iter().filter(|&&b| b == b'\n').count(), 1);
        assert_eq!(line.last(), Some(&b'\n'));
    }
    let message = ServerMessage::CurrentLayerInfo { name: text(tricky), cfg_text: text(tricky) };
    assert_eq!(ServerMessage::decode(payload_of(&message.as_bytes())), Ok(message));
}

#[test]
fn two_messages_on_a_stream_are_split_and_decoded_in_order() {
    let first = ClientMessage::ChangeLayer { new: text("nav"), session_id: Some(text("abc")) };
    let second = ClientMessage::Reload { session_id: None };
    let mut stream = first.as_bytes();
    stream.extend(second.as_bytes());
    let (payloads, rest) = split_frames(&stream);
    assert_eq!(payloads.len(), 2);
    assert!(rest.is_empty());
    assert_eq!(ClientMessage::decode(&payloads[0]), Ok(first));
    assert_eq!(ClientMessage::decode(&payloads[1]), Ok(second));

    let first = ServerMessage::LayerChange { new: text("nav") };
    let second = ServerMessage::AuthRequired;
    let mut stream = first.as_bytes();
    stream.extend(second.as_bytes());
    let (payloads, rest) = split_frames(&stream);
    assert_eq!(payloads.len(), 2);
    assert!(rest.is_empty());
    assert_eq!(ServerMessage::decode(&payloads[0]), Ok(first));
    assert_eq!(ServerMessage::decode(&payloads[1]), Ok(second));

    let first = ServerResponse::Okay;
    let second = ServerResponse::Error { msg: text("no") };
    let mut stream = first.as_bytes();
    stream.extend(second.as_bytes());
    let (payloads, rest) = split_frames(&stream);
    assert_eq!(payloads, vec![br#"{"status":"Ok"}"#.to_vec(), br#"{"status":"Error","msg":"no"}"#.to_vec()]);
    assert!(rest.is_empty());
    assert_eq!(ServerResponse::decode(&payloads[0]), Ok(first));
    assert_eq!(ServerResponse::decode(&payloads[1]), Ok(second));
}

#[test]
fn split_frames_keeps_a_partial_line_for_later() {
    assert_eq!(split_frames(b""), (vec![], vec![]));
    assert_eq!(split_frames(b"abc"), (vec![], b"abc".to_vec()));
    assert_eq!(split_frames(b"\n"), (vec![vec![]], vec![]));
    assert_eq!(split_frames(b"a\n\nbc\nd"), (vec![b"a".to_vec(), vec![], b"bc".to_vec()], b"d".to_vec()));
    let line = ClientMessage::ReloadNum { index: 12, session_id: None }.as_bytes();
    let (head, tail) = line.split_at(9);
    let (payloads, rest) = split_frames(head);
    assert!(payloads.is_empty());
    assert_eq!(rest, head.to_vec());
    let mut resumed = rest;
    resumed.extend_from_slice(tail);
    let (payloads, rest) = split_frames(&resumed);
    assert_eq!(payloads.len(), 1);
    assert!(rest.is_empty());
    assert_eq!(
        ClientMessage::decode(&payloads[0]),
        Ok(ClientMessage::ReloadNum { index: 12, session_id: None })
    );
}

#[test]
fn frame_appends_exactly_one_newline() {
    assert_eq!(frame(vec![]), b"\n".to_vec());
    assert_eq!(frame(b"{}".to_vec()), b"{}\n".to_vec());
    assert_eq!(split_frames(&frame(b"{}".to_vec())), (vec![b"{}".to_vec()], vec![]));
}

#[test]
fn from_str_reads_a_whole_line() {
    let parsed: Result<ClientMessage, DecodeError> = r#"{"ReloadNext":{"session_id":"s"}}"#.parse();
    assert_eq!(parsed, Ok(ClientMessage::ReloadNext { session_id: Some(text("s")) }));
    let parsed: Result<ClientMessage, DecodeError> = "{\"ReloadPrev\":{}}\n".parse();
    assert_eq!(parsed, Ok(ClientMessage::ReloadPrev { session_id: None }));
    let parsed: Result<ClientMessage, DecodeError> = "{}".parse();
    assert_eq!(parsed, Err(DecodeError::MissingTag));
    let parsed: Result<ClientMessage, DecodeError> = "not json".parse();
    assert_eq!(parsed, Err(DecodeError::Syntax));
}

#[test]
fn numbers_at_the_limits_round_trip() {
    let message = ClientMessage::SetMouse { x: u16::MAX, y: 0, session_id: None };
    assert_eq!(payload_text(&message.as_bytes()), r#"{"SetMouse":{"x":65535,"y":0}}"#);
    assert_eq!(ClientMessage::decode(payload_of(&message.as_bytes())), Ok(message));
    let message = ClientMessage::ReloadNum { index: usize::MAX, session_id: None };
    assert_eq!(
        payload_text(&message.as_bytes()),
        format!("{{\"ReloadNum\":{{\"index\":{}}}}}", usize::MAX)
    );
    assert_eq!(ClientMessage::decode(payload_of(&message.as_bytes())), Ok(message));
    assert_eq!(
        ClientMessage::decode(br#"{"ReloadNum":{"index":0}}"#),
        Ok(ClientMessage::ReloadNum { index: 0, session_id: None })
    );
}

#[test]
fn pushed_values_keep_their_shape_and_order() {
    let message = ServerMessage::MessagePush { message: sample_push() };
    let decoded = ServerMessage::decode(payload_of(&message.as_bytes())).unwrap();
    match decoded {
        ServerMessage::MessagePush { message } => {
            let members = message.as_object().unwrap();
            let keys: Vec<&String> = members.keys().collect();
            assert_eq!(keys, vec!["zeta", "alpha"]);
            assert_eq!(members["zeta"], Value::Number(Number::from_f64(1.5).unwrap()));
            assert_eq!(members["alpha"][2], Value::from(-7));
        }
        other => panic!("unexpected message {:?}", other),
    }
    for number in [0.1, -0.0, 1e300, 5e-324, 123456789.123456789, f64::MAX] {
        let message = ServerMessage::MessagePush { message: Value::from(number) };
        let decoded = ServerMessage::decode(payload_of(&message.as_bytes()));
        match decoded {
            Ok(ServerMessage::MessagePush { message }) => {
                assert_eq!(message.as_f64().unwrap().to_bits(), number.to_bits());
            }
            other => panic!("unexpected outcome {:?}", other),
        }
    }
}

#[test]
fn pushed_integers_round_trip_at_their_limits() {
    for number in [i64::MIN, -1, 0, 1, i64::MAX] {
        let message = ServerMessage::MessagePush { message: Value::from(number) };
        assert_eq!(ServerMessage::decode(payload_of(&message.as_bytes())), Ok(message));
    }
    let message = ServerMessage::MessagePush { message: Value::from(u64::MAX) };
    assert_eq!(
        payload_text(&message.as_bytes()),
        r#"{"MessagePush":{"message":18446744073709551615}}"#
    );
    assert_eq!(ServerMessage::decode(payload_of(&message.as_bytes())), Ok(message));
}

#[test]
fn pushed_objects_round_trip_up_to_the_parsers_depth() {
    let mut value = Value::Object(serde_json::Map::new());
    for level in 1..125 {
        let mut outer = serde_json::Map::new();
        outer.insert(format!("k{}", level), value);
        outer.insert(String::new(), Value::Null);
        value = Value::Object(outer);
    }
    let deepest = ServerMessage::MessagePush { message: value.clone() };
    assert_eq!(ServerMessage::decode(payload_of(&deepest.as_bytes())), Ok(deepest));
    let mut outer = serde_json::Map::new();
    outer.insert(text("one more"), value);
    let too_deep = ServerMessage::MessagePush { message: Value::Object(outer) };
    assert_eq!(
        ServerMessage::decode(payload_of(&too_deep.as_bytes())),
        Err(DecodeError::Syntax)
    );
}

#[test]
fn pushed_values_round_trip_up_to_the_parsers_depth() {
    let deepest = ServerMessage::MessagePush { message: nested_arrays(125) };
    assert_eq!(ServerMessage::decode(payload_of(&deepest.as_bytes())), Ok(deepest));
    let too_deep = ServerMessage::MessagePush { message: nested_arrays(126) };
    let line = too_deep.as_bytes();
    assert_eq!(line.last(), Some(&b'\n'));
    assert_eq!(ServerMessage::decode(payload_of(&line)), Err(DecodeError::Syntax));
}

#[test]
fn every_error_has_its_message() {
    assert_eq!(DecodeError::Syntax.message(), "malformed JSON");
    assert_eq!(DecodeError::MissingTag.message(), "missing variant tag");
    assert_eq!(DecodeError::UnknownVariant.message(), "unknown variant");
    assert_eq!(DecodeError::MissingField.message(), "missing field");
    assert_eq!(DecodeError::InvalidType.message(), "invalid type");
}

#[test]
fn str_eq_compares_contents() {
    assert!(str_eq("", ""));
    assert!(str_eq("Reload", "Reload"));
    assert!(!str_eq("Reload", "ReloadNext"));
    assert!(!str_eq("ReloadNext", "ReloadPrev"));
    assert!(!str_eq("a", ""));
    assert!(str_eq("clé \u{1F511}", "clé \u{1F511}"));
    assert!(!str_eq("cle", "clé"));
}

#[test]
fn values_are_built_member_by_member() {
    let value = ClientMessage::ActOnFakeKey {
        name: text("k"),
        action: FakeKeyActionMessage::Release,
        session_id: Some(text("s")),
    }
    .to_value();
    let outer = value.as_object().unwrap();
    assert_eq!(outer.len(), 1);
    let (tag, body) = outer.iter().next().unwrap();
    assert_eq!(tag, "ActOnFakeKey");
    let fields = body.as_object().unwrap();
    let keys: Vec<&String> = fields.keys().collect();
    assert_eq!(keys, vec!["name", "action", "session_id"]);
    assert_eq!(fields["name"], Value::String(text("k")));
    assert_eq!(fields["action"], Value::String(text("Release")));
    assert_eq!(fields["session_id"], Value::String(text("s")));

    let value = ServerMessage::AuthResult {
        success: true,
        session_id: None,
        expires_in_seconds: Some(5),
    }
    .to_value();
    let fields = value["AuthResult"].as_object().unwrap();
    assert_eq!(fields.len(), 2);
    assert_eq!(fields["success"], Value::Bool(true));
    assert_eq!(fields["expires_in_seconds"], Value::from(5u64));
    assert_eq!(ServerMessage::SessionExpired.to_value(), Value::String(text("SessionExpired")));
    let value = ServerMessage::LayerNames { names: vec![text("a"), text("b")] }.to_value();
    assert_eq!(
        value["LayerNames"]["names"],
        Value::Array(vec![Value::String(text("a")), Value::String(text("b"))])
    );
}
