use lg_webos_client::client::{
    checked_close_alert_command, client_key, close_alert_command, connection_url, deliver,
    get_handshake, luna_alert_command, luna_alert_payload, parse_response, prepare_handshake,
    register_command, registration_message, ClientError, WebOsClientConfig,
};
use lg_webos_client::command::{Command, CommandResponse};
use lg_webos_client::pending::PendingRequests;
use serde_json::Value;

fn json(text: &str) -> Value {
    serde_json::from_str(text).unwrap()
}

#[test]
fn config_new_keeps_address_and_key() {
    let config = WebOsClientConfig::new("ws://192.168.1.62:3000/", Some("abc".to_string()));
    assert_eq!(config.address, "ws://192.168.1.62:3000/");
    assert_eq!(config.key, Some("abc".to_string()));
    let copy = config.clone();
    assert_eq!(copy.address, config.address);
    assert_eq!(copy.key, config.key);
}

#[test]
fn config_default_points_at_lgwebostv() {
    let config = WebOsClientConfig::default();
    assert_eq!(config.address, "ws://lgwebostv:3000/");
    assert_eq!(config.key, None);
}

#[test]
fn connection_url_parses_the_address() {
    let url = connection_url(&WebOsClientConfig::new("ws://192.168.1.62:3000/", None)).unwrap();
    assert_eq!(url.as_str(), "ws://192.168.1.62:3000/");
    assert_eq!(url.port(), Some(3000));
}

#[test]
fn connection_url_rejects_malformed_address() {
    let res = connection_url(&WebOsClientConfig::new("not a url", None));
    assert_eq!(res.err(), Some(ClientError::MalformedUrl));
}

#[test]
fn handshake_parses() {
    let handshake = get_handshake().unwrap();
    assert_eq!(handshake["type"], "register");
    assert_eq!(handshake["payload"]["pairingType"], "PROMPT");
}

#[test]
fn handshake_gets_registration_id_and_key() {
    let handshake = prepare_handshake(get_handshake().unwrap(), Some("secret".to_string()));
    assert_eq!(handshake["id"], "0");
    assert_eq!(handshake["payload"]["client-key"], "secret");
    assert_eq!(handshake["payload"]["pairingType"], "PROMPT");
    assert_eq!(handshake["type"], "register");
}

#[test]
fn handshake_without_key_has_no_client_key() {
    let handshake = prepare_handshake(get_handshake().unwrap(), None);
    assert_eq!(handshake["id"], "0");
    assert_eq!(handshake["payload"]["client-key"], Value::Null);
}

#[test]
fn registration_message_is_the_prepared_handshake_as_text() {
    let text = registration_message(json(r#"{"type":"register","payload":{}}"#), Some("k".to_string()))
        .unwrap();
    assert_eq!(text, r#"{"id":"0","payload":{"client-key":"k"},"type":"register"}"#);
    let text = registration_message(Value::Null, None).unwrap();
    assert_eq!(text, r#"{"id":"0"}"#);
}

#[test]
fn registration_message_refuses_unwritable_handshakes() {
    assert_eq!(registration_message(json("[1,2]"), None), None);
    assert_eq!(registration_message(json(r#"{"payload":3}"#), Some("k".to_string())), None);
    assert!(registration_message(json(r#"{"payload":3}"#), None).is_some());
}

#[test]
fn client_key_is_the_generated_key() {
    let response = CommandResponse {
        id: Some("0".to_string()),
        payload: Some(json(r#"{"client-key":"key"}"#)),
    };
    assert_eq!(client_key(&response), Some("key".to_string()));
}

#[test]
fn client_key_missing_gives_none() {
    let no_payload = CommandResponse { id: Some("0".to_string()), payload: None };
    assert_eq!(client_key(&no_payload), None);
    let no_key = CommandResponse { id: Some("0".to_string()), payload: Some(json(r#"{"returnValue":true}"#)) };
    assert_eq!(client_key(&no_key), None);
    let number_key = CommandResponse { id: Some("0".to_string()), payload: Some(json(r#"{"client-key":7}"#)) };
    assert_eq!(client_key(&number_key), None);
}

#[test]
fn stored_key_is_sent_back_at_the_next_registration() {
    let answer = parse_response(r#"{"id":"0","type":"registered","payload":{"client-key":"key"}}"#).unwrap();
    let key = client_key(&answer);
    let config = WebOsClientConfig::new("ws://lgwebostv:3000/", key);
    let handshake = prepare_handshake(get_handshake().unwrap(), config.key.clone());
    assert_eq!(handshake["payload"]["client-key"], "key");
}

#[test]
fn parse_response_reads_id_and_payload() {
    let response = parse_response(r#"{"id":"1","payload":{"returnValue":true},"type":"response"}"#)
        .unwrap();
    assert_eq!(response.id, Some("1".to_string()));
    assert_eq!(response.payload, Some(json(r#"{"returnValue":true}"#)));
}

#[test]
fn parse_response_without_payload_gives_null_payload() {
    let response = parse_response(r#"{"id":"4","type":"error"}"#).unwrap();
    assert_eq!(response.id, Some("4".to_string()));
    assert_eq!(response.payload, Some(Value::Null));
}

#[test]
fn parse_response_skips_pairing_prompt() {
    assert!(parse_response(r#"{"id":"0","type":"response","payload":{"pairingType":"PROMPT","returnValue":true}}"#)
        .is_none());
    assert!(parse_response(r#"{"id":"0","type":"registered","payload":{"pairingType":"PIN"}}"#)
        .is_some());
}

#[test]
fn parse_response_skips_messages_without_string_id() {
    assert!(parse_response(r#"{"payload":{}}"#).is_none());
    assert!(parse_response(r#"{"id":1,"payload":{}}"#).is_none());
    assert!(parse_response("not json").is_none());
}

#[test]
fn deliver_hands_the_answer_to_its_waiter() {
    let mut pending: PendingRequests<u8> = PendingRequests::new();
    pending.insert("1".to_string(), 1);
    pending.insert("2".to_string(), 2);
    let response = CommandResponse { id: Some("2".to_string()), payload: Some(Value::Bool(true)) };
    let (waiter, answer) = deliver(&mut pending, response).unwrap();
    assert_eq!(waiter, 2);
    assert_eq!(answer.id, Some("2".to_string()));
    assert_eq!(answer.payload, Some(Value::Bool(true)));
    assert_eq!(pending.len(), 1);
    assert!(!pending.contains(&"2".to_string()));
}

#[test]
fn deliver_drops_unknown_and_anonymous_answers() {
    let mut pending: PendingRequests<u8> = PendingRequests::new();
    pending.insert("1".to_string(), 1);
    let unknown = CommandResponse { id: Some("9".to_string()), payload: None };
    assert!(deliver(&mut pending, unknown).is_none());
    let anonymous = CommandResponse { id: None, payload: None };
    assert!(deliver(&mut pending, anonymous).is_none());
    assert_eq!(pending.len(), 1);
}

#[test]
fn register_command_then_answer_round_trip() {
    let mut pending: PendingRequests<&str> = PendingRequests::new();
    let request = register_command(&mut pending, "7".to_string(), "waiter", Command::ChannelUp);
    assert_eq!(request.id, "7");
    assert_eq!(request.uri, "ssap://tv/channelUp");
    assert!(pending.contains(&"7".to_string()));
    let answer = parse_response(r#"{"id":"7","payload":{"returnValue":true}}"#).unwrap();
    let (waiter, _) = deliver(&mut pending, answer).unwrap();
    assert_eq!(waiter, "waiter");
    assert_eq!(pending.len(), 0);
}

#[test]
fn luna_alert_payload_calls_the_uri_three_ways() {
    let params = json(r#"{"a":1}"#);
    let payload = luna_alert_payload("com.webos.service/x", params.clone());
    let expected = json(
        r#"{"message":" ","buttons":[{"label":"","onClick":"luna://com.webos.service/x","params":{"a":1}}],"onclose":{"uri":"luna://com.webos.service/x","params":{"a":1}},"onfail":{"uri":"luna://com.webos.service/x","params":{"a":1}}}"#,
    );
    assert_eq!(payload, expected);
    match luna_alert_command("com.webos.service/x", params) {
        Command::CreateAlert(p) => assert_eq!(p, expected),
        _ => panic!("expected an alert"),
    }
}

#[test]
fn close_alert_uses_the_alert_id() {
    let alert = CommandResponse { id: Some("1".to_string()), payload: Some(json(r#"{"alertId":"x-1"}"#)) };
    match close_alert_command(&alert) {
        Ok(Command::CloseAlert(id)) => assert_eq!(id, "x-1"),
        _ => panic!("expected a close command"),
    }
}

#[test]
fn close_alert_without_payload_is_an_error() {
    let alert = CommandResponse { id: Some("1".to_string()), payload: None };
    assert_eq!(close_alert_command(&alert).err(), Some(ClientError::CommandSendError));
    assert_eq!(
        checked_close_alert_command(&alert).map(|r| r.err()),
        Some(Some(ClientError::CommandSendError))
    );
}

#[test]
fn checked_close_alert_refuses_missing_alert_id() {
    let alert = CommandResponse { id: Some("1".to_string()), payload: Some(json(r#"{"alertId":5}"#)) };
    assert!(checked_close_alert_command(&alert).is_none());
    let alert = CommandResponse { id: Some("1".to_string()), payload: Some(json(r#"{"alertId":"z"}"#)) };
    assert!(matches!(checked_close_alert_command(&alert), Some(Ok(Command::CloseAlert(_)))));
}
