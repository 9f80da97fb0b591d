use lg_webos_client::command::{create_command, Command, CommandRequest};
use serde_json::Value;

fn json(text: &str) -> Value {
    serde_json::from_str(text).unwrap()
}

fn check(req: &CommandRequest, id: &str, uri: &str, payload: Option<&str>) {
    assert_eq!(req.id, id);
    assert_eq!(req.request_type, "request");
    assert_eq!(req.uri, uri);
    assert_eq!(req.payload, payload.map(json));
}

#[test]
fn create_alert_passes_payload_through() {
    let payload = json(r#"{"message":"hi","buttons":[]}"#);
    let req = create_command("1".to_string(), Command::CreateAlert(payload.clone()));
    check(&req, "1", "ssap://system.notifications/createAlert", Some(r#"{"message":"hi","buttons":[]}"#));
}

#[test]
fn close_alert_carries_alert_id() {
    let req = create_command("2".to_string(), Command::CloseAlert("a-7".to_string()));
    check(&req, "2", "ssap://system.notifications/closeAlert", Some(r#"{"alertId":"a-7"}"#));
}

#[test]
fn toast_browser_and_channel_payloads() {
    check(
        &create_command("3".to_string(), Command::CreateToast("Hello".to_string())),
        "3",
        "ssap://system.notifications/createToast",
        Some(r#"{"message":"Hello"}"#),
    );
    check(
        &create_command("4".to_string(), Command::OpenBrowser("http://x.y".to_string())),
        "4",
        "ssap://system.launcher/open",
        Some(r#"{"target":"http://x.y"}"#),
    );
    check(
        &create_command("5".to_string(), Command::SetChannel("7-1".to_string())),
        "5",
        "ssap://tv/openChannel",
        Some(r#"{"channelId":"7-1"}"#),
    );
    check(
        &create_command("6".to_string(), Command::SetInput("HDMI_1".to_string())),
        "6",
        "ssap://tv/switchInput",
        Some(r#"{"inputId":"HDMI_1"}"#),
    );
}

#[test]
fn mute_and_volume_payloads() {
    check(
        &create_command("7".to_string(), Command::SetMute(true)),
        "7",
        "ssap://audio/setMute",
        Some(r#"{"mute":true}"#),
    );
    check(
        &create_command("8".to_string(), Command::SetVolume(-3)),
        "8",
        "ssap://audio/setVolume",
        Some(r#"{"volume":-3}"#),
    );
    check(
        &create_command("9".to_string(), Command::SetVolume(42)),
        "9",
        "ssap://audio/setVolume",
        Some(r#"{"volume":42}"#),
    );
}

#[test]
fn launch_payload_has_id_and_params() {
    let req = create_command(
        "10".to_string(),
        Command::Launch("netflix".to_string(), json(r#"{"contentId":"x"}"#)),
    );
    check(
        &req,
        "10",
        "ssap://system.launcher/launch",
        Some(r#"{"id":"netflix","params":{"contentId":"x"}}"#),
    );
}

#[test]
fn commands_without_arguments_have_no_payload() {
    let cases: Vec<(Command, &str)> = vec![
        (Command::TurnOff, "ssap://system/turnOff"),
        (Command::GetChannelList, "ssap://tv/getChannelList"),
        (Command::GetCurrentChannel, "ssap://tv/getCurrentChannel"),
        (Command::GetExternalInputList, "ssap://tv/getExternalInputList"),
        (Command::IsMuted, "ssap://audio/getStatus"),
        (Command::GetVolume, "ssap://audio/getVolume"),
        (Command::PlayMedia, "ssap://media.controls/play"),
        (Command::StopMedia, "ssap://media.controls/stop"),
        (Command::PauseMedia, "ssap://media.controls/pause"),
        (Command::RewindMedia, "ssap://media.controls/rewind"),
        (Command::ForwardMedia, "ssap://media.controls/fastForward"),
        (Command::ChannelUp, "ssap://tv/channelUp"),
        (Command::ChannelDown, "ssap://tv/channelDown"),
        (Command::Turn3DOn, "ssap://com.webos.service.tv.display/set3DOn"),
        (Command::Turn3DOff, "ssap://com.webos.service.tv.display/set3DOff"),
        (Command::GetServicesList, "ssap://com.webos.service.update/getCurrentSWInformation"),
        (Command::GetAudioOutputs, "ssap://audio/getSoundOutput"),
    ];
    for (cmd, uri) in cases {
        let req = create_command("11".to_string(), cmd);
        check(&req, "11", uri, None);
    }
}

#[test]
fn channel_and_input_aliases_send_the_same_request() {
    let a = create_command("12".to_string(), Command::SetChannel("3".to_string()));
    let b = create_command("12".to_string(), Command::OpenChannel("3".to_string()));
    assert_eq!(a.uri, b.uri);
    assert_eq!(a.payload, b.payload);
    let c = create_command("13".to_string(), Command::SetInput("HDMI_2".to_string()));
    let d = create_command("13".to_string(), Command::SwitchInput("HDMI_2".to_string()));
    assert_eq!(c.uri, d.uri);
    assert_eq!(c.payload, d.payload);
}
