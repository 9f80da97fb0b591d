//! The commands that the TV understands, and the requests that carry them.
use crate::json::{
    entries_view, json_bool, json_i8, json_object, json_string, value_from_bool, value_from_entries,
    value_from_i8, value_from_string,
};
use serde_json::Value;
use vstd::prelude::*;

verus! {

/// A request as it goes to the TV: its id, its type (always `"request"`), the
/// `ssap://` URI of the service that it calls, and an optional JSON payload.
pub struct CommandRequest {
    pub id: String,
    /// Sent as the member `type`.
    pub request_type: String,
    pub uri: String,
    pub payload: Option<Value>,
}

/// The commands that the client can send.
pub enum Command {
    CreateAlert(Value),
    CloseAlert(String),
    CreateToast(String),
    OpenBrowser(String),
    TurnOff,
    SetChannel(String),
    SetInput(String),
    SetMute(bool),
    SetVolume(i8),
    GetChannelList,
    GetCurrentChannel,
    OpenChannel(String),
    GetExternalInputList,
    SwitchInput(String),
    IsMuted,
    GetVolume,
    PlayMedia,
    StopMedia,
    PauseMedia,
    RewindMedia,
    ForwardMedia,
    ChannelUp,
    ChannelDown,
    Turn3DOn,
    Turn3DOff,
    GetServicesList,
    Launch(String, Value),
    GetAudioOutputs,
}

/// An answer of the TV: the id of the request that it answers and its payload.
#[derive(Debug)]
pub struct CommandResponse {
    pub id: Option<String>,
    pub payload: Option<Value>,
}

/// The JSON object with the single member `key: value`.
pub open spec fn single_member(key: Seq<char>, value: Value) -> Value {
    json_object(seq![(key, value)])
}

/// The URI of the service that `cmd` calls.
pub open spec fn command_uri(cmd: Command) -> Seq<char> {
    match cmd {
        Command::CreateAlert(_) => "ssap://system.notifications/createAlert"@,
        Command::CloseAlert(_) => "ssap://system.notifications/closeAlert"@,
        Command::CreateToast(_) => "ssap://system.notifications/createToast"@,
        Command::OpenBrowser(_) => "ssap://system.launcher/open"@,
        Command::TurnOff => "ssap://system/turnOff"@,
        Command::SetChannel(_) => "ssap://tv/openChannel"@,
        Command::SetInput(_) => "ssap://tv/switchInput"@,
        Command::SetMute(_) => "ssap://audio/setMute"@,
        Command::SetVolume(_) => "ssap://audio/setVolume"@,
        Command::GetChannelList => "ssap://tv/getChannelList"@,
        Command::GetCurrentChannel => "ssap://tv/getCurrentChannel"@,
        Command::OpenChannel(_) => "ssap://tv/openChannel"@,
        Command::GetExternalInputList => "ssap://tv/getExternalInputList"@,
        Command::SwitchInput(_) => "ssap://tv/switchInput"@,
        Command::IsMuted => "ssap://audio/getStatus"@,
        Command::GetVolume => "ssap://audio/getVolume"@,
        Command::PlayMedia => "ssap://media.controls/play"@,
        Command::StopMedia => "ssap://media.controls/stop"@,
        Command::PauseMedia => "ssap://media.controls/pause"@,
        Command::RewindMedia => "ssap://media.controls/rewind"@,
        Command::ForwardMedia => "ssap://media.controls/fastForward"@,
        Command::ChannelUp => "ssap://tv/channelUp"@,
        Command::ChannelDown => "ssap://tv/channelDown"@,
        Command::Turn3DOn => "ssap://com.webos.service.tv.display/set3DOn"@,
        Command::Turn3DOff => "ssap://com.webos.service.tv.display/set3DOff"@,
        Command::GetServicesList => "ssap://com.webos.service.update/getCurrentSWInformation"@,
        Command::Launch(_, _) => "ssap://system.launcher/launch"@,
        Command::GetAudioOutputs => "ssap://audio/getSoundOutput"@,
    }
}

/// The payload that goes with `cmd`: the alert payload itself, an object with
/// the command's argument, or nothing for commands without arguments.
pub open spec fn command_payload(cmd: Command) -> Option<Value> {
    match cmd {
        Command::CreateAlert(payload) => Some(payload),
        Command::CloseAlert(alert_id) => Some(single_member("alertId"@, json_string(alert_id@))),
        Command::CreateToast(text) => Some(single_member("message"@, json_string(text@))),
        Command::OpenBrowser(url) => Some(single_member("target"@, json_string(url@))),
        Command::SetChannel(channel_id) => Some(
            single_member("channelId"@, json_string(channel_id@)),
        ),
        Command::SetInput(input_id) => Some(single_member("inputId"@, json_string(input_id@))),
        Command::SetMute(mute) => Some(single_member("mute"@, json_bool(mute))),
        Command::SetVolume(volume) => Some(single_member("volume"@, json_i8(volume))),
        Command::OpenChannel(channel_id) => Some(
            single_member("channelId"@, json_string(channel_id@)),
        ),
        Command::SwitchInput(input_id) => Some(single_member("inputId"@, json_string(input_id@))),
        Command::Launch(app_id, params) => Some(
            json_object(seq![("id"@, json_string(app_id@)), ("params"@, params)]),
        ),
        _ => None,
    }
}

/// Builds the JSON object `{ key: value }`.
pub(crate) fn single_member_object(key: &str, value: Value) -> (res: Value)
    ensures
        res == single_member(key@, value),
{
    let mut entries: Vec<(String, Value)> = Vec::new();
    entries.push((key.to_owned(), value));
    let ghost view = entries_view(entries@);
    assert(view =~= seq![(key@, value)]);
    value_from_entries(entries)
}

/// Builds the JSON object `{ key: text }` whose member is a string.
fn string_member_object(key: &str, text: String) -> (res: Value)
    ensures
        res == single_member(key@, json_string(text@)),
{
    single_member_object(key, value_from_string(text))
}

/// A request of type `"request"` with the given id, URI and payload.
fn request(id: String, uri: &str, payload: Option<Value>) -> (res: CommandRequest)
    ensures
        res.id@ == id@,
        res.request_type@ == "request"@,
        res.uri@ == uri@,
        res.payload == payload,
{
    CommandRequest { id, request_type: "request".to_owned(), uri: uri.to_owned(), payload }
}

/// The request that carries `cmd` under the id `id`.
pub fn create_command(id: String, cmd: Command) -> (res: CommandRequest)
    ensures
        res.id@ == id@,
        res.request_type@ == "request"@,
        res.uri@ == command_uri(cmd),
        res.payload == command_payload(cmd),
{
    match cmd {
        Command::CreateAlert(payload) => request(
            id,
            "ssap://system.notifications/createAlert",
            Some(payload),
        ),
        Command::CloseAlert(alert_id) => request(
            id,
            "ssap://system.notifications/closeAlert",
            Some(string_member_object("alertId", alert_id)),
        ),
        Command::CreateToast(text) => request(
            id,
            "ssap://system.notifications/createToast",
            Some(string_member_object("message", text)),
        ),
        Command::OpenBrowser(url) => request(
            id,
            "ssap://system.launcher/open",
            Some(string_member_object("target", url)),
        ),
        Command::TurnOff => request(id, "ssap://system/turnOff", None),
        Command::SetChannel(channel_id) => request(
            id,
            "ssap://tv/openChannel",
            Some(string_member_object("channelId", channel_id)),
        ),
        Command::SetInput(input_id) => request(
            id,
            "ssap://tv/switchInput",
            Some(string_member_object("inputId", input_id)),
        ),
        Command::SetMute(mute) => request(
            id,
            "ssap://audio/setMute",
            Some(single_member_object("mute", value_from_bool(mute))),
        ),
        Command::SetVolume(volume) => request(
            id,
            "ssap://audio/setVolume",
            Some(single_member_object("volume", value_from_i8(volume))),
        ),
        Command::GetChannelList => request(id, "ssap://tv/getChannelList", None),
        Command::GetCurrentChannel => request(id, "ssap://tv/getCurrentChannel", None),
        Command::OpenChannel(channel_id) => request(
            id,
            "ssap://tv/openChannel",
            Some(string_member_object("channelId", channel_id)),
        ),
        Command::GetExternalInputList => request(id, "ssap://tv/getExternalInputList", None),
        Command::SwitchInput(input_id) => request(
            id,
            "ssap://tv/switchInput",
            Some(string_member_object("inputId", input_id)),
        ),
        Command::IsMuted => request(id, "ssap://audio/getStatus", None),
        Command::GetVolume => request(id, "ssap://audio/getVolume", None),
        Command::PlayMedia => request(id, "ssap://media.controls/play", None),
        Command::StopMedia => request(id, "ssap://media.controls/stop", None),
        Command::PauseMedia => request(id, "ssap://media.controls/pause", None),
        Command::RewindMedia => request(id, "ssap://media.controls/rewind", None),
        Command::ForwardMedia => request(id, "ssap://media.controls/fastForward", None),
        Command::ChannelUp => request(id, "ssap://tv/channelUp", None),
        Command::ChannelDown => request(id, "ssap://tv/channelDown", None),
        Command::Turn3DOn => request(id, "ssap://com.webos.service.tv.display/set3DOn", None),
        Command::Turn3DOff => request(id, "ssap://com.webos.service.tv.display/set3DOff", None),
        Command::GetServicesList => request(
            id,
            "ssap://com.webos.service.update/getCurrentSWInformation",
            None,
        ),
        Command::Launch(app_id, params) => {
            let mut entries: Vec<(String, Value)> = Vec::new();
            let ghost app = app_id@;
            entries.push(("id".to_owned(), value_from_string(app_id)));
            entries.push(("params".to_owned(), params));
            proof {
                assert(entries_view(entries@) =~= seq![("id"@, json_string(app)), ("params"@, params)]);
            }
            request(id, "ssap://system.launcher/launch", Some(value_from_entries(entries)))
        },
        Command::GetAudioOutputs => request(id, "ssap://audio/getSoundOutput", None),
    }
}

/// What each command asks of the TV: the service it calls and the payload
/// that carries its argument. Every argument reaches the payload unchanged,
/// under the member name that the service reads; commands without arguments
/// send no payload.
pub proof fn lemma_request_carries_command(cmd: Command)
    ensures
        match cmd {
            Command::CreateAlert(p) => command_uri(cmd) == "ssap://system.notifications/createAlert"@
                && command_payload(cmd) == Some(p),
            Command::CloseAlert(a) => command_uri(cmd) == "ssap://system.notifications/closeAlert"@
                && command_payload(cmd) == Some(json_object(seq![("alertId"@, json_string(a@))])),
            Command::CreateToast(t) => command_uri(cmd) == "ssap://system.notifications/createToast"@
                && command_payload(cmd) == Some(json_object(seq![("message"@, json_string(t@))])),
            Command::OpenBrowser(u) => command_uri(cmd) == "ssap://system.launcher/open"@
                && command_payload(cmd) == Some(json_object(seq![("target"@, json_string(u@))])),
            Command::TurnOff => command_uri(cmd) == "ssap://system/turnOff"@ && command_payload(cmd)
                is None,
            Command::SetChannel(c) => command_uri(cmd) == "ssap://tv/openChannel"@
                && command_payload(cmd) == Some(json_object(seq![("channelId"@, json_string(c@))])),
            Command::SetInput(i) => command_uri(cmd) == "ssap://tv/switchInput"@
                && command_payload(cmd) == Some(json_object(seq![("inputId"@, json_string(i@))])),
            Command::SetMute(b) => command_uri(cmd) == "ssap://audio/setMute"@
                && command_payload(cmd) == Some(json_object(seq![("mute"@, json_bool(b))])),
            Command::SetVolume(v) => command_uri(cmd) == "ssap://audio/setVolume"@
                && command_payload(cmd) == Some(json_object(seq![("volume"@, json_i8(v))])),
            Command::GetChannelList => command_uri(cmd) == "ssap://tv/getChannelList"@
                && command_payload(cmd) is None,
            Command::GetCurrentChannel => command_uri(cmd) == "ssap://tv/getCurrentChannel"@
                && command_payload(cmd) is None,
            Command::OpenChannel(c) => command_uri(cmd) == "ssap://tv/openChannel"@
                && command_payload(cmd) == Some(json_object(seq![("channelId"@, json_string(c@))])),
            Command::GetExternalInputList => command_uri(cmd) == "ssap://tv/getExternalInputList"@
                && command_payload(cmd) is None,
            Command::SwitchInput(i) => command_uri(cmd) == "ssap://tv/switchInput"@
                && command_payload(cmd) == Some(json_object(seq![("inputId"@, json_string(i@))])),
            Command::IsMuted => command_uri(cmd) == "ssap://audio/getStatus"@ && command_payload(cmd)
                is None,
            Command::GetVolume => command_uri(cmd) == "ssap://audio/getVolume"@ && command_payload(cmd)
                is None,
            Command::PlayMedia => command_uri(cmd) == "ssap://media.controls/play"@
                && command_payload(cmd) is None,
            Command::StopMedia => command_uri(cmd) == "ssap://media.controls/stop"@
                && command_payload(cmd) is None,
            Command::PauseMedia => command_uri(cmd) == "ssap://media.controls/pause"@
                && command_payload(cmd) is None,
            Command::RewindMedia => command_uri(cmd) == "ssap://media.controls/rewind"@
                && command_payload(cmd) is None,
            Command::ForwardMedia => command_uri(cmd) == "ssap://media.controls/fastForward"@
                && command_payload(cmd) is None,
            Command::ChannelUp => command_uri(cmd) == "ssap://tv/channelUp"@ && command_payload(cmd)
                is None,
            Command::ChannelDown => command_uri(cmd) == "ssap://tv/channelDown"@
                && command_payload(cmd) is None,
            Command::Turn3DOn => command_uri(cmd) == "ssap://com.webos.service.tv.display/set3DOn"@
                && command_payload(cmd) is None,
            Command::Turn3DOff => command_uri(cmd) == "ssap://com.webos.service.tv.display/set3DOff"@
                && command_payload(cmd) is None,
            Command::GetServicesList => command_uri(cmd)
                == "ssap://com.webos.service.update/getCurrentSWInformation"@ && command_payload(cmd)
                is None,
            Command::Launch(a, p) => command_uri(cmd) == "ssap://system.launcher/launch"@
                && command_payload(cmd) == Some(
                json_object(seq![("id"@, json_string(a@)), ("params"@, p)]),
            ),
            Command::GetAudioOutputs => command_uri(cmd) == "ssap://audio/getSoundOutput"@
                && command_payload(cmd) is None,
        },
{
}

/// Setting a channel and opening a channel send the same request, and so do
/// setting an input and switching to it.
pub proof fn lemma_command_aliases(channel_id: String, input_id: String)
    ensures
        command_uri(Command::SetChannel(channel_id)) == command_uri(Command::OpenChannel(channel_id)),
        command_payload(Command::SetChannel(channel_id)) == command_payload(
            Command::OpenChannel(channel_id),
        ),
        command_uri(Command::SetInput(input_id)) == command_uri(Command::SwitchInput(input_id)),
        command_payload(Command::SetInput(input_id)) == command_payload(
            Command::SwitchInput(input_id),
        ),
{
}

/// The commands without arguments carry no payload; the others carry one.
pub proof fn lemma_payload_presence(cmd: Command)
    ensures
        command_payload(cmd) is None <==> match cmd {
            Command::CreateAlert(_) | Command::CloseAlert(_) | Command::CreateToast(_)
            | Command::OpenBrowser(_) | Command::SetChannel(_) | Command::SetInput(_)
            | Command::SetMute(_) | Command::SetVolume(_) | Command::OpenChannel(_)
            | Command::SwitchInput(_) | Command::Launch(_, _) => false,
            _ => true,
        },
{
}

} // verus!
