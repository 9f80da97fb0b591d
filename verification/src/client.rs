//! The decisions of the client: its configuration, the registration
//! handshake, the routing of the TV's answers to the requests that wait for
//! them, and the two steps of a luna call.
//!
//! The connection itself (the websocket, the locks and the channels on which
//! callers wait) lives outside the library; it hands the library plain values
//! and acts on what the library returns.
use crate::command::{command_payload, command_uri, create_command, Command, CommandRequest, CommandResponse};
use crate::ids::{decimal, registration_id};
use crate::json::{
    entries_view, json_array, json_field, json_is_null, json_is_object, json_key_writable, json_object, json_parse, json_str_of,
    json_string, json_text, json_with_field, parse_value, value_as_str, value_clone, value_eq_str,
    value_field, value_from_entries, value_from_string, value_from_vec, value_is_null,
    value_is_object, value_set_field, value_to_text,
};
use crate::pending::PendingRequests;
use serde_json::Value;
use vstd::prelude::*;

verus! {

/// What can go wrong between the client and the TV.
#[derive(Debug, PartialEq, Eq, Structural)]
pub enum ClientError {
    MalformedUrl,
    ConnectionError,
    CommandSendError,
}

/// Where the TV is, and the client key that it handed out at an earlier
/// registration, if any.
#[derive(Debug)]
pub struct WebOsClientConfig {
    pub address: String,
    pub key: Option<String>,
}

impl WebOsClientConfig {
    /// Creates a new client configuration.
    pub fn new(addr: &str, key: Option<String>) -> (res: WebOsClientConfig)
        ensures
            res.address@ == addr@,
            res.key == key,
    {
        let address = addr.to_owned();
        WebOsClientConfig { address, key }
    }
}

impl Clone for WebOsClientConfig {
    /// A copy with the same address and key.
    fn clone(&self) -> (res: WebOsClientConfig)
        ensures
            res.address == self.address,
            res.key == self.key,
    {
        let addr = self.address.clone();
        let key = self.key.clone();
        WebOsClientConfig { address: addr, key }
    }
}

impl Default for WebOsClientConfig {
    /// The TV under its usual host name, without a key.
    fn default() -> (res: WebOsClientConfig)
        ensures
            res.address@ == "ws://lgwebostv:3000/"@,
            res.key is None,
    {
        WebOsClientConfig::new("ws://lgwebostv:3000/", None)
    }
}

#[verifier::external_type_specification]
#[verifier::external_body]
pub struct ExUrl(url::Url);

#[verifier::external_type_specification]
#[verifier::external_body]
pub struct ExUrlParseError(url::ParseError);

/// The URL that `url::Url::parse` reads from `text`, `None` where it fails.
pub uninterp spec fn url_parse(text: Seq<char>) -> Option<url::Url>;

/// `url::Url::parse`.
#[verifier::external_body]
fn parse_url(text: &str) -> (res: Result<url::Url, url::ParseError>)
    ensures
        res is Ok <==> url_parse(text@) is Some,
        res matches Ok(u) ==> url_parse(text@) == Some(u),
{
    url::Url::parse(text)
}

/// The URL of the TV to connect to; a malformed address is an error.
pub fn connection_url(config: &WebOsClientConfig) -> (res: Result<url::Url, ClientError>)
    ensures
        match url_parse(config.address@) {
            Some(u) => res == Ok::<url::Url, ClientError>(u),
            None => res == Err::<url::Url, ClientError>(ClientError::MalformedUrl),
        },
{
    match parse_url(config.address.as_str()) {
        Ok(u) => Ok(u),
        Err(_) => Err(ClientError::MalformedUrl),
    }
}

/// The text of a key, if there is one.
pub open spec fn key_view(key: Option<String>) -> Option<Seq<char>> {
    match key {
        Some(k) => Some(k@),
        None => None,
    }
}

/// The registration packet that a device expects first. A client key can be
/// added to its payload as the member `client-key`.
pub const HANDSHAKE: &'static str = "{\"type\":\"register\",\"id\":\"register_0\",\"payload\":{\"forcePairing\":false,\"pairingType\":\"PROMPT\",\"manifest\":{\"manifestVersion\":1,\"appVersion\":\"1.1\",\"permissions\":[\"LAUNCH\",\"LAUNCH_WEBAPP\",\"APP_TO_APP\",\"CLOSE\",\"TEST_OPEN\",\"TEST_PROTECTED\",\"CONTROL_AUDIO\",\"CONTROL_DISPLAY\",\"CONTROL_INPUT_JOYSTICK\",\"CONTROL_INPUT_MEDIA_RECORDING\",\"CONTROL_INPUT_MEDIA_PLAYBACK\",\"CONTROL_INPUT_TV\",\"CONTROL_POWER\",\"READ_APP_STATUS\",\"READ_CURRENT_CHANNEL\",\"READ_INPUT_DEVICE_LIST\",\"READ_NETWORK_STATE\",\"READ_RUNNING_APPS\",\"READ_TV_CHANNEL_LIST\",\"WRITE_NOTIFICATION_TOAST\",\"READ_POWER_STATE\",\"READ_COUNTRY_INFO\"]}}}";

/// The initial handshake packet for connecting to a device, as JSON; `None`
/// where the packet's text does not parse.
pub fn get_handshake() -> (res: Option<Value>)
    ensures
        res == json_parse(HANDSHAKE@),
{
    match parse_value(HANDSHAKE) {
        Ok(handshake) => Some(handshake),
        Err(_) => None,
    }
}

/// Whether the handshake can take the registration id and, where a key is
/// given, the key in its payload: serde_json writes a member only into an
/// object or into null.
pub open spec fn handshake_writable(handshake: Value, key: Option<Seq<char>>) -> bool {
    &&& json_key_writable(handshake)
    &&& key is Some ==> json_key_writable(json_field(handshake, "payload"@))
}

/// The handshake with the key (if any) written to `payload.client-key` and the
/// registration id written to `id`.
pub open spec fn registration_handshake(handshake: Value, key: Option<Seq<char>>) -> Value {
    let with_key = match key {
        Some(k) => json_with_field(
            handshake,
            "payload"@,
            json_with_field(json_field(handshake, "payload"@), "client-key"@, json_string(k)),
        ),
        None => handshake,
    };
    json_with_field(with_key, "id"@, json_string(decimal(0)))
}

/// Writes the key (if any) into the handshake's payload and the registration
/// id into the handshake. Reading the handshake back gives both.
pub fn prepare_handshake(handshake: Value, key: Option<String>) -> (res: Value)
    requires
        handshake_writable(handshake, key_view(key)),
    ensures
        res == registration_handshake(handshake, key_view(key)),
        json_field(res, "id"@) == json_string(decimal(0)),
        key matches Some(k) ==> json_field(json_field(res, "payload"@), "client-key"@)
            == json_string(k@),
        key is None ==> json_field(res, "payload"@) == json_field(handshake, "payload"@),
        json_is_object(res),
        forall|k: Seq<char>|
            k != "id"@ && k != "payload"@ ==> #[trigger] json_field(res, k) == json_field(
                handshake,
                k,
            ),
        key is Some ==> forall|k: Seq<char>|
            k != "client-key"@ ==> #[trigger] json_field(json_field(res, "payload"@), k)
                == json_field(json_field(handshake, "payload"@), k),
{
    let mut handshake = handshake;
    let ghost original = handshake;
    if let Some(k) = key {
        let mut payload = value_clone(value_field(&handshake, "payload"));
        value_set_field(&mut payload, "client-key", value_from_string(k));
        value_set_field(&mut handshake, "payload", payload);
    }
    let ghost with_key = handshake;
    value_set_field(&mut handshake, "id", value_from_string(registration_id()));
    proof {
        reveal_strlit("id");
        reveal_strlit("payload");
        assert("id"@ != "payload"@) by {
            assert("id"@.len() != "payload"@.len());
        }
        assert(json_field(handshake, "payload"@) == json_field(with_key, "payload"@));
    }
    handshake
}

/// The text of the registration packet: `None` exactly where serde_json
/// could not write the key or the id into `handshake` (and would panic).
pub fn registration_message(handshake: Value, key: Option<String>) -> (res: Option<String>)
    ensures
        res is Some <==> handshake_writable(handshake, key_view(key)),
        res matches Some(text) ==> text@ == json_text(
            registration_handshake(handshake, key_view(key)),
        ),
{
    if !(value_is_object(&handshake) || value_is_null(&handshake)) {
        return None;
    }
    if key.is_some() {
        let payload = value_field(&handshake, "payload");
        if !(value_is_object(payload) || value_is_null(payload)) {
            return None;
        }
    }
    let prepared = prepare_handshake(handshake, key);
    Some(value_to_text(&prepared))
}

/// The key that the TV generated for this client, read from its answer to
/// the registration: the string member `client-key` of the payload. `None`
/// where the answer has no payload or no such string.
pub open spec fn registration_key(registration: CommandResponse) -> Option<Seq<char>> {
    match registration.payload {
        Some(payload) => json_str_of(json_field(payload, "client-key"@)),
        None => None,
    }
}

/// The key that the client keeps from the TV's answer to the registration,
/// to be stored and passed back in a later configuration.
pub fn client_key(registration: &CommandResponse) -> (res: Option<String>)
    ensures
        res is Some <==> registration_key(*registration) is Some,
        res matches Some(k) ==> registration_key(*registration) == Some(k@),
        match registration.payload {
            Some(payload) => match json_str_of(json_field(payload, "client-key"@)) {
                Some(key) => res matches Some(k) && k@ == key,
                None => res is None,
            },
            None => res is None,
        },
{
    match &registration.payload {
        Some(payload) => match value_as_str(value_field(payload, "client-key")) {
            Some(key) => Some(key.to_owned()),
            None => None,
        },
        None => None,
    }
}

/// The id and payload of an answer in `text`: `None` where the text is no
/// JSON, has no string `id`, or is the notice that the TV shows its pairing
/// prompt (payload `pairingType` `"PROMPT"`), which answers nothing.
pub open spec fn response_parts(text: Seq<char>) -> Option<(Seq<char>, Value)> {
    match json_parse(text) {
        None => None,
        Some(message) => match json_str_of(json_field(message, "id"@)) {
            None => None,
            Some(id) => if json_str_of(json_field(json_field(message, "payload"@), "pairingType"@))
                == Some("PROMPT"@) {
                None
            } else {
                Some((id, json_field(message, "payload"@)))
            },
        },
    }
}

/// Reads an answer of the TV from the text of a message.
pub fn parse_response(text: &str) -> (res: Option<CommandResponse>)
    ensures
        match response_parts(text@) {
            None => res is None,
            Some((id, payload)) => res matches Some(r) && r.id matches Some(i) && i@ == id
                && r.payload == Some(payload),
        },
        res is Some <==> (json_parse(text@) matches Some(m) && json_str_of(json_field(m, "id"@))
            is Some && json_str_of(json_field(json_field(m, "payload"@), "pairingType"@)) != Some(
            "PROMPT"@,
        )),
        res matches Some(r) ==> (json_parse(text@) matches Some(m) && r.id matches Some(i)
            && json_str_of(json_field(m, "id"@)) == Some(i@) && r.payload == Some(
            json_field(m, "payload"@),
        )),
{
    let message = match parse_value(text) {
        Ok(message) => message,
        Err(_) => return None,
    };
    let id = match value_as_str(value_field(&message, "id")) {
        Some(id) => id,
        None => return None,
    };
    let payload = value_field(&message, "payload");
    if value_eq_str(value_field(payload, "pairingType"), "PROMPT") {
        return None;
    }
    Some(CommandResponse { id: Some(id.to_owned()), payload: Some(value_clone(payload)) })
}

/// Hands an answer to the request that waits for it: the waiter registered
/// under the answer's id leaves the table and comes back with the answer.
/// An answer without id, or with an id that nothing waits for, is dropped.
pub fn deliver<T>(pending: &mut PendingRequests<T>, response: CommandResponse) -> (res: Option<
    (T, CommandResponse),
>)
    ensures
        match response.id {
            Some(id) => if old(pending)@.dom().contains(id@) {
                &&& res matches Some((waiter, answer))
                &&& waiter == old(pending)@[id@]
                &&& answer == response
                &&& final(pending)@ == old(pending)@.remove(id@)
            } else {
                res is None && final(pending)@ == old(pending)@
            },
            None => res is None && final(pending)@ == old(pending)@,
        },
{
    let id = match &response.id {
        Some(id) => id.clone(),
        None => return None,
    };
    match pending.remove(&id) {
        Some(waiter) => Some((waiter, response)),
        None => {
            assert(final(pending)@ =~= old(pending)@);
            None
        },
    }
}

/// Registers `waiter` under `id` and builds the request that carries `cmd`
/// under that id.
pub fn register_command<T>(pending: &mut PendingRequests<T>, id: String, waiter: T, cmd: Command) -> (res:
    CommandRequest)
    ensures
        final(pending)@ == old(pending)@.insert(id@, waiter),
        res.id@ == id@,
        res.request_type@ == "request"@,
        res.uri@ == command_uri(cmd),
        res.payload == command_payload(cmd),
{
    pending.insert(id.clone(), waiter);
    create_command(id, cmd)
}

/// A request registered under an id is the one that the answer with that id
/// reaches, and handing it its answer leaves the other waiting requests as
/// they were.
pub proof fn lemma_answer_reaches_its_request<T>(
    waiting: Map<Seq<char>, T>,
    id: Seq<char>,
    waiter: T,
)
    ensures
        waiting.insert(id, waiter).dom().contains(id),
        waiting.insert(id, waiter)[id] == waiter,
        waiting.insert(id, waiter).remove(id) == waiting.remove(id),
{
    assert(waiting.insert(id, waiter).remove(id) =~= waiting.remove(id));
}

/// `luna://` followed by the luna URI.
pub open spec fn luna_address(luna_uri: Seq<char>) -> Seq<char> {
    "luna://"@ + luna_uri
}

/// The object `{ "uri": uri, "params": params }`.
pub open spec fn luna_target(uri: Seq<char>, params: Value) -> Value {
    json_object(seq![("uri"@, json_string(uri)), ("params"@, params)])
}

/// The alert that calls the luna URI with `params` when its one button is
/// clicked, when it is closed and when it fails.
pub open spec fn luna_alert(luna_uri: Seq<char>, params: Value) -> Value {
    let address = luna_address(luna_uri);
    json_object(
        seq![
            ("message"@, json_string(" "@)),
            (
                "buttons"@,
                json_array(
                    seq![
                        json_object(
                            seq![
                                ("label"@, json_string(""@)),
                                ("onClick"@, json_string(address)),
                                ("params"@, params),
                            ],
                        ),
                    ],
                ),
            ),
            ("onclose"@, luna_target(address, params)),
            ("onfail"@, luna_target(address, params)),
        ],
    )
}

/// Builds `{ "uri": uri, "params": params }`.
fn luna_target_object(uri: &String, params: Value) -> (res: Value)
    ensures
        res == luna_target(uri@, params),
{
    let mut entries: Vec<(String, Value)> = Vec::new();
    entries.push(("uri".to_owned(), value_from_string(uri.clone())));
    entries.push(("params".to_owned(), params));
    assert(entries_view(entries@) =~= seq![("uri"@, json_string(uri@)), ("params"@, params)]);
    value_from_entries(entries)
}

/// The payload of the alert through which a luna URI is called.
pub fn luna_alert_payload(luna_uri: &str, params: Value) -> (res: Value)
    ensures
        res == luna_alert(luna_uri@, params),
        res == json_object(
            seq![
                ("message"@, json_string(" "@)),
                (
                    "buttons"@,
                    json_array(
                        seq![
                            json_object(
                                seq![
                                    ("label"@, json_string(""@)),
                                    ("onClick"@, json_string("luna://"@ + luna_uri@)),
                                    ("params"@, params),
                                ],
                            ),
                        ],
                    ),
                ),
                (
                    "onclose"@,
                    json_object(
                        seq![("uri"@, json_string("luna://"@ + luna_uri@)), ("params"@, params)],
                    ),
                ),
                (
                    "onfail"@,
                    json_object(
                        seq![("uri"@, json_string("luna://"@ + luna_uri@)), ("params"@, params)],
                    ),
                ),
            ],
        ),
{
    let mut address = "luna://".to_owned();
    address.append(luna_uri);
    let mut button: Vec<(String, Value)> = Vec::new();
    button.push(("label".to_owned(), value_from_string("".to_owned())));
    button.push(("onClick".to_owned(), value_from_string(address.clone())));
    button.push(("params".to_owned(), value_clone(&params)));
    let ghost button_view = entries_view(button@);
    assert(button_view =~= seq![
        ("label"@, json_string(""@)),
        ("onClick"@, json_string(address@)),
        ("params"@, params),
    ]);
    let mut buttons: Vec<Value> = Vec::new();
    buttons.push(value_from_entries(button));
    let ghost buttons_view = buttons@;
    let onclose = luna_target_object(&address, value_clone(&params));
    let onfail = luna_target_object(&address, params);
    let mut entries: Vec<(String, Value)> = Vec::new();
    entries.push(("message".to_owned(), value_from_string(" ".to_owned())));
    entries.push(("buttons".to_owned(), value_from_vec(buttons)));
    entries.push(("onclose".to_owned(), onclose));
    entries.push(("onfail".to_owned(), onfail));
    assert(buttons_view =~= seq![json_object(button_view)]);
    assert(entries_view(entries@) =~= seq![
        ("message"@, json_string(" "@)),
        ("buttons"@, json_array(buttons_view)),
        ("onclose"@, luna_target(address@, params)),
        ("onfail"@, luna_target(address@, params)),
    ]);
    value_from_entries(entries)
}

/// The alert command through which the TV's luna API is called.
pub fn luna_alert_command(luna_uri: &str, params: Value) -> (res: Command)
    ensures
        res == Command::CreateAlert(luna_alert(luna_uri@, params)),
{
    Command::CreateAlert(luna_alert_payload(luna_uri, params))
}

/// Whether the alert id can be read from the answer to an alert: where the
/// answer has a payload, its member `alertId` is a string.
pub open spec fn alert_id_readable(alert: CommandResponse) -> bool {
    alert.payload matches Some(payload) ==> json_str_of(json_field(payload, "alertId"@)) is Some
}

/// What comes after the alert has been created: closing it again, by the id
/// in the answer's payload; an answer without payload is an error.
pub open spec fn close_alert_outcome(alert: CommandResponse, res: Result<Command, ClientError>) -> bool {
    match alert.payload {
        None => res == Err::<Command, ClientError>(ClientError::CommandSendError),
        Some(payload) => res matches Ok(Command::CloseAlert(id)) && json_str_of(
            json_field(payload, "alertId"@),
        ) == Some(id@),
    }
}

/// The command that closes the alert created for a luna call.
pub fn close_alert_command(alert: &CommandResponse) -> (res: Result<Command, ClientError>)
    requires
        alert_id_readable(*alert),
    ensures
        close_alert_outcome(*alert, res),
{
    match &alert.payload {
        None => Err(ClientError::CommandSendError),
        Some(payload) => match value_as_str(value_field(payload, "alertId")) {
            Some(id) => Ok(Command::CloseAlert(id.to_owned())),
            None => {
                assert(false);
                Err(ClientError::CommandSendError)
            },
        },
    }
}

/// As `close_alert_command`, but `None` where the answer's payload has no
/// string `alertId` (where reading it would panic).
pub fn checked_close_alert_command(alert: &CommandResponse) -> (res: Option<
    Result<Command, ClientError>,
>)
    ensures
        res is None <==> !alert_id_readable(*alert),
        res matches Some(r) ==> close_alert_outcome(*alert, r),
{
    if let Some(payload) = &alert.payload {
        if value_as_str(value_field(payload, "alertId")).is_none() {
            return None;
        }
    }
    Some(close_alert_command(alert))
}

/// An answer is read from every message that has a string `id`, whatever
/// else it holds, unless its payload's `pairingType` is `"PROMPT"`; the answer
/// carries that id and that payload.
pub proof fn lemma_answers_are_read(text: Seq<char>)
    ensures
        response_parts(text) is Some <==> (json_parse(text) matches Some(m) && json_str_of(
            json_field(m, "id"@),
        ) is Some && json_str_of(json_field(json_field(m, "payload"@), "pairingType"@)) != Some(
            "PROMPT"@,
        )),
        json_parse(text) matches Some(m) ==> (response_parts(text) matches Some((id, payload)) ==> (
        json_str_of(json_field(m, "id"@)) == Some(id) && payload == json_field(m, "payload"@))),
{
}

/// The key kept from a registration is the payload's string member
/// `client-key`, whole.
pub proof fn lemma_registration_key_is_client_key(registration: CommandResponse)
    ensures
        match registration.payload {
            Some(payload) => registration_key(registration) == json_str_of(
                json_field(payload, "client-key"@),
            ),
            None => registration_key(registration) is None,
        },
{
}

/// The alert of a luna call calls `luna://` followed by the luna URI, from its
/// button, when closed and when failing, each time with the given params.
pub proof fn lemma_luna_alert_calls_luna_scheme(luna_uri: Seq<char>, params: Value)
    ensures
        luna_alert(luna_uri, params) == json_object(
            seq![
                ("message"@, json_string(" "@)),
                (
                    "buttons"@,
                    json_array(
                        seq![
                            json_object(
                                seq![
                                    ("label"@, json_string(""@)),
                                    ("onClick"@, json_string("luna://"@ + luna_uri)),
                                    ("params"@, params),
                                ],
                            ),
                        ],
                    ),
                ),
                (
                    "onclose"@,
                    json_object(seq![("uri"@, json_string("luna://"@ + luna_uri)), ("params"@, params)]),
                ),
                (
                    "onfail"@,
                    json_object(seq![("uri"@, json_string("luna://"@ + luna_uri)), ("params"@, params)]),
                ),
            ],
        ),
{
}

/// The handshake can be written exactly when it is an object or null and, where
/// a key is to be written into its payload, that payload is an object or null too.
pub proof fn lemma_handshake_writable(handshake: Value, key: Option<Seq<char>>)
    ensures
        handshake_writable(handshake, key) == ((json_is_object(handshake) || json_is_null(handshake))
            && (key is Some ==> (json_is_object(json_field(handshake, "payload"@)) || json_is_null(
            json_field(handshake, "payload"@),
        )))),
{
}

/// After an alert, the next step closes it by the string `alertId` of the
/// answer's payload; an answer without payload fails with `CommandSendError`.
pub proof fn lemma_close_alert_step(alert: CommandResponse, res: Result<Command, ClientError>)
    ensures
        alert_id_readable(alert) == (alert.payload matches Some(p) ==> json_str_of(
            json_field(p, "alertId"@),
        ) is Some),
        close_alert_outcome(alert, res) == match alert.payload {
            None => res == Err::<Command, ClientError>(ClientError::CommandSendError),
            Some(p) => res matches Ok(Command::CloseAlert(id)) && json_str_of(
                json_field(p, "alertId"@),
            ) == Some(id@),
        },
{
}

} // verus!
