//! MQTT side of a node: commands it accepts, messages it publishes (with
//! their topic and retain flag), quality of service, and the client setup.
use vstd::prelude::*;
use vstd::string::*;

use crate::config::{device_type_name, normalized_prefix, topic_text, AppConfig};
use crate::metadata::{build_metadata_message, rfc3339_of_millis, MetadataMessage};
use crate::state::{child_taken, start_decision_of, NodeState, StartDecision, StopDecision};
use crate::text::{trim, trim_ws};

verus! {

/// A command received on the command topic (`{"type":"start"}`, ...).
#[derive(Debug, Clone, Copy, PartialEq, Eq, Structural)]
pub enum CommandMessage {
    Start,
    Stop,
    Status,
}

/// Streaming state published on the status topic.
#[derive(Debug, Clone)]
pub struct StatusMessage {
    pub device_id: String,
    pub device_type: String,
    pub is_streaming: bool,
    pub stream_url: String,
    pub unix_millis: u128,
}

/// Announcement published on the register topic.
#[derive(Debug, Clone)]
pub struct RegisterMessage {
    pub device_id: String,
    pub device_type: String,
    pub unix_millis: u128,
    pub capabilities: Vec<String>,
}

/// MQTT quality of service.
#[derive(Debug, Clone, Copy, PartialEq, Eq, Structural)]
pub enum QosLevel {
    AtMostOnce,
    AtLeastOnce,
    ExactlyOnce,
}

/// The quality of service a configured number stands for.
pub open spec fn qos_of(value: u8) -> QosLevel {
    if value == 0 {
        QosLevel::AtMostOnce
    } else if value == 2 {
        QosLevel::ExactlyOnce
    } else {
        QosLevel::AtLeastOnce
    }
}

/// `0` is at most once, `2` exactly once, anything else at least once.
pub fn map_qos(value: u8) -> (r: QosLevel)
    ensures
        r == qos_of(value),
{
    match value {
        0 => QosLevel::AtMostOnce,
        2 => QosLevel::ExactlyOnce,
        _ => QosLevel::AtLeastOnce,
    }
}

/// A message to publish: where, whether the broker retains it, and what.
pub struct Outbound<M> {
    pub topic: String,
    pub retain: bool,
    pub payload: M,
}

/// Client id used toward the broker: `edge-camera-<trimmed device id>`.
pub open spec fn client_id_text(device_id: Seq<char>) -> Seq<char> {
    "edge-camera-"@ + trim_ws(device_id)
}

/// The client id is `edge-camera-` followed by the whole trimmed device id:
/// twelve characters longer than that id, ending in it, so devices with
/// different trimmed ids get different client ids.
pub proof fn lemma_client_id_text(a: Seq<char>, b: Seq<char>)
    ensures
        client_id_text(a).len() == 12 + trim_ws(a).len(),
        client_id_text(a).subrange(0, 12) == "edge-camera-"@,
        client_id_text(a).subrange(12, client_id_text(a).len() as int) == trim_ws(a),
        trim_ws(a) != trim_ws(b) ==> client_id_text(a) != client_id_text(b),
{
    reveal_strlit("edge-camera-");
    let ca = client_id_text(a);
    let cb = client_id_text(b);
    assert(ca.subrange(0, 12) =~= "edge-camera-"@);
    assert(ca.subrange(12, ca.len() as int) =~= trim_ws(a));
    assert(cb.subrange(12, cb.len() as int) =~= trim_ws(b));
}

/// What the broker connection is made with.
#[derive(Debug, Clone)]
pub struct MqttSettings {
    pub client_id: String,
    pub host: String,
    pub port: u16,
    /// Username and password, set only when the username is not blank.
    pub credentials: Option<(String, String)>,
    pub keep_alive_seconds: u64,
    /// Capacity of the request channel between client and event loop.
    pub channel_capacity: usize,
}

/// The connection settings of a configuration.
pub fn mqtt_settings(config: &AppConfig) -> (r: MqttSettings)
    ensures
        r.client_id@ == client_id_text(config.device.id@),
        r.host@ == trim_ws(config.mqtt.jetson_netbird_ip@),
        r.port == config.mqtt.port,
        trim_ws(config.mqtt.username@).len() == 0 ==> r.credentials is None,
        trim_ws(config.mqtt.username@).len() != 0 ==> (r.credentials matches Some(c) && c.0@
            == config.mqtt.username@ && c.1@ == config.mqtt.password@),
        r.keep_alive_seconds == config.mqtt.keep_alive_seconds,
        r.channel_capacity == 64,
{
    let mut client_id = String::from_str("edge-camera-");
    client_id.append(trim(config.device.id.as_str()));
    let credentials = if !trim(config.mqtt.username.as_str()).is_empty() {
        Some((config.mqtt.username.clone(), config.mqtt.password.clone()))
    } else {
        None
    };
    MqttSettings {
        client_id,
        host: String::from_str(trim(config.mqtt.jetson_netbird_ip.as_str())),
        port: config.mqtt.port,
        credentials,
        keep_alive_seconds: config.mqtt.keep_alive_seconds,
        channel_capacity: 64,
    }
}

#[verifier::external_type_specification]
#[verifier::external_body]
pub struct ExMqttOptions(rumqttc::MqttOptions);

#[verifier::external_type_specification]
#[verifier::external_body]
pub struct ExAsyncClient(rumqttc::AsyncClient);

#[verifier::external_type_specification]
#[verifier::external_body]
pub struct ExEventLoop(rumqttc::EventLoop);

/// The options `MqttOptions::new(client_id, host, port)` makes: these
/// three fields set and the crate's fixed defaults for every other one.
pub uninterp spec fn options_built(client_id: Seq<char>, host: Seq<char>, port: u16) -> rumqttc::MqttOptions;

/// The options after `set_credentials(username, password)`, which stores
/// the pair and changes nothing else.
pub uninterp spec fn options_with_credentials(
    options: rumqttc::MqttOptions,
    username: Seq<char>,
    password: Seq<char>,
) -> rumqttc::MqttOptions;

/// The options after `set_keep_alive` with a keep-alive of `seconds`
/// whole seconds, which stores the duration and changes nothing else.
pub uninterp spec fn options_with_keep_alive(options: rumqttc::MqttOptions, seconds: u64) -> rumqttc::MqttOptions;

/// The options an event loop connects with (its public `mqtt_options`
/// field).
pub uninterp spec fn event_loop_options(event_loop: rumqttc::EventLoop) -> rumqttc::MqttOptions;

/// The capacity of the bounded request channel an event loop was made
/// with.
pub uninterp spec fn event_loop_capacity(event_loop: rumqttc::EventLoop) -> usize;

/// The client whose requests reach an event loop: it holds a sender of the
/// event loop's request channel.
pub uninterp spec fn client_of(event_loop: rumqttc::EventLoop) -> rumqttc::AsyncClient;

/// `MqttOptions::new(client_id, host, port)`; it does not panic. The
/// result is `options_built` of the three arguments.
#[verifier::external_body]
pub(crate) fn mqtt_options_new(client_id: String, host: String, port: u16) -> (r: rumqttc::MqttOptions)
    ensures
        r == options_built(client_id@, host@, port),
{
    rumqttc::MqttOptions::new(client_id, host, port)
}

/// `MqttOptions::set_credentials(username, password)`: the options become
/// `options_with_credentials` of what they were and the pair.
#[verifier::external_body]
pub(crate) fn mqtt_options_set_credentials(options: &mut rumqttc::MqttOptions, username: String, password: String)
    ensures
        *final(options) == options_with_credentials(*old(options), username@, password@),
{
    options.set_credentials(username, password);
}

/// `MqttOptions::set_keep_alive(Duration::from_secs(seconds))`: the options
/// become `options_with_keep_alive` of what they were and `seconds`. Its
/// source panics only for a duration strictly between zero and one second,
/// which whole seconds never are.
#[verifier::external_body]
pub(crate) fn mqtt_options_set_keep_alive(options: &mut rumqttc::MqttOptions, seconds: u64)
    ensures
        *final(options) == options_with_keep_alive(*old(options), seconds),
{
    options.set_keep_alive(std::time::Duration::from_secs(seconds));
}

/// `AsyncClient::new(options, capacity)`: a client and the event loop that
/// serves it; the event loop holds `options` and a request channel of
/// `capacity`, and the client is the one that sends into that channel (no
/// network activity until the loop is polled).
#[verifier::external_body]
pub(crate) fn async_client_new(options: rumqttc::MqttOptions, capacity: usize) -> (r: (rumqttc::AsyncClient, rumqttc::EventLoop))
    ensures
        event_loop_options(r.1) == options,
        event_loop_capacity(r.1) == capacity,
        r.0 == client_of(r.1),
{
    rumqttc::AsyncClient::new(options, capacity)
}

/// Credentials that are set: the pair, when the username is not blank.
pub open spec fn credentials_for(username: Seq<char>, password: Seq<char>) -> Option<(Seq<char>, Seq<char>)> {
    if trim_ws(username).len() == 0 {
        None
    } else {
        Some((username, password))
    }
}

/// The options made by `MqttOptions::new(client_id, host, port)`, then
/// `set_credentials` when there are credentials, then `set_keep_alive`.
pub open spec fn options_from(
    client_id: Seq<char>,
    host: Seq<char>,
    port: u16,
    credentials: Option<(Seq<char>, Seq<char>)>,
    keep_alive_seconds: u64,
) -> rumqttc::MqttOptions {
    let base = options_built(client_id, host, port);
    let with_credentials = match credentials {
        Some(pair) => options_with_credentials(base, pair.0, pair.1),
        None => base,
    };
    options_with_keep_alive(with_credentials, keep_alive_seconds)
}

/// The credentials of settings, as text.
pub open spec fn settings_credentials(settings: MqttSettings) -> Option<(Seq<char>, Seq<char>)> {
    match settings.credentials {
        Some(pair) => Some((pair.0@, pair.1@)),
        None => None,
    }
}

/// The options that settings describe.
pub open spec fn settings_options(settings: MqttSettings) -> rumqttc::MqttOptions {
    options_from(
        settings.client_id@,
        settings.host@,
        settings.port,
        settings_credentials(settings),
        settings.keep_alive_seconds,
    )
}

/// The `rumqttc` options of the settings: client id, host and port, the
/// credentials when there are any, and the keep-alive.
pub fn options_from_settings(settings: MqttSettings) -> (r: rumqttc::MqttOptions)
    ensures
        r == settings_options(settings),
{
    let mut options = mqtt_options_new(settings.client_id, settings.host, settings.port);
    match settings.credentials {
        Some((username, password)) => mqtt_options_set_credentials(&mut options, username, password),
        None => {},
    }
    mqtt_options_set_keep_alive(&mut options, settings.keep_alive_seconds);
    options
}

/// A client handle together with the quality of service it publishes and
/// subscribes with.
pub struct MqttClient {
    pub client: rumqttc::AsyncClient,
    pub qos: QosLevel,
}

/// The client and the event loop that must be polled to drive it.
pub struct MqttConnection {
    pub client: MqttClient,
    pub event_loop: rumqttc::EventLoop,
}

impl MqttConnection {
    /// Sets up the broker connection from `mqtt_settings(config)`: client
    /// id, host and port, credentials when the username is not blank, the
    /// keep-alive, and a request channel of capacity 64. The client uses
    /// the configured quality of service.
    pub fn connect(config: &AppConfig) -> (r: MqttConnection)
        ensures
            event_loop_options(r.event_loop) == options_from(
                client_id_text(config.device.id@),
                trim_ws(config.mqtt.jetson_netbird_ip@),
                config.mqtt.port,
                credentials_for(config.mqtt.username@, config.mqtt.password@),
                config.mqtt.keep_alive_seconds,
            ),
            event_loop_capacity(r.event_loop) == 64,
            r.client.client == client_of(r.event_loop),
            r.client.qos == qos_of(config.mqtt.qos),
    {
        let settings = mqtt_settings(config);
        let capacity = settings.channel_capacity;
        proof {
            assert(settings_credentials(settings) == credentials_for(
                config.mqtt.username@,
                config.mqtt.password@,
            ));
        }
        let options = options_from_settings(settings);
        let (client, event_loop) = async_client_new(options, capacity);
        let qos = map_qos(config.mqtt.qos);
        MqttConnection { client: MqttClient { client, qos }, event_loop }
    }
}

/// The process work a command asks for; the status is published after it.
pub enum CommandWork<C> {
    /// Launch the publisher, then report it with `stream_started`.
    Launch,
    /// Stop this publisher (if there is one), then report it with
    /// `stream_stopped`.
    StopPublisher(Option<C>),
    /// A start while RTSP is disabled: ignored with a warning.
    IgnoredStart,
    /// No process work.
    Nothing,
}

/// The work of a start command in a state.
pub open spec fn start_work<C>(is_streaming: bool, rtsp_enabled: bool) -> CommandWork<C> {
    match start_decision_of(is_streaming, rtsp_enabled) {
        StartDecision::Launch => CommandWork::Launch,
        StartDecision::RtspDisabled => CommandWork::IgnoredStart,
        StartDecision::AlreadyStreaming => CommandWork::Nothing,
    }
}

/// Decides what a received command does: a start launches the publisher
/// unless the node streams or RTSP is disabled; a stop takes the publisher
/// out of a streaming node; a status request does no process work.
pub fn command_work<C>(state: &mut NodeState<C>, config: &AppConfig, command: CommandMessage) -> (r:
    CommandWork<C>)
    ensures
        command is Start ==> r == start_work::<C>(old(state).is_streaming, config.rtsp.enabled)
            && *final(state) == *old(state),
        command is Stop && old(state).is_streaming ==> r == CommandWork::StopPublisher(
            old(state).gst_child,
        ) && *final(state) == child_taken(*old(state)),
        command is Stop && !old(state).is_streaming ==> r is Nothing && *final(state) == *old(
            state,
        ),
        command is Status ==> r is Nothing && *final(state) == *old(state),
{
    match command {
        CommandMessage::Start => match state.start_decision(config) {
            StartDecision::Launch => CommandWork::Launch,
            StartDecision::RtspDisabled => CommandWork::IgnoredStart,
            StartDecision::AlreadyStreaming => CommandWork::Nothing,
        },
        CommandMessage::Stop => match state.begin_stop() {
            StopDecision::Stop(child) => CommandWork::StopPublisher(child),
            StopDecision::NotStreaming => CommandWork::Nothing,
        },
        CommandMessage::Status => CommandWork::Nothing,
    }
}

/// Whether an incoming publish is a command: its topic is the command
/// topic.
pub fn is_command_topic(cmd_topic: &String, topic: &String) -> (r: bool)
    ensures
        r == (cmd_topic@ == topic@),
{
    *cmd_topic == *topic
}

/// Capabilities announced on registration.
pub open spec fn node_capabilities() -> Seq<Seq<char>> {
    seq![seq!['r', 't', 's', 'p'], seq!['m', 'e', 't', 'a', 'd', 'a', 't', 'a']]
}

/// The registration published when the node comes up: retained, on the
/// register topic, naming the device and its capabilities `rtsp` and
/// `metadata`.
pub fn register_outbound(config: &AppConfig, unix_millis: u128) -> (r: Outbound<RegisterMessage>)
    ensures
        r.topic@ == topic_text(
            normalized_prefix(config.mqtt.topic_prefix@),
            trim_ws(config.device.id@),
            seq!['r', 'e', 'g', 'i', 's', 't', 'e', 'r'],
        ),
        r.retain,
        r.payload.device_id@ == config.device.id@,
        r.payload.device_type@ == device_type_name(config.device.device_type),
        r.payload.unix_millis == unix_millis,
        r.payload.capabilities@.len() == 2,
        r.payload.capabilities@[0]@ == node_capabilities()[0],
        r.payload.capabilities@[1]@ == node_capabilities()[1],
{
    let topics = config.build_topics();
    proof {
        reveal_strlit("rtsp");
        reveal_strlit("metadata");
    }
    let mut capabilities: Vec<String> = Vec::new();
    capabilities.push(String::from_str("rtsp"));
    capabilities.push(String::from_str("metadata"));
    Outbound {
        topic: topics.register,
        retain: true,
        payload: RegisterMessage {
            device_id: config.device.id.clone(),
            device_type: String::from_str(config.device.device_type.as_str()),
            unix_millis,
            capabilities,
        },
    }
}

/// The streaming state published on the status topic, retained.
pub fn status_outbound(
    config: &AppConfig,
    is_streaming: bool,
    stream_url: &str,
    unix_millis: u128,
) -> (r: Outbound<StatusMessage>)
    ensures
        r.topic@ == topic_text(
            normalized_prefix(config.mqtt.topic_prefix@),
            trim_ws(config.device.id@),
            seq!['s', 't', 'a', 't', 'u', 's'],
        ),
        r.retain,
        r.payload.device_id@ == config.device.id@,
        r.payload.device_type@ == device_type_name(config.device.device_type),
        r.payload.is_streaming == is_streaming,
        r.payload.stream_url@ == stream_url@,
        r.payload.unix_millis == unix_millis,
{
    let topics = config.build_topics();
    Outbound {
        topic: topics.status,
        retain: true,
        payload: StatusMessage {
            device_id: config.device.id.clone(),
            device_type: String::from_str(config.device.device_type.as_str()),
            is_streaming,
            stream_url: String::from_str(stream_url),
            unix_millis,
        },
    }
}

/// One tick's metadata, published on the metadata topic and not retained.
pub fn metadata_outbound(
    config: &AppConfig,
    stream_url: &str,
    sequence: u64,
    unix_millis: u128,
) -> (r: Outbound<MetadataMessage>)
    ensures
        r.topic@ == topic_text(
            normalized_prefix(config.mqtt.topic_prefix@),
            trim_ws(config.device.id@),
            seq!['m', 'e', 't', 'a', 'd', 'a', 't', 'a'],
        ),
        !r.retain,
        r.payload.device_id@ == config.device.id@,
        r.payload.device_type@ == device_type_name(config.device.device_type),
        r.payload.stream_url@ == stream_url@,
        r.payload.sequence == sequence,
        r.payload.unix_millis == unix_millis,
        r.payload.iso8601_utc@ == rfc3339_of_millis(unix_millis),
        r.payload.status@ == seq!['l', 'i', 'v', 'e'],
{
    let topics = config.build_topics();
    Outbound {
        topic: topics.metadata,
        retain: false,
        payload: build_metadata_message(config, stream_url, sequence, unix_millis),
    }
}

/// Period of the metadata loop in milliseconds: the configured tick, but
/// never below 50.
pub fn metadata_period_millis(tick_millis: u64) -> (r: u64)
    ensures
        r == if tick_millis < 50 {
            50
        } else {
            tick_millis
        },
        r >= 50,
{
    if tick_millis < 50 {
        50
    } else {
        tick_millis
    }
}

} // verus!
