//! The Pi 4 + C922 host: a node variant with fixed video settings and an
//! optional WebAssembly metadata processor.
use vstd::prelude::*;
use vstd::string::*;

use crate::config::{
    build_stream_url_from, build_topics_from, normalized_prefix, stream_url_text, topic_text,
};
use crate::mqtt::{
    async_client_new, client_of, credentials_for, event_loop_capacity, event_loop_options, map_qos,
    options_from, options_from_settings, qos_of, settings_credentials, MqttClient,
    CommandMessage, CommandWork, MqttConnection, MqttSettings, Outbound,
};
use crate::state::{child_taken, NodeState, StartDecision, StopDecision};
use crate::text::{decimal, push_decimal, trim, trim_end_matches_char, trim_ws};

verus! {

/// The whole configuration of the host.
#[derive(Debug, Clone)]
pub struct Config {
    pub device: DeviceConfig,
    pub mqtt: MqttConfig,
    pub rtsp: RtspConfig,
    pub wasm: WasmConfig,
}

#[derive(Debug, Clone)]
pub struct DeviceConfig {
    pub id: String,
}

#[derive(Debug, Clone)]
pub struct MqttConfig {
    pub host: String,
    pub port: u16,
    pub username: String,
    pub password: String,
    pub topic_prefix: String,
    pub qos: u8,
    pub keep_alive_seconds: u64,
}

#[derive(Debug, Clone)]
pub struct RtspConfig {
    pub enabled: bool,
    pub listen_port: u16,
    pub path: String,
    pub advertise_host: String,
    pub video_device: String,
    pub width: u32,
    pub height: u32,
    pub fps: u32,
}

#[derive(Debug, Clone)]
pub struct WasmConfig {
    pub enabled: bool,
    pub wasm_module_path: String,
    pub tick_millis: u64,
}

/// Streaming state published on the status topic.
#[derive(Debug, Clone)]
pub struct StatusMessage {
    pub device_id: String,
    pub is_streaming: bool,
    pub stream_url: String,
    pub unix_millis: u128,
}

/// Announcement published on the register topic.
#[derive(Debug, Clone)]
pub struct RegisterMessage {
    pub device_id: String,
    pub unix_millis: u128,
    pub capabilities: Vec<String>,
}

/// Metadata of one tick, as handed to the processor or published as is.
#[derive(Debug, Clone)]
pub struct MetadataInput {
    pub device_id: String,
    pub stream_url: String,
    pub sequence: u64,
    pub unix_millis: u128,
}

/// The host's MQTT topics.
#[derive(Debug, Clone)]
pub struct Topics {
    pub cmd: String,
    pub status: String,
    pub metadata: String,
    pub register: String,
}

/// The topics of this host: `<prefix>/<device id>/<leaf>` with the prefix
/// trimmed and stripped of trailing slashes and the device id as written.
pub fn build_topics(config: &Config) -> (r: Topics)
    ensures
        r.cmd@ == topic_text(
            normalized_prefix(config.mqtt.topic_prefix@),
            config.device.id@,
            seq!['c', 'm', 'd'],
        ),
        r.status@ == topic_text(
            normalized_prefix(config.mqtt.topic_prefix@),
            config.device.id@,
            seq!['s', 't', 'a', 't', 'u', 's'],
        ),
        r.metadata@ == topic_text(
            normalized_prefix(config.mqtt.topic_prefix@),
            config.device.id@,
            seq!['m', 'e', 't', 'a', 'd', 'a', 't', 'a'],
        ),
        r.register@ == topic_text(
            normalized_prefix(config.mqtt.topic_prefix@),
            config.device.id@,
            seq!['r', 'e', 'g', 'i', 's', 't', 'e', 'r'],
        ),
{
    let prefix = trim_end_matches_char(trim(config.mqtt.topic_prefix.as_str()), '/');
    let topics = build_topics_from(prefix, config.device.id.as_str());
    Topics {
        cmd: topics.cmd,
        status: topics.status,
        metadata: topics.metadata,
        register: topics.register,
    }
}

/// The RTSP URL advertised to clients.
pub fn build_stream_url(config: &Config) -> (r: String)
    ensures
        r@ == stream_url_text(config.rtsp.advertise_host@, config.rtsp.listen_port, config.rtsp.path@),
{
    build_stream_url_from(
        config.rtsp.advertise_host.as_str(),
        config.rtsp.listen_port,
        config.rtsp.path.as_str(),
    )
}

/// The connection settings: client id `edge-camera-<device id>`, the
/// configured host and port as written, credentials when the username is
/// not blank, the keep-alive, and a request channel of capacity 50.
pub fn mqtt_settings(config: &Config) -> (r: MqttSettings)
    ensures
        r.client_id@ == "edge-camera-"@ + config.device.id@,
        r.host@ == config.mqtt.host@,
        r.port == config.mqtt.port,
        trim_ws(config.mqtt.username@).len() == 0 ==> r.credentials is None,
        trim_ws(config.mqtt.username@).len() != 0 ==> (r.credentials matches Some(c) && c.0@
            == config.mqtt.username@ && c.1@ == config.mqtt.password@),
        r.keep_alive_seconds == config.mqtt.keep_alive_seconds,
        r.channel_capacity == 50,
{
    let mut client_id = String::from_str("edge-camera-");
    client_id.append(config.device.id.as_str());
    let credentials = if !trim(config.mqtt.username.as_str()).is_empty() {
        Some((config.mqtt.username.clone(), config.mqtt.password.clone()))
    } else {
        None
    };
    MqttSettings {
        client_id,
        host: config.mqtt.host.clone(),
        port: config.mqtt.port,
        credentials,
        keep_alive_seconds: config.mqtt.keep_alive_seconds,
        channel_capacity: 50,
    }
}

/// The options of the host's broker connection.
pub open spec fn host_options(config: Config) -> rumqttc::MqttOptions {
    options_from(
        "edge-camera-"@ + config.device.id@,
        config.mqtt.host@,
        config.mqtt.port,
        credentials_for(config.mqtt.username@, config.mqtt.password@),
        config.mqtt.keep_alive_seconds,
    )
}

/// The `rumqttc` options made from `mqtt_settings`: client id
/// `edge-camera-<device id>`, the host and port, credentials when the
/// username is not blank, and the keep-alive.
pub fn build_mqtt_options(config: &Config) -> (r: rumqttc::MqttOptions)
    ensures
        r == host_options(*config),
{
    let settings = mqtt_settings(config);
    proof {
        assert(settings_credentials(settings) == credentials_for(
            config.mqtt.username@,
            config.mqtt.password@,
        ));
    }
    options_from_settings(settings)
}

/// The client and event loop of the host, made from `build_mqtt_options`
/// with a request channel of capacity 50, publishing with the configured
/// quality of service.
pub fn connect(config: &Config) -> (r: MqttConnection)
    ensures
        event_loop_options(r.event_loop) == host_options(*config),
        event_loop_capacity(r.event_loop) == 50,
        r.client.client == client_of(r.event_loop),
        r.client.qos == qos_of(config.mqtt.qos),
{
    let options = build_mqtt_options(config);
    let (client, event_loop) = async_client_new(options, 50);
    MqttConnection { client: MqttClient { client, qos: map_qos(config.mqtt.qos) }, event_loop }
}

/// Capabilities this host announces.
pub open spec fn host_capabilities() -> Seq<Seq<char>> {
    seq![
        seq!['r', 't', 's', 'p'],
        seq!['w', 'a', 's', 'm', '-', 'm', 'e', 't', 'a', 'd', 'a', 't', 'a'],
    ]
}

/// The registration: retained, on the register topic, with capabilities
/// `rtsp` and `wasm-metadata`.
pub fn register_outbound(topics: &Topics, config: &Config, unix_millis: u128) -> (r: Outbound<
    RegisterMessage,
>)
    ensures
        r.topic@ == topics.register@,
        r.retain,
        r.payload.device_id@ == config.device.id@,
        r.payload.unix_millis == unix_millis,
        r.payload.capabilities@.len() == 2,
        r.payload.capabilities@[0]@ == host_capabilities()[0],
        r.payload.capabilities@[1]@ == host_capabilities()[1],
{
    proof {
        reveal_strlit("rtsp");
        reveal_strlit("wasm-metadata");
    }
    let mut capabilities: Vec<String> = Vec::new();
    capabilities.push(String::from_str("rtsp"));
    capabilities.push(String::from_str("wasm-metadata"));
    Outbound {
        topic: topics.register.clone(),
        retain: true,
        payload: RegisterMessage { device_id: config.device.id.clone(), unix_millis, capabilities },
    }
}

/// The streaming state: retained, on the status topic.
pub fn status_outbound(
    topics: &Topics,
    config: &Config,
    is_streaming: bool,
    stream_url: &str,
    unix_millis: u128,
) -> (r: Outbound<StatusMessage>)
    ensures
        r.topic@ == topics.status@,
        r.retain,
        r.payload.device_id@ == config.device.id@,
        r.payload.is_streaming == is_streaming,
        r.payload.stream_url@ == stream_url@,
        r.payload.unix_millis == unix_millis,
{
    Outbound {
        topic: topics.status.clone(),
        retain: true,
        payload: StatusMessage {
            device_id: config.device.id.clone(),
            is_streaming,
            stream_url: String::from_str(stream_url),
            unix_millis,
        },
    }
}

/// The metadata of one tick, before any processing.
pub fn metadata_input(config: &Config, stream_url: &str, sequence: u64, unix_millis: u128) -> (r:
    MetadataInput)
    ensures
        r.device_id@ == config.device.id@,
        r.stream_url@ == stream_url@,
        r.sequence == sequence,
        r.unix_millis == unix_millis,
{
    MetadataInput {
        device_id: config.device.id.clone(),
        stream_url: String::from_str(stream_url),
        sequence,
        unix_millis,
    }
}

/// What a start command does on this host: nothing (with a warning) when
/// RTSP is disabled, nothing while streaming, else launch the publisher.
pub fn start_decision<C>(state: &NodeState<C>, config: &Config) -> (d: StartDecision)
    ensures
        d == if !config.rtsp.enabled {
            StartDecision::RtspDisabled
        } else if state.is_streaming {
            StartDecision::AlreadyStreaming
        } else {
            StartDecision::Launch
        },
{
    if !config.rtsp.enabled {
        StartDecision::RtspDisabled
    } else if state.is_streaming {
        StartDecision::AlreadyStreaming
    } else {
        StartDecision::Launch
    }
}

/// The work of a start command on this host.
pub open spec fn host_start_work<C>(is_streaming: bool, rtsp_enabled: bool) -> CommandWork<C> {
    if !rtsp_enabled {
        CommandWork::IgnoredStart
    } else if is_streaming {
        CommandWork::Nothing
    } else {
        CommandWork::Launch
    }
}

/// Decides what a received command does on this host: a start launches the
/// publisher unless RTSP is disabled or the node streams; a stop takes the
/// publisher out of a streaming node; a status request does no process work.
pub fn command_work<C>(state: &mut NodeState<C>, config: &Config, command: CommandMessage) -> (r:
    CommandWork<C>)
    ensures
        command is Start ==> r == host_start_work::<C>(old(state).is_streaming, config.rtsp.enabled)
            && *final(state) == *old(state),
        command is Stop && old(state).is_streaming ==> r == CommandWork::StopPublisher(
            old(state).gst_child,
        ) && *final(state) == child_taken(*old(state)),
        command is Stop && !old(state).is_streaming ==> r is Nothing && *final(state) == *old(
            state,
        ),
        command is Status ==> r is Nothing && *final(state) == *old(state),
{
    match command {
        CommandMessage::Start => match start_decision(state, config) {
            StartDecision::Launch => CommandWork::Launch,
            StartDecision::RtspDisabled => CommandWork::IgnoredStart,
            StartDecision::AlreadyStreaming => CommandWork::Nothing,
        },
        CommandMessage::Stop => match state.begin_stop() {
            StopDecision::Stop(child) => CommandWork::StopPublisher(child),
            StopDecision::NotStreaming => CommandWork::Nothing,
        },
        CommandMessage::Status => CommandWork::Nothing,
    }
}

/// The gst-launch pipeline of this host: fixed bitrate 1500 and key
/// interval 30, publishing to `rtsp://127.0.0.1:<port>/<path>`.
pub open spec fn pi4_command_line(config: Config) -> Seq<char> {
    "gst-launch-1.0 -q v4l2src device="@ + config.rtsp.video_device@ + " ! video/x-raw,width="@
        + decimal(config.rtsp.width as nat) + ",height="@ + decimal(config.rtsp.height as nat)
        + ",framerate="@ + decimal(config.rtsp.fps as nat)
        + "/1 ! videoconvert ! x264enc tune=zerolatency speed-preset=ultrafast bitrate=1500 key-int-max=30 ! rtph264pay config-interval=1 pt=96 ! rtspclientsink location="@
        + crate::camera::local_publish_url(config.rtsp.listen_port, config.rtsp.path@)
}

/// The host's pipeline asks the camera for the configured width, height and
/// frame rate (`video/x-raw,width=<w>,height=<h>,framerate=<fps>/1`) and
/// reads from the configured video device.
pub proof fn lemma_pipeline_carries_video_settings(config: Config)
    ensures
        ({
            let line = pi4_command_line(config);
            let caps = "video/x-raw,width="@ + decimal(config.rtsp.width as nat) + ",height="@
                + decimal(config.rtsp.height as nat) + ",framerate="@ + decimal(
                config.rtsp.fps as nat,
            ) + "/1"@;
            let device = "device="@ + config.rtsp.video_device@ + " "@;
            &&& exists|i: int|
                0 <= i && i + caps.len() <= line.len() && #[trigger] line.subrange(i, i + caps.len())
                    == caps
            &&& exists|j: int|
                0 <= j && j + device.len() <= line.len() && #[trigger] line.subrange(
                    j,
                    j + device.len(),
                ) == device
        }),
{
    reveal_strlit("gst-launch-1.0 -q v4l2src device=");
    reveal_strlit("gst-launch-1.0 -q v4l2src ");
    reveal_strlit("device=");
    reveal_strlit(" ");
    reveal_strlit(" ! video/x-raw,width=");
    reveal_strlit("! ");
    reveal_strlit("video/x-raw,width=");
    reveal_strlit(",height=");
    reveal_strlit(",framerate=");
    reveal_strlit("/1");
    reveal_strlit(
        "/1 ! videoconvert ! x264enc tune=zerolatency speed-preset=ultrafast bitrate=1500 key-int-max=30 ! rtph264pay config-interval=1 pt=96 ! rtspclientsink location=",
    );
    reveal_strlit(
        " ! videoconvert ! x264enc tune=zerolatency speed-preset=ultrafast bitrate=1500 key-int-max=30 ! rtph264pay config-interval=1 pt=96 ! rtspclientsink location=",
    );
    let line = pi4_command_line(config);
    let caps = "video/x-raw,width="@ + decimal(config.rtsp.width as nat) + ",height="@ + decimal(
        config.rtsp.height as nat,
    ) + ",framerate="@ + decimal(config.rtsp.fps as nat) + "/1"@;
    let device = "device="@ + config.rtsp.video_device@ + " "@;
    let head = "gst-launch-1.0 -q v4l2src "@;
    let tail = " ! videoconvert ! x264enc tune=zerolatency speed-preset=ultrafast bitrate=1500 key-int-max=30 ! rtph264pay config-interval=1 pt=96 ! rtspclientsink location="@
        + crate::camera::local_publish_url(config.rtsp.listen_port, config.rtsp.path@);
    assert(line =~= head + device + "! "@ + caps + tail);
    let j = head.len() as int;
    assert(line.subrange(j, j + device.len()) =~= device);
    let i = (head.len() + device.len() + 2) as int;
    assert(line.subrange(i, i + caps.len()) =~= caps);
}

/// The shell command line that `spawn_gstreamer_rtsp` runs with `sh -lc`.
pub fn gstreamer_command_line(config: &Config) -> (r: String)
    ensures
        r@ == pi4_command_line(*config),
{
    let publish_url = crate::camera::local_publish_url_from(
        config.rtsp.listen_port,
        config.rtsp.path.as_str(),
    );
    let mut line = String::from_str("gst-launch-1.0 -q v4l2src device=");
    line.append(config.rtsp.video_device.as_str());
    line.append(" ! video/x-raw,width=");
    push_decimal(&mut line, config.rtsp.width as u128);
    line.append(",height=");
    push_decimal(&mut line, config.rtsp.height as u128);
    line.append(",framerate=");
    push_decimal(&mut line, config.rtsp.fps as u128);
    line.append(
        "/1 ! videoconvert ! x264enc tune=zerolatency speed-preset=ultrafast bitrate=1500 key-int-max=30 ! rtph264pay config-interval=1 pt=96 ! rtspclientsink location=",
    );
    line.append(publish_url.as_str());
    assert(line@ =~= pi4_command_line(*config));
    line
}

/// The WebAssembly metadata processor, run with `wasmedge`.
#[derive(Debug, Clone)]
pub struct WasmProcessor {
    pub wasm_module_path: String,
}

impl WasmProcessor {
    /// A processor that runs the module at `wasm_module_path`.
    pub fn new(wasm_module_path: &str) -> (r: Self)
        ensures
            r.wasm_module_path@ == wasm_module_path@,
    {
        WasmProcessor { wasm_module_path: String::from_str(wasm_module_path) }
    }
}

#[verifier::external_type_specification]
#[verifier::external_body]
pub struct ExSystemTime(std::time::SystemTime);

#[verifier::external_type_specification]
#[verifier::external_body]
pub struct ExSystemTimeError(std::time::SystemTimeError);

/// `SystemTime::now`: the clock; nothing is known of it.
pub assume_specification[std::time::SystemTime::now]() -> std::time::SystemTime;

/// `Duration::as_millis`: the whole milliseconds of an opaque duration.
pub assume_specification[core::time::Duration::as_millis](d: &core::time::Duration) -> u128;

/// `SystemTime::duration_since(UNIX_EPOCH)`: fails when the time lies
/// before the epoch; nothing is stated of the outcome.
#[verifier::external_body]
fn duration_since_unix_epoch(t: std::time::SystemTime) -> Result<
    core::time::Duration,
    std::time::SystemTimeError,
> {
    t.duration_since(std::time::UNIX_EPOCH)
}

/// The clock reads a time before 1970-01-01.
#[derive(Debug, Clone, Copy, PartialEq, Eq, Structural)]
pub enum ClockError {
    BeforeEpoch,
}

/// Milliseconds since the epoch from the system clock, or an error when the
/// clock lies before the epoch. It depends on the clock: nothing is stated
/// of the value.
pub fn now_unix_millis() -> Result<u128, ClockError> {
    let now = std::time::SystemTime::now();
    match duration_since_unix_epoch(now) {
        Ok(duration) => Ok(duration.as_millis()),
        Err(_) => Err(ClockError::BeforeEpoch),
    }
}

} // verus!
