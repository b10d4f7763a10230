//! Node configuration: its sections, defaults, validation, the stream preset
//! of each device type, the advertised stream URL and the MQTT topics.
use vstd::prelude::*;
use vstd::string::*;

use crate::text::{
    decimal, push_decimal, trim, trim_end_char, trim_end_matches_char, trim_start_char,
    trim_start_matches_char, trim_ws,
};

verus! {

/// Supported edge hardware profiles ("pi4" or "pi_zero_2w" in config.toml).
#[derive(Debug, Clone, Copy, PartialEq, Eq, Structural)]
pub enum DeviceType {
    Pi4,
    PiZero2W,
}

/// The configuration name of a device type.
pub open spec fn device_type_name(t: DeviceType) -> Seq<char> {
    match t {
        DeviceType::Pi4 => seq!['p', 'i', '4'],
        DeviceType::PiZero2W => seq!['p', 'i', '_', 'z', 'e', 'r', 'o', '_', '2', 'w'],
    }
}

impl DeviceType {
    /// The name of the device type as written in config.toml.
    pub fn as_str(self) -> (r: &'static str)
        ensures
            r@ == device_type_name(self),
    {
        match self {
            DeviceType::Pi4 => {
                proof {
                    reveal_strlit("pi4");
                }
                "pi4"
            },
            DeviceType::PiZero2W => {
                proof {
                    reveal_strlit("pi_zero_2w");
                }
                "pi_zero_2w"
            },
        }
    }
}

/// The whole node configuration.
#[derive(Debug, Clone)]
pub struct AppConfig {
    pub device: DeviceSection,
    pub mqtt: MqttSection,
    pub rtsp: RtspSection,
    pub metadata: MetadataSection,
}

/// Which device this node is.
#[derive(Debug, Clone)]
pub struct DeviceSection {
    pub id: String,
    pub device_type: DeviceType,
}

/// How to reach the MQTT broker.
#[derive(Debug, Clone)]
pub struct MqttSection {
    /// Jetson (or broker) NetBird IP or hostname.
    pub jetson_netbird_ip: String,
    pub port: u16,
    pub username: String,
    pub password: String,
    pub topic_prefix: String,
    pub qos: u8,
    pub keep_alive_seconds: u64,
}

/// The RTSP stream this node publishes.
#[derive(Debug, Clone)]
pub struct RtspSection {
    pub enabled: bool,
    /// NetBird IP or DNS of this node, used in the advertised stream URL.
    pub advertise_host: String,
    pub listen_port: u16,
    pub path: String,
    pub video_device: String,
    /// Optional overrides of the device type's preset.
    pub width: Option<u32>,
    pub height: Option<u32>,
    pub fps: Option<u32>,
    pub bitrate_kbps: Option<u32>,
}

/// How often metadata is published.
#[derive(Debug, Clone)]
pub struct MetadataSection {
    pub tick_millis: u64,
}

/// Default MQTT topic prefix.
pub fn default_topic_prefix() -> (r: String)
    ensures
        r@ == seq!['e', 'd', 'g', 'e', '-', 'c', 'a', 'm', 'e', 'r', 'a'],
{
    proof {
        reveal_strlit("edge-camera");
    }
    String::from_str("edge-camera")
}

/// Default MQTT quality of service (at least once).
pub fn default_qos() -> (r: u8)
    ensures
        r == 1,
{
    1
}

/// Default MQTT keep-alive in seconds.
pub fn default_keep_alive() -> (r: u64)
    ensures
        r == 30,
{
    30
}

/// Default of `rtsp.enabled`.
pub fn default_true() -> (r: bool)
    ensures
        r,
{
    true
}

/// Default RTSP port of the local MediaMTX server.
pub fn default_rtsp_port() -> (r: u16)
    ensures
        r == 8554,
{
    8554
}

/// Default metadata period in milliseconds.
pub fn default_tick_ms() -> (r: u64)
    ensures
        r == 200,
{
    200
}

/// A configuration that `AppConfig::validate` rejects.
#[derive(Debug, Clone, Copy, PartialEq, Eq, Structural)]
pub enum ConfigError {
    /// `device.id` is empty or whitespace.
    EmptyDeviceId,
    /// `mqtt.jetson_netbird_ip` is empty or whitespace.
    EmptyBrokerHost,
    /// `rtsp.advertise_host` is empty or whitespace.
    EmptyAdvertiseHost,
}

impl ConfigError {
    /// The message the node reports for this error.
    pub fn message(self) -> (r: &'static str)
        ensures
            r@ == match self {
                ConfigError::EmptyDeviceId => "device.id must not be empty"@,
                ConfigError::EmptyBrokerHost => "mqtt.jetson_netbird_ip must not be empty"@,
                ConfigError::EmptyAdvertiseHost =>
                    "rtsp.advertise_host must not be empty (this Pi's NetBird IP)"@,
            },
    {
        match self {
            ConfigError::EmptyDeviceId => "device.id must not be empty",
            ConfigError::EmptyBrokerHost => "mqtt.jetson_netbird_ip must not be empty",
            ConfigError::EmptyAdvertiseHost =>
                "rtsp.advertise_host must not be empty (this Pi's NetBird IP)",
        }
    }
}

/// The outcome of validating a configuration: the first of the three
/// required names that is blank, in the order device id, broker host,
/// advertised host.
pub open spec fn validation_result(config: AppConfig) -> Result<(), ConfigError> {
    if trim_ws(config.device.id@).len() == 0 {
        Err(ConfigError::EmptyDeviceId)
    } else if trim_ws(config.mqtt.jetson_netbird_ip@).len() == 0 {
        Err(ConfigError::EmptyBrokerHost)
    } else if trim_ws(config.rtsp.advertise_host@).len() == 0 {
        Err(ConfigError::EmptyAdvertiseHost)
    } else {
        Ok(())
    }
}

/// Video settings of the stream.
#[derive(Debug, Clone)]
pub struct StreamPreset {
    pub width: u32,
    pub height: u32,
    pub fps: u32,
    pub bitrate_kbps: u32,
}

/// The MQTT topics of a node.
#[derive(Debug, Clone)]
pub struct MqttTopics {
    pub cmd: String,
    pub status: String,
    pub metadata: String,
    pub register: String,
}

/// Preset (width, height, fps, bitrate in kbps) of a device type.
pub open spec fn device_preset(t: DeviceType) -> (u32, u32, u32, u32) {
    match t {
        DeviceType::Pi4 => (1280, 720, 30, 1500),
        DeviceType::PiZero2W => (640, 480, 15, 800),
    }
}

/// An override if given, else the preset value.
pub open spec fn or_preset(o: Option<u32>, preset: u32) -> u32 {
    match o {
        Some(v) => v,
        None => preset,
    }
}

/// The advertised stream URL: `rtsp://<host>:<port>/<path>` with the host
/// trimmed and the path trimmed and stripped of leading slashes.
pub open spec fn stream_url_text(host: Seq<char>, port: u16, path: Seq<char>) -> Seq<char> {
    seq!['r', 't', 's', 'p', ':', '/', '/'] + trim_ws(host) + seq![':'] + decimal(port as nat)
        + seq!['/'] + trim_start_char(trim_ws(path), '/')
}

/// `<prefix>/<device>/<leaf>`.
pub open spec fn topic_text(prefix: Seq<char>, device: Seq<char>, leaf: Seq<char>) -> Seq<char> {
    prefix + seq!['/'] + device + seq!['/'] + leaf
}

/// The topic prefix as used in topics: trimmed and without trailing slashes.
pub open spec fn normalized_prefix(prefix: Seq<char>) -> Seq<char> {
    trim_end_char(trim_ws(prefix), '/')
}

/// Appends `<prefix>/<device>/<leaf>` to an empty string.
fn make_topic(prefix: &str, device: &str, leaf: &str) -> (r: String)
    ensures
        r@ == topic_text(prefix@, device@, leaf@),
{
    proof {
        reveal_strlit("/");
    }
    let mut out = String::from_str(prefix);
    out.append("/");
    out.append(device);
    out.append("/");
    out.append(leaf);
    assert(out@ =~= topic_text(prefix@, device@, leaf@));
    out
}

impl AppConfig {
    /// Rejects a configuration whose device id, broker host or advertised
    /// host is blank.
    pub fn validate(&self) -> (r: Result<(), ConfigError>)
        ensures
            r == validation_result(*self),
    {
        if trim(self.device.id.as_str()).is_empty() {
            return Err(ConfigError::EmptyDeviceId);
        }
        if trim(self.mqtt.jetson_netbird_ip.as_str()).is_empty() {
            return Err(ConfigError::EmptyBrokerHost);
        }
        if trim(self.rtsp.advertise_host.as_str()).is_empty() {
            return Err(ConfigError::EmptyAdvertiseHost);
        }
        Ok(())
    }

    /// The video settings: each override of `rtsp` where given, else the
    /// preset of the device type (pi4: 1280x720, 30 fps, 1500 kbps;
    /// pi_zero_2w: 640x480, 15 fps, 800 kbps).
    pub fn stream_preset(&self) -> (r: StreamPreset)
        ensures
            r.width == or_preset(self.rtsp.width, device_preset(self.device.device_type).0),
            r.height == or_preset(self.rtsp.height, device_preset(self.device.device_type).1),
            r.fps == or_preset(self.rtsp.fps, device_preset(self.device.device_type).2),
            r.bitrate_kbps == or_preset(
                self.rtsp.bitrate_kbps,
                device_preset(self.device.device_type).3,
            ),
    {
        let (default_w, default_h, default_fps, default_bitrate): (u32, u32, u32, u32) =
            match self.device.device_type {
            DeviceType::Pi4 => (1280, 720, 30, 1500),
            DeviceType::PiZero2W => (640, 480, 15, 800),
        };
        StreamPreset {
            width: unwrap_or(self.rtsp.width, default_w),
            height: unwrap_or(self.rtsp.height, default_h),
            fps: unwrap_or(self.rtsp.fps, default_fps),
            bitrate_kbps: unwrap_or(self.rtsp.bitrate_kbps, default_bitrate),
        }
    }

    /// The RTSP URL advertised to clients.
    pub fn build_stream_url(&self) -> (r: String)
        ensures
            r@ == stream_url_text(self.rtsp.advertise_host@, self.rtsp.listen_port, self.rtsp.path@),
    {
        build_stream_url_from(
            self.rtsp.advertise_host.as_str(),
            self.rtsp.listen_port,
            self.rtsp.path.as_str(),
        )
    }

    /// The command, status, metadata and register topics:
    /// `<prefix>/<device id>/<leaf>` with the prefix trimmed and stripped of
    /// trailing slashes and the device id trimmed.
    pub fn build_topics(&self) -> (r: MqttTopics)
        ensures
            r.cmd@ == topic_text(
                normalized_prefix(self.mqtt.topic_prefix@),
                trim_ws(self.device.id@),
                seq!['c', 'm', 'd'],
            ),
            r.status@ == topic_text(
                normalized_prefix(self.mqtt.topic_prefix@),
                trim_ws(self.device.id@),
                seq!['s', 't', 'a', 't', 'u', 's'],
            ),
            r.metadata@ == topic_text(
                normalized_prefix(self.mqtt.topic_prefix@),
                trim_ws(self.device.id@),
                seq!['m', 'e', 't', 'a', 'd', 'a', 't', 'a'],
            ),
            r.register@ == topic_text(
                normalized_prefix(self.mqtt.topic_prefix@),
                trim_ws(self.device.id@),
                seq!['r', 'e', 'g', 'i', 's', 't', 'e', 'r'],
            ),
    {
        let prefix = trim_end_matches_char(trim(self.mqtt.topic_prefix.as_str()), '/');
        let device_id = trim(self.device.id.as_str());
        build_topics_from(prefix, device_id)
    }
}

/// `Option::unwrap_or` on an optional override.
fn unwrap_or(o: Option<u32>, preset: u32) -> (r: u32)
    ensures
        r == or_preset(o, preset),
{
    match o {
        Some(v) => v,
        None => preset,
    }
}

/// `rtsp://<trimmed host>:<port>/<path without surrounding whitespace and
/// leading slashes>`.
pub fn build_stream_url_from(host: &str, port: u16, path: &str) -> (r: String)
    ensures
        r@ == stream_url_text(host@, port, path@),
{
    proof {
        reveal_strlit("rtsp://");
        reveal_strlit(":");
        reveal_strlit("/");
    }
    let host_text = trim(host);
    let path_text = trim_start_matches_char(trim(path), '/');
    let mut out = String::from_str("rtsp://");
    out.append(host_text);
    out.append(":");
    push_decimal(&mut out, port as u128);
    out.append("/");
    out.append(path_text);
    assert(out@ =~= stream_url_text(host@, port, path@));
    out
}

/// The four topics under `<prefix>/<device>/`.
pub fn build_topics_from(prefix: &str, device: &str) -> (r: MqttTopics)
    ensures
        r.cmd@ == topic_text(prefix@, device@, seq!['c', 'm', 'd']),
        r.status@ == topic_text(prefix@, device@, seq!['s', 't', 'a', 't', 'u', 's']),
        r.metadata@ == topic_text(prefix@, device@, seq!['m', 'e', 't', 'a', 'd', 'a', 't', 'a']),
        r.register@ == topic_text(prefix@, device@, seq!['r', 'e', 'g', 'i', 's', 't', 'e', 'r']),
{
    proof {
        reveal_strlit("cmd");
        reveal_strlit("status");
        reveal_strlit("metadata");
        reveal_strlit("register");
    }
    MqttTopics {
        cmd: make_topic(prefix, device, "cmd"),
        status: make_topic(prefix, device, "status"),
        metadata: make_topic(prefix, device, "metadata"),
        register: make_topic(prefix, device, "register"),
    }
}

/// The four topics of a node are pairwise distinct, so the node never takes
/// its own status, metadata or registration for a command.
pub proof fn lemma_topics_distinct(prefix: Seq<char>, device: Seq<char>)
    ensures
        ({
            let cmd = topic_text(prefix, device, seq!['c', 'm', 'd']);
            let status = topic_text(prefix, device, seq!['s', 't', 'a', 't', 'u', 's']);
            let metadata = topic_text(prefix, device, seq!['m', 'e', 't', 'a', 'd', 'a', 't', 'a']);
            let register = topic_text(prefix, device, seq!['r', 'e', 'g', 'i', 's', 't', 'e', 'r']);
            &&& cmd != status && cmd != metadata && cmd != register
            &&& status != metadata && status != register
            &&& metadata != register
        }),
{
    let base = prefix + seq!['/'] + device + seq!['/'];
    let metadata = topic_text(prefix, device, seq!['m', 'e', 't', 'a', 'd', 'a', 't', 'a']);
    let register = topic_text(prefix, device, seq!['r', 'e', 'g', 'i', 's', 't', 'e', 'r']);
    let cmd = topic_text(prefix, device, seq!['c', 'm', 'd']);
    let status = topic_text(prefix, device, seq!['s', 't', 'a', 't', 'u', 's']);
    assert(cmd.len() == base.len() + 3);
    assert(status.len() == base.len() + 6);
    assert(metadata.len() == base.len() + 8);
    assert(register.len() == base.len() + 8);
    assert(metadata[base.len() as int] == 'm');
    assert(register[base.len() as int] == 'r');
}

/// A given override is used as it is, whatever the preset; without one the
/// preset value is used.
pub proof fn lemma_override_is_used(o: Option<u32>, preset: u32)
    ensures
        o matches Some(v) ==> or_preset(o, preset) == v,
        o is None ==> or_preset(o, preset) == preset,
{
}

/// Normalising a topic prefix keeps the trimmed prefix from its first
/// character and removes only trailing slashes; so a prefix without
/// surrounding whitespace that does not end in `/` is kept as it is.
pub proof fn lemma_normalized_prefix(prefix: Seq<char>)
    ensures
        normalized_prefix(prefix).len() <= trim_ws(prefix).len(),
        trim_ws(prefix).subrange(0, normalized_prefix(prefix).len() as int) == normalized_prefix(
            prefix,
        ),
        forall|i: int|
            normalized_prefix(prefix).len() <= i < trim_ws(prefix).len() ==> trim_ws(prefix)[i]
                == '/',
        normalized_prefix(prefix).len() > 0 ==> normalized_prefix(prefix).last() != '/',
        trim_ws(prefix) == prefix && (prefix.len() == 0 || prefix.last() != '/')
            ==> normalized_prefix(prefix) == prefix,
{
    crate::text::lemma_trim_end_char(trim_ws(prefix), '/');
    if trim_ws(prefix) == prefix && (prefix.len() == 0 || prefix.last() != '/') {
        assert(normalized_prefix(prefix).len() == prefix.len());
        assert(prefix.subrange(0, prefix.len() as int) =~= prefix);
    }
}

/// Validation looks only at the three required names: it succeeds exactly
/// when none of them is blank, each error names a field that is blank, and
/// two configurations with the same three names get the same answer
/// whatever their other fields (whether RTSP is enabled among them).
pub proof fn lemma_validation(a: AppConfig, b: AppConfig)
    ensures
        validation_result(a) is Ok <==> (trim_ws(a.device.id@).len() > 0 && trim_ws(
            a.mqtt.jetson_netbird_ip@,
        ).len() > 0 && trim_ws(a.rtsp.advertise_host@).len() > 0),
        validation_result(a) == Err::<(), ConfigError>(ConfigError::EmptyDeviceId) ==> trim_ws(
            a.device.id@,
        ).len() == 0,
        validation_result(a) == Err::<(), ConfigError>(ConfigError::EmptyBrokerHost) ==> trim_ws(
            a.mqtt.jetson_netbird_ip@,
        ).len() == 0,
        validation_result(a) == Err::<(), ConfigError>(ConfigError::EmptyAdvertiseHost) ==> trim_ws(
            a.rtsp.advertise_host@,
        ).len() == 0,
        a.device.id@ == b.device.id@ && a.mqtt.jetson_netbird_ip@ == b.mqtt.jetson_netbird_ip@
            && a.rtsp.advertise_host@ == b.rtsp.advertise_host@ ==> validation_result(a)
            == validation_result(b),
{
}

} // verus!
