use edge_camera::camera::CameraController;
use edge_camera::config::{
    default_keep_alive, default_qos, default_rtsp_port, default_tick_ms, default_topic_prefix,
    default_true, AppConfig, ConfigError, DeviceSection, DeviceType, MetadataSection, MqttSection,
    RtspSection,
};
use edge_camera::metadata::{
    build_metadata_message, format_unix_millis_rfc3339, now_unix_millis, unix_millis_from_parts,
};
use edge_camera::mqtt::{
    command_work, is_command_topic, map_qos, CommandMessage, CommandWork, metadata_outbound, metadata_period_millis, mqtt_settings,
    register_outbound, status_outbound, MqttConnection, QosLevel,
};
use edge_camera::state::{NodeState, StartDecision, StopDecision};

fn sample_config() -> AppConfig {
    AppConfig {
        device: DeviceSection { id: " pi4-c922-01 ".to_string(), device_type: DeviceType::Pi4 },
        mqtt: MqttSection {
            jetson_netbird_ip: " 100.64.0.1 ".to_string(),
            port: 1883,
            username: String::new(),
            password: String::new(),
            topic_prefix: default_topic_prefix(),
            qos: default_qos(),
            keep_alive_seconds: default_keep_alive(),
        },
        rtsp: RtspSection {
            enabled: default_true(),
            advertise_host: " 100.64.0.7 ".to_string(),
            listen_port: default_rtsp_port(),
            path: " /pi4-c922-01".to_string(),
            video_device: "/dev/video0".to_string(),
            width: None,
            height: None,
            fps: None,
            bitrate_kbps: None,
        },
        metadata: MetadataSection { tick_millis: default_tick_ms() },
    }
}

#[test]
fn defaults() {
    assert_eq!(default_topic_prefix(), "edge-camera");
    assert_eq!(default_qos(), 1);
    assert_eq!(default_keep_alive(), 30);
    assert!(default_true());
    assert_eq!(default_rtsp_port(), 8554);
    assert_eq!(default_tick_ms(), 200);
}

#[test]
fn device_type_names() {
    assert_eq!(DeviceType::Pi4.as_str(), "pi4");
    assert_eq!(DeviceType::PiZero2W.as_str(), "pi_zero_2w");
}

#[test]
fn validate_accepts_a_complete_config() {
    assert_eq!(sample_config().validate(), Ok(()));
}

#[test]
fn validate_reports_first_blank_field() {
    let mut c = sample_config();
    c.device.id = "  ".to_string();
    c.mqtt.jetson_netbird_ip = String::new();
    assert_eq!(c.validate(), Err(ConfigError::EmptyDeviceId));
    let mut c = sample_config();
    c.mqtt.jetson_netbird_ip = "\t".to_string();
    c.rtsp.advertise_host = String::new();
    assert_eq!(c.validate(), Err(ConfigError::EmptyBrokerHost));
    let mut c = sample_config();
    c.rtsp.advertise_host = " ".to_string();
    assert_eq!(c.validate(), Err(ConfigError::EmptyAdvertiseHost));
    assert_eq!(ConfigError::EmptyAdvertiseHost.message(), "rtsp.advertise_host must not be empty (this Pi's NetBird IP)");
    assert_eq!(ConfigError::EmptyDeviceId.message(), "device.id must not be empty");
    assert_eq!(ConfigError::EmptyBrokerHost.message(), "mqtt.jetson_netbird_ip must not be empty");
}

#[test]
fn presets_by_device_type() {
    let p = sample_config().stream_preset();
    assert_eq!((p.width, p.height, p.fps, p.bitrate_kbps), (1280, 720, 30, 1500));
    let mut c = sample_config();
    c.device.device_type = DeviceType::PiZero2W;
    let p = c.stream_preset();
    assert_eq!((p.width, p.height, p.fps, p.bitrate_kbps), (640, 480, 15, 800));
    c.rtsp.fps = Some(10);
    c.rtsp.bitrate_kbps = Some(500);
    let p = c.stream_preset();
    assert_eq!((p.width, p.height, p.fps, p.bitrate_kbps), (640, 480, 10, 500));
}

#[test]
fn stream_url_is_trimmed() {
    assert_eq!(sample_config().build_stream_url(), "rtsp://100.64.0.7:8554/pi4-c922-01");
    let mut c = sample_config();
    c.rtsp.path = "//cam//".to_string();
    c.rtsp.listen_port = 9000;
    assert_eq!(c.build_stream_url(), "rtsp://100.64.0.7:9000/cam//");
}

#[test]
fn topics_follow_the_readme_layout() {
    let t = sample_config().build_topics();
    assert_eq!(t.cmd, "edge-camera/pi4-c922-01/cmd");
    assert_eq!(t.status, "edge-camera/pi4-c922-01/status");
    assert_eq!(t.metadata, "edge-camera/pi4-c922-01/metadata");
    assert_eq!(t.register, "edge-camera/pi4-c922-01/register");
    let mut c = sample_config();
    c.mqtt.topic_prefix = " site/cams// ".to_string();
    assert_eq!(c.build_topics().cmd, "site/cams/pi4-c922-01/cmd");
}

#[test]
fn publisher_pipeline() {
    let launch = CameraController::publisher_launch(&sample_config());
    assert_eq!(launch.publish_url, "rtsp://127.0.0.1:8554/pi4-c922-01");
    assert_eq!(
        launch.command_line,
        "gst-launch-1.0 -e v4l2src device=/dev/video0 ! video/x-raw,width=1280,height=720,framerate=30/1 ! videoconvert ! x264enc tune=zerolatency speed-preset=ultrafast bitrate=1500 key-int-max=30 ! h264parse ! rtph264pay config-interval=1 pt=96 ! rtspclientsink location=rtsp://127.0.0.1:8554/pi4-c922-01"
    );
    assert_eq!(launch.preset.width, 1280);
}

#[test]
fn rfc3339_known_instants() {
    assert_eq!(format_unix_millis_rfc3339(0), "1970-01-01T00:00:00Z");
    assert_eq!(format_unix_millis_rfc3339(1_700_000_000_123), "2023-11-14T22:13:20.123Z");
    assert_eq!(format_unix_millis_rfc3339(1_700_000_000_100), "2023-11-14T22:13:20.1Z");
    assert_eq!(format_unix_millis_rfc3339(1_700_000_000_005), "2023-11-14T22:13:20.005Z");
    assert_eq!(format_unix_millis_rfc3339(951_782_400_000), "2000-02-29T00:00:00Z");
    assert_eq!(format_unix_millis_rfc3339(253_402_300_799_999), "9999-12-31T23:59:59.999Z");
}

#[test]
fn rfc3339_shares_date_and_time_with_iso8601() {
    for ms in [0u128, 1_700_000_000_123, 1_700_000_000_120, 951_782_400_007, 253_402_300_799_999] {
        let rfc = format_unix_millis_rfc3339(ms);
        let iso = edge_camera::processor::format_iso8601_utc(ms);
        assert_eq!(iso.len(), 24);
        assert_eq!(rfc[..19], iso[..19]);
        assert!(rfc.ends_with('Z'));
        let parsed = chrono::DateTime::parse_from_rfc3339(&rfc).unwrap();
        assert_eq!(parsed.timestamp_millis() as u128, ms);
    }
    assert_eq!(format_unix_millis_rfc3339(1_700_000_000_120), "2023-11-14T22:13:20.12Z");
}

#[test]
fn rfc3339_out_of_range_falls_back_to_the_epoch() {
    assert_eq!(format_unix_millis_rfc3339(253_402_300_800_000), "1970-01-01T00:00:00Z");
    assert_eq!(format_unix_millis_rfc3339(253_402_300_800_005), "1970-01-01T00:00:00.005Z");
    assert_eq!(format_unix_millis_rfc3339(u128::MAX), "1970-01-01T00:00:00.455Z");
}

#[test]
fn millis_from_parts() {
    assert_eq!(unix_millis_from_parts(1, 999_999_999), 1999);
    assert_eq!(unix_millis_from_parts(1_700_000_000, 123_456_789), 1_700_000_000_123);
    assert_eq!(unix_millis_from_parts(-1, 0), ((-1i64) as u128).wrapping_mul(1000));
}

#[test]
fn clock_reads_after_2020() {
    assert!(now_unix_millis() > 1_577_836_800_000);
}

#[test]
fn metadata_message_fields() {
    let m = build_metadata_message(&sample_config(), "rtsp://x:1/y", 7, 1_700_000_000_123);
    assert_eq!(m.device_id, " pi4-c922-01 ");
    assert_eq!(m.device_type, "pi4");
    assert_eq!(m.stream_url, "rtsp://x:1/y");
    assert_eq!(m.sequence, 7);
    assert_eq!(m.unix_millis, 1_700_000_000_123);
    assert_eq!(m.iso8601_utc, "2023-11-14T22:13:20.123Z");
    assert_eq!(m.status, "live");
}

#[test]
fn qos_mapping() {
    assert_eq!(map_qos(0), QosLevel::AtMostOnce);
    assert_eq!(map_qos(1), QosLevel::AtLeastOnce);
    assert_eq!(map_qos(2), QosLevel::ExactlyOnce);
    assert_eq!(map_qos(7), QosLevel::AtLeastOnce);
}

#[test]
fn connection_settings() {
    let s = mqtt_settings(&sample_config());
    assert_eq!(s.client_id, "edge-camera-pi4-c922-01");
    assert_eq!(s.host, "100.64.0.1");
    assert_eq!(s.port, 1883);
    assert_eq!(s.credentials, None);
    assert_eq!(s.keep_alive_seconds, 30);
    assert_eq!(s.channel_capacity, 64);
    let mut c = sample_config();
    c.mqtt.username = "cam".to_string();
    c.mqtt.password = "SECRET-REDACTED".to_string();
    assert_eq!(mqtt_settings(&c).credentials, Some(("cam".to_string(), "SECRET-REDACTED".to_string())));
    c.mqtt.qos = 2;
    let conn = MqttConnection::connect(&c);
    assert_eq!(conn.client.qos, QosLevel::ExactlyOnce);
    let o = &conn.event_loop.mqtt_options;
    assert_eq!(o.client_id(), "edge-camera-pi4-c922-01");
    assert_eq!(o.broker_address(), ("100.64.0.1".to_string(), 1883));
    assert_eq!(o.keep_alive(), std::time::Duration::from_secs(30));
    assert_eq!(o.credentials(), Some(("cam".to_string(), "SECRET-REDACTED".to_string())));
}

#[test]
fn connection_without_credentials() {
    let mut c = sample_config();
    c.mqtt.username = "  ".to_string();
    c.mqtt.password = "unused".to_string();
    c.mqtt.keep_alive_seconds = 0;
    c.mqtt.port = 8883;
    let conn = MqttConnection::connect(&c);
    let o = &conn.event_loop.mqtt_options;
    assert_eq!(o.credentials(), None);
    assert_eq!(o.broker_address(), ("100.64.0.1".to_string(), 8883));
    assert_eq!(o.keep_alive(), std::time::Duration::from_secs(0));
    assert_eq!(conn.client.qos, QosLevel::AtLeastOnce);
}

#[test]
fn command_topic_match() {
    let t = sample_config().build_topics();
    assert!(is_command_topic(&t.cmd, &"edge-camera/pi4-c922-01/cmd".to_string()));
    assert!(!is_command_topic(&t.cmd, &t.status));
}

#[test]
fn outbound_messages() {
    let c = sample_config();
    let r = register_outbound(&c, 5);
    assert_eq!(r.topic, "edge-camera/pi4-c922-01/register");
    assert!(r.retain);
    assert_eq!(r.payload.capabilities, vec!["rtsp".to_string(), "metadata".to_string()]);
    assert_eq!(r.payload.device_type, "pi4");
    let s = status_outbound(&c, true, "rtsp://u", 6);
    assert_eq!(s.topic, "edge-camera/pi4-c922-01/status");
    assert!(s.retain);
    assert!(s.payload.is_streaming);
    assert_eq!(s.payload.unix_millis, 6);
    let m = metadata_outbound(&c, "rtsp://u", 3, 0);
    assert_eq!(m.topic, "edge-camera/pi4-c922-01/metadata");
    assert!(!m.retain);
    assert_eq!(m.payload.sequence, 3);
    assert_eq!(m.payload.iso8601_utc, "1970-01-01T00:00:00Z");
}

#[test]
fn metadata_period_floor() {
    assert_eq!(metadata_period_millis(200), 200);
    assert_eq!(metadata_period_millis(10), 50);
    assert_eq!(metadata_period_millis(50), 50);
}

#[test]
fn start_stop_cycle() {
    let c = sample_config();
    let mut s: NodeState<u32> = NodeState::new();
    assert!(!s.is_streaming);
    assert_eq!(s.metadata_tick(), None);
    assert_eq!(s.start_decision(&c), StartDecision::Launch);
    s.stream_started(77);
    assert!(s.is_streaming);
    assert_eq!(s.start_decision(&c), StartDecision::AlreadyStreaming);
    assert_eq!(s.metadata_tick(), Some(1));
    assert_eq!(s.metadata_tick(), Some(2));
    match s.begin_stop() {
        StopDecision::Stop(child) => assert_eq!(child, Some(77)),
        StopDecision::NotStreaming => panic!("node was streaming"),
    }
    s.stream_stopped();
    assert!(!s.is_streaming);
    assert_eq!(s.gst_child, None);
    assert_eq!(s.metadata_sequence, 2);
    assert!(matches!(s.begin_stop(), StopDecision::NotStreaming));
    assert_eq!(s.start_decision(&c), StartDecision::Launch);
}

#[test]
fn start_ignored_when_rtsp_disabled() {
    let mut c = sample_config();
    c.rtsp.enabled = false;
    let s: NodeState<u32> = NodeState::new();
    assert_eq!(s.start_decision(&c), StartDecision::RtspDisabled);
}

#[test]
fn streaming_exactly_when_a_publisher_is_held() {
    let c = sample_config();
    let mut s: NodeState<u32> = NodeState::new();
    assert_eq!(s.is_streaming, s.gst_child.is_some());
    for round in 0..3u32 {
        if s.start_decision(&c) == StartDecision::Launch {
            s.stream_started(round);
        }
        assert_eq!(s.is_streaming, s.gst_child.is_some());
        assert_eq!(s.start_decision(&c), StartDecision::AlreadyStreaming);
        s.next_metadata_sequence();
        assert_eq!(s.is_streaming, s.gst_child.is_some());
        if let StopDecision::Stop(child) = s.begin_stop() {
            assert_eq!(child, Some(round));
            s.stream_stopped();
        }
        assert_eq!(s.is_streaming, s.gst_child.is_some());
        assert!(matches!(s.begin_stop(), StopDecision::NotStreaming));
        assert_eq!(s.is_streaming, s.gst_child.is_some());
    }
    assert_eq!(s.metadata_sequence, 3);
}

#[test]
fn commands_decide_the_process_work() {
    let mut c = sample_config();
    let mut s: NodeState<u32> = NodeState::new();
    assert!(matches!(command_work(&mut s, &c, CommandMessage::Status), CommandWork::Nothing));
    assert!(matches!(command_work(&mut s, &c, CommandMessage::Stop), CommandWork::Nothing));
    assert!(matches!(command_work(&mut s, &c, CommandMessage::Start), CommandWork::Launch));
    assert!(!s.is_streaming);
    s.stream_started(5);
    assert!(matches!(command_work(&mut s, &c, CommandMessage::Start), CommandWork::Nothing));
    match command_work(&mut s, &c, CommandMessage::Stop) {
        CommandWork::StopPublisher(child) => assert_eq!(child, Some(5)),
        _ => panic!("a streaming node stops its publisher"),
    }
    assert!(s.is_streaming);
    assert_eq!(s.gst_child, None);
    s.stream_stopped();
    c.rtsp.enabled = false;
    assert!(matches!(command_work(&mut s, &c, CommandMessage::Start), CommandWork::IgnoredStart));
}

#[test]
fn sequence_wraps() {
    let mut s: NodeState<u32> = NodeState::new();
    s.metadata_sequence = u64::MAX;
    assert_eq!(s.next_metadata_sequence(), 0);
}
