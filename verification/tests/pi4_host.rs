use edge_camera::mqtt::{CommandMessage, CommandWork};
use edge_camera::pi4::{
    build_mqtt_options, build_stream_url, build_topics, command_work, connect, gstreamer_command_line, metadata_input, mqtt_settings,
    now_unix_millis, register_outbound, start_decision, status_outbound, Config, DeviceConfig,
    MqttConfig, RtspConfig, WasmConfig, WasmProcessor,
};
use edge_camera::state::{NodeState, StartDecision};

fn pi4_config() -> Config {
    Config {
        device: DeviceConfig { id: "pi4-c922-01".to_string() },
        mqtt: MqttConfig {
            host: "100.64.0.1".to_string(),
            port: 1883,
            username: " ".to_string(),
            password: String::new(),
            topic_prefix: "edge-camera/".to_string(),
            qos: 1,
            keep_alive_seconds: 30,
        },
        rtsp: RtspConfig {
            enabled: true,
            listen_port: 8554,
            path: "/c922".to_string(),
            advertise_host: "100.64.0.9".to_string(),
            video_device: "/dev/video0".to_string(),
            width: 1920,
            height: 1080,
            fps: 30,
        },
        wasm: WasmConfig { enabled: true, wasm_module_path: "/opt/proc.wasm".to_string(), tick_millis: 200 },
    }
}

#[test]
fn pi4_topics_and_url() {
    let c = pi4_config();
    let t = build_topics(&c);
    assert_eq!(t.cmd, "edge-camera/pi4-c922-01/cmd");
    assert_eq!(t.register, "edge-camera/pi4-c922-01/register");
    assert_eq!(build_stream_url(&c), "rtsp://100.64.0.9:8554/c922");
}

#[test]
fn pi4_device_id_is_not_trimmed() {
    let mut c = pi4_config();
    c.device.id = " a ".to_string();
    assert_eq!(build_topics(&c).status, "edge-camera/ a /status");
    assert_eq!(mqtt_settings(&c).client_id, "edge-camera- a ");
}

#[test]
fn pi4_settings() {
    let s = mqtt_settings(&pi4_config());
    assert_eq!(s.host, "100.64.0.1");
    assert_eq!(s.credentials, None);
    assert_eq!(s.channel_capacity, 50);
}

#[test]
fn pi4_mqtt_options() {
    let mut c = pi4_config();
    let o = build_mqtt_options(&c);
    assert_eq!(o.client_id(), "edge-camera-pi4-c922-01");
    assert_eq!(o.broker_address(), ("100.64.0.1".to_string(), 1883));
    assert_eq!(o.keep_alive(), std::time::Duration::from_secs(30));
    assert_eq!(o.credentials(), None);
    c.mqtt.username = "cam".to_string();
    c.mqtt.password = "pw".to_string();
    c.mqtt.keep_alive_seconds = 45;
    c.mqtt.qos = 0;
    let conn = connect(&c);
    let o = &conn.event_loop.mqtt_options;
    assert_eq!(o.credentials(), Some(("cam".to_string(), "pw".to_string())));
    assert_eq!(o.keep_alive(), std::time::Duration::from_secs(45));
    assert_eq!(conn.client.qos, edge_camera::mqtt::QosLevel::AtMostOnce);
}

#[test]
fn pi4_commands_check_rtsp_first() {
    let mut c = pi4_config();
    let mut s: NodeState<u8> = NodeState::new();
    assert!(matches!(command_work(&mut s, &c, CommandMessage::Start), CommandWork::Launch));
    s.stream_started(3);
    assert!(matches!(command_work(&mut s, &c, CommandMessage::Start), CommandWork::Nothing));
    assert!(matches!(command_work(&mut s, &c, CommandMessage::Status), CommandWork::Nothing));
    c.rtsp.enabled = false;
    assert!(matches!(command_work(&mut s, &c, CommandMessage::Start), CommandWork::IgnoredStart));
    match command_work(&mut s, &c, CommandMessage::Stop) {
        CommandWork::StopPublisher(child) => assert_eq!(child, Some(3)),
        _ => panic!("a streaming node stops its publisher"),
    }
    s.stream_stopped();
    assert!(matches!(command_work(&mut s, &c, CommandMessage::Stop), CommandWork::Nothing));
    assert_eq!(s.is_streaming, s.gst_child.is_some());
}

#[test]
fn pi4_pipeline() {
    assert_eq!(
        gstreamer_command_line(&pi4_config()),
        "gst-launch-1.0 -q v4l2src device=/dev/video0 ! video/x-raw,width=1920,height=1080,framerate=30/1 ! videoconvert ! x264enc tune=zerolatency speed-preset=ultrafast bitrate=1500 key-int-max=30 ! rtph264pay config-interval=1 pt=96 ! rtspclientsink location=rtsp://127.0.0.1:8554/c922"
    );
}

#[test]
fn pi4_start_checks_rtsp_first() {
    let mut c = pi4_config();
    let mut s: NodeState<u8> = NodeState::new();
    assert_eq!(start_decision(&s, &c), StartDecision::Launch);
    s.stream_started(1);
    assert_eq!(start_decision(&s, &c), StartDecision::AlreadyStreaming);
    c.rtsp.enabled = false;
    assert_eq!(start_decision(&s, &c), StartDecision::RtspDisabled);
}

#[test]
fn pi4_messages() {
    let c = pi4_config();
    let t = build_topics(&c);
    let r = register_outbound(&t, &c, 9);
    assert_eq!(r.payload.capabilities, vec!["rtsp".to_string(), "wasm-metadata".to_string()]);
    assert!(r.retain);
    let s = status_outbound(&t, &c, false, "u", 10);
    assert_eq!(s.topic, "edge-camera/pi4-c922-01/status");
    assert!(!s.payload.is_streaming);
    let m = metadata_input(&c, "u", 4, 11);
    assert_eq!((m.sequence, m.unix_millis), (4, 11));
    assert_eq!(m.device_id, "pi4-c922-01");
}

#[test]
fn pi4_processor_and_clock() {
    assert_eq!(WasmProcessor::new("/opt/proc.wasm").wasm_module_path, "/opt/proc.wasm");
    assert!(now_unix_millis().unwrap() > 1_577_836_800_000);
}
