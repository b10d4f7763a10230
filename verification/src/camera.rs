//! The GStreamer publisher: the command line that pushes H.264 from the
//! camera to the local MediaMTX server.
use vstd::prelude::*;
use vstd::string::*;

use crate::config::{device_preset, or_preset, AppConfig, StreamPreset};
use crate::text::{decimal, push_decimal, trim, trim_start_char, trim_start_matches_char, trim_ws};

verus! {

/// Manages the GStreamer publisher process.
pub struct CameraController;

/// What starting the publisher runs: the preset in use, the local URL it
/// publishes to, and the shell command line (run with `sh -lc`).
#[derive(Debug, Clone)]
pub struct PublisherLaunch {
    pub preset: StreamPreset,
    pub publish_url: String,
    pub command_line: String,
}

/// `rtsp://127.0.0.1:<port>/<path>`, the path trimmed and stripped of
/// leading slashes.
pub open spec fn local_publish_url(port: u16, path: Seq<char>) -> Seq<char> {
    "rtsp://127.0.0.1:"@ + decimal(port as nat) + "/"@ + trim_start_char(trim_ws(path), '/')
}

/// The gst-launch pipeline of the node host.
pub open spec fn gst_command_line(
    video_device: Seq<char>,
    width: u32,
    height: u32,
    fps: u32,
    bitrate_kbps: u32,
    publish_url: Seq<char>,
) -> Seq<char> {
    "gst-launch-1.0 -e v4l2src device="@ + video_device + " ! video/x-raw,width="@ + decimal(
        width as nat,
    ) + ",height="@ + decimal(height as nat) + ",framerate="@ + decimal(fps as nat)
        + "/1 ! videoconvert ! x264enc tune=zerolatency speed-preset=ultrafast bitrate="@
        + decimal(bitrate_kbps as nat) + " key-int-max="@ + decimal(fps as nat)
        + " ! h264parse ! rtph264pay config-interval=1 pt=96 ! rtspclientsink location="@
        + publish_url
}

/// The pipeline asks the camera for the given width, height and frame rate
/// (`video/x-raw,width=<w>,height=<h>,framerate=<fps>/1`) and encodes at the
/// given bitrate (`bitrate=<kbps>`), whatever these values are.
pub proof fn lemma_command_line_carries_preset(
    video_device: Seq<char>,
    width: u32,
    height: u32,
    fps: u32,
    bitrate_kbps: u32,
    publish_url: Seq<char>,
)
    ensures
        ({
            let line = gst_command_line(video_device, width, height, fps, bitrate_kbps, publish_url);
            let caps = "video/x-raw,width="@ + decimal(width as nat) + ",height="@ + decimal(
                height as nat,
            ) + ",framerate="@ + decimal(fps as nat) + "/1"@;
            let rate = "bitrate="@ + decimal(bitrate_kbps as nat) + " "@;
            &&& exists|i: int|
                0 <= i && i + caps.len() <= line.len() && #[trigger] line.subrange(i, i + caps.len())
                    == caps
            &&& exists|j: int|
                0 <= j && j + rate.len() <= line.len() && #[trigger] line.subrange(j, j + rate.len())
                    == rate
        }),
{
    reveal_strlit("gst-launch-1.0 -e v4l2src device=");
    reveal_strlit(" ! video/x-raw,width=");
    reveal_strlit("video/x-raw,width=");
    reveal_strlit(",height=");
    reveal_strlit(",framerate=");
    reveal_strlit("/1 ! videoconvert ! x264enc tune=zerolatency speed-preset=ultrafast bitrate=");
    reveal_strlit("/1");
    reveal_strlit("bitrate=");
    reveal_strlit(" ");
    reveal_strlit(" key-int-max=");
    reveal_strlit(" ! h264parse ! rtph264pay config-interval=1 pt=96 ! rtspclientsink location=");
    let line = gst_command_line(video_device, width, height, fps, bitrate_kbps, publish_url);
    let w = decimal(width as nat);
    let h = decimal(height as nat);
    let f = decimal(fps as nat);
    let b = decimal(bitrate_kbps as nat);
    let caps = "video/x-raw,width="@ + w + ",height="@ + h + ",framerate="@ + f + "/1"@;
    let rate = "bitrate="@ + b + " "@;
    let head = "gst-launch-1.0 -e v4l2src device="@ + video_device + " ! "@;
    reveal_strlit(" ! ");
    let mid = " ! videoconvert ! x264enc tune=zerolatency speed-preset=ultrafast "@;
    reveal_strlit(" ! videoconvert ! x264enc tune=zerolatency speed-preset=ultrafast ");
    let tail = "key-int-max="@ + f
        + " ! h264parse ! rtph264pay config-interval=1 pt=96 ! rtspclientsink location="@
        + publish_url;
    reveal_strlit("key-int-max=");
    assert(line =~= head + caps + mid + rate + tail);
    let i = head.len() as int;
    assert(line.subrange(i, i + caps.len()) =~= caps);
    let j = (head.len() + caps.len() + mid.len()) as int;
    assert(line.subrange(j, j + rate.len()) =~= rate);
}

/// Builds `rtsp://127.0.0.1:<port>/<path>`.
pub fn local_publish_url_from(port: u16, path: &str) -> (r: String)
    ensures
        r@ == local_publish_url(port, path@),
{
    let path_text = trim_start_matches_char(trim(path), '/');
    let mut out = String::from_str("rtsp://127.0.0.1:");
    push_decimal(&mut out, port as u128);
    out.append("/");
    out.append(path_text);
    assert(out@ =~= local_publish_url(port, path@));
    out
}

impl CameraController {
    /// What `start_stream` launches for this configuration: the stream
    /// preset, `rtsp://127.0.0.1:<listen_port>/<path>` and the gst-launch
    /// pipeline from the video device to that URL.
    pub fn publisher_launch(config: &AppConfig) -> (r: PublisherLaunch)
        ensures
            r.preset.width == or_preset(config.rtsp.width, device_preset(config.device.device_type).0),
            r.preset.height == or_preset(
                config.rtsp.height,
                device_preset(config.device.device_type).1,
            ),
            r.preset.fps == or_preset(config.rtsp.fps, device_preset(config.device.device_type).2),
            r.preset.bitrate_kbps == or_preset(
                config.rtsp.bitrate_kbps,
                device_preset(config.device.device_type).3,
            ),
            r.publish_url@ == local_publish_url(config.rtsp.listen_port, config.rtsp.path@),
            r.command_line@ == gst_command_line(
                config.rtsp.video_device@,
                r.preset.width,
                r.preset.height,
                r.preset.fps,
                r.preset.bitrate_kbps,
                r.publish_url@,
            ),
    {
        let preset = config.stream_preset();
        let publish_url = local_publish_url_from(config.rtsp.listen_port, config.rtsp.path.as_str());
        let mut line = String::from_str("gst-launch-1.0 -e v4l2src device=");
        line.append(config.rtsp.video_device.as_str());
        line.append(" ! video/x-raw,width=");
        push_decimal(&mut line, preset.width as u128);
        line.append(",height=");
        push_decimal(&mut line, preset.height as u128);
        line.append(",framerate=");
        push_decimal(&mut line, preset.fps as u128);
        line.append("/1 ! videoconvert ! x264enc tune=zerolatency speed-preset=ultrafast bitrate=");
        push_decimal(&mut line, preset.bitrate_kbps as u128);
        line.append(" key-int-max=");
        push_decimal(&mut line, preset.fps as u128);
        line.append(" ! h264parse ! rtph264pay config-interval=1 pt=96 ! rtspclientsink location=");
        line.append(publish_url.as_str());
        assert(line@ =~= gst_command_line(
            config.rtsp.video_device@,
            preset.width,
            preset.height,
            preset.fps,
            preset.bitrate_kbps,
            publish_url@,
        ));
        PublisherLaunch { preset, publish_url, command_line: line }
    }
}

/// The advertised stream URL and the URL the publisher pushes to differ only
/// in the host: same port and same MediaMTX path, so clients of the
/// advertised URL reach the published stream.
pub proof fn lemma_advertised_url_matches_published(host: Seq<char>, port: u16, path: Seq<char>)
    ensures
        ({
            let shared = seq![':'] + decimal(port as nat) + seq!['/'] + trim_start_char(
                trim_ws(path),
                '/',
            );
            &&& crate::config::stream_url_text(host, port, path) == seq![
                'r',
                't',
                's',
                'p',
                ':',
                '/',
                '/',
            ] + trim_ws(host) + shared
            &&& local_publish_url(port, path) == "rtsp://127.0.0.1"@ + shared
        }),
{
    reveal_strlit("rtsp://127.0.0.1:");
    reveal_strlit("rtsp://127.0.0.1");
    reveal_strlit("/");
    let shared = seq![':'] + decimal(port as nat) + seq!['/'] + trim_start_char(trim_ws(path), '/');
    assert(local_publish_url(port, path) =~= "rtsp://127.0.0.1"@ + shared);
    assert(crate::config::stream_url_text(host, port, path) =~= seq!['r', 't', 's', 'p', ':', '/', '/']
        + trim_ws(host) + shared);
}

} // verus!
