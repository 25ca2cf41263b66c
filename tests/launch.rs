use stream_encoder::args::{get_streaming_encoder_args, Format, Platform};
use stream_encoder::error::EncodeError;
use stream_encoder::launch::{audio_source, binary_names, plan_start, BinaryProbe, StartRequest};

fn request() -> StartRequest {
    StartRequest {
        output_path: "/tmp/out.mp4".to_string(),
        width: 4,
        height: 4,
        fps: 10,
        total_frames: 3,
        format: Some("mp4".to_string()),
        use_hw: None,
        audio_path: None,
        input_width: None,
        input_height: None,
    }
}

#[test]
fn missing_binary_fails_start() {
    assert_eq!(
        plan_start(&request(), Platform::Other, BinaryProbe::Missing).err(),
        Some(EncodeError::BinaryNotFound)
    );
    assert_eq!(
        plan_start(&request(), Platform::Other, BinaryProbe::NotRunnable).err(),
        Some(EncodeError::BinaryNotRunnable)
    );
}

#[test]
fn plan_for_four_by_four_mp4() {
    let plan = plan_start(&request(), Platform::Other, BinaryProbe::Runnable).unwrap();
    let mut want = get_streaming_encoder_args(Format::Mp4, 4, 4, 4, 4, 10, true, Platform::Other, None);
    want.push("/tmp/out.mp4".to_string());
    assert_eq!(plan.args, want);
    assert_eq!(plan.session.expected_frame_size(), 64);
    assert_eq!(plan.session.total_frames(), 3);
    assert_eq!(plan.session.frames_accepted(), 0);
}

#[test]
fn plan_defaults_and_overrides() {
    let mut req = request();
    req.format = None;
    req.use_hw = None;
    let plan = plan_start(&req, Platform::MacOs, BinaryProbe::Runnable).unwrap();
    assert!(plan.args.iter().any(|a| a == "h264_videotoolbox"));
    req.use_hw = Some(false);
    req.format = Some("webm".to_string());
    req.input_width = Some(8);
    req.input_height = Some(2);
    req.audio_path = Some("/music/a.wav".to_string());
    let plan = plan_start(&req, Platform::MacOs, BinaryProbe::Runnable).unwrap();
    let mut want = get_streaming_encoder_args(
        Format::Webm, 8, 2, 4, 4, 10, false, Platform::MacOs, Some("/music/a.wav"),
    );
    want.push("/tmp/out.mp4".to_string());
    assert_eq!(plan.args, want);
    assert_eq!(plan.session.expected_frame_size(), 64);
}

#[test]
fn plan_refuses_unholdable_frames() {
    let mut req = request();
    req.input_width = Some(u32::MAX);
    req.input_height = Some(u32::MAX);
    assert_eq!(
        plan_start(&req, Platform::Other, BinaryProbe::Runnable).err(),
        Some(EncodeError::FrameTooLarge { width: u32::MAX, height: u32::MAX })
    );
}

#[test]
fn audio_locations() {
    assert_eq!(audio_source("file:///home/a/song.mp3"), "/home/a/song.mp3");
    assert_eq!(audio_source("/home/a/song.mp3"), "/home/a/song.mp3");
    assert_eq!(audio_source("file:/x"), "file:/x");
    assert_eq!(audio_source("file://"), "");
}

#[test]
fn binary_names_per_platform() {
    assert_eq!(
        binary_names("linux", "x86_64"),
        vec![
            "ffmpeg-x86_64-unknown-linux-gnu",
            "ffmpeg-x86_64-unknown-linux-musl",
            "ffmpeg-x86_64-linux",
            "ffmpeg",
        ]
    );
    assert_eq!(
        binary_names("macos", "aarch64"),
        vec![
            "ffmpeg-aarch64-apple-darwin",
            "ffmpeg-universal-apple-darwin",
            "ffmpeg-aarch64-macos",
            "ffmpeg",
        ]
    );
    assert_eq!(
        binary_names("windows", "x86_64"),
        vec![
            "ffmpeg-x86_64-pc-windows-msvc.exe",
            "ffmpeg-x86_64-pc-windows-gnu.exe",
            "ffmpeg-x86_64-windows.exe",
            "ffmpeg.exe",
        ]
    );
}
