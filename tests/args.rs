use stream_encoder::args::{
    get_encoder_args, get_streaming_encoder_args, is_frame_file, one_shot_encode_args,
    render_scale_filter, Format, Platform,
};

fn strs(v: &[&str]) -> Vec<String> {
    v.iter().map(|s| s.to_string()).collect()
}

const RAW_4X4: [&str; 13] = [
    "-y", "-f", "rawvideo", "-vcodec", "rawvideo", "-pix_fmt", "rgba", "-s", "4x4", "-r", "10",
    "-i", "pipe:0",
];

#[test]
fn format_names() {
    assert_eq!(Format::from_name("webm"), Format::Webm);
    assert_eq!(Format::from_name("mov"), Format::Mov);
    assert_eq!(Format::from_name("gif"), Format::Gif);
    assert_eq!(Format::from_name("mp4"), Format::Mp4);
    assert_eq!(Format::from_name("avi"), Format::Mp4);
    assert_eq!(Format::from_name("WEBM"), Format::Mp4);
}

#[test]
fn platform_names() {
    assert_eq!(Platform::from_os_name("macos"), Platform::MacOs);
    assert_eq!(Platform::from_os_name("windows"), Platform::Windows);
    assert_eq!(Platform::from_os_name("linux"), Platform::Other);
}

#[test]
fn scale_filter_rounds_up_to_even() {
    assert_eq!(render_scale_filter(1080, 1080), "scale=1080:1080:flags=bicubic");
    assert_eq!(render_scale_filter(1081, 7), "scale=1082:8:flags=bicubic");
    assert_eq!(render_scale_filter(u32::MAX, 0), "scale=4294967296:0:flags=bicubic");
}

#[test]
fn streaming_mp4_software() {
    let mut want = strs(&RAW_4X4);
    want.extend(strs(&[
        "-vf", "scale=4:4:flags=bicubic", "-c:v", "libx264", "-pix_fmt", "yuv420p", "-preset",
        "medium", "-crf", "20", "-tag:v", "avc1", "-movflags", "+faststart", "-threads", "0",
        "-color_primaries", "bt709", "-color_trc", "bt709", "-colorspace", "bt709",
    ]));
    let got = get_streaming_encoder_args(Format::Mp4, 4, 4, 4, 4, 10, true, Platform::Other, None);
    assert_eq!(got, want);
    let no_hw = get_streaming_encoder_args(Format::Mp4, 4, 4, 4, 4, 10, false, Platform::MacOs, None);
    assert_eq!(no_hw, want);
}

#[test]
fn streaming_mov_is_h264_like_mp4() {
    let a = get_streaming_encoder_args(Format::Mov, 4, 4, 4, 4, 10, false, Platform::Windows, None);
    let b = get_streaming_encoder_args(Format::Mp4, 4, 4, 4, 4, 10, false, Platform::Windows, None);
    assert_eq!(a, b);
}

#[test]
fn streaming_mp4_macos_hardware() {
    let mut want = strs(&RAW_4X4);
    want.extend(strs(&[
        "-vf", "scale=4:4:flags=bicubic", "-c:v", "h264_videotoolbox", "-pix_fmt", "yuv420p",
        "-q:v", "75", "-tag:v", "avc1", "-movflags", "+faststart", "-color_primaries", "bt709",
        "-color_trc", "bt709", "-colorspace", "bt709",
    ]));
    let got = get_streaming_encoder_args(Format::Mp4, 4, 4, 4, 4, 10, true, Platform::MacOs, None);
    assert_eq!(got, want);
}

#[test]
fn streaming_mp4_windows_hardware() {
    let mut want = strs(&RAW_4X4);
    want.extend(strs(&[
        "-vf", "scale=4:4:flags=bicubic", "-c:v", "h264_nvenc", "-pix_fmt", "yuv420p", "-preset",
        "p6", "-tune", "hq", "-rc", "vbr", "-cq", "19", "-b:v", "0", "-tag:v", "avc1", "-movflags",
        "+faststart", "-color_primaries", "bt709", "-color_trc", "bt709", "-colorspace", "bt709",
    ]));
    let got = get_streaming_encoder_args(Format::Mp4, 4, 4, 4, 4, 10, true, Platform::Windows, None);
    assert_eq!(got, want);
}

#[test]
fn streaming_webm_with_audio_and_scaling() {
    let want = strs(&[
        "-y", "-f", "rawvideo", "-vcodec", "rawvideo", "-pix_fmt", "rgba", "-s", "1920x1080", "-r",
        "30", "-i", "pipe:0", "-i", "/tmp/a.mp3", "-map", "0:v:0", "-map", "1:a:0", "-vf",
        "scale=1280:720:flags=bicubic", "-c:v", "libvpx-vp9", "-crf", "18", "-b:v", "0", "-pix_fmt",
        "yuva420p", "-deadline", "good", "-cpu-used", "2", "-row-mt", "1", "-threads", "0",
        "-tile-columns", "2", "-auto-alt-ref", "1", "-lag-in-frames", "25",
    ]);
    let got = get_streaming_encoder_args(
        Format::Webm, 1920, 1080, 1279, 720, 30, true, Platform::MacOs, Some("/tmp/a.mp3"),
    );
    assert_eq!(got, want);
}

#[test]
fn streaming_gif() {
    let mut want = strs(&RAW_4X4);
    want.extend(strs(&[
        "-vf",
        "scale=4:4:flags=bicubic,fps=15,split[s0][s1];[s0]palettegen=max_colors=256:stats_mode=diff[p];[s1][p]paletteuse=dither=floyd_steinberg",
        "-loop", "0",
    ]));
    let got = get_streaming_encoder_args(Format::Gif, 4, 4, 4, 4, 10, true, Platform::Other, None);
    assert_eq!(got, want);
}

#[test]
fn one_shot_tables() {
    let s = "scale=100:50:flags=bicubic";
    assert_eq!(
        get_encoder_args(Format::Webm, 99, 50, true, Platform::Other),
        strs(&[
            "-vf", s, "-c:v", "libvpx-vp9", "-crf", "24", "-b:v", "0", "-pix_fmt", "yuv420p",
            "-row-mt", "1", "-threads", "0", "-deadline", "good", "-cpu-used", "4",
            "-tile-columns", "2", "-auto-alt-ref", "1", "-lag-in-frames", "25",
        ])
    );
    let mov_sw = strs(&[
        "-vf", s, "-c:v", "libx264", "-pix_fmt", "yuv420p", "-preset", "fast", "-crf", "21",
        "-tag:v", "avc1", "-movflags", "+faststart",
    ]);
    assert_eq!(get_encoder_args(Format::Mov, 99, 50, false, Platform::MacOs), mov_sw);
    let mut mp4_sw = mov_sw.clone();
    mp4_sw.extend(strs(&[
        "-color_primaries", "bt709", "-color_trc", "bt709", "-colorspace", "bt709",
    ]));
    assert_eq!(get_encoder_args(Format::Mp4, 99, 50, true, Platform::Other), mp4_sw);
    let mac = strs(&[
        "-vf", s, "-c:v", "h264_videotoolbox", "-pix_fmt", "yuv420p", "-q:v", "70", "-tag:v",
        "avc1", "-movflags", "+faststart",
    ]);
    assert_eq!(get_encoder_args(Format::Mov, 99, 50, true, Platform::MacOs), mac);
    assert_eq!(get_encoder_args(Format::Mp4, 99, 50, true, Platform::MacOs), mac);
    let win = strs(&[
        "-vf", s, "-c:v", "h264_nvenc", "-pix_fmt", "yuv420p", "-preset", "p1", "-tune", "hq",
        "-rc", "vbr", "-cq", "24", "-tag:v", "avc1", "-movflags", "+faststart",
    ]);
    assert_eq!(get_encoder_args(Format::Mp4, 99, 50, true, Platform::Windows), win);
    assert_eq!(
        get_encoder_args(Format::Gif, 99, 50, true, Platform::Windows),
        strs(&[
            "-vf",
            "scale=100:50:flags=bicubic,fps=15,split[s0][s1];[s0]palettegen=max_colors=256:stats_mode=diff[p];[s1][p]paletteuse=dither=floyd_steinberg",
            "-loop", "0",
        ])
    );
}

#[test]
fn one_shot_command_line() {
    let got = one_shot_encode_args(
        24, "/tmp/f/frame_%05d.png", Format::Gif, 2, 2, false, Platform::Other, "/tmp/out.gif",
    );
    let mut want = strs(&[
        "-y", "-hide_banner", "-progress", "pipe:1", "-framerate", "24", "-i",
        "/tmp/f/frame_%05d.png",
    ]);
    want.extend(get_encoder_args(Format::Gif, 2, 2, false, Platform::Other));
    want.push("/tmp/out.gif".to_string());
    assert_eq!(got, want);
}

#[test]
fn frame_file_names() {
    assert!(is_frame_file("frame_00001.png"));
    assert!(is_frame_file("frame_.png"));
    assert!(!is_frame_file("frame_00001.webp"));
    assert!(!is_frame_file("thumb_00001.png"));
    assert!(!is_frame_file("frame.png"));
}
