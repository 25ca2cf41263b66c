//! The encoder argument resolver: maps a container format, the frame
//! geometry, the frame rate, the hardware-acceleration preference and the
//! platform to the exact argument list of the external encoder.
use vstd::prelude::*;
use crate::text::{decimal, has_prefix, has_suffix, render_decimal, same_text};

verus! {

/// Container formats the resolver knows; every other name falls back to `Mp4`.
#[derive(Clone, Copy, Debug, PartialEq, Eq, Structural)]
pub enum Format {
    Webm,
    Mov,
    Gif,
    Mp4,
}

/// Operating systems with a distinct hardware encoder path.
#[derive(Clone, Copy, Debug, PartialEq, Eq, Structural)]
pub enum Platform {
    MacOs,
    Windows,
    Other,
}

/// The format that a format name selects.
pub open spec fn format_named(name: Seq<char>) -> Format {
    if name == "webm"@ {
        Format::Webm
    } else if name == "mov"@ {
        Format::Mov
    } else if name == "gif"@ {
        Format::Gif
    } else {
        Format::Mp4
    }
}

/// The platform that an operating system name selects.
pub open spec fn platform_named(name: Seq<char>) -> Platform {
    if name == "macos"@ {
        Platform::MacOs
    } else if name == "windows"@ {
        Platform::Windows
    } else {
        Platform::Other
    }
}

impl Format {
    /// The format that `name` selects: `webm`, `mov` and `gif` by name, `mp4`
    /// for anything else.
    pub fn from_name(name: &str) -> (r: Format)
        ensures
            r == format_named(name@),
    {
        if same_text(name, "webm") {
            Format::Webm
        } else if same_text(name, "mov") {
            Format::Mov
        } else if same_text(name, "gif") {
            Format::Gif
        } else {
            Format::Mp4
        }
    }
}

impl Platform {
    /// The platform that an operating system name (as the standard library
    /// spells it) selects.
    pub fn from_os_name(name: &str) -> (r: Platform)
        ensures
            r == platform_named(name@),
    {
        if same_text(name, "macos") {
            Platform::MacOs
        } else if same_text(name, "windows") {
            Platform::Windows
        } else {
            Platform::Other
        }
    }
}

/// The character views of a list of strings.
pub open spec fn texts(v: Seq<String>) -> Seq<Seq<char>> {
    v.map_values(|s: String| s@)
}

pub proof fn lemma_texts_push(v: Seq<String>, s: String)
    ensures
        texts(v.push(s)) == texts(v).push(s@),
{
    assert(texts(v.push(s)) =~= texts(v).push(s@));
}

pub proof fn lemma_texts_concat(a: Seq<String>, b: Seq<String>)
    ensures
        texts(a + b) == texts(a) + texts(b),
{
    assert(texts(a + b) =~= texts(a) + texts(b));
}

pub fn push_text(v: &mut Vec<String>, s: &str)
    ensures
        texts(final(v)@) == texts(old(v)@).push(s@),
{
    let t = String::from_str(s);
    v.push(t);
    proof {
        lemma_texts_push(old(v)@, t);
    }
}

pub fn push_string(v: &mut Vec<String>, s: String)
    ensures
        texts(final(v)@) == texts(old(v)@).push(s@),
{
    let ghost t = s;
    v.push(s);
    proof {
        lemma_texts_push(old(v)@, t);
    }
}

pub fn append_texts(v: &mut Vec<String>, w: Vec<String>)
    ensures
        texts(final(v)@) == texts(old(v)@) + texts(w@),
{
    let mut w = w;
    let ghost w0 = w@;
    v.append(&mut w);
    proof {
        lemma_texts_concat(old(v)@, w0);
    }
}

pub fn empty_texts() -> (r: Vec<String>)
    ensures
        texts(r@) == Seq::<Seq<char>>::empty(),
{
    let v: Vec<String> = Vec::new();
    assert(texts(v@) =~= Seq::<Seq<char>>::empty());
    v
}

/// A dimension rounded up to the next even number, as the encoders require.
pub open spec fn even_up(n: nat) -> nat {
    if n % 2 == 0 {
        n
    } else {
        n + 1
    }
}

/// The scaling filter to the given output size, rounded up to even sizes.
pub open spec fn scale_filter(width: nat, height: nat) -> Seq<char> {
    "scale="@ + decimal(even_up(width)) + ":"@ + decimal(even_up(height)) + ":flags=bicubic"@
}

/// The palette filter chain for animated images, after the scaling filter.
pub open spec fn gif_filter(scale: Seq<char>) -> Seq<char> {
    scale
        + ",fps=15,split[s0][s1];[s0]palettegen=max_colors=256:stats_mode=diff[p];[s1][p]paletteuse=dither=floyd_steinberg"@
}

pub fn render_scale_filter(width: u32, height: u32) -> (r: String)
    ensures
        r@ == scale_filter(width as nat, height as nat),
{
    let w: u64 = if width % 2 == 0 { width as u64 } else { width as u64 + 1 };
    let h: u64 = if height % 2 == 0 { height as u64 } else { height as u64 + 1 };
    let mut s = String::from_str("scale=");
    let ws = render_decimal(w);
    s.append(ws.as_str());
    s.append(":");
    let hs = render_decimal(h);
    s.append(hs.as_str());
    s.append(":flags=bicubic");
    s
}

pub fn render_gif_filter(scale: &String) -> (r: String)
    ensures
        r@ == gif_filter(scale@),
{
    let mut s = scale.clone();
    s.append(
        ",fps=15,split[s0][s1];[s0]palettegen=max_colors=256:stats_mode=diff[p];[s1][p]paletteuse=dither=floyd_steinberg",
    );
    s
}

/// The colour-space flags that pin BT.709 on H.264 output.
pub open spec fn bt709_flags() -> Seq<Seq<char>> {
    seq![
        "-color_primaries"@,
        "bt709"@,
        "-color_trc"@,
        "bt709"@,
        "-colorspace"@,
        "bt709"@,
    ]
}

fn push_bt709_flags(v: &mut Vec<String>)
    ensures
        texts(final(v)@) == texts(old(v)@) + bt709_flags(),
{
    push_text(v, "-color_primaries");
    push_text(v, "bt709");
    push_text(v, "-color_trc");
    push_text(v, "bt709");
    push_text(v, "-colorspace");
    push_text(v, "bt709");
    assert(texts(v@) =~= texts(old(v)@) + bt709_flags());
}

// ---------------------------------------------------------------------------
// Streaming mode: raw RGBA frames on the encoder's standard input.
// ---------------------------------------------------------------------------

/// The input half of a streaming encode: raw RGBA frames of the input size at
/// the given rate, read from standard input.
pub open spec fn raw_input_args(input_width: nat, input_height: nat, fps: nat) -> Seq<Seq<char>> {
    seq![
        "-y"@,
        "-f"@,
        "rawvideo"@,
        "-vcodec"@,
        "rawvideo"@,
        "-pix_fmt"@,
        "rgba"@,
        "-s"@,
        decimal(input_width) + "x"@ + decimal(input_height),
        "-r"@,
        decimal(fps),
        "-i"@,
        "pipe:0"@,
    ]
}

/// The audio input and the stream mapping that goes with it.
pub open spec fn audio_args(audio: Option<Seq<char>>) -> Seq<Seq<char>> {
    match audio {
        Some(a) => seq!["-i"@, a, "-map"@, "0:v:0"@, "-map"@, "1:a:0"@],
        None => Seq::empty(),
    }
}

/// The output half of a streaming encode.
pub open spec fn streaming_output_args(
    format: Format,
    platform: Platform,
    use_hw: bool,
    scale: Seq<char>,
) -> Seq<Seq<char>> {
    match format {
        Format::Webm => seq![
            "-vf"@,
            scale,
            "-c:v"@,
            "libvpx-vp9"@,
            "-crf"@,
            "18"@,
            "-b:v"@,
            "0"@,
            "-pix_fmt"@,
            "yuva420p"@,
            "-deadline"@,
            "good"@,
            "-cpu-used"@,
            "2"@,
            "-row-mt"@,
            "1"@,
            "-threads"@,
            "0"@,
            "-tile-columns"@,
            "2"@,
            "-auto-alt-ref"@,
            "1"@,
            "-lag-in-frames"@,
            "25"@,
        ],
        Format::Gif => seq!["-vf"@, gif_filter(scale), "-loop"@, "0"@],
        _ => if use_hw && platform == Platform::MacOs {
            seq![
                "-vf"@,
                scale,
                "-c:v"@,
                "h264_videotoolbox"@,
                "-pix_fmt"@,
                "yuv420p"@,
                "-q:v"@,
                "75"@,
                "-tag:v"@,
                "avc1"@,
                "-movflags"@,
                "+faststart"@,
            ] + bt709_flags()
        } else if use_hw && platform == Platform::Windows {
            seq![
                "-vf"@,
                scale,
                "-c:v"@,
                "h264_nvenc"@,
                "-pix_fmt"@,
                "yuv420p"@,
                "-preset"@,
                "p6"@,
                "-tune"@,
                "hq"@,
                "-rc"@,
                "vbr"@,
                "-cq"@,
                "19"@,
                "-b:v"@,
                "0"@,
                "-tag:v"@,
                "avc1"@,
                "-movflags"@,
                "+faststart"@,
            ] + bt709_flags()
        } else {
            seq![
                "-vf"@,
                scale,
                "-c:v"@,
                "libx264"@,
                "-pix_fmt"@,
                "yuv420p"@,
                "-preset"@,
                "medium"@,
                "-crf"@,
                "20"@,
                "-tag:v"@,
                "avc1"@,
                "-movflags"@,
                "+faststart"@,
                "-threads"@,
                "0"@,
            ] + bt709_flags()
        },
    }
}

/// The full argument list of a streaming encode, without the output path.
pub open spec fn streaming_args(
    format: Format,
    input_width: nat,
    input_height: nat,
    output_width: nat,
    output_height: nat,
    fps: nat,
    use_hw: bool,
    platform: Platform,
    audio: Option<Seq<char>>,
) -> Seq<Seq<char>> {
    raw_input_args(input_width, input_height, fps) + audio_args(audio) + streaming_output_args(
        format,
        platform,
        use_hw,
        scale_filter(output_width, output_height),
    )
}

fn raw_input_part(input_width: u32, input_height: u32, fps: u32) -> (r: Vec<String>)
    ensures
        texts(r@) == raw_input_args(input_width as nat, input_height as nat, fps as nat),
{
    let mut v = empty_texts();
    push_text(&mut v, "-y");
    push_text(&mut v, "-f");
    push_text(&mut v, "rawvideo");
    push_text(&mut v, "-vcodec");
    push_text(&mut v, "rawvideo");
    push_text(&mut v, "-pix_fmt");
    push_text(&mut v, "rgba");
    push_text(&mut v, "-s");
    let mut size = render_decimal(input_width as u64);
    size.append("x");
    let hs = render_decimal(input_height as u64);
    size.append(hs.as_str());
    push_string(&mut v, size);
    push_text(&mut v, "-r");
    push_string(&mut v, render_decimal(fps as u64));
    push_text(&mut v, "-i");
    push_text(&mut v, "pipe:0");
    v
}

fn audio_part(audio_path: Option<&str>) -> (r: Vec<String>)
    ensures
        texts(r@) == audio_args(
            match audio_path {
                Some(a) => Some(a@),
                None => None,
            },
        ),
{
    let mut v = empty_texts();
    if let Some(a) = audio_path {
        push_text(&mut v, "-i");
        push_text(&mut v, a);
        push_text(&mut v, "-map");
        push_text(&mut v, "0:v:0");
        push_text(&mut v, "-map");
        push_text(&mut v, "1:a:0");
    }
    v
}

fn streaming_webm_part(scale: String) -> (r: Vec<String>)
    ensures
        texts(r@) == streaming_output_args(Format::Webm, Platform::Other, false, scale@),
{
    let mut v = empty_texts();
    push_text(&mut v, "-vf");
    push_string(&mut v, scale);
    push_text(&mut v, "-c:v");
    push_text(&mut v, "libvpx-vp9");
    push_text(&mut v, "-crf");
    push_text(&mut v, "18");
    push_text(&mut v, "-b:v");
    push_text(&mut v, "0");
    push_text(&mut v, "-pix_fmt");
    push_text(&mut v, "yuva420p");
    push_text(&mut v, "-deadline");
    push_text(&mut v, "good");
    push_text(&mut v, "-cpu-used");
    push_text(&mut v, "2");
    push_text(&mut v, "-row-mt");
    push_text(&mut v, "1");
    push_text(&mut v, "-threads");
    push_text(&mut v, "0");
    push_text(&mut v, "-tile-columns");
    push_text(&mut v, "2");
    push_text(&mut v, "-auto-alt-ref");
    push_text(&mut v, "1");
    push_text(&mut v, "-lag-in-frames");
    push_text(&mut v, "25");
    v
}

fn gif_part(scale: String) -> (r: Vec<String>)
    ensures
        texts(r@) == seq!["-vf"@, gif_filter(scale@), "-loop"@, "0"@],
{
    let mut v = empty_texts();
    push_text(&mut v, "-vf");
    push_string(&mut v, render_gif_filter(&scale));
    push_text(&mut v, "-loop");
    push_text(&mut v, "0");
    v
}

fn streaming_h264_part(platform: Platform, use_hw: bool, scale: String) -> (r: Vec<String>)
    ensures
        texts(r@) == streaming_output_args(Format::Mp4, platform, use_hw, scale@),
{
    let mut v = empty_texts();
    push_text(&mut v, "-vf");
    push_string(&mut v, scale);
    push_text(&mut v, "-c:v");
    if use_hw && platform == Platform::MacOs {
        push_text(&mut v, "h264_videotoolbox");
        push_text(&mut v, "-pix_fmt");
        push_text(&mut v, "yuv420p");
        push_text(&mut v, "-q:v");
        push_text(&mut v, "75");
    } else if use_hw && platform == Platform::Windows {
        push_text(&mut v, "h264_nvenc");
        push_text(&mut v, "-pix_fmt");
        push_text(&mut v, "yuv420p");
        push_text(&mut v, "-preset");
        push_text(&mut v, "p6");
        push_text(&mut v, "-tune");
        push_text(&mut v, "hq");
        push_text(&mut v, "-rc");
        push_text(&mut v, "vbr");
        push_text(&mut v, "-cq");
        push_text(&mut v, "19");
        push_text(&mut v, "-b:v");
        push_text(&mut v, "0");
    } else {
        push_text(&mut v, "libx264");
        push_text(&mut v, "-pix_fmt");
        push_text(&mut v, "yuv420p");
        push_text(&mut v, "-preset");
        push_text(&mut v, "medium");
        push_text(&mut v, "-crf");
        push_text(&mut v, "20");
    }
    push_text(&mut v, "-tag:v");
    push_text(&mut v, "avc1");
    push_text(&mut v, "-movflags");
    push_text(&mut v, "+faststart");
    if !(use_hw && (platform == Platform::MacOs || platform == Platform::Windows)) {
        push_text(&mut v, "-threads");
        push_text(&mut v, "0");
    }
    push_bt709_flags(&mut v);
    assert(texts(v@) =~= streaming_output_args(Format::Mp4, platform, use_hw, scale@));
    v
}

/// Resolves the encoder arguments for a streaming encode of raw RGBA frames
/// read from standard input; the output path is not included.
pub fn get_streaming_encoder_args(
    format: Format,
    input_width: u32,
    input_height: u32,
    output_width: u32,
    output_height: u32,
    fps: u32,
    use_hw: bool,
    platform: Platform,
    audio_path: Option<&str>,
) -> (r: Vec<String>)
    ensures
        texts(r@) == streaming_args(
            format,
            input_width as nat,
            input_height as nat,
            output_width as nat,
            output_height as nat,
            fps as nat,
            use_hw,
            platform,
            match audio_path {
                Some(a) => Some(a@),
                None => None,
            },
        ),
{
    let scale = render_scale_filter(output_width, output_height);
    let mut args = raw_input_part(input_width, input_height, fps);
    append_texts(&mut args, audio_part(audio_path));
    let tail = match format {
        Format::Webm => streaming_webm_part(scale),
        Format::Gif => gif_part(scale),
        _ => streaming_h264_part(platform, use_hw, scale),
    };
    append_texts(&mut args, tail);
    args
}

// ---------------------------------------------------------------------------
// One-shot mode: a numbered image sequence on disk.
// ---------------------------------------------------------------------------

/// The output arguments of a one-shot encode of an image sequence.
pub open spec fn one_shot_output_args(
    format: Format,
    platform: Platform,
    use_hw: bool,
    scale: Seq<char>,
) -> Seq<Seq<char>> {
    match format {
        Format::Webm => seq![
            "-vf"@,
            scale,
            "-c:v"@,
            "libvpx-vp9"@,
            "-crf"@,
            "24"@,
            "-b:v"@,
            "0"@,
            "-pix_fmt"@,
            "yuv420p"@,
            "-row-mt"@,
            "1"@,
            "-threads"@,
            "0"@,
            "-deadline"@,
            "good"@,
            "-cpu-used"@,
            "4"@,
            "-tile-columns"@,
            "2"@,
            "-auto-alt-ref"@,
            "1"@,
            "-lag-in-frames"@,
            "25"@,
        ],
        Format::Gif => seq!["-vf"@, gif_filter(scale), "-loop"@, "0"@],
        _ => if use_hw && platform == Platform::MacOs {
            seq![
                "-vf"@,
                scale,
                "-c:v"@,
                "h264_videotoolbox"@,
                "-pix_fmt"@,
                "yuv420p"@,
                "-q:v"@,
                "70"@,
                "-tag:v"@,
                "avc1"@,
                "-movflags"@,
                "+faststart"@,
            ]
        } else if use_hw && platform == Platform::Windows {
            seq![
                "-vf"@,
                scale,
                "-c:v"@,
                "h264_nvenc"@,
                "-pix_fmt"@,
                "yuv420p"@,
                "-preset"@,
                "p1"@,
                "-tune"@,
                "hq"@,
                "-rc"@,
                "vbr"@,
                "-cq"@,
                "24"@,
                "-tag:v"@,
                "avc1"@,
                "-movflags"@,
                "+faststart"@,
            ]
        } else if format == Format::Mov {
            seq![
                "-vf"@,
                scale,
                "-c:v"@,
                "libx264"@,
                "-pix_fmt"@,
                "yuv420p"@,
                "-preset"@,
                "fast"@,
                "-crf"@,
                "21"@,
                "-tag:v"@,
                "avc1"@,
                "-movflags"@,
                "+faststart"@,
            ]
        } else {
            seq![
                "-vf"@,
                scale,
                "-c:v"@,
                "libx264"@,
                "-pix_fmt"@,
                "yuv420p"@,
                "-preset"@,
                "fast"@,
                "-crf"@,
                "21"@,
                "-tag:v"@,
                "avc1"@,
                "-movflags"@,
                "+faststart"@,
            ] + bt709_flags()
        },
    }
}

fn one_shot_webm_part(scale: String) -> (r: Vec<String>)
    ensures
        texts(r@) == one_shot_output_args(Format::Webm, Platform::Other, false, scale@),
{
    let mut v = empty_texts();
    push_text(&mut v, "-vf");
    push_string(&mut v, scale);
    push_text(&mut v, "-c:v");
    push_text(&mut v, "libvpx-vp9");
    push_text(&mut v, "-crf");
    push_text(&mut v, "24");
    push_text(&mut v, "-b:v");
    push_text(&mut v, "0");
    push_text(&mut v, "-pix_fmt");
    push_text(&mut v, "yuv420p");
    push_text(&mut v, "-row-mt");
    push_text(&mut v, "1");
    push_text(&mut v, "-threads");
    push_text(&mut v, "0");
    push_text(&mut v, "-deadline");
    push_text(&mut v, "good");
    push_text(&mut v, "-cpu-used");
    push_text(&mut v, "4");
    push_text(&mut v, "-tile-columns");
    push_text(&mut v, "2");
    push_text(&mut v, "-auto-alt-ref");
    push_text(&mut v, "1");
    push_text(&mut v, "-lag-in-frames");
    push_text(&mut v, "25");
    v
}

fn one_shot_h264_part(format: Format, platform: Platform, use_hw: bool, scale: String) -> (r: Vec<
    String,
>)
    requires
        format == Format::Mov || format == Format::Mp4,
    ensures
        texts(r@) == one_shot_output_args(format, platform, use_hw, scale@),
{
    let mut v = empty_texts();
    push_text(&mut v, "-vf");
    push_string(&mut v, scale);
    push_text(&mut v, "-c:v");
    if use_hw && platform == Platform::MacOs {
        push_text(&mut v, "h264_videotoolbox");
        push_text(&mut v, "-pix_fmt");
        push_text(&mut v, "yuv420p");
        push_text(&mut v, "-q:v");
        push_text(&mut v, "70");
    } else if use_hw && platform == Platform::Windows {
        push_text(&mut v, "h264_nvenc");
        push_text(&mut v, "-pix_fmt");
        push_text(&mut v, "yuv420p");
        push_text(&mut v, "-preset");
        push_text(&mut v, "p1");
        push_text(&mut v, "-tune");
        push_text(&mut v, "hq");
        push_text(&mut v, "-rc");
        push_text(&mut v, "vbr");
        push_text(&mut v, "-cq");
        push_text(&mut v, "24");
    } else {
        push_text(&mut v, "libx264");
        push_text(&mut v, "-pix_fmt");
        push_text(&mut v, "yuv420p");
        push_text(&mut v, "-preset");
        push_text(&mut v, "fast");
        push_text(&mut v, "-crf");
        push_text(&mut v, "21");
    }
    push_text(&mut v, "-tag:v");
    push_text(&mut v, "avc1");
    push_text(&mut v, "-movflags");
    push_text(&mut v, "+faststart");
    if format == Format::Mp4 && !(use_hw && (platform == Platform::MacOs || platform
        == Platform::Windows)) {
        push_bt709_flags(&mut v);
    }
    assert(texts(v@) =~= one_shot_output_args(format, platform, use_hw, scale@));
    v
}

/// Resolves the output arguments of a one-shot encode of an image sequence.
pub fn get_encoder_args(
    format: Format,
    width: u32,
    height: u32,
    use_hw: bool,
    platform: Platform,
) -> (r: Vec<String>)
    ensures
        texts(r@) == one_shot_output_args(
            format,
            platform,
            use_hw,
            scale_filter(width as nat, height as nat),
        ),
{
    let scale = render_scale_filter(width, height);
    match format {
        Format::Webm => one_shot_webm_part(scale),
        Format::Gif => gif_part(scale),
        _ => one_shot_h264_part(format, platform, use_hw, scale),
    }
}

/// The whole command line of a one-shot encode: read the numbered images
/// matching `pattern` at `fps`, report progress on standard output, and write
/// `output`.
pub open spec fn one_shot_command(
    fps: nat,
    pattern: Seq<char>,
    format: Format,
    width: nat,
    height: nat,
    use_hw: bool,
    platform: Platform,
    output: Seq<char>,
) -> Seq<Seq<char>> {
    seq!["-y"@, "-hide_banner"@, "-progress"@, "pipe:1"@, "-framerate"@, decimal(fps), "-i"@, pattern]
        + one_shot_output_args(format, platform, use_hw, scale_filter(width, height)) + seq![output]
}

/// Builds the whole command line of a one-shot encode.
pub fn one_shot_encode_args(
    fps: u32,
    pattern: &str,
    format: Format,
    width: u32,
    height: u32,
    use_hw: bool,
    platform: Platform,
    output: &str,
) -> (r: Vec<String>)
    ensures
        texts(r@) == one_shot_command(
            fps as nat,
            pattern@,
            format,
            width as nat,
            height as nat,
            use_hw,
            platform,
            output@,
        ),
{
    let mut v = empty_texts();
    push_text(&mut v, "-y");
    push_text(&mut v, "-hide_banner");
    push_text(&mut v, "-progress");
    push_text(&mut v, "pipe:1");
    push_text(&mut v, "-framerate");
    push_string(&mut v, render_decimal(fps as u64));
    push_text(&mut v, "-i");
    push_text(&mut v, pattern);
    append_texts(&mut v, get_encoder_args(format, width, height, use_hw, platform));
    push_text(&mut v, output);
    v
}

/// Whether a directory entry is one of the numbered frame images of a
/// one-shot encode.
pub open spec fn is_frame_image(name: Seq<char>) -> bool {
    &&& name.len() >= 6
    &&& name.subrange(0, 6) == "frame_"@
    &&& name.len() >= 4
    &&& name.subrange(name.len() - 4, name.len() as int) == ".png"@
}

/// Tells whether a file name is one of the numbered frame images.
pub fn is_frame_file(name: &str) -> (r: bool)
    ensures
        r == is_frame_image(name@),
{
    proof {
        reveal_strlit("frame_");
        reveal_strlit(".png");
    }
    has_prefix(name, "frame_") && has_suffix(name, ".png")
}

} // verus!
