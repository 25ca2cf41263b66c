//! Planning the start of a streaming encode: the defaults of the request, the
//! verdict on the encoder executable, the argument list and the fresh session.
//! Also the names under which the encoder executable is looked for.
use vstd::prelude::*;
use crate::args::{
    get_streaming_encoder_args,
    platform_named,
    push_string,
    streaming_args,
    texts,
    Format,
    Platform,
    format_named,
};
use crate::error::EncodeError;
use crate::session::{initial_view, Session, QUEUE_CAPACITY};
use crate::text::has_prefix;

verus! {

/// What probing the encoder executable found.
#[derive(Clone, Copy, Debug, PartialEq, Eq, Structural)]
pub enum BinaryProbe {
    /// No executable was found.
    Missing,
    /// An executable was found but its self-check failed.
    NotRunnable,
    /// An executable was found and passed its self-check.
    Runnable,
}

/// What a caller asks of a new streaming encode.
#[derive(Clone, Debug)]
pub struct StartRequest {
    pub output_path: String,
    /// The output frame size.
    pub width: u32,
    pub height: u32,
    pub fps: u32,
    /// The declared number of frames, used only for progress.
    pub total_frames: u32,
    /// The container format by name; `mp4` when absent.
    pub format: Option<String>,
    /// Whether to prefer a hardware encoder; yes when absent.
    pub use_hw: Option<bool>,
    /// An audio track the caller found readable.
    pub audio_path: Option<String>,
    /// The size of the frames that will be pushed; the output size when absent.
    pub input_width: Option<u32>,
    pub input_height: Option<u32>,
}

/// The encoder command line and the fresh session of a planned start.
pub struct StartPlan {
    pub args: Vec<String>,
    pub session: Session,
}

pub open spec fn requested_format(f: Option<String>) -> Format {
    match f {
        Some(name) => format_named(name@),
        None => Format::Mp4,
    }
}

pub open spec fn or_default<T>(o: Option<T>, d: T) -> T {
    match o {
        Some(v) => v,
        None => d,
    }
}

pub open spec fn audio_text(o: Option<String>) -> Option<Seq<char>> {
    match o {
        Some(s) => Some(s@),
        None => None,
    }
}

/// The encoder command line of a request: the streaming arguments followed
/// by the output path.
pub open spec fn start_command(req: StartRequest, platform: Platform) -> Seq<Seq<char>> {
    streaming_args(
        requested_format(req.format),
        or_default(req.input_width, req.width) as nat,
        or_default(req.input_height, req.height) as nat,
        req.width as nat,
        req.height as nat,
        req.fps as nat,
        or_default(req.use_hw, true),
        platform,
        audio_text(req.audio_path),
    ).push(req.output_path@)
}

/// The byte length of each pushed frame of a request.
pub open spec fn frame_bytes(req: StartRequest) -> nat {
    (or_default(req.input_width, req.width) as nat) * (or_default(req.input_height, req.height) as nat)
        * 4
}

/// Plans the start of a streaming encode: a missing or broken encoder fails
/// first, then input frames too large to hold; otherwise the plan holds the
/// encoder's command line and a fresh session with the standard queue.
pub fn plan_start(req: &StartRequest, platform: Platform, probe: BinaryProbe) -> (r: Result<
    StartPlan,
    EncodeError,
>)
    ensures
        probe == BinaryProbe::Missing ==> r == Err::<StartPlan, EncodeError>(
            EncodeError::BinaryNotFound,
        ),
        probe == BinaryProbe::NotRunnable ==> r == Err::<StartPlan, EncodeError>(
            EncodeError::BinaryNotRunnable,
        ),
        probe == BinaryProbe::Runnable && frame_bytes(*req) > usize::MAX ==> r == Err::<
            StartPlan,
            EncodeError,
        >(
            EncodeError::FrameTooLarge {
                width: or_default(req.input_width, req.width),
                height: or_default(req.input_height, req.height),
            },
        ),
        probe == BinaryProbe::Runnable && frame_bytes(*req) <= usize::MAX ==> (r matches Ok(p) && texts(
            p.args@,
        ) == start_command(*req, platform) && p.session.wf() && p.session@ == initial_view(
            frame_bytes(*req),
            req.total_frames as nat,
            QUEUE_CAPACITY as nat,
        )),
{
    match probe {
        BinaryProbe::Missing => {
            return Err(EncodeError::BinaryNotFound);
        },
        BinaryProbe::NotRunnable => {
            return Err(EncodeError::BinaryNotRunnable);
        },
        BinaryProbe::Runnable => {},
    }
    let format = match &req.format {
        Some(name) => Format::from_name(name.as_str()),
        None => Format::Mp4,
    };
    let use_hw = match req.use_hw {
        Some(b) => b,
        None => true,
    };
    let input_width = match req.input_width {
        Some(w) => w,
        None => req.width,
    };
    let input_height = match req.input_height {
        Some(h) => h,
        None => req.height,
    };
    let session = match Session::new(input_width, input_height, req.total_frames, QUEUE_CAPACITY) {
        Ok(s) => s,
        Err(e) => {
            return Err(e);
        },
    };
    let audio = match &req.audio_path {
        Some(a) => Some(a.as_str()),
        None => None,
    };
    let mut args = get_streaming_encoder_args(
        format,
        input_width,
        input_height,
        req.width,
        req.height,
        req.fps,
        use_hw,
        platform,
        audio,
    );
    push_string(&mut args, req.output_path.clone());
    Ok(StartPlan { args, session })
}

/// An audio location as a file system path: a `file://` prefix is removed.
pub open spec fn audio_file(path: Seq<char>) -> Seq<char> {
    if path.len() >= 7 && path.subrange(0, 7) == "file://"@ {
        path.subrange(7, path.len() as int)
    } else {
        path
    }
}

/// Turns an audio location into a file system path.
pub fn audio_source(path: &str) -> (r: String)
    ensures
        r@ == audio_file(path@),
{
    proof {
        reveal_strlit("file://");
    }
    if has_prefix(path, "file://") {
        let n = path.unicode_len();
        String::from_str(path.substring_char(7, n))
    } else {
        String::from_str(path)
    }
}

/// `a + b + c` as one string.
fn concat3(a: &str, b: &str, c: &str) -> (r: String)
    ensures
        r@ == a@ + b@ + c@,
{
    let mut s = String::from_str(a);
    s.append(b);
    s.append(c);
    s
}

/// The file names under which the encoder executable is looked for, best
/// first, for an operating system and an architecture as the standard library
/// names them.
pub open spec fn binary_names_for(os: Seq<char>, arch: Seq<char>) -> Seq<Seq<char>> {
    match platform_named(os) {
        Platform::Windows => seq![
            "ffmpeg-"@ + arch + "-pc-windows-msvc.exe"@,
            "ffmpeg-"@ + arch + "-pc-windows-gnu.exe"@,
            "ffmpeg-"@ + arch + "-"@ + os + ".exe"@,
            "ffmpeg.exe"@,
        ],
        Platform::MacOs => seq![
            "ffmpeg-"@ + arch + "-apple-darwin"@,
            "ffmpeg-universal-apple-darwin"@,
            "ffmpeg-"@ + arch + "-"@ + os,
            "ffmpeg"@,
        ],
        Platform::Other => seq![
            "ffmpeg-"@ + arch + "-unknown-linux-gnu"@,
            "ffmpeg-"@ + arch + "-unknown-linux-musl"@,
            "ffmpeg-"@ + arch + "-"@ + os,
            "ffmpeg"@,
        ],
    }
}

/// Lists the file names under which the encoder executable is looked for.
pub fn binary_names(os: &str, arch: &str) -> (r: Vec<String>)
    ensures
        texts(r@) == binary_names_for(os@, arch@),
{
    let mut v: Vec<String> = Vec::new();
    assert(texts(v@) =~= Seq::<Seq<char>>::empty());
    let platform = Platform::from_os_name(os);
    let mut own = concat3("ffmpeg-", arch, "-");
    own.append(os);
    match platform {
        Platform::Windows => {
            push_string(&mut v, concat3("ffmpeg-", arch, "-pc-windows-msvc.exe"));
            push_string(&mut v, concat3("ffmpeg-", arch, "-pc-windows-gnu.exe"));
            own.append(".exe");
            push_string(&mut v, own);
            push_string(&mut v, String::from_str("ffmpeg.exe"));
        },
        Platform::MacOs => {
            push_string(&mut v, concat3("ffmpeg-", arch, "-apple-darwin"));
            push_string(&mut v, String::from_str("ffmpeg-universal-apple-darwin"));
            push_string(&mut v, own);
            push_string(&mut v, String::from_str("ffmpeg"));
        },
        Platform::Other => {
            push_string(&mut v, concat3("ffmpeg-", arch, "-unknown-linux-gnu"));
            push_string(&mut v, concat3("ffmpeg-", arch, "-unknown-linux-musl"));
            push_string(&mut v, own);
            push_string(&mut v, String::from_str("ffmpeg"));
        },
    }
    v
}

} // verus!
