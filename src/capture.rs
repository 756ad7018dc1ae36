//! One frame-grab per screenshot request: the command line handed to the
//! grabbing tool, and the response made of its outcome.
use vstd::prelude::*;
use vstd::string::*;
use crate::http::{Response, STATUS_OK, STATUS_SERVER_ERROR, PNG, PLAIN_TEXT};

verus! {

/// The external frame-grabbing tool.
pub const GRAB_PROGRAM: &'static str = "ffmpeg";

/// The virtual display that is captured.
pub const DISPLAY: &'static str = ":99";

/// Capture size used when none is configured.
pub const DEFAULT_RESOLUTION: &'static str = "1920x1080";

/// Body of the response to a failed capture.
pub const CAPTURE_FAILED: &'static str = "Failed to capture screenshot";

/// How a frame-grab invocation ended.
#[derive(Debug)]
pub enum GrabOutcome {
    /// The tool ran; `success` is its exit status, `stdout` what it wrote.
    Finished { success: bool, stdout: Vec<u8> },
    /// The tool could not be started.
    NotStarted,
}

/// The capture size: the configured value if any, else the default.
pub open spec fn capture_size_spec(configured: Option<Seq<char>>) -> Seq<char> {
    match configured {
        Some(v) => v,
        None => DEFAULT_RESOLUTION@,
    }
}

/// The characters of an optional string.
pub open spec fn option_view(o: Option<String>) -> Option<Seq<char>> {
    match o {
        Some(v) => Some(v@),
        None => None,
    }
}

pub fn capture_size(configured: Option<String>) -> (r: String)
    ensures
        r@ == capture_size_spec(option_view(configured)),
{
    match configured {
        Some(v) => v,
        None => DEFAULT_RESOLUTION.to_owned(),
    }
}

/// Arguments of one frame-grab: one frame of `DISPLAY` at `size`, as an
/// image on standard output.
pub open spec fn grab_args_spec(size: Seq<char>) -> Seq<Seq<char>> {
    seq![
        "-f"@,
        "x11grab"@,
        "-video_size"@,
        size,
        "-i"@,
        DISPLAY@,
        "-frames:v"@,
        "1"@,
        "-f"@,
        "image2"@,
        "-"@,
    ]
}

pub fn grab_args(size: &str) -> (r: Vec<String>)
    ensures
        r@.map_values(|a: String| a@) == grab_args_spec(size@),
{
    let mut r: Vec<String> = Vec::new();
    r.push("-f".to_owned());
    r.push("x11grab".to_owned());
    r.push("-video_size".to_owned());
    r.push(size.to_owned());
    r.push("-i".to_owned());
    r.push(DISPLAY.to_owned());
    r.push("-frames:v".to_owned());
    r.push("1".to_owned());
    r.push("-f".to_owned());
    r.push("image2".to_owned());
    r.push("-".to_owned());
    assert(r@.map_values(|a: String| a@) =~= grab_args_spec(size@));
    r
}

/// The size argument of a frame-grab is the configured resolution, or
/// `DEFAULT_RESOLUTION` when none is configured; it is the only argument that
/// the configuration changes, so a configured size other than the default
/// gives another command line.
pub proof fn lemma_resolution_selects_size(configured: Option<Seq<char>>)
    ensures
        grab_args_spec(capture_size_spec(configured))[3] == (match configured {
            Some(v) => v,
            None => DEFAULT_RESOLUTION@,
        }),
        forall|i: int|
            0 <= i < 11 && i != 3 ==> #[trigger] grab_args_spec(capture_size_spec(configured))[i]
                == grab_args_spec(DEFAULT_RESOLUTION@)[i],
        configured matches Some(v) && v != DEFAULT_RESOLUTION@ ==> grab_args_spec(
            capture_size_spec(configured),
        ) != grab_args_spec(DEFAULT_RESOLUTION@),
{
    let a = grab_args_spec(capture_size_spec(configured));
    let d = grab_args_spec(DEFAULT_RESOLUTION@);
    if configured is Some && configured->0 != DEFAULT_RESOLUTION@ {
        assert(a[3] != d[3]);
    }
}

/// `GET /screenshot`: the frame on success, else a server error.
pub fn screenshot_response(outcome: GrabOutcome) -> (r: Response)
    ensures
        match outcome {
            GrabOutcome::Finished { success: true, stdout } => {
                &&& r.status == STATUS_OK
                &&& r.content_type@ == PNG@
                &&& r.body@ == stdout@
            },
            _ => {
                &&& r.status == STATUS_SERVER_ERROR
                &&& r.content_type@ == PLAIN_TEXT@
                &&& r.body@ == CAPTURE_FAILED.spec_bytes()
            },
        },
{
    match outcome {
        GrabOutcome::Finished { success: true, stdout } => Response {
            status: STATUS_OK,
            content_type: PNG,
            body: stdout,
        },
        _ => Response {
            status: STATUS_SERVER_ERROR,
            content_type: PLAIN_TEXT,
            body: CAPTURE_FAILED.as_bytes_vec(),
        },
    }
}

} // verus!
