//! The values exchanged between the controller, the orchestrator and a job.

use vstd::prelude::*;

verus! {

/// Relies on `Duration`'s `Clone`, which copies the value (`Duration` is `Copy`).
pub assume_specification[ <std::time::Duration as Clone>::clone ](d: &std::time::Duration) -> (r:
    std::time::Duration)
    ensures
        r == *d,
;

/// Width, in pixels, of the animated image when the user has not chosen one.
pub const DEFAULT_GIF_WIDTH: u16 = 480;

/// A command for the job that is running.
#[derive(Clone, Copy, Debug, PartialEq, Eq, Structural)]
pub enum Command {
    Cancel,
}

/// Why a job failed.
#[derive(Clone, Debug)]
pub enum JobError {
    /// The job stopped because a `Cancel` command reached it.
    Cancelled,
    /// The engine produced no output, most often because it cannot read the
    /// input format.
    EmptyOutput,
    /// Any other failure, with the engine's description of it.
    Other(String),
}

/// A message from the running job, in the order that the job produced it.
#[derive(Clone, Debug)]
pub enum Message {
    /// The length of the source video.
    VideoDuration(std::time::Duration),
    /// How far the conversion has come, in thousandths (0 to 1000).
    Progress(u16),
    /// The encoded animated image.
    Success(Vec<u8>),
    Error(JobError),
    /// The last message of every job, whatever its outcome.
    Done,
}

impl Message {
    pub open spec fn is_done_spec(&self) -> bool {
        self is Done
    }

    /// Whether this is the terminal marker of a job.
    pub fn is_done(&self) -> (r: bool)
        ensures
            r == self.is_done_spec(),
    {
        match self {
            Message::Done => true,
            _ => false,
        }
    }
}

/// What a conversion job is asked to do. It is built once, when the job is
/// submitted, and never changed afterwards.
#[derive(Clone, Debug)]
pub struct JobSpec {
    /// The source video.
    pub video_path: String,
    /// The width of the animated image, in pixels.
    pub width: u16,
    /// The conversion engine's executable, where it is not the default one.
    pub ffmpeg_path: Option<String>,
}

impl JobSpec {
    /// A job at the engine's standard frame rate, with the default engine.
    pub fn with_standard_fps(video_path: String, width: u16) -> (r: JobSpec)
        ensures
            r.video_path@ == video_path@,
            r.width == width,
            r.ffmpeg_path is None,
    {
        JobSpec { video_path, width, ffmpeg_path: None }
    }

    /// The same job, run by the engine at `ffmpeg_path`.
    pub fn ffmpeg_path(self, ffmpeg_path: String) -> (r: JobSpec)
        ensures
            r.video_path@ == self.video_path@,
            r.width == self.width,
            r.ffmpeg_path matches Some(p) && p@ == ffmpeg_path@,
    {
        JobSpec { ffmpeg_path: Some(ffmpeg_path), ..self }
    }
}

} // verus!
