//! The application job controller: decides when a job may be submitted or
//! cancelled, and turns the orchestrator's events into the state that the
//! user interface shows.
//!
//! The controller does no I/O. A method that needs something sent or
//! computed elsewhere returns it: the job to submit, the command to send,
//! the image bytes to decode into a preview. The preview's type `P` is the
//! user interface's own.

use crate::job::{Command, JobError, JobSpec, Message, DEFAULT_GIF_WIDTH};
use crate::worker::Event;
use std::time::Duration;
use vstd::prelude::*;

verus! {

/// The error shown for a job whose engine produced no output.
pub const UNSUPPORTED_FORMAT: &'static str = "Likely unsupported file format.";

/// The error shown when the orchestrator refused a job because another one
/// was running.
pub const JOB_REFUSED: &'static str = "The conversion could not start: another one is running.";

/// The controller's state, as plain values.
pub struct ControllerView<P> {
    /// The orchestrator's input queue has been handed over.
    pub worker_ready: bool,
    /// No job runs: false from a job's submission until its `Done`.
    pub idle: bool,
    /// The user asked to cancel the running job.
    pub cancel_pending: bool,
    /// The width that the user chose, if any.
    pub gif_width: Option<u16>,
    pub video_path: Option<Seq<char>>,
    pub error_message: Option<Seq<char>>,
    /// In thousandths.
    pub progress: Option<u16>,
    pub video_duration: Option<Duration>,
    /// The encoded animated image that the job returned.
    pub image_data: Option<Seq<u8>>,
    /// The image decoded for display.
    pub preview: Option<P>,
}

pub open spec fn text_view(o: Option<String>) -> Option<Seq<char>> {
    match o {
        Some(s) => Some(s@),
        None => None,
    }
}

pub open spec fn bytes_view(o: Option<Vec<u8>>) -> Option<Seq<u8>> {
    match o {
        Some(v) => Some(v@),
        None => None,
    }
}

/// The controller in its first state.
pub open spec fn initial<P>() -> ControllerView<P> {
    ControllerView {
        worker_ready: false,
        idle: true,
        cancel_pending: false,
        gif_width: Some(DEFAULT_GIF_WIDTH),
        video_path: None,
        error_message: None,
        progress: None,
        video_duration: None,
        image_data: None,
        preview: None,
    }
}

/// `c` with everything that a job produced or showed taken away.
pub open spec fn cleared<P>(c: ControllerView<P>) -> ControllerView<P> {
    ControllerView {
        video_path: None,
        error_message: None,
        progress: None,
        video_duration: None,
        image_data: None,
        preview: None,
        ..c
    }
}

/// Idle, with nothing of any job left.
pub open spec fn is_fully_cleared<P>(c: ControllerView<P>) -> bool {
    &&& c.idle
    &&& !c.cancel_pending
    &&& c.video_path is None
    &&& c.error_message is None
    &&& c.progress is None
    &&& c.video_duration is None
    &&& c.image_data is None
    &&& c.preview is None
}

/// A job has been chosen and has neither a preview nor an error yet.
pub open spec fn is_working_spec<P>(c: ControllerView<P>) -> bool {
    c.video_path is Some && c.preview is None && c.error_message is None
}

pub open spec fn is_cleared_spec<P>(c: ControllerView<P>) -> bool {
    c.video_path is None && c.idle
}

/// A new job may be submitted.
pub open spec fn accepts_task<P>(c: ControllerView<P>) -> bool {
    c.worker_ready && c.idle
}

/// The width that a job submitted now would get.
pub open spec fn job_width<P>(c: ControllerView<P>) -> u16 {
    match c.gif_width {
        Some(w) => w,
        None => DEFAULT_GIF_WIDTH,
    }
}

/// The state after a job for `path` has been submitted.
pub open spec fn after_new_task<P>(c: ControllerView<P>, path: Seq<char>) -> ControllerView<P> {
    if accepts_task(c) {
        ControllerView { idle: false, cancel_pending: false, video_path: Some(path), ..cleared(c) }
    } else {
        c
    }
}

/// The state after the user asked to cancel the job, or to clear what is
/// shown when no job runs.
pub open spec fn after_cancel_or_clear<P>(c: ControllerView<P>) -> ControllerView<P> {
    if c.idle {
        cleared(c)
    } else {
        ControllerView { cancel_pending: true, ..c }
    }
}

/// The state after the running job's message `m`. Messages that come while
/// no job runs belong to no job of this controller and change nothing.
pub open spec fn after_message<P>(c: ControllerView<P>, m: Message) -> ControllerView<P> {
    if c.idle {
        c
    } else {
        match m {
            Message::VideoDuration(d) => ControllerView { video_duration: Some(d), ..c },
            Message::Progress(p) => ControllerView { progress: Some(p), ..c },
            Message::Success(data) => if c.cancel_pending {
                c
            } else {
                ControllerView { image_data: Some(data@), ..c }
            },
            Message::Error(JobError::Cancelled) => cleared(c),
            Message::Error(JobError::EmptyOutput) => ControllerView {
                error_message: Some(UNSUPPORTED_FORMAT@),
                ..c
            },
            Message::Error(JobError::Other(text)) => ControllerView {
                error_message: Some(text@),
                ..c
            },
            Message::Done => if c.cancel_pending {
                ControllerView { idle: true, cancel_pending: false, ..cleared(c) }
            } else {
                ControllerView { idle: true, ..c }
            },
        }
    }
}

/// The image bytes to decode into a preview after message `m`: those of a
/// job that ended without a cancel request and returned an image.
pub open spec fn preview_request<P>(c: ControllerView<P>, m: Message) -> Option<Seq<u8>> {
    if !c.idle && m is Done && !c.cancel_pending {
        c.image_data
    } else {
        None
    }
}

/// The state after the orchestrator's event `e`.
///
/// A refused command means that no job was running when the command reached
/// the orchestrator. This controller sends a command only as a cancel
/// request, and marks the request when it does. With a request standing, the
/// job that it was meant for has ended without a `Done` reaching the
/// controller: the controller goes back to idle, with nothing of the job
/// left, as the cancel asked. With none standing, the refused command was
/// meant for an earlier job, which ended before it arrived, and the job now
/// running is not touched.
pub open spec fn after_event<P>(c: ControllerView<P>, e: Event) -> ControllerView<P> {
    match e {
        Event::Message(m) => after_message(c, m),
        Event::CommandRefused(_) => if c.cancel_pending {
            ControllerView { idle: true, cancel_pending: false, ..cleared(c) }
        } else {
            c
        },
        Event::TaskRefused(_) => if c.idle {
            c
        } else {
            ControllerView {
                idle: true,
                cancel_pending: false,
                video_path: c.video_path,
                error_message: Some(JOB_REFUSED@),
                ..cleared(c)
            }
        },
    }
}

pub open spec fn event_preview_request<P>(c: ControllerView<P>, e: Event) -> Option<Seq<u8>> {
    match e {
        Event::Message(m) => preview_request(c, m),
        _ => None,
    }
}

/// The state after decoding a preview finished with `r`. A result that
/// comes after the image it was decoded from has been cleared is stale and
/// dropped.
pub open spec fn after_preview<P>(c: ControllerView<P>, r: Result<P, String>) -> ControllerView<P> {
    if c.image_data is None {
        c
    } else {
        match r {
            Ok(p) => ControllerView { preview: Some(p), ..c },
            Err(e) => ControllerView { error_message: Some(e@), ..c },
        }
    }
}

/// A cancel request stands only while a job runs.
pub open spec fn consistent<P>(c: ControllerView<P>) -> bool {
    c.cancel_pending ==> !c.idle
}

/// Every change of the controller keeps it consistent.
pub proof fn lemma_transitions_keep_consistent<P>(
    c: ControllerView<P>,
    path: Seq<char>,
    e: Event,
    r: Result<P, String>,
    width: Option<u16>,
)
    requires
        consistent(c),
    ensures
        consistent(initial::<P>()),
        consistent(after_new_task(c, path)),
        consistent(after_cancel_or_clear(c)),
        consistent(after_event(c, e)),
        consistent(after_preview(c, r)),
        consistent(ControllerView { worker_ready: true, ..c }),
        consistent(ControllerView { gif_width: width, ..c }),
{
}

/// Clearing an idle controller clears what is shown and sends nothing.
pub proof fn lemma_idle_clear_is_local<P>(c: ControllerView<P>)
    requires
        consistent(c),
        c.idle,
    ensures
        is_fully_cleared(after_cancel_or_clear(c)),
        after_cancel_or_clear(c).worker_ready == c.worker_ready,
        after_cancel_or_clear(c).gif_width == c.gif_width,
{
}

/// The state after the running job's messages `ms`, in order.
pub open spec fn after_messages<P>(c: ControllerView<P>, ms: Seq<Message>) -> ControllerView<P>
    decreases ms.len(),
{
    if ms.len() == 0 {
        c
    } else {
        after_messages(after_message(c, ms[0]), ms.drop_first())
    }
}

/// Cancelling a running job, then receiving the job's `Error(Cancelled)`
/// and its `Done`, leaves the controller idle with nothing of the job left.
pub proof fn lemma_cancelled_job_ends_cleared<P>(c: ControllerView<P>)
    requires
        !c.idle,
    ensures
        is_fully_cleared(
            after_message(
                after_message(after_cancel_or_clear(c), Message::Error(JobError::Cancelled)),
                Message::Done,
            ),
        ),
{
}

/// Messages other than `Done` keep a running controller running, and keep a
/// cancel request standing.
proof fn lemma_running_until_done<P>(c: ControllerView<P>, ms: Seq<Message>)
    requires
        !c.idle,
        forall|i: int| 0 <= i < ms.len() ==> !((#[trigger] ms[i]) is Done),
    ensures
        !after_messages(c, ms).idle,
        c.cancel_pending ==> after_messages(c, ms).cancel_pending,
    decreases ms.len(),
{
    if ms.len() > 0 {
        assert(!(ms[0] is Done));
        assert forall|i: int| 0 <= i < ms.drop_first().len() implies !((
        #[trigger] ms.drop_first()[i]) is Done) by {
            assert(ms.drop_first()[i] == ms[i + 1]);
        }
        lemma_running_until_done(after_message(c, ms[0]), ms.drop_first());
    }
}

/// A submitted job keeps the controller busy until the job's `Done`, and
/// its `Done` makes it idle again.
pub proof fn lemma_busy_until_done<P>(c: ControllerView<P>, path: Seq<char>, ms: Seq<Message>)
    requires
        accepts_task(c),
        forall|i: int| 0 <= i < ms.len() ==> !((#[trigger] ms[i]) is Done),
    ensures
        !after_messages(after_new_task(c, path), ms).idle,
        after_message(after_messages(after_new_task(c, path), ms), Message::Done).idle,
{
    lemma_running_until_done(after_new_task(c, path), ms);
}

/// Once the user has asked to cancel a running job, whatever the job still
/// sends before its `Done`, an image included, no preview is decoded, and
/// the `Done` leaves the controller idle with nothing of the job left.
pub proof fn lemma_no_preview_after_cancel<P>(c: ControllerView<P>, ms: Seq<Message>)
    requires
        !c.idle,
        forall|i: int| 0 <= i < ms.len() ==> !((#[trigger] ms[i]) is Done),
    ensures
        preview_request(after_messages(after_cancel_or_clear(c), ms), Message::Done) is None,
        is_fully_cleared(after_message(after_messages(after_cancel_or_clear(c), ms), Message::Done)),
{
    lemma_running_until_done(after_cancel_or_clear(c), ms);
}

/// What the status line under the content says.
#[derive(Clone, Copy, Debug, PartialEq, Eq, Structural)]
pub enum FooterStatus {
    /// The job for the chosen video failed.
    ConversionFailed,
    /// The animated image is shown.
    Previewing,
    /// The image has arrived and is being decoded for display.
    LoadingPreview,
    /// A video has been chosen.
    VideoSelected,
    Blank,
}

/// How far a running job has come, as the content area tells it.
#[derive(Clone, Copy, Debug, PartialEq, Eq, Structural)]
pub enum WorkStage {
    /// Nothing has come from the job yet.
    Starting,
    /// The video's length is known and no progress yet.
    DurationKnown,
    /// Frames are being processed.
    Processing,
}

/// What the content area shows.
#[derive(Clone, Copy, Debug, PartialEq, Eq, Structural)]
pub enum Content {
    Error,
    /// The decoded animated image.
    Preview,
    /// The still image, while the preview is being decoded.
    Image,
    Working(WorkStage),
    /// An invitation to choose a video.
    Prompt,
}

/// The label of the button that stops or clears a job.
#[derive(Clone, Copy, Debug, PartialEq, Eq, Structural)]
pub enum StopLabel {
    Cancel,
    Clear,
}

/// Which controls the toolbar offers.
#[derive(Clone, Copy, Debug, PartialEq, Eq, Structural)]
pub struct Toolbar {
    /// The button that opens a video.
    pub open: bool,
    /// The button that cancels or clears, and its label.
    pub stop: Option<StopLabel>,
    /// The button that saves the animated image.
    pub save: bool,
    /// Whether the width can be changed.
    pub width_editable: bool,
}

pub open spec fn footer_status_spec<P>(c: ControllerView<P>) -> FooterStatus {
    if c.error_message is Some && c.video_path is Some {
        FooterStatus::ConversionFailed
    } else if c.preview is Some {
        FooterStatus::Previewing
    } else if c.image_data is Some {
        FooterStatus::LoadingPreview
    } else if c.video_path is Some {
        FooterStatus::VideoSelected
    } else {
        FooterStatus::Blank
    }
}

/// The image has arrived and neither its preview nor an error has.
pub open spec fn is_loading_preview_spec<P>(c: ControllerView<P>) -> bool {
    c.image_data is Some && c.preview is None && c.error_message is None
}

pub open spec fn content_spec<P>(c: ControllerView<P>) -> Content {
    if c.error_message is Some {
        Content::Error
    } else if c.preview is Some {
        Content::Preview
    } else if c.image_data is Some {
        Content::Image
    } else if is_working_spec(c) {
        Content::Working(
            if c.video_duration is Some && c.progress is Some {
                WorkStage::Processing
            } else if c.video_duration is Some {
                WorkStage::DurationKnown
            } else {
                WorkStage::Starting
            },
        )
    } else {
        Content::Prompt
    }
}

pub open spec fn toolbar_spec<P>(c: ControllerView<P>) -> Toolbar {
    Toolbar {
        open: is_cleared_spec(c),
        stop: if is_cleared_spec(c) {
            None
        } else if is_working_spec(c) {
            Some(StopLabel::Cancel)
        } else {
            Some(StopLabel::Clear)
        },
        save: c.image_data is Some,
        width_editable: !is_working_spec(c),
    }
}

pub struct Controller<P> {
    worker_ready: bool,
    idle: bool,
    cancel_pending: bool,
    gif_width: Option<u16>,
    video_path: Option<String>,
    error_message: Option<String>,
    progress: Option<u16>,
    video_duration: Option<Duration>,
    image_data: Option<Vec<u8>>,
    preview: Option<P>,
}

impl<P> View for Controller<P> {
    type V = ControllerView<P>;

    closed spec fn view(&self) -> ControllerView<P> {
        ControllerView {
            worker_ready: self.worker_ready,
            idle: self.idle,
            cancel_pending: self.cancel_pending,
            gif_width: self.gif_width,
            video_path: text_view(self.video_path),
            error_message: text_view(self.error_message),
            progress: self.progress,
            video_duration: self.video_duration,
            image_data: bytes_view(self.image_data),
            preview: self.preview,
        }
    }
}

impl<P> Controller<P> {
    #[verifier::type_invariant]
    spec fn keeps_consistent(&self) -> bool {
        consistent(self@)
    }

    pub fn new() -> (r: Controller<P>)
        ensures
            consistent(r@),
            r@ == initial::<P>(),
    {
        Controller {
            worker_ready: false,
            idle: true,
            cancel_pending: false,
            gif_width: Some(DEFAULT_GIF_WIDTH),
            video_path: None,
            error_message: None,
            progress: None,
            video_duration: None,
            image_data: None,
            preview: None,
        }
    }

    fn clear_all(&mut self)
        ensures
            final(self)@ == cleared(old(self)@),
    {
        proof {
            use_type_invariant(&*self);
        }
        self.preview = None;
        self.image_data = None;
        self.progress = None;
        self.video_duration = None;
        self.video_path = None;
        self.error_message = None;
    }

    /// The orchestrator has handed over its input queue.
    pub fn on_ready(&mut self)
        ensures
            consistent(final(self)@),
            final(self)@ == (ControllerView { worker_ready: true, ..old(self)@ }),
    {
        proof {
            use_type_invariant(&*self);
        }
        self.worker_ready = true;
    }

    /// The user chose a width, or erased it.
    pub fn set_width(&mut self, width: Option<u16>)
        ensures
            consistent(final(self)@),
            final(self)@ == (ControllerView { gif_width: width, ..old(self)@ }),
    {
        proof {
            use_type_invariant(&*self);
        }
        self.gif_width = width;
    }

    pub fn footer_status(&self) -> (r: FooterStatus)
        ensures
            r == footer_status_spec(self@),
    {
        if self.error_message.is_some() && self.video_path.is_some() {
            FooterStatus::ConversionFailed
        } else if self.preview.is_some() {
            FooterStatus::Previewing
        } else if self.image_data.is_some() {
            FooterStatus::LoadingPreview
        } else if self.video_path.is_some() {
            FooterStatus::VideoSelected
        } else {
            FooterStatus::Blank
        }
    }

    /// Whether the status line shows that a preview is being decoded.
    pub fn is_loading_preview(&self) -> (r: bool)
        ensures
            r == is_loading_preview_spec(self@),
    {
        self.image_data.is_some() && self.preview.is_none() && self.error_message.is_none()
    }

    pub fn content(&self) -> (r: Content)
        ensures
            r == content_spec(self@),
    {
        if self.error_message.is_some() {
            Content::Error
        } else if self.preview.is_some() {
            Content::Preview
        } else if self.image_data.is_some() {
            Content::Image
        } else if self.is_working() {
            let stage = if self.video_duration.is_some() && self.progress.is_some() {
                WorkStage::Processing
            } else if self.video_duration.is_some() {
                WorkStage::DurationKnown
            } else {
                WorkStage::Starting
            };
            Content::Working(stage)
        } else {
            Content::Prompt
        }
    }

    pub fn toolbar(&self) -> (r: Toolbar)
        ensures
            r == toolbar_spec(self@),
    {
        let cleared = self.is_cleared();
        let working = self.is_working();
        let stop = if cleared {
            None
        } else if working {
            Some(StopLabel::Cancel)
        } else {
            Some(StopLabel::Clear)
        };
        Toolbar { open: cleared, stop, save: self.image_data.is_some(), width_editable: !working }
    }

    pub fn is_working(&self) -> (r: bool)
        ensures
            r == is_working_spec(self@),
    {
        self.video_path.is_some() && self.preview.is_none() && self.error_message.is_none()
    }

    pub fn is_cleared(&self) -> (r: bool)
        ensures
            r == is_cleared_spec(self@),
    {
        self.video_path.is_none() && self.idle
    }

    /// Submits a job for the video at `path`, run by the engine at
    /// `engine_path` where one is given. Nothing happens, and `None` comes
    /// back, while the orchestrator is not ready or a job runs; otherwise
    /// what an earlier job left is cleared and the job to send to the
    /// orchestrator comes back.
    pub fn new_task(&mut self, path: String, engine_path: Option<String>) -> (r: Option<JobSpec>)
        ensures
            consistent(final(self)@),
            final(self)@ == after_new_task(old(self)@, path@),
            accepts_task(old(self)@) <==> r is Some,
            r matches Some(spec) ==> {
                &&& spec.video_path@ == path@
                &&& spec.width == job_width(old(self)@)
                &&& text_view(spec.ffmpeg_path) == text_view(engine_path)
            },
    {
        proof {
            use_type_invariant(&*self);
        }
        if !self.worker_ready || !self.idle {
            return None;
        }
        self.clear_all();
        self.idle = false;
        self.cancel_pending = false;
        let width = match self.gif_width {
            Some(w) => w,
            None => DEFAULT_GIF_WIDTH,
        };
        let spec = JobSpec::with_standard_fps(path.clone(), width);
        self.video_path = Some(path);
        let spec = match engine_path {
            Some(p) => spec.ffmpeg_path(p),
            None => spec,
        };
        Some(spec)
    }

    /// A file was dropped on the window: it becomes a new job unless one is
    /// being worked on.
    pub fn file_dropped(&mut self, path: String, engine_path: Option<String>) -> (r: Option<JobSpec>)
        ensures
            consistent(final(self)@),
            is_working_spec(old(self)@) ==> final(self)@ == old(self)@ && r is None,
            !is_working_spec(old(self)@) ==> {
                &&& final(self)@ == after_new_task(old(self)@, path@)
                &&& accepts_task(old(self)@) <==> r is Some
                &&& r matches Some(spec) ==> {
                    &&& spec.video_path@ == path@
                    &&& spec.width == job_width(old(self)@)
                    &&& text_view(spec.ffmpeg_path) == text_view(engine_path)
                }
            },
    {
        proof {
            use_type_invariant(&*self);
        }
        if self.is_working() {
            return None;
        }
        self.new_task(path, engine_path)
    }

    /// The user's cancel or clear button. With no job running, what is shown
    /// is cleared at once and nothing is sent. With a job running, the
    /// command to send to the orchestrator comes back; the state is reset
    /// when the job ends.
    pub fn request_cancel_or_clear(&mut self) -> (r: Option<Command>)
        ensures
            consistent(final(self)@),
            final(self)@ == after_cancel_or_clear(old(self)@),
            r == (if old(self)@.idle { None } else { Some(Command::Cancel) }),
    {
        proof {
            use_type_invariant(&*self);
        }
        if self.idle {
            self.clear_all();
            None
        } else {
            self.cancel_pending = true;
            Some(Command::Cancel)
        }
    }

    /// A message of the running job. Where the job has ended with an image
    /// and no cancel request, the image bytes to decode into a preview come
    /// back.
    pub fn on_message(&mut self, m: Message) -> (r: Option<Vec<u8>>)
        ensures
            consistent(final(self)@),
            final(self)@ == after_message(old(self)@, m),
            bytes_view(r) == preview_request(old(self)@, m),
    {
        proof {
            use_type_invariant(&*self);
        }
        if self.idle {
            return None;
        }
        match m {
            Message::VideoDuration(d) => {
                self.video_duration = Some(d);
                None
            },
            Message::Progress(p) => {
                self.progress = Some(p);
                None
            },
            Message::Success(data) => {
                if !self.cancel_pending {
                    self.image_data = Some(data);
                }
                None
            },
            Message::Error(e) => {
                match e {
                    JobError::Cancelled => self.clear_all(),
                    JobError::EmptyOutput => {
                        self.error_message = Some(UNSUPPORTED_FORMAT.to_owned());
                    },
                    JobError::Other(text) => {
                        self.error_message = Some(text);
                    },
                }
                None
            },
            Message::Done => {
                if self.cancel_pending {
                    self.cancel_pending = false;
                    self.idle = true;
                    self.clear_all();
                    None
                } else {
                    self.idle = true;
                    match &self.image_data {
                        Some(data) => Some(data.clone()),
                        None => None,
                    }
                }
            },
        }
    }

    /// An event of the orchestrator. A refused command that answers this
    /// controller's standing cancel request means that the job has already
    /// ended: the controller goes back to idle and clears it. A refused job
    /// means that the orchestrator runs another one: the controller goes
    /// back to idle and says so.
    pub fn on_event(&mut self, e: Event) -> (r: Option<Vec<u8>>)
        ensures
            consistent(final(self)@),
            final(self)@ == after_event(old(self)@, e),
            bytes_view(r) == event_preview_request(old(self)@, e),
    {
        proof {
            use_type_invariant(&*self);
        }
        match e {
            Event::Message(m) => self.on_message(m),
            Event::CommandRefused(_) => {
                if self.cancel_pending {
                    self.cancel_pending = false;
                    self.idle = true;
                    self.clear_all();
                }
                None
            },
            Event::TaskRefused(_) => {
                if !self.idle {
                    self.cancel_pending = false;
                    self.idle = true;
                    self.preview = None;
                    self.image_data = None;
                    self.progress = None;
                    self.video_duration = None;
                    self.error_message = Some(JOB_REFUSED.to_owned());
                }
                None
            },
        }
    }

    /// Decoding the preview finished. The result is kept only while the
    /// image it was decoded from is still there.
    pub fn on_preview(&mut self, r: Result<P, String>)
        ensures
            consistent(final(self)@),
            final(self)@ == after_preview(old(self)@, r),
    {
        proof {
            use_type_invariant(&*self);
        }
        if self.image_data.is_none() {
            return;
        }
        match r {
            Ok(p) => {
                self.preview = Some(p);
            },
            Err(e) => {
                self.error_message = Some(e);
            },
        }
    }
    pub fn is_idle(&self) -> (r: bool)
        ensures
            r == self@.idle,
    {
        self.idle
    }

    pub fn is_worker_ready(&self) -> (r: bool)
        ensures
            r == self@.worker_ready,
    {
        self.worker_ready
    }

    pub fn is_cancel_pending(&self) -> (r: bool)
        ensures
            r == self@.cancel_pending,
    {
        self.cancel_pending
    }

    pub fn gif_width(&self) -> (r: Option<u16>)
        ensures
            r == self@.gif_width,
    {
        self.gif_width
    }

    pub fn video_path(&self) -> (r: &Option<String>)
        ensures
            text_view(*r) == self@.video_path,
    {
        &self.video_path
    }

    pub fn error_message(&self) -> (r: &Option<String>)
        ensures
            text_view(*r) == self@.error_message,
    {
        &self.error_message
    }

    pub fn progress(&self) -> (r: Option<u16>)
        ensures
            r == self@.progress,
    {
        self.progress
    }

    pub fn video_duration(&self) -> (r: Option<Duration>)
        ensures
            r == self@.video_duration,
    {
        self.video_duration
    }

    pub fn image_data(&self) -> (r: &Option<Vec<u8>>)
        ensures
            bytes_view(*r) == self@.image_data,
    {
        &self.image_data
    }

    pub fn preview(&self) -> (r: &Option<P>)
        ensures
            *r == self@.preview,
    {
        &self.preview
    }
}

} // verus!
