use vstd::prelude::*;
use crate::encoding::encodable;
use crate::outcome::{all_stages, stages_before, ScreenshotResult, Stage};

verus! {

/// Where a capture stands.
#[derive(Clone, Copy, Debug, PartialEq, Eq, Structural)]
pub enum Phase {
    /// Waiting for the outcome of this stage.
    Running(Stage),
    /// Every stage went through.
    Succeeded,
    /// This stage failed; no later stage ran.
    Failed(Stage),
}

/// What the caller of a session is to do next.
#[derive(Debug)]
pub enum Action {
    /// Start the rendering engine, in headless mode when `headless` holds.
    LaunchBrowser { headless: bool },
    /// Open a new tab in the engine.
    OpenTab,
    /// Start navigating the tab to the URL.
    NavigateTo(String),
    /// Wait until the page has loaded.
    WaitUntilNavigated,
    /// Capture the page as PNG, with this quality setting and whether to
    /// capture from the surface; no clip region.
    CapturePng { quality: Option<u32>, from_surface: bool },
    /// The capture is over: release the engine and hand this back.
    Finish(ScreenshotResult),
}

/// The quality setting handed to the engine with a PNG capture.
pub const CAPTURE_QUALITY: u32 = 90;

/// Whether `a` is the action that runs stage `s` of a capture of `url`.
pub open spec fn runs_stage(a: Action, s: Stage, url: Seq<char>) -> bool {
    match s {
        Stage::Launch => a == Action::LaunchBrowser { headless: true },
        Stage::OpenTab => a is OpenTab,
        Stage::Navigate => a is NavigateTo && a->NavigateTo_0@ == url,
        Stage::WaitForLoad => a is WaitUntilNavigated,
        Stage::Capture => a == (Action::CapturePng {
            quality: Some(CAPTURE_QUALITY),
            from_surface: false,
        }),
    }
}

/// The action that runs stage `s` of a capture of `url`.
fn stage_action(s: Stage, url: &String) -> (a: Action)
    ensures
        runs_stage(a, s, url@),
{
    match s {
        Stage::Launch => Action::LaunchBrowser { headless: true },
        Stage::OpenTab => Action::OpenTab,
        Stage::Navigate => Action::NavigateTo(url.clone()),
        Stage::WaitForLoad => Action::WaitUntilNavigated,
        Stage::Capture => Action::CapturePng { quality: Some(CAPTURE_QUALITY), from_surface: false },
    }
}

/// The stage that follows `s`; none follows the capture.
fn next_stage(s: Stage) -> (r: Option<Stage>)
    ensures
        s == Stage::Capture <==> r is None,
        r is Some ==> r->0 == all_stages()[s.index() + 1int],
{
    match s {
        Stage::Launch => Some(Stage::OpenTab),
        Stage::OpenTab => Some(Stage::Navigate),
        Stage::Navigate => Some(Stage::WaitForLoad),
        Stage::WaitForLoad => Some(Stage::Capture),
        Stage::Capture => None,
    }
}

/// One capture of one URL, driven one stage at a time: the caller performs
/// each action it is given and reports the outcome, until it is told to finish.
pub struct CaptureSession {
    pub url: String,
    pub phase: Phase,
    /// The stages that have gone through, in order.
    pub passed: Ghost<Seq<Stage>>,
}

impl CaptureSession {
    /// The stage that is running, or that the capture ended at.
    pub open spec fn current(&self) -> Stage {
        match self.phase {
            Phase::Running(s) => s,
            Phase::Succeeded => Stage::Capture,
            Phase::Failed(s) => s,
        }
    }

    /// The stages that went through are exactly those before the current one,
    /// and all of them once the capture succeeded.
    pub open spec fn is_consistent(&self) -> bool {
        match self.phase {
            Phase::Running(s) => self.passed@ == stages_before(s),
            Phase::Succeeded => self.passed@ == all_stages(),
            Phase::Failed(s) => self.passed@ == stages_before(s),
        }
    }

    /// Starts a capture of `url`: the first action launches the engine headless.
    pub fn start(url: String) -> (r: (CaptureSession, Action))
        ensures
            r.0.is_consistent(),
            r.0.url@ == url@,
            r.0.phase == Phase::Running(Stage::Launch),
            r.0.passed@ == Seq::<Stage>::empty(),
            runs_stage(r.1, Stage::Launch, url@),
    {
        let action = stage_action(Stage::Launch, &url);
        let session = CaptureSession {
            url,
            phase: Phase::Running(Stage::Launch),
            passed: Ghost(Seq::empty()),
        };
        assert(stages_before(Stage::Launch) =~= Seq::<Stage>::empty());
        (session, action)
    }

    /// Takes the outcome of the running stage: the bytes that it produced
    /// (the frame, for the capture; nothing before) or its diagnostic. A
    /// failure ends the capture at once; a success runs the next stage, and
    /// after the capture ends it with the frame as a PNG data URI.
    pub fn step(&mut self, outcome: Result<Vec<u8>, String>) -> (a: Action)
        requires
            old(self).is_consistent(),
            old(self).phase is Running,
            old(self).current() == Stage::Capture && outcome is Ok ==> encodable(
                outcome->Ok_0@.len(),
            ),
        ensures
            final(self).is_consistent(),
            final(self).url == old(self).url,
            a is Finish ==> a->Finish_0.is_well_formed(),
            outcome is Err ==> {
                &&& final(self).phase == Phase::Failed(old(self).current())
                &&& final(self).passed@ == old(self).passed@
                &&& a is Finish && a->Finish_0.is_failed(old(self).current(), outcome->Err_0@)
            },
            outcome is Ok && old(self).current() != Stage::Capture ==> {
                let next = all_stages()[old(self).current().index() + 1int];
                &&& final(self).phase == Phase::Running(next)
                &&& final(self).passed@ == old(self).passed@.push(old(self).current())
                &&& runs_stage(a, next, old(self).url@)
            },
            outcome is Ok && old(self).current() == Stage::Capture ==> {
                &&& final(self).phase == Phase::Succeeded
                &&& final(self).passed@ == old(self).passed@.push(Stage::Capture)
                &&& a is Finish && a->Finish_0.is_taken(outcome->Ok_0@)
            },
    {
        let stage = match self.phase {
            Phase::Running(s) => s,
            Phase::Succeeded => Stage::Capture,
            Phase::Failed(s) => s,
        };
        match outcome {
            Err(diagnostic) => {
                self.phase = Phase::Failed(stage);
                Action::Finish(ScreenshotResult::failed(stage, diagnostic.as_str()))
            },
            Ok(bytes) => {
                let ghost before = self.passed@;
                self.passed = Ghost(before.push(stage));
                match next_stage(stage) {
                    Some(next) => {
                        self.phase = Phase::Running(next);
                        assert(stages_before(next) =~= before.push(stage));
                        stage_action(next, &self.url)
                    },
                    None => {
                        self.phase = Phase::Succeeded;
                        assert(all_stages() =~= before.push(stage));
                        Action::Finish(ScreenshotResult::taken(&bytes))
                    },
                }
            },
        }
    }
}

/// A capture that failed at some stage ran every earlier stage, in order, and
/// each went through: in particular a failure while waiting for the page to
/// load always follows a navigation that was started.
pub proof fn lemma_failure_follows_earlier_stages(session: CaptureSession, stage: Stage)
    requires
        session.is_consistent(),
        session.phase == Phase::Failed(stage),
    ensures
        session.passed@ == stages_before(stage),
        forall|t: Stage| t.index() < stage.index() ==> #[trigger] session.passed@.contains(t),
        stage == Stage::WaitForLoad ==> session.passed@.contains(Stage::Navigate),
{
    assert forall|t: Stage| t.index() < stage.index() implies #[trigger] session.passed@.contains(
        t,
    ) by {
        assert(session.passed@[t.index() as int] == t);
    }
}

} // verus!
