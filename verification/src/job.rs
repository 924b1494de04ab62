//! The decisions of the captcha services, as a state machine.
//!
//! Each request becomes a `Job`. A job asks its driver for one solver call at
//! a time (`Action::Call`) and is handed back what the call gave
//! (`Outcome`), until it answers with the response (`Action::Reply`). The
//! driver performs the calls: it keeps the solver objects of the job, runs
//! them, and sleeps where the job asks it to pause.
use vstd::prelude::*;
use vstd::pervasive::unreached;

use crate::messages::{
    reported_type, text_failed, text_ok, ArgsReplyView, CalculateKeyResponse,
    CaptchaType, CsReplyView, GenerateWResponse, GeetestCs, GeetestCsView, GetCsResponse,
    GetNewCsArgsResponse, GetTypeResponse, NewCsArgs, NewCsArgsView, SolveGeetestCaptchaResponse,
    TextReplyView, TypeReplyView, VerifyResponse, VerifyType,
};

verus! {

/// The kind of solver object that performs a call.
#[derive(Clone, Copy, PartialEq, Eq, Debug, Structural)]
pub enum SolverKind {
    Click,
    Slide,
}

/// A solver object of one job. The calls of a job that name the same solver
/// go to the same object, which is made with its default value on the first
/// call that names it.
#[derive(Clone, Copy, PartialEq, Eq, Debug, Structural)]
pub struct Solver {
    pub kind: SolverKind,
    pub instance: u8,
}

pub open spec fn click_solver(instance: u8) -> Solver {
    Solver { kind: SolverKind::Click, instance }
}

pub open spec fn slide_solver(instance: u8) -> Solver {
    Solver { kind: SolverKind::Slide, instance }
}

/// How long a slide solve waits between making its answer and submitting it.
pub const PAUSE_BEFORE_VERIFY_SECONDS: u64 = 2;

/// What a key is calculated from: the picture of a click challenge, or the
/// images of a slide challenge.
#[derive(PartialEq, Eq, Debug)]
pub enum KeyInput {
    Picture(String),
    Images {
        new_challenge: String,
        full_bg_url: String,
        miss_bg_url: String,
        slider_url: String,
    },
}

/// A call that a job asks its driver to perform.
#[derive(PartialEq, Eq, Debug)]
pub enum Call {
    /// `get_c_s(gt, challenge, w)`; answered by `Outcome::Cs`.
    GetCs { solver: Solver, gt: String, challenge: String, w: Option<String> },
    /// `get_type(gt, challenge, w)`; answered by `Outcome::Type`.
    GetType { solver: Solver, gt: String, challenge: String, w: Option<String> },
    /// `simple_match(gt, challenge)` of a click solver; answered by
    /// `Outcome::Matched`.
    SimpleMatch { solver: Solver, gt: String, challenge: String },
    /// `get_new_c_s_args(gt, challenge)`; answered by `Outcome::ClickArgs`
    /// on a click solver and by `Outcome::SlideArgs` on a slide solver.
    GetNewCsArgs { solver: Solver, gt: String, challenge: String },
    /// `calculate_key(input)`; answered by `Outcome::Key`.
    CalculateKey { solver: Solver, input: KeyInput },
    /// `generate_w(key, gt, challenge, c, s)`; answered by `Outcome::W`.
    GenerateW {
        solver: Solver,
        key: String,
        gt: String,
        challenge: String,
        c: Vec<u8>,
        s: String,
    },
    /// Sleep for `seconds`; answered by `Outcome::Paused`.
    Pause { seconds: u64 },
    /// `verify(gt, challenge, w)`; answered by `Outcome::Verdict`.
    Verify { solver: Solver, gt: String, challenge: String, w: Option<String> },
}

/// What a call gave: its error, written out as text, or its result.
#[derive(PartialEq, Eq, Debug)]
pub enum Outcome {
    Failed(String),
    Cs { c: Vec<u8>, s: String },
    Type(VerifyType),
    Matched(String),
    ClickArgs { c: Vec<u8>, s: String, pic_url: String },
    SlideArgs {
        c: Vec<u8>,
        s: String,
        new_challenge: String,
        full_bg_url: String,
        miss_bg_url: String,
        slider_url: String,
    },
    Key(String),
    W(String),
    Paused,
    Verdict { message: String, validate: String },
}

impl Call {
    /// Whether `o` is the kind of result that this call gives.
    pub open spec fn answered_by(self, o: Outcome) -> bool {
        match self {
            Call::GetCs { .. } => o is Cs,
            Call::GetType { .. } => o is Type,
            Call::SimpleMatch { .. } => o is Matched,
            Call::GetNewCsArgs { solver, .. } => if solver.kind == SolverKind::Click {
                o is ClickArgs
            } else {
                o is SlideArgs
            },
            Call::CalculateKey { .. } => o is Key,
            Call::GenerateW { .. } => o is W,
            Call::Pause { .. } => o is Paused,
            Call::Verify { .. } => o is Verdict,
        }
    }
}

/// The response that a job answers with.
#[derive(PartialEq, Eq, Debug)]
pub enum Reply {
    Solve(SolveGeetestCaptchaResponse),
    GetCs(GetCsResponse),
    GetType(GetTypeResponse),
    GetNewCsArgs(GetNewCsArgsResponse),
    CalculateKey(CalculateKeyResponse),
    GenerateW(GenerateWResponse),
    Verify(VerifyResponse),
    /// The result of the full solve pipeline: the `validate` token, or the
    /// error.
    Validated(Result<String, String>),
}

pub enum ReplyView {
    Solve(TextReplyView),
    GetCs(CsReplyView),
    GetType(TypeReplyView),
    GetNewCsArgs(ArgsReplyView),
    CalculateKey(TextReplyView),
    GenerateW(TextReplyView),
    Verify(TextReplyView),
    Validated(Result<Seq<char>, Seq<char>>),
}

pub open spec fn result_view(r: Result<String, String>) -> Result<Seq<char>, Seq<char>> {
    match r {
        Ok(v) => Ok(v@),
        Err(e) => Err(e@),
    }
}

impl View for Reply {
    type V = ReplyView;

    open spec fn view(&self) -> ReplyView {
        match self {
            Reply::Solve(r) => ReplyView::Solve(r@),
            Reply::GetCs(r) => ReplyView::GetCs(r@),
            Reply::GetType(r) => ReplyView::GetType(r@),
            Reply::GetNewCsArgs(r) => ReplyView::GetNewCsArgs(r@),
            Reply::CalculateKey(r) => ReplyView::CalculateKey(r@),
            Reply::GenerateW(r) => ReplyView::GenerateW(r@),
            Reply::Verify(r) => ReplyView::Verify(r@),
            Reply::Validated(r) => ReplyView::Validated(result_view(*r)),
        }
    }
}

/// Which response a reply is: each request is answered with one kind.
#[derive(Clone, Copy, PartialEq, Eq, Debug, Structural)]
pub enum ReplyKind {
    Solve,
    GetCs,
    GetType,
    GetNewCsArgs,
    CalculateKey,
    GenerateW,
    Verify,
    Validated,
}

impl ReplyView {
    /// The kind of response this reply is.
    pub open spec fn kind(self) -> ReplyKind {
        match self {
            ReplyView::Solve(_) => ReplyKind::Solve,
            ReplyView::GetCs(_) => ReplyKind::GetCs,
            ReplyView::GetType(_) => ReplyKind::GetType,
            ReplyView::GetNewCsArgs(_) => ReplyKind::GetNewCsArgs,
            ReplyView::CalculateKey(_) => ReplyKind::CalculateKey,
            ReplyView::GenerateW(_) => ReplyKind::GenerateW,
            ReplyView::Verify(_) => ReplyKind::Verify,
            ReplyView::Validated(_) => ReplyKind::Validated,
        }
    }

    /// A failed reply: it carries the error `e` and no result.
    pub open spec fn is_failure_with(self, e: Seq<char>) -> bool {
        match self {
            ReplyView::Solve(t) => t == text_failed(e),
            ReplyView::GetCs(r) => !r.success && r.cs is None && r.error == e,
            ReplyView::GetType(r) => !r.success && r.captcha_type == CaptchaType::Unknown
                && r.error == e,
            ReplyView::GetNewCsArgs(r) => !r.success && r.args is None && r.error == e,
            ReplyView::CalculateKey(t) => t == text_failed(e),
            ReplyView::GenerateW(t) => t == text_failed(e),
            ReplyView::Verify(t) => t == text_failed(e),
            ReplyView::Validated(r) => r == Err::<Seq<char>, Seq<char>>(e),
        }
    }

    /// A reply either succeeds, with its result and an empty error, or fails,
    /// with an error and no result.
    pub open spec fn well_shaped(self) -> bool {
        match self {
            ReplyView::Solve(t) => Self::text_shaped(t),
            ReplyView::GetCs(r) => if r.success {
                r.cs is Some && r.error.len() == 0
            } else {
                r.cs is None
            },
            ReplyView::GetType(r) => if r.success {
                r.captcha_type != CaptchaType::Unknown && r.error.len() == 0
            } else {
                r.captcha_type == CaptchaType::Unknown
            },
            ReplyView::GetNewCsArgs(r) => if r.success {
                r.args is Some && r.error.len() == 0
            } else {
                r.args is None
            },
            ReplyView::CalculateKey(t) => Self::text_shaped(t),
            ReplyView::GenerateW(t) => Self::text_shaped(t),
            ReplyView::Verify(t) => Self::text_shaped(t),
            ReplyView::Validated(_) => true,
        }
    }

    pub open spec fn text_shaped(t: TextReplyView) -> bool {
        if t.success {
            t.error.len() == 0
        } else {
            t.text.len() == 0
        }
    }
}

/// The reply of a solve: a `Solve` response for the services, the bare
/// result for the pipeline.
pub open spec fn solve_reply(pipeline: bool, r: Result<Seq<char>, Seq<char>>) -> ReplyView {
    if pipeline {
        ReplyView::Validated(r)
    } else {
        match r {
            Ok(v) => ReplyView::Solve(text_ok(v)),
            Err(e) => ReplyView::Solve(text_failed(e)),
        }
    }
}

/// The kind of reply of a solve: a `Solve` response for the services, the
/// bare result for the pipeline.
pub open spec fn solve_kind(pipeline: bool) -> ReplyKind {
    if pipeline {
        ReplyKind::Validated
    } else {
        ReplyKind::Solve
    }
}

/// Whether a job that starts in `job` with `action` answers with a reply of
/// `kind`: it either answers at once with such a reply, or waits and will
/// answer with one.
pub open spec fn starts_as(job: Job, action: ActionView, kind: ReplyKind) -> bool {
    match action {
        ActionView::Reply(r) => r.kind() == kind && job is Finished,
        ActionView::Call(_) => job.reply_kind() == Some(kind),
    }
}

/// What a job does next.
#[derive(PartialEq, Eq, Debug)]
pub enum Action {
    Call(Call),
    Reply(Reply),
}

pub enum ActionView {
    Call(Call),
    Reply(ReplyView),
}

impl View for Action {
    type V = ActionView;

    open spec fn view(&self) -> ActionView {
        match self {
            Action::Call(c) => ActionView::Call(*c),
            Action::Reply(r) => ActionView::Reply(r@),
        }
    }
}

/// The state of a request being served. Each state but `Finished` waits for
/// the outcome of the call that the job asked for last.
#[derive(PartialEq, Eq, Debug)]
pub enum Job {
    /// The job has answered; it takes nothing more.
    Finished,
    /// A click solver's direct solve; answers a solve reply.
    AwaitMatch { pipeline: bool },
    /// Answers a `GetCs` response.
    AwaitCs,
    /// Answers a `GetType` response.
    AwaitType,
    /// Answers a `GetNewCsArgs` response from a click solver's parameters.
    AwaitClickArgs,
    /// Answers a `GetNewCsArgs` response from a slide solver's parameters.
    AwaitSlideArgs,
    /// Fetches the picture of a click challenge, then calculates its key.
    AwaitPictureUrl,
    /// Answers a `CalculateKey` response.
    AwaitKey,
    /// Answers a `GenerateW` response.
    AwaitW,
    /// Answers a `Verify` response.
    AwaitVerdict,
    /// The pipeline's first fetch of the parameters; the type probe follows.
    ProbeAwaitCs { gt: String, challenge: String },
    /// The pipeline's type probe, which chooses the solve.
    ProbeAwaitType { gt: String, challenge: String },
    /// The steps of a slide solve.
    SlideAwaitCs { pipeline: bool, gt: String, challenge: String },
    SlideAwaitArgs { pipeline: bool, gt: String, challenge: String },
    SlideAwaitKey { pipeline: bool, gt: String, challenge: String, c: Vec<u8>, s: String },
    SlideAwaitW { pipeline: bool, gt: String, challenge: String },
    SlideAwaitPause { pipeline: bool, gt: String, challenge: String, w: String },
    SlideAwaitVerdict { pipeline: bool },
}

impl Job {
    /// Whether the job waits for an outcome like `o`: the error of its
    /// pending call, or a result of the kind that the call gives.
    pub open spec fn awaits(self, o: Outcome) -> bool {
        match self {
            Job::Finished => false,
            _ => o is Failed || self.expects(o),
        }
    }

    /// The kind of result that the pending call of the job gives.
    pub open spec fn expects(self, o: Outcome) -> bool {
        match self {
            Job::Finished => false,
            Job::AwaitMatch { .. } => o is Matched,
            Job::AwaitCs => o is Cs,
            Job::AwaitType => o is Type,
            Job::AwaitClickArgs => o is ClickArgs,
            Job::AwaitSlideArgs => o is SlideArgs,
            Job::AwaitPictureUrl => o is ClickArgs,
            Job::AwaitKey => o is Key,
            Job::AwaitW => o is W,
            Job::AwaitVerdict => o is Verdict,
            Job::ProbeAwaitCs { .. } => o is Cs,
            Job::ProbeAwaitType { .. } => o is Type,
            Job::SlideAwaitCs { .. } => o is Cs,
            Job::SlideAwaitArgs { .. } => o is SlideArgs,
            Job::SlideAwaitKey { .. } => o is Key,
            Job::SlideAwaitW { .. } => o is W,
            Job::SlideAwaitPause { .. } => o is Paused,
            Job::SlideAwaitVerdict { .. } => o is Verdict,
        }
    }

    /// The kind of response the job will answer with; none once it has
    /// answered.
    pub open spec fn reply_kind(self) -> Option<ReplyKind> {
        match self {
            Job::Finished => None,
            Job::AwaitMatch { pipeline } => Some(solve_kind(pipeline)),
            Job::AwaitCs => Some(ReplyKind::GetCs),
            Job::AwaitType => Some(ReplyKind::GetType),
            Job::AwaitClickArgs => Some(ReplyKind::GetNewCsArgs),
            Job::AwaitSlideArgs => Some(ReplyKind::GetNewCsArgs),
            Job::AwaitPictureUrl => Some(ReplyKind::CalculateKey),
            Job::AwaitKey => Some(ReplyKind::CalculateKey),
            Job::AwaitW => Some(ReplyKind::GenerateW),
            Job::AwaitVerdict => Some(ReplyKind::Verify),
            Job::ProbeAwaitCs { .. } => Some(ReplyKind::Validated),
            Job::ProbeAwaitType { .. } => Some(ReplyKind::Validated),
            Job::SlideAwaitCs { pipeline, .. } => Some(solve_kind(pipeline)),
            Job::SlideAwaitArgs { pipeline, .. } => Some(solve_kind(pipeline)),
            Job::SlideAwaitKey { pipeline, .. } => Some(solve_kind(pipeline)),
            Job::SlideAwaitW { pipeline, .. } => Some(solve_kind(pipeline)),
            Job::SlideAwaitPause { pipeline, .. } => Some(solve_kind(pipeline)),
            Job::SlideAwaitVerdict { pipeline } => Some(solve_kind(pipeline)),
        }
    }

    /// An upper bound on the number of outcomes that the job still takes.
    pub open spec fn remaining(self) -> nat {
        match self {
            Job::Finished => 0,
            Job::AwaitPictureUrl => 2,
            Job::ProbeAwaitCs { .. } => 8,
            Job::ProbeAwaitType { .. } => 7,
            Job::SlideAwaitCs { .. } => 6,
            Job::SlideAwaitArgs { .. } => 5,
            Job::SlideAwaitKey { .. } => 4,
            Job::SlideAwaitW { .. } => 3,
            Job::SlideAwaitPause { .. } => 2,
            _ => 1,
        }
    }

    /// The reply with which the job answers when its pending call fails with
    /// the error `e`.
    pub open spec fn failure_reply(self, e: Seq<char>) -> ReplyView {
        match self {
            Job::AwaitMatch { pipeline } => solve_reply(pipeline, Err(e)),
            Job::AwaitCs => ReplyView::GetCs(CsReplyView { success: false, cs: None, error: e }),
            Job::AwaitType => ReplyView::GetType(
                TypeReplyView { success: false, captcha_type: CaptchaType::Unknown, error: e },
            ),
            Job::AwaitClickArgs => ReplyView::GetNewCsArgs(
                ArgsReplyView { success: false, args: None, error: e },
            ),
            Job::AwaitSlideArgs => ReplyView::GetNewCsArgs(
                ArgsReplyView { success: false, args: None, error: e },
            ),
            Job::AwaitPictureUrl => ReplyView::CalculateKey(text_failed(e)),
            Job::AwaitKey => ReplyView::CalculateKey(text_failed(e)),
            Job::AwaitW => ReplyView::GenerateW(text_failed(e)),
            Job::AwaitVerdict => ReplyView::Verify(text_failed(e)),
            Job::ProbeAwaitCs { .. } => ReplyView::Validated(Err(e)),
            Job::ProbeAwaitType { .. } => ReplyView::Validated(Err(e)),
            Job::SlideAwaitCs { pipeline, .. } => solve_reply(pipeline, Err(e)),
            Job::SlideAwaitArgs { pipeline, .. } => solve_reply(pipeline, Err(e)),
            Job::SlideAwaitKey { pipeline, .. } => solve_reply(pipeline, Err(e)),
            Job::SlideAwaitW { pipeline, .. } => solve_reply(pipeline, Err(e)),
            Job::SlideAwaitPause { pipeline, .. } => solve_reply(pipeline, Err(e)),
            Job::SlideAwaitVerdict { pipeline } => solve_reply(pipeline, Err(e)),
            Job::Finished => arbitrary(),
        }
    }

    /// The next state and action of the job once it is handed `o`.
    pub open spec fn step(self, o: Outcome) -> (Job, ActionView) {
        match o {
            Outcome::Failed(e) => (Job::Finished, ActionView::Reply(self.failure_reply(e@))),
            _ => self.advance(o),
        }
    }

    /// The next state and action of the job once its pending call has given
    /// the result `o`.
    pub open spec fn advance(self, o: Outcome) -> (Job, ActionView) {
        match self {
            Job::AwaitMatch { pipeline } => match o {
                Outcome::Matched(v) => finish(solve_reply(pipeline, Ok(v@))),
                _ => arbitrary(),
            },
            Job::AwaitCs => match o {
                Outcome::Cs { c, s } => finish(
                    ReplyView::GetCs(
                        CsReplyView {
                            success: true,
                            cs: Some(GeetestCsView { s: s@, c: c@ }),
                            error: Seq::empty(),
                        },
                    ),
                ),
                _ => arbitrary(),
            },
            Job::AwaitType => match o {
                Outcome::Type(t) => finish(
                    ReplyView::GetType(
                        TypeReplyView {
                            success: true,
                            captcha_type: reported_type(t),
                            error: Seq::empty(),
                        },
                    ),
                ),
                _ => arbitrary(),
            },
            Job::AwaitClickArgs => match o {
                Outcome::ClickArgs { c, s, pic_url } => finish(
                    ReplyView::GetNewCsArgs(
                        ArgsReplyView {
                            success: true,
                            args: Some(
                                NewCsArgsView {
                                    c: c@,
                                    s: s@,
                                    new_challenge: Seq::empty(),
                                    full_bg_url: pic_url@,
                                    miss_bg_url: Seq::empty(),
                                    slider_url: Seq::empty(),
                                },
                            ),
                            error: Seq::empty(),
                        },
                    ),
                ),
                _ => arbitrary(),
            },
            Job::AwaitSlideArgs => match o {
                Outcome::SlideArgs { c, s, new_challenge, full_bg_url, miss_bg_url, slider_url } =>
                    finish(
                    ReplyView::GetNewCsArgs(
                        ArgsReplyView {
                            success: true,
                            args: Some(
                                NewCsArgsView {
                                    c: c@,
                                    s: s@,
                                    new_challenge: new_challenge@,
                                    full_bg_url: full_bg_url@,
                                    miss_bg_url: miss_bg_url@,
                                    slider_url: slider_url@,
                                },
                            ),
                            error: Seq::empty(),
                        },
                    ),
                ),
                _ => arbitrary(),
            },
            Job::AwaitPictureUrl => match o {
                Outcome::ClickArgs { pic_url, .. } => (
                    Job::AwaitKey,
                    ActionView::Call(
                        Call::CalculateKey { solver: click_solver(1), input: KeyInput::Picture(pic_url) },
                    ),
                ),
                _ => arbitrary(),
            },
            Job::AwaitKey => match o {
                Outcome::Key(k) => finish(ReplyView::CalculateKey(text_ok(k@))),
                _ => arbitrary(),
            },
            Job::AwaitW => match o {
                Outcome::W(w) => finish(ReplyView::GenerateW(text_ok(w@))),
                _ => arbitrary(),
            },
            Job::AwaitVerdict => match o {
                Outcome::Verdict { validate, .. } => finish(ReplyView::Verify(text_ok(validate@))),
                _ => arbitrary(),
            },
            Job::ProbeAwaitCs { gt, challenge } => match o {
                Outcome::Cs { .. } => (
                    Job::ProbeAwaitType { gt, challenge },
                    ActionView::Call(Call::GetType { solver: click_solver(0), gt, challenge, w: None }),
                ),
                _ => arbitrary(),
            },
            Job::ProbeAwaitType { gt, challenge } => match o {
                Outcome::Type(VerifyType::Click) => (
                    Job::AwaitMatch { pipeline: true },
                    ActionView::Call(Call::SimpleMatch { solver: click_solver(0), gt, challenge }),
                ),
                Outcome::Type(VerifyType::Slide) => (
                    Job::SlideAwaitCs { pipeline: true, gt, challenge },
                    ActionView::Call(Call::GetCs { solver: slide_solver(0), gt, challenge, w: None }),
                ),
                _ => arbitrary(),
            },
            Job::SlideAwaitCs { pipeline, gt, challenge } => match o {
                Outcome::Cs { .. } => (
                    Job::SlideAwaitArgs { pipeline, gt, challenge },
                    ActionView::Call(Call::GetNewCsArgs { solver: slide_solver(0), gt, challenge }),
                ),
                _ => arbitrary(),
            },
            Job::SlideAwaitArgs { pipeline, gt, challenge } => match o {
                Outcome::SlideArgs { c, s, new_challenge, full_bg_url, miss_bg_url, slider_url } => (
                    Job::SlideAwaitKey { pipeline, gt, challenge, c, s },
                    ActionView::Call(
                        Call::CalculateKey {
                            solver: slide_solver(0),
                            input: KeyInput::Images {
                                new_challenge,
                                full_bg_url,
                                miss_bg_url,
                                slider_url,
                            },
                        },
                    ),
                ),
                _ => arbitrary(),
            },
            Job::SlideAwaitKey { pipeline, gt, challenge, c, s } => match o {
                Outcome::Key(key) => (
                    Job::SlideAwaitW { pipeline, gt, challenge },
                    ActionView::Call(
                        Call::GenerateW { solver: slide_solver(0), key, gt, challenge, c, s },
                    ),
                ),
                _ => arbitrary(),
            },
            Job::SlideAwaitW { pipeline, gt, challenge } => match o {
                Outcome::W(w) => (
                    Job::SlideAwaitPause { pipeline, gt, challenge, w },
                    ActionView::Call(Call::Pause { seconds: PAUSE_BEFORE_VERIFY_SECONDS }),
                ),
                _ => arbitrary(),
            },
            Job::SlideAwaitPause { pipeline, gt, challenge, w } => match o {
                Outcome::Paused => (
                    Job::SlideAwaitVerdict { pipeline },
                    ActionView::Call(
                        Call::Verify { solver: slide_solver(0), gt, challenge, w: Some(w) },
                    ),
                ),
                _ => arbitrary(),
            },
            Job::SlideAwaitVerdict { pipeline } => match o {
                Outcome::Verdict { validate, .. } => finish(solve_reply(pipeline, Ok(validate@))),
                _ => arbitrary(),
            },
            Job::Finished => arbitrary(),
        }
    }

    /// Whether the job has answered.
    pub fn is_finished(&self) -> (b: bool)
        ensures
            b == (*self is Finished),
    {
        match self {
            Job::Finished => true,
            _ => false,
        }
    }

    /// Whether the job waits for an outcome like `outcome`.
    pub fn accepts(&self, outcome: &Outcome) -> (b: bool)
        ensures
            b == self.awaits(*outcome),
    {
        let failed = match outcome {
            Outcome::Failed(_) => true,
            _ => false,
        };
        match self {
            Job::Finished => false,
            Job::AwaitMatch { .. } => failed || matches!(outcome, Outcome::Matched(_)),
            Job::AwaitCs => failed || matches!(outcome, Outcome::Cs { .. }),
            Job::AwaitType => failed || matches!(outcome, Outcome::Type(_)),
            Job::AwaitClickArgs => failed || matches!(outcome, Outcome::ClickArgs { .. }),
            Job::AwaitSlideArgs => failed || matches!(outcome, Outcome::SlideArgs { .. }),
            Job::AwaitPictureUrl => failed || matches!(outcome, Outcome::ClickArgs { .. }),
            Job::AwaitKey => failed || matches!(outcome, Outcome::Key(_)),
            Job::AwaitW => failed || matches!(outcome, Outcome::W(_)),
            Job::AwaitVerdict => failed || matches!(outcome, Outcome::Verdict { .. }),
            Job::ProbeAwaitCs { .. } => failed || matches!(outcome, Outcome::Cs { .. }),
            Job::ProbeAwaitType { .. } => failed || matches!(outcome, Outcome::Type(_)),
            Job::SlideAwaitCs { .. } => failed || matches!(outcome, Outcome::Cs { .. }),
            Job::SlideAwaitArgs { .. } => failed || matches!(outcome, Outcome::SlideArgs { .. }),
            Job::SlideAwaitKey { .. } => failed || matches!(outcome, Outcome::Key(_)),
            Job::SlideAwaitW { .. } => failed || matches!(outcome, Outcome::W(_)),
            Job::SlideAwaitPause { .. } => failed || matches!(outcome, Outcome::Paused),
            Job::SlideAwaitVerdict { .. } => failed || matches!(outcome, Outcome::Verdict { .. }),
        }
    }

    /// The reply with which the job answers when its pending call fails
    /// with the error `e`.
    fn failure(&self, e: String) -> (r: Reply)
        requires
            !(*self is Finished),
        ensures
            r@ == self.failure_reply(e@),
    {
        match self {
            Job::AwaitMatch { pipeline } => solve_result(*pipeline, Err(e)),
            Job::AwaitCs => Reply::GetCs(GetCsResponse { success: false, cs: None, error: e }),
            Job::AwaitType => Reply::GetType(
                GetTypeResponse { success: false, captcha_type: CaptchaType::Unknown, error: e },
            ),
            Job::AwaitClickArgs => Reply::GetNewCsArgs(
                GetNewCsArgsResponse { success: false, args: None, error: e },
            ),
            Job::AwaitSlideArgs => Reply::GetNewCsArgs(
                GetNewCsArgsResponse { success: false, args: None, error: e },
            ),
            Job::AwaitPictureUrl => Reply::CalculateKey(
                CalculateKeyResponse { success: false, key: String::new(), error: e },
            ),
            Job::AwaitKey => Reply::CalculateKey(
                CalculateKeyResponse { success: false, key: String::new(), error: e },
            ),
            Job::AwaitW => Reply::GenerateW(
                GenerateWResponse { success: false, w: String::new(), error: e },
            ),
            Job::AwaitVerdict => Reply::Verify(
                VerifyResponse { success: false, validate: String::new(), error: e },
            ),
            Job::ProbeAwaitCs { .. } => Reply::Validated(Err(e)),
            Job::ProbeAwaitType { .. } => Reply::Validated(Err(e)),
            Job::SlideAwaitCs { pipeline, .. } => solve_result(*pipeline, Err(e)),
            Job::SlideAwaitArgs { pipeline, .. } => solve_result(*pipeline, Err(e)),
            Job::SlideAwaitKey { pipeline, .. } => solve_result(*pipeline, Err(e)),
            Job::SlideAwaitW { pipeline, .. } => solve_result(*pipeline, Err(e)),
            Job::SlideAwaitPause { pipeline, .. } => solve_result(*pipeline, Err(e)),
            Job::SlideAwaitVerdict { pipeline } => solve_result(*pipeline, Err(e)),
            Job::Finished => unreached(),
        }
    }

    /// Hands the job the outcome of its pending call; gives its next state
    /// and what it does next.
    pub fn next(self, outcome: Outcome) -> (res: (Job, Action))
        requires
            self.awaits(outcome),
        ensures
            res.0 == self.step(outcome).0,
            res.1@ == self.step(outcome).1,
    {
        match outcome {
            Outcome::Failed(e) => {
                let r = self.failure(e);
                (Job::Finished, Action::Reply(r))
            },
            other => self.advance_with(other),
        }
    }

    fn advance_with(self, outcome: Outcome) -> (res: (Job, Action))
        requires
            self.expects(outcome),
        ensures
            res.0 == self.advance(outcome).0,
            res.1@ == self.advance(outcome).1,
    {
        match self {
            Job::AwaitMatch { pipeline } => match outcome {
                Outcome::Matched(v) => (Job::Finished, Action::Reply(solve_result(pipeline, Ok(v)))),
                _ => unreached(),
            },
            Job::AwaitCs => match outcome {
                Outcome::Cs { c, s } => (
                    Job::Finished,
                    Action::Reply(
                        Reply::GetCs(
                            GetCsResponse {
                                success: true,
                                cs: Some(GeetestCs { s, c }),
                                error: String::new(),
                            },
                        ),
                    ),
                ),
                _ => unreached(),
            },
            Job::AwaitType => match outcome {
                Outcome::Type(t) => (
                    Job::Finished,
                    Action::Reply(
                        Reply::GetType(
                            GetTypeResponse {
                                success: true,
                                captcha_type: report_type(t),
                                error: String::new(),
                            },
                        ),
                    ),
                ),
                _ => unreached(),
            },
            Job::AwaitClickArgs => match outcome {
                Outcome::ClickArgs { c, s, pic_url } => (
                    Job::Finished,
                    Action::Reply(
                        Reply::GetNewCsArgs(
                            GetNewCsArgsResponse {
                                success: true,
                                args: Some(
                                    NewCsArgs {
                                        c,
                                        s,
                                        new_challenge: String::new(),
                                        full_bg_url: pic_url,
                                        miss_bg_url: String::new(),
                                        slider_url: String::new(),
                                    },
                                ),
                                error: String::new(),
                            },
                        ),
                    ),
                ),
                _ => unreached(),
            },
            Job::AwaitSlideArgs => match outcome {
                Outcome::SlideArgs { c, s, new_challenge, full_bg_url, miss_bg_url, slider_url } => (
                    Job::Finished,
                    Action::Reply(
                        Reply::GetNewCsArgs(
                            GetNewCsArgsResponse {
                                success: true,
                                args: Some(
                                    NewCsArgs {
                                        c,
                                        s,
                                        new_challenge,
                                        full_bg_url,
                                        miss_bg_url,
                                        slider_url,
                                    },
                                ),
                                error: String::new(),
                            },
                        ),
                    ),
                ),
                _ => unreached(),
            },
            Job::AwaitPictureUrl => match outcome {
                Outcome::ClickArgs { pic_url, .. } => (
                    Job::AwaitKey,
                    Action::Call(
                        Call::CalculateKey {
                            solver: Solver { kind: SolverKind::Click, instance: 1 },
                            input: KeyInput::Picture(pic_url),
                        },
                    ),
                ),
                _ => unreached(),
            },
            Job::AwaitKey => match outcome {
                Outcome::Key(k) => (
                    Job::Finished,
                    Action::Reply(
                        Reply::CalculateKey(
                            CalculateKeyResponse { success: true, key: k, error: String::new() },
                        ),
                    ),
                ),
                _ => unreached(),
            },
            Job::AwaitW => match outcome {
                Outcome::W(w) => (
                    Job::Finished,
                    Action::Reply(
                        Reply::GenerateW(
                            GenerateWResponse { success: true, w, error: String::new() },
                        ),
                    ),
                ),
                _ => unreached(),
            },
            Job::AwaitVerdict => match outcome {
                Outcome::Verdict { validate, .. } => (
                    Job::Finished,
                    Action::Reply(
                        Reply::Verify(
                            VerifyResponse { success: true, validate, error: String::new() },
                        ),
                    ),
                ),
                _ => unreached(),
            },
            Job::ProbeAwaitCs { gt, challenge } => match outcome {
                Outcome::Cs { .. } => {
                    let call = Call::GetType {
                        solver: Solver { kind: SolverKind::Click, instance: 0 },
                        gt: gt.clone(),
                        challenge: challenge.clone(),
                        w: None,
                    };
                    (Job::ProbeAwaitType { gt, challenge }, Action::Call(call))
                },
                _ => unreached(),
            },
            Job::ProbeAwaitType { gt, challenge } => match outcome {
                Outcome::Type(VerifyType::Click) => {
                    let call = Call::SimpleMatch {
                        solver: Solver { kind: SolverKind::Click, instance: 0 },
                        gt,
                        challenge,
                    };
                    (Job::AwaitMatch { pipeline: true }, Action::Call(call))
                },
                Outcome::Type(VerifyType::Slide) => {
                    let call = Call::GetCs {
                        solver: Solver { kind: SolverKind::Slide, instance: 0 },
                        gt: gt.clone(),
                        challenge: challenge.clone(),
                        w: None,
                    };
                    (Job::SlideAwaitCs { pipeline: true, gt, challenge }, Action::Call(call))
                },
                _ => unreached(),
            },
            Job::SlideAwaitCs { pipeline, gt, challenge } => match outcome {
                Outcome::Cs { .. } => {
                    let call = Call::GetNewCsArgs {
                        solver: Solver { kind: SolverKind::Slide, instance: 0 },
                        gt: gt.clone(),
                        challenge: challenge.clone(),
                    };
                    (Job::SlideAwaitArgs { pipeline, gt, challenge }, Action::Call(call))
                },
                _ => unreached(),
            },
            Job::SlideAwaitArgs { pipeline, gt, challenge } => match outcome {
                Outcome::SlideArgs { c, s, new_challenge, full_bg_url, miss_bg_url, slider_url } => {
                    let call = Call::CalculateKey {
                        solver: Solver { kind: SolverKind::Slide, instance: 0 },
                        input: KeyInput::Images { new_challenge, full_bg_url, miss_bg_url, slider_url },
                    };
                    (Job::SlideAwaitKey { pipeline, gt, challenge, c, s }, Action::Call(call))
                },
                _ => unreached(),
            },
            Job::SlideAwaitKey { pipeline, gt, challenge, c, s } => match outcome {
                Outcome::Key(key) => {
                    let call = Call::GenerateW {
                        solver: Solver { kind: SolverKind::Slide, instance: 0 },
                        key,
                        gt: gt.clone(),
                        challenge: challenge.clone(),
                        c,
                        s,
                    };
                    (Job::SlideAwaitW { pipeline, gt, challenge }, Action::Call(call))
                },
                _ => unreached(),
            },
            Job::SlideAwaitW { pipeline, gt, challenge } => match outcome {
                Outcome::W(w) => (
                    Job::SlideAwaitPause { pipeline, gt, challenge, w },
                    Action::Call(Call::Pause { seconds: PAUSE_BEFORE_VERIFY_SECONDS }),
                ),
                _ => unreached(),
            },
            Job::SlideAwaitPause { pipeline, gt, challenge, w } => match outcome {
                Outcome::Paused => {
                    let call = Call::Verify {
                        solver: Solver { kind: SolverKind::Slide, instance: 0 },
                        gt,
                        challenge,
                        w: Some(w),
                    };
                    (Job::SlideAwaitVerdict { pipeline }, Action::Call(call))
                },
                _ => unreached(),
            },
            Job::SlideAwaitVerdict { pipeline } => match outcome {
                Outcome::Verdict { validate, .. } => (
                    Job::Finished,
                    Action::Reply(solve_result(pipeline, Ok(validate))),
                ),
                _ => unreached(),
            },
            Job::Finished => unreached(),
        }
    }
}

/// The actions of a job that is handed `outcomes` one after the other.
pub open spec fn run(job: Job, outcomes: Seq<Outcome>) -> Seq<ActionView>
    decreases outcomes.len(),
{
    if outcomes.len() == 0 {
        Seq::empty()
    } else {
        let (next, action) = job.step(outcomes[0]);
        seq![action] + run(next, outcomes.drop_first())
    }
}

/// Whether the job takes `outcomes`, each in its turn.
pub open spec fn takes_all(job: Job, outcomes: Seq<Outcome>) -> bool
    decreases outcomes.len(),
{
    outcomes.len() == 0 || (job.awaits(outcomes[0]) && takes_all(
        job.step(outcomes[0]).0,
        outcomes.drop_first(),
    ))
}

/// The next state and action of a job that answers with `r`.
pub open spec fn finish(r: ReplyView) -> (Job, ActionView) {
    (Job::Finished, ActionView::Reply(r))
}

/// The captcha type reported for a challenge that a probe found to be `t`.
pub fn report_type(t: VerifyType) -> (c: CaptchaType)
    ensures
        c == reported_type(t),
{
    match t {
        VerifyType::Click => CaptchaType::Click,
        VerifyType::Slide => CaptchaType::Slide,
    }
}

/// The reply of a solve with the result `r`: a `Solve` response, or for the
/// pipeline the result itself.
pub fn solve_result(pipeline: bool, r: Result<String, String>) -> (reply: Reply)
    ensures
        reply@ == solve_reply(pipeline, result_view(r)),
{
    if pipeline {
        Reply::Validated(r)
    } else {
        match r {
            Ok(v) => Reply::Solve(
                SolveGeetestCaptchaResponse { success: true, validate: v, error: String::new() },
            ),
            Err(e) => Reply::Solve(
                SolveGeetestCaptchaResponse { success: false, validate: String::new(), error: e },
            ),
        }
    }
}

} // verus!
