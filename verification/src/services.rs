//! The click, slide and health services: how each request starts its job.
use vstd::prelude::*;

use crate::job::{
    click_solver, slide_solver, starts_as, Action, ActionView, Call, Job, KeyInput, Reply,
    ReplyKind, ReplyView, Solver, SolverKind,
};
use crate::messages::{
    CalculateKeyRequest, CalculateKeyResponse, GenerateWRequest, GenerateWResponse,
    GetCsRequest, GetNewCsArgsRequest, GetTypeRequest, HealthCheckResponse, ServingStatus,
    SolveGeetestCaptchaRequest, TextReplyView, VerifyRequest, VersionResponse,
};

verus! {

/// The `w` handed to a solver for a request's `w` field: an empty field means
/// that no `w` is given.
pub open spec fn given_w(w: String) -> Option<String> {
    if w@.len() == 0 {
        None
    } else {
        Some(w)
    }
}

/// Turns a request's `w` field into the `w` handed to a solver.
pub fn optional_w(w: String) -> (res: Option<String>)
    ensures
        res == given_w(w),
        w@.len() == 0 ==> res is None,
        w@.len() != 0 ==> res == Some(w),
{
    if w.as_str().is_empty() {
        None
    } else {
        Some(w)
    }
}

/// The error text of a request that lacks its challenge parameters. The
/// text is the bare message: it takes for granted that the solvers' error
/// type, built from a message alone, displays as just that message, with no
/// prefix or source.
pub open spec fn missing_args_text() -> Seq<char> {
    "missing NewCSArgs"@
}

pub fn missing_args_error() -> (e: String)
    ensures
        e@ == missing_args_text(),
        e@ == "missing NewCSArgs"@,
{
    String::from_str("missing NewCSArgs")
}

/// The version response: the commit and the version the server was built
/// from.
pub fn version_response(git_commit: String, version: String) -> (r: VersionResponse)
    ensures
        r.git_commit == git_commit,
        r.version == version,
{
    VersionResponse { git_commit, version }
}

fn first_click() -> (s: Solver)
    ensures
        s == click_solver(0),
{
    Solver { kind: SolverKind::Click, instance: 0 }
}

fn first_slide() -> (s: Solver)
    ensures
        s == slide_solver(0),
{
    Solver { kind: SolverKind::Slide, instance: 0 }
}

/// The captcha service that solves click challenges.
#[derive(Default)]
pub struct ClickServiceImpl;

/// The captcha service that solves slide challenges.
#[derive(Default)]
pub struct SlideServiceImpl;

/// The gRPC health service.
#[derive(Default)]
pub struct HealthServiceImpl;

impl ClickServiceImpl {
    /// A direct solve: a click solver matches the challenge in one call.
    pub fn solve(&self, req: SolveGeetestCaptchaRequest) -> (res: (Job, Action))
        ensures
            starts_as(res.0, res.1@, ReplyKind::Solve),
            res.0 == (Job::AwaitMatch { pipeline: false }),
            res.1@ == ActionView::Call(
                Call::SimpleMatch { solver: click_solver(0), gt: req.gt, challenge: req.challenge },
            ),
    {
        let call = Call::SimpleMatch { solver: first_click(), gt: req.gt, challenge: req.challenge };
        (Job::AwaitMatch { pipeline: false }, Action::Call(call))
    }

    /// The `c` and `s` parameters, from a click solver.
    pub fn get_cs(&self, req: GetCsRequest) -> (res: (Job, Action))
        ensures
            starts_as(res.0, res.1@, ReplyKind::GetCs),
            res.0 == Job::AwaitCs,
            res.1@ == ActionView::Call(
                Call::GetCs {
                    solver: click_solver(0),
                    gt: req.gt,
                    challenge: req.challenge,
                    w: given_w(req.w),
                },
            ),
    {
        let call = Call::GetCs {
            solver: first_click(),
            gt: req.gt,
            challenge: req.challenge,
            w: optional_w(req.w),
        };
        (Job::AwaitCs, Action::Call(call))
    }

    /// The type of the challenge, from a click solver's probe.
    pub fn get_type(&self, req: GetTypeRequest) -> (res: (Job, Action))
        ensures
            starts_as(res.0, res.1@, ReplyKind::GetType),
            res.0 == Job::AwaitType,
            res.1@ == ActionView::Call(
                Call::GetType {
                    solver: click_solver(0),
                    gt: req.gt,
                    challenge: req.challenge,
                    w: given_w(req.w),
                },
            ),
    {
        probe_type(req)
    }

    /// Fresh parameters from a click solver; its picture becomes the
    /// `full_bg_url` of the answer.
    pub fn get_new_cs_args(&self, req: GetNewCsArgsRequest) -> (res: (Job, Action))
        ensures
            starts_as(res.0, res.1@, ReplyKind::GetNewCsArgs),
            res.0 == Job::AwaitClickArgs,
            res.1@ == ActionView::Call(
                Call::GetNewCsArgs { solver: click_solver(0), gt: req.gt, challenge: req.challenge },
            ),
    {
        let call = Call::GetNewCsArgs { solver: first_click(), gt: req.gt, challenge: req.challenge };
        (Job::AwaitClickArgs, Action::Call(call))
    }

    /// The key of a click challenge, calculated from its picture: the
    /// `full_bg_url` of the given parameters, or, where that is empty, the
    /// picture of freshly fetched parameters.
    pub fn calculate_key(&self, req: CalculateKeyRequest) -> (res: (Job, Action))
        ensures
            starts_as(res.0, res.1@, ReplyKind::CalculateKey),
            match req.args {
                None => res.0 == Job::Finished && res.1@ == ActionView::Reply(
                    ReplyView::CalculateKey(
                    TextReplyView { success: false, text: Seq::empty(), error: "missing NewCSArgs"@ },
                ),
                ),
                Some(args) => if args.full_bg_url@.len() != 0 {
                    res.0 == Job::AwaitKey && res.1@ == ActionView::Call(
                        Call::CalculateKey {
                            solver: click_solver(0),
                            input: KeyInput::Picture(args.full_bg_url),
                        },
                    )
                } else {
                    res.0 == Job::AwaitPictureUrl && res.1@ == ActionView::Call(
                        Call::GetNewCsArgs {
                            solver: click_solver(0),
                            gt: req.gt,
                            challenge: req.challenge,
                        },
                    )
                },
            },
    {
        match req.args {
            None => (Job::Finished, Action::Reply(missing_key_args())),
            Some(args) => {
                if !args.full_bg_url.as_str().is_empty() {
                    let call = Call::CalculateKey {
                        solver: first_click(),
                        input: KeyInput::Picture(args.full_bg_url),
                    };
                    (Job::AwaitKey, Action::Call(call))
                } else {
                    let call = Call::GetNewCsArgs {
                        solver: first_click(),
                        gt: req.gt,
                        challenge: req.challenge,
                    };
                    (Job::AwaitPictureUrl, Action::Call(call))
                }
            },
        }
    }

    /// The `w` answer, from a click solver.
    pub fn generate_w(&self, req: GenerateWRequest) -> (res: (Job, Action))
        ensures
            starts_as(res.0, res.1@, ReplyKind::GenerateW),
            match req.args {
                None => res.0 == Job::Finished && res.1@ == ActionView::Reply(
                    ReplyView::GenerateW(
                    TextReplyView { success: false, text: Seq::empty(), error: "missing NewCSArgs"@ },
                ),
                ),
                Some(args) => res.0 == Job::AwaitW && res.1@ == ActionView::Call(
                    Call::GenerateW {
                        solver: click_solver(0),
                        key: req.key,
                        gt: req.gt,
                        challenge: req.challenge,
                        c: args.c,
                        s: args.s,
                    },
                ),
            },
    {
        make_w(first_click(), req)
    }

    /// Submits the answer through a click solver.
    pub fn verify(&self, req: VerifyRequest) -> (res: (Job, Action))
        ensures
            starts_as(res.0, res.1@, ReplyKind::Verify),
            res.0 == Job::AwaitVerdict,
            res.1@ == ActionView::Call(
                Call::Verify {
                    solver: click_solver(0),
                    gt: req.gt,
                    challenge: req.challenge,
                    w: given_w(req.w),
                },
            ),
    {
        submit(first_click(), req)
    }

    /// The commit and the version that the server was built from.
    pub fn version(&self, git_commit: String, version: String) -> (r: VersionResponse)
        ensures
            r.git_commit == git_commit,
            r.version == version,
    {
        version_response(git_commit, version)
    }
}

impl SlideServiceImpl {
    /// A full slide solve: parameters, fresh parameters, key, answer, a pause
    /// of `PAUSE_BEFORE_VERIFY_SECONDS`, and the submission of the answer,
    /// all on one slide solver.
    pub fn solve(&self, req: SolveGeetestCaptchaRequest) -> (res: (Job, Action))
        ensures
            starts_as(res.0, res.1@, ReplyKind::Solve),
            res.0 == (Job::SlideAwaitCs { pipeline: false, gt: req.gt, challenge: req.challenge }),
            res.1@ == ActionView::Call(
                Call::GetCs { solver: slide_solver(0), gt: req.gt, challenge: req.challenge, w: None },
            ),
    {
        let call = Call::GetCs {
            solver: first_slide(),
            gt: req.gt.clone(),
            challenge: req.challenge.clone(),
            w: None,
        };
        (Job::SlideAwaitCs { pipeline: false, gt: req.gt, challenge: req.challenge }, Action::Call(call))
    }

    /// The `c` and `s` parameters, from a slide solver.
    pub fn get_cs(&self, req: GetCsRequest) -> (res: (Job, Action))
        ensures
            starts_as(res.0, res.1@, ReplyKind::GetCs),
            res.0 == Job::AwaitCs,
            res.1@ == ActionView::Call(
                Call::GetCs {
                    solver: slide_solver(0),
                    gt: req.gt,
                    challenge: req.challenge,
                    w: given_w(req.w),
                },
            ),
    {
        let call = Call::GetCs {
            solver: first_slide(),
            gt: req.gt,
            challenge: req.challenge,
            w: optional_w(req.w),
        };
        (Job::AwaitCs, Action::Call(call))
    }

    /// The type of the challenge; the probe runs on a click solver, as it
    /// does in the click service.
    pub fn get_type(&self, req: GetTypeRequest) -> (res: (Job, Action))
        ensures
            starts_as(res.0, res.1@, ReplyKind::GetType),
            res.0 == Job::AwaitType,
            res.1@ == ActionView::Call(
                Call::GetType {
                    solver: click_solver(0),
                    gt: req.gt,
                    challenge: req.challenge,
                    w: given_w(req.w),
                },
            ),
    {
        probe_type(req)
    }

    /// Fresh parameters from a slide solver, with all of its images.
    pub fn get_new_cs_args(&self, req: GetNewCsArgsRequest) -> (res: (Job, Action))
        ensures
            starts_as(res.0, res.1@, ReplyKind::GetNewCsArgs),
            res.0 == Job::AwaitSlideArgs,
            res.1@ == ActionView::Call(
                Call::GetNewCsArgs { solver: slide_solver(0), gt: req.gt, challenge: req.challenge },
            ),
    {
        let call = Call::GetNewCsArgs { solver: first_slide(), gt: req.gt, challenge: req.challenge };
        (Job::AwaitSlideArgs, Action::Call(call))
    }

    /// The key of a slide challenge, calculated from the images of the given
    /// parameters.
    pub fn calculate_key(&self, req: CalculateKeyRequest) -> (res: (Job, Action))
        ensures
            starts_as(res.0, res.1@, ReplyKind::CalculateKey),
            match req.args {
                None => res.0 == Job::Finished && res.1@ == ActionView::Reply(
                    ReplyView::CalculateKey(
                    TextReplyView { success: false, text: Seq::empty(), error: "missing NewCSArgs"@ },
                ),
                ),
                Some(args) => res.0 == Job::AwaitKey && res.1@ == ActionView::Call(
                    Call::CalculateKey {
                        solver: slide_solver(0),
                        input: KeyInput::Images {
                            new_challenge: args.new_challenge,
                            full_bg_url: args.full_bg_url,
                            miss_bg_url: args.miss_bg_url,
                            slider_url: args.slider_url,
                        },
                    },
                ),
            },
    {
        match req.args {
            None => (Job::Finished, Action::Reply(missing_key_args())),
            Some(args) => {
                let call = Call::CalculateKey {
                    solver: first_slide(),
                    input: KeyInput::Images {
                        new_challenge: args.new_challenge,
                        full_bg_url: args.full_bg_url,
                        miss_bg_url: args.miss_bg_url,
                        slider_url: args.slider_url,
                    },
                };
                (Job::AwaitKey, Action::Call(call))
            },
        }
    }

    /// The `w` answer, from a slide solver.
    pub fn generate_w(&self, req: GenerateWRequest) -> (res: (Job, Action))
        ensures
            starts_as(res.0, res.1@, ReplyKind::GenerateW),
            match req.args {
                None => res.0 == Job::Finished && res.1@ == ActionView::Reply(
                    ReplyView::GenerateW(
                    TextReplyView { success: false, text: Seq::empty(), error: "missing NewCSArgs"@ },
                ),
                ),
                Some(args) => res.0 == Job::AwaitW && res.1@ == ActionView::Call(
                    Call::GenerateW {
                        solver: slide_solver(0),
                        key: req.key,
                        gt: req.gt,
                        challenge: req.challenge,
                        c: args.c,
                        s: args.s,
                    },
                ),
            },
    {
        make_w(first_slide(), req)
    }

    /// Submits the answer through a slide solver.
    pub fn verify(&self, req: VerifyRequest) -> (res: (Job, Action))
        ensures
            starts_as(res.0, res.1@, ReplyKind::Verify),
            res.0 == Job::AwaitVerdict,
            res.1@ == ActionView::Call(
                Call::Verify {
                    solver: slide_solver(0),
                    gt: req.gt,
                    challenge: req.challenge,
                    w: given_w(req.w),
                },
            ),
    {
        submit(first_slide(), req)
    }

    /// The commit and the version that the server was built from.
    pub fn version(&self, git_commit: String, version: String) -> (r: VersionResponse)
        ensures
            r.git_commit == git_commit,
            r.version == version,
    {
        version_response(git_commit, version)
    }
}

impl HealthServiceImpl {
    /// The server is always serving.
    pub fn check(&self) -> (r: HealthCheckResponse)
        ensures
            r.status == ServingStatus::Serving,
    {
        HealthCheckResponse { status: ServingStatus::Serving }
    }
}

/// The full solve of a challenge of either type: the parameters and the type
/// from a click solver; then a click solver's direct solve, or a slide solve
/// on a slide solver. Its reply is the `validate` token or the error.
pub fn solve_pipeline(gt: String, challenge: String) -> (res: (Job, Action))
    ensures
        starts_as(res.0, res.1@, ReplyKind::Validated),
        res.0 == (Job::ProbeAwaitCs { gt, challenge }),
        res.1@ == ActionView::Call(Call::GetCs { solver: click_solver(0), gt, challenge, w: None }),
{
    let call = Call::GetCs { solver: first_click(), gt: gt.clone(), challenge: challenge.clone(), w: None };
    (Job::ProbeAwaitCs { gt, challenge }, Action::Call(call))
}

fn probe_type(req: GetTypeRequest) -> (res: (Job, Action))
    ensures
        res.0 == Job::AwaitType,
        res.1@ == ActionView::Call(
            Call::GetType {
                solver: click_solver(0),
                gt: req.gt,
                challenge: req.challenge,
                w: given_w(req.w),
            },
        ),
{
    let call = Call::GetType {
        solver: first_click(),
        gt: req.gt,
        challenge: req.challenge,
        w: optional_w(req.w),
    };
    (Job::AwaitType, Action::Call(call))
}

fn missing_key_args() -> (r: Reply)
    ensures
        r@ == ReplyView::CalculateKey(
                    TextReplyView { success: false, text: Seq::empty(), error: "missing NewCSArgs"@ },
                ),
{
    Reply::CalculateKey(
        CalculateKeyResponse { success: false, key: String::new(), error: missing_args_error() },
    )
}

fn make_w(solver: Solver, req: GenerateWRequest) -> (res: (Job, Action))
    ensures
        match req.args {
            None => res.0 == Job::Finished && res.1@ == ActionView::Reply(
                ReplyView::GenerateW(
                    TextReplyView { success: false, text: Seq::empty(), error: "missing NewCSArgs"@ },
                ),
            ),
            Some(args) => res.0 == Job::AwaitW && res.1@ == ActionView::Call(
                Call::GenerateW {
                    solver,
                    key: req.key,
                    gt: req.gt,
                    challenge: req.challenge,
                    c: args.c,
                    s: args.s,
                },
            ),
        },
{
    match req.args {
        None => {
            let r = GenerateWResponse {
                success: false,
                w: String::new(),
                error: missing_args_error(),
            };
            (Job::Finished, Action::Reply(Reply::GenerateW(r)))
        },
        Some(args) => {
            let call = Call::GenerateW {
                solver,
                key: req.key,
                gt: req.gt,
                challenge: req.challenge,
                c: args.c,
                s: args.s,
            };
            (Job::AwaitW, Action::Call(call))
        },
    }
}

fn submit(solver: Solver, req: VerifyRequest) -> (res: (Job, Action))
    ensures
        res.0 == Job::AwaitVerdict,
        res.1@ == ActionView::Call(
            Call::Verify { solver, gt: req.gt, challenge: req.challenge, w: given_w(req.w) },
        ),
{
    let call = Call::Verify { solver, gt: req.gt, challenge: req.challenge, w: optional_w(req.w) };
    (Job::AwaitVerdict, Action::Call(call))
}

} // verus!
