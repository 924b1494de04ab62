//! What each job answers with, written out field by field: a successful
//! call's result reaches the reply unchanged, and a failed call's error
//! reaches it unchanged.
use vstd::prelude::*;

use crate::job::{click_solver, slide_solver, ActionView, Job, Outcome, ReplyView, Solver, SolverKind};
use crate::messages::{
    reported_type, ArgsReplyView, CaptchaType, CsReplyView, GeetestCsView, NewCsArgsView,
    TextReplyView, TypeReplyView, VerifyType,
};
use crate::services::{given_w, missing_args_text};

verus! {

/// A direct solve replies with exactly the token that the solver matched:
/// the bare token for the pipeline, a successful `Solve` response with an
/// empty error for the services.
pub proof fn matched_token_is_replied(pipeline: bool, v: String)
    ensures
        (Job::AwaitMatch { pipeline }).step(Outcome::Matched(v)) == (
            Job::Finished,
            ActionView::Reply(
                if pipeline {
                    ReplyView::Validated(Ok(v@))
                } else {
                    ReplyView::Solve(TextReplyView { success: true, text: v@, error: Seq::empty() })
                },
            ),
        ),
{
}

/// `GetCs` replies with exactly the `c` and `s` that the solver gave.
pub proof fn cs_are_replied(c: Vec<u8>, s: String)
    ensures
        Job::AwaitCs.step(Outcome::Cs { c, s }) == (
            Job::Finished,
            ActionView::Reply(
                ReplyView::GetCs(
                    CsReplyView {
                        success: true,
                        cs: Some(GeetestCsView { s: s@, c: c@ }),
                        error: Seq::empty(),
                    },
                ),
            ),
        ),
{
}

/// `GetType` replies with the type that the probe found.
pub proof fn probed_type_is_replied(t: VerifyType)
    ensures
        Job::AwaitType.step(Outcome::Type(t)) == (
            Job::Finished,
            ActionView::Reply(
                ReplyView::GetType(
                    TypeReplyView {
                        success: true,
                        captcha_type: if t == VerifyType::Click {
                            CaptchaType::Click
                        } else {
                            CaptchaType::Slide
                        },
                        error: Seq::empty(),
                    },
                ),
            ),
        ),
        reported_type(VerifyType::Click) == CaptchaType::Click,
        reported_type(VerifyType::Slide) == CaptchaType::Slide,
{
}

/// A click solver's fresh parameters are replied unchanged, its picture as
/// the `full_bg_url`, with the other images empty.
pub proof fn click_args_are_replied(c: Vec<u8>, s: String, pic_url: String)
    ensures
        Job::AwaitClickArgs.step(Outcome::ClickArgs { c, s, pic_url }) == (
            Job::Finished,
            ActionView::Reply(
                ReplyView::GetNewCsArgs(
                    ArgsReplyView {
                        success: true,
                        args: Some(
                            NewCsArgsView {
                                c: c@,
                                s: s@,
                                new_challenge: Seq::empty(),
                                full_bg_url: pic_url@,
                                miss_bg_url: Seq::empty(),
                                slider_url: Seq::empty(),
                            },
                        ),
                        error: Seq::empty(),
                    },
                ),
            ),
        ),
{
}

/// A slide solver's fresh parameters are replied with each of their six
/// fields unchanged.
pub proof fn slide_args_are_replied(
    c: Vec<u8>,
    s: String,
    new_challenge: String,
    full_bg_url: String,
    miss_bg_url: String,
    slider_url: String,
)
    ensures
        Job::AwaitSlideArgs.step(
            Outcome::SlideArgs { c, s, new_challenge, full_bg_url, miss_bg_url, slider_url },
        ) == (
            Job::Finished,
            ActionView::Reply(
                ReplyView::GetNewCsArgs(
                    ArgsReplyView {
                        success: true,
                        args: Some(
                            NewCsArgsView {
                                c: c@,
                                s: s@,
                                new_challenge: new_challenge@,
                                full_bg_url: full_bg_url@,
                                miss_bg_url: miss_bg_url@,
                                slider_url: slider_url@,
                            },
                        ),
                        error: Seq::empty(),
                    },
                ),
            ),
        ),
{
}

/// `CalculateKey` replies with exactly the key that the solver calculated.
pub proof fn key_is_replied(key: String)
    ensures
        Job::AwaitKey.step(Outcome::Key(key)) == (
            Job::Finished,
            ActionView::Reply(
                ReplyView::CalculateKey(
                    TextReplyView { success: true, text: key@, error: Seq::empty() },
                ),
            ),
        ),
{
}

/// `GenerateW` replies with exactly the whole answer that the solver made.
pub proof fn w_is_replied(w: String)
    ensures
        Job::AwaitW.step(Outcome::W(w)) == (
            Job::Finished,
            ActionView::Reply(
                ReplyView::GenerateW(TextReplyView { success: true, text: w@, error: Seq::empty() }),
            ),
        ),
{
}

/// `Verify` replies with exactly the `validate` token of the verdict,
/// successfully, whatever the verdict's message.
pub proof fn verdict_token_is_replied(message: String, validate: String)
    ensures
        Job::AwaitVerdict.step(Outcome::Verdict { message, validate }) == (
            Job::Finished,
            ActionView::Reply(
                ReplyView::Verify(
                    TextReplyView { success: true, text: validate@, error: Seq::empty() },
                ),
            ),
        ),
{
}

/// A slide solve ends with exactly the `validate` token of its verdict,
/// whatever the verdict's message.
pub proof fn slide_verdict_token_is_replied(pipeline: bool, message: String, validate: String)
    ensures
        (Job::SlideAwaitVerdict { pipeline }).step(Outcome::Verdict { message, validate }) == (
            Job::Finished,
            ActionView::Reply(
                if pipeline {
                    ReplyView::Validated(Ok(validate@))
                } else {
                    ReplyView::Solve(
                        TextReplyView { success: true, text: validate@, error: Seq::empty() },
                    )
                },
            ),
        ),
{
}

/// A failed call ends any job with the response of its request, failed,
/// carrying exactly the call's error and no result.
pub proof fn failure_is_replied(job: Job, e: String)
    requires
        !(job is Finished),
    ensures
        job.step(Outcome::Failed(e)) == (
            Job::Finished,
            ActionView::Reply(
                match job {
                    Job::AwaitCs => ReplyView::GetCs(
                        CsReplyView { success: false, cs: None, error: e@ },
                    ),
                    Job::AwaitType => ReplyView::GetType(
                        TypeReplyView {
                            success: false,
                            captcha_type: CaptchaType::Unknown,
                            error: e@,
                        },
                    ),
                    Job::AwaitClickArgs => ReplyView::GetNewCsArgs(
                        ArgsReplyView { success: false, args: None, error: e@ },
                    ),
                    Job::AwaitSlideArgs => ReplyView::GetNewCsArgs(
                        ArgsReplyView { success: false, args: None, error: e@ },
                    ),
                    Job::AwaitPictureUrl => ReplyView::CalculateKey(
                        TextReplyView { success: false, text: Seq::empty(), error: e@ },
                    ),
                    Job::AwaitKey => ReplyView::CalculateKey(
                        TextReplyView { success: false, text: Seq::empty(), error: e@ },
                    ),
                    Job::AwaitW => ReplyView::GenerateW(
                        TextReplyView { success: false, text: Seq::empty(), error: e@ },
                    ),
                    Job::AwaitVerdict => ReplyView::Verify(
                        TextReplyView { success: false, text: Seq::empty(), error: e@ },
                    ),
                    Job::ProbeAwaitCs { .. } => ReplyView::Validated(Err(e@)),
                    Job::ProbeAwaitType { .. } => ReplyView::Validated(Err(e@)),
                    Job::AwaitMatch { pipeline } => failed_solve(pipeline, e@),
                    Job::SlideAwaitCs { pipeline, .. } => failed_solve(pipeline, e@),
                    Job::SlideAwaitArgs { pipeline, .. } => failed_solve(pipeline, e@),
                    Job::SlideAwaitKey { pipeline, .. } => failed_solve(pipeline, e@),
                    Job::SlideAwaitW { pipeline, .. } => failed_solve(pipeline, e@),
                    Job::SlideAwaitPause { pipeline, .. } => failed_solve(pipeline, e@),
                    Job::SlideAwaitVerdict { pipeline } => failed_solve(pipeline, e@),
                    Job::Finished => ReplyView::Validated(Err(e@)),
                },
            ),
        ),
{
}

/// Each job waits for the error of its pending call or a result of the kind
/// that call gives, and for nothing else; a finished job waits for nothing.
pub proof fn jobs_await_their_call_results(job: Job, o: Outcome)
    ensures
        job.awaits(o) == match job {
            Job::Finished => false,
            Job::AwaitMatch { .. } => o is Failed || o is Matched,
            Job::AwaitCs => o is Failed || o is Cs,
            Job::AwaitType => o is Failed || o is Type,
            Job::AwaitClickArgs => o is Failed || o is ClickArgs,
            Job::AwaitSlideArgs => o is Failed || o is SlideArgs,
            Job::AwaitPictureUrl => o is Failed || o is ClickArgs,
            Job::AwaitKey => o is Failed || o is Key,
            Job::AwaitW => o is Failed || o is W,
            Job::AwaitVerdict => o is Failed || o is Verdict,
            Job::ProbeAwaitCs { .. } => o is Failed || o is Cs,
            Job::ProbeAwaitType { .. } => o is Failed || o is Type,
            Job::SlideAwaitCs { .. } => o is Failed || o is Cs,
            Job::SlideAwaitArgs { .. } => o is Failed || o is SlideArgs,
            Job::SlideAwaitKey { .. } => o is Failed || o is Key,
            Job::SlideAwaitW { .. } => o is Failed || o is W,
            Job::SlideAwaitPause { .. } => o is Failed || o is Paused,
            Job::SlideAwaitVerdict { .. } => o is Failed || o is Verdict,
        },
{
}

/// A failed solve: the bare error for the pipeline, a failed `Solve`
/// response with an empty token for the services.
pub open spec fn failed_solve(pipeline: bool, e: Seq<char>) -> ReplyView {
    if pipeline {
        ReplyView::Validated(Err(e))
    } else {
        ReplyView::Solve(TextReplyView { success: false, text: Seq::empty(), error: e })
    }
}

/// A request's `w` is handed on unchanged unless it is empty, which means
/// that none is given.
pub proof fn only_an_empty_w_is_dropped(w: String)
    ensures
        w@.len() == 0 ==> given_w(w) is None,
        w@.len() != 0 ==> given_w(w) == Some(w),
{
}

/// The solvers that the contracts name are the ones of their kind with the
/// given instance number.
pub proof fn solvers_are_what_they_name(instance: u8)
    ensures
        click_solver(instance) == (Solver { kind: SolverKind::Click, instance }),
        slide_solver(instance) == (Solver { kind: SolverKind::Slide, instance }),
{
}

/// A request without its challenge parameters fails with this error text.
pub proof fn missing_args_error_text()
    ensures
        missing_args_text() == "missing NewCSArgs"@,
{
}

} // verus!
