//! What holds of every job: how failures, replies, calls and pauses go, and
//! the complete runs of the solves.
use vstd::prelude::*;

use crate::job::{
    click_solver, run, slide_solver, takes_all, ActionView, Call, Job, KeyInput,
    Outcome, ReplyView, SolverKind, PAUSE_BEFORE_VERIFY_SECONDS,
};
use crate::messages::{TextReplyView, VerifyType};

verus! {

/// A call that fails ends the job: the job answers at once, with a failed
/// reply that carries the call's error and no result.
pub proof fn failure_ends_job(job: Job, e: String)
    requires
        !(job is Finished),
    ensures
        job.step(Outcome::Failed(e)).0 == Job::Finished,
        match job.step(Outcome::Failed(e)).1 {
            ActionView::Reply(r) => r.is_failure_with(e@),
            ActionView::Call(_) => false,
        },
{
}

/// Every reply either succeeds, with its result and an empty error, or
/// fails, with no result.
pub proof fn replies_are_well_shaped(job: Job, o: Outcome)
    requires
        job.awaits(o),
    ensures
        match job.step(o).1 {
            ActionView::Reply(r) => r.well_shaped(),
            ActionView::Call(_) => true,
        },
{
}

/// Every step brings the job closer to its end, and a job ends exactly when
/// it replies: a driver that answers each call is done after at most
/// `job.remaining()` outcomes.
pub proof fn steps_make_progress(job: Job, o: Outcome)
    requires
        job.awaits(o),
    ensures
        job.step(o).0.remaining() < job.remaining(),
        (job.step(o).1 is Reply) <==> (job.step(o).0 is Finished),
{
}

/// A job keeps the kind of response it answers with: every step either
/// answers with a reply of that kind, or leaves the job waiting to answer
/// with it.
pub proof fn steps_keep_reply_kind(job: Job, o: Outcome)
    requires
        job.awaits(o),
    ensures
        job.reply_kind() is Some,
        match job.step(o).1 {
            ActionView::Reply(r) => job.reply_kind() == Some(r.kind()),
            ActionView::Call(_) => job.step(o).0.reply_kind() == job.reply_kind(),
        },
{
}

/// However a job goes, every reply it gives is of the kind that it was
/// started to answer with.
pub proof fn runs_reply_in_kind(job: Job, outcomes: Seq<Outcome>, i: int)
    requires
        takes_all(job, outcomes),
        0 <= i < outcomes.len(),
        run(job, outcomes)[i] is Reply,
    ensures
        match run(job, outcomes)[i] {
            ActionView::Reply(r) => job.reply_kind() == Some(r.kind()),
            ActionView::Call(_) => true,
        },
    decreases outcomes.len(),
{
    let (next, action) = job.step(outcomes[0]);
    steps_keep_reply_kind(job, outcomes[0]);
    run_has_an_action_per_outcome(next, outcomes.drop_first());
    assert(run(job, outcomes) == seq![action] + run(next, outcomes.drop_first()));
    if i > 0 {
        assert(run(job, outcomes)[i] == run(next, outcomes.drop_first())[i - 1]);
        runs_reply_in_kind(next, outcomes.drop_first(), i - 1);
    }
}

proof fn run_has_an_action_per_outcome(job: Job, outcomes: Seq<Outcome>)
    ensures
        run(job, outcomes).len() == outcomes.len(),
    decreases outcomes.len(),
{
    if outcomes.len() > 0 {
        run_has_an_action_per_outcome(job.step(outcomes[0]).0, outcomes.drop_first());
    }
}

/// After asking for a call, a job waits for exactly what that call can give:
/// its error, or a result of its kind.
pub proof fn calls_are_awaited(job: Job, o: Outcome, answer: Outcome)
    requires
        job.awaits(o),
    ensures
        match job.step(o).1 {
            ActionView::Call(c) => job.step(o).0.awaits(answer) <==> (answer is Failed
                || c.answered_by(answer)),
            ActionView::Reply(_) => !job.step(o).0.awaits(answer),
        },
{
}

/// A slide solve pauses for `PAUSE_BEFORE_VERIFY_SECONDS` before it submits
/// its answer, and submits it on the slide solver once the pause is over.
pub proof fn pause_precedes_verify(job: Job, o: Outcome)
    requires
        job.awaits(o),
        job.step(o).1 matches ActionView::Call(Call::Pause { .. }),
    ensures
        job.step(o).1 == ActionView::Call(Call::Pause { seconds: PAUSE_BEFORE_VERIFY_SECONDS }),
        PAUSE_BEFORE_VERIFY_SECONDS == 2,
        job.step(o).0.step(Outcome::Paused).1 matches ActionView::Call(
            Call::Verify { solver, w: Some(_), .. },
        ) && solver == slide_solver(0),
{
}

/// A job submits an answer of its own making only once a pause is over.
pub proof fn verify_follows_pause(job: Job, o: Outcome)
    requires
        job.awaits(o),
        job.step(o).1 matches ActionView::Call(Call::Verify { .. }),
    ensures
        o is Paused,
{
}

/// A slide solve that meets no failure: it fetches the parameters, then
/// fresh parameters, calculates the key from their images, makes the answer
/// from the key and the fresh `c` and `s`, pauses, submits the answer, and
/// replies with the `validate` token; every call goes to one slide solver.
pub proof fn slide_solve_run(
    pipeline: bool,
    gt: String,
    challenge: String,
    c0: Vec<u8>,
    s0: String,
    c: Vec<u8>,
    s: String,
    new_challenge: String,
    full_bg_url: String,
    miss_bg_url: String,
    slider_url: String,
    key: String,
    w: String,
    message: String,
    validate: String,
)
    ensures
        run(
            Job::SlideAwaitCs { pipeline, gt, challenge },
            seq![
                Outcome::Cs { c: c0, s: s0 },
                Outcome::SlideArgs { c, s, new_challenge, full_bg_url, miss_bg_url, slider_url },
                Outcome::Key(key),
                Outcome::W(w),
                Outcome::Paused,
                Outcome::Verdict { message, validate },
            ],
        ) == seq![
            ActionView::Call(Call::GetNewCsArgs { solver: slide_solver(0), gt, challenge }),
            ActionView::Call(
                Call::CalculateKey {
                    solver: slide_solver(0),
                    input: KeyInput::Images { new_challenge, full_bg_url, miss_bg_url, slider_url },
                },
            ),
            ActionView::Call(
                Call::GenerateW { solver: slide_solver(0), key, gt, challenge, c, s },
            ),
            ActionView::Call(Call::Pause { seconds: PAUSE_BEFORE_VERIFY_SECONDS }),
            ActionView::Call(
                Call::Verify { solver: slide_solver(0), gt, challenge, w: Some(w) },
            ),
ActionView::Reply(
                if pipeline {
                    ReplyView::Validated(Ok(validate@))
                } else {
                    ReplyView::Solve(
                        TextReplyView { success: true, text: validate@, error: Seq::empty() },
                    )
                },
            ),
        ],
{
    let outcomes = seq![
        Outcome::Cs { c: c0, s: s0 },
        Outcome::SlideArgs { c, s, new_challenge, full_bg_url, miss_bg_url, slider_url },
        Outcome::Key(key),
        Outcome::W(w),
        Outcome::Paused,
        Outcome::Verdict { message, validate },
    ];
    reveal_with_fuel(run, 7);
    assert(outcomes.drop_first() =~= outcomes.subrange(1, 6));
    assert(outcomes.subrange(1, 6).drop_first() =~= outcomes.subrange(2, 6));
    assert(outcomes.subrange(2, 6).drop_first() =~= outcomes.subrange(3, 6));
    assert(outcomes.subrange(3, 6).drop_first() =~= outcomes.subrange(4, 6));
    assert(outcomes.subrange(4, 6).drop_first() =~= outcomes.subrange(5, 6));
    assert(outcomes.subrange(5, 6).drop_first() =~= Seq::<Outcome>::empty());
    assert(run(Job::SlideAwaitCs { pipeline, gt, challenge }, outcomes) =~= seq![
        ActionView::Call(Call::GetNewCsArgs { solver: slide_solver(0), gt, challenge }),
        ActionView::Call(
            Call::CalculateKey {
                solver: slide_solver(0),
                input: KeyInput::Images { new_challenge, full_bg_url, miss_bg_url, slider_url },
            },
        ),
        ActionView::Call(Call::GenerateW { solver: slide_solver(0), key, gt, challenge, c, s }),
        ActionView::Call(Call::Pause { seconds: PAUSE_BEFORE_VERIFY_SECONDS }),
        ActionView::Call(Call::Verify { solver: slide_solver(0), gt, challenge, w: Some(w) }),
        ActionView::Reply(
            if pipeline {
                ReplyView::Validated(Ok(validate@))
            } else {
                ReplyView::Solve(
                    TextReplyView { success: true, text: validate@, error: Seq::empty() },
                )
            },
        ),
    ]);
}

/// The pipeline on a click challenge: after the parameters it probes the
/// type on the same click solver, has that solver match the challenge, and
/// replies with its `validate` token.
pub proof fn pipeline_click_run(
    gt: String,
    challenge: String,
    c0: Vec<u8>,
    s0: String,
    validate: String,
)
    ensures
        run(
            Job::ProbeAwaitCs { gt, challenge },
            seq![
                Outcome::Cs { c: c0, s: s0 },
                Outcome::Type(VerifyType::Click),
                Outcome::Matched(validate),
            ],
        ) == seq![
            ActionView::Call(Call::GetType { solver: click_solver(0), gt, challenge, w: None }),
            ActionView::Call(Call::SimpleMatch { solver: click_solver(0), gt, challenge }),
            ActionView::Reply(ReplyView::Validated(Ok(validate@))),
        ],
{
    let outcomes = seq![
        Outcome::Cs { c: c0, s: s0 },
        Outcome::Type(VerifyType::Click),
        Outcome::Matched(validate),
    ];
    reveal_with_fuel(run, 4);
    assert(outcomes.drop_first() =~= outcomes.subrange(1, 3));
    assert(outcomes.subrange(1, 3).drop_first() =~= outcomes.subrange(2, 3));
    assert(outcomes.subrange(2, 3).drop_first() =~= Seq::<Outcome>::empty());
    assert(run(Job::ProbeAwaitCs { gt, challenge }, outcomes) =~= seq![
        ActionView::Call(Call::GetType { solver: click_solver(0), gt, challenge, w: None }),
        ActionView::Call(Call::SimpleMatch { solver: click_solver(0), gt, challenge }),
        ActionView::Reply(ReplyView::Validated(Ok(validate@))),
    ]);
}

/// The pipeline on a slide challenge: after the parameters and the type
/// from a click solver, it runs a slide solve from its start on a slide
/// solver.
pub proof fn pipeline_slide_hands_over(gt: String, challenge: String, c0: Vec<u8>, s0: String)
    ensures
        (Job::ProbeAwaitCs { gt, challenge }).step(Outcome::Cs { c: c0, s: s0 }) == (
            Job::ProbeAwaitType { gt, challenge },
            ActionView::Call(Call::GetType { solver: click_solver(0), gt, challenge, w: None }),
        ),
        (Job::ProbeAwaitType { gt, challenge }).step(Outcome::Type(VerifyType::Slide)) == (
            Job::SlideAwaitCs { pipeline: true, gt, challenge },
            ActionView::Call(Call::GetCs { solver: slide_solver(0), gt, challenge, w: None }),
        ),
{
}

/// The key of a click challenge without a picture: a first click solver
/// fetches fresh parameters, and a second one calculates the key from their
/// picture.
pub proof fn click_key_fetch_run(
    c: Vec<u8>,
    s: String,
    pic_url: String,
    key: String,
)
    ensures
        run(Job::AwaitPictureUrl, seq![Outcome::ClickArgs { c, s, pic_url }, Outcome::Key(key)])
            == seq![
            ActionView::Call(
                Call::CalculateKey { solver: click_solver(1), input: KeyInput::Picture(pic_url) },
            ),
            ActionView::Reply(ReplyView::CalculateKey(
                TextReplyView { success: true, text: key@, error: Seq::empty() },
            )),
        ],
        click_solver(1) != click_solver(0),
        click_solver(1).kind == SolverKind::Click,
{
    let outcomes = seq![Outcome::ClickArgs { c, s, pic_url }, Outcome::Key(key)];
    reveal_with_fuel(run, 3);
    assert(outcomes.drop_first() =~= outcomes.subrange(1, 2));
    assert(outcomes.subrange(1, 2).drop_first() =~= Seq::<Outcome>::empty());
    assert(run(Job::AwaitPictureUrl, outcomes) =~= seq![
        ActionView::Call(
            Call::CalculateKey { solver: click_solver(1), input: KeyInput::Picture(pic_url) },
        ),
        ActionView::Reply(ReplyView::CalculateKey(
                TextReplyView { success: true, text: key@, error: Seq::empty() },
            )),
    ]);
}

} // verus!
