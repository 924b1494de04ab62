use captcha_plugin::job::{
    Action, Call, Job, KeyInput, Outcome, Reply, Solver, SolverKind, PAUSE_BEFORE_VERIFY_SECONDS,
};
use captcha_plugin::messages::{SolveGeetestCaptchaRequest, SolveGeetestCaptchaResponse, VerifyType};
use captcha_plugin::services::{solve_pipeline, SlideServiceImpl};

fn s(text: &str) -> String {
    text.to_string()
}

fn slide0() -> Solver {
    Solver { kind: SolverKind::Slide, instance: 0 }
}

fn click0() -> Solver {
    Solver { kind: SolverKind::Click, instance: 0 }
}

/// Drives a job with the given outcomes and collects its actions.
fn drive(mut job: Job, first: Action, outcomes: Vec<Outcome>) -> (Job, Vec<Action>) {
    let mut actions = vec![first];
    for o in outcomes {
        assert!(job.accepts(&o), "job {:?} does not take {:?}", job, o);
        let (next, action) = job.next(o);
        job = next;
        actions.push(action);
    }
    (job, actions)
}

fn slide_success_outcomes() -> Vec<Outcome> {
    vec![
        Outcome::Cs { c: vec![0], s: s("s0") },
        Outcome::SlideArgs {
            c: vec![4, 5],
            s: s("s1"),
            new_challenge: s("nc"),
            full_bg_url: s("fb"),
            miss_bg_url: s("mb"),
            slider_url: s("sl"),
        },
        Outcome::Key(s("key")),
        Outcome::W(s("w")),
        Outcome::Paused,
        Outcome::Verdict { message: s("success"), validate: s("valid") },
    ]
}

fn slide_calls(gt: &str, challenge: &str) -> Vec<Action> {
    vec![
        Action::Call(Call::GetNewCsArgs { solver: slide0(), gt: s(gt), challenge: s(challenge) }),
        Action::Call(Call::CalculateKey {
            solver: slide0(),
            input: KeyInput::Images {
                new_challenge: s("nc"),
                full_bg_url: s("fb"),
                miss_bg_url: s("mb"),
                slider_url: s("sl"),
            },
        }),
        Action::Call(Call::GenerateW {
            solver: slide0(),
            key: s("key"),
            gt: s(gt),
            challenge: s(challenge),
            c: vec![4, 5],
            s: s("s1"),
        }),
        Action::Call(Call::Pause { seconds: 2 }),
        Action::Call(Call::Verify {
            solver: slide0(),
            gt: s(gt),
            challenge: s(challenge),
            w: Some(s("w")),
        }),
    ]
}

#[test]
fn slide_solve_runs_every_step_in_order() {
    let (job, first) =
        SlideServiceImpl.solve(SolveGeetestCaptchaRequest { gt: s("g"), challenge: s("c") });
    let (job, actions) = drive(job, first, slide_success_outcomes());
    assert!(job.is_finished());
    let mut expected = vec![Action::Call(Call::GetCs {
        solver: slide0(),
        gt: s("g"),
        challenge: s("c"),
        w: None,
    })];
    expected.extend(slide_calls("g", "c"));
    expected.push(Action::Reply(Reply::Solve(SolveGeetestCaptchaResponse {
        success: true,
        validate: s("valid"),
        error: String::new(),
    })));
    assert_eq!(actions, expected);
    assert_eq!(PAUSE_BEFORE_VERIFY_SECONDS, 2);
}

#[test]
fn slide_solve_stops_at_first_failure() {
    let (job, first) =
        SlideServiceImpl.solve(SolveGeetestCaptchaRequest { gt: s("g"), challenge: s("c") });
    let mut outcomes = slide_success_outcomes();
    outcomes.truncate(2);
    outcomes.push(Outcome::Failed(s("key service down")));
    let (job, actions) = drive(job, first, outcomes);
    assert!(job.is_finished());
    assert_eq!(actions.len(), 4);
    assert_eq!(
        actions[3],
        Action::Reply(Reply::Solve(SolveGeetestCaptchaResponse {
            success: false,
            validate: String::new(),
            error: s("key service down"),
        }))
    );
}

#[test]
fn pipeline_on_click_challenge_matches_directly() {
    let (job, first) = solve_pipeline(s("g"), s("c"));
    let (job, actions) = drive(
        job,
        first,
        vec![
            Outcome::Cs { c: vec![1], s: s("s") },
            Outcome::Type(VerifyType::Click),
            Outcome::Matched(s("v")),
        ],
    );
    assert!(job.is_finished());
    assert_eq!(
        actions,
        vec![
            Action::Call(Call::GetCs { solver: click0(), gt: s("g"), challenge: s("c"), w: None }),
            Action::Call(Call::GetType { solver: click0(), gt: s("g"), challenge: s("c"), w: None }),
            Action::Call(Call::SimpleMatch { solver: click0(), gt: s("g"), challenge: s("c") }),
            Action::Reply(Reply::Validated(Ok(s("v")))),
        ]
    );
}

#[test]
fn pipeline_on_slide_challenge_runs_slide_solve() {
    let (job, first) = solve_pipeline(s("g"), s("c"));
    let mut outcomes =
        vec![Outcome::Cs { c: vec![1], s: s("s") }, Outcome::Type(VerifyType::Slide)];
    outcomes.extend(slide_success_outcomes());
    let (job, actions) = drive(job, first, outcomes);
    assert!(job.is_finished());
    let mut expected = vec![
        Action::Call(Call::GetCs { solver: click0(), gt: s("g"), challenge: s("c"), w: None }),
        Action::Call(Call::GetType { solver: click0(), gt: s("g"), challenge: s("c"), w: None }),
        Action::Call(Call::GetCs { solver: slide0(), gt: s("g"), challenge: s("c"), w: None }),
    ];
    expected.extend(slide_calls("g", "c"));
    expected.push(Action::Reply(Reply::Validated(Ok(s("valid")))));
    assert_eq!(actions, expected);
}

#[test]
fn pipeline_failure_is_an_error_result() {
    let (job, first) = solve_pipeline(s("g"), s("c"));
    let (job, actions) = drive(
        job,
        first,
        vec![Outcome::Cs { c: vec![], s: s("s") }, Outcome::Failed(s("probe failed"))],
    );
    assert!(job.is_finished());
    assert_eq!(actions[2], Action::Reply(Reply::Validated(Err(s("probe failed")))));
}

#[test]
fn every_failure_ends_any_job() {
    // Walk the pipeline's slide path and fail at each step in turn.
    let all = || {
        let mut all =
            vec![Outcome::Cs { c: vec![1], s: s("s") }, Outcome::Type(VerifyType::Slide)];
        all.extend(slide_success_outcomes());
        all
    };
    for k in 0..all().len() {
        let (job, first) = solve_pipeline(s("g"), s("c"));
        let mut outcomes: Vec<Outcome> = all().into_iter().take(k).collect();
        outcomes.push(Outcome::Failed(s("boom")));
        let (job, actions) = drive(job, first, outcomes);
        assert!(job.is_finished());
        assert_eq!(actions.last(), Some(&Action::Reply(Reply::Validated(Err(s("boom"))))));
    }
}
