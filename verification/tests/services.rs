use captcha_plugin::job::{Action, Call, Job, KeyInput, Outcome, Reply, Solver, SolverKind};
use captcha_plugin::messages::{
    CalculateKeyRequest, CalculateKeyResponse, CaptchaType, GeetestCs, GenerateWRequest,
    GenerateWResponse, GetCsRequest, GetCsResponse, GetNewCsArgsRequest, GetNewCsArgsResponse,
    GetTypeRequest, GetTypeResponse, NewCsArgs, ServingStatus, SolveGeetestCaptchaRequest,
    SolveGeetestCaptchaResponse, VerifyRequest, VerifyResponse, VerifyType,
};
use captcha_plugin::services::{
    optional_w, ClickServiceImpl, HealthServiceImpl, SlideServiceImpl,
};

fn s(text: &str) -> String {
    text.to_string()
}

fn click(instance: u8) -> Solver {
    Solver { kind: SolverKind::Click, instance }
}

fn slide(instance: u8) -> Solver {
    Solver { kind: SolverKind::Slide, instance }
}

fn args(full_bg_url: &str) -> NewCsArgs {
    NewCsArgs {
        c: vec![1, 2, 3],
        s: s("ss"),
        new_challenge: s("nc"),
        full_bg_url: s(full_bg_url),
        miss_bg_url: s("mb"),
        slider_url: s("sl"),
    }
}

fn expect_call(action: Action) -> Call {
    match action {
        Action::Call(c) => c,
        Action::Reply(r) => panic!("expected a call, got {:?}", r),
    }
}

fn expect_reply(action: Action) -> Reply {
    match action {
        Action::Reply(r) => r,
        Action::Call(c) => panic!("expected a reply, got {:?}", c),
    }
}

#[test]
fn empty_w_is_not_given() {
    assert_eq!(optional_w(String::new()), None);
    assert_eq!(optional_w(s("abc")), Some(s("abc")));
}

#[test]
fn click_solve_matches_and_replies_validate() {
    let (job, action) =
        ClickServiceImpl.solve(SolveGeetestCaptchaRequest { gt: s("g"), challenge: s("c") });
    assert_eq!(job, Job::AwaitMatch { pipeline: false });
    assert_eq!(
        expect_call(action),
        Call::SimpleMatch { solver: click(0), gt: s("g"), challenge: s("c") }
    );
    assert!(job.accepts(&Outcome::Matched(s("v"))));
    let (job, action) = job.next(Outcome::Matched(s("v")));
    assert_eq!(job, Job::Finished);
    assert_eq!(
        expect_reply(action),
        Reply::Solve(SolveGeetestCaptchaResponse {
            success: true,
            validate: s("v"),
            error: String::new()
        })
    );
}

#[test]
fn click_solve_failure_carries_error() {
    let (job, _) =
        ClickServiceImpl.solve(SolveGeetestCaptchaRequest { gt: s("g"), challenge: s("c") });
    let (job, action) = job.next(Outcome::Failed(s("network down")));
    assert!(job.is_finished());
    assert_eq!(
        expect_reply(action),
        Reply::Solve(SolveGeetestCaptchaResponse {
            success: false,
            validate: String::new(),
            error: s("network down")
        })
    );
}

#[test]
fn get_cs_on_each_service() {
    let req = || GetCsRequest { gt: s("g"), challenge: s("c"), w: String::new() };
    let (job, action) = ClickServiceImpl.get_cs(req());
    assert_eq!(job, Job::AwaitCs);
    assert_eq!(
        expect_call(action),
        Call::GetCs { solver: click(0), gt: s("g"), challenge: s("c"), w: None }
    );
    let (job, action) = SlideServiceImpl.get_cs(GetCsRequest { w: s("ww"), ..req() });
    assert_eq!(
        expect_call(action),
        Call::GetCs { solver: slide(0), gt: s("g"), challenge: s("c"), w: Some(s("ww")) }
    );
    let (_, action) = job.next(Outcome::Cs { c: vec![9, 8], s: s("sv") });
    assert_eq!(
        expect_reply(action),
        Reply::GetCs(GetCsResponse {
            success: true,
            cs: Some(GeetestCs { s: s("sv"), c: vec![9, 8] }),
            error: String::new()
        })
    );
}

#[test]
fn get_cs_failure_has_no_cs() {
    let (job, _) =
        ClickServiceImpl.get_cs(GetCsRequest { gt: s("g"), challenge: s("c"), w: s("w") });
    let (_, action) = job.next(Outcome::Failed(s("bad")));
    assert_eq!(
        expect_reply(action),
        Reply::GetCs(GetCsResponse { success: false, cs: None, error: s("bad") })
    );
}

#[test]
fn get_type_reports_probe_result() {
    for (found, reported) in
        [(VerifyType::Click, CaptchaType::Click), (VerifyType::Slide, CaptchaType::Slide)]
    {
        let (job, action) = ClickServiceImpl.get_type(GetTypeRequest {
            gt: s("g"),
            challenge: s("c"),
            w: String::new(),
        });
        assert_eq!(
            expect_call(action),
            Call::GetType { solver: click(0), gt: s("g"), challenge: s("c"), w: None }
        );
        let (_, action) = job.next(Outcome::Type(found));
        assert_eq!(
            expect_reply(action),
            Reply::GetType(GetTypeResponse {
                success: true,
                captcha_type: reported,
                error: String::new()
            })
        );
    }
}

#[test]
fn slide_service_probes_type_on_click_solver() {
    let (job, action) =
        SlideServiceImpl.get_type(GetTypeRequest { gt: s("g"), challenge: s("c"), w: s("w") });
    assert_eq!(
        expect_call(action),
        Call::GetType { solver: click(0), gt: s("g"), challenge: s("c"), w: Some(s("w")) }
    );
    let (_, action) = job.next(Outcome::Failed(s("oops")));
    assert_eq!(
        expect_reply(action),
        Reply::GetType(GetTypeResponse {
            success: false,
            captcha_type: CaptchaType::Unknown,
            error: s("oops")
        })
    );
}

#[test]
fn click_new_args_put_picture_in_full_bg_url() {
    let (job, action) =
        ClickServiceImpl.get_new_cs_args(GetNewCsArgsRequest { gt: s("g"), challenge: s("c") });
    assert_eq!(
        expect_call(action),
        Call::GetNewCsArgs { solver: click(0), gt: s("g"), challenge: s("c") }
    );
    let (_, action) =
        job.next(Outcome::ClickArgs { c: vec![7], s: s("s1"), pic_url: s("http://pic") });
    assert_eq!(
        expect_reply(action),
        Reply::GetNewCsArgs(GetNewCsArgsResponse {
            success: true,
            args: Some(NewCsArgs {
                c: vec![7],
                s: s("s1"),
                new_challenge: String::new(),
                full_bg_url: s("http://pic"),
                miss_bg_url: String::new(),
                slider_url: String::new(),
            }),
            error: String::new()
        })
    );
}

#[test]
fn slide_new_args_carry_all_images() {
    let (job, action) =
        SlideServiceImpl.get_new_cs_args(GetNewCsArgsRequest { gt: s("g"), challenge: s("c") });
    assert_eq!(
        expect_call(action),
        Call::GetNewCsArgs { solver: slide(0), gt: s("g"), challenge: s("c") }
    );
    let (_, action) = job.next(Outcome::SlideArgs {
        c: vec![1, 2, 3],
        s: s("ss"),
        new_challenge: s("nc"),
        full_bg_url: s("fb"),
        miss_bg_url: s("mb"),
        slider_url: s("sl"),
    });
    assert_eq!(
        expect_reply(action),
        Reply::GetNewCsArgs(GetNewCsArgsResponse {
            success: true,
            args: Some(args("fb")),
            error: String::new()
        })
    );
}

#[test]
fn calculate_key_without_args_fails_at_once() {
    for (job, action) in [
        ClickServiceImpl.calculate_key(CalculateKeyRequest {
            gt: s("g"),
            challenge: s("c"),
            args: None,
        }),
        SlideServiceImpl.calculate_key(CalculateKeyRequest {
            gt: s("g"),
            challenge: s("c"),
            args: None,
        }),
    ] {
        assert_eq!(job, Job::Finished);
        assert_eq!(
            expect_reply(action),
            Reply::CalculateKey(CalculateKeyResponse {
                success: false,
                key: String::new(),
                error: s("missing NewCSArgs")
            })
        );
    }
}

#[test]
fn click_key_from_given_picture() {
    let (job, action) = ClickServiceImpl.calculate_key(CalculateKeyRequest {
        gt: s("g"),
        challenge: s("c"),
        args: Some(args("http://bg")),
    });
    assert_eq!(job, Job::AwaitKey);
    assert_eq!(
        expect_call(action),
        Call::CalculateKey { solver: click(0), input: KeyInput::Picture(s("http://bg")) }
    );
    let (_, action) = job.next(Outcome::Key(s("k")));
    assert_eq!(
        expect_reply(action),
        Reply::CalculateKey(CalculateKeyResponse {
            success: true,
            key: s("k"),
            error: String::new()
        })
    );
}

#[test]
fn click_key_fetches_picture_when_missing() {
    let (job, action) = ClickServiceImpl.calculate_key(CalculateKeyRequest {
        gt: s("g"),
        challenge: s("c"),
        args: Some(args("")),
    });
    assert_eq!(job, Job::AwaitPictureUrl);
    assert_eq!(
        expect_call(action),
        Call::GetNewCsArgs { solver: click(0), gt: s("g"), challenge: s("c") }
    );
    let (job, action) =
        job.next(Outcome::ClickArgs { c: vec![], s: s("x"), pic_url: s("http://fresh") });
    assert_eq!(
        expect_call(action),
        Call::CalculateKey { solver: click(1), input: KeyInput::Picture(s("http://fresh")) }
    );
    let (job, action) = job.next(Outcome::Key(s("k2")));
    assert!(job.is_finished());
    assert_eq!(
        expect_reply(action),
        Reply::CalculateKey(CalculateKeyResponse {
            success: true,
            key: s("k2"),
            error: String::new()
        })
    );
}

#[test]
fn click_key_fetch_failure_ends_job() {
    let (job, _) = ClickServiceImpl.calculate_key(CalculateKeyRequest {
        gt: s("g"),
        challenge: s("c"),
        args: Some(args("")),
    });
    let (job, action) = job.next(Outcome::Failed(s("fetch failed")));
    assert!(job.is_finished());
    assert_eq!(
        expect_reply(action),
        Reply::CalculateKey(CalculateKeyResponse {
            success: false,
            key: String::new(),
            error: s("fetch failed")
        })
    );
}

#[test]
fn slide_key_from_images() {
    let (job, action) = SlideServiceImpl.calculate_key(CalculateKeyRequest {
        gt: s("g"),
        challenge: s("c"),
        args: Some(args("fb")),
    });
    assert_eq!(job, Job::AwaitKey);
    assert_eq!(
        expect_call(action),
        Call::CalculateKey {
            solver: slide(0),
            input: KeyInput::Images {
                new_challenge: s("nc"),
                full_bg_url: s("fb"),
                miss_bg_url: s("mb"),
                slider_url: s("sl"),
            }
        }
    );
}

#[test]
fn generate_w_needs_args() {
    let (job, action) = SlideServiceImpl.generate_w(GenerateWRequest {
        gt: s("g"),
        challenge: s("c"),
        key: s("k"),
        args: None,
    });
    assert_eq!(job, Job::Finished);
    assert_eq!(
        expect_reply(action),
        Reply::GenerateW(GenerateWResponse {
            success: false,
            w: String::new(),
            error: s("missing NewCSArgs")
        })
    );
    let (job, action) = ClickServiceImpl.generate_w(GenerateWRequest {
        gt: s("g"),
        challenge: s("c"),
        key: s("k"),
        args: Some(args("fb")),
    });
    assert_eq!(
        expect_call(action),
        Call::GenerateW {
            solver: click(0),
            key: s("k"),
            gt: s("g"),
            challenge: s("c"),
            c: vec![1, 2, 3],
            s: s("ss")
        }
    );
    let (_, action) = job.next(Outcome::W(s("answer")));
    assert_eq!(
        expect_reply(action),
        Reply::GenerateW(GenerateWResponse {
            success: true,
            w: s("answer"),
            error: String::new()
        })
    );
}

#[test]
fn verify_replies_validate_not_message() {
    let (job, action) =
        SlideServiceImpl.verify(VerifyRequest { gt: s("g"), challenge: s("c"), w: String::new() });
    assert_eq!(
        expect_call(action),
        Call::Verify { solver: slide(0), gt: s("g"), challenge: s("c"), w: None }
    );
    let (_, action) = job.next(Outcome::Verdict { message: s("ok"), validate: s("token") });
    assert_eq!(
        expect_reply(action),
        Reply::Verify(VerifyResponse { success: true, validate: s("token"), error: String::new() })
    );
    let (job, _) =
        ClickServiceImpl.verify(VerifyRequest { gt: s("g"), challenge: s("c"), w: s("w") });
    let (_, action) = job.next(Outcome::Failed(s("rejected")));
    assert_eq!(
        expect_reply(action),
        Reply::Verify(VerifyResponse {
            success: false,
            validate: String::new(),
            error: s("rejected")
        })
    );
}

#[test]
fn version_and_health() {
    let v = ClickServiceImpl.version(s("abc123"), s("0.1.0"));
    assert_eq!(v.git_commit, "abc123");
    assert_eq!(v.version, "0.1.0");
    let v = SlideServiceImpl.version(s("def"), s("1.2.3"));
    assert_eq!((v.git_commit.as_str(), v.version.as_str()), ("def", "1.2.3"));
    assert_eq!(HealthServiceImpl.check().status, ServingStatus::Serving);
}

#[test]
fn jobs_accept_only_their_outcomes() {
    let (job, _) = ClickServiceImpl.get_cs(GetCsRequest {
        gt: s("g"),
        challenge: s("c"),
        w: String::new(),
    });
    assert!(job.accepts(&Outcome::Failed(s("e"))));
    assert!(job.accepts(&Outcome::Cs { c: vec![], s: String::new() }));
    assert!(!job.accepts(&Outcome::Key(s("k"))));
    assert!(!job.accepts(&Outcome::Paused));
    assert!(!Job::Finished.accepts(&Outcome::Failed(s("e"))));
}
