//! The data that the captcha services read and answer with: the fields of
//! the requests and responses of the click, slide and health services.
use vstd::prelude::*;

verus! {

/// What a solver's type probe reports a challenge to be.
#[derive(Clone, Copy, PartialEq, Eq, Debug, Structural)]
pub enum VerifyType {
    Click,
    Slide,
}

/// The captcha type a `GetType` response reports; `Unknown` when the probe
/// failed.
#[derive(Clone, Copy, PartialEq, Eq, Debug, Structural)]
pub enum CaptchaType {
    Unknown,
    Click,
    Slide,
}

/// The serving status of the health service.
#[derive(Clone, Copy, PartialEq, Eq, Debug, Structural)]
pub enum ServingStatus {
    Unknown,
    Serving,
    NotServing,
    ServiceUnknown,
}

/// The captcha type reported for a challenge that a probe found to be `t`.
pub open spec fn reported_type(t: VerifyType) -> CaptchaType {
    match t {
        VerifyType::Click => CaptchaType::Click,
        VerifyType::Slide => CaptchaType::Slide,
    }
}

/// The `c` and `s` parameters of a challenge, as a `GetCs` response carries
/// them.
#[derive(PartialEq, Eq, Debug)]
pub struct GeetestCs {
    pub s: String,
    pub c: Vec<u8>,
}

pub struct GeetestCsView {
    pub s: Seq<char>,
    pub c: Seq<u8>,
}

impl View for GeetestCs {
    type V = GeetestCsView;

    open spec fn view(&self) -> GeetestCsView {
        GeetestCsView { s: self.s@, c: self.c@ }
    }
}

/// The fresh challenge parameters: `c` and `s`, and the images that belong to
/// the challenge. A click challenge fills only `full_bg_url`; a slide
/// challenge fills all of them.
#[derive(PartialEq, Eq, Debug)]
pub struct NewCsArgs {
    pub c: Vec<u8>,
    pub s: String,
    pub new_challenge: String,
    pub full_bg_url: String,
    pub miss_bg_url: String,
    pub slider_url: String,
}

pub struct NewCsArgsView {
    pub c: Seq<u8>,
    pub s: Seq<char>,
    pub new_challenge: Seq<char>,
    pub full_bg_url: Seq<char>,
    pub miss_bg_url: Seq<char>,
    pub slider_url: Seq<char>,
}

impl View for NewCsArgs {
    type V = NewCsArgsView;

    open spec fn view(&self) -> NewCsArgsView {
        NewCsArgsView {
            c: self.c@,
            s: self.s@,
            new_challenge: self.new_challenge@,
            full_bg_url: self.full_bg_url@,
            miss_bg_url: self.miss_bg_url@,
            slider_url: self.slider_url@,
        }
    }
}

pub open spec fn args_view(args: Option<NewCsArgs>) -> Option<NewCsArgsView> {
    match args {
        Some(a) => Some(a@),
        None => None,
    }
}

pub open spec fn cs_view(cs: Option<GeetestCs>) -> Option<GeetestCsView> {
    match cs {
        Some(x) => Some(x@),
        None => None,
    }
}

/// Asks for a full solve of the challenge `gt`/`challenge`.
#[derive(PartialEq, Eq, Debug)]
pub struct SolveGeetestCaptchaRequest {
    pub gt: String,
    pub challenge: String,
}

/// Asks for the `c` and `s` parameters; an empty `w` means that none is
/// given.
#[derive(PartialEq, Eq, Debug)]
pub struct GetCsRequest {
    pub gt: String,
    pub challenge: String,
    pub w: String,
}

/// Asks for the type of the challenge; an empty `w` means that none is given.
#[derive(PartialEq, Eq, Debug)]
pub struct GetTypeRequest {
    pub gt: String,
    pub challenge: String,
    pub w: String,
}

/// Asks for fresh challenge parameters.
#[derive(PartialEq, Eq, Debug)]
pub struct GetNewCsArgsRequest {
    pub gt: String,
    pub challenge: String,
}

/// Asks for the key of a challenge, given its parameters.
#[derive(PartialEq, Eq, Debug)]
pub struct CalculateKeyRequest {
    pub gt: String,
    pub challenge: String,
    pub args: Option<NewCsArgs>,
}

/// Asks for the `w` answer made from a key and the challenge parameters.
#[derive(PartialEq, Eq, Debug)]
pub struct GenerateWRequest {
    pub gt: String,
    pub challenge: String,
    pub key: String,
    pub args: Option<NewCsArgs>,
}

/// Submits a `w` answer; an empty `w` means that none is given.
#[derive(PartialEq, Eq, Debug)]
pub struct VerifyRequest {
    pub gt: String,
    pub challenge: String,
    pub w: String,
}

/// The answer to a solve: the `validate` token, or the error.
#[derive(PartialEq, Eq, Debug)]
pub struct SolveGeetestCaptchaResponse {
    pub success: bool,
    pub validate: String,
    pub error: String,
}

#[derive(PartialEq, Eq, Debug)]
pub struct GetCsResponse {
    pub success: bool,
    pub cs: Option<GeetestCs>,
    pub error: String,
}

#[derive(PartialEq, Eq, Debug)]
pub struct GetTypeResponse {
    pub success: bool,
    pub captcha_type: CaptchaType,
    pub error: String,
}

#[derive(PartialEq, Eq, Debug)]
pub struct GetNewCsArgsResponse {
    pub success: bool,
    pub args: Option<NewCsArgs>,
    pub error: String,
}

#[derive(PartialEq, Eq, Debug)]
pub struct CalculateKeyResponse {
    pub success: bool,
    pub key: String,
    pub error: String,
}

#[derive(PartialEq, Eq, Debug)]
pub struct GenerateWResponse {
    pub success: bool,
    pub w: String,
    pub error: String,
}

#[derive(PartialEq, Eq, Debug)]
pub struct VerifyResponse {
    pub success: bool,
    pub validate: String,
    pub error: String,
}

#[derive(PartialEq, Eq, Debug)]
pub struct VersionResponse {
    pub git_commit: String,
    pub version: String,
}

#[derive(PartialEq, Eq, Debug)]
pub struct HealthCheckResponse {
    pub status: ServingStatus,
}

/// The view of the four responses that carry one text (`validate`, `key` or
/// `w`) beside `success` and `error`.
pub struct TextReplyView {
    pub success: bool,
    pub text: Seq<char>,
    pub error: Seq<char>,
}

pub struct CsReplyView {
    pub success: bool,
    pub cs: Option<GeetestCsView>,
    pub error: Seq<char>,
}

pub struct TypeReplyView {
    pub success: bool,
    pub captcha_type: CaptchaType,
    pub error: Seq<char>,
}

pub struct ArgsReplyView {
    pub success: bool,
    pub args: Option<NewCsArgsView>,
    pub error: Seq<char>,
}

impl View for SolveGeetestCaptchaResponse {
    type V = TextReplyView;

    open spec fn view(&self) -> TextReplyView {
        TextReplyView { success: self.success, text: self.validate@, error: self.error@ }
    }
}

impl View for CalculateKeyResponse {
    type V = TextReplyView;

    open spec fn view(&self) -> TextReplyView {
        TextReplyView { success: self.success, text: self.key@, error: self.error@ }
    }
}

impl View for GenerateWResponse {
    type V = TextReplyView;

    open spec fn view(&self) -> TextReplyView {
        TextReplyView { success: self.success, text: self.w@, error: self.error@ }
    }
}

impl View for VerifyResponse {
    type V = TextReplyView;

    open spec fn view(&self) -> TextReplyView {
        TextReplyView { success: self.success, text: self.validate@, error: self.error@ }
    }
}

impl View for GetCsResponse {
    type V = CsReplyView;

    open spec fn view(&self) -> CsReplyView {
        CsReplyView { success: self.success, cs: cs_view(self.cs), error: self.error@ }
    }
}

impl View for GetTypeResponse {
    type V = TypeReplyView;

    open spec fn view(&self) -> TypeReplyView {
        TypeReplyView {
            success: self.success,
            captcha_type: self.captcha_type,
            error: self.error@,
        }
    }
}

impl View for GetNewCsArgsResponse {
    type V = ArgsReplyView;

    open spec fn view(&self) -> ArgsReplyView {
        ArgsReplyView { success: self.success, args: args_view(self.args), error: self.error@ }
    }
}

/// A successful text response: the text, and an empty error.
pub open spec fn text_ok(text: Seq<char>) -> TextReplyView {
    TextReplyView { success: true, text, error: Seq::empty() }
}

/// A failed text response: an empty text, and the error.
pub open spec fn text_failed(error: Seq<char>) -> TextReplyView {
    TextReplyView { success: false, text: Seq::empty(), error }
}

} // verus!
