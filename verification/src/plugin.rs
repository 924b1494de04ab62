//! How the plugin presents itself to its host: the handshake line that it
//! prints once it listens, and the text of a failure of the worker that runs
//! a request.
use vstd::prelude::*;

verus! {

/// The handshake line: core protocol version, application protocol version,
/// network type, address and protocol, separated by `|`.
pub open spec fn handshake(addr: Seq<char>) -> Seq<char> {
    "1|1|tcp|"@ + addr + "|grpc"@
}

/// The handshake line for a server that listens on `addr`.
pub fn handshake_line(addr: &str) -> (line: String)
    ensures
        line@ == handshake(addr@),
        line@ == "1|1|tcp|"@ + addr@ + "|grpc"@,
{
    let mut line = String::from_str("1|1|tcp|");
    line.append(addr);
    line.append("|grpc");
    line
}

/// The notice, written to standard error, that names the address the
/// plugin listens on.
pub open spec fn listening_notice(addr: Seq<char>) -> Seq<char> {
    "captcha-plugin: listening on "@ + addr
}

pub fn listening_line(addr: &str) -> (line: String)
    ensures
        line@ == listening_notice(addr@),
        line@ == "captcha-plugin: listening on "@ + addr@,
{
    let mut line = String::from_str("captcha-plugin: listening on ");
    line.append(addr);
    line
}

/// The text of the internal error with which a request fails when the
/// worker that runs its job could not be joined.
pub open spec fn worker_failure(detail: Seq<char>) -> Seq<char> {
    "spawn_blocking failed: "@ + detail
}

pub fn worker_failure_message(detail: &str) -> (message: String)
    ensures
        message@ == worker_failure(detail@),
        message@ == "spawn_blocking failed: "@ + detail@,
{
    let mut message = String::from_str("spawn_blocking failed: ");
    message.append(detail);
    message
}

} // verus!
