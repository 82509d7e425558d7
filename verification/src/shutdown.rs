//! Shutdown notification: what to do when the application window is
//! asked to close. Exactly one HTTP GET request to a fixed local URL is
//! issued per close event; its outcome is only logged, and the close
//! proceeds whatever that outcome was.

use vstd::prelude::*;

verus! {

/// The fixed local endpoint that the shutdown request is sent to.
pub fn shutdown_url() -> (r: String)
    ensures
        r@ == "http://127.0.0.1:5000/api/shutdown"@,
{
    String::from_str("http://127.0.0.1:5000/api/shutdown")
}

/// The requests to issue for one window-close event: exactly one GET, to
/// the fixed shutdown URL.
pub fn requests_for_close_event() -> (r: Vec<String>)
    ensures
        r@.len() == 1,
        r@[0]@ == "http://127.0.0.1:5000/api/shutdown"@,
{
    let mut v: Vec<String> = Vec::new();
    v.push(shutdown_url());
    v
}

/// How the shutdown request ended: the request resolved, or it failed
/// with a network error.
#[derive(Clone, Copy, PartialEq, Eq, Structural, Debug)]
pub enum RequestOutcome {
    Resolved,
    Failed,
}

/// The diagnostic line logged for a shutdown request's outcome. The
/// wording is swapped with respect to the outcome — a failed request
/// logs the `success` line and a resolved one the `failed` line; callers
/// that match on the log text rely on these exact strings.
pub fn shutdown_log_line(outcome: RequestOutcome) -> (r: String)
    ensures
        outcome is Failed ==> r@ == "Flask server shutdown request success."@,
        outcome is Resolved ==> r@ == "Flask server shutdown request failed."@,
{
    match outcome {
        RequestOutcome::Failed => String::from_str("Flask server shutdown request success."),
        RequestOutcome::Resolved => String::from_str("Flask server shutdown request failed."),
    }
}

/// Whether the close event may proceed after the shutdown request: it
/// always may, whatever the request's outcome was. The notification is
/// best-effort; the application closes regardless.
pub fn close_proceeds(outcome: RequestOutcome) -> (r: bool)
    ensures
        r,
{
    let _ = outcome;
    true
}

} // verus!
