//! Decision logic of the command surface the UI layer calls.
//!
//! Each handler that has a side effect (printing, writing the output file,
//! exiting the process) is split into a verified decision and the effect
//! itself: the functions here say exactly what is to be printed, written or
//! returned, and the surrounding binary carries it out.

use crate::session::SessionState;
use vstd::prelude::*;

verus! {

/// The line relayed to standard output for a frontend log message.
pub fn format_frontend_log(message: &str) -> (r: String)
    ensures
        r@ == "[FRONTEND] "@ + message@,
{
    let mut s = String::from_str("[FRONTEND] ");
    s.append(message);
    s
}

/// The line relayed to the error stream for a frontend error message.
pub fn format_frontend_error(message: &str) -> (r: String)
    ensures
        r@ == "[FRONTEND ERROR] "@ + message@,
{
    let mut s = String::from_str("[FRONTEND ERROR] ");
    s.append(message);
    s
}

/// What a request to close the application is to do.
pub enum CloseRequest {
    /// The session was never initialized: the handler returns this message
    /// as an error and the process keeps running.
    NotInitialized { message: String },
    /// Nothing to persist: the process exits with the given code.
    Exit { code: i32 },
    /// Diagram data is to be written to the output file first; what follows
    /// depends on whether the write succeeds.
    Write { path: String, content: String },
}

/// What follows the attempt to write the output file.
pub enum WriteFollowUp {
    /// The write succeeded: the notice goes to standard output and the
    /// process exits with the given code.
    Exit { code: i32, notice: String },
    /// The write failed: the message goes to the error stream together with
    /// the content that failed to write, the handler returns the message as
    /// an error, and the process keeps running.
    Fail { message: String },
}

/// What closing owes a given session state and diagram data: an error when
/// the session was never initialized, a write of `data` to the configured
/// output file when both are present, a plain exit with code 0 otherwise.
pub open spec fn close_request_of(
    state: SessionState,
    data: Option<Seq<char>>,
    r: CloseRequest,
) -> bool {
    if !state.is_init() {
        r matches CloseRequest::NotInitialized { message } && message@
            == "CLI args not initialized"@
    } else {
        match (state.stored().output_file, data) {
            (Some(path), Some(content)) => r matches CloseRequest::Write {
                path: p,
                content: c,
            } && p@ == path && c@ == content,
            _ => r matches CloseRequest::Exit { code } && code == 0,
        }
    }
}

/// Decides what a `close_app` call is to do, before any side effect.
pub fn close_app_plan(state: &SessionState, data: &Option<String>) -> (r: CloseRequest)
    ensures
        close_request_of(*state, data.deep_view(), r),
{
    match state.get() {
        None => CloseRequest::NotInitialized {
            message: String::from_str("CLI args not initialized"),
        },
        Some(config) => {
            match (&config.output_file, data) {
                (Some(path), Some(content)) => CloseRequest::Write {
                    path: path.clone(),
                    content: content.clone(),
                },
                _ => CloseRequest::Exit { code: 0 },
            }
        },
    }
}

/// Decides what follows the write of the output file: on success a notice
/// naming the path and an exit with code 0, on failure an error message
/// naming the path and the failure, with no exit.
pub fn after_write(path: &str, write_error: &Option<String>) -> (r: WriteFollowUp)
    ensures
        write_error is None ==> (r matches WriteFollowUp::Exit { code, notice } && code == 0
            && notice@ == "Successfully wrote output to: "@ + path@),
        write_error matches Some(e) ==> (r matches WriteFollowUp::Fail { message } && message@
            == "Failed to write to '"@ + path@ + "': "@ + e@),
{
    match write_error {
        None => {
            let mut notice = String::from_str("Successfully wrote output to: ");
            notice.append(path);
            WriteFollowUp::Exit { code: 0, notice }
        },
        Some(e) => {
            let mut message = String::from_str("Failed to write to '");
            message.append(path);
            message.append("': ");
            message.append(e.as_str());
            WriteFollowUp::Fail { message }
        },
    }
}

/// Decides what a `close_app_no_output` call is to do: whatever the session
/// holds, it succeeds and the process exits with code 0.
pub fn close_app_no_output_plan() -> (r: CloseRequest)
    ensures
        r matches CloseRequest::Exit { code } && code == 0,
{
    CloseRequest::Exit { code: 0 }
}

} // verus!
