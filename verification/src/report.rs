//! Formatting of every status and error line the subcommand prints.
//!
//! Setup failures (client construction, ABI file read, key loading, address
//! parsing) propagate as descriptive error strings and abort the call.
//! Call-execution failures and timeouts are only printed: whatever the
//! worker produced, the invocation as a whole still reports success.

use vstd::prelude::*;

verus! {

/// How a dispatched call ended, once polling is over.
#[derive(Debug, PartialEq, Eq)]
pub enum CallConclusion {
    /// The worker reported success; `result_json` is the rendered JSON
    /// result, or absent when that result was null.
    Success { result_json: Option<String> },
    /// The worker reported failure, with its message.
    Failure { message: String },
    /// The polling budget was spent and the worker was abandoned.
    TimedOut,
}

/// The conclusion drawn from a worker result that was collected in time:
/// success with the worker's rendered JSON result (absent when that result
/// was null), or failure with the worker's message.
pub fn conclusion_of_collected(result: Result<Option<String>, String>) -> (c: CallConclusion)
    ensures
        (result matches Ok(j) ==> c == (CallConclusion::Success { result_json: j })),
        (result matches Err(m) ==> c == (CallConclusion::Failure { message: m })),
{
    match result {
        Ok(result_json) => CallConclusion::Success { result_json },
        Err(message) => CallConclusion::Failure { message },
    }
}

/// The lines printed for a conclusion, and the value the subcommand returns
/// for it. Execution-tier failures are printed, never propagated: the
/// returned value is success whatever the conclusion.
pub fn conclude_call(c: &CallConclusion) -> (r: (Vec<String>, Result<(), String>))
    ensures
        r.1 is Ok,
        (c matches CallConclusion::Success { result_json: None } ==> {
            &&& r.0@.len() == 1
            &&& r.0@[0]@ == "Succeeded."@
        }),
        (c matches CallConclusion::Success { result_json: Some(j) } ==> {
            &&& r.0@.len() == 2
            &&& r.0@[0]@ == "Succeeded."@
            &&& r.0@[1]@ == "Result = "@ + j@
        }),
        (c matches CallConclusion::Failure { message } ==> {
            &&& r.0@.len() == 1
            &&& r.0@[0]@ == "Error: "@ + message@
        }),
        (c is TimedOut ==> {
            &&& r.0@.len() == 1
            &&& r.0@[0]@ == "Error: run out of time while waiting for a call result"@
        }),
{
    let mut lines: Vec<String> = Vec::new();
    match c {
        CallConclusion::Success { result_json } => {
            lines.push("Succeeded.".to_owned());
            match result_json {
                Some(j) => {
                    lines.push("Result = ".to_owned().concat(j.as_str()));
                },
                None => {},
            }
        },
        CallConclusion::Failure { message } => {
            lines.push("Error: ".to_owned().concat(message.as_str()));
        },
        CallConclusion::TimedOut => {
            lines.push("Error: run out of time while waiting for a call result".to_owned());
        },
    }
    (lines, Ok(()))
}

/// The progress line printed as the call is dispatched: one wording for a
/// local read-only run, another for a committed transaction.
pub fn progress_line(local: bool) -> (line: String)
    ensures
        local ==> line@ == "Running get-method..."@,
        !local ==> line@ == "Calling method..."@,
{
    if local {
        "Running get-method...".to_owned()
    } else {
        "Calling method...".to_owned()
    }
}

/// The propagated message when the client cannot be constructed.
pub fn client_setup_error(detail: &str) -> (msg: String)
    ensures
        msg@ == "failed to create tonclient: "@ + detail@,
{
    "failed to create tonclient: ".to_owned().concat(detail)
}

/// The propagated message when the ABI definition file cannot be read.
pub fn abi_read_error(detail: &str) -> (msg: String)
    ensures
        msg@ == "failed to read ABI file: "@ + detail@,
{
    "failed to read ABI file: ".to_owned().concat(detail)
}

/// The propagated message when the target address does not parse.
pub fn address_parse_error(detail: &str) -> (msg: String)
    ensures
        msg@ == "failed to parse address: "@ + detail@,
{
    "failed to parse address: ".to_owned().concat(detail)
}

/// The worker's message when the remote call itself fails: one wording for
/// a local run, another for a committed transaction.
pub fn run_failure_message(local: bool, detail: &str) -> (msg: String)
    ensures
        local ==> msg@ == "run failed: "@ + detail@,
        !local ==> msg@ == "transaction failed: "@ + detail@,
{
    if local {
        "run failed: ".to_owned().concat(detail)
    } else {
        "transaction failed: ".to_owned().concat(detail)
    }
}

} // verus!
