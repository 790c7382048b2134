//! What a run hands back: the captured output of a local run, and the
//! verdict on the date facility's exit.

use vstd::prelude::*;
use crate::plan::RunError;

verus! {

/// The text std makes of bytes, with each invalid UTF-8 sequence replaced by
/// U+FFFD.
pub uninterp spec fn utf8_lossy(b: Seq<u8>) -> Seq<char>;

/// Relies on `String::from_utf8_lossy`: the text depends on the bytes alone,
/// and no bytes give no text.
#[verifier::external_body]
fn lossy_text(b: &[u8]) -> (r: String)
    ensures
        r@ == utf8_lossy(b@),
        b@.len() == 0 ==> r@.len() == 0,
{
    String::from_utf8_lossy(b).into_owned()
}

/// Standard output, standard error and exit code of a local run; no exit code
/// when the process was ended by a signal.
pub struct ExecutionResult {
    pub stdout: String,
    pub stderr: String,
    pub exit_code: Option<i32>,
}

impl ExecutionResult {
    /// Builds the result from captured bytes, decoding both streams lossily.
    pub fn from_output(stdout: &[u8], stderr: &[u8], exit_code: Option<i32>) -> (r:
        ExecutionResult)
        ensures
            r.stdout@ == utf8_lossy(stdout@),
            r.stderr@ == utf8_lossy(stderr@),
            r.exit_code == exit_code,
    {
        ExecutionResult { stdout: lossy_text(stdout), stderr: lossy_text(stderr), exit_code }
    }
}

/// The verdict on setting the clock: a tool that could not be launched and a
/// tool that ran and failed are both failures, told apart.
pub fn clock_outcome(launched: bool, succeeded: bool) -> (r: Result<(), RunError>)
    ensures
        !launched ==> r matches Err(RunError::ClockLaunch),
        launched && !succeeded ==> r matches Err(RunError::ClockRejected),
        launched && succeeded ==> r is Ok,
{
    if !launched {
        Err(RunError::ClockLaunch)
    } else if !succeeded {
        Err(RunError::ClockRejected)
    } else {
        Ok(())
    }
}

/// The verdict on a control call of the entropy device: a negative return
/// is a device error carrying the OS error code.
pub fn control_call_outcome(ret: i32, os_error: i32) -> (r: Result<(), RunError>)
    ensures
        ret < 0 ==> (r matches Err(RunError::Device(c)) && c == os_error),
        ret >= 0 ==> r is Ok,
{
    if ret < 0 {
        Err(RunError::Device(os_error))
    } else {
        Ok(())
    }
}

} // verus!
