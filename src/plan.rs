//! Checking a run request in full before anything is done, and the errors a
//! run can end in.

use vstd::prelude::*;
use crate::clock::{clock_text, prepare_clock, rfc3339_parse};
use crate::entropy::{entropy_error, hex_bytes, is_hex_text, prepare_entropy, EntropyError, EntropyPayload};
use crate::request::{language_of, parse_language, Language, RunRequest};

verus! {

/// Every way a run can fail. The first six are faults of the request; the
/// rest arise while the host is being changed or the code is being run.
#[derive(Clone, Debug)]
pub enum RunError {
    /// The entropy is not an even number of hex digits.
    Decode,
    /// The entropy decodes to no bytes.
    EmptyEntropy,
    /// The entropy is too long for its bit count to be expressed.
    EntropyTooLarge,
    /// The timestamp is not valid RFC 3339.
    InvalidDatetime,
    /// The request names no files.
    NoFiles,
    /// The language is not one that can be run.
    UnsupportedLanguage,
    /// The entropy device could not be opened or refused a control call; the
    /// OS error code.
    Device(i32),
    /// The date facility could not be launched.
    ClockLaunch,
    /// The date facility ran and reported failure.
    ClockRejected,
    /// The workspace directory could not be created.
    TempDir,
    /// A file could not be written; its name.
    FileWrite(String),
    /// The entrypoint could not be read back.
    FileRead,
    /// The interpreter could not be started.
    Process,
    /// The sibling service could not be reached.
    Upstream,
    /// The sibling service answered with something that is not JSON.
    UpstreamJson,
}

impl RunError {
    pub open spec fn is_client_error(&self) -> bool {
        match self {
            RunError::Decode | RunError::EmptyEntropy | RunError::EntropyTooLarge
            | RunError::InvalidDatetime | RunError::NoFiles | RunError::UnsupportedLanguage => true,
            _ => false,
        }
    }

    pub open spec fn status_spec(&self) -> u16 {
        if self.is_client_error() {
            400
        } else {
            500
        }
    }

    pub open spec fn text(&self) -> Seq<char> {
        match self {
            RunError::Decode => "Hex decode error"@,
            RunError::EmptyEntropy => "Empty hex string provided"@,
            RunError::EntropyTooLarge => "Entropy buffer too large"@,
            RunError::InvalidDatetime => "Invalid datetime format"@,
            RunError::NoFiles => "No files provided"@,
            RunError::UnsupportedLanguage => "Unsupported language"@,
            RunError::Device(_) => "Failed to reset entropy"@,
            RunError::ClockLaunch => "Failed to launch the date tool"@,
            RunError::ClockRejected => "Failed to update clock"@,
            RunError::TempDir => "Temp dir error"@,
            RunError::FileWrite(_) => "File write error"@,
            RunError::FileRead => "Read file error"@,
            RunError::Process => "Command execution error"@,
            RunError::Upstream => "Failed to reach node-runner"@,
            RunError::UpstreamJson => "Invalid JSON from node-runner"@,
        }
    }

    /// The HTTP status: 400 for a fault of the request, 500 otherwise.
    pub fn status_code(&self) -> (r: u16)
        ensures
            r == self.status_spec(),
    {
        match self {
            RunError::Decode | RunError::EmptyEntropy | RunError::EntropyTooLarge
            | RunError::InvalidDatetime | RunError::NoFiles | RunError::UnsupportedLanguage => 400,
            _ => 500,
        }
    }

    /// A human-readable description of the error's kind.
    pub fn message(&self) -> (r: String)
        ensures
            r@ == self.text(),
    {
        match self {
            RunError::Decode => String::from_str("Hex decode error"),
            RunError::EmptyEntropy => String::from_str("Empty hex string provided"),
            RunError::EntropyTooLarge => String::from_str("Entropy buffer too large"),
            RunError::InvalidDatetime => String::from_str("Invalid datetime format"),
            RunError::NoFiles => String::from_str("No files provided"),
            RunError::UnsupportedLanguage => String::from_str("Unsupported language"),
            RunError::Device(_) => String::from_str("Failed to reset entropy"),
            RunError::ClockLaunch => String::from_str("Failed to launch the date tool"),
            RunError::ClockRejected => String::from_str("Failed to update clock"),
            RunError::TempDir => String::from_str("Temp dir error"),
            RunError::FileWrite(_) => String::from_str("File write error"),
            RunError::FileRead => String::from_str("Read file error"),
            RunError::Process => String::from_str("Command execution error"),
            RunError::Upstream => String::from_str("Failed to reach node-runner"),
            RunError::UpstreamJson => String::from_str("Invalid JSON from node-runner"),
        }
    }
}

pub open spec fn from_entropy_error(e: EntropyError) -> RunError {
    match e {
        EntropyError::Decode => RunError::Decode,
        EntropyError::Empty => RunError::EmptyEntropy,
        EntropyError::TooLarge => RunError::EntropyTooLarge,
    }
}

/// The run error for an entropy error.
pub fn entropy_run_error(e: EntropyError) -> (r: RunError)
    ensures
        r == from_entropy_error(e),
{
    match e {
        EntropyError::Decode => RunError::Decode,
        EntropyError::Empty => RunError::EmptyEntropy,
        EntropyError::TooLarge => RunError::EntropyTooLarge,
    }
}

/// The first fault of a request, checked in this order: entropy, timestamp,
/// files, language.
pub open spec fn plan_error(req: RunRequest) -> Option<RunError> {
    if req.entropy is Some && entropy_error(req.entropy->Some_0@) is Some {
        Some(from_entropy_error(entropy_error(req.entropy->Some_0@)->Some_0))
    } else if req.datetime is Some && rfc3339_parse(req.datetime->Some_0@) is None {
        Some(RunError::InvalidDatetime)
    } else if req.payload.files@.len() == 0 {
        Some(RunError::NoFiles)
    } else if language_of(req.payload.language@) is None {
        Some(RunError::UnsupportedLanguage)
    } else {
        None
    }
}

/// What a valid request asks for, in the order it is carried out: entropy,
/// then the clock, then the workspace and the run.
pub struct RunPlan {
    pub entropy: Option<EntropyPayload>,
    pub clock: Option<String>,
    pub language: Language,
    pub entrypoint: String,
}

/// Checks a request in full and, if nothing is wrong with it, says what is to
/// be done. Nothing is changed on the host: a rejected request leaves the
/// entropy pool, the clock and the file system as they were.
pub fn plan_run(req: &RunRequest) -> (r: Result<RunPlan, RunError>)
    ensures
        r is Err <==> plan_error(*req) is Some,
        r matches Err(e) ==> plan_error(*req) == Some(e),
        r matches Ok(p) ==> {
            &&& p.language == language_of(req.payload.language@)->Some_0
            &&& p.entrypoint@ == req.payload.files@[0].name@
            &&& (p.entropy is Some <==> req.entropy is Some)
            &&& (p.entropy matches Some(e) ==> e.wf() && e.buf@ == hex_bytes(
                req.entropy->Some_0@,
            ))
            &&& (p.clock is Some <==> req.datetime is Some)
            &&& (p.clock matches Some(c) ==> c@ == clock_text(
                rfc3339_parse(req.datetime->Some_0@)->Some_0,
            ))
        },
{
    let entropy = match &req.entropy {
        Some(h) => match prepare_entropy(h.as_str()) {
            Ok(p) => Some(p),
            Err(e) => {
                return Err(entropy_run_error(e));
            },
        },
        None => None,
    };
    let clock = match &req.datetime {
        Some(d) => match prepare_clock(d.as_str()) {
            Ok(c) => Some(c),
            Err(_) => {
                return Err(RunError::InvalidDatetime);
            },
        },
        None => None,
    };
    let entrypoint = match req.payload.entrypoint() {
        Some(n) => n,
        None => {
            return Err(RunError::NoFiles);
        },
    };
    let language = match parse_language(&req.payload.language) {
        Some(l) => l,
        None => {
            return Err(RunError::UnsupportedLanguage);
        },
    };
    Ok(RunPlan { entropy, clock, language, entrypoint })
}

/// Malformed hex entropy is always rejected as a decode error, so no
/// payload ever reaches the device.
pub proof fn lemma_bad_hex_rejected(req: RunRequest)
    requires
        req.entropy matches Some(h) && !is_hex_text(h@),
    ensures
        plan_error(req) == Some(RunError::Decode),
{
}

/// A timestamp that is not RFC 3339 always gets a request fault, found
/// before any change to the host.
pub proof fn lemma_bad_datetime_rejected(req: RunRequest)
    requires
        req.datetime matches Some(d) && rfc3339_parse(d@) is None,
    ensures
        plan_error(req) matches Some(e) && e.is_client_error(),
        req.entropy is None || entropy_error(req.entropy->Some_0@) is None ==> plan_error(req)
            == Some(RunError::InvalidDatetime),
{
}

/// A request without files is always a request fault, and is `NoFiles` once
/// its entropy and timestamp are valid; nothing is staged or run.
pub proof fn lemma_no_files_rejected(req: RunRequest)
    requires
        req.payload.files@.len() == 0,
    ensures
        plan_error(req) matches Some(e) && e.is_client_error(),
        (req.entropy is None || entropy_error(req.entropy->Some_0@) is None) && (
        req.datetime is None || rfc3339_parse(req.datetime->Some_0@) is Some) ==> plan_error(req)
            == Some(RunError::NoFiles),
{
}

/// A language other than python or node is always a request fault (status
/// 400), and is `UnsupportedLanguage` once the rest is valid; no workspace is
/// made for it.
pub proof fn lemma_unsupported_language_rejected(req: RunRequest)
    requires
        language_of(req.payload.language@) is None,
    ensures
        plan_error(req) matches Some(e) && e.is_client_error() && e.status_spec() == 400,
        (req.entropy is None || entropy_error(req.entropy->Some_0@) is None) && (
        req.datetime is None || rfc3339_parse(req.datetime->Some_0@) is Some)
            && req.payload.files@.len() > 0 ==> plan_error(req) == Some(
            RunError::UnsupportedLanguage,
        ),
{
}

} // verus!
