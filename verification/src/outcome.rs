//! Outcome classification and response building. The execution controller's
//! result is a tagged outcome; the response builder maps each outcome to the
//! normalized payload the caller receives. A non-zero exit status is not a
//! failure by itself: only non-empty captured stderr populates the error
//! field of a completed run.

use vstd::prelude::*;
use vstd::utf8::{valid_utf8, decode_utf8};

verus! {

/// The classified result of running an artifact.
pub enum ExecutionOutcome {
    /// The process exited within the deadline (with any exit status); the
    /// captured bytes of its standard output and standard error.
    Completed { stdout: Vec<u8>, stderr: Vec<u8> },
    /// Spawning or waiting on the process failed at the operating-system
    /// level (for instance, the interpreter binary is missing).
    ProcessError,
    /// The deadline elapsed before the process exited.
    TimedOut,
}

/// The mathematical counterpart of an outcome.
pub enum OutcomeV {
    Completed { stdout: Seq<u8>, stderr: Seq<u8> },
    ProcessError,
    TimedOut,
}

impl View for ExecutionOutcome {
    type V = OutcomeV;

    open spec fn view(&self) -> OutcomeV {
        match self {
            ExecutionOutcome::Completed { stdout, stderr } => OutcomeV::Completed {
                stdout: stdout@,
                stderr: stderr@,
            },
            ExecutionOutcome::ProcessError => OutcomeV::ProcessError,
            ExecutionOutcome::TimedOut => OutcomeV::TimedOut,
        }
    }
}

/// The payload a request is answered with.
pub struct ExecutionResponse {
    pub output: String,
    pub error: Option<String>,
}

/// The mathematical counterpart of a response.
pub struct ResponseV {
    pub output: Seq<char>,
    pub error: Option<Seq<char>>,
}

impl View for ExecutionResponse {
    type V = ResponseV;

    open spec fn view(&self) -> ResponseV {
        ResponseV {
            output: self.output@,
            error: match self.error {
                Option::Some(e) => Option::Some(e@),
                Option::None => Option::None,
            },
        }
    }
}

/// The text that `String::from_utf8_lossy` decodes a byte sequence to: the
/// bytes' UTF-8 reading, with each invalid sequence replaced. A function of
/// the bytes alone.
pub uninterp spec fn lossy_decoded(bytes: Seq<u8>) -> Seq<char>;

/// Relies on `String::from_utf8_lossy`: the decoded text depends on the bytes
/// alone, and valid UTF-8 input is decoded exactly.
#[verifier::external_body]
fn decode_lossy(bytes: &[u8]) -> (r: String)
    ensures
        r@ == lossy_decoded(bytes@),
        valid_utf8(bytes@) ==> r@ == decode_utf8(bytes@),
{
    String::from_utf8_lossy(bytes).into_owned()
}

/// The response owed to an outcome:
/// a completed run answers with its decoded stdout, and with its decoded
/// stderr as the error exactly when stderr is non-empty; a spawn failure and
/// a timeout each answer with an empty output and their fixed message.
pub open spec fn response_for(outcome: OutcomeV) -> ResponseV {
    match outcome {
        OutcomeV::Completed { stdout, stderr } => ResponseV {
            output: lossy_decoded(stdout),
            error: if stderr.len() == 0 {
                Option::None
            } else {
                Option::Some(lossy_decoded(stderr))
            },
        },
        OutcomeV::ProcessError => ResponseV {
            output: Seq::empty(),
            error: Option::Some("Failed to execute command"@),
        },
        OutcomeV::TimedOut => ResponseV {
            output: Seq::empty(),
            error: Option::Some("Execution timed out"@),
        },
    }
}

/// The fixed payload for a request whose credential is invalid.
pub open spec fn auth_failure_response_v() -> ResponseV {
    ResponseV {
        output: Seq::empty(),
        error: Option::Some("Invalid authentication credentials"@),
    }
}

/// The fixed payload for a request whose artifact could not be written.
pub open spec fn write_failure_response_v() -> ResponseV {
    ResponseV {
        output: Seq::empty(),
        error: Option::Some("Failed to write temp file"@),
    }
}

impl ExecutionResponse {
    /// The fixed response for an invalid credential.
    pub fn auth_failure() -> (r: ExecutionResponse)
        ensures
            r@ == auth_failure_response_v(),
    {
        ExecutionResponse {
            output: String::new(),
            error: Some("Invalid authentication credentials".to_owned()),
        }
    }

    /// The fixed response for a failed artifact write.
    pub fn write_failure() -> (r: ExecutionResponse)
        ensures
            r@ == write_failure_response_v(),
    {
        ExecutionResponse {
            output: String::new(),
            error: Some("Failed to write temp file".to_owned()),
        }
    }

    /// An equal copy of the response.
    pub fn duplicate(&self) -> (r: ExecutionResponse)
        ensures
            r@ == self@,
    {
        let output = self.output.clone();
        let error = match &self.error {
            Some(e) => Some(e.clone()),
            None => None,
        };
        ExecutionResponse { output, error }
    }
}

/// Map a classified outcome to the response payload, per the fixed mapping.
/// When the outcome's captured bytes are valid UTF-8 the decoding is exact.
pub fn build_response(outcome: &ExecutionOutcome) -> (r: ExecutionResponse)
    ensures
        r@ == response_for(outcome@),
        outcome@ matches OutcomeV::Completed { stdout, .. } ==> (valid_utf8(stdout) ==> r@.output
            == decode_utf8(stdout)),
{
    match outcome {
        ExecutionOutcome::Completed { stdout, stderr } => {
            let output = decode_lossy(stdout.as_slice());
            let error = if stderr.len() == 0 {
                None
            } else {
                Some(decode_lossy(stderr.as_slice()))
            };
            ExecutionResponse { output, error }
        },
        ExecutionOutcome::ProcessError => ExecutionResponse {
            output: String::new(),
            error: Some("Failed to execute command".to_owned()),
        },
        ExecutionOutcome::TimedOut => ExecutionResponse {
            output: String::new(),
            error: Some("Execution timed out".to_owned()),
        },
    }
}

} // verus!
