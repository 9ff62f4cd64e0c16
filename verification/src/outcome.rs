//! How one emission ended.

use vstd::prelude::*;

verus! {

/// The result of one emission.
#[derive(Debug, PartialEq, Eq)]
pub enum SessionOutcome {
    /// The backend emitted the whole artifact and the destination took all of it.
    Success,
    /// The destination refused a seek, a write or a flush, or the backend
    /// failed without saying why.
    IoFailure,
    /// The backend refused to produce the artifact; the string is its diagnostic.
    BackendFailure(String),
    /// The destination cannot serve the path asked for, which was found out
    /// before the backend was started; the string is the destination's own
    /// description of the failure.
    ProtocolMisuse(String),
}

/// The outcome of a session whose backend returned `status`, with the
/// diagnostic it left, if any, and `failed` telling whether a callback failed.
///
/// A backend that reports failure decides the outcome. One that reports
/// success is believed only where no callback failed: bytes that did not all
/// reach the destination are never a success.
pub open spec fn settle(failed: bool, status: i32, diagnostic: Option<String>) -> SessionOutcome {
    if status != 0 {
        match diagnostic {
            Some(message) => SessionOutcome::BackendFailure(message),
            None => SessionOutcome::IoFailure,
        }
    } else if failed {
        SessionOutcome::IoFailure
    } else {
        SessionOutcome::Success
    }
}

/// The text that `String::from_utf8_lossy` makes of `bytes`: the UTF-8 they
/// hold, with a replacement character for what is not UTF-8.
pub uninterp spec fn lossy_text(bytes: Seq<u8>) -> Seq<char>;

/// Copies `bytes` into an owned string with `String::from_utf8_lossy`. The
/// text is whatever that function makes of the bytes; nothing is claimed of
/// it but that it depends on the bytes alone.
#[verifier::external_body]
fn copy_lossy(bytes: &[u8]) -> (text: String)
    ensures
        text@ == lossy_text(bytes@),
{
    String::from_utf8_lossy(bytes).into_owned()
}

/// The outcome of a forward-only session whose backend returned `status`.
/// This path has no diagnostic: every failure is an [`SessionOutcome::IoFailure`].
pub open spec fn settle_forward(failed: bool, status: i32) -> SessionOutcome {
    if status != 0 || failed {
        SessionOutcome::IoFailure
    } else {
        SessionOutcome::Success
    }
}

impl SessionOutcome {
    /// The outcome of an emission whose backend returned `status`, with the
    /// diagnostic it left, if any; `failed` tells whether a callback failed.
    /// An emission without callbacks passes `false`.
    pub fn from_backend(failed: bool, status: i32, diagnostic: Option<String>) -> (outcome:
        SessionOutcome)
        ensures
            outcome == settle(failed, status, diagnostic),
    {
        if status != 0 {
            match diagnostic {
                Some(message) => SessionOutcome::BackendFailure(message),
                None => SessionOutcome::IoFailure,
            }
        } else if failed {
            SessionOutcome::IoFailure
        } else {
            SessionOutcome::Success
        }
    }

    /// The outcome of an emission whose backend returned `status` and left
    /// the bytes of a diagnostic, if any, in memory of its own.
    ///
    /// The bytes are read only where the backend reports failure, and are
    /// then copied: the outcome owns its message, so the caller is free to
    /// release the backend's memory as soon as this returns.
    pub fn from_raw(failed: bool, status: i32, diagnostic: Option<&[u8]>) -> (outcome:
        SessionOutcome)
        ensures
            status == 0 || diagnostic is None ==> outcome == settle(failed, status, None),
            status != 0 && diagnostic is Some ==> outcome is BackendFailure
                && outcome->BackendFailure_0@ == lossy_text(diagnostic->0@),
            outcome is Success <==> status == 0 && !failed,
    {
        let copied = match diagnostic {
            Some(bytes) => if status != 0 {
                Some(copy_lossy(bytes))
            } else {
                None
            },
            None => None,
        };
        SessionOutcome::from_backend(failed, status, copied)
    }

    /// The outcome of writing bitcode to a file, whose writer returns 1
    /// where it failed and leaves no diagnostic.
    pub fn from_bitcode_writer(status: i32) -> (outcome: SessionOutcome)
        ensures
            status != 1 ==> outcome is Success,
            status == 1 ==> outcome is BackendFailure && outcome->BackendFailure_0@
                == "failed to write bitcode"@,
    {
        if status == 1 {
            SessionOutcome::BackendFailure("failed to write bitcode".to_owned())
        } else {
            SessionOutcome::Success
        }
    }

    /// Whether the emission succeeded.
    pub fn is_success(&self) -> (b: bool)
        ensures
            b == (self is Success),
    {
        match self {
            SessionOutcome::Success => true,
            _ => false,
        }
    }

    /// The outcome as a result whose error is a message for the caller: the
    /// backend's diagnostic, the destination's description, or a generic
    /// sentence where there is neither.
    pub fn into_result(self) -> (r: Result<(), String>)
        ensures
            self is Success <==> r is Ok,
            self is IoFailure ==> r->Err_0@ == "error while writing to pwrite stream"@,
            self is BackendFailure ==> r->Err_0 == self->BackendFailure_0,
            self is ProtocolMisuse ==> r->Err_0 == self->ProtocolMisuse_0,
    {
        match self {
            SessionOutcome::Success => Ok(()),
            SessionOutcome::IoFailure => Err("error while writing to pwrite stream".to_owned()),
            SessionOutcome::BackendFailure(message) => Err(message),
            SessionOutcome::ProtocolMisuse(message) => Err(message),
        }
    }
}

} // verus!
