//! The one error of the harness.

use tokio::sync::oneshot::error::RecvError;
use vstd::prelude::*;
use vstd::string::StringExecFns;

verus! {

/// tokio's `RecvError`: what the receiving half of a one-shot channel
/// returns when the sending half was dropped before it sent a value.
/// Nothing is known of what it holds.
#[verifier::external_type_specification]
#[verifier::external_body]
pub struct ExRecvError(RecvError);

/// Why a request got no answer.
#[derive(Debug)]
pub enum CoreError {
    /// The reply slot was abandoned: the core thread ended before it
    /// answered. It will answer nothing any more.
    Shutdown(RecvError),
}

/// The text that tokio's `Display` for `RecvError` writes. It is the same for
/// every value: `fmt` writes the words "channel closed" and nothing else.
#[verifier::external_body]
fn closed_channel_text(error: &RecvError) -> (text: String)
    ensures
        text@ == "channel closed"@,
{
    format!("{}", error)
}

impl CoreError {
    /// The error in words.
    pub fn message(&self) -> (text: String)
        ensures
            text@ == "Core thread shutdown: "@ + "channel closed"@,
    {
        match self {
            CoreError::Shutdown(error) => {
                let reason = closed_channel_text(error);
                String::from_str("Core thread shutdown: ").concat(reason.as_str())
            },
        }
    }
}

} // verus!
