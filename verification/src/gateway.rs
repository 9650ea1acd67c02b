//! What a realtime connection can end with, whatever carried it.

use vstd::prelude::*;

use crate::wire::Opcode;

verus! {

/// What the server's refusal code means to this client.
#[derive(Debug, Clone, Copy, PartialEq, Eq, Structural)]
pub enum RefusalCode {
    /// The resume asked for frames the server no longer keeps.
    ResumeRequired,
    /// The range a SYNC asked for is gone.
    SequenceGap,
    /// Any other code, as the wire numbers it.
    Other(u32),
}

/// A realtime connection's failure.
pub enum GatewayError {
    /// The connection failed, for the reason given.
    Transport(String),
    /// The connection closed, for the reason given.
    Closed(String),
    /// The server refused, with its own public sentence.
    Refused { code: RefusalCode, message: String },
}

impl GatewayError {
    /// The sentence this failure is reported with.
    pub open spec fn says(self) -> Seq<char> {
        match self {
            GatewayError::Transport(text) => text@,
            GatewayError::Closed(text) => text@,
            GatewayError::Refused { message, .. } => message@,
        }
    }

    /// The sentence this failure is reported with.
    pub fn message(&self) -> (text: String)
        ensures
            text@ == self.says(),
    {
        match self {
            GatewayError::Transport(text) => text.clone(),
            GatewayError::Closed(text) => text.clone(),
            GatewayError::Refused { message, .. } => message.clone(),
        }
    }

    /// Whether the server refused with one particular code.
    pub open spec fn refuses_with(self, wanted: RefusalCode) -> bool {
        self matches GatewayError::Refused { code, .. } && code == wanted
    }

    /// Whether the server refused a resume because its ring has moved on.
    pub fn is_resume_required(&self) -> (r: bool)
        ensures
            r == self.refuses_with(RefusalCode::ResumeRequired),
    {
        match self {
            GatewayError::Refused { code: RefusalCode::ResumeRequired, .. } => true,
            _ => false,
        }
    }

    /// Whether the server refused a range because it is gone.
    pub fn is_sequence_gap(&self) -> (r: bool)
        ensures
            r == self.refuses_with(RefusalCode::SequenceGap),
    {
        match self {
            GatewayError::Refused { code: RefusalCode::SequenceGap, .. } => true,
            _ => false,
        }
    }
}

/// Judges the reply to a HELLO over the WebSocket, as the native bindings do: a refusal is the
/// answer, and anything but a welcome that reads ends the connection.
pub fn judge_welcome<W>(
    refusal: Option<GatewayError>,
    opcode: Option<Opcode>,
    welcome: Option<W>,
) -> (r: Result<W, GatewayError>)
    ensures
        match refusal {
            Some(error) => r == Err::<W, GatewayError>(error),
            None => if opcode == Some(Opcode::Hello) && welcome is Some {
                r == Ok::<W, GatewayError>(welcome.unwrap())
            } else {
                r matches Err(GatewayError::Closed(text)) && text@
                    == "the handshake did not complete"@
            },
        },
{
    if let Some(error) = refusal {
        return Err(error);
    }
    match opcode {
        Some(Opcode::Hello) => match welcome {
            Some(welcome) => Ok(welcome),
            None => Err(GatewayError::Closed("the handshake did not complete".to_owned())),
        },
        _ => Err(GatewayError::Closed("the handshake did not complete".to_owned())),
    }
}

/// A failure is reported in its own words, whatever it is.
pub proof fn law_a_failure_speaks_for_itself(error: GatewayError, wanted: RefusalCode)
    ensures
        error is Transport ==> error.says() == error->Transport_0@,
        error is Closed ==> error.says() == error->Closed_0@,
        error is Refused ==> error.says() == error->message@,
        error.refuses_with(wanted) <==> error is Refused && error->code == wanted,
{
}

} // verus!
