//! The failure taxonomy of the bridge and its single message-string channel.
//!
//! Three kinds of failure can end an operation: a transport failure, a
//! non-success HTTP status, and a response body of the wrong shape. The UI
//! shell receives only a human-readable message; [`BridgeError::message`]
//! renders it.

use vstd::prelude::*;
use crate::text::dec_seq;
use crate::text::u16_dec;

verus! {

/// A failure of one bridge operation.
#[derive(Debug)]
pub enum BridgeError {
    /// The request never completed: DNS, connection, TLS or timeout trouble,
    /// described by the HTTP client.
    Transport(String),
    /// The upstream service answered with a status outside the success range.
    Protocol(u16),
    /// The response body did not have the expected shape.
    Shape(String),
}

/// The mathematical value of a [`BridgeError`].
pub ghost enum ErrorModel {
    Transport(Seq<char>),
    Protocol(u16),
    Shape(Seq<char>),
}

impl View for BridgeError {
    type V = ErrorModel;

    open spec fn view(&self) -> ErrorModel {
        match self {
            BridgeError::Transport(e) => ErrorModel::Transport(e@),
            BridgeError::Protocol(status) => ErrorModel::Protocol(*status),
            BridgeError::Shape(detail) => ErrorModel::Shape(detail@),
        }
    }
}

/// The message reported for a non-success HTTP status.
pub open spec fn protocol_message(status: u16) -> Seq<char> {
    "Failed to fetch: "@ + dec_seq(status as nat)
}

/// The message that each failure puts on the error-string channel: transport
/// and shape failures carry their description verbatim; a protocol failure
/// names the numeric status code.
pub open spec fn message_model(e: ErrorModel) -> Seq<char> {
    match e {
        ErrorModel::Transport(description) => description,
        ErrorModel::Protocol(status) => protocol_message(status),
        ErrorModel::Shape(detail) => detail,
    }
}

impl BridgeError {
    /// The human-readable message handed across the UI boundary.
    pub fn message(self) -> (r: String)
        ensures
            r@ == message_model(self@),
    {
        match self {
            BridgeError::Transport(description) => description,
            BridgeError::Protocol(status) => {
                let mut r = String::from_str("Failed to fetch: ");
                let digits = u16_dec(status);
                r.append(digits.as_str());
                proof {
                    assert(r@ =~= protocol_message(status));
                }
                r
            },
            BridgeError::Shape(detail) => detail,
        }
    }
}

/// A protocol failure's message carries the decimal status code: the digits
/// stand as a contiguous piece of the message.
pub proof fn protocol_message_carries_status(status: u16)
    ensures
        exists|i: int|
            0 <= i && i + dec_seq(status as nat).len() <= protocol_message(status).len()
                && #[trigger] protocol_message(status).subrange(
                i,
                i + dec_seq(status as nat).len() as int,
            ) == dec_seq(status as nat),
{
    let prefix = "Failed to fetch: "@;
    let digits = dec_seq(status as nat);
    let m = protocol_message(status);
    assert(m.subrange(prefix.len() as int, prefix.len() + digits.len() as int) =~= digits);
}

} // verus!
