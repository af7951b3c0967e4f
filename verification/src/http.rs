//! The outcome of one outbound HTTP request, and the adapter rule that turns
//! it into a body or a failure.
//!
//! The UI shell performs the request itself (with the URL and the fixed
//! `User-Agent` header that [`crate::bridge`] supplies) and reports back an
//! [`HttpOutcome`]. The verified side never sees a socket: only this value.

use vstd::prelude::*;
use crate::error::BridgeError;
use crate::error::ErrorModel;

verus! {

/// What one outbound HTTP request came to.
#[derive(Debug)]
pub enum HttpOutcome {
    /// The exchange never completed; the description comes from the HTTP
    /// client (DNS, connection, TLS or timeout trouble).
    Transport(String),
    /// The upstream service answered.
    Response { status: u16, body: String },
}

/// The mathematical value of an [`HttpOutcome`].
pub ghost enum OutcomeModel {
    Transport(Seq<char>),
    Response { status: u16, body: Seq<char> },
}

impl View for HttpOutcome {
    type V = OutcomeModel;

    open spec fn view(&self) -> OutcomeModel {
        match self {
            HttpOutcome::Transport(e) => OutcomeModel::Transport(e@),
            HttpOutcome::Response { status, body } => OutcomeModel::Response {
                status: *status,
                body: body@,
            },
        }
    }
}

/// The HTTP success range: 2xx.
pub open spec fn is_success_code(status: u16) -> bool {
    200 <= status < 300
}

/// The mathematical value of an operation's result: the success payload or
/// the failure, both by their models.
pub open spec fn result_model(r: Result<String, BridgeError>) -> Result<Seq<char>, ErrorModel> {
    match r {
        Ok(payload) => Ok(payload@),
        Err(e) => Err(e@),
    }
}

/// What the adapter makes of an outcome: the body exactly when the status is
/// in the success range; otherwise the transport failure verbatim or a
/// protocol failure naming the status.
pub open spec fn adapter_model(o: OutcomeModel) -> Result<Seq<char>, ErrorModel> {
    match o {
        OutcomeModel::Transport(description) => Err(ErrorModel::Transport(description)),
        OutcomeModel::Response { status, body } => if is_success_code(status) {
            Ok(body)
        } else {
            Err(ErrorModel::Protocol(status))
        },
    }
}

/// Applies the adapter rule to a reported outcome.
pub fn adapter_result(outcome: HttpOutcome) -> (r: Result<String, BridgeError>)
    ensures
        result_model(r) == adapter_model(outcome@),
{
    match outcome {
        HttpOutcome::Transport(description) => Err(BridgeError::Transport(description)),
        HttpOutcome::Response { status, body } => if 200 <= status && status < 300 {
            Ok(body)
        } else {
            Err(BridgeError::Protocol(status))
        },
    }
}

} // verus!
