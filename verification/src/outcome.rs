//! How a directive ended.

use vstd::prelude::*;
use crate::directive::ValidationError;
use crate::runtime::{RuntimeFault, RuntimeFaultView};

verus! {

/// The end of a directive, as the caller reports it upward.
#[derive(Debug, PartialEq, Eq)]
pub enum Outcome {
    /// The container was created, connected and started, or was restarted
    /// or started again.
    Success,
    /// The device answered the reconfiguration with this status code.
    Forwarded { status: u16 },
    /// The directive was refused before anything was done with it.
    ClientError { reason: ValidationError },
    /// Neither the registry nor any container knows the device.
    NotFound,
    /// The container runtime refused an operation with a status code.
    UpstreamFault { code: u16, message: String },
    /// An operation of the container runtime failed without a status code.
    InternalError { message: String },
    /// The container has no run state, so it was neither started nor
    /// restarted.
    NoStatus,
    /// The container has no name under which its device could be reached.
    NoAddress,
    /// The reconfiguration could not be delivered.
    ForwardFault,
    /// The reply does not answer the call that was handed out.
    ProtocolError,
}

/// An outcome as mathematical values.
pub enum OutcomeView {
    Success,
    Forwarded { status: u16 },
    ClientError { reason: ValidationError },
    NotFound,
    UpstreamFault { code: u16, message: Seq<char> },
    InternalError { message: Seq<char> },
    NoStatus,
    NoAddress,
    ForwardFault,
    ProtocolError,
}

impl View for Outcome {
    type V = OutcomeView;

    open spec fn view(&self) -> OutcomeView {
        match *self {
            Outcome::Success => OutcomeView::Success,
            Outcome::Forwarded { status } => OutcomeView::Forwarded { status },
            Outcome::ClientError { reason } => OutcomeView::ClientError { reason },
            Outcome::NotFound => OutcomeView::NotFound,
            Outcome::UpstreamFault { code, message } => OutcomeView::UpstreamFault {
                code,
                message: message@,
            },
            Outcome::InternalError { message } => OutcomeView::InternalError { message: message@ },
            Outcome::NoStatus => OutcomeView::NoStatus,
            Outcome::NoAddress => OutcomeView::NoAddress,
            Outcome::ForwardFault => OutcomeView::ForwardFault,
            Outcome::ProtocolError => OutcomeView::ProtocolError,
        }
    }
}

/// The outcome that a failure of the container runtime ends a directive
/// with: the runtime's code and message, unchanged.
pub open spec fn fault_outcome(fault: RuntimeFaultView) -> OutcomeView {
    match fault.code {
        Some(code) => OutcomeView::UpstreamFault { code, message: fault.message },
        None => OutcomeView::InternalError { message: fault.message },
    }
}

/// The numbers that are HTTP status codes.
pub open spec fn is_status_code(code: u16) -> bool {
    100 <= code <= 999
}

/// The HTTP status code by which an outcome is reported.
pub open spec fn status_of(outcome: OutcomeView) -> u16 {
    match outcome {
        OutcomeView::Success => 200,
        OutcomeView::Forwarded { status } => if is_status_code(status) {
            status
        } else {
            500
        },
        OutcomeView::ClientError { .. } => 400,
        OutcomeView::NotFound => 404,
        OutcomeView::UpstreamFault { code, .. } => if is_status_code(code) {
            code
        } else {
            500
        },
        OutcomeView::InternalError { .. } => 500,
        OutcomeView::NoStatus => 204,
        OutcomeView::NoAddress => 500,
        OutcomeView::ForwardFault => 500,
        OutcomeView::ProtocolError => 500,
    }
}

/// Calls `http::StatusCode::from_u16` and tells whether it accepted the
/// number: it accepts those from 100 to 999 and no others.
#[verifier::external_body]
fn accepted_as_status(code: u16) -> (accepted: bool)
    ensures
        accepted == is_status_code(code),
{
    http::StatusCode::from_u16(code).is_ok()
}

impl Outcome {
    /// Ends a directive on a failure of the container runtime.
    pub fn from_fault(fault: RuntimeFault) -> (outcome: Outcome)
        ensures
            outcome@ == fault_outcome(fault@),
    {
        match fault.code {
            Some(code) => Outcome::UpstreamFault { code, message: fault.message },
            None => Outcome::InternalError { message: fault.message },
        }
    }

    /// The HTTP status code by which the outcome is reported.
    pub fn http_status(&self) -> (status: u16)
        ensures
            status == status_of(self@),
            is_status_code(status),
    {
        match self {
            Outcome::Success => 200,
            Outcome::Forwarded { status } => if accepted_as_status(*status) {
                *status
            } else {
                500
            },
            Outcome::ClientError { .. } => 400,
            Outcome::NotFound => 404,
            Outcome::UpstreamFault { code, .. } => if accepted_as_status(*code) {
                *code
            } else {
                500
            },
            Outcome::InternalError { .. } => 500,
            Outcome::NoStatus => 204,
            Outcome::NoAddress => 500,
            Outcome::ForwardFault => 500,
            Outcome::ProtocolError => 500,
        }
    }
}

} // verus!
