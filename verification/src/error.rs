//! The ways in which provisioning fails.

use crate::address::AddressParseError;
use vstd::prelude::*;

verus! {

/// Which of the caller's texts was to be an address.
#[derive(Clone, Copy, Debug, PartialEq, Eq, Structural)]
pub enum AddressField {
    /// The identifier of the token type.
    TokenType,
    /// The identifier of the account that the transfer draws on.
    SourceAccount,
}

/// How an exchange with the network failed.
#[derive(Clone, Copy, Debug, PartialEq, Eq, Structural)]
pub enum FailureKind {
    /// No answer: the node was unreachable or unavailable, or the call timed
    /// out.
    Unreachable,
    /// The network took the submission and refused the transaction.
    Rejected,
}

/// A failed exchange with the network, with the network's own message.
#[derive(Clone, Debug, PartialEq, Eq)]
pub struct Failure {
    pub kind: FailureKind,
    pub message: String,
}

/// A `Failure` with its message as a sequence of characters.
pub struct FailureView {
    pub kind: FailureKind,
    pub message: Seq<char>,
}

impl View for Failure {
    type V = FailureView;

    open spec fn view(&self) -> FailureView {
        FailureView { kind: self.kind, message: self.message@ }
    }
}

/// Why no account was provisioned. Each of these ends the operation: nothing
/// is tried again and nothing is undone.
#[derive(Clone, Debug, PartialEq, Eq)]
pub enum ProvisionError {
    /// A text of the caller's is not a ledger address.
    AddressParse { field: AddressField, reason: AddressParseError },
    /// An instruction could not be built.
    InstructionBuild,
    /// A query or the submission did not get through to the network.
    Network { message: String },
    /// The network refused the transaction.
    TransactionRejected { message: String },
}

/// A `ProvisionError` with its message as a sequence of characters.
pub enum ProvisionErrorView {
    AddressParse { field: AddressField, reason: AddressParseError },
    InstructionBuild,
    Network { message: Seq<char> },
    TransactionRejected { message: Seq<char> },
}

impl View for ProvisionError {
    type V = ProvisionErrorView;

    open spec fn view(&self) -> ProvisionErrorView {
        match self {
            ProvisionError::AddressParse { field, reason } => ProvisionErrorView::AddressParse {
                field: *field,
                reason: *reason,
            },
            ProvisionError::InstructionBuild => ProvisionErrorView::InstructionBuild,
            ProvisionError::Network { message } => ProvisionErrorView::Network {
                message: message@,
            },
            ProvisionError::TransactionRejected { message } => {
                ProvisionErrorView::TransactionRejected { message: message@ }
            },
        }
    }
}

/// The error for a query that failed: a network error, whatever the kind of
/// the failure, since only a submission can be rejected.
pub open spec fn query_error(failure: FailureView) -> ProvisionErrorView {
    ProvisionErrorView::Network { message: failure.message }
}

/// The error for a submission that failed: a rejection where the network
/// refused the transaction, a network error otherwise.
pub open spec fn submission_error(failure: FailureView) -> ProvisionErrorView {
    match failure.kind {
        FailureKind::Rejected => ProvisionErrorView::TransactionRejected {
            message: failure.message,
        },
        FailureKind::Unreachable => ProvisionErrorView::Network { message: failure.message },
    }
}

impl ProvisionError {
    /// The error with which a failed query ends the operation.
    pub fn from_query(failure: Failure) -> (error: ProvisionError)
        ensures
            error@ == query_error(failure@),
    {
        ProvisionError::Network { message: failure.message }
    }

    /// The error with which a failed submission ends the operation.
    pub fn from_submission(failure: Failure) -> (error: ProvisionError)
        ensures
            error@ == submission_error(failure@),
    {
        match failure.kind {
            FailureKind::Rejected => ProvisionError::TransactionRejected {
                message: failure.message,
            },
            FailureKind::Unreachable => ProvisionError::Network { message: failure.message },
        }
    }
}

} // verus!
