//! Folding a transaction's outcome into the command result.
//!
//! The I/O layer reports how a planned transaction ended as a
//! [`TransferOutcome`]; [`settle`] turns that report into the
//! `Ok(text)`/`Err(text)` answer the caller sees. A completed transaction
//! is a success whatever its status code said — only transaction-level
//! failures become errors, each carrying the underlying failure's own
//! text.

use vstd::prelude::*;

verus! {

/// How one HTTP transaction ended, as the I/O layer reports it.
pub enum TransferOutcome {
    /// The transaction completed and the whole response body was read as
    /// text — whatever the status code said.
    Completed { body: String },
    /// The file meant to be streamed could not be opened.
    FileOpenFailed { message: String },
    /// The request could not be assembled (a form or header value was
    /// refused).
    BuildFailed { message: String },
    /// The transport gave out: resolution, connection, TLS, a timeout, or
    /// a failure while reading the body.
    TransportFailed { message: String },
}

/// Spec-level picture of a transfer outcome.
pub enum OutcomeModel {
    Completed { body: Seq<char> },
    FileOpenFailed { message: Seq<char> },
    BuildFailed { message: Seq<char> },
    TransportFailed { message: Seq<char> },
}

impl View for TransferOutcome {
    type V = OutcomeModel;

    open spec fn view(&self) -> OutcomeModel {
        match self {
            TransferOutcome::Completed { body } => OutcomeModel::Completed { body: body@ },
            TransferOutcome::FileOpenFailed { message } => OutcomeModel::FileOpenFailed {
                message: message@,
            },
            TransferOutcome::BuildFailed { message } => OutcomeModel::BuildFailed {
                message: message@,
            },
            TransferOutcome::TransportFailed { message } => OutcomeModel::TransportFailed {
                message: message@,
            },
        }
    }
}

/// The command result an outcome settles to: the body text on completion,
/// the failure's own text otherwise.
pub open spec fn settled(o: OutcomeModel) -> Result<Seq<char>, Seq<char>> {
    match o {
        OutcomeModel::Completed { body } => Ok(body),
        OutcomeModel::FileOpenFailed { message } => Err(message),
        OutcomeModel::BuildFailed { message } => Err(message),
        OutcomeModel::TransportFailed { message } => Err(message),
    }
}

/// Fold a transaction's outcome into the command result. The full body
/// text is handed back verbatim on completion — the status code is never
/// consulted — and every failure becomes `Err` of its own text.
pub fn settle(o: TransferOutcome) -> (r: Result<String, String>)
    ensures
        r is Ok <==> settled(o@) is Ok,
        r matches Ok(body) ==> Ok::<Seq<char>, Seq<char>>(body@) == settled(o@),
        r matches Err(message) ==> Err::<Seq<char>, Seq<char>>(message@) == settled(o@),
{
    match o {
        TransferOutcome::Completed { body } => Ok(body),
        TransferOutcome::FileOpenFailed { message } => Err(message),
        TransferOutcome::BuildFailed { message } => Err(message),
        TransferOutcome::TransportFailed { message } => Err(message),
    }
}

} // verus!
