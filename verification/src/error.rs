//! The failures that an operation of the ledger can report.

use vstd::prelude::*;

verus! {

/// Why an operation was refused. Every failure is final for the call that
/// met it, and no operation changes the ledger before it reports one.
#[derive(Copy, Clone, Debug, PartialEq, Eq, PartialOrd, Ord, Hash, Structural)]
pub enum Error {
    /// No video is recorded under the given id.
    VideoNotFound,
    /// The viewer holds no access grant for the video.
    AccessDenied,
    /// The buyer already holds an access grant for the video.
    AlreadyPurchased,
    /// The price of an upload is negative.
    InvalidPrice,
    /// The operation is not attributable to the identity it claims to act
    /// for, or the ledger is already initialized.
    Unauthorized,
    /// An id or an amount is not positive, or a required text is empty.
    InvalidInput,
    /// The payment collaborator did not carry out the transfer.
    PaymentTransferFailed,
}

} // verus!
