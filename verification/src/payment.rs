//! What the ledger asks of the payment collaborator, and what the
//! collaborator answers. The ledger moves no funds itself.

use vstd::prelude::*;
use crate::identity::Identity;

verus! {

/// A transfer of `amount` units of `token`, in the token's smallest
/// denomination, between a party and the holding identity of the ledger.
#[derive(Debug, PartialEq, Eq)]
pub enum Transfer {
    /// From `payer` to the holding identity.
    Deposit { token: Identity, payer: Identity, amount: i128 },
    /// From the holding identity to `payee`.
    Payout { token: Identity, payee: Identity, amount: i128 },
}

/// The mathematical content of a [`Transfer`].
pub enum TransferView {
    Deposit { token: Seq<char>, payer: Seq<char>, amount: int },
    Payout { token: Seq<char>, payee: Seq<char>, amount: int },
}

impl View for Transfer {
    type V = TransferView;

    open spec fn view(&self) -> TransferView {
        match self {
            Transfer::Deposit { token, payer, amount } => TransferView::Deposit {
                token: token@,
                payer: payer@,
                amount: *amount as int,
            },
            Transfer::Payout { token, payee, amount } => TransferView::Payout {
                token: token@,
                payee: payee@,
                amount: *amount as int,
            },
        }
    }
}

/// What the payment collaborator answered to a requested transfer.
#[derive(Copy, Clone, Debug, PartialEq, Eq, Structural)]
pub enum Payment {
    /// The funds were moved.
    Settled,
    /// The transfer was not carried out, and no funds were moved.
    Failed,
}

} // verus!
