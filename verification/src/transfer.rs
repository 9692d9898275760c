//! What the engine asks of, and hears from, the parties around it.
//!
//! The engine moves no funds and checks no signatures itself. It says which
//! transfer an operation calls for, and it is told whether the caller proved
//! its identity and whether the transfer went through.

use vstd::prelude::*;
use crate::account::AccountId;
use crate::error::EscrowError;

verus! {

/// Whether the caller proved control of the account that it named.
#[derive(Clone, Copy, Debug, PartialEq, Eq, Structural)]
pub enum AuthProof {
    Granted,
    Denied,
}

/// How the transfer that an operation calls for ended.
#[derive(Clone, Copy, Debug, PartialEq, Eq, Structural)]
pub enum TransferOutcome {
    Completed,
    Failed,
}

/// One end of a transfer: the campaign's escrow, or an account.
#[derive(Debug, PartialEq, Eq)]
pub enum Party {
    Escrow,
    Account(AccountId),
}

/// The mathematical value of a `Party`.
pub enum PartyView {
    Escrow,
    Account(Seq<u8>),
}

impl View for Party {
    type V = PartyView;

    open spec fn view(&self) -> PartyView {
        match self {
            Party::Escrow => PartyView::Escrow,
            Party::Account(id) => PartyView::Account(id@),
        }
    }
}

/// An amount to be moved from one party to another.
#[derive(Debug, PartialEq, Eq)]
pub struct Transfer {
    pub from: Party,
    pub to: Party,
    pub amount: i128,
}

/// The mathematical value of a `Transfer`.
pub struct TransferView {
    pub from: PartyView,
    pub to: PartyView,
    pub amount: int,
}

impl View for Transfer {
    type V = TransferView;

    open spec fn view(&self) -> TransferView {
        TransferView { from: self.from@, to: self.to@, amount: self.amount as int }
    }
}

/// The money that a donor pays into escrow.
pub open spec fn deposit(donor: Seq<u8>, amount: int) -> TransferView {
    TransferView { from: PartyView::Account(donor), to: PartyView::Escrow, amount }
}

/// The money that leaves escrow for an account.
pub open spec fn payout(to: Seq<u8>, amount: int) -> TransferView {
    TransferView { from: PartyView::Escrow, to: PartyView::Account(to), amount }
}

/// The mathematical value of an order, or the error in its place.
pub open spec fn order_view(order: Result<Transfer, EscrowError>) -> Result<TransferView, EscrowError> {
    match order {
        Ok(transfer) => Ok(transfer@),
        Err(e) => Err(e),
    }
}

/// The mathematical value of an order that may call for no transfer at all,
/// or the error in its place.
pub open spec fn optional_order_view(order: Result<Option<Transfer>, EscrowError>) -> Result<
    Option<TransferView>,
    EscrowError,
> {
    match order {
        Ok(Some(transfer)) => Ok(Some(transfer@)),
        Ok(None) => Ok(None),
        Err(e) => Err(e),
    }
}

} // verus!
