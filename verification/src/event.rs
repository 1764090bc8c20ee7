//! What a call hands back for the host to carry out: the events to record and
//! the transfer to make.

use vstd::prelude::*;
use crate::account::AccountId;

verus! {

/// The record of one message that was paid for: who sent it, to whom, what it
/// says, and whether the sender marked it as encrypted. The mark is the
/// sender's word only; the text is never examined.
#[derive(Debug, Clone, PartialEq, Eq)]
pub struct MessageSent {
    pub from: AccountId,
    pub to: AccountId,
    pub message: String,
    pub encrypted: bool,
}

/// A `MessageSent` as contracts see it, with the text as a sequence of
/// characters.
pub struct MessageSentView {
    pub from: AccountId,
    pub to: AccountId,
    pub message: Seq<char>,
    pub encrypted: bool,
}

impl View for MessageSent {
    type V = MessageSentView;

    open spec fn view(&self) -> MessageSentView {
        MessageSentView {
            from: self.from,
            to: self.to,
            message: self.message@,
            encrypted: self.encrypted,
        }
    }
}

/// An order to move `amount` from the ledger's balance to the account `to`.
#[derive(Debug, Clone, Copy, PartialEq, Eq)]
pub struct Transfer {
    pub to: AccountId,
    pub amount: u128,
}

} // verus!
