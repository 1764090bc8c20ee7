//! The ledger: its configuration and the calls that read or change it.
//!
//! The host supplies what a call cannot know by itself (who is calling, what
//! value came with the call, what the ledger's balance is) as arguments, and
//! carries out what the call hands back: the events to record, the transfer
//! to make. A call that is turned down hands back nothing to carry out.

use vstd::prelude::*;
use crate::account::AccountId;
use crate::error::Error;
use crate::event::{MessageSent, MessageSentView, Transfer};
use crate::fees::{
    bulk_fee, covers_bulk_fee, DEFAULT_BULK_BASE_FEE, DEFAULT_BULK_VAR_FEE, DEFAULT_STANDARD_FEE,
    RESERVE_MINIMUM,
};

verus! {

/// The ledger's configuration: the owner and the fee schedule. Messages are
/// not kept; a send leaves nothing behind but its events.
#[derive(Debug)]
pub struct AzeroMessage {
    owner: AccountId,
    standard_fee: u128,
    bulk_base_fee: u128,
    bulk_var_fee: u128,
}

/// The configuration as contracts see it.
pub struct LedgerState {
    /// The account that may change the configuration and that receives
    /// withdrawn fees.
    pub owner: AccountId,
    /// The fee for a single message.
    pub standard_fee: u128,
    /// The base charge of a bulk send.
    pub bulk_base_fee: u128,
    /// The charge per recipient of a bulk send.
    pub bulk_var_fee: u128,
}

impl View for AzeroMessage {
    type V = LedgerState;

    closed spec fn view(&self) -> LedgerState {
        LedgerState {
            owner: self.owner,
            standard_fee: self.standard_fee,
            bulk_base_fee: self.bulk_base_fee,
            bulk_var_fee: self.bulk_var_fee,
        }
    }
}

impl AzeroMessage {
    /// Deploys a ledger: `caller` becomes the owner and the fees start at
    /// their defaults.
    pub fn default(caller: AccountId) -> (ledger: Self)
        ensures
            ledger@ == (LedgerState {
                owner: caller,
                standard_fee: DEFAULT_STANDARD_FEE,
                bulk_base_fee: DEFAULT_BULK_BASE_FEE,
                bulk_var_fee: DEFAULT_BULK_VAR_FEE,
            }),
    {
        Self {
            owner: caller,
            standard_fee: DEFAULT_STANDARD_FEE,
            bulk_base_fee: DEFAULT_BULK_BASE_FEE,
            bulk_var_fee: DEFAULT_BULK_VAR_FEE,
        }
    }

    /// Puts a ledger together again from the configuration that the host has
    /// kept for it between calls.
    pub fn from_parts(
        owner: AccountId,
        standard_fee: u128,
        bulk_base_fee: u128,
        bulk_var_fee: u128,
    ) -> (ledger: Self)
        ensures
            ledger@ == (LedgerState { owner, standard_fee, bulk_base_fee, bulk_var_fee }),
    {
        Self { owner, standard_fee, bulk_base_fee, bulk_var_fee }
    }

    /// Sends one message from `caller` to `address`, paid for by the value
    /// `transferred` with the call.
    ///
    /// The send goes through exactly when `transferred` is at least the
    /// standard fee; the whole value stays with the ledger, nothing is given
    /// back. It then hands back the one event to record, which carries the
    /// caller, the recipient, the text and the mark as they came. Otherwise
    /// the call is turned down with `InsufficientTransfer` and there is no
    /// event. The configuration stays as it was either way.
    ///
    /// Underpayment is a typed failure here, never an abort: a host that is
    /// to abort an underpaid call does so when it gets this error. A host
    /// that knows no mark passes `false` for `encrypted`.
    pub fn send_message(
        &mut self,
        caller: AccountId,
        transferred: u128,
        address: AccountId,
        message: String,
        encrypted: bool,
    ) -> (sent: Result<MessageSent, Error>)
        ensures
            final(self)@ == old(self)@,
            match sent {
                Ok(event) => {
                    &&& transferred >= old(self)@.standard_fee
                    &&& event@ == (MessageSentView {
                        from: caller,
                        to: address,
                        message: message@,
                        encrypted,
                    })
                },
                Err(error) => {
                    &&& transferred < old(self)@.standard_fee
                    &&& error == Error::InsufficientTransfer
                },
            },
    {
        if transferred < self.standard_fee {
            return Err(Error::InsufficientTransfer);
        }
        Ok(MessageSent { from: caller, to: address, message, encrypted })
    }

    /// Sends one message from `caller` to each of `addresses`, paid for by
    /// the value `transferred` with the call.
    ///
    /// The price is the base charge plus the per-recipient charge for every
    /// recipient, as a mathematical integer: a price beyond what a `u128`
    /// holds is one that no value covers, and the call is then turned down
    /// like any underpaid one. The send goes through exactly when
    /// `transferred` is at least the price. It then hands back one event per
    /// recipient, in the recipients' order, each from the caller with the
    /// same text and never marked as encrypted. With no recipients the price
    /// is the base charge and there are no events. Otherwise the call is
    /// turned down with `InsufficientTransfer` and there is no event. The
    /// configuration stays as it was either way.
    pub fn bulk_send_message(
        &mut self,
        caller: AccountId,
        transferred: u128,
        addresses: Vec<AccountId>,
        message: String,
    ) -> (sent: Result<Vec<MessageSent>, Error>)
        ensures
            final(self)@ == old(self)@,
            match sent {
                Ok(events) => {
                    &&& transferred >= bulk_fee(
                        old(self)@.bulk_base_fee,
                        old(self)@.bulk_var_fee,
                        addresses@.len(),
                    )
                    &&& events@.len() == addresses@.len()
                    &&& forall|i: int|
                        0 <= i < events@.len() ==> (#[trigger] events@[i])@ == (MessageSentView {
                            from: caller,
                            to: addresses@[i],
                            message: message@,
                            encrypted: false,
                        })
                },
                Err(error) => {
                    &&& transferred < bulk_fee(
                        old(self)@.bulk_base_fee,
                        old(self)@.bulk_var_fee,
                        addresses@.len(),
                    )
                    &&& error == Error::InsufficientTransfer
                },
            },
    {
        if !covers_bulk_fee(transferred, self.bulk_base_fee, self.bulk_var_fee, addresses.len()) {
            return Err(Error::InsufficientTransfer);
        }
        let mut events: Vec<MessageSent> = Vec::new();
        let mut i: usize = 0;
        while i < addresses.len()
            invariant
                i <= addresses@.len(),
                events@.len() == i,
                forall|j: int|
                    0 <= j < i ==> (#[trigger] events@[j])@ == (MessageSentView {
                        from: caller,
                        to: addresses@[j],
                        message: message@,
                        encrypted: false,
                    }),
            decreases addresses@.len() - i,
        {
            events.push(
                MessageSent {
                    from: caller,
                    to: addresses[i],
                    message: message.clone(),
                    encrypted: false,
                },
            );
            i += 1;
        }
        Ok(events)
    }

    /// Withdraws the fees that have gathered: everything in `balance`, the
    /// ledger's balance, above the reserve.
    ///
    /// Anyone may call; the money goes to the owner whoever asks. The
    /// transfer handed back moves exactly `balance - RESERVE_MINIMUM` to the
    /// owner, so that the reserve, and nothing more, stays behind. A balance
    /// at or under the reserve leaves nothing to withdraw; the host must then
    /// abort the call, reporting [`WITHDRAWAL_REFUSED`](crate::fees::WITHDRAWAL_REFUSED),
    /// in place of calling this.
    pub fn collect_fees(&mut self, balance: u128) -> (transfer: Transfer)
        requires
            balance > RESERVE_MINIMUM,
        ensures
            final(self)@ == old(self)@,
            transfer.to == old(self)@.owner,
            transfer.amount == balance - RESERVE_MINIMUM,
            balance - transfer.amount == RESERVE_MINIMUM,
    {
        Transfer { to: self.owner, amount: balance - RESERVE_MINIMUM }
    }

    /// Hands the ledger over to `address`.
    ///
    /// Only the owner may do so: for any other `caller` the call is turned
    /// down with `OnlyOwner` and nothing changes. From the moment the call
    /// goes through, `address` is the owner and the previous owner is a
    /// caller like any other.
    pub fn modify_owner(&mut self, caller: AccountId, address: AccountId) -> (done: Result<
        (),
        Error,
    >)
        ensures
            match done {
                Ok(_) => {
                    &&& caller == old(self)@.owner
                    &&& final(self)@ == (LedgerState { owner: address, ..old(self)@ })
                },
                Err(error) => {
                    &&& caller != old(self)@.owner
                    &&& error == Error::OnlyOwner
                    &&& final(self)@ == old(self)@
                },
            },
    {
        if caller != self.owner {
            return Err(Error::OnlyOwner);
        }
        self.owner = address;
        Ok(())
    }

    /// Sets the fee for a single message to `value`, whatever it is.
    ///
    /// Only the owner may do so: for any other `caller` the call is turned
    /// down with `OnlyOwner` and nothing changes.
    pub fn modify_standard_fee(&mut self, caller: AccountId, value: u128) -> (done: Result<
        (),
        Error,
    >)
        ensures
            match done {
                Ok(_) => {
                    &&& caller == old(self)@.owner
                    &&& final(self)@ == (LedgerState { standard_fee: value, ..old(self)@ })
                },
                Err(error) => {
                    &&& caller != old(self)@.owner
                    &&& error == Error::OnlyOwner
                    &&& final(self)@ == old(self)@
                },
            },
    {
        if caller != self.owner {
            return Err(Error::OnlyOwner);
        }
        self.standard_fee = value;
        Ok(())
    }

    /// Sets the base charge of a bulk send to `value`, whatever it is.
    ///
    /// Only the owner may do so: for any other `caller` the call is turned
    /// down with `OnlyOwner` and nothing changes.
    pub fn modify_bulk_base_fee(&mut self, caller: AccountId, value: u128) -> (done: Result<
        (),
        Error,
    >)
        ensures
            match done {
                Ok(_) => {
                    &&& caller == old(self)@.owner
                    &&& final(self)@ == (LedgerState { bulk_base_fee: value, ..old(self)@ })
                },
                Err(error) => {
                    &&& caller != old(self)@.owner
                    &&& error == Error::OnlyOwner
                    &&& final(self)@ == old(self)@
                },
            },
    {
        if caller != self.owner {
            return Err(Error::OnlyOwner);
        }
        self.bulk_base_fee = value;
        Ok(())
    }

    /// Sets the charge per recipient of a bulk send to `value`, whatever it
    /// is.
    ///
    /// Only the owner may do so: for any other `caller` the call is turned
    /// down with `OnlyOwner` and nothing changes.
    pub fn modify_bulk_var_fee(&mut self, caller: AccountId, value: u128) -> (done: Result<
        (),
        Error,
    >)
        ensures
            match done {
                Ok(_) => {
                    &&& caller == old(self)@.owner
                    &&& final(self)@ == (LedgerState { bulk_var_fee: value, ..old(self)@ })
                },
                Err(error) => {
                    &&& caller != old(self)@.owner
                    &&& error == Error::OnlyOwner
                    &&& final(self)@ == old(self)@
                },
            },
    {
        if caller != self.owner {
            return Err(Error::OnlyOwner);
        }
        self.bulk_var_fee = value;
        Ok(())
    }

    /// The current owner.
    pub fn get_owner(&self) -> (owner: AccountId)
        ensures
            owner == self@.owner,
    {
        self.owner
    }

    /// The current fee for a single message.
    pub fn get_standard_fee(&self) -> (fee: u128)
        ensures
            fee == self@.standard_fee,
    {
        self.standard_fee
    }

    /// The current base charge of a bulk send.
    pub fn get_bulk_base_fee(&self) -> (fee: u128)
        ensures
            fee == self@.bulk_base_fee,
    {
        self.bulk_base_fee
    }

    /// The current charge per recipient of a bulk send.
    pub fn get_bulk_var_fee(&self) -> (fee: u128)
        ensures
            fee == self@.bulk_var_fee,
    {
        self.bulk_var_fee
    }
}

} // verus!
