//! The fee schedule: its defaults, the reserve that a withdrawal leaves
//! behind, and the price of a bulk send.
//!
//! All amounts are counted in the smallest unit of the host currency.

use vstd::prelude::*;

verus! {

/// The fee for a single message on a newly deployed ledger.
pub const DEFAULT_STANDARD_FEE: u128 = 50_000_000_000;

/// The base charge of a bulk send on a newly deployed ledger.
pub const DEFAULT_BULK_BASE_FEE: u128 = 5_000_000_000_000;

/// The charge per recipient of a bulk send on a newly deployed ledger.
pub const DEFAULT_BULK_VAR_FEE: u128 = 10_000_000_000;

/// The balance that a withdrawal never touches.
pub const RESERVE_MINIMUM: u128 = 10_000_000_000;

/// What the host reports when it aborts a withdrawal because the balance does
/// not exceed the reserve.
pub const WITHDRAWAL_REFUSED: &'static str = "Balance too low to withdraw already!";

/// What a bulk send to `recipients` accounts costs: the base charge plus the
/// per-recipient charge for each of them. The price is a mathematical integer
/// and may exceed every amount that can be sent.
pub open spec fn bulk_fee(base: u128, var: u128, recipients: nat) -> int {
    base + var * recipients
}

/// A bulk send to nobody costs the base charge, and every further recipient
/// adds the per-recipient charge.
pub proof fn lemma_bulk_fee_by_recipient(base: u128, var: u128, recipients: nat)
    ensures
        bulk_fee(base, var, 0) == base,
        bulk_fee(base, var, recipients + 1) == bulk_fee(base, var, recipients) + var,
{
    assert(var * (recipients + 1) == var * recipients + var) by (nonlinear_arith);
}

/// Whether `transferred` pays for a bulk send to `recipients` accounts.
///
/// The price is computed with checked arithmetic. A price too large for a
/// `u128` is one that no transfer can cover, so the answer is then `false`;
/// nothing wraps around and nothing saturates.
pub fn covers_bulk_fee(transferred: u128, base: u128, var: u128, recipients: usize) -> (covered:
    bool)
    ensures
        covered == (transferred >= bulk_fee(base, var, recipients as nat)),
{
    match var.checked_mul(recipients as u128) {
        None => false,
        Some(variable_part) => match base.checked_add(variable_part) {
            None => false,
            Some(required) => transferred >= required,
        },
    }
}

} // verus!
