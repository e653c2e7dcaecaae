//! Storage deposit accounting: converts a measured storage delta (in bytes)
//! into a cost in the native accounting currency, and decides how much of an
//! attached deposit to keep or refund after a mutation.
//!
//! All arithmetic is overflow-checked: an overflow or an insufficient deposit
//! is reported as an error, never silently wrapped or partially charged.

use vstd::prelude::*;

verus! {

/// Why a deposit-accounting step failed. Either failure aborts the whole
/// enclosing mutation: no partial charge is ever taken.
#[derive(Clone, Copy, PartialEq, Eq, Structural, Debug)]
pub enum DepositError {
    /// The attached deposit does not cover the storage the mutation consumed;
    /// `required` is the exact amount that must be attached.
    InsufficientDeposit { required: u128 },
    /// A cost computation does not fit in the currency's 128-bit range.
    Overflow,
}

/// Cost of `bytes` bytes of storage at `byte_cost` currency units per byte,
/// or `None` when the product does not fit in `u128`.
pub open spec fn spec_storage_cost(bytes: u64, byte_cost: u128) -> Option<u128> {
    if bytes * byte_cost <= u128::MAX {
        Some((bytes * byte_cost) as u128)
    } else {
        None
    }
}

/// Deposit required to pay for the storage grown between two footprint
/// measurements, the earlier one `initial_storage_usage` and the later one
/// `current_storage_usage`, both in bytes; `None` on cost overflow.
pub fn calculate_required_storage_deposit(
    initial_storage_usage: u64,
    current_storage_usage: u64,
    storage_byte_cost: u128,
) -> (r: Option<u128>)
    requires
        initial_storage_usage <= current_storage_usage,
    ensures
        r == spec_storage_cost(
            (current_storage_usage - initial_storage_usage) as u64,
            storage_byte_cost,
        ),
{
    let storage_used: u64 = current_storage_usage - initial_storage_usage;
    (storage_used as u128).checked_mul(storage_byte_cost)
}

/// What `refund_deposit` must decide: given the storage footprint before and
/// after a mutation, the deposit attached to the request and the byte-cost
/// rate, either the amount to send back to the requesting party (`None`
/// when nothing is owed), or the error that aborts the mutation.
pub open spec fn spec_refund_deposit(
    initial_storage_usage: u64,
    current_storage_usage: u64,
    attached_deposit: u128,
    storage_byte_cost: u128,
) -> Result<Option<u128>, DepositError> {
    if current_storage_usage > initial_storage_usage {
        match spec_storage_cost(
            (current_storage_usage - initial_storage_usage) as u64,
            storage_byte_cost,
        ) {
            None => Err(DepositError::Overflow),
            Some(required) => if attached_deposit < required {
                Err(DepositError::InsufficientDeposit { required })
            } else {
                spec_transfer_amount((attached_deposit - required) as u128)
            },
        }
    } else {
        match spec_storage_cost(
            (initial_storage_usage - current_storage_usage) as u64,
            storage_byte_cost,
        ) {
            None => Err(DepositError::Overflow),
            Some(freed) => if attached_deposit + freed > u128::MAX {
                Err(DepositError::Overflow)
            } else {
                spec_transfer_amount((attached_deposit + freed) as u128)
            },
        }
    }
}

/// Every positive refund becomes a transfer; only a refund of nothing needs
/// none.
pub open spec fn spec_transfer_amount(refund: u128) -> Result<Option<u128>, DepositError> {
    if refund > 0 {
        Ok(Some(refund))
    } else {
        Ok(None)
    }
}

/// Settles the deposit attached to a mutating request against the measured
/// storage delta.
///
/// On growth the requester must have attached at least the grown bytes' cost:
/// any surplus above it is returned, a deficit aborts with the exact required
/// amount. On shrink the freed bytes' cost is returned on top of whatever was
/// attached. `Ok(Some(amount))` is the transfer the caller owes the
/// requesting party; `Ok(None)` means no transfer is due.
pub fn refund_deposit(
    initial_storage_usage: u64,
    current_storage_usage: u64,
    attached_deposit: u128,
    storage_byte_cost: u128,
) -> (r: Result<Option<u128>, DepositError>)
    ensures
        r == spec_refund_deposit(
            initial_storage_usage,
            current_storage_usage,
            attached_deposit,
            storage_byte_cost,
        ),
{
    let refund: u128;
    if current_storage_usage > initial_storage_usage {
        // caller pays for the extra storage they used and is refunded the rest
        let required = match calculate_required_storage_deposit(
            initial_storage_usage,
            current_storage_usage,
            storage_byte_cost,
        ) {
            None => {
                return Err(DepositError::Overflow);
            },
            Some(required) => required,
        };
        if attached_deposit < required {
            return Err(DepositError::InsufficientDeposit { required });
        }
        refund = attached_deposit - required;
    } else {
        // storage was freed: its cost is refunded on top of the attached deposit
        let storage_freed: u64 = initial_storage_usage - current_storage_usage;
        let cost_freed = match (storage_freed as u128).checked_mul(storage_byte_cost) {
            None => {
                return Err(DepositError::Overflow);
            },
            Some(cost_freed) => cost_freed,
        };
        refund = match attached_deposit.checked_add(cost_freed) {
            None => {
                return Err(DepositError::Overflow);
            },
            Some(refund) => refund,
        };
    }
    if refund > 0 {
        Ok(Some(refund))
    } else {
        Ok(None)
    }
}

} // verus!
