//! Moving tokens out of a swap's custody account.
use vstd::prelude::*;
use crate::bytes::Pubkey;
use crate::error::HTLCError;
use crate::record::{Transfer, Vault};

verus! {

/// Whether `amount` can be paid out of the custody account.
pub open spec fn can_pay(v: Vault, amount: u64) -> bool {
    v.open && amount <= v.balance
}

/// The custody account after paying `amount` out of it: closed once empty.
pub open spec fn after_payout(v: Vault, amount: u64) -> Vault {
    Vault { balance: (v.balance - amount) as u64, open: v.balance - amount != 0 }
}

/// Pays `amount` out of the custody account to `destination`, and closes the
/// account when that leaves it empty. Refused, with nothing moved, when the
/// account is closed or holds less.
pub fn transfer_htlc_out(vault: &mut Vault, destination: Pubkey, amount: u64) -> (r: Result<
    Transfer,
    HTLCError,
>)
    ensures
        r is Ok <==> can_pay(*old(vault), amount),
        match r {
            Ok(t) => {
                &&& *final(vault) == after_payout(*old(vault), amount)
                &&& t.to@ == destination@
                &&& t.amount == amount
                &&& t.close == !final(vault).open
            },
            Err(e) => e == HTLCError::InsufficientFunds && *final(vault) == *old(vault),
        },
{
    if !vault.open || vault.balance < amount {
        return Err(HTLCError::InsufficientFunds);
    }
    vault.balance = vault.balance - amount;
    let should_close = vault.balance == 0;
    if should_close {
        vault.open = false;
    }
    Ok(Transfer { to: destination, amount, close: should_close })
}

} // verus!
