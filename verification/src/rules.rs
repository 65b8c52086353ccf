//! The rules of each ledger operation, as functions of the entries that the
//! operation reads. Each rule either refuses the operation or says what to
//! write back; nothing is written here, so a refused operation leaves no
//! trace.
//!
//! A rule that accepts answers with what the operation reports: the amount,
//! the update of every entry that the operation touches, and the new total
//! supply where it changes.

use crate::address::Address;
use crate::error::TokenError;
use crate::sparse::{entry_update, update_for, EntryUpdate};
use vstd::prelude::*;

verus! {

/// The largest number of decimals a token may have.
pub const MAX_DECIMALS: u32 = 18;

/// The largest length of a token name, in bytes.
pub const MAX_NAME_LENGTH: usize = 100;

/// The largest length of a token symbol, in bytes.
pub const MAX_SYMBOL_LENGTH: usize = 32;

/// What an accepted `initialize` reports: the total supply with which the
/// ledger starts.
#[derive(Clone, Copy, Debug, PartialEq, Eq, Structural)]
pub struct Initialized {
    pub total_supply: i128,
}

/// What an accepted `mint` reports: the amount created, the update of the
/// recipient's balance, and the total supply after it.
#[derive(Clone, Copy, Debug, PartialEq, Eq, Structural)]
pub struct Minted {
    pub amount: i128,
    pub balance: EntryUpdate,
    pub total_supply: i128,
}

/// What an accepted `burn` reports: the amount destroyed, the update of the
/// holder's balance, and the total supply after it.
#[derive(Clone, Copy, Debug, PartialEq, Eq, Structural)]
pub struct Burned {
    pub amount: i128,
    pub balance: EntryUpdate,
    pub total_supply: i128,
}

/// What an accepted `transfer` reports: the amount moved and the updates of
/// both balances.
#[derive(Clone, Copy, Debug, PartialEq, Eq, Structural)]
pub struct Transferred {
    pub amount: i128,
    pub from_balance: EntryUpdate,
    pub to_balance: EntryUpdate,
}

/// What an accepted `approve` reports: the update of the allowance.
#[derive(Clone, Copy, Debug, PartialEq, Eq, Structural)]
pub struct Approved {
    pub allowance: EntryUpdate,
}

/// What an accepted `transfer_from` reports: the amount moved and the updates
/// of both balances and of the allowance.
#[derive(Clone, Copy, Debug, PartialEq, Eq, Structural)]
pub struct TransferredFrom {
    pub amount: i128,
    pub from_balance: EntryUpdate,
    pub to_balance: EntryUpdate,
    pub allowance: EntryUpdate,
}

/// What `initialize` does: it is accepted once, and the ledger starts without
/// supply. Name and symbol, of which the rule reads the lengths, must not be
/// empty nor longer than their limits, and `admin` must sign.
pub open spec fn initialize_outcome(
    initialized: bool,
    signer: Address,
    admin: Address,
    name_length: int,
    symbol_length: int,
    decimals: u32,
) -> Result<Initialized, TokenError> {
    if initialized {
        Err(TokenError::AlreadyInitialized)
    } else if name_length <= 0 || name_length > MAX_NAME_LENGTH {
        Err(TokenError::InvalidMetadata)
    } else if symbol_length <= 0 || symbol_length > MAX_SYMBOL_LENGTH {
        Err(TokenError::InvalidMetadata)
    } else if decimals > MAX_DECIMALS {
        Err(TokenError::InvalidDecimals)
    } else if signer != admin {
        Err(TokenError::Unauthorized)
    } else {
        Ok(Initialized { total_supply: 0 })
    }
}

/// What `mint` does to a recipient's `balance` and to the `total_supply`. The
/// amount must be positive, the administrator must sign, and neither sum may
/// exceed `i128::MAX`. While there is no administrator, nobody can sign as
/// one.
pub open spec fn mint_outcome(
    signer: Address,
    admin: Option<Address>,
    balance: int,
    total_supply: int,
    amount: int,
) -> Result<Minted, TokenError> {
    if amount <= 0 {
        Err(TokenError::InvalidAmount)
    } else if admin != Some(signer) {
        Err(TokenError::Unauthorized)
    } else if balance + amount > i128::MAX || total_supply + amount > i128::MAX {
        Err(TokenError::OverflowError)
    } else {
        Ok(
            Minted {
                amount: amount as i128,
                balance: update_for(balance + amount),
                total_supply: (total_supply + amount) as i128,
            },
        )
    }
}

/// What `burn` does to the `balance` of `from` and to the `total_supply`. The
/// amount must be positive, `from` must sign and hold the amount, and the
/// total supply must stay in the range of `i128`.
pub open spec fn burn_outcome(
    signer: Address,
    from: Address,
    balance: int,
    total_supply: int,
    amount: int,
) -> Result<Burned, TokenError> {
    if amount <= 0 {
        Err(TokenError::InvalidAmount)
    } else if signer != from {
        Err(TokenError::Unauthorized)
    } else if balance < amount {
        Err(TokenError::InsufficientBalance)
    } else if total_supply - amount < i128::MIN {
        Err(TokenError::OverflowError)
    } else {
        Ok(
            Burned {
                amount: amount as i128,
                balance: update_for(balance - amount),
                total_supply: (total_supply - amount) as i128,
            },
        )
    }
}

/// What `transfer` does to the balances of `from` and `to`. The amount must be
/// positive, the two accounts must differ, `from` must sign and hold the
/// amount, and the recipient's balance may not exceed `i128::MAX`.
pub open spec fn transfer_outcome(
    signer: Address,
    from: Address,
    to: Address,
    from_balance: int,
    to_balance: int,
    amount: int,
) -> Result<Transferred, TokenError> {
    if amount <= 0 {
        Err(TokenError::InvalidAmount)
    } else if from == to {
        Err(TokenError::InvalidRecipient)
    } else if signer != from {
        Err(TokenError::Unauthorized)
    } else if from_balance < amount {
        Err(TokenError::InsufficientBalance)
    } else if to_balance + amount > i128::MAX {
        Err(TokenError::OverflowError)
    } else {
        Ok(
            Transferred {
                amount: amount as i128,
                from_balance: update_for(from_balance - amount),
                to_balance: update_for(to_balance + amount),
            },
        )
    }
}

/// What `approve` does to an allowance: the amount, which must not be
/// negative, replaces it, and zero revokes it. `from` must sign.
pub open spec fn approve_outcome(signer: Address, from: Address, amount: int) -> Result<
    Approved,
    TokenError,
> {
    if amount < 0 {
        Err(TokenError::InvalidAmount)
    } else if signer != from {
        Err(TokenError::Unauthorized)
    } else {
        Ok(Approved { allowance: update_for(amount) })
    }
}

/// What `transfer_from` does to the allowance that `from` gave `spender` and
/// to the balances of `from` and `to`. The amount must be positive, the two
/// accounts must differ, `spender` must sign, the allowance and the balance of
/// `from` must cover the amount, and the recipient's balance may not exceed
/// `i128::MAX`.
pub open spec fn transfer_from_outcome(
    signer: Address,
    spender: Address,
    from: Address,
    to: Address,
    allowance: int,
    from_balance: int,
    to_balance: int,
    amount: int,
) -> Result<TransferredFrom, TokenError> {
    if amount <= 0 {
        Err(TokenError::InvalidAmount)
    } else if from == to {
        Err(TokenError::InvalidRecipient)
    } else if signer != spender {
        Err(TokenError::Unauthorized)
    } else if allowance < amount {
        Err(TokenError::InsufficientAllowance)
    } else if from_balance < amount {
        Err(TokenError::InsufficientBalance)
    } else if to_balance + amount > i128::MAX {
        Err(TokenError::OverflowError)
    } else {
        Ok(
            TransferredFrom {
                amount: amount as i128,
                from_balance: update_for(from_balance - amount),
                to_balance: update_for(to_balance + amount),
                allowance: update_for(allowance - amount),
            },
        )
    }
}

/// Plans an `initialize` with a name and a symbol of these lengths on a ledger
/// whose initialization flag is `initialized`.
pub fn plan_initialize(
    initialized: bool,
    signer: Address,
    admin: Address,
    name_length: usize,
    symbol_length: usize,
    decimals: u32,
) -> (outcome: Result<Initialized, TokenError>)
    ensures
        outcome == initialize_outcome(
            initialized,
            signer,
            admin,
            name_length as int,
            symbol_length as int,
            decimals,
        ),
{
    if initialized {
        return Err(TokenError::AlreadyInitialized);
    }
    if name_length == 0 || name_length > MAX_NAME_LENGTH {
        return Err(TokenError::InvalidMetadata);
    }
    if symbol_length == 0 || symbol_length > MAX_SYMBOL_LENGTH {
        return Err(TokenError::InvalidMetadata);
    }
    if decimals > MAX_DECIMALS {
        return Err(TokenError::InvalidDecimals);
    }
    if signer != admin {
        return Err(TokenError::Unauthorized);
    }
    Ok(Initialized { total_supply: 0 })
}

/// Plans a `mint` of `amount` for a recipient who holds `balance`, on a ledger
/// whose administrator, once it is initialized, is `admin` and whose supply is
/// `total_supply`.
pub fn plan_mint(
    signer: Address,
    admin: Option<Address>,
    balance: i128,
    total_supply: i128,
    amount: i128,
) -> (outcome: Result<Minted, TokenError>)
    ensures
        outcome == mint_outcome(signer, admin, balance as int, total_supply as int, amount as int),
{
    if amount <= 0 {
        return Err(TokenError::InvalidAmount);
    }
    match admin {
        Some(administrator) => {
            if signer != administrator {
                return Err(TokenError::Unauthorized);
            }
        },
        None => {
            return Err(TokenError::Unauthorized);
        },
    }
    let new_balance = match balance.checked_add(amount) {
        Some(sum) => sum,
        None => { return Err(TokenError::OverflowError); },
    };
    let new_total_supply = match total_supply.checked_add(amount) {
        Some(sum) => sum,
        None => { return Err(TokenError::OverflowError); },
    };
    Ok(Minted { amount, balance: entry_update(new_balance), total_supply: new_total_supply })
}

/// Plans a `burn` of `amount` from the account `from`, which holds `balance`,
/// on a ledger whose supply is `total_supply`.
pub fn plan_burn(
    signer: Address,
    from: Address,
    balance: i128,
    total_supply: i128,
    amount: i128,
) -> (outcome: Result<Burned, TokenError>)
    ensures
        outcome == burn_outcome(signer, from, balance as int, total_supply as int, amount as int),
{
    if amount <= 0 {
        return Err(TokenError::InvalidAmount);
    }
    if signer != from {
        return Err(TokenError::Unauthorized);
    }
    if balance < amount {
        return Err(TokenError::InsufficientBalance);
    }
    let new_balance = balance - amount;
    let new_total_supply = match total_supply.checked_sub(amount) {
        Some(difference) => difference,
        None => { return Err(TokenError::OverflowError); },
    };
    Ok(Burned { amount, balance: entry_update(new_balance), total_supply: new_total_supply })
}

/// Plans a `transfer` of `amount` from `from`, which holds `from_balance`, to
/// `to`, which holds `to_balance`.
pub fn plan_transfer(
    signer: Address,
    from: Address,
    to: Address,
    from_balance: i128,
    to_balance: i128,
    amount: i128,
) -> (outcome: Result<Transferred, TokenError>)
    ensures
        outcome == transfer_outcome(
            signer,
            from,
            to,
            from_balance as int,
            to_balance as int,
            amount as int,
        ),
{
    if amount <= 0 {
        return Err(TokenError::InvalidAmount);
    }
    if from == to {
        return Err(TokenError::InvalidRecipient);
    }
    if signer != from {
        return Err(TokenError::Unauthorized);
    }
    if from_balance < amount {
        return Err(TokenError::InsufficientBalance);
    }
    let new_from_balance = from_balance - amount;
    let new_to_balance = match to_balance.checked_add(amount) {
        Some(sum) => sum,
        None => { return Err(TokenError::OverflowError); },
    };
    Ok(
        Transferred {
            amount,
            from_balance: entry_update(new_from_balance),
            to_balance: entry_update(new_to_balance),
        },
    )
}

/// Plans an `approve` of `amount` by `from`.
pub fn plan_approve(signer: Address, from: Address, amount: i128) -> (outcome: Result<
    Approved,
    TokenError,
>)
    ensures
        outcome == approve_outcome(signer, from, amount as int),
{
    if amount < 0 {
        return Err(TokenError::InvalidAmount);
    }
    if signer != from {
        return Err(TokenError::Unauthorized);
    }
    Ok(Approved { allowance: entry_update(amount) })
}

/// Plans a `transfer_from` of `amount` by `spender`, who may spend `allowance`
/// of the funds of `from`, from `from`, which holds `from_balance`, to `to`,
/// which holds `to_balance`.
pub fn plan_transfer_from(
    signer: Address,
    spender: Address,
    from: Address,
    to: Address,
    allowance: i128,
    from_balance: i128,
    to_balance: i128,
    amount: i128,
) -> (outcome: Result<TransferredFrom, TokenError>)
    ensures
        outcome == transfer_from_outcome(
            signer,
            spender,
            from,
            to,
            allowance as int,
            from_balance as int,
            to_balance as int,
            amount as int,
        ),
{
    if amount <= 0 {
        return Err(TokenError::InvalidAmount);
    }
    if from == to {
        return Err(TokenError::InvalidRecipient);
    }
    if signer != spender {
        return Err(TokenError::Unauthorized);
    }
    if allowance < amount {
        return Err(TokenError::InsufficientAllowance);
    }
    if from_balance < amount {
        return Err(TokenError::InsufficientBalance);
    }
    let new_from_balance = from_balance - amount;
    let new_to_balance = match to_balance.checked_add(amount) {
        Some(sum) => sum,
        None => { return Err(TokenError::OverflowError); },
    };
    let new_allowance = allowance - amount;
    Ok(
        TransferredFrom {
            amount,
            from_balance: entry_update(new_from_balance),
            to_balance: entry_update(new_to_balance),
            allowance: entry_update(new_allowance),
        },
    )
}

} // verus!
