//! Laws of the ledger, proved of the state machine that the executable
//! ledger follows call by call.

use crate::address::Address;
use crate::error::TokenError;
use crate::model::{LedgerState, Operation};
use crate::sparse::{
    amount_at, lemma_total_covers, lemma_total_covers_two, lemma_total_put, put, total,
};
use vstd::prelude::*;

verus! {

/// The ledger before anything happened is valid.
pub proof fn lemma_genesis_valid()
    ensures
        LedgerState::genesis().valid(),
{
}

/// Moving an amount between two different accounts keeps the sum of all
/// balances.
proof fn lemma_transfer_keeps_sum(balances: Map<Address, int>, from: Address, to: Address, n: int)
    requires
        balances.dom().finite(),
        from != to,
    ensures
        ({
            let debited = put(balances, from, amount_at(balances, from) - n);
            let credited = put(debited, to, amount_at(balances, to) + n);
            &&& credited.dom().finite()
            &&& total(credited) == total(balances)
        }),
{
    let debited = put(balances, from, amount_at(balances, from) - n);
    lemma_total_put(balances, from, amount_at(balances, from) - n);
    lemma_total_put(debited, to, amount_at(balances, to) + n);
}

/// No call leads from a valid state to one that is not.
pub proof fn lemma_step_keeps_valid(s: LedgerState, op: Operation)
    requires
        s.valid(),
    ensures
        s.step(op).valid(),
{
    match op {
        Operation::Initialize { .. } => {},
        Operation::Mint { signer, to, amount } => {
            if s.mint_result(signer, to, amount) is Ok {
                lemma_total_put(s.balances, to, s.balance_of(to) + amount);
            }
        },
        Operation::Burn { signer, from, amount } => {
            if s.burn_result(signer, from, amount) is Ok {
                lemma_total_covers(s.balances, from);
                lemma_total_put(s.balances, from, s.balance_of(from) - amount);
            }
        },
        Operation::Transfer { signer, from, to, amount } => {
            if s.transfer_result(signer, from, to, amount) is Ok {
                lemma_transfer_keeps_sum(s.balances, from, to, amount as int);
            }
        },
        Operation::Approve { .. } => {},
        Operation::TransferFrom { signer, spender, from, to, amount } => {
            if s.transfer_from_result(signer, spender, from, to, amount) is Ok {
                lemma_transfer_keeps_sum(s.balances, from, to, amount as int);
            }
        },
    }
}

/// Every state that calls lead to from the empty ledger is valid.
pub proof fn lemma_reachable_valid(ops: Seq<Operation>)
    ensures
        LedgerState::genesis().run(ops).valid(),
    decreases ops.len(),
{
    if ops.len() > 0 {
        lemma_reachable_valid(ops.drop_last());
        lemma_step_keeps_valid(LedgerState::genesis().run(ops.drop_last()), ops.last());
    }
}

/// Conservation: whatever calls were made, in whatever order and whether
/// accepted or refused, the total supply is the sum of all balances.
pub proof fn supply_is_sum_of_balances(ops: Seq<Operation>)
    ensures
        ({
            let reached = LedgerState::genesis().run(ops);
            reached.total_supply == total(reached.balances)
        }),
{
    lemma_reachable_valid(ops);
}

/// Whatever calls were made, no balance and no allowance is negative, no
/// balance exceeds the total supply, and all of them fit in an `i128`.
pub proof fn amounts_are_never_negative(
    ops: Seq<Operation>,
    account: Address,
    owner: Address,
    spender: Address,
)
    ensures
        ({
            let reached = LedgerState::genesis().run(ops);
            &&& 0 <= reached.balance_of(account) <= reached.total_supply <= i128::MAX
            &&& 0 <= reached.allowance_of(owner, spender) <= i128::MAX
        }),
{
    lemma_reachable_valid(ops);
    lemma_total_covers(LedgerState::genesis().run(ops).balances, account);
}

/// Once a ledger is initialized, calls leave it initialized and its
/// metadata as it is.
pub proof fn metadata_is_immutable(s: LedgerState, ops: Seq<Operation>)
    requires
        s.initialized(),
    ensures
        s.run(ops).metadata == s.metadata,
    decreases ops.len(),
{
    if ops.len() > 0 {
        metadata_is_immutable(s, ops.drop_last());
    }
}

/// A ledger is initialized once: after an accepted `initialize`, and
/// whatever calls followed, `initialize` is refused as
/// `AlreadyInitialized` for every signer and all arguments, and changes
/// nothing.
pub proof fn initialize_happens_once(
    s: LedgerState,
    first: Operation,
    between: Seq<Operation>,
    signer: Address,
    admin: Address,
    name: Seq<u8>,
    symbol: Seq<u8>,
    decimals: u32,
)
    requires
        first matches Operation::Initialize {
            signer: first_signer,
            admin: first_admin,
            name: first_name,
            symbol: first_symbol,
            decimals: first_decimals,
        } && s.initialize_result(
            first_signer,
            first_admin,
            first_name,
            first_symbol,
            first_decimals,
        ) is Ok,
    ensures
        ({
            let later = s.step(first).run(between);
            &&& later.initialize_result(signer, admin, name, symbol, decimals) is Err
            &&& later.initialize_result(signer, admin, name, symbol, decimals)->Err_0
                == TokenError::AlreadyInitialized
            &&& later.after_initialize(signer, admin, name, symbol, decimals) == later
        }),
{
    metadata_is_immutable(s.step(first), between);
}

/// An accepted `transfer` takes exactly the amount from the sender, gives
/// exactly the amount to the recipient, and leaves every other balance, the
/// total supply and all allowances as they were.
pub proof fn transfer_moves_exactly(
    s: LedgerState,
    signer: Address,
    from: Address,
    to: Address,
    amount: i128,
    other: Address,
)
    requires
        s.transfer_result(signer, from, to, amount) is Ok,
        other != from,
        other != to,
    ensures
        ({
            let after = s.after_transfer(signer, from, to, amount);
            &&& after.balance_of(from) == s.balance_of(from) - amount
            &&& after.balance_of(to) == s.balance_of(to) + amount
            &&& after.balance_of(other) == s.balance_of(other)
            &&& after.total_supply == s.total_supply
            &&& after.allowances == s.allowances
        }),
{
}

/// A transfer of a positive amount from an account to itself is refused as
/// `InvalidRecipient`, by `transfer` and by `transfer_from`, whoever signs
/// and whatever the account holds.
pub proof fn self_transfer_is_refused(
    s: LedgerState,
    signer: Address,
    spender: Address,
    account: Address,
    amount: i128,
)
    requires
        amount > 0,
    ensures
        s.transfer_result(signer, account, account, amount) is Err,
        s.transfer_result(signer, account, account, amount)->Err_0
            == TokenError::InvalidRecipient,
        s.transfer_from_result(signer, spender, account, account, amount) is Err,
        s.transfer_from_result(signer, spender, account, account, amount)->Err_0
            == TokenError::InvalidRecipient,
        s.after_transfer(signer, account, account, amount) == s,
        s.after_transfer_from(signer, spender, account, account, amount) == s,
{
}

/// An allowance is consumed by what is spent of it: after `approve` of
/// `allowed` and an accepted `transfer_from` of `spent`, the allowance is
/// `allowed - spent`, and a further `transfer_from` of more than that is
/// refused as `InsufficientAllowance`.
pub proof fn allowance_is_consumed(
    s: LedgerState,
    owner: Address,
    spender: Address,
    to: Address,
    allowed: i128,
    spent: i128,
    next: i128,
)
    requires
        s.approve_result(owner, owner, allowed) is Ok,
        s.after_approve(owner, owner, spender, allowed).transfer_from_result(
            spender,
            spender,
            owner,
            to,
            spent,
        ) is Ok,
        next > allowed - spent,
    ensures
        ({
            let approved = s.after_approve(owner, owner, spender, allowed);
            let used = approved.after_transfer_from(spender, spender, owner, to, spent);
            let again = used.transfer_from_result(spender, spender, owner, to, next);
            &&& approved.allowance_of(owner, spender) == allowed
            &&& used.allowance_of(owner, spender) == allowed - spent
            &&& again is Err
            &&& again->Err_0 == TokenError::InsufficientAllowance
        }),
{
}

/// `approve` sets the allowance to the amount, whatever it was before: the
/// last accepted call stands.
pub proof fn approve_sets_the_allowance(
    s: LedgerState,
    owner: Address,
    spender: Address,
    amount: i128,
)
    requires
        amount >= 0,
    ensures
        ({
            let after = s.after_approve(owner, owner, spender, amount);
            &&& after.allowance_of(owner, spender) == amount
            &&& after.balances == s.balances
            &&& after.total_supply == s.total_supply
        }),
{
}

/// A `mint` that would take the recipient's balance or the total supply
/// beyond `i128::MAX` is refused as `OverflowError`, and the state stays as
/// it was.
pub proof fn mint_beyond_range_is_refused(
    s: LedgerState,
    signer: Address,
    to: Address,
    amount: i128,
)
    requires
        s.admin() == Some(signer),
        amount > 0,
        s.balance_of(to) + amount > i128::MAX || s.total_supply + amount > i128::MAX,
    ensures
        s.mint_result(signer, to, amount) is Err,
        s.mint_result(signer, to, amount)->Err_0 == TokenError::OverflowError,
        s.after_mint(signer, to, amount) == s,
{
}

/// Before a ledger is initialized nothing can be minted, whoever signs.
pub proof fn nothing_is_minted_before_initialize(
    s: LedgerState,
    signer: Address,
    to: Address,
    amount: i128,
)
    requires
        !s.initialized(),
    ensures
        s.mint_result(signer, to, amount) is Err,
        s.after_mint(signer, to, amount) == s,
{
}

/// In a valid ledger the total supply bounds every balance, so `burn`,
/// `transfer` and `transfer_from` are never refused as `OverflowError`.
pub proof fn only_mint_can_overflow(
    s: LedgerState,
    signer: Address,
    spender: Address,
    from: Address,
    to: Address,
    amount: i128,
)
    requires
        s.valid(),
    ensures
        s.burn_result(signer, from, amount) matches Err(refusal) ==> refusal
            != TokenError::OverflowError,
        s.transfer_result(signer, from, to, amount) matches Err(refusal) ==> refusal
            != TokenError::OverflowError,
        s.transfer_from_result(signer, spender, from, to, amount) matches Err(refusal) ==> refusal
            != TokenError::OverflowError,
{
    lemma_total_covers(s.balances, from);
    if from != to {
        lemma_total_covers_two(s.balances, from, to);
    }
}

/// What an accepted call reports of an entry and of the total supply is what
/// the ledger holds after the call.
pub proof fn reports_agree_with_state(
    s: LedgerState,
    signer: Address,
    spender: Address,
    from: Address,
    to: Address,
    amount: i128,
)
    requires
        s.valid(),
    ensures
        s.mint_result(signer, to, amount) matches Ok(minted) ==> {
            let after = s.after_mint(signer, to, amount);
            &&& minted.amount == amount
            &&& minted.balance.stored() == after.balance_of(to)
            &&& minted.total_supply == after.total_supply
        },
        s.burn_result(signer, from, amount) matches Ok(burned) ==> {
            let after = s.after_burn(signer, from, amount);
            &&& burned.amount == amount
            &&& burned.balance.stored() == after.balance_of(from)
            &&& burned.total_supply == after.total_supply
        },
        s.transfer_result(signer, from, to, amount) matches Ok(moved) ==> {
            let after = s.after_transfer(signer, from, to, amount);
            &&& moved.amount == amount
            &&& moved.from_balance.stored() == after.balance_of(from)
            &&& moved.to_balance.stored() == after.balance_of(to)
        },
        s.approve_result(signer, from, amount) matches Ok(approved) ==> approved.allowance.stored()
            == s.after_approve(signer, from, spender, amount).allowance_of(from, spender),
        s.transfer_from_result(signer, spender, from, to, amount) matches Ok(moved) ==> {
            let after = s.after_transfer_from(signer, spender, from, to, amount);
            &&& moved.amount == amount
            &&& moved.from_balance.stored() == after.balance_of(from)
            &&& moved.to_balance.stored() == after.balance_of(to)
            &&& moved.allowance.stored() == after.allowance_of(from, spender)
        },
{
    lemma_total_covers(s.balances, from);
    lemma_total_covers(s.balances, to);
}

/// Only `mint` raises the total supply and only `burn` lowers it.
pub proof fn supply_changes_only_by_mint_and_burn(s: LedgerState, op: Operation)
    requires
        s.valid(),
    ensures
        s.step(op).total_supply > s.total_supply ==> op is Mint,
        s.step(op).total_supply < s.total_supply ==> op is Burn,
{
}

} // verus!
