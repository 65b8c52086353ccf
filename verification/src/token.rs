//! The ledger itself: balances, allowances and total supply behind the
//! operations of a fungible token.

use crate::address::{Address, AllowanceKey};
use crate::error::TokenError;
use crate::laws::lemma_step_keeps_valid;
use crate::model::{LedgerState, Metadata, Operation};
use crate::rules::{
    plan_approve, plan_burn, plan_initialize, plan_mint, plan_transfer, plan_transfer_from,
    Approved, Burned, Initialized, Minted, Transferred, TransferredFrom,
};
use crate::sparse::{lemma_total_covers, lemma_total_nonnegative, total, SparseMap};
use vstd::prelude::*;

verus! {

/// What `initialize` records.
struct TokenMetadata {
    admin: Address,
    name: Vec<u8>,
    symbol: Vec<u8>,
    decimals: u32,
}

/// A token ledger.
///
/// Its view is the [`LedgerState`] that it stands for. Every operation
/// answers as the state machine does and moves the view as the state machine
/// says; an operation that is refused changes nothing.
///
/// An operation names its `signer`: the address of which the caller has
/// proved control. The ledger decides which address that has to be, and
/// refuses every other.
pub struct TokenBDB {
    metadata: Option<TokenMetadata>,
    total_supply: i128,
    balances: SparseMap<Address>,
    allowances: SparseMap<AllowanceKey>,
}

impl View for TokenBDB {
    type V = LedgerState;

    closed spec fn view(&self) -> LedgerState {
        LedgerState {
            metadata: match self.metadata {
                Some(m) => Some(
                    Metadata {
                        admin: m.admin,
                        name: m.name@,
                        symbol: m.symbol@,
                        decimals: m.decimals,
                    },
                ),
                None => None,
            },
            total_supply: self.total_supply as int,
            balances: self.balances@,
            allowances: self.allowances@,
        }
    }
}

impl TokenBDB {
    /// Both maps are well-formed, the total supply is the sum of all balances,
    /// and the metadata is within its limits.
    pub closed spec fn wf(&self) -> bool {
        &&& self.balances.wf()
        &&& self.allowances.wf()
        &&& self@.conserved()
        &&& match self@.metadata {
            Some(m) => m.valid(),
            None => self.total_supply == 0,
        }
    }

    /// A well-formed ledger stands for a valid state: the total supply is the
    /// sum of all balances, and no balance and no allowance is negative.
    pub proof fn lemma_valid(&self)
        requires
            self.wf(),
        ensures
            self@.valid(),
    {
        self.balances.lemma_view();
        self.allowances.lemma_view();
    }

    /// The empty ledger, not yet initialized.
    pub fn new() -> (ledger: TokenBDB)
        ensures
            ledger.wf(),
            ledger@ == LedgerState::genesis(),
    {
        TokenBDB {
            metadata: None,
            total_supply: 0,
            balances: SparseMap::new(),
            allowances: SparseMap::new(),
        }
    }

    /// Whether `initialize` has been accepted.
    pub fn is_initialized(&self) -> (yes: bool)
        ensures
            yes == self@.initialized(),
    {
        self.metadata.is_some()
    }

    /// Records the administrator and the metadata and puts the total supply
    /// to zero, once.
    ///
    /// Refused, in this order: as `AlreadyInitialized` on an initialized
    /// ledger; as `InvalidMetadata` where name or symbol is empty or longer
    /// than `MAX_NAME_LENGTH` or `MAX_SYMBOL_LENGTH`; as `InvalidDecimals`
    /// where there are more than `MAX_DECIMALS`; as `Unauthorized` where the
    /// signer is not `admin`.
    pub fn initialize(
        &mut self,
        signer: Address,
        admin: Address,
        name: Vec<u8>,
        symbol: Vec<u8>,
        decimals: u32,
    ) -> (result: Result<Initialized, TokenError>)
        requires
            old(self).wf(),
        ensures
            final(self).wf(),
            result == old(self)@.initialize_result(signer, admin, name@, symbol@, decimals),
            final(self)@ == old(self)@.after_initialize(signer, admin, name@, symbol@, decimals),
            old(self)@.initialized() ==> result == Err::<Initialized, _>(
                TokenError::AlreadyInitialized,
            ),
            result is Ok ==> final(self)@.initialized() && final(self)@.total_supply == 0,
            result is Err ==> final(self)@ == old(self)@,
    {
        match plan_initialize(
            self.metadata.is_some(),
            signer,
            admin,
            name.len(),
            symbol.len(),
            decimals,
        ) {
            Ok(initialized) => {
                proof {
                    self.lemma_valid();
                    lemma_step_keeps_valid(
                        self@,
                        Operation::Initialize {
                            signer,
                            admin,
                            name: name@,
                            symbol: symbol@,
                            decimals,
                        },
                    );
                }
                self.metadata = Some(TokenMetadata { admin, name, symbol, decimals });
                self.total_supply = initialized.total_supply;
                Ok(initialized)
            },
            Err(refusal) => Err(refusal),
        }
    }

    /// Creates `amount` new tokens for `to`.
    ///
    /// Refused, in this order: as `InvalidAmount` where the amount is not
    /// positive; as `Unauthorized` where the signer is not the administrator
    /// (a ledger that is not initialized has none); as `OverflowError` where
    /// the balance of `to` or the total supply would exceed `i128::MAX`.
    pub fn mint(&mut self, signer: Address, to: Address, amount: i128) -> (result: Result<
        Minted,
        TokenError,
    >)
        requires
            old(self).wf(),
        ensures
            final(self).wf(),
            result == old(self)@.mint_result(signer, to, amount),
            final(self)@ == old(self)@.after_mint(signer, to, amount),
            result is Ok ==> {
                &&& final(self)@.balance_of(to) == old(self)@.balance_of(to) + amount
                &&& final(self)@.total_supply == old(self)@.total_supply + amount
            },
            result is Err ==> final(self)@ == old(self)@,
    {
        let admin = match &self.metadata {
            Some(m) => Some(m.admin),
            None => None,
        };
        let balance = self.balances.get(&to);
        match plan_mint(signer, admin, balance, self.total_supply, amount) {
            Ok(minted) => {
                proof {
                    self.lemma_valid();
                    lemma_step_keeps_valid(self@, Operation::Mint { signer, to, amount });
                }
                self.balances.apply(to, minted.balance);
                self.total_supply = minted.total_supply;
                Ok(minted)
            },
            Err(refusal) => Err(refusal),
        }
    }

    /// Destroys `amount` tokens of `from`.
    ///
    /// Refused, in this order: as `InvalidAmount` where the amount is not
    /// positive; as `Unauthorized` where the signer is not `from`; as
    /// `InsufficientBalance` where `from` holds less than the amount. The
    /// subtraction from the total supply is guarded as well, but in a
    /// well-formed ledger the total supply covers every balance.
    pub fn burn(&mut self, signer: Address, from: Address, amount: i128) -> (result: Result<
        Burned,
        TokenError,
    >)
        requires
            old(self).wf(),
        ensures
            final(self).wf(),
            result == old(self)@.burn_result(signer, from, amount),
            final(self)@ == old(self)@.after_burn(signer, from, amount),
            result is Ok ==> {
                &&& final(self)@.balance_of(from) == old(self)@.balance_of(from) - amount
                &&& final(self)@.total_supply == old(self)@.total_supply - amount
            },
            result is Err ==> final(self)@ == old(self)@,
    {
        let balance = self.balances.get(&from);
        match plan_burn(signer, from, balance, self.total_supply, amount) {
            Ok(burned) => {
                proof {
                    self.lemma_valid();
                    lemma_step_keeps_valid(self@, Operation::Burn { signer, from, amount });
                }
                self.balances.apply(from, burned.balance);
                self.total_supply = burned.total_supply;
                Ok(burned)
            },
            Err(refusal) => Err(refusal),
        }
    }

    /// What `id` holds; zero for an account that the ledger has never seen or
    /// that was emptied.
    pub fn balance(&self, id: Address) -> (amount: i128)
        requires
            self.wf(),
        ensures
            amount == self@.balance_of(id),
            0 <= amount <= self@.total_supply,
    {
        proof {
            self.lemma_valid();
            lemma_total_covers(self@.balances, id);
        }
        self.balances.get(&id)
    }

    /// Moves `amount` tokens from `from` to `to`.
    ///
    /// Refused, in this order: as `InvalidAmount` where the amount is not
    /// positive; as `InvalidRecipient` where `from` and `to` are the same; as
    /// `Unauthorized` where the signer is not `from`; as
    /// `InsufficientBalance` where `from` holds less than the amount. The
    /// addition to the balance of `to` is guarded as well, but in a
    /// well-formed ledger the total supply, which fits, covers both balances.
    pub fn transfer(
        &mut self,
        signer: Address,
        from: Address,
        to: Address,
        amount: i128,
    ) -> (result: Result<Transferred, TokenError>)
        requires
            old(self).wf(),
        ensures
            final(self).wf(),
            result == old(self)@.transfer_result(signer, from, to, amount),
            final(self)@ == old(self)@.after_transfer(signer, from, to, amount),
            result is Ok ==> {
                &&& final(self)@.balance_of(from) == old(self)@.balance_of(from) - amount
                &&& final(self)@.balance_of(to) == old(self)@.balance_of(to) + amount
            },
            result is Err ==> final(self)@ == old(self)@,
            final(self)@.total_supply == old(self)@.total_supply,
            amount > 0 && from == to ==> result == Err::<Transferred, _>(
                TokenError::InvalidRecipient,
            ),
    {
        let from_balance = self.balances.get(&from);
        let to_balance = self.balances.get(&to);
        match plan_transfer(signer, from, to, from_balance, to_balance, amount) {
            Ok(moved) => {
                proof {
                    self.lemma_valid();
                    lemma_step_keeps_valid(
                        self@,
                        Operation::Transfer { signer, from, to, amount },
                    );
                }
                self.balances.apply(from, moved.from_balance);
                self.balances.apply(to, moved.to_balance);
                Ok(moved)
            },
            Err(refusal) => Err(refusal),
        }
    }

    /// Lets `spender` spend up to `amount` of the funds of `from`. The amount
    /// replaces what was allowed before; zero revokes.
    ///
    /// Refused, in this order: as `InvalidAmount` where the amount is
    /// negative; as `Unauthorized` where the signer is not `from`.
    pub fn approve(
        &mut self,
        signer: Address,
        from: Address,
        spender: Address,
        amount: i128,
    ) -> (result: Result<Approved, TokenError>)
        requires
            old(self).wf(),
        ensures
            final(self).wf(),
            result == old(self)@.approve_result(signer, from, amount),
            final(self)@ == old(self)@.after_approve(signer, from, spender, amount),
            result is Ok ==> final(self)@.allowance_of(from, spender) == amount,
            result is Err ==> final(self)@ == old(self)@,
    {
        match plan_approve(signer, from, amount) {
            Ok(approved) => {
                proof {
                    self.lemma_valid();
                    lemma_step_keeps_valid(
                        self@,
                        Operation::Approve { signer, from, spender, amount },
                    );
                }
                self.allowances.apply(AllowanceKey { owner: from, spender }, approved.allowance);
                Ok(approved)
            },
            Err(refusal) => Err(refusal),
        }
    }

    /// What `spender` may still spend of the funds of `from`; zero where
    /// nothing was approved or all of it was spent or revoked.
    pub fn allowance(&self, from: Address, spender: Address) -> (amount: i128)
        requires
            self.wf(),
        ensures
            amount == self@.allowance_of(from, spender),
            amount >= 0,
    {
        self.allowances.get(&AllowanceKey { owner: from, spender })
    }

    /// Moves `amount` tokens from `from` to `to` on behalf of `spender`, and
    /// takes the amount off what `spender` may spend.
    ///
    /// Refused, in this order: as `InvalidAmount` where the amount is not
    /// positive; as `InvalidRecipient` where `from` and `to` are the same; as
    /// `Unauthorized` where the signer is not `spender`; as
    /// `InsufficientAllowance` where `spender` may spend less than the
    /// amount; as `InsufficientBalance` where `from` holds less than the
    /// amount.
    pub fn transfer_from(
        &mut self,
        signer: Address,
        spender: Address,
        from: Address,
        to: Address,
        amount: i128,
    ) -> (result: Result<TransferredFrom, TokenError>)
        requires
            old(self).wf(),
        ensures
            final(self).wf(),
            result == old(self)@.transfer_from_result(signer, spender, from, to, amount),
            final(self)@ == old(self)@.after_transfer_from(signer, spender, from, to, amount),
            result is Ok ==> {
                &&& final(self)@.balance_of(from) == old(self)@.balance_of(from) - amount
                &&& final(self)@.balance_of(to) == old(self)@.balance_of(to) + amount
                &&& final(self)@.allowance_of(from, spender) == old(self)@.allowance_of(
                    from,
                    spender,
                ) - amount
            },
            result is Err ==> final(self)@ == old(self)@,
            final(self)@.total_supply == old(self)@.total_supply,
            amount > 0 && from == to ==> result == Err::<TransferredFrom, _>(
                TokenError::InvalidRecipient,
            ),
    {
        let key = AllowanceKey { owner: from, spender };
        let allowance = self.allowances.get(&key);
        let from_balance = self.balances.get(&from);
        let to_balance = self.balances.get(&to);
        match plan_transfer_from(
            signer,
            spender,
            from,
            to,
            allowance,
            from_balance,
            to_balance,
            amount,
        ) {
            Ok(moved) => {
                proof {
                    self.lemma_valid();
                    lemma_step_keeps_valid(
                        self@,
                        Operation::TransferFrom { signer, spender, from, to, amount },
                    );
                }
                self.balances.apply(from, moved.from_balance);
                self.balances.apply(to, moved.to_balance);
                self.allowances.apply(key, moved.allowance);
                Ok(moved)
            },
            Err(refusal) => Err(refusal),
        }
    }

    /// The name of the token; empty before initialization.
    pub fn name(&self) -> (text: Vec<u8>)
        ensures
            text@ == self@.name(),
    {
        match &self.metadata {
            Some(m) => m.name.clone(),
            None => Vec::new(),
        }
    }

    /// The symbol of the token; empty before initialization.
    pub fn symbol(&self) -> (text: Vec<u8>)
        ensures
            text@ == self@.symbol(),
    {
        match &self.metadata {
            Some(m) => m.symbol.clone(),
            None => Vec::new(),
        }
    }

    /// The decimals of the token; zero before initialization.
    pub fn decimals(&self) -> (count: u32)
        ensures
            count == self@.decimals(),
    {
        match &self.metadata {
            Some(m) => m.decimals,
            None => 0,
        }
    }

    /// The total supply, which is the sum of all balances.
    pub fn total_supply(&self) -> (supply: i128)
        requires
            self.wf(),
        ensures
            supply == self@.total_supply,
            supply == total(self@.balances),
            supply >= 0,
    {
        proof {
            self.lemma_valid();
            lemma_total_nonnegative(self@.balances);
        }
        self.total_supply
    }

    /// The administrator of an initialized ledger.
    pub fn admin(&self) -> (who: Address)
        requires
            self@.initialized(),
        ensures
            self@.admin() == Some(who),
    {
        self.metadata.as_ref().unwrap().admin
    }
}

} // verus!
