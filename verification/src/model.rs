//! The ledger as a state machine over mathematical maps: what each call
//! answers, and which state it leaves.

use crate::address::{Address, AllowanceKey};
use crate::error::TokenError;
use crate::rules::{
    approve_outcome, burn_outcome, initialize_outcome, mint_outcome,
    transfer_from_outcome, transfer_outcome, Approved, Burned, Initialized, Minted,
    Transferred, TransferredFrom, MAX_DECIMALS, MAX_NAME_LENGTH, MAX_SYMBOL_LENGTH,
};
use crate::sparse::{amount_at, is_sparse, put, total};
use vstd::prelude::*;

verus! {

/// What `initialize` records. Name and symbol are texts as sequences of
/// bytes.
pub struct Metadata {
    pub admin: Address,
    pub name: Seq<u8>,
    pub symbol: Seq<u8>,
    pub decimals: u32,
}

impl Metadata {
    /// Name and symbol are present and within their limits, and so are the
    /// decimals.
    pub open spec fn valid(self) -> bool {
        &&& 1 <= self.name.len() <= MAX_NAME_LENGTH
        &&& 1 <= self.symbol.len() <= MAX_SYMBOL_LENGTH
        &&& self.decimals <= MAX_DECIMALS
    }
}

/// The state of a ledger. The metadata is there once the ledger is
/// initialized; an account or an allowance that a map does not hold is zero.
pub struct LedgerState {
    pub metadata: Option<Metadata>,
    pub total_supply: int,
    pub balances: Map<Address, int>,
    pub allowances: Map<AllowanceKey, int>,
}

/// A call of one of the operations that change a ledger, with its signer.
pub enum Operation {
    Initialize {
        signer: Address,
        admin: Address,
        name: Seq<u8>,
        symbol: Seq<u8>,
        decimals: u32,
    },
    Mint { signer: Address, to: Address, amount: i128 },
    Burn { signer: Address, from: Address, amount: i128 },
    Transfer { signer: Address, from: Address, to: Address, amount: i128 },
    Approve { signer: Address, from: Address, spender: Address, amount: i128 },
    TransferFrom {
        signer: Address,
        spender: Address,
        from: Address,
        to: Address,
        amount: i128,
    },
}

impl LedgerState {
    /// The ledger before anything happened: not initialized, nothing held,
    /// nothing allowed.
    pub open spec fn genesis() -> LedgerState {
        LedgerState {
            metadata: None,
            total_supply: 0,
            balances: Map::empty(),
            allowances: Map::empty(),
        }
    }

    /// Whether `initialize` has been accepted.
    pub open spec fn initialized(self) -> bool {
        self.metadata is Some
    }

    /// The administrator, once the ledger is initialized.
    pub open spec fn admin(self) -> Option<Address> {
        match self.metadata {
            Some(m) => Some(m.admin),
            None => None,
        }
    }

    /// The name; empty before initialization.
    pub open spec fn name(self) -> Seq<u8> {
        match self.metadata {
            Some(m) => m.name,
            None => Seq::empty(),
        }
    }

    /// The symbol; empty before initialization.
    pub open spec fn symbol(self) -> Seq<u8> {
        match self.metadata {
            Some(m) => m.symbol,
            None => Seq::empty(),
        }
    }

    /// The decimals; zero before initialization.
    pub open spec fn decimals(self) -> u32 {
        match self.metadata {
            Some(m) => m.decimals,
            None => 0,
        }
    }

    /// What `a` holds.
    pub open spec fn balance_of(self, a: Address) -> int {
        amount_at(self.balances, a)
    }

    /// What `spender` may still spend of the funds of `owner`.
    pub open spec fn allowance_of(self, owner: Address, spender: Address) -> int {
        amount_at(self.allowances, AllowanceKey { owner, spender })
    }

    /// The total supply is the sum of all balances.
    pub open spec fn conserved(self) -> bool {
        self.total_supply == total(self.balances)
    }

    /// What holds of every state that the operations can reach: finitely
    /// many entries, each positive and within `i128`; a total supply that is
    /// the sum of all balances and within `i128`; metadata within its limits,
    /// and no supply before the ledger is initialized.
    pub open spec fn valid(self) -> bool {
        &&& self.balances.dom().finite()
        &&& self.allowances.dom().finite()
        &&& is_sparse(self.balances)
        &&& is_sparse(self.allowances)
        &&& self.conserved()
        &&& self.total_supply <= i128::MAX
        &&& match self.metadata {
            Some(m) => m.valid(),
            None => self.total_supply == 0,
        }
    }

    /// The answer to `initialize`.
    pub open spec fn initialize_result(
        self,
        signer: Address,
        admin: Address,
        name: Seq<u8>,
        symbol: Seq<u8>,
        decimals: u32,
    ) -> Result<Initialized, TokenError> {
        initialize_outcome(
            self.initialized(),
            signer,
            admin,
            name.len() as int,
            symbol.len() as int,
            decimals,
        )
    }

    /// The state after `initialize`: the metadata is recorded and the total
    /// supply is zero where the call is accepted.
    pub open spec fn after_initialize(
        self,
        signer: Address,
        admin: Address,
        name: Seq<u8>,
        symbol: Seq<u8>,
        decimals: u32,
    ) -> LedgerState {
        match self.initialize_result(signer, admin, name, symbol, decimals) {
            Ok(_) => LedgerState {
                metadata: Some(Metadata { admin, name, symbol, decimals }),
                total_supply: 0,
                ..self
            },
            Err(_) => self,
        }
    }

    /// The answer to `mint`.
    pub open spec fn mint_result(self, signer: Address, to: Address, amount: i128) -> Result<
        Minted,
        TokenError,
    > {
        mint_outcome(signer, self.admin(), self.balance_of(to), self.total_supply, amount as int)
    }

    /// The state after `mint`: the recipient's balance and the total supply
    /// grow by the amount where the call is accepted.
    pub open spec fn after_mint(self, signer: Address, to: Address, amount: i128) -> LedgerState {
        match self.mint_result(signer, to, amount) {
            Ok(_) => LedgerState {
                balances: put(self.balances, to, self.balance_of(to) + amount),
                total_supply: self.total_supply + amount,
                ..self
            },
            Err(_) => self,
        }
    }

    /// The answer to `burn`.
    pub open spec fn burn_result(self, signer: Address, from: Address, amount: i128) -> Result<
        Burned,
        TokenError,
    > {
        burn_outcome(signer, from, self.balance_of(from), self.total_supply, amount as int)
    }

    /// The state after `burn`: the holder's balance and the total supply
    /// shrink by the amount where the call is accepted.
    pub open spec fn after_burn(self, signer: Address, from: Address, amount: i128) -> LedgerState {
        match self.burn_result(signer, from, amount) {
            Ok(_) => LedgerState {
                balances: put(self.balances, from, self.balance_of(from) - amount),
                total_supply: self.total_supply - amount,
                ..self
            },
            Err(_) => self,
        }
    }

    /// The answer to `transfer`.
    pub open spec fn transfer_result(
        self,
        signer: Address,
        from: Address,
        to: Address,
        amount: i128,
    ) -> Result<Transferred, TokenError> {
        transfer_outcome(
            signer,
            from,
            to,
            self.balance_of(from),
            self.balance_of(to),
            amount as int,
        )
    }

    /// The state after `transfer`: the amount leaves `from` and reaches `to`
    /// where the call is accepted.
    pub open spec fn after_transfer(
        self,
        signer: Address,
        from: Address,
        to: Address,
        amount: i128,
    ) -> LedgerState {
        match self.transfer_result(signer, from, to, amount) {
            Ok(_) => LedgerState {
                balances: put(
                    put(self.balances, from, self.balance_of(from) - amount),
                    to,
                    self.balance_of(to) + amount,
                ),
                ..self
            },
            Err(_) => self,
        }
    }

    /// The answer to `approve`.
    pub open spec fn approve_result(self, signer: Address, from: Address, amount: i128) -> Result<
        Approved,
        TokenError,
    > {
        approve_outcome(signer, from, amount as int)
    }

    /// The state after `approve`: the allowance is the amount where the call
    /// is accepted, whatever it was before.
    pub open spec fn after_approve(
        self,
        signer: Address,
        from: Address,
        spender: Address,
        amount: i128,
    ) -> LedgerState {
        match self.approve_result(signer, from, amount) {
            Ok(_) => LedgerState {
                allowances: put(
                    self.allowances,
                    AllowanceKey { owner: from, spender },
                    amount as int,
                ),
                ..self
            },
            Err(_) => self,
        }
    }

    /// The answer to `transfer_from`.
    pub open spec fn transfer_from_result(
        self,
        signer: Address,
        spender: Address,
        from: Address,
        to: Address,
        amount: i128,
    ) -> Result<TransferredFrom, TokenError> {
        transfer_from_outcome(
            signer,
            spender,
            from,
            to,
            self.allowance_of(from, spender),
            self.balance_of(from),
            self.balance_of(to),
            amount as int,
        )
    }

    /// The state after `transfer_from`: the amount leaves `from`, reaches
    /// `to` and is taken off the allowance where the call is accepted.
    pub open spec fn after_transfer_from(
        self,
        signer: Address,
        spender: Address,
        from: Address,
        to: Address,
        amount: i128,
    ) -> LedgerState {
        match self.transfer_from_result(signer, spender, from, to, amount) {
            Ok(_) => LedgerState {
                balances: put(
                    put(self.balances, from, self.balance_of(from) - amount),
                    to,
                    self.balance_of(to) + amount,
                ),
                allowances: put(
                    self.allowances,
                    AllowanceKey { owner: from, spender },
                    self.allowance_of(from, spender) - amount,
                ),
                ..self
            },
            Err(_) => self,
        }
    }

    /// The state after one call.
    pub open spec fn step(self, op: Operation) -> LedgerState {
        match op {
            Operation::Initialize { signer, admin, name, symbol, decimals } => {
                self.after_initialize(signer, admin, name, symbol, decimals)
            },
            Operation::Mint { signer, to, amount } => self.after_mint(signer, to, amount),
            Operation::Burn { signer, from, amount } => self.after_burn(signer, from, amount),
            Operation::Transfer { signer, from, to, amount } => {
                self.after_transfer(signer, from, to, amount)
            },
            Operation::Approve { signer, from, spender, amount } => {
                self.after_approve(signer, from, spender, amount)
            },
            Operation::TransferFrom { signer, spender, from, to, amount } => {
                self.after_transfer_from(signer, spender, from, to, amount)
            },
        }
    }

    /// The state after a sequence of calls, first to last.
    pub open spec fn run(self, ops: Seq<Operation>) -> LedgerState
        decreases ops.len(),
    {
        if ops.len() == 0 {
            self
        } else {
            self.run(ops.drop_last()).step(ops.last())
        }
    }
}

} // verus!
