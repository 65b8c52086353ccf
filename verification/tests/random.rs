use std::collections::HashMap;
use token_bdb::address::Address;
use token_bdb::error::TokenError;
use token_bdb::token::TokenBDB;

/// A small generator of numbers that look random and are the same on every run.
struct Dice(u64);

impl Dice {
    fn roll(&mut self, sides: u64) -> u64 {
        self.0 = self.0.wrapping_mul(6364136223846793005).wrapping_add(1442695040888963407);
        (self.0 >> 33) % sides
    }
}

/// The ledger once more, written down plainly, to hold the real one against.
struct Plain {
    admin: Address,
    supply: i128,
    balances: HashMap<Address, i128>,
    allowances: HashMap<(Address, Address), i128>,
}

impl Plain {
    fn balance(&self, a: Address) -> i128 {
        *self.balances.get(&a).unwrap_or(&0)
    }

    fn allowance(&self, o: Address, s: Address) -> i128 {
        *self.allowances.get(&(o, s)).unwrap_or(&0)
    }

    fn mint(&mut self, signer: Address, to: Address, n: i128) -> Result<(), TokenError> {
        if n <= 0 {
            return Err(TokenError::InvalidAmount);
        }
        if signer != self.admin {
            return Err(TokenError::Unauthorized);
        }
        let balance = self.balance(to).checked_add(n).ok_or(TokenError::OverflowError)?;
        let supply = self.supply.checked_add(n).ok_or(TokenError::OverflowError)?;
        self.balances.insert(to, balance);
        self.supply = supply;
        Ok(())
    }

    fn burn(&mut self, signer: Address, from: Address, n: i128) -> Result<(), TokenError> {
        if n <= 0 {
            return Err(TokenError::InvalidAmount);
        }
        if signer != from {
            return Err(TokenError::Unauthorized);
        }
        if self.balance(from) < n {
            return Err(TokenError::InsufficientBalance);
        }
        self.balances.insert(from, self.balance(from) - n);
        self.supply -= n;
        Ok(())
    }

    fn transfer(
        &mut self,
        signer: Address,
        from: Address,
        to: Address,
        n: i128,
    ) -> Result<(), TokenError> {
        if n <= 0 {
            return Err(TokenError::InvalidAmount);
        }
        if from == to {
            return Err(TokenError::InvalidRecipient);
        }
        if signer != from {
            return Err(TokenError::Unauthorized);
        }
        if self.balance(from) < n {
            return Err(TokenError::InsufficientBalance);
        }
        let credited = self.balance(to).checked_add(n).ok_or(TokenError::OverflowError)?;
        self.balances.insert(from, self.balance(from) - n);
        self.balances.insert(to, credited);
        Ok(())
    }

    fn approve(
        &mut self,
        signer: Address,
        from: Address,
        spender: Address,
        n: i128,
    ) -> Result<(), TokenError> {
        if n < 0 {
            return Err(TokenError::InvalidAmount);
        }
        if signer != from {
            return Err(TokenError::Unauthorized);
        }
        self.allowances.insert((from, spender), n);
        Ok(())
    }

    fn transfer_from(
        &mut self,
        signer: Address,
        spender: Address,
        from: Address,
        to: Address,
        n: i128,
    ) -> Result<(), TokenError> {
        if n <= 0 {
            return Err(TokenError::InvalidAmount);
        }
        if from == to {
            return Err(TokenError::InvalidRecipient);
        }
        if signer != spender {
            return Err(TokenError::Unauthorized);
        }
        if self.allowance(from, spender) < n {
            return Err(TokenError::InsufficientAllowance);
        }
        if self.balance(from) < n {
            return Err(TokenError::InsufficientBalance);
        }
        let credited = self.balance(to).checked_add(n).ok_or(TokenError::OverflowError)?;
        self.balances.insert(from, self.balance(from) - n);
        self.balances.insert(to, credited);
        self.allowances.insert((from, spender), self.allowance(from, spender) - n);
        Ok(())
    }
}

fn run(seed: u64, calls: usize, largest: u64) {
    let people: Vec<Address> = (0u128..6)
        .map(|i| if i % 2 == 0 { Address::account(1, i) } else { Address::contract(1, i) })
        .collect();
    let admin = people[0];
    let mut dice = Dice(seed);
    let mut token = TokenBDB::new();
    assert!(token.initialize(admin, admin, b"Random".to_vec(), b"RND".to_vec(), 7).is_ok());
    let mut plain = Plain {
        admin,
        supply: 0,
        balances: HashMap::new(),
        allowances: HashMap::new(),
    };

    for _ in 0..calls {
        let a = people[dice.roll(6) as usize];
        let b = people[dice.roll(6) as usize];
        let c = people[dice.roll(6) as usize];
        // most calls are signed by the one who has to sign
        let honest = dice.roll(8) != 0;
        let n = dice.roll(largest) as i128 - 2;
        match dice.roll(5) {
            0 => {
                let signer = if honest { admin } else { c };
                let got = token.mint(signer, a, n).map(|_| ());
                assert_eq!(got, plain.mint(signer, a, n));
            }
            1 => {
                let signer = if honest { a } else { c };
                let got = token.burn(signer, a, n).map(|_| ());
                assert_eq!(got, plain.burn(signer, a, n));
            }
            2 => {
                let signer = if honest { a } else { c };
                let got = token.transfer(signer, a, b, n).map(|_| ());
                assert_eq!(got, plain.transfer(signer, a, b, n));
            }
            3 => {
                let signer = if honest { a } else { c };
                let got = token.approve(signer, a, b, n).map(|_| ());
                assert_eq!(got, plain.approve(signer, a, b, n));
            }
            _ => {
                let signer = if honest { c } else { a };
                let got = token.transfer_from(signer, c, a, b, n).map(|_| ());
                assert_eq!(got, plain.transfer_from(signer, c, a, b, n));
            }
        }

        let mut sum = 0i128;
        for p in &people {
            assert_eq!(token.balance(*p), plain.balance(*p));
            assert!(token.balance(*p) >= 0);
            sum += token.balance(*p);
            for q in &people {
                assert_eq!(token.allowance(*p, *q), plain.allowance(*p, *q));
                assert!(token.allowance(*p, *q) >= 0);
            }
        }
        assert_eq!(token.total_supply(), sum);
        assert_eq!(token.total_supply(), plain.supply);
    }
}

#[test]
fn random_calls_with_small_amounts() {
    run(1, 4000, 40);
    run(2, 4000, 12);
}

#[test]
fn random_calls_with_large_amounts() {
    run(3, 3000, 1_000_000_007);
    run(4, 3000, u64::MAX);
}
