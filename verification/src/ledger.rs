//! The fungible-token ledger: balances per account, allowances per
//! `(owner, spender)` pair, and immutable token metadata.
//!
//! Accounts are opaque `u64` identifiers; the binding that talks to a host
//! maps its own account names onto them. The caller of each mutating
//! operation is an explicit parameter, so the ledger is a pure state machine:
//! every operation either performs its whole effect or reports an error and
//! leaves the ledger exactly as it was.
//!
//! Recorded choices on points the operations leave open:
//! - A transfer (direct or delegated) always leaves the recipient with an
//!   explicit balance record, even for a zero-value transfer.
//! - A delegated transfer does not reduce the allowance it spends against:
//!   an allowance is reusable until the owner overwrites it with `approve`.
//! - `total_supply` is a fixed genesis constant: `mint` and `burn` change
//!   balances only and never adjust it.

use vstd::prelude::*;

use crate::store::AllowanceTable;
use crate::store::BalanceTable;

verus! {

/// Why an operation refused to touch the ledger.
#[derive(Debug, Clone, Copy, PartialEq, Eq, Structural)]
pub enum TokenError {
    /// A balance is below the requested debit amount.
    InsufficientBalance,
    /// A delegated spend exceeds the allowance granted to the caller.
    InsufficientAllowance,
    /// An account expected to already have a balance record has none.
    NoRecord,
    /// A zero-value burn.
    InvalidAmount,
}

/// The ledger: token metadata, one balance per account, one allowance per
/// `(owner, spender)` pair.
pub struct ERC20 {
    name: String,
    symbol: String,
    decimals: u8,
    total_supply: u128,
    balance: BalanceTable,
    allowed: AllowanceTable,
}

impl ERC20 {
    pub closed spec fn spec_name(self) -> Seq<char> {
        self.name@
    }

    pub closed spec fn spec_symbol(self) -> Seq<char> {
        self.symbol@
    }

    pub closed spec fn spec_decimals(self) -> u8 {
        self.decimals
    }

    pub closed spec fn spec_total_supply(self) -> u128 {
        self.total_supply
    }

    /// The balance record of `account`: `None` while the account has never
    /// been written, `Some` once any operation has recorded a balance for it.
    pub closed spec fn spec_balance_of(self, account: u64) -> Option<u128> {
        self.balance.spec_get(account)
    }

    /// The balance of `account` as an amount: a missing record counts as 0.
    pub open spec fn spec_balance(self, account: u64) -> u128 {
        match self.spec_balance_of(account) {
            Some(v) => v,
            None => 0,
        }
    }

    /// The allowance record of `(owner, spender)`: `None` while the owner has
    /// never approved this spender.
    pub closed spec fn spec_allowance_of(self, owner: u64, spender: u64) -> Option<u128> {
        self.allowed.spec_get(owner, spender)
    }

    /// The allowance of `(owner, spender)` as an amount: a missing record
    /// counts as 0.
    pub open spec fn spec_allowance(self, owner: u64, spender: u64) -> u128 {
        match self.spec_allowance_of(owner, spender) {
            Some(v) => v,
            None => 0,
        }
    }

    /// `other` carries the same token metadata as `self`.
    pub open spec fn same_metadata(self, other: Self) -> bool {
        &&& self.spec_name() == other.spec_name()
        &&& self.spec_symbol() == other.spec_symbol()
        &&& self.spec_decimals() == other.spec_decimals()
        &&& self.spec_total_supply() == other.spec_total_supply()
    }

    /// `other` carries the same balance record as `self` for every account.
    pub open spec fn same_balances(self, other: Self) -> bool {
        forall|a: u64| self.spec_balance_of(a) == other.spec_balance_of(a)
    }

    /// `other` carries the same allowance record as `self` for every pair.
    pub open spec fn same_allowances(self, other: Self) -> bool {
        forall|o: u64, s: u64| self.spec_allowance_of(o, s) == other.spec_allowance_of(o, s)
    }

    /// State transition of a successful movement of `value` from `from` to
    /// `to` (a direct transfer by `from`, or a delegated one spending an
    /// allowance): `from` is debited, `to` is credited and ends with an
    /// explicit record, every other balance, every allowance and the metadata
    /// are untouched.
    pub open spec fn moves_value(pre: Self, post: Self, from: u64, to: u64, value: u128) -> bool {
        &&& (from != to ==> {
            &&& post.spec_balance_of(from) == Some((pre.spec_balance(from) - value) as u128)
            &&& post.spec_balance_of(to) == Some((pre.spec_balance(to) + value) as u128)
        })
        &&& (from == to ==> post.spec_balance_of(from) == Some(pre.spec_balance(from)))
        &&& (forall|a: u64|
            a != from && a != to ==> post.spec_balance_of(a) == pre.spec_balance_of(a))
        &&& pre.same_allowances(post)
        &&& pre.same_metadata(post)
    }

    /// State transition of `approve`: the one `(owner, spender)` record is
    /// set to `value`, overwriting whatever it held; everything else is
    /// untouched.
    pub open spec fn approve_sets(
        pre: Self,
        post: Self,
        owner: u64,
        spender: u64,
        value: u128,
    ) -> bool {
        &&& post.spec_allowance_of(owner, spender) == Some(value)
        &&& (forall|o: u64, s: u64|
            !(o == owner && s == spender) ==> post.spec_allowance_of(o, s)
                == pre.spec_allowance_of(o, s))
        &&& pre.same_balances(post)
        &&& pre.same_metadata(post)
    }

    /// State transition of `mint`: the balance of `to` grows by exactly
    /// `value`, whether or not `to` had a prior record; everything else is
    /// untouched.
    pub open spec fn mint_adds(pre: Self, post: Self, to: u64, value: u128) -> bool {
        &&& post.spec_balance_of(to) == Some((pre.spec_balance(to) + value) as u128)
        &&& (forall|a: u64| a != to ==> post.spec_balance_of(a) == pre.spec_balance_of(a))
        &&& pre.same_allowances(post)
        &&& pre.same_metadata(post)
    }

    /// State transition of a successful `burn`: the balance of `account`
    /// shrinks by exactly `value`; everything else is untouched.
    pub open spec fn burn_removes(pre: Self, post: Self, account: u64, value: u128) -> bool {
        &&& post.spec_balance_of(account) == Some((pre.spec_balance(account) - value) as u128)
        &&& (forall|a: u64| a != account ==> post.spec_balance_of(a) == pre.spec_balance_of(a))
        &&& pre.same_allowances(post)
        &&& pre.same_metadata(post)
    }

    /// Constructs a ledger with the given metadata and no balance or
    /// allowance records. No account is pre-funded: distributing
    /// `total_supply` is left to explicit `mint` calls.
    pub fn init(name: String, symbol: String, decimals: u8, total_supply: u128) -> (r: Self)
        ensures
            r.spec_name() == name@,
            r.spec_symbol() == symbol@,
            r.spec_decimals() == decimals,
            r.spec_total_supply() == total_supply,
            forall|a: u64| r.spec_balance_of(a) is None,
            forall|o: u64, s: u64| r.spec_allowance_of(o, s) is None,
    {
        ERC20 {
            name,
            symbol,
            decimals,
            total_supply,
            balance: BalanceTable::new(),
            allowed: AllowanceTable::new(),
        }
    }

    pub fn name(&self) -> (r: &str)
        ensures
            r@ == self.spec_name(),
    {
        self.name.as_str()
    }

    pub fn symbol(&self) -> (r: &str)
        ensures
            r@ == self.spec_symbol(),
    {
        self.symbol.as_str()
    }

    pub fn decimals(&self) -> (r: &u8)
        ensures
            *r == self.spec_decimals(),
    {
        &self.decimals
    }

    pub fn total_supply(&self) -> (r: &u128)
        ensures
            *r == self.spec_total_supply(),
    {
        &self.total_supply
    }

    /// The balance record of `account_id`: `None` for an account no
    /// operation has ever written (a caller treats that as balance 0).
    pub fn balance_of(&self, account_id: u64) -> (r: Option<u128>)
        ensures
            r == self.spec_balance_of(account_id),
    {
        self.balance.get(account_id)
    }

    /// The allowance `owner` has granted `spender`, 0 when none was ever
    /// granted.
    pub fn allowance(&self, owner: u64, spender: u64) -> (r: u128)
        ensures
            r == self.spec_allowance(owner, spender),
    {
        match self.allowed.get(owner, spender) {
            Some(v) => v,
            None => 0,
        }
    }

    /// Moves `value` from `caller` to `to`. Refuses with
    /// `InsufficientBalance`, touching nothing, when `caller` holds less than
    /// `value`; otherwise succeeds and returns `true`.
    pub fn transfer(&mut self, caller: u64, to: u64, value: u128) -> (r: Result<bool, TokenError>)
        requires
            value <= old(self).spec_balance(caller) && caller != to ==> old(self).spec_balance(to)
                + value <= u128::MAX,
        ensures
            value <= old(self).spec_balance(caller) ==> {
                &&& r == Ok::<bool, TokenError>(true)
                &&& Self::moves_value(*old(self), *final(self), caller, to, value)
            },
            value > old(self).spec_balance(caller) ==> {
                &&& r == Err::<bool, TokenError>(TokenError::InsufficientBalance)
                &&& *final(self) == *old(self)
            },
    {
        let user_balance: u128 = match self.balance.get(caller) {
            Some(v) => v,
            None => 0,
        };
        if user_balance < value {
            return Err(TokenError::InsufficientBalance);
        }
        self.balance.set(caller, user_balance - value);

        let receiver_balance: u128 = match self.balance.get(to) {
            Some(v) => v,
            None => 0,
        };
        self.balance.set(to, receiver_balance + value);

        Ok(true)
    }

    /// Moves `value` from `from` to `to` on the strength of the allowance
    /// `from` granted to `caller`. Refuses, touching nothing: with `NoRecord`
    /// when `from` has no balance record at all, with `InsufficientBalance`
    /// when `from` holds less than `value`, with `InsufficientAllowance` when
    /// the caller's allowance is below `value`. The allowance spent against
    /// is left as it was (the recorded reuse choice above).
    pub fn transfer_from(
        &mut self,
        caller: u64,
        from: u64,
        to: u64,
        value: u128,
    ) -> (r: Result<bool, TokenError>)
        requires
            old(self).spec_balance_of(from) is Some && value <= old(self).spec_balance(from)
                && value <= old(self).spec_allowance(from, caller) && from != to ==> old(
                self,
            ).spec_balance(to) + value <= u128::MAX,
        ensures
            old(self).spec_balance_of(from) is None ==> {
                &&& r == Err::<bool, TokenError>(TokenError::NoRecord)
                &&& *final(self) == *old(self)
            },
            old(self).spec_balance_of(from) is Some && value > old(self).spec_balance(from) ==> {
                &&& r == Err::<bool, TokenError>(TokenError::InsufficientBalance)
                &&& *final(self) == *old(self)
            },
            old(self).spec_balance_of(from) is Some && value <= old(self).spec_balance(from)
                && value > old(self).spec_allowance(from, caller) ==> {
                &&& r == Err::<bool, TokenError>(TokenError::InsufficientAllowance)
                &&& *final(self) == *old(self)
            },
            old(self).spec_balance_of(from) is Some && value <= old(self).spec_balance(from)
                && value <= old(self).spec_allowance(from, caller) ==> {
                &&& r == Ok::<bool, TokenError>(true)
                &&& Self::moves_value(*old(self), *final(self), from, to, value)
            },
    {
        let user_balance: u128 = match self.balance.get(from) {
            Some(v) => v,
            None => {
                return Err(TokenError::NoRecord);
            },
        };
        if user_balance < value {
            return Err(TokenError::InsufficientBalance);
        }
        if self.allowance(from, caller) < value {
            return Err(TokenError::InsufficientAllowance);
        }
        self.balance.set(from, user_balance - value);

        let receiver_balance: u128 = match self.balance.get(to) {
            Some(v) => v,
            None => 0,
        };
        self.balance.set(to, receiver_balance + value);

        Ok(true)
    }

    /// Grants `spender` the right to move up to `value` out of `caller`'s
    /// balance, overwriting (not adding to) any allowance the pair already
    /// had.
    pub fn approve(&mut self, caller: u64, spender: u64, value: u128)
        ensures
            Self::approve_sets(*old(self), *final(self), caller, spender, value),
    {
        self.allowed.set(caller, spender, value);
    }

    /// Credits `to` with `value`: sets the balance to `value` when `to` has
    /// no record yet, adds `value` to it otherwise. Never adjusts
    /// `total_supply`, and applies no access control of its own.
    pub fn mint(&mut self, to: u64, value: u128)
        requires
            old(self).spec_balance(to) + value <= u128::MAX,
        ensures
            Self::mint_adds(*old(self), *final(self), to, value),
    {
        match self.balance.get(to) {
            None => {
                self.balance.set(to, value);
            },
            Some(temp) => {
                self.balance.set(to, value + temp);
            },
        }
    }

    /// Debits `account_id` by `value`. Refuses, touching nothing: with
    /// `InvalidAmount` when `value` is 0, with `InsufficientBalance` when the
    /// account holds less than `value`. Never adjusts `total_supply`.
    pub fn burn(&mut self, account_id: u64, value: u128) -> (r: Result<(), TokenError>)
        ensures
            value == 0 ==> {
                &&& r == Err::<(), TokenError>(TokenError::InvalidAmount)
                &&& *final(self) == *old(self)
            },
            value != 0 && value > old(self).spec_balance(account_id) ==> {
                &&& r == Err::<(), TokenError>(TokenError::InsufficientBalance)
                &&& *final(self) == *old(self)
            },
            0 < value <= old(self).spec_balance(account_id) ==> {
                &&& r == Ok::<(), TokenError>(())
                &&& Self::burn_removes(*old(self), *final(self), account_id, value)
            },
    {
        if value == 0 {
            return Err(TokenError::InvalidAmount);
        }
        let bal: u128 = match self.balance.get(account_id) {
            Some(v) => v,
            None => 0,
        };
        if bal < value {
            return Err(TokenError::InsufficientBalance);
        }
        self.balance.set(account_id, bal - value);
        Ok(())
    }
}

} // verus!
