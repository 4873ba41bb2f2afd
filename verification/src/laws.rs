//! Laws of the ledger: facts that relate several operations, proved once and
//! for all over the state transitions the operations' contracts state.

use vstd::prelude::*;

use crate::ledger::ERC20;

verus! {

/// Conservation of a transfer, direct or delegated: moving `value` between
/// two distinct accounts debits the sender by exactly `value`, credits the
/// recipient by exactly `value`, and leaves the sum of the two balances
/// unchanged.
pub proof fn lemma_transfer_conservation(
    pre: ERC20,
    post: ERC20,
    sender: u64,
    recipient: u64,
    value: u128,
)
    requires
        sender != recipient,
        value <= pre.spec_balance(sender),
        pre.spec_balance(recipient) + value <= u128::MAX,
        ERC20::moves_value(pre, post, sender, recipient, value),
    ensures
        post.spec_balance(sender) == pre.spec_balance(sender) - value,
        post.spec_balance(recipient) == pre.spec_balance(recipient) + value,
        post.spec_balance(sender) + post.spec_balance(recipient) == pre.spec_balance(sender)
            + pre.spec_balance(recipient),
{
}

/// A transfer between two distinct accounts leaves the balance record of
/// every account other than the two, and every allowance, exactly as it was.
pub proof fn lemma_transfer_frame(
    pre: ERC20,
    post: ERC20,
    sender: u64,
    recipient: u64,
    value: u128,
    other: u64,
)
    requires
        other != sender,
        other != recipient,
        ERC20::moves_value(pre, post, sender, recipient, value),
    ensures
        post.spec_balance_of(other) == pre.spec_balance_of(other),
        forall|o: u64, s: u64| post.spec_allowance_of(o, s) == pre.spec_allowance_of(o, s),
{
}

/// An approval sets the allowance of the pair to exactly the granted value,
/// and a second approval of the same pair overwrites (does not add to) the
/// first.
pub proof fn lemma_approve_overwrites(
    s0: ERC20,
    s1: ERC20,
    s2: ERC20,
    owner: u64,
    spender: u64,
    v1: u128,
    v2: u128,
)
    requires
        ERC20::approve_sets(s0, s1, owner, spender, v1),
        ERC20::approve_sets(s1, s2, owner, spender, v2),
    ensures
        s1.spec_allowance(owner, spender) == v1,
        s2.spec_allowance(owner, spender) == v2,
{
}

/// Minting is additive: two mints to the same account grow its balance by
/// exactly the sum of the two values, whether or not the account had a
/// record before the first.
pub proof fn lemma_mint_additive(
    s0: ERC20,
    s1: ERC20,
    s2: ERC20,
    account: u64,
    v1: u128,
    v2: u128,
)
    requires
        s0.spec_balance(account) + v1 + v2 <= u128::MAX,
        ERC20::mint_adds(s0, s1, account, v1),
        ERC20::mint_adds(s1, s2, account, v2),
    ensures
        s2.spec_balance(account) == s0.spec_balance(account) + v1 + v2,
{
}

} // verus!
