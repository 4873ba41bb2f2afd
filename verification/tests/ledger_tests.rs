use erc20::ledger::ERC20;
use erc20::ledger::TokenError;

fn fresh() -> ERC20 {
    ERC20::init(
        String::from("Example Token"),
        String::from("EXT"),
        18,
        1_000_000u128,
    )
}

#[test]
fn metadata_is_kept() {
    let l = fresh();
    assert_eq!(l.name(), "Example Token");
    assert_eq!(l.symbol(), "EXT");
    assert_eq!(*l.decimals(), 18u8);
    assert_eq!(*l.total_supply(), 1_000_000u128);
}

#[test]
fn untouched_account_has_no_record() {
    let l = fresh();
    assert_eq!(l.balance_of(1), None);
    assert_eq!(l.balance_of(0), None);
    assert_eq!(l.balance_of(u64::MAX), None);
}

#[test]
fn untouched_pair_has_zero_allowance() {
    let l = fresh();
    assert_eq!(l.allowance(1, 2), 0u128);
}

#[test]
fn transfer_moves_exact_value() {
    let mut l = fresh();
    l.mint(1, 100);
    assert_eq!(l.transfer(1, 2, 40), Ok(true));
    assert_eq!(l.balance_of(1), Some(60u128));
    assert_eq!(l.balance_of(2), Some(40u128));
    // conservation: the sum over the two accounts is unchanged
    assert_eq!(l.balance_of(1).unwrap() + l.balance_of(2).unwrap(), 100u128);
}

#[test]
fn transfer_leaves_recipient_with_explicit_record() {
    let mut l = fresh();
    l.mint(1, 10);
    assert_eq!(l.transfer(1, 2, 0), Ok(true));
    assert_eq!(l.balance_of(2), Some(0u128));
    assert_eq!(l.balance_of(1), Some(10u128));
}

#[test]
fn transfer_to_self_changes_nothing() {
    let mut l = fresh();
    l.mint(1, 25);
    assert_eq!(l.transfer(1, 1, 25), Ok(true));
    assert_eq!(l.balance_of(1), Some(25u128));
}

#[test]
fn transfer_with_insufficient_balance_leaves_state_untouched() {
    let mut l = fresh();
    l.mint(1, 30);
    assert_eq!(
        l.transfer(1, 2, 31),
        Err(TokenError::InsufficientBalance)
    );
    assert_eq!(l.balance_of(1), Some(30u128));
    assert_eq!(l.balance_of(2), None);
}

#[test]
fn transfer_from_account_with_no_record_fails() {
    let mut l = fresh();
    // a caller with no record at all may still send 0: absence reads as 0
    assert_eq!(l.transfer(9, 2, 0), Ok(true));
    assert_eq!(l.balance_of(9), Some(0u128));
    // but sending a positive amount fails
    let mut l2 = fresh();
    assert_eq!(
        l2.transfer(9, 2, 1),
        Err(TokenError::InsufficientBalance)
    );
    assert_eq!(l2.balance_of(9), None);
    assert_eq!(l2.balance_of(2), None);
}

#[test]
fn approve_sets_allowance() {
    let mut l = fresh();
    l.approve(1, 3, 55);
    assert_eq!(l.allowance(1, 3), 55u128);
    // the reverse pair is a different record
    assert_eq!(l.allowance(3, 1), 0u128);
}

#[test]
fn approve_overwrites_prior_allowance() {
    let mut l = fresh();
    l.approve(1, 3, 55);
    l.approve(1, 3, 7);
    assert_eq!(l.allowance(1, 3), 7u128);
}

#[test]
fn delegated_transfer_moves_exact_value() {
    let mut l = fresh();
    l.mint(1, 100);
    l.approve(1, 3, 50);
    assert_eq!(l.transfer_from(3, 1, 2, 50), Ok(true));
    assert_eq!(l.balance_of(1), Some(50u128));
    assert_eq!(l.balance_of(2), Some(50u128));
    assert_eq!(l.balance_of(1).unwrap() + l.balance_of(2).unwrap(), 100u128);
}

#[test]
fn delegated_transfer_beyond_allowance_leaves_state_untouched() {
    let mut l = fresh();
    l.mint(1, 100);
    l.approve(1, 3, 20);
    assert_eq!(
        l.transfer_from(3, 1, 2, 21),
        Err(TokenError::InsufficientAllowance)
    );
    assert_eq!(l.balance_of(1), Some(100u128));
    assert_eq!(l.balance_of(2), None);
    assert_eq!(l.allowance(1, 3), 20u128);
}

#[test]
fn delegated_transfer_beyond_balance_leaves_state_untouched() {
    let mut l = fresh();
    l.mint(1, 10);
    l.approve(1, 3, 50);
    assert_eq!(
        l.transfer_from(3, 1, 2, 11),
        Err(TokenError::InsufficientBalance)
    );
    assert_eq!(l.balance_of(1), Some(10u128));
    assert_eq!(l.balance_of(2), None);
}

#[test]
fn delegated_transfer_from_unrecorded_owner_fails() {
    let mut l = fresh();
    l.approve(1, 3, 50);
    assert_eq!(l.transfer_from(3, 1, 2, 0), Err(TokenError::NoRecord));
    assert_eq!(l.balance_of(1), None);
    assert_eq!(l.balance_of(2), None);
}

#[test]
fn mint_sets_balance_of_fresh_account() {
    let mut l = fresh();
    l.mint(4, 77);
    assert_eq!(l.balance_of(4), Some(77u128));
}

#[test]
fn mint_is_additive() {
    let mut l = fresh();
    l.mint(4, 77);
    l.mint(4, 3);
    assert_eq!(l.balance_of(4), Some(80u128));
    l.mint(4, 0);
    assert_eq!(l.balance_of(4), Some(80u128));
}

#[test]
fn mint_does_not_adjust_total_supply() {
    let mut l = fresh();
    l.mint(4, 77);
    assert_eq!(*l.total_supply(), 1_000_000u128);
}

#[test]
fn burn_of_zero_is_refused() {
    let mut l = fresh();
    l.mint(4, 10);
    assert_eq!(l.burn(4, 0), Err(TokenError::InvalidAmount));
    assert_eq!(l.balance_of(4), Some(10u128));
}

#[test]
fn burn_beyond_balance_is_refused() {
    let mut l = fresh();
    l.mint(4, 10);
    assert_eq!(l.burn(4, 11), Err(TokenError::InsufficientBalance));
    assert_eq!(l.balance_of(4), Some(10u128));
    // an account with no record holds 0, so any positive burn is refused
    assert_eq!(l.burn(5, 1), Err(TokenError::InsufficientBalance));
    assert_eq!(l.balance_of(5), None);
}

#[test]
fn burn_removes_exact_value() {
    let mut l = fresh();
    l.mint(4, 10);
    assert_eq!(l.burn(4, 4), Ok(()));
    assert_eq!(l.balance_of(4), Some(6u128));
    assert_eq!(l.burn(4, 6), Ok(()));
    assert_eq!(l.balance_of(4), Some(0u128));
    assert_eq!(*l.total_supply(), 1_000_000u128);
}

#[test]
fn mint_transfer_approve_delegate_scenario() {
    let a: u64 = 1;
    let b: u64 = 2;
    let c: u64 = 3;
    let mut l = fresh();
    l.mint(a, 100);
    assert_eq!(l.balance_of(a), Some(100u128));
    assert_eq!(l.transfer(a, b, 40), Ok(true));
    assert_eq!(l.balance_of(a), Some(60u128));
    assert_eq!(l.balance_of(b), Some(40u128));
    l.approve(a, c, 30);
    assert_eq!(l.transfer_from(c, a, b, 30), Ok(true));
    assert_eq!(l.balance_of(a), Some(30u128));
    assert_eq!(l.balance_of(b), Some(70u128));
    // the allowance spent against is reusable until overwritten
    assert_eq!(l.allowance(a, c), 30u128);
}
