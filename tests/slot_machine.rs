use slot_machine::{resolve_play, SlotError, SlotMachine, ONE_NEAR, PAYOUT_MULTIPLIER, WIN_THRESHOLD};

fn fresh() -> SlotMachine {
    SlotMachine::new("alice.testnet".to_string(), false).unwrap()
}

#[test]
fn deposit_works() {
    let mut contract = fresh();
    contract.deposit("bob.testnet".to_string(), 2 * ONE_NEAR).unwrap();
    let credit = contract.get_credits("bob.testnet".to_string());
    assert_eq!(credit, 2 * ONE_NEAR);
}

#[test]
fn play_works() {
    let mut contract = fresh();
    contract.deposit("bob.testnet".to_string(), 2 * ONE_NEAR).unwrap();
    let credit = contract.get_credits("bob.testnet".to_string());
    assert_eq!(credit, 2 * ONE_NEAR);

    // The host's random seed is [0, 1, 2]; a play consumes its first byte.
    let seed: Vec<u8> = vec![0, 1, 2];
    let rand = contract.play("bob.testnet".to_string(), seed[0]).unwrap();
    let credit = contract.get_credits("bob.testnet".to_string());
    if rand < WIN_THRESHOLD {
        assert_eq!(credit, 11 * ONE_NEAR);
    } else {
        assert_eq!(credit, ONE_NEAR);
    }
}

#[test]
fn fresh_account_has_zero_balance() {
    let contract = fresh();
    assert_eq!(contract.get_credits("carol.testnet".to_string()), 0);
}

#[test]
fn lose_then_win_scenario() {
    let mut contract = fresh();
    let bob = "bob.testnet".to_string();
    contract.deposit(bob.clone(), 2 * ONE_NEAR).unwrap();
    assert_eq!(contract.get_credits(bob.clone()), 2 * ONE_NEAR);
    assert_eq!(contract.play(bob.clone(), 200), Ok(200));
    assert_eq!(contract.get_credits(bob.clone()), ONE_NEAR);
    assert_eq!(contract.play(bob.clone(), 5), Ok(5));
    assert_eq!(contract.get_credits(bob.clone()), 10 * ONE_NEAR);
}

#[test]
fn empty_account_cannot_play() {
    let mut contract = fresh();
    let bob = "bob.testnet".to_string();
    for r in [0u8, 127, 128, 255] {
        assert_eq!(contract.play(bob.clone(), r), Err(SlotError::InsufficientCredits));
        assert_eq!(contract.get_credits(bob.clone()), 0);
    }
    assert!(contract.entries().is_empty());
}

#[test]
fn balance_below_one_unit_cannot_play() {
    let mut contract = fresh();
    let bob = "bob.testnet".to_string();
    contract.deposit(bob.clone(), ONE_NEAR - 1).unwrap();
    assert_eq!(contract.play(bob.clone(), 0), Err(SlotError::InsufficientCredits));
    assert_eq!(contract.get_credits(bob.clone()), ONE_NEAR - 1);
}

#[test]
fn play_exact_balances() {
    let prior = 3 * ONE_NEAR + 7;
    assert_eq!(resolve_play(prior, 0), Ok(prior - ONE_NEAR + PAYOUT_MULTIPLIER * ONE_NEAR));
    assert_eq!(resolve_play(prior, 127), Ok(12 * ONE_NEAR + 7));
    assert_eq!(resolve_play(prior, 128), Ok(2 * ONE_NEAR + 7));
    assert_eq!(resolve_play(prior, 255), Ok(prior - ONE_NEAR));
    assert_eq!(resolve_play(ONE_NEAR, 255), Ok(0));
    assert_eq!(resolve_play(0, 0), Err(SlotError::InsufficientCredits));
}

#[test]
fn transition_is_deterministic() {
    for prior in [0u128, 1, ONE_NEAR, 5 * ONE_NEAR + 3, u128::MAX] {
        for r in 0..=255u8 {
            assert_eq!(resolve_play(prior, r), resolve_play(prior, r));
        }
    }
}

#[test]
fn deposits_are_additive() {
    let mut contract = fresh();
    let bob = "bob.testnet".to_string();
    contract.deposit(bob.clone(), 5).unwrap();
    contract.deposit(bob.clone(), 0).unwrap();
    contract.deposit(bob.clone(), 7).unwrap();
    assert_eq!(contract.get_credits(bob.clone()), 12);
    contract.deposit(bob.clone(), ONE_NEAR).unwrap();
    assert_eq!(contract.get_credits(bob), ONE_NEAR + 12);
}

#[test]
fn deposit_leaves_other_accounts() {
    let mut contract = fresh();
    contract.deposit("bob.testnet".to_string(), 3).unwrap();
    contract.deposit("carol.testnet".to_string(), 4).unwrap();
    contract.deposit("bob.testnet".to_string(), 10).unwrap();
    assert_eq!(contract.get_credits("bob.testnet".to_string()), 13);
    assert_eq!(contract.get_credits("carol.testnet".to_string()), 4);
    let entries = contract.entries();
    assert_eq!(entries, vec![("bob.testnet".to_string(), 13), ("carol.testnet".to_string(), 4)]);
}

#[test]
fn deposit_overflow_is_refused() {
    let mut contract = fresh();
    let bob = "bob.testnet".to_string();
    contract.deposit(bob.clone(), u128::MAX - 1).unwrap();
    assert_eq!(contract.deposit(bob.clone(), 2), Err(SlotError::Overflow));
    assert_eq!(contract.get_credits(bob.clone()), u128::MAX - 1);
    assert_eq!(contract.deposit(bob.clone(), 1), Ok(()));
    assert_eq!(contract.get_credits(bob), u128::MAX);
}

#[test]
fn winning_payout_overflow_is_refused() {
    let mut contract = fresh();
    let bob = "bob.testnet".to_string();
    contract.deposit(bob.clone(), u128::MAX).unwrap();
    assert_eq!(contract.play(bob.clone(), 0), Err(SlotError::Overflow));
    assert_eq!(contract.get_credits(bob.clone()), u128::MAX);
    assert_eq!(contract.play(bob.clone(), 200), Ok(200));
    assert_eq!(contract.get_credits(bob), u128::MAX - ONE_NEAR);
}

#[test]
fn second_initialization_fails() {
    let mut contract = fresh();
    contract.deposit("bob.testnet".to_string(), 2 * ONE_NEAR).unwrap();
    let again = SlotMachine::new("alice.testnet".to_string(), true);
    assert!(matches!(again, Err(SlotError::AlreadyInitialized)));
    assert_eq!(contract.get_credits("bob.testnet".to_string()), 2 * ONE_NEAR);
    assert_eq!(contract.owner_id(), &"alice.testnet".to_string());
}

#[test]
fn invalid_owner_is_refused() {
    for owner in ["", "a", "Alice.testnet", "-alice", "alice.", "a..b", "a b", "alicé.testnet"] {
        let made = SlotMachine::new(owner.to_string(), false);
        assert!(matches!(made, Err(SlotError::InvalidOwner)), "{}", owner);
    }
    let too_long = "a".repeat(65);
    assert!(matches!(SlotMachine::new(too_long, false), Err(SlotError::InvalidOwner)));
    // A malformed owner is reported before an existing ledger.
    assert!(matches!(SlotMachine::new("A".to_string(), true), Err(SlotError::InvalidOwner)));
}

#[test]
fn valid_owners_are_accepted() {
    for owner in ["aa", "a-b_c.d", "100", "alice.testnet", "near"] {
        let made = SlotMachine::new(owner.to_string(), false).unwrap();
        assert_eq!(made.owner_id(), &owner.to_string());
        assert!(made.entries().is_empty());
    }
    assert!(SlotMachine::new("a".repeat(64), false).is_ok());
}

#[test]
fn exactly_half_of_all_bytes_win() {
    let wins = (0..=255u8).filter(|r| resolve_play(ONE_NEAR, *r) == Ok(10 * ONE_NEAR)).count();
    assert_eq!(wins, WIN_THRESHOLD as usize);
    assert_eq!(wins, 128);
}

#[test]
fn empirical_win_rate_is_near_one_half() {
    let mut contract = fresh();
    let bob = "bob.testnet".to_string();
    let mut state: u64 = 0x9E37_79B9_7F4A_7C15;
    let plays = 20_000u32;
    let mut won = 0u32;
    for _ in 0..plays {
        state ^= state << 13;
        state ^= state >> 7;
        state ^= state << 17;
        let r = (state >> 56) as u8;
        contract.deposit(bob.clone(), ONE_NEAR).unwrap();
        let before = contract.get_credits(bob.clone());
        contract.play(bob.clone(), r).unwrap();
        if contract.get_credits(bob.clone()) > before {
            won += 1;
        }
    }
    let rate = won as f64 / plays as f64;
    assert!((rate - 0.5).abs() < 0.02, "{}", rate);
}
