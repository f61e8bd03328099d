use pyebwa_token::errors::PyebwaError;
use pyebwa_token::identity::Identity;
use pyebwa_token::instructions::initialize::InitializeParams;
use pyebwa_token::instructions::preserve_heritage::handler;
use pyebwa_token::state::{FamilyAccount, HeritageType, TokenPool};
use pyebwa_token::{initialize, preserve_heritage};

fn pool_with(tree_fund_rate: u16, tree_payment_rate: u64) -> TokenPool {
    initialize(
        Identity::new([9u8; 32]),
        InitializeParams { token_price: 100, tree_fund_rate, tree_payment_rate },
        255,
    )
}

fn family_holding(token_balance: u64) -> FamilyAccount {
    let mut family = FamilyAccount::default();
    family.owner = Identity::new([2u8; 32]);
    family.token_balance = token_balance;
    family
}

fn hash_of(bytes: usize) -> String {
    "Q".repeat(bytes)
}

#[test]
fn spend_funds_whole_trees() {
    let mut pool = pool_with(1000, 200);
    let mut family = family_holding(10_000);
    let r = preserve_heritage(&mut pool, &mut family, hash_of(46), HeritageType::Video, 2000);
    assert_eq!(r, Ok(1));
    assert_eq!(family.token_balance, 8_000);
    assert_eq!(family.total_spent, 2_000);
    assert_eq!(family.heritage_items, 1);
    assert_eq!(family.trees_funded, 1);
    assert_eq!(pool.heritage_preserved, 1);
    assert_eq!(pool.trees_funded, 1);
    assert_eq!(pool.total_supply, 0);
}

#[test]
fn funding_and_trees_round_down() {
    // 12_345 * 2_500 / 10_000 = 3086.25 -> 3086 ; 3086 / 300 = 10.28 -> 10
    let mut pool = pool_with(2500, 300);
    let mut family = family_holding(20_000);
    assert_eq!(handler(&mut pool, &mut family, hash_of(1), HeritageType::Audio, 12_345), Ok(10));
    assert_eq!(family.token_balance, 20_000 - 12_345);
    assert_eq!(family.trees_funded, 10);
    assert_eq!(pool.trees_funded, 10);
}

#[test]
fn funding_short_of_a_tree_funds_none_and_is_not_carried() {
    let mut pool = pool_with(1000, 300);
    let mut family = family_holding(10_000);
    for spent in 1..=3u64 {
        let r = preserve_heritage(&mut pool, &mut family, hash_of(10), HeritageType::Photo, 2000);
        assert_eq!(r, Ok(0));
        assert_eq!(family.token_balance, 10_000 - 2000 * spent);
        assert_eq!(family.trees_funded, 0);
        assert_eq!(pool.trees_funded, 0);
        assert_eq!(pool.heritage_preserved, spent);
    }
}

#[test]
fn balance_falls_by_exactly_the_cost() {
    for cost in [0u64, 1, 9_999, 10_000, 123_456_789] {
        let mut pool = pool_with(3333, 7);
        let mut family = family_holding(123_456_789);
        let before = family.token_balance;
        let trees =
            preserve_heritage(&mut pool, &mut family, hash_of(5), HeritageType::Document, cost)
                .unwrap();
        assert_eq!(before - family.token_balance, cost);
        assert_eq!(family.total_spent, cost);
        assert_eq!(trees, cost * 3333 / 10_000 / 7);
    }
}

#[test]
fn every_kind_of_item_is_booked_alike() {
    for kind in
        [HeritageType::Photo, HeritageType::Document, HeritageType::Audio, HeritageType::Video]
    {
        let mut pool = pool_with(1000, 200);
        let mut family = family_holding(5_000);
        assert_eq!(preserve_heritage(&mut pool, &mut family, hash_of(46), kind, 4_000), Ok(2));
        assert_eq!(family.token_balance, 1_000);
    }
}

#[test]
fn hash_of_64_bytes_is_taken_and_of_65_refused() {
    let mut pool = pool_with(1000, 200);
    let mut family = family_holding(5_000);
    assert_eq!(preserve_heritage(&mut pool, &mut family, hash_of(64), HeritageType::Photo, 1), Ok(0));
    let before = (pool, family);
    let r = preserve_heritage(&mut pool, &mut family, hash_of(65), HeritageType::Photo, 1);
    assert_eq!(r, Err(PyebwaError::IPFSHashTooLong));
    assert_eq!((pool, family), before);
}

#[test]
fn hash_is_measured_in_bytes() {
    let mut pool = pool_with(1000, 200);
    let mut family = family_holding(5_000);
    // 22 characters of three bytes each: 66 bytes.
    let long = "\u{20AC}".repeat(22);
    assert_eq!(long.chars().count(), 22);
    let r = preserve_heritage(&mut pool, &mut family, long, HeritageType::Photo, 1);
    assert_eq!(r, Err(PyebwaError::IPFSHashTooLong));
    // 21 of them: 63 bytes.
    let short = "\u{20AC}".repeat(21);
    assert_eq!(preserve_heritage(&mut pool, &mut family, short, HeritageType::Photo, 1), Ok(0));
}

#[test]
fn spend_beyond_the_balance_is_refused() {
    let mut pool = pool_with(1000, 200);
    let mut family = family_holding(1_999);
    let before = (pool, family);
    let r = preserve_heritage(&mut pool, &mut family, hash_of(46), HeritageType::Photo, 2_000);
    assert_eq!(r, Err(PyebwaError::InsufficientBalance));
    assert_eq!((pool, family), before);
    assert_eq!(
        preserve_heritage(&mut pool, &mut family, hash_of(46), HeritageType::Photo, 1_999),
        Ok(0)
    );
    assert_eq!(family.token_balance, 0);
}

#[test]
fn long_hash_is_reported_before_short_balance() {
    let mut pool = pool_with(1000, 200);
    let mut family = family_holding(0);
    let r = preserve_heritage(&mut pool, &mut family, hash_of(65), HeritageType::Photo, 1);
    assert_eq!(r, Err(PyebwaError::IPFSHashTooLong));
}

#[test]
fn short_balance_is_reported_before_overflow() {
    let mut pool = pool_with(10_000, 200);
    let mut family = family_holding(5);
    let r = preserve_heritage(&mut pool, &mut family, hash_of(1), HeritageType::Photo, u64::MAX);
    assert_eq!(r, Err(PyebwaError::InsufficientBalance));
}

#[test]
fn funding_beyond_64_bits_is_refused() {
    let mut pool = pool_with(10_000, 10_000_000_000);
    let mut family = family_holding(u64::MAX);
    let before = (pool, family);
    let cost = u64::MAX / 10_000 + 1;
    let r = preserve_heritage(&mut pool, &mut family, hash_of(1), HeritageType::Photo, cost);
    assert_eq!(r, Err(PyebwaError::MathOverflow));
    assert_eq!((pool, family), before);
    let r = preserve_heritage(&mut pool, &mut family, hash_of(1), HeritageType::Photo, cost - 1);
    assert_eq!(r, Ok(184_467));
}

#[test]
fn pool_that_pays_nothing_for_a_tree_refuses() {
    let mut pool = pool_with(1000, 0);
    let mut family = family_holding(5_000);
    let before = (pool, family);
    let r = preserve_heritage(&mut pool, &mut family, hash_of(1), HeritageType::Photo, 2_000);
    assert_eq!(r, Err(PyebwaError::MathOverflow));
    assert_eq!((pool, family), before);
}

#[test]
fn item_count_beyond_32_bits_is_refused() {
    let mut pool = pool_with(1000, 200);
    let mut family = family_holding(5_000);
    family.heritage_items = u32::MAX;
    let before = (pool, family);
    let r = preserve_heritage(&mut pool, &mut family, hash_of(1), HeritageType::Photo, 2_000);
    assert_eq!(r, Err(PyebwaError::MathOverflow));
    assert_eq!((pool, family), before);
}

#[test]
fn spent_total_beyond_64_bits_is_refused() {
    let mut pool = pool_with(0, 200);
    let mut family = family_holding(5_000);
    family.total_spent = u64::MAX - 1_999;
    let before = (pool, family);
    let r = preserve_heritage(&mut pool, &mut family, hash_of(1), HeritageType::Photo, 2_000);
    assert_eq!(r, Err(PyebwaError::MathOverflow));
    assert_eq!((pool, family), before);
}

#[test]
fn family_trees_beyond_32_bits_are_refused() {
    // 10^13 tokens, all of it to trees at one token a tree: 10^13 trees.
    let mut pool = pool_with(10_000, 1);
    let mut family = family_holding(u64::MAX);
    let before = (pool, family);
    let r = preserve_heritage(
        &mut pool,
        &mut family,
        hash_of(1),
        HeritageType::Photo,
        10_000_000_000_000,
    );
    assert_eq!(r, Err(PyebwaError::MathOverflow));
    assert_eq!((pool, family), before);

    family.trees_funded = u32::MAX - 1;
    let before = (pool, family);
    let r = preserve_heritage(&mut pool, &mut family, hash_of(1), HeritageType::Photo, 2);
    assert_eq!(r, Err(PyebwaError::MathOverflow));
    assert_eq!((pool, family), before);
    assert_eq!(preserve_heritage(&mut pool, &mut family, hash_of(1), HeritageType::Photo, 1), Ok(1));
    assert_eq!(family.trees_funded, u32::MAX);
}

#[test]
fn pool_counters_beyond_64_bits_are_refused() {
    let mut pool = pool_with(10_000, 1);
    pool.heritage_preserved = u64::MAX;
    let mut family = family_holding(5_000);
    let before = (pool, family);
    let r = preserve_heritage(&mut pool, &mut family, hash_of(1), HeritageType::Photo, 1);
    assert_eq!(r, Err(PyebwaError::MathOverflow));
    assert_eq!((pool, family), before);

    let mut pool = pool_with(10_000, 1);
    pool.trees_funded = u64::MAX - 1;
    let before = (pool, family);
    let r = preserve_heritage(&mut pool, &mut family, hash_of(1), HeritageType::Photo, 2);
    assert_eq!(r, Err(PyebwaError::MathOverflow));
    assert_eq!((pool, family), before);
}

#[test]
fn spent_and_held_tokens_add_up_to_the_supply() {
    let mut pool = pool_with(1500, 50);
    let mut families = [FamilyAccount::default(); 3];
    for (slot, amount) in [(0usize, 10_000u64), (1, 2_000_000), (2, 77)] {
        let who = Identity::new([slot as u8 + 1; 32]);
        pyebwa_token::purchase_tokens(&mut pool, &mut families[slot], who, amount, 0, 0).unwrap();
    }
    for (slot, cost) in [(0usize, 4_000u64), (2, 78), (1, 1_999_999), (0, 6_000), (1, 1)] {
        let _ = preserve_heritage(&mut pool, &mut families[slot], hash_of(3), HeritageType::Photo, cost);
        let held: u64 = families.iter().map(|f| f.token_balance).sum();
        let spent: u64 = families.iter().map(|f| f.total_spent).sum();
        let trees: u64 = families.iter().map(|f| f.trees_funded as u64).sum();
        let items: u64 = families.iter().map(|f| f.heritage_items as u64).sum();
        assert_eq!(held + spent, pool.total_supply);
        assert_eq!(trees, pool.trees_funded);
        assert_eq!(items, pool.heritage_preserved);
    }
    assert_eq!(families[2].token_balance, 77);
    assert_eq!(pool.heritage_preserved, 4);
}
