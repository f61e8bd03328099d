use pyebwa_token::errors::PyebwaError;
use pyebwa_token::identity::Identity;
use pyebwa_token::instructions::initialize::InitializeParams;
use pyebwa_token::instructions::purchase_tokens::{handler, quote};
use pyebwa_token::state::{FamilyAccount, TokenPool};
use pyebwa_token::{initialize, purchase_tokens};

fn pool_at(total_supply: u64, token_price: u64) -> TokenPool {
    let mut pool = initialize(
        Identity::new([9u8; 32]),
        InitializeParams { token_price, tree_fund_rate: 1000, tree_payment_rate: 200 },
        255,
    );
    pool.total_supply = total_supply;
    pool
}

fn buyer(tag: u8) -> Identity {
    Identity::new([tag; 32])
}

#[test]
fn cost_is_amount_times_price() {
    let mut pool = pool_at(0, 250);
    let mut family = FamilyAccount::default();
    assert_eq!(handler(&mut pool, &mut family, buyer(1), 40, 7, 3), Ok(10_000));
    assert_eq!(family.token_balance, 40);
    assert_eq!(pool.total_supply, 40);
    assert_eq!(pool.token_price, 250);
}

#[test]
fn quote_gives_the_cost_without_booking() {
    let pool = pool_at(5, 250);
    assert_eq!(quote(&pool, 40), Ok(10_000));
    assert_eq!(quote(&pool, 0), Ok(0));
    assert_eq!(pool.total_supply, 5);
}

#[test]
fn quote_reports_a_cost_beyond_64_bits() {
    let pool = pool_at(0, 3);
    assert_eq!(quote(&pool, u64::MAX / 3), Ok(u64::MAX / 3 * 3));
    assert_eq!(quote(&pool, u64::MAX / 3 + 1), Err(PyebwaError::MathOverflow));
}

#[test]
fn first_purchase_fills_in_the_account() {
    let mut pool = pool_at(0, 10);
    let mut family = FamilyAccount::default();
    assert_eq!(purchase_tokens(&mut pool, &mut family, buyer(4), 5, 1234, 77), Ok(50));
    assert_eq!(family.owner, buyer(4));
    assert_eq!(family.created_at, 1234);
    assert_eq!(family.bump, 77);
    assert_eq!(family.token_balance, 5);
    assert_eq!(family.heritage_items, 0);
    assert_eq!(family.trees_funded, 0);
    assert_eq!(family.total_spent, 0);
}

#[test]
fn later_purchases_keep_owner_and_creation_time() {
    let mut pool = pool_at(0, 10);
    let mut family = FamilyAccount::default();
    purchase_tokens(&mut pool, &mut family, buyer(4), 5, 1234, 77).unwrap();
    assert_eq!(purchase_tokens(&mut pool, &mut family, buyer(5), 6, 9999, 1), Ok(60));
    assert_eq!(family.owner, buyer(4));
    assert_eq!(family.created_at, 1234);
    assert_eq!(family.bump, 77);
    assert_eq!(family.token_balance, 11);
    assert_eq!(pool.total_supply, 11);
}

#[test]
fn purchase_of_nothing_changes_nothing() {
    let mut pool = pool_at(0, 20_000);
    let mut family = FamilyAccount::default();
    assert_eq!(purchase_tokens(&mut pool, &mut family, buyer(1), 0, 5, 6), Ok(0));
    assert_eq!(pool, pool_at(0, 20_000));
    assert_eq!(family, FamilyAccount::default());

    let mut pool = pool_at(3_000_000, 20_000);
    purchase_tokens(&mut pool, &mut family, buyer(1), 0, 5, 6).unwrap();
    assert_eq!(pool.token_price, 20_000);
    assert_eq!(pool.total_supply, 3_000_000);
}

#[test]
fn price_steps_when_supply_lands_on_a_million() {
    let mut pool = pool_at(999_999, 20_000);
    let mut family = FamilyAccount::default();
    assert_eq!(purchase_tokens(&mut pool, &mut family, buyer(1), 1, 0, 0), Ok(20_000));
    assert_eq!(pool.total_supply, 1_000_000);
    assert_eq!(pool.token_price, 20_002);
}

#[test]
fn price_stays_when_supply_passes_over_a_million() {
    let mut pool = pool_at(999_999, 20_000);
    let mut family = FamilyAccount::default();
    assert_eq!(purchase_tokens(&mut pool, &mut family, buyer(1), 2, 0, 0), Ok(40_000));
    assert_eq!(pool.total_supply, 1_000_001);
    assert_eq!(pool.token_price, 20_000);
}

#[test]
fn price_steps_on_every_million_landed_on() {
    let mut pool = pool_at(0, 1_000_000);
    let mut family = FamilyAccount::default();
    purchase_tokens(&mut pool, &mut family, buyer(1), 1_000_000, 0, 0).unwrap();
    assert_eq!(pool.token_price, 1_000_100);
    purchase_tokens(&mut pool, &mut family, buyer(1), 2_000_000, 0, 0).unwrap();
    assert_eq!(pool.total_supply, 3_000_000);
    assert_eq!(pool.token_price, 1_000_200);
    purchase_tokens(&mut pool, &mut family, buyer(1), 500_000, 0, 0).unwrap();
    assert_eq!(pool.token_price, 1_000_200);
    purchase_tokens(&mut pool, &mut family, buyer(1), 500_000, 0, 0).unwrap();
    assert_eq!(pool.total_supply, 4_000_000);
    assert_eq!(pool.token_price, 1_000_300);
}

#[test]
fn step_rounds_down() {
    for (before, after) in [(100u64, 100u64), (9_999, 9_999), (10_000, 10_001), (19_999, 20_000), (1, 1)]
    {
        let mut pool = pool_at(999_000, before);
        let mut family = FamilyAccount::default();
        purchase_tokens(&mut pool, &mut family, buyer(1), 1_000, 0, 0).unwrap();
        assert_eq!(pool.token_price, after);
    }
}

#[test]
fn cost_beyond_64_bits_is_refused_and_nothing_booked() {
    let mut pool = pool_at(10, u64::MAX / 2);
    let mut family = FamilyAccount::default();
    let r = purchase_tokens(&mut pool, &mut family, buyer(1), 3, 1, 2);
    assert_eq!(r, Err(PyebwaError::MathOverflow));
    assert_eq!(pool, pool_at(10, u64::MAX / 2));
    assert_eq!(family, FamilyAccount::default());
}

#[test]
fn balance_beyond_64_bits_is_refused_and_nothing_booked() {
    let mut pool = pool_at(10, 1);
    let mut family = FamilyAccount::default();
    family.owner = buyer(1);
    family.token_balance = u64::MAX - 4;
    let before = family;
    let r = purchase_tokens(&mut pool, &mut family, buyer(1), 5, 1, 2);
    assert_eq!(r, Err(PyebwaError::MathOverflow));
    assert_eq!(pool, pool_at(10, 1));
    assert_eq!(family, before);
    assert_eq!(purchase_tokens(&mut pool, &mut family, buyer(1), 4, 1, 2), Ok(4));
    assert_eq!(family.token_balance, u64::MAX);
}

#[test]
fn supply_beyond_64_bits_is_refused_and_nothing_booked() {
    let mut pool = pool_at(u64::MAX - 4, 1);
    let mut family = FamilyAccount::default();
    let r = purchase_tokens(&mut pool, &mut family, buyer(1), 5, 1, 2);
    assert_eq!(r, Err(PyebwaError::MathOverflow));
    assert_eq!(pool, pool_at(u64::MAX - 4, 1));
    assert_eq!(family, FamilyAccount::default());
}

#[test]
fn step_beyond_64_bits_is_refused_and_nothing_booked() {
    let price = u64::MAX / 10_001 + 1;
    let mut pool = pool_at(999_999, price);
    let mut family = FamilyAccount::default();
    let r = purchase_tokens(&mut pool, &mut family, buyer(1), 1, 1, 2);
    assert_eq!(r, Err(PyebwaError::MathOverflow));
    assert_eq!(pool, pool_at(999_999, price));
    assert_eq!(family, FamilyAccount::default());

    let mut pool = pool_at(999_999, price - 1);
    assert_eq!(purchase_tokens(&mut pool, &mut family, buyer(1), 1, 1, 2), Ok(price - 1));
    assert_eq!(pool.token_price, (price - 1) * 10_001 / 10_000);
}

#[test]
fn balances_add_up_to_the_supply() {
    let mut pool = pool_at(0, 7);
    let mut families = [FamilyAccount::default(); 4];
    let orders: [(usize, u64); 9] = [
        (0, 5),
        (1, 999_995),
        (2, 1),
        (0, 0),
        (3, 123_456),
        (1, 876_543),
        (2, u64::MAX),
        (3, 1_000_000),
        (0, 42),
    ];
    let mut last_price = pool.token_price;
    for (i, (slot, amount)) in orders.iter().enumerate() {
        let who = buyer(*slot as u8 + 1);
        let _ = purchase_tokens(&mut pool, &mut families[*slot], who, *amount, i as i64, 0);
        let held: u64 = families.iter().map(|f| f.token_balance).sum();
        assert_eq!(held, pool.total_supply);
        assert!(pool.token_price >= last_price);
        last_price = pool.token_price;
    }
    assert_eq!(pool.total_supply, 5 + 999_995 + 1 + 123_456 + 876_543 + 1_000_000 + 42);
}
