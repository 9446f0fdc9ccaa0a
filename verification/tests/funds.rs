use bsc_sniper::funds::{
    affordable_wei, buy_enabled, cap_to_u64, gas_fees, plan_buy, BuyBudget, BuyPlan,
    NonceCounter, Platform,
};

#[test]
fn affordable_keeps_the_gas_cost_back() {
    // 1000 gas at 10 wei each is kept back.
    assert_eq!(affordable_wei(1_000_000, 10, 0, 1000, 500_000), 500_000);
    assert_eq!(affordable_wei(1_000_000, 10, 0, 1000, 2_000_000), 990_000);
}

#[test]
fn affordable_uses_fallback_fee_before_first_refresh() {
    assert_eq!(affordable_wei(1_000_000, 0, 20, 1000, u128::MAX), 980_000);
}

#[test]
fn affordable_reserve_is_at_most_seventy_percent() {
    // The gas would cost 1000 wei, but at most 70 of the 100 are kept back.
    assert_eq!(affordable_wei(100, 1, 0, 1000, u128::MAX), 30);
}

#[test]
fn affordable_with_empty_wallet_is_zero() {
    assert_eq!(affordable_wei(0, 5, 0, 21000, 10), 0);
}

#[test]
fn gas_fees_are_raised_to_floors() {
    assert_eq!(gas_fees(5, 1, 10, 0), (10, 1));
    assert_eq!(gas_fees(50, 7, 10, 9), (50, 9));
}

#[test]
fn fees_above_u64_are_capped() {
    assert_eq!(cap_to_u64(42), 42);
    assert_eq!(cap_to_u64(u128::from(u64::MAX) + 1), u64::MAX);
}

#[test]
fn platforms_are_switched_separately() {
    assert!(buy_enabled(Platform::Flap, true, false));
    assert!(!buy_enabled(Platform::FourMeme, true, false));
    assert!(buy_enabled(Platform::FourMeme, false, true));
}

#[test]
fn budget_spending() {
    let mut b = BuyBudget::with_available(1000);
    assert_eq!(b.spendable(300), 300);
    b.record_spent(300);
    assert_eq!(b.remaining, Some(700));
    assert_eq!(b.spendable(5000), 700);
    b.record_spent(5000);
    assert_eq!(b.remaining, Some(0));
    assert_eq!(b.spendable(1), 0);
}

#[test]
fn unknown_budget_spends_nothing_and_becomes_empty() {
    let mut b = BuyBudget::unknown();
    assert_eq!(b.spendable(10), 0);
    b.record_spent(10);
    assert_eq!(b.remaining, Some(0));
}

#[test]
fn buy_plans() {
    let b = BuyBudget::with_available(1000);
    assert_eq!(plan_buy(Platform::Flap, false, true, &b, 10), BuyPlan::Disabled);
    assert_eq!(plan_buy(Platform::Flap, true, false, &b, 10), BuyPlan::Spend(10));
    assert_eq!(plan_buy(Platform::FourMeme, false, true, &b, 5000), BuyPlan::Spend(1000));
    assert_eq!(plan_buy(Platform::FourMeme, true, true, &b, 0), BuyPlan::Skip);
    assert_eq!(plan_buy(Platform::Flap, true, true, &BuyBudget::unknown(), 10), BuyPlan::Skip);
}

#[test]
fn run_of_buys_never_exceeds_budget() {
    let mut b = BuyBudget::with_available(1000);
    let mut total = 0u128;
    for req in [400u128, 400, 400, 400] {
        let s = b.spendable(req);
        b.record_spent(s);
        total += s;
    }
    assert_eq!(total, 1000);
    assert_eq!(b.remaining, Some(0));
}

#[test]
fn nonces_are_consecutive() {
    let mut n = NonceCounter::new(7);
    assert_eq!(n.take(), 7);
    assert_eq!(n.take(), 8);
    assert_eq!(n.next, 9);
}

#[test]
fn nonce_wraps_at_u64_max() {
    let mut n = NonceCounter::new(u64::MAX);
    assert_eq!(n.take(), u64::MAX);
    assert_eq!(n.take(), 0);
}
