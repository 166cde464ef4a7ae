use soroban_sdk::Env;
use stellar_spend::address::{Addr, AddressKind};
use stellar_spend::errors::ContractError;
use stellar_spend::invocation::{Invocation, InvokeError};
use stellar_spend::treasury::{TreasuryContract, TreasuryEvent, MAX_BASIS_POINTS, MAX_SINGLE_FEE_BP};

fn who(n: u128) -> Addr {
    Addr { kind: AddressKind::Account, hi: 0, lo: n }
}

fn by(signers: Vec<Addr>) -> Invocation {
    Invocation { signers, ledger: 1, timestamp: 1 }
}

fn configured() -> TreasuryContract {
    let env = Env::default();
    let mut t = TreasuryContract::new();
    t.init(&env, &by(vec![who(1)]), who(1), who(2)).unwrap();
    t
}

// ── Fee tier selection ────────────────────────────────────────────────────────

#[test]
fn test_fee_small_amount_returns_50bp() {
    let schedule: soroban_sdk::Map<i128, u32> = soroban_sdk::Map::new(&Env::default());
    assert_eq!(TreasuryContract::get_fee_for_amount(&schedule, 500_000), 50);
}

#[test]
fn test_compute_fee_small_amount() {
    let fee = TreasuryContract::compute_fee(500_000, 50).unwrap();
    assert_eq!(fee, 2_500);
}

#[test]
fn test_compute_fee_medium_amount() {
    let fee = TreasuryContract::compute_fee(5_000_000, 25).unwrap();
    assert_eq!(fee, 12_500);
}

#[test]
fn test_compute_fee_large_amount() {
    let fee = TreasuryContract::compute_fee(50_000_000, 10).unwrap();
    assert_eq!(fee, 50_000);
}

#[test]
fn test_fee_bounds() {
    assert!(MAX_SINGLE_FEE_BP <= MAX_BASIS_POINTS);
}

// ── Overflow guard ────────────────────────────────────────────────────────────

#[test]
fn test_compute_fee_max_safe_value_does_not_panic() {
    let result = TreasuryContract::compute_fee(i128::MAX, 10_000);
    assert_eq!(
        result.unwrap_err(),
        ContractError::Overflow,
        "Overflow on i128::MAX * 10000 must return ContractError::Overflow"
    );
}

#[test]
fn test_compute_fee_zero_rate() {
    let fee = TreasuryContract::compute_fee(1_000_000, 0).unwrap();
    assert_eq!(fee, 0);
}

#[test]
fn test_compute_fee_max_rate_small_amount() {
    let fee = TreasuryContract::compute_fee(1, 10_000).unwrap();
    assert_eq!(fee, 1);
}

#[test]
fn test_compute_fee_one_stroop() {
    let fee = TreasuryContract::compute_fee(1, 50).unwrap();
    assert_eq!(fee, 0, "Floor division: 1 * 50 / 10000 = 0");
}

#[test]
fn test_amount_tier_boundaries() {
    let schedule: soroban_sdk::Map<i128, u32> = soroban_sdk::Map::new(&Env::default());
    assert_eq!(TreasuryContract::get_fee_for_amount(&schedule, 0), 50);
    assert_eq!(TreasuryContract::get_fee_for_amount(&schedule, 1_000_000), 25);
    assert_eq!(TreasuryContract::get_fee_for_amount(&schedule, 10_000_000), 10);
    assert_eq!(TreasuryContract::get_fee_for_amount(&schedule, 999_999), 50);
    assert_eq!(TreasuryContract::get_fee_for_amount(&schedule, 9_999_999), 25);
}

// ── Contract behaviour ────────────────────────────────────────────────────────

#[test]
fn collect_fee_uses_the_tier_of_the_amount() {
    let mut t = configured();
    assert_eq!(t.collect_fee(500_000, who(3)), Ok(2_500));
    assert_eq!(t.collect_fee(5_000_000, who(3)), Ok(12_500));
    assert_eq!(t.collect_fee(50_000_000, who(3)), Ok(50_000));
    assert_eq!(t.collect_fee(0, who(3)), Err(ContractError::InvalidAmount));
    assert_eq!(
        t.events().last(),
        Some(&TreasuryEvent::FeeCollected { amount: 50_000_000, fee: 50_000, recipient: who(3) })
    );
    let mut fresh = TreasuryContract::new();
    assert_eq!(fresh.collect_fee(10, who(3)), Err(ContractError::NotFound));
}

#[test]
fn schedule_updates_are_admin_only_and_bounded() {
    let mut t = configured();
    assert_eq!(t.set_fee_schedule(&by(Vec::new()), 5, 10), Err(InvokeError::MissingAuth(who(1))));
    assert_eq!(
        t.set_fee_schedule(&by(vec![who(1)]), 5, MAX_SINGLE_FEE_BP + 1),
        Err(InvokeError::Contract(ContractError::InvalidAmount))
    );
    assert_eq!(t.set_fee_schedule(&by(vec![who(1)]), 5, MAX_SINGLE_FEE_BP), Ok(()));
    let mut fresh = TreasuryContract::new();
    assert_eq!(
        fresh.set_fee_schedule(&by(vec![who(1)]), 5, 1),
        Err(InvokeError::Contract(ContractError::NotFound))
    );
}

#[test]
fn treasury_address_can_be_read_updated_and_routed_to() {
    let env = Env::default();
    let mut t = configured();
    assert_eq!(t.get_treasury(&env), who(2));
    t.update_treasury(&by(vec![who(1)]), who(7)).unwrap();
    assert_eq!(t.get_treasury(&env), who(7));
    assert_eq!(t.route_to_treasury(-3), Err(ContractError::InvalidAmount));
    assert_eq!(t.route_to_treasury(40), Ok(()));
    assert_eq!(t.events().last(), Some(&TreasuryEvent::FeeRouted { amount: 40, treasury: who(7) }));
    let fresh = TreasuryContract::new();
    let made_up = fresh.get_treasury(&env);
    assert_eq!(made_up.kind, AddressKind::Contract);
}

#[test]
fn collect_fee_reports_overflow_past_i128_max() {
    let mut t = configured();
    // 2^124 * 10 exceeds i128::MAX (but not u128::MAX).
    assert_eq!(t.collect_fee(1i128 << 124, who(3)), Err(ContractError::Overflow));
    assert_eq!(TreasuryContract::compute_fee(1i128 << 124, 10), Err(ContractError::Overflow));
    let largest = i128::MAX / 10;
    assert_eq!(TreasuryContract::compute_fee(largest, 10), Ok(largest * 10 / 10_000));
}

#[test]
fn get_treasury_before_init_makes_up_a_contract_address() {
    let env = Env::default();
    let t = TreasuryContract::new();
    assert_eq!(t.get_treasury(&env).kind, AddressKind::Contract);
    assert_eq!(configured().get_treasury(&env), who(2));
}
