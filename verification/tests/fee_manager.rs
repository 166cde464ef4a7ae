use stellar_spend::address::{Addr, AddressKind};
use stellar_spend::errors::ContractError;
use stellar_spend::fee_manager::{
    FeeEvent, FeeManagerContract, FEE_TIER_1_MAX, FEE_TIER_1_MIN, FEE_TIER_2_MAX, FEE_TIER_2_MIN,
    FEE_TIER_3_MIN, TIER_1_FEE_RATE, TIER_2_FEE_RATE, TIER_3_FEE_RATE,
};
use stellar_spend::invocation::{Invocation, InvokeError};

fn admin() -> Addr {
    Addr { kind: AddressKind::Account, hi: 42, lo: 42 }
}

fn by(signers: Vec<Addr>) -> Invocation {
    Invocation { signers, ledger: 1, timestamp: 1 }
}

fn initialised() -> FeeManagerContract {
    let mut c = FeeManagerContract::new();
    c.init(&by(vec![admin()]), admin()).unwrap();
    c
}

// ── Normal operation ──────────────────────────────────────────────────────────

#[test]
fn test_fee_50bp_of_100() {
    let fee = FeeManagerContract::compute_fee(100, 50).unwrap();
    assert_eq!(fee, 0);
}

#[test]
fn test_fee_50bp_of_1_000_000() {
    let fee = FeeManagerContract::compute_fee(1_000_000, 50).unwrap();
    assert_eq!(fee, 5_000);
}

#[test]
fn test_fee_100bp_of_1_000_000() {
    let fee = FeeManagerContract::compute_fee(1_000_000, 100).unwrap();
    assert_eq!(fee, 10_000);
}

#[test]
fn test_fee_10000bp_of_1() {
    let fee = FeeManagerContract::compute_fee(1, 10_000).unwrap();
    assert_eq!(fee, 1);
}

#[test]
fn test_fee_zero_rate() {
    let fee = FeeManagerContract::compute_fee(1_000_000_000, 0).unwrap();
    assert_eq!(fee, 0);
}

// ── Boundary / overflow tests ─────────────────────────────────────────────────

#[test]
fn test_overflow_max_amount_max_rate() {
    let result = FeeManagerContract::compute_fee(i128::MAX, 10_000);
    assert_eq!(
        result.unwrap_err(),
        ContractError::Overflow,
        "i128::MAX * 10_000 must overflow u128 and return ContractError::Overflow"
    );
}

#[test]
fn test_large_safe_amount_does_not_overflow() {
    let fee = FeeManagerContract::compute_fee(1_000_000_000_000, 10_000).unwrap();
    assert_eq!(fee, 1_000_000_000_000, "100% fee of 1e12 = 1e12");
}

#[test]
fn test_min_nonzero_fee() {
    let fee = FeeManagerContract::compute_fee(10_000, 1).unwrap();
    assert_eq!(fee, 1);
}

#[test]
fn test_fee_floor_division() {
    let fee = FeeManagerContract::compute_fee(9_999, 50).unwrap();
    assert_eq!(fee, 49);
}

// ── Paused guard ──────────────────────────────────────────────────────────────

#[test]
fn test_paused_error_variant() {
    let err = ContractError::Paused;
    assert_eq!(err.code(), 7, "ContractError::Paused must have stable code 7");
}

#[test]
fn test_overflow_error_code_is_stable() {
    assert_eq!(ContractError::Overflow.code(), 9, "ContractError::Overflow must have stable code 9");
}

// ── Fee tier boundaries ───────────────────────────────────────────────────────

#[test]
fn test_tier_1_lower_boundary() {
    assert_eq!(FeeManagerContract::get_tier_fee_rate(0).unwrap(), TIER_1_FEE_RATE);
    assert_eq!(FeeManagerContract::get_tier_fee_rate(1).unwrap(), TIER_1_FEE_RATE);
}

#[test]
fn test_tier_1_upper_boundary() {
    assert_eq!(FeeManagerContract::get_tier_fee_rate(FEE_TIER_1_MAX).unwrap(), TIER_1_FEE_RATE);
    assert_eq!(FeeManagerContract::get_tier_fee_rate(FEE_TIER_1_MAX - 1).unwrap(), TIER_1_FEE_RATE);
}

#[test]
fn test_tier_1_to_tier_2_boundary() {
    assert_eq!(FeeManagerContract::get_tier_fee_rate(FEE_TIER_1_MAX).unwrap(), TIER_1_FEE_RATE);
    assert_eq!(FeeManagerContract::get_tier_fee_rate(FEE_TIER_2_MIN).unwrap(), TIER_2_FEE_RATE);
    assert_eq!(FEE_TIER_2_MIN - FEE_TIER_1_MAX, 1);
}

#[test]
fn test_tier_2_lower_boundary() {
    assert_eq!(FeeManagerContract::get_tier_fee_rate(FEE_TIER_2_MIN).unwrap(), TIER_2_FEE_RATE);
    assert_eq!(FeeManagerContract::get_tier_fee_rate(FEE_TIER_2_MIN + 1).unwrap(), TIER_2_FEE_RATE);
}

#[test]
fn test_tier_2_upper_boundary() {
    assert_eq!(FeeManagerContract::get_tier_fee_rate(FEE_TIER_2_MAX).unwrap(), TIER_2_FEE_RATE);
    assert_eq!(FeeManagerContract::get_tier_fee_rate(FEE_TIER_2_MAX - 1).unwrap(), TIER_2_FEE_RATE);
}

#[test]
fn test_tier_2_to_tier_3_boundary() {
    assert_eq!(FeeManagerContract::get_tier_fee_rate(FEE_TIER_2_MAX).unwrap(), TIER_2_FEE_RATE);
    assert_eq!(FeeManagerContract::get_tier_fee_rate(FEE_TIER_3_MIN).unwrap(), TIER_3_FEE_RATE);
    assert_eq!(FEE_TIER_3_MIN - FEE_TIER_2_MAX, 1);
}

#[test]
fn test_tier_3_lower_boundary() {
    assert_eq!(FeeManagerContract::get_tier_fee_rate(FEE_TIER_3_MIN).unwrap(), TIER_3_FEE_RATE);
    assert_eq!(FeeManagerContract::get_tier_fee_rate(FEE_TIER_3_MIN + 1).unwrap(), TIER_3_FEE_RATE);
}

#[test]
fn test_tier_3_large_amounts() {
    assert_eq!(FeeManagerContract::get_tier_fee_rate(100_000_000).unwrap(), TIER_3_FEE_RATE);
    assert_eq!(FeeManagerContract::get_tier_fee_rate(1_000_000_000).unwrap(), TIER_3_FEE_RATE);
    assert_eq!(FeeManagerContract::get_tier_fee_rate(i128::MAX).unwrap(), TIER_3_FEE_RATE);
}

// ── Fee calculation with rounding ─────────────────────────────────────────────

#[test]
fn test_fee_calculation_zero_amount() {
    let mut c = FeeManagerContract::new();
    assert_eq!(c.calculate_fee(0, TIER_1_FEE_RATE).unwrap(), 0);
}

#[test]
fn test_fee_calculation_rounding_down() {
    let amount = 999i128;
    let expected_fee = (amount as u128 * TIER_1_FEE_RATE as u128 / 10000) as i128;
    assert_eq!(expected_fee, 4);
    assert_eq!(FeeManagerContract::compute_fee(amount, TIER_1_FEE_RATE), Ok(4));
}

#[test]
fn test_fee_calculation_exact_boundary() {
    let amount = FEE_TIER_1_MAX;
    let expected_fee = (amount as u128 * TIER_1_FEE_RATE as u128 / 10000) as i128;
    assert_eq!(expected_fee, 50_000);
    assert_eq!(FeeManagerContract::compute_fee(amount, TIER_1_FEE_RATE), Ok(50_000));
}

#[test]
fn test_fee_calculation_tier_2_boundary() {
    let amount = FEE_TIER_2_MIN;
    let expected_fee = (amount as u128 * TIER_2_FEE_RATE as u128 / 10000) as i128;
    assert_eq!(expected_fee, 35_000);
    assert_eq!(FeeManagerContract::compute_fee(amount, TIER_2_FEE_RATE), Ok(35_000));
}

#[test]
fn test_fee_calculation_tier_3_boundary() {
    let amount = FEE_TIER_3_MIN;
    let expected_fee = (amount as u128 * TIER_3_FEE_RATE as u128 / 10000) as i128;
    assert_eq!(expected_fee, 125_000);
    assert_eq!(FeeManagerContract::compute_fee(amount, TIER_3_FEE_RATE), Ok(125_000));
}

#[test]
fn test_fee_calculation_large_amount() {
    let amount = 100_000_000_000i128;
    let expected_fee = (amount as u128 * TIER_3_FEE_RATE as u128 / 10000) as i128;
    assert_eq!(expected_fee, 250_000_000);
    assert_eq!(FeeManagerContract::compute_fee(amount, TIER_3_FEE_RATE), Ok(250_000_000));
}

// ── Fee tier integration ──────────────────────────────────────────────────────

#[test]
fn test_tiered_fee_at_boundaries() {
    let tier_1_max = FEE_TIER_1_MAX;
    let tier_2_min = FEE_TIER_2_MIN;
    let tier_2_max = FEE_TIER_2_MAX;
    let tier_3_min = FEE_TIER_3_MIN;
    assert_eq!(FeeManagerContract::get_tier_fee_rate(tier_1_max).unwrap(), TIER_1_FEE_RATE);
    assert_eq!(FeeManagerContract::get_tier_fee_rate(tier_2_min).unwrap(), TIER_2_FEE_RATE);
    assert_eq!(FeeManagerContract::get_tier_fee_rate(tier_2_max).unwrap(), TIER_2_FEE_RATE);
    assert_eq!(FeeManagerContract::get_tier_fee_rate(tier_3_min).unwrap(), TIER_3_FEE_RATE);
}

#[test]
fn test_tier_fee_rate_decreases_with_volume() {
    assert!(TIER_1_FEE_RATE > TIER_2_FEE_RATE);
    assert!(TIER_2_FEE_RATE > TIER_3_FEE_RATE);
}

#[test]
fn test_negative_amount_rejected() {
    assert!(FeeManagerContract::get_tier_fee_rate(-1).is_err());
    assert!(FeeManagerContract::get_tier_fee_rate(-1000).is_err());
}

#[test]
fn test_boundary_fee_differences() {
    let tier_1_fee = (FEE_TIER_1_MAX as u128 * TIER_1_FEE_RATE as u128 / 10000) as i128;
    let tier_2_fee = (FEE_TIER_2_MIN as u128 * TIER_2_FEE_RATE as u128 / 10000) as i128;
    let tier_2_max_fee = (FEE_TIER_2_MAX as u128 * TIER_2_FEE_RATE as u128 / 10000) as i128;
    let tier_3_fee = (FEE_TIER_3_MIN as u128 * TIER_3_FEE_RATE as u128 / 10000) as i128;
    assert!(tier_1_fee > 0);
    assert!(tier_2_fee > 0);
    assert!(tier_2_max_fee > tier_2_fee);
    // The lower tier-3 rate makes the first tier-3 fee smaller than the last tier-2 fee.
    assert!(tier_3_fee < tier_2_max_fee);
}

#[test]
fn test_fee_rate_percentage_correctness() {
    let _amount = 10_000_000_000i128;
    let tier_1_percentage = (TIER_1_FEE_RATE as f64 / 10000.0) * 100.0;
    let tier_2_percentage = (TIER_2_FEE_RATE as f64 / 10000.0) * 100.0;
    let tier_3_percentage = (TIER_3_FEE_RATE as f64 / 10000.0) * 100.0;
    assert!((tier_1_percentage - 0.5).abs() < 1e-12);
    assert!((tier_2_percentage - 0.35).abs() < 1e-12);
    assert!((tier_3_percentage - 0.25).abs() < 1e-12);
}

#[test]
fn test_tier_boundary_constants_are_ordered() {
    assert!(FEE_TIER_1_MIN <= FEE_TIER_1_MAX);
    assert!(FEE_TIER_1_MAX < FEE_TIER_2_MIN);
    assert!(FEE_TIER_2_MIN <= FEE_TIER_2_MAX);
    assert!(FEE_TIER_2_MAX < FEE_TIER_3_MIN);
}

// ── Contract behaviour ────────────────────────────────────────────────────────

#[test]
fn pause_blocks_and_unpause_restores_fee_calculation() {
    let mut c = initialised();
    assert!(!c.is_paused());
    c.pause(&by(vec![admin()]), &b"maintenance".to_vec()).unwrap();
    assert!(c.is_paused());
    assert_eq!(c.calculate_fee(1_000_000, 50), Err(ContractError::Paused));
    c.unpause(&by(vec![admin()])).unwrap();
    assert_eq!(c.calculate_fee(1_000_000, 50), Ok(5_000));
}

#[test]
fn calculate_fee_rejects_negative_amounts_and_reports_overflow() {
    let mut c = initialised();
    assert_eq!(c.calculate_fee(-1, 50), Err(ContractError::InvalidAmount));
    assert_eq!(c.calculate_fee(i128::MAX, 10_000), Err(ContractError::Overflow));
    assert_eq!(c.calculate_fee(9_999, 50), Ok(49));
    match c.events().last() {
        Some(FeeEvent::FeeCalculated { fee }) => assert_eq!(*fee, 49),
        _ => panic!("expected a fee event"),
    }
}

#[test]
fn admin_operations_need_init_and_admin_signature() {
    let mut fresh = FeeManagerContract::new();
    assert_eq!(fresh.pause(&by(vec![admin()]), &Vec::new()), Err(InvokeError::Contract(ContractError::NotFound)));
    assert_eq!(fresh.migrate(&by(vec![admin()]), &b"2.0.0".to_vec()), Err(InvokeError::Contract(ContractError::NotFound)));
    let mut c = initialised();
    assert_eq!(c.unpause(&by(Vec::new())), Err(InvokeError::MissingAuth(admin())));
    assert_eq!(c.migrate(&by(vec![admin()]), &b"2.0.0".to_vec()), Ok(()));
}

#[test]
fn version_is_one_zero_zero() {
    assert_eq!(FeeManagerContract::version(), "1.0.0");
}

#[test]
fn fee_never_exceeds_amount_at_full_rate() {
    for amount in [1i128, 7, 9_999, 10_000, 123_456_789] {
        let fee = FeeManagerContract::compute_fee(amount, 10_000).unwrap();
        assert!(fee <= amount);
        assert!(FeeManagerContract::compute_fee(amount + 1, 10_000).unwrap() >= fee);
    }
}
