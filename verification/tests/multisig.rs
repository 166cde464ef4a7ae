use stellar_spend::address::{Addr, AddressKind};
use stellar_spend::auth::{required_threshold, verify_threshold};
use stellar_spend::errors::ContractError;
use stellar_spend::invocation::{Invocation, InvokeError};
use stellar_spend::multisig::MultisigAuthority;

fn who(n: u128) -> Addr {
    Addr { kind: AddressKind::Account, hi: n, lo: 0 }
}

fn by(signers: Vec<Addr>) -> Invocation {
    Invocation { signers, ledger: 77, timestamp: 0 }
}

/// Admin 100, signers 1..=3, threshold 2, high-value limit 1 000.
fn configured() -> MultisigAuthority {
    let mut m = MultisigAuthority::new();
    m.init(&by(vec![who(100)]), who(100), vec![who(1), who(2), who(3)], 2, 1_000).unwrap();
    m
}

// ── Threshold validation ──────────────────────────────────────────────────────

#[test]
fn threshold_must_be_at_least_one() {
    let threshold = 0u32;
    assert!(threshold == 0, "zero threshold must be rejected by init()");
    let mut m = MultisigAuthority::new();
    assert_eq!(
        m.init(&by(vec![who(100)]), who(100), vec![who(1)], threshold, 0),
        Err(InvokeError::Contract(ContractError::InvalidAmount))
    );
}

#[test]
fn threshold_cannot_exceed_signer_count() {
    let signers_len = 3usize;
    let threshold = 4u32;
    assert!(threshold as usize > signers_len, "threshold > signers should be rejected");
    let mut m = MultisigAuthority::new();
    assert_eq!(
        m.init(&by(vec![who(100)]), who(100), vec![who(1), who(2), who(3)], threshold, 0),
        Err(InvokeError::Contract(ContractError::InvalidAmount))
    );
}

#[test]
fn quorum_check_low_value_delegates_to_shared() {
    assert_eq!(required_threshold(3, 1_000, 500), 1);
}

#[test]
fn quorum_check_high_value_delegates_to_shared() {
    assert_eq!(required_threshold(3, 1_000, 1_001), 3);
}

#[test]
fn quorum_check_at_limit_is_single_sig() {
    assert_eq!(required_threshold(3, 1_000, 1_000), 1);
}

#[test]
fn quorum_check_no_limit_always_full() {
    assert_eq!(required_threshold(5, 0, 1), 5);
}

// ── verify_threshold edge cases ───────────────────────────────────────────────

#[test]
fn verify_zero_signers_fails() {
    assert_eq!(verify_threshold(0, 1, 0, 0).unwrap_err(), ContractError::BelowThreshold);
}

#[test]
fn verify_exact_threshold_passes() {
    assert!(verify_threshold(3, 3, 0, 9_999).is_ok());
}

#[test]
fn verify_over_threshold_passes() {
    assert!(verify_threshold(5, 3, 0, 9_999).is_ok());
}

#[test]
fn verify_one_sig_sufficient_for_low_value() {
    assert!(verify_threshold(1, 5, 1_000, 999).is_ok());
}

#[test]
fn verify_one_sig_insufficient_for_high_value() {
    assert_eq!(verify_threshold(1, 5, 1_000, 1_001).unwrap_err(), ContractError::BelowThreshold);
}

// ── State machine ─────────────────────────────────────────────────────────────

#[test]
fn executed_proposal_cannot_be_re_executed() {
    let mut m = configured();
    let id = b"p1".to_vec();
    m.propose(&by(vec![who(1)]), who(1), &id, &b"release".to_vec(), who(9), 500).unwrap();
    assert_eq!(m.execute(&by(vec![who(1)]), who(1), &id), Ok(500));
    let result = m.execute(&by(vec![who(2)]), who(2), &id);
    assert_eq!(result.unwrap_err(), InvokeError::Contract(ContractError::AlreadyProcessed));
}

#[test]
fn cannot_sign_twice() {
    let mut m = configured();
    let id = b"p1".to_vec();
    m.propose(&by(vec![who(1)]), who(1), &id, &b"release".to_vec(), who(9), 5_000).unwrap();
    assert_eq!(m.sign(&by(vec![who(2)]), who(2), &id), Ok(2));
    let result = m.sign(&by(vec![who(2)]), who(2), &id);
    assert_eq!(result.unwrap_err(), InvokeError::Contract(ContractError::AlreadyProcessed));
}

#[test]
fn remove_signer_preserves_quorum() {
    let signers_len = 3usize;
    let threshold = 3u32;
    assert!(
        (signers_len - 1) < threshold as usize,
        "removal must be blocked when it makes quorum impossible"
    );
    let mut m = configured();
    m.set_threshold(&by(vec![who(100)]), who(100), threshold).unwrap();
    assert_eq!(
        m.remove_signer(&by(vec![who(100)]), who(100), who(3)),
        Err(InvokeError::Contract(ContractError::BelowThreshold))
    );
    assert_eq!(m.get_signers().len(), signers_len);
}

// ── Error taxonomy ────────────────────────────────────────────────────────────

#[test]
fn error_codes_are_stable() {
    assert_eq!(ContractError::Unauthorized.code(), 1);
    assert_eq!(ContractError::InvalidAmount.code(), 2);
    assert_eq!(ContractError::NotFound.code(), 3);
    assert_eq!(ContractError::AlreadyProcessed.code(), 4);
    assert_eq!(ContractError::BelowThreshold.code(), 6);
}

// ── Further behaviour ─────────────────────────────────────────────────────────

#[test]
fn high_value_proposal_needs_full_threshold() {
    let mut m = configured();
    let id = b"big".to_vec();
    m.propose(&by(vec![who(1)]), who(1), &id, &Vec::new(), who(9), 1_001).unwrap();
    assert_eq!(m.proposal_status(&id), Ok((1, 2, false)));
    assert_eq!(
        m.execute(&by(vec![who(1)]), who(1), &id),
        Err(InvokeError::Contract(ContractError::BelowThreshold))
    );
    m.sign(&by(vec![who(3)]), who(3), &id).unwrap();
    assert_eq!(m.proposal_status(&id), Ok((2, 2, true)));
    assert_eq!(m.execute(&by(vec![who(2)]), who(2), &id), Ok(1_001));
    assert_eq!(m.proposal_status(&id), Ok((2, 2, false)));
}

#[test]
fn non_signers_and_duplicates_are_refused() {
    let mut m = configured();
    let id = b"p".to_vec();
    assert_eq!(
        m.propose(&by(vec![who(50)]), who(50), &id, &Vec::new(), who(9), 1),
        Err(InvokeError::Contract(ContractError::Unauthorized))
    );
    m.propose(&by(vec![who(1)]), who(1), &id, &Vec::new(), who(9), 1).unwrap();
    assert_eq!(
        m.propose(&by(vec![who(2)]), who(2), &id, &Vec::new(), who(9), 1),
        Err(InvokeError::Contract(ContractError::AlreadyProcessed))
    );
    assert_eq!(
        m.sign(&by(vec![who(2)]), who(2), &b"missing".to_vec()),
        Err(InvokeError::Contract(ContractError::NotFound))
    );
    assert_eq!(m.sign(&by(Vec::new()), who(2), &id), Err(InvokeError::MissingAuth(who(2))));
}

#[test]
fn admin_manages_signers_and_threshold() {
    let mut m = configured();
    let admin = by(vec![who(100)]);
    assert_eq!(
        m.add_signer(&by(vec![who(1)]), who(1), who(4)),
        Err(InvokeError::Contract(ContractError::Unauthorized))
    );
    m.add_signer(&admin, who(100), who(4)).unwrap();
    assert_eq!(
        m.add_signer(&admin, who(100), who(4)),
        Err(InvokeError::Contract(ContractError::AlreadyProcessed))
    );
    assert_eq!(m.get_signers(), vec![who(1), who(2), who(3), who(4)]);
    m.remove_signer(&admin, who(100), who(2)).unwrap();
    assert_eq!(m.get_signers(), vec![who(1), who(3), who(4)]);
    assert_eq!(
        m.remove_signer(&admin, who(100), who(2)),
        Err(InvokeError::Contract(ContractError::NotFound))
    );
    assert_eq!(
        m.set_threshold(&admin, who(100), 4),
        Err(InvokeError::Contract(ContractError::InvalidAmount))
    );
    m.set_threshold(&admin, who(100), 3).unwrap();
    assert_eq!(m.required_threshold_for(1_001), Ok(3));
    assert_eq!(m.required_threshold_for(1_000), Ok(1));
}

#[test]
fn nothing_works_before_init() {
    let mut m = MultisigAuthority::new();
    assert_eq!(m.get_signers(), Vec::<Addr>::new());
    assert_eq!(m.required_threshold_for(5), Err(ContractError::NotFound));
    assert_eq!(m.proposal_status(&b"p".to_vec()), Err(ContractError::NotFound));
    assert_eq!(
        m.propose(&by(vec![who(1)]), who(1), &b"p".to_vec(), &Vec::new(), who(9), 1),
        Err(InvokeError::Contract(ContractError::NotFound))
    );
    assert_eq!(
        m.add_signer(&by(vec![who(1)]), who(1), who(2)),
        Err(InvokeError::Contract(ContractError::NotFound))
    );
}

#[test]
fn init_rejects_bad_configurations() {
    let mut m = MultisigAuthority::new();
    let ctx = by(vec![who(100)]);
    assert_eq!(m.init(&ctx, who(100), Vec::new(), 1, 0), Err(InvokeError::Contract(ContractError::InvalidAmount)));
    assert_eq!(m.init(&ctx, who(100), vec![who(1)], 1, -1), Err(InvokeError::Contract(ContractError::InvalidAmount)));
    assert_eq!(m.init(&by(Vec::new()), who(100), vec![who(1)], 1, 0), Err(InvokeError::MissingAuth(who(100))));
    assert_eq!(m.init(&ctx, who(100), vec![who(1)], 1, 0), Ok(()));
}
