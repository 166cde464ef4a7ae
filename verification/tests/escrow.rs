use soroban_sdk::xdr::{AccountId, ContractId, PublicKey, ScAddress, ToXdr, Uint256};
use soroban_sdk::{Bytes, Env, TryFromVal};
use stellar_spend::address::{Addr, AddressKind};
use stellar_spend::escrow::{
    EscrowContract, EscrowEvent, Error, DEFAULT_TIMEOUT_LEDGERS, MAX_TIMEOUT_LEDGERS,
};
use stellar_spend::invocation::{Invocation, InvokeError};

fn account(n: u128) -> Addr {
    Addr { kind: AddressKind::Account, hi: n, lo: n * 7 + 1 }
}

fn signed_by(signers: Vec<Addr>, ledger: u32) -> Invocation {
    Invocation { signers, ledger, timestamp: 1_700_000_000 }
}

fn unsigned(ledger: u32) -> Invocation {
    signed_by(Vec::new(), ledger)
}

/// Initialises an escrow with a fresh settlement authority.
fn setup() -> (Env, EscrowContract, Addr) {
    let env = Env::default();
    let mut client = EscrowContract::new();
    let authority = account(1);
    client.init(&signed_by(vec![authority], 0), authority).unwrap();
    (env, client, authority)
}

fn make_deposit(env: &Env, client: &mut EscrowContract, ledger: u32) -> (Vec<u8>, Addr) {
    let depositor = account(100);
    let bridge = account(200);
    let token = account(300);
    let id = client
        .deposit(env, &signed_by(vec![depositor], ledger), depositor, 1_000, bridge, token)
        .unwrap();
    (id, depositor)
}

/// The deposit ID computed directly with the Soroban SDK.
fn expected_id(env: &Env, depositor: Addr, bridge: Addr, ledger: u32, seq: u64) -> Vec<u8> {
    let to_address = |a: Addr| {
        let mut key = [0u8; 32];
        key[..16].copy_from_slice(&a.hi.to_be_bytes());
        key[16..].copy_from_slice(&a.lo.to_be_bytes());
        let sc = match a.kind {
            AddressKind::Account => {
                ScAddress::Account(AccountId(PublicKey::PublicKeyTypeEd25519(Uint256(key))))
            }
            AddressKind::Contract => ScAddress::Contract(ContractId(soroban_sdk::xdr::Hash(key))),
        };
        soroban_sdk::Address::try_from_val(env, &sc).unwrap()
    };
    let mut preimage: Bytes = to_address(depositor).to_xdr(env);
    preimage.append(&to_address(bridge).to_xdr(env));
    preimage.extend_from_slice(&ledger.to_be_bytes());
    preimage.extend_from_slice(&seq.to_be_bytes());
    let digest = env.crypto().sha256(&preimage).to_array();
    digest.iter().flat_map(|b| format!("{:02x}", b).into_bytes()).collect()
}

// ── init ──────────────────────────────────────────────────────────────────────

#[test]
fn init_requires_authority_auth() {
    let mut client = EscrowContract::new();
    let authority = account(1);
    assert!(
        client.init(&unsigned(0), authority).is_err(),
        "init must fail without the settlement authority's signature"
    );
}

#[test]
fn init_cannot_be_called_twice() {
    let (_env, mut client, _) = setup();
    let attacker = account(66);
    assert_eq!(
        client.init(&signed_by(vec![attacker], 0), attacker),
        Err(InvokeError::Contract(Error::AlreadyInitialized))
    );
}

// ── deposit ───────────────────────────────────────────────────────────────────

#[test]
fn deposit_unauthorized_is_rejected() {
    let (env, mut client, _) = setup();
    let depositor = account(100);
    let bridge = account(200);
    let token = account(300);
    assert!(
        client.deposit(&env, &unsigned(0), depositor, 1_000, bridge, token).is_err(),
        "deposit must fail without the depositor's signature"
    );
}

#[test]
fn deposit_rejects_non_positive_amounts() {
    let (env, mut client, _) = setup();
    let depositor = account(100);
    let bridge = account(200);
    let token = account(300);
    let ctx = signed_by(vec![depositor], 0);
    assert_eq!(
        client.deposit(&env, &ctx, depositor, 0, bridge, token),
        Err(InvokeError::Contract(Error::InvalidAmount))
    );
    assert_eq!(
        client.deposit(&env, &ctx, depositor, -1, bridge, token),
        Err(InvokeError::Contract(Error::InvalidAmount))
    );
}

#[test]
fn deposit_ids_are_unique_within_one_ledger() {
    let (env, mut client, _) = setup();
    let depositor = account(100);
    let bridge = account(200);
    let token = account(300);
    let ctx = signed_by(vec![depositor], 0);
    let first = client.deposit(&env, &ctx, depositor, 1_000, bridge, token).unwrap();
    let second = client.deposit(&env, &ctx, depositor, 2_000, bridge, token).unwrap();

    assert_ne!(first, second);
    assert_eq!(client.get_deposit(&first), Ok((1_000i128, false, false)));
    assert_eq!(client.get_deposit(&second), Ok((2_000i128, false, false)));
}

// ── release ───────────────────────────────────────────────────────────────────

#[test]
fn release_unauthorized_is_rejected() {
    let (env, mut client, _) = setup();
    let (id, _) = make_deposit(&env, &mut client, 0);
    let recipient = account(400);

    assert!(
        client.release(&unsigned(0), &id, recipient).is_err(),
        "release must fail without the settlement authority's signature"
    );
    assert_eq!(client.get_deposit(&id), Ok((1_000i128, false, false)));
}

#[test]
fn release_marks_deposit_and_blocks_refund() {
    let (env, mut client, authority) = setup();
    let (id, _) = make_deposit(&env, &mut client, 0);
    let recipient = account(400);
    let ctx = signed_by(vec![authority], 0);

    assert_eq!(client.release(&ctx, &id, recipient), Ok(1_000i128));
    assert_eq!(client.get_deposit(&id), Ok((1_000i128, true, false)));
    assert_eq!(
        client.release(&ctx, &id, recipient),
        Err(InvokeError::Contract(Error::AlreadyReleased))
    );

    let later = unsigned(DEFAULT_TIMEOUT_LEDGERS + 1);
    assert_eq!(client.refund(&later, &id), Err(Error::AlreadyReleased));
    assert_eq!(client.can_refund(&later, &id), Ok(false));
}

#[test]
fn release_of_unknown_deposit_is_rejected() {
    let (_env, mut client, authority) = setup();
    let recipient = account(400);
    let bogus = b"does-not-exist".to_vec();
    assert_eq!(
        client.release(&signed_by(vec![authority], 0), &bogus, recipient),
        Err(InvokeError::Contract(Error::DepositNotFound))
    );
}

// ── refund ────────────────────────────────────────────────────────────────────

#[test]
fn refund_before_timeout_is_rejected() {
    let (env, mut client, _) = setup();
    let (id, _) = make_deposit(&env, &mut client, 0);
    assert_eq!(client.refund(&unsigned(0), &id), Err(Error::TimeoutNotReached));
    assert_eq!(client.can_refund(&unsigned(0), &id), Ok(false));
}

#[test]
fn refund_is_permissionless() {
    let (env, mut client, _) = setup();
    let (id, _) = make_deposit(&env, &mut client, 0);
    // No authorisation at all: refund is the depositor's guaranteed exit path.
    let later = unsigned(DEFAULT_TIMEOUT_LEDGERS + 1);
    assert_eq!(client.refund(&later, &id), Ok(1_000i128));
    assert_eq!(client.get_deposit(&id), Ok((1_000i128, false, true)));
}

#[test]
fn refund_blocks_subsequent_release_and_double_refund() {
    let (env, mut client, authority) = setup();
    let (id, _) = make_deposit(&env, &mut client, 0);
    let recipient = account(400);
    let later = signed_by(vec![authority], DEFAULT_TIMEOUT_LEDGERS + 1);

    client.refund(&later, &id).unwrap();
    assert_eq!(client.refund(&later, &id), Err(Error::AlreadyRefunded));
    assert_eq!(
        client.release(&later, &id, recipient),
        Err(InvokeError::Contract(Error::AlreadyRefunded))
    );
}

// ── set_timeout ───────────────────────────────────────────────────────────────

#[test]
fn set_timeout_unauthorized_is_rejected() {
    let (_env, mut client, _) = setup();
    assert!(
        client.set_timeout(&unsigned(0), 1_000).is_err(),
        "set_timeout must fail without the settlement authority's signature"
    );
}

#[test]
fn set_timeout_rejects_out_of_range_values() {
    let (_env, mut client, authority) = setup();
    let ctx = signed_by(vec![authority], 0);
    assert_eq!(client.set_timeout(&ctx, 0), Err(InvokeError::Contract(Error::InvalidTimeout)));
    assert_eq!(
        client.set_timeout(&ctx, MAX_TIMEOUT_LEDGERS + 1),
        Err(InvokeError::Contract(Error::InvalidTimeout))
    );
    assert_eq!(client.set_timeout(&ctx, MAX_TIMEOUT_LEDGERS), Ok(()));
}

#[test]
fn set_timeout_does_not_retroactively_extend_open_deposits() {
    let (env, mut client, authority) = setup();
    let (id, _) = make_deposit(&env, &mut client, 0);

    client.set_timeout(&signed_by(vec![authority], 0), MAX_TIMEOUT_LEDGERS).unwrap();
    let later = unsigned(DEFAULT_TIMEOUT_LEDGERS + 1);
    assert!(
        client.can_refund(&later, &id).unwrap(),
        "authority must not be able to extend an existing lock-up"
    );
}

#[test]
fn deposit_timeout_ledger_saturates_instead_of_wrapping() {
    let (env, mut client, authority) = setup();
    client.set_timeout(&signed_by(vec![authority], 0), MAX_TIMEOUT_LEDGERS).unwrap();
    let ledger = u32::MAX - 10;
    let (id, _) = make_deposit(&env, &mut client, ledger);
    assert!(
        !client.can_refund(&unsigned(ledger), &id).unwrap(),
        "timeout_ledger must saturate, not wrap"
    );
}

// ── further checks ────────────────────────────────────────────────────────────

#[test]
fn deposit_id_matches_sdk_computation() {
    let (env, mut client, _) = setup();
    let depositor = account(100);
    let bridge = Addr { kind: AddressKind::Contract, hi: 5, lo: 9 };
    let token = account(300);
    let ctx = signed_by(vec![depositor], 4_242);
    let first = client.deposit(&env, &ctx, depositor, 10, bridge, token).unwrap();
    let second = client.deposit(&env, &ctx, depositor, 10, bridge, token).unwrap();
    assert_eq!(first.len(), 64);
    assert!(first.iter().all(|c| c.is_ascii_hexdigit() && !c.is_ascii_uppercase()));
    assert_eq!(first, expected_id(&env, depositor, bridge, 4_242, 1));
    assert_eq!(second, expected_id(&env, depositor, bridge, 4_242, 2));
}

#[test]
fn operations_before_init_report_not_initialized() {
    let mut client = EscrowContract::new();
    let anyone = account(9);
    let ctx = signed_by(vec![anyone], 0);
    assert_eq!(client.release(&ctx, &b"x".to_vec(), anyone), Err(InvokeError::Contract(Error::NotInitialized)));
    assert_eq!(client.set_timeout(&ctx, 10), Err(InvokeError::Contract(Error::NotInitialized)));
    assert_eq!(client.settlement_authority(), Err(Error::NotInitialized));
}

#[test]
fn unauthorized_calls_name_the_missing_signer() {
    let (env, mut client, authority) = setup();
    let depositor = account(100);
    assert_eq!(
        client.deposit(&env, &unsigned(0), depositor, 5, account(2), account(3)),
        Err(InvokeError::MissingAuth(depositor))
    );
    assert_eq!(client.set_timeout(&unsigned(0), 5), Err(InvokeError::MissingAuth(authority)));
}

#[test]
fn refund_exactly_at_timeout_ledger_succeeds() {
    let (env, mut client, _) = setup();
    let (id, _) = make_deposit(&env, &mut client, 10);
    let at = unsigned(10 + DEFAULT_TIMEOUT_LEDGERS);
    let before = unsigned(10 + DEFAULT_TIMEOUT_LEDGERS - 1);
    assert_eq!(client.can_refund(&before, &id), Ok(false));
    assert_eq!(client.can_refund(&at, &id), Ok(true));
    assert_eq!(client.refund(&at, &id), Ok(1_000));
}

#[test]
fn unknown_deposit_is_reported_everywhere() {
    let (_env, mut client, _) = setup();
    let id = b"nope".to_vec();
    assert_eq!(client.get_deposit(&id), Err(Error::DepositNotFound));
    assert_eq!(client.can_refund(&unsigned(0), &id), Err(Error::DepositNotFound));
    assert_eq!(client.refund(&unsigned(0), &id), Err(Error::DepositNotFound));
}

#[test]
fn events_record_each_transition() {
    let (env, mut client, authority) = setup();
    let (id, depositor) = make_deposit(&env, &mut client, 0);
    let recipient = account(400);
    client.release(&signed_by(vec![authority], 0), &id, recipient).unwrap();
    client.set_timeout(&signed_by(vec![authority], 0), 77).unwrap();
    let events = client.events();
    assert_eq!(events.len(), 3);
    match &events[0] {
        EscrowEvent::Deposit { depositor: d, amount, .. } => {
            assert_eq!(*d, depositor);
            assert_eq!(*amount, 1_000);
        }
        _ => panic!("expected a deposit event"),
    }
    match &events[1] {
        EscrowEvent::Release { deposit_id, recipient: r, amount } => {
            assert_eq!(deposit_id, &id);
            assert_eq!(*r, recipient);
            assert_eq!(*amount, 1_000);
        }
        _ => panic!("expected a release event"),
    }
    match &events[2] {
        EscrowEvent::TimeoutUpdated { timeout_ledgers } => assert_eq!(*timeout_ledgers, 77),
        _ => panic!("expected a timeout event"),
    }
}

#[test]
fn error_codes_are_fixed() {
    assert_eq!(Error::NotInitialized.code(), 1);
    assert_eq!(Error::AlreadyInitialized.code(), 2);
    assert_eq!(Error::InvalidAmount.code(), 3);
    assert_eq!(Error::DepositNotFound.code(), 4);
    assert_eq!(Error::AlreadyReleased.code(), 5);
    assert_eq!(Error::AlreadyRefunded.code(), 6);
    assert_eq!(Error::TimeoutNotReached.code(), 7);
    assert_eq!(Error::InvalidTimeout.code(), 8);
}

#[test]
fn address_xdr_is_scval_address_layout() {
    let env = Env::default();
    let key = |a: Addr| {
        let mut k = a.hi.to_be_bytes().to_vec();
        k.extend_from_slice(&a.lo.to_be_bytes());
        k
    };
    let acct = account(3);
    let mut expected = vec![0u8, 0, 0, 18, 0, 0, 0, 0, 0, 0, 0, 0];
    expected.extend(key(acct));
    assert_eq!(stellar_spend::host::address_xdr(&env, acct), expected);

    let contract = Addr { kind: AddressKind::Contract, hi: 5, lo: 9 };
    let mut expected = vec![0u8, 0, 0, 18, 0, 0, 0, 1];
    expected.extend(key(contract));
    assert_eq!(stellar_spend::host::address_xdr(&env, contract), expected);
}

#[test]
fn deposit_id_is_64_lowercase_hex_digits() {
    let (env, mut client, _) = setup();
    let (id, _) = make_deposit(&env, &mut client, 12);
    assert_eq!(id.len(), 64);
    assert!(id.iter().all(|c| c.is_ascii_digit() || (b'a'..=b'f').contains(c)));
}

#[test]
fn repeated_deposit_leaves_a_settled_deposit_in_place() {
    let (env, mut client, authority) = setup();
    let (first, _) = make_deposit(&env, &mut client, 5);
    client.release(&signed_by(vec![authority], 5), &first, account(400)).unwrap();
    let (second, _) = make_deposit(&env, &mut client, 5);
    assert_ne!(first, second);
    assert_eq!(client.get_deposit(&first), Ok((1_000i128, true, false)));
    assert_eq!(client.get_deposit(&second), Ok((1_000i128, false, false)));
}
