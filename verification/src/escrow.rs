//! Time-locked escrow custody for off-ramp deposits.
//!
//! The escrow tracks custody *state* only; it does not move tokens. A deposit
//! ends in exactly one of two ways: released to a recipient by the settlement
//! authority, or refunded to its depositor once its timeout ledger is reached.
//! Refund is permissionless: it is the depositor's guaranteed exit path.
use vstd::prelude::*;
use crate::address::Addr;
use crate::host;
use crate::invocation::{Invocation, InvokeError};
use crate::table::{copy_vec, entries_map, keys_distinct, lemma_entries_map, Duplicate, Table};

verus! {

/// Default refund timeout, in ledgers (about 7 days at 5 s per ledger).
pub const DEFAULT_TIMEOUT_LEDGERS: u32 = 604_800;

/// Largest refund timeout the settlement authority may configure.
pub const MAX_TIMEOUT_LEDGERS: u32 = 10_000_000;

/// Errors of the escrow contract.
#[derive(Copy, Clone, Debug, PartialEq, Eq, PartialOrd, Ord, Structural)]
pub enum Error {
    NotInitialized,
    AlreadyInitialized,
    InvalidAmount,
    DepositNotFound,
    AlreadyReleased,
    AlreadyRefunded,
    TimeoutNotReached,
    InvalidTimeout,
}

impl Error {
    /// The stable numeric code of each error (reserved range 1–99).
    pub open spec fn code_spec(self) -> u32 {
        match self {
            Error::NotInitialized => 1,
            Error::AlreadyInitialized => 2,
            Error::InvalidAmount => 3,
            Error::DepositNotFound => 4,
            Error::AlreadyReleased => 5,
            Error::AlreadyRefunded => 6,
            Error::TimeoutNotReached => 7,
            Error::InvalidTimeout => 8,
        }
    }

    /// Numeric code under which the error is reported on chain.
    pub fn code(&self) -> (c: u32)
        ensures
            c == self.code_spec(),
    {
        match self {
            Error::NotInitialized => 1,
            Error::AlreadyInitialized => 2,
            Error::InvalidAmount => 3,
            Error::DepositNotFound => 4,
            Error::AlreadyReleased => 5,
            Error::AlreadyRefunded => 6,
            Error::TimeoutNotReached => 7,
            Error::InvalidTimeout => 8,
        }
    }
}

/// One deposit held in custody.
#[derive(Copy, Clone, Debug, PartialEq, Eq, Structural)]
pub struct EscrowDeposit {
    pub depositor: Addr,
    pub amount: i128,
    pub bridge_address: Addr,
    pub timestamp: u64,
    /// First ledger at which the deposit may be refunded.
    pub timeout_ledger: u32,
    pub released: bool,
    pub refunded: bool,
}

impl View for EscrowDeposit {
    type V = EscrowDeposit;

    open spec fn view(&self) -> EscrowDeposit {
        *self
    }
}

impl Duplicate for EscrowDeposit {
    fn duplicate(&self) -> (r: Self)
        ensures
            r@ == self@,
    {
        *self
    }
}

/// A deposit the escrow could have stored: positive, and not both released
/// and refunded.
pub open spec fn deposit_ok(d: EscrowDeposit) -> bool {
    d.amount > 0 && !(d.released && d.refunded)
}

/// The escrow's instance storage as plain values, as it is kept between
/// invocations.
pub struct EscrowRecord {
    pub settlement_authority: Option<Addr>,
    /// `None` when no timeout has been stored (the default applies).
    pub timeout: Option<u32>,
    pub deposit_seq: u64,
    pub deposits: Vec<(Vec<u8>, EscrowDeposit)>,
}

/// A record the escrow could have stored.
pub open spec fn record_ok(rec: EscrowRecord) -> bool {
    &&& (rec.timeout matches Some(t) ==> 1 <= t <= MAX_TIMEOUT_LEDGERS)
    &&& keys_distinct(rec.deposits@)
    &&& forall|i: int| 0 <= i < rec.deposits@.len() ==> deposit_ok(#[trigger] rec.deposits@[i].1)
}

/// An event the escrow publishes.
pub enum EscrowEvent {
    Deposit { depositor: Addr, amount: i128, bridge_address: Addr },
    Release { deposit_id: Vec<u8>, recipient: Addr, amount: i128 },
    Refund { deposit_id: Vec<u8>, depositor: Addr, amount: i128 },
    TimeoutUpdated { timeout_ledgers: u32 },
}

/// The model of an [`EscrowEvent`].
pub enum EscrowEventModel {
    Deposit { depositor: Addr, amount: i128, bridge_address: Addr },
    Release { deposit_id: Seq<u8>, recipient: Addr, amount: i128 },
    Refund { deposit_id: Seq<u8>, depositor: Addr, amount: i128 },
    TimeoutUpdated { timeout_ledgers: u32 },
}

impl View for EscrowEvent {
    type V = EscrowEventModel;

    open spec fn view(&self) -> EscrowEventModel {
        match self {
            EscrowEvent::Deposit { depositor, amount, bridge_address } => EscrowEventModel::Deposit {
                depositor: *depositor,
                amount: *amount,
                bridge_address: *bridge_address,
            },
            EscrowEvent::Release { deposit_id, recipient, amount } => EscrowEventModel::Release {
                deposit_id: deposit_id@,
                recipient: *recipient,
                amount: *amount,
            },
            EscrowEvent::Refund { deposit_id, depositor, amount } => EscrowEventModel::Refund {
                deposit_id: deposit_id@,
                depositor: *depositor,
                amount: *amount,
            },
            EscrowEvent::TimeoutUpdated { timeout_ledgers } => EscrowEventModel::TimeoutUpdated {
                timeout_ledgers: *timeout_ledgers,
            },
        }
    }
}

/// The model of the escrow's instance storage and of the events it published.
pub struct EscrowModel {
    pub settlement_authority: Option<Addr>,
    /// Refund timeout applied to new deposits.
    pub timeout: u32,
    /// Monotonic counter that makes deposit IDs unique.
    pub deposit_seq: u64,
    pub deposits: Map<Seq<u8>, EscrowDeposit>,
    pub events: Seq<EscrowEventModel>,
}

impl EscrowModel {
    /// What holds of every reachable escrow state: the timeout is within its
    /// bounds, and every deposit holds a positive amount and was never both
    /// released and refunded.
    pub open spec fn inv(self) -> bool {
        &&& 1 <= self.timeout <= MAX_TIMEOUT_LEDGERS
        &&& forall|id: Seq<u8>|
            #[trigger] self.deposits.contains_key(id) ==> {
                &&& self.deposits[id].amount > 0
                &&& !(self.deposits[id].released && self.deposits[id].refunded)
            }
    }
}

// ── Deposit identifiers ─────────────────────────────────────────────────────

/// Big-endian bytes of a `u32`.
pub open spec fn be_bytes_u32(v: u32) -> Seq<u8> {
    seq![(v >> 24u32) as u8, (v >> 16u32) as u8, (v >> 8u32) as u8, v as u8]
}

/// Big-endian bytes of a `u64`.
pub open spec fn be_bytes_u64(v: u64) -> Seq<u8> {
    seq![
        (v >> 56u64) as u8,
        (v >> 48u64) as u8,
        (v >> 40u64) as u8,
        (v >> 32u64) as u8,
        (v >> 24u64) as u8,
        (v >> 16u64) as u8,
        (v >> 8u64) as u8,
        v as u8,
    ]
}

/// The XDR encoding of an address.
pub open spec fn xdr_of(a: Addr) -> Seq<u8> {
    a.xdr()
}

/// The bytes hashed into a deposit ID: depositor ‖ bridge ‖ ledger ‖ seq.
pub open spec fn deposit_preimage(depositor: Addr, bridge: Addr, ledger: u32, seq: u64) -> Seq<u8> {
    xdr_of(depositor) + xdr_of(bridge) + be_bytes_u32(ledger) + be_bytes_u64(seq)
}

/// Lower-case hexadecimal digit of a nibble.
pub open spec fn hex_digit(n: int) -> u8 {
    if n < 10 {
        (48 + n) as u8
    } else {
        (87 + n) as u8
    }
}

/// Lower-case hexadecimal encoding: two digits per byte, high nibble first.
pub open spec fn hex_spec(bytes: Seq<u8>) -> Seq<u8> {
    Seq::new(
        (2 * bytes.len()) as nat,
        |i: int|
            if i % 2 == 0 {
                hex_digit((bytes[i / 2] / 16) as int)
            } else {
                hex_digit((bytes[i / 2] % 16) as int)
            },
    )
}

/// The ID of a deposit: hex(sha256(depositor ‖ bridge ‖ ledger ‖ seq)).
pub open spec fn deposit_id_spec(depositor: Addr, bridge: Addr, ledger: u32, seq: u64) -> Seq<u8> {
    hex_spec(host::soroban_sha256(deposit_preimage(depositor, bridge, ledger, seq)))
}

/// Lower-case hexadecimal encoding of a 32-byte digest.
pub fn hex_encode(bytes: &[u8; 32]) -> (out: Vec<u8>)
    ensures
        out@ == hex_spec(bytes@),
{
    let mut out: Vec<u8> = Vec::new();
    let mut i: usize = 0;
    while i < 32
        invariant
            0 <= i <= 32,
            bytes@.len() == 32,
            out@.len() == 2 * i,
            forall|j: int| 0 <= j < 2 * i ==> out@[j] == #[trigger] hex_spec(bytes@)[j],
        decreases 32 - i,
    {
        let b = bytes[i];
        let hi = b >> 4u8;
        let lo = b & 0x0fu8;
        assert(hi == b / 16 && lo == b % 16) by (bit_vector)
            requires
                hi == b >> 4u8,
                lo == b & 0x0fu8,
        ;
        let hi_digit: u8 = if hi < 10 { 48u8 + hi } else { 87u8 + hi };
        let lo_digit: u8 = if lo < 10 { 48u8 + lo } else { 87u8 + lo };
        out.push(hi_digit);
        out.push(lo_digit);
        proof {
            assert(hex_spec(bytes@)[2 * i as int] == hi_digit);
            assert(hex_spec(bytes@)[2 * i + 1] == lo_digit);
        }
        i += 1;
    }
    assert(out@ =~= hex_spec(bytes@));
    out
}

/// Appends the big-endian bytes of `v`.
fn push_be_u32(buf: &mut Vec<u8>, v: u32)
    ensures
        final(buf)@ == old(buf)@ + be_bytes_u32(v),
{
    buf.push((v >> 24u32) as u8);
    buf.push((v >> 16u32) as u8);
    buf.push((v >> 8u32) as u8);
    buf.push(v as u8);
    assert(buf@ =~= old(buf)@ + be_bytes_u32(v));
}

/// Appends the big-endian bytes of `v`.
fn push_be_u64(buf: &mut Vec<u8>, v: u64)
    ensures
        final(buf)@ == old(buf)@ + be_bytes_u64(v),
{
    buf.push((v >> 56u64) as u8);
    buf.push((v >> 48u64) as u8);
    buf.push((v >> 40u64) as u8);
    buf.push((v >> 32u64) as u8);
    buf.push((v >> 24u64) as u8);
    buf.push((v >> 16u64) as u8);
    buf.push((v >> 8u64) as u8);
    buf.push(v as u8);
    assert(buf@ =~= old(buf)@ + be_bytes_u64(v));
}

/// Appends all of `src` to `buf`.
fn append_bytes(buf: &mut Vec<u8>, src: &Vec<u8>)
    ensures
        final(buf)@ == old(buf)@ + src@,
{
    let mut i: usize = 0;
    while i < src.len()
        invariant
            0 <= i <= src@.len(),
            buf@ == old(buf)@ + src@.subrange(0, i as int),
        decreases src@.len() - i,
    {
        buf.push(src[i]);
        i += 1;
        assert(buf@ =~= old(buf)@ + src@.subrange(0, i as int));
    }
    assert(src@.subrange(0, src@.len() as int) =~= src@);
}

/// The preimage of a deposit ID from the XDR encodings of the depositor and
/// the bridge: depositor ‖ bridge ‖ big-endian ledger ‖ big-endian seq.
pub fn build_preimage(depositor_xdr: &Vec<u8>, bridge_xdr: &Vec<u8>, ledger: u32, seq: u64) -> (p: Vec<u8>)
    ensures
        p@ == depositor_xdr@ + bridge_xdr@ + be_bytes_u32(ledger) + be_bytes_u64(seq),
{
    let mut preimage: Vec<u8> = Vec::new();
    append_bytes(&mut preimage, depositor_xdr);
    append_bytes(&mut preimage, bridge_xdr);
    push_be_u32(&mut preimage, ledger);
    push_be_u64(&mut preimage, seq);
    assert(preimage@ =~= depositor_xdr@ + bridge_xdr@ + be_bytes_u32(ledger) + be_bytes_u64(seq));
    preimage
}

/// The deposit ID for `depositor`, `bridge`, the current ledger and counter
/// value `seq`: hex(sha256(depositor ‖ bridge ‖ ledger ‖ seq)).
pub fn deposit_id(env: &soroban_sdk::Env, depositor: Addr, bridge: Addr, ledger: u32, seq: u64) -> (id: Vec<u8>)
    ensures
        id@ == deposit_id_spec(depositor, bridge, ledger, seq),
        id@.len() == 64,
{
    let depositor_xdr = host::address_xdr(env, depositor);
    let bridge_xdr = host::address_xdr(env, bridge);
    let preimage = build_preimage(&depositor_xdr, &bridge_xdr, ledger, seq);
    let digest = host::sha256(env, &preimage);
    hex_encode(&digest)
}

// ── Transitions of the model ────────────────────────────────────────────────

/// `init`: record the settlement authority, once.
pub open spec fn init_spec(m: EscrowModel, ctx: Invocation, authority: Addr) -> (EscrowModel, Result<
    (),
    InvokeError<Error>,
>) {
    if m.settlement_authority is Some {
        (m, Err(InvokeError::Contract(Error::AlreadyInitialized)))
    } else if !ctx.authorizes(authority) {
        (m, Err(InvokeError::MissingAuth(authority)))
    } else {
        (EscrowModel { settlement_authority: Some(authority), timeout: DEFAULT_TIMEOUT_LEDGERS, ..m }, Ok(()))
    }
}

/// Ledger at which a deposit made at `ledger` with refund timeout `timeout` becomes refundable.
pub open spec fn timeout_ledger_spec(ledger: u32, timeout: u32) -> u32 {
    if ledger + timeout > u32::MAX {
        u32::MAX
    } else {
        (ledger + timeout) as u32
    }
}

/// `deposit`: open a new deposit under a fresh ID.
pub open spec fn deposit_spec(
    m: EscrowModel,
    ctx: Invocation,
    depositor: Addr,
    amount: i128,
    bridge_address: Addr,
) -> (EscrowModel, Result<Seq<u8>, InvokeError<Error>>) {
    if amount <= 0 {
        (m, Err(InvokeError::Contract(Error::InvalidAmount)))
    } else if !ctx.authorizes(depositor) {
        (m, Err(InvokeError::MissingAuth(depositor)))
    } else {
        let seq = (m.deposit_seq + 1) as u64;
        let id = deposit_id_spec(depositor, bridge_address, ctx.ledger, seq);
        let d = EscrowDeposit {
            depositor,
            amount,
            bridge_address,
            timestamp: ctx.timestamp,
            timeout_ledger: timeout_ledger_spec(ctx.ledger, m.timeout),
            released: false,
            refunded: false,
        };
        (
            EscrowModel {
                deposit_seq: seq,
                deposits: m.deposits.insert(id, d),
                events: m.events.push(EscrowEventModel::Deposit { depositor, amount, bridge_address }),
                ..m
            },
            Ok(id),
        )
    }
}

/// `release`: hand a deposit to `recipient`; settlement authority only.
pub open spec fn release_spec(m: EscrowModel, ctx: Invocation, id: Seq<u8>, recipient: Addr) -> (EscrowModel, Result<
    i128,
    InvokeError<Error>,
>) {
    match m.settlement_authority {
        None => (m, Err(InvokeError::Contract(Error::NotInitialized))),
        Some(authority) => if !ctx.authorizes(authority) {
            (m, Err(InvokeError::MissingAuth(authority)))
        } else if !m.deposits.contains_key(id) {
            (m, Err(InvokeError::Contract(Error::DepositNotFound)))
        } else if m.deposits[id].released {
            (m, Err(InvokeError::Contract(Error::AlreadyReleased)))
        } else if m.deposits[id].refunded {
            (m, Err(InvokeError::Contract(Error::AlreadyRefunded)))
        } else {
            let d = m.deposits[id];
            (
                EscrowModel {
                    deposits: m.deposits.insert(id, EscrowDeposit { released: true, ..d }),
                    events: m.events.push(
                        EscrowEventModel::Release { deposit_id: id, recipient, amount: d.amount },
                    ),
                    ..m
                },
                Ok(d.amount),
            )
        },
    }
}

/// `refund`: return a timed-out deposit to its depositor; anyone may trigger it.
pub open spec fn refund_spec(m: EscrowModel, ledger: u32, id: Seq<u8>) -> (EscrowModel, Result<i128, Error>) {
    if !m.deposits.contains_key(id) {
        (m, Err(Error::DepositNotFound))
    } else if m.deposits[id].released {
        (m, Err(Error::AlreadyReleased))
    } else if m.deposits[id].refunded {
        (m, Err(Error::AlreadyRefunded))
    } else if ledger < m.deposits[id].timeout_ledger {
        (m, Err(Error::TimeoutNotReached))
    } else {
        let d = m.deposits[id];
        (
            EscrowModel {
                deposits: m.deposits.insert(id, EscrowDeposit { refunded: true, ..d }),
                events: m.events.push(
                    EscrowEventModel::Refund { deposit_id: id, depositor: d.depositor, amount: d.amount },
                ),
                ..m
            },
            Ok(d.amount),
        )
    }
}

/// `get_deposit`: amount, released flag and refunded flag of a deposit.
pub open spec fn get_deposit_spec(m: EscrowModel, id: Seq<u8>) -> Result<(i128, bool, bool), Error> {
    if !m.deposits.contains_key(id) {
        Err(Error::DepositNotFound)
    } else {
        Ok((m.deposits[id].amount, m.deposits[id].released, m.deposits[id].refunded))
    }
}

/// `set_timeout`: change the refund timeout of future deposits; settlement authority only.
pub open spec fn set_timeout_spec(m: EscrowModel, ctx: Invocation, timeout_ledgers: u32) -> (EscrowModel, Result<
    (),
    InvokeError<Error>,
>) {
    match m.settlement_authority {
        None => (m, Err(InvokeError::Contract(Error::NotInitialized))),
        Some(authority) => if !ctx.authorizes(authority) {
            (m, Err(InvokeError::MissingAuth(authority)))
        } else if timeout_ledgers == 0 || timeout_ledgers > MAX_TIMEOUT_LEDGERS {
            (m, Err(InvokeError::Contract(Error::InvalidTimeout)))
        } else {
            (
                EscrowModel {
                    timeout: timeout_ledgers,
                    events: m.events.push(EscrowEventModel::TimeoutUpdated { timeout_ledgers }),
                    ..m
                },
                Ok(()),
            )
        },
    }
}

/// `can_refund`: whether a refund at `ledger` would go through.
pub open spec fn can_refund_spec(m: EscrowModel, ledger: u32, id: Seq<u8>) -> Result<bool, Error> {
    if !m.deposits.contains_key(id) {
        Err(Error::DepositNotFound)
    } else if m.deposits[id].refunded || m.deposits[id].released {
        Ok(false)
    } else {
        Ok(ledger >= m.deposits[id].timeout_ledger)
    }
}

/// The model of a deposit ID result.
pub open spec fn id_result(r: Result<Vec<u8>, InvokeError<Error>>) -> Result<Seq<u8>, InvokeError<Error>> {
    match r {
        Ok(id) => Ok(id@),
        Err(e) => Err(e),
    }
}

// ── The contract ────────────────────────────────────────────────────────────

/// The escrow contract: its instance storage and the events it has published.
pub struct EscrowContract {
    settlement_authority: Option<Addr>,
    timeout: u32,
    deposit_seq: u64,
    deposits: Table<EscrowDeposit>,
    events: Vec<EscrowEvent>,
}

impl View for EscrowContract {
    type V = EscrowModel;

    closed spec fn view(&self) -> EscrowModel {
        EscrowModel {
            settlement_authority: self.settlement_authority,
            timeout: self.timeout,
            deposit_seq: self.deposit_seq,
            deposits: self.deposits.map(),
            events: self.events@.map_values(|e: EscrowEvent| e@),
        }
    }
}

impl EscrowContract {
    /// Well-formed storage: the deposit table is consistent and the model
    /// invariant holds.
    pub closed spec fn wf(&self) -> bool {
        &&& self.deposits.wf()
        &&& self@.inv()
    }

    /// Well-formed storage satisfies the model's invariant.
    pub proof fn lemma_wf_inv(&self)
        requires
            self.wf(),
        ensures
            self@.inv(),
    {
    }

    /// A freshly deployed escrow: empty storage, default timeout, no events.
    pub fn new() -> (c: Self)
        ensures
            c.wf(),
            c@.settlement_authority is None,
            c@.timeout == DEFAULT_TIMEOUT_LEDGERS,
            c@.deposit_seq == 0,
            c@.deposits == Map::<Seq<u8>, EscrowDeposit>::empty(),
            c@.events == Seq::<EscrowEventModel>::empty(),
    {
        let c = EscrowContract {
            settlement_authority: None,
            timeout: DEFAULT_TIMEOUT_LEDGERS,
            deposit_seq: 0,
            deposits: Table::new(),
            events: Vec::new(),
        };
        assert(c@.events =~= Seq::<EscrowEventModel>::empty());
        c
    }

    /// Events published so far, oldest first.
    pub fn events(&self) -> (r: &Vec<EscrowEvent>)
        ensures
            r@.map_values(|e: EscrowEvent| e@) == self@.events,
    {
        &self.events
    }


    /// Initialise the escrow with its settlement authority.
    ///
    /// Guarded against re-initialisation: once set, the authority can never be
    /// replaced.
    pub fn init(&mut self, ctx: &Invocation, settlement_authority: Addr) -> (r: Result<(), InvokeError<Error>>)
        requires
            old(self).wf(),
        ensures
            final(self).wf(),
            (final(self)@, r) == init_spec(old(self)@, *ctx, settlement_authority),
    {
        if self.settlement_authority.is_some() {
            return Err(InvokeError::Contract(Error::AlreadyInitialized));
        }
        if !ctx.has_authorized(settlement_authority) {
            return Err(InvokeError::MissingAuth(settlement_authority));
        }
        self.settlement_authority = Some(settlement_authority);
        self.timeout = DEFAULT_TIMEOUT_LEDGERS;
        Ok(())
    }

    /// Open a deposit of `amount` from `depositor` destined for `bridge_address`.
    ///
    /// `token` is part of the interface only: no transfer happens here.
    pub fn deposit(
        &mut self,
        env: &soroban_sdk::Env,
        ctx: &Invocation,
        depositor: Addr,
        amount: i128,
        bridge_address: Addr,
        token: Addr,
    ) -> (r: Result<Vec<u8>, InvokeError<Error>>)
        requires
            old(self).wf(),
            amount > 0 && ctx.authorizes(depositor) ==> old(self)@.deposit_seq < u64::MAX,
        ensures
            final(self).wf(),
            (final(self)@, id_result(r)) == deposit_spec(old(self)@, *ctx, depositor, amount, bridge_address),
            r matches Ok(id) ==> id@.len() == 64,
    {
        let _ = token;
        if amount <= 0 {
            return Err(InvokeError::Contract(Error::InvalidAmount));
        }
        if !ctx.has_authorized(depositor) {
            return Err(InvokeError::MissingAuth(depositor));
        }
        let seq = self.deposit_seq + 1;
        self.deposit_seq = seq;
        let id = deposit_id(env, depositor, bridge_address, ctx.ledger, seq);
        let deposit = EscrowDeposit {
            depositor,
            amount,
            bridge_address,
            timestamp: ctx.timestamp,
            timeout_ledger: ctx.ledger.saturating_add(self.timeout),
            released: false,
            refunded: false,
        };
        let key = copy_vec(&id);
        self.deposits.set(key, deposit);
        let ghost old_events = self.events@;
        let event = EscrowEvent::Deposit { depositor, amount, bridge_address };
        self.events.push(event);
        proof {
            crate::lemma_view_push(old_events, event);
        }
        Ok(id)
    }

    /// Release a deposit to `recipient`. Settlement authority only.
    pub fn release(&mut self, ctx: &Invocation, deposit_id: &Vec<u8>, recipient: Addr) -> (r: Result<
        i128,
        InvokeError<Error>,
    >)
        requires
            old(self).wf(),
        ensures
            final(self).wf(),
            (final(self)@, r) == release_spec(old(self)@, *ctx, deposit_id@, recipient),
    {
        let authority = match self.settlement_authority {
            None => return Err(InvokeError::Contract(Error::NotInitialized)),
            Some(a) => a,
        };
        if !ctx.has_authorized(authority) {
            return Err(InvokeError::MissingAuth(authority));
        }
        let idx = match self.deposits.find(deposit_id) {
            None => return Err(InvokeError::Contract(Error::DepositNotFound)),
            Some(i) => i,
        };
        let deposit = *self.deposits.value_at(idx);
        if deposit.released {
            return Err(InvokeError::Contract(Error::AlreadyReleased));
        }
        if deposit.refunded {
            return Err(InvokeError::Contract(Error::AlreadyRefunded));
        }
        let amount = deposit.amount;
        self.deposits.replace_at(idx, EscrowDeposit { released: true, ..deposit });
        let ghost old_events = self.events@;
        let event = EscrowEvent::Release { deposit_id: copy_vec(deposit_id), recipient, amount };
        self.events.push(event);
        proof {
            crate::lemma_view_push(old_events, event);
        }
        Ok(amount)
    }

    /// Refund a timed-out deposit to the depositor it was recorded for.
    ///
    /// Intentionally permissionless: this is the depositor's guaranteed exit
    /// path when the settlement authority is unavailable. The funds are
    /// credited to the recorded depositor, so a caller can only trigger the
    /// refund on the depositor's behalf, and only after the timeout.
    pub fn refund(&mut self, ctx: &Invocation, deposit_id: &Vec<u8>) -> (r: Result<i128, Error>)
        requires
            old(self).wf(),
        ensures
            final(self).wf(),
            (final(self)@, r) == refund_spec(old(self)@, ctx.ledger, deposit_id@),
    {
        let idx = match self.deposits.find(deposit_id) {
            None => return Err(Error::DepositNotFound),
            Some(i) => i,
        };
        let deposit = *self.deposits.value_at(idx);
        if deposit.released {
            return Err(Error::AlreadyReleased);
        }
        if deposit.refunded {
            return Err(Error::AlreadyRefunded);
        }
        if ctx.ledger < deposit.timeout_ledger {
            return Err(Error::TimeoutNotReached);
        }
        let amount = deposit.amount;
        self.deposits.replace_at(idx, EscrowDeposit { refunded: true, ..deposit });
        let ghost old_events = self.events@;
        let event = EscrowEvent::Refund { deposit_id: copy_vec(deposit_id), depositor: deposit.depositor, amount };
        self.events.push(event);
        proof {
            crate::lemma_view_push(old_events, event);
        }
        Ok(amount)
    }

    /// Amount, released flag and refunded flag of a deposit.
    pub fn get_deposit(&self, deposit_id: &Vec<u8>) -> (r: Result<(i128, bool, bool), Error>)
        requires
            self.wf(),
        ensures
            r == get_deposit_spec(self@, deposit_id@),
    {
        match self.deposits.get(deposit_id) {
            None => Err(Error::DepositNotFound),
            Some(d) => Ok((d.amount, d.released, d.refunded)),
        }
    }

    /// Update the refund timeout. Settlement authority only.
    ///
    /// Only affects deposits created after the change: existing deposits keep
    /// the timeout ledger stamped at creation.
    pub fn set_timeout(&mut self, ctx: &Invocation, timeout_ledgers: u32) -> (r: Result<(), InvokeError<Error>>)
        requires
            old(self).wf(),
        ensures
            final(self).wf(),
            (final(self)@, r) == set_timeout_spec(old(self)@, *ctx, timeout_ledgers),
    {
        let authority = match self.settlement_authority {
            None => return Err(InvokeError::Contract(Error::NotInitialized)),
            Some(a) => a,
        };
        if !ctx.has_authorized(authority) {
            return Err(InvokeError::MissingAuth(authority));
        }
        if timeout_ledgers == 0 || timeout_ledgers > MAX_TIMEOUT_LEDGERS {
            return Err(InvokeError::Contract(Error::InvalidTimeout));
        }
        self.timeout = timeout_ledgers;
        let ghost old_events = self.events@;
        let event = EscrowEvent::TimeoutUpdated { timeout_ledgers };
        self.events.push(event);
        proof {
            crate::lemma_view_push(old_events, event);
        }
        Ok(())
    }

    /// Whether a refund of the deposit would go through at the current ledger.
    pub fn can_refund(&self, ctx: &Invocation, deposit_id: &Vec<u8>) -> (r: Result<bool, Error>)
        requires
            self.wf(),
        ensures
            r == can_refund_spec(self@, ctx.ledger, deposit_id@),
    {
        match self.deposits.get(deposit_id) {
            None => Err(Error::DepositNotFound),
            Some(d) => {
                if d.refunded || d.released {
                    Ok(false)
                } else {
                    Ok(ctx.ledger >= d.timeout_ledger)
                }
            },
        }
    }

    /// Rebuild the escrow from its stored record; `None` if the record could
    /// not have been written by the escrow.
    pub fn from_record(rec: &EscrowRecord) -> (r: Option<Self>)
        ensures
            r is Some <==> record_ok(*rec),
            r matches Some(c) ==> {
                &&& c.wf()
                &&& c@.settlement_authority == rec.settlement_authority
                &&& c@.timeout == (match rec.timeout {
                    Some(t) => t,
                    None => DEFAULT_TIMEOUT_LEDGERS,
                })
                &&& c@.deposit_seq == rec.deposit_seq
                &&& c@.deposits == entries_map(rec.deposits@)
                &&& c@.events == Seq::<EscrowEventModel>::empty()
            },
    {
        let timeout = match rec.timeout {
            Some(t) => t,
            None => DEFAULT_TIMEOUT_LEDGERS,
        };
        if timeout == 0 || timeout > MAX_TIMEOUT_LEDGERS {
            return None;
        }
        let mut i: usize = 0;
        while i < rec.deposits.len()
            invariant
                0 <= i <= rec.deposits@.len(),
                forall|j: int| 0 <= j < i ==> deposit_ok(#[trigger] rec.deposits@[j].1),
            decreases rec.deposits@.len() - i,
        {
            let d = rec.deposits[i].1;
            if d.amount <= 0 || (d.released && d.refunded) {
                return None;
            }
            i += 1;
        }
        let deposits = match Table::from_entries(&rec.deposits) {
            Some(t) => t,
            None => return None,
        };
        let c = EscrowContract {
            settlement_authority: rec.settlement_authority,
            timeout,
            deposit_seq: rec.deposit_seq,
            deposits,
            events: Vec::new(),
        };
        proof {
            lemma_entries_map(rec.deposits@);
            assert forall|id: Seq<u8>| #[trigger] c@.deposits.contains_key(id) implies deposit_ok(c@.deposits[id]) by {
                let j = choose|j: int| 0 <= j < rec.deposits@.len() && rec.deposits@[j].0@ == id;
                assert(deposit_ok(rec.deposits@[j].1));
            }
            assert(c@.events =~= Seq::<EscrowEventModel>::empty());
        }
        Some(c)
    }

    /// The escrow's storage as a record (events are not part of storage).
    pub fn to_record(&self) -> (rec: EscrowRecord)
        requires
            self.wf(),
        ensures
            record_ok(rec),
            rec.settlement_authority == self@.settlement_authority,
            rec.timeout == Some(self@.timeout),
            rec.deposit_seq == self@.deposit_seq,
            entries_map(rec.deposits@) == self@.deposits,
    {
        let deposits = self.deposits.to_entries();
        proof {
            lemma_entries_map(deposits@);
            assert forall|i: int| 0 <= i < deposits@.len() implies deposit_ok(#[trigger] deposits@[i].1) by {
                assert(self@.deposits.contains_key(deposits@[i].0@));
            }
        }
        EscrowRecord {
            settlement_authority: self.settlement_authority,
            timeout: Some(self.timeout),
            deposit_seq: self.deposit_seq,
            deposits,
        }
    }

    /// The settlement authority, once initialised.
    pub fn settlement_authority(&self) -> (r: Result<Addr, Error>)
        ensures
            r == (match self@.settlement_authority {
                Some(a) => Ok::<Addr, Error>(a),
                None => Err(Error::NotInitialized),
            }),
    {
        match self.settlement_authority {
            Some(a) => Ok(a),
            None => Err(Error::NotInitialized),
        }
    }
}

// ── Laws ────────────────────────────────────────────────────────────────────

/// Law: a released deposit is settled for good. It can never be refunded,
/// is never reported refundable, and cannot be released a second time.
pub proof fn lemma_release_is_final(
    m: EscrowModel,
    ctx: Invocation,
    id: Seq<u8>,
    recipient: Addr,
    later: Invocation,
    later_recipient: Addr,
    ledger: u32,
)
    requires
        m.inv(),
        release_spec(m, ctx, id, recipient).1 is Ok,
        later.authorizes(m.settlement_authority.unwrap()),
    ensures
        ({
            let m2 = release_spec(m, ctx, id, recipient).0;
            &&& refund_spec(m2, ledger, id).1 == Err::<i128, Error>(Error::AlreadyReleased)
            &&& can_refund_spec(m2, ledger, id) == Ok::<bool, Error>(false)
            &&& release_spec(m2, later, id, later_recipient).1 == Err::<i128, InvokeError<Error>>(
                InvokeError::Contract(Error::AlreadyReleased),
            )
        }),
{
}

/// Law: a refunded deposit is settled for good. It cannot be refunded again
/// and can no longer be released.
pub proof fn lemma_refund_is_final(
    m: EscrowModel,
    ledger: u32,
    id: Seq<u8>,
    later: Invocation,
    later_ledger: u32,
    recipient: Addr,
)
    requires
        m.inv(),
        refund_spec(m, ledger, id).1 is Ok,
        m.settlement_authority is Some,
        later.authorizes(m.settlement_authority.unwrap()),
    ensures
        ({
            let m2 = refund_spec(m, ledger, id).0;
            &&& refund_spec(m2, later_ledger, id).1 == Err::<i128, Error>(Error::AlreadyRefunded)
            &&& can_refund_spec(m2, later_ledger, id) == Ok::<bool, Error>(false)
            &&& release_spec(m2, later, id, recipient).1 == Err::<i128, InvokeError<Error>>(
                InvokeError::Contract(Error::AlreadyRefunded),
            )
        }),
{
}

/// Law: `can_refund` answers `true` exactly when `refund` would succeed at the
/// same ledger, and reports an unknown deposit exactly as `refund` does.
pub proof fn lemma_can_refund_agrees_with_refund(m: EscrowModel, ledger: u32, id: Seq<u8>)
    ensures
        can_refund_spec(m, ledger, id) == Ok::<bool, Error>(true) <==> refund_spec(m, ledger, id).1 is Ok,
        can_refund_spec(m, ledger, id) == Err::<bool, Error>(Error::DepositNotFound)
            <==> refund_spec(m, ledger, id).1 == Err::<i128, Error>(Error::DepositNotFound),
{
}

/// Law: changing the timeout never touches existing deposits, so the
/// settlement authority cannot extend (or shorten) an open lock-up.
pub proof fn lemma_set_timeout_not_retroactive(
    m: EscrowModel,
    ctx: Invocation,
    timeout_ledgers: u32,
    ledger: u32,
    id: Seq<u8>,
)
    ensures
        set_timeout_spec(m, ctx, timeout_ledgers).0.deposits == m.deposits,
        can_refund_spec(set_timeout_spec(m, ctx, timeout_ledgers).0, ledger, id) == can_refund_spec(
            m,
            ledger,
            id,
        ),
{
}

/// Law: a new deposit is never refundable in the ledger it was made in (the
/// timeout ledger saturates instead of wrapping into the past). It fails only
/// in ledger `u32::MAX`, where the saturated timeout ledger is the current one.
pub proof fn lemma_new_deposit_not_refundable(
    m: EscrowModel,
    ctx: Invocation,
    depositor: Addr,
    amount: i128,
    bridge_address: Addr,
)
    requires
        m.inv(),
        ctx.ledger < u32::MAX,
        deposit_spec(m, ctx, depositor, amount, bridge_address).1 is Ok,
    ensures
        ({
            let (m2, r) = deposit_spec(m, ctx, depositor, amount, bridge_address);
            let id = r->Ok_0;
            &&& m2.deposits[id].timeout_ledger > ctx.ledger
            &&& can_refund_spec(m2, ctx.ledger, id) == Ok::<bool, Error>(false)
            &&& refund_spec(m2, ctx.ledger, id).1 == Err::<i128, Error>(Error::TimeoutNotReached)
        }),
{
}

/// Law: reading a deposit right after making it gives back its amount, not
/// released and not refunded.
pub proof fn lemma_deposit_then_get(
    m: EscrowModel,
    ctx: Invocation,
    depositor: Addr,
    amount: i128,
    bridge_address: Addr,
)
    requires
        deposit_spec(m, ctx, depositor, amount, bridge_address).1 is Ok,
    ensures
        ({
            let (m2, r) = deposit_spec(m, ctx, depositor, amount, bridge_address);
            get_deposit_spec(m2, r->Ok_0) == Ok::<(i128, bool, bool), Error>((amount, false, false))
        }),
{
}

/// Law: once initialised, the escrow refuses every further `init`, whoever
/// signs it.
pub proof fn lemma_init_once(m: EscrowModel, ctx: Invocation, authority: Addr, later: Invocation, other: Addr)
    requires
        init_spec(m, ctx, authority).1 is Ok,
    ensures
        init_spec(init_spec(m, ctx, authority).0, later, other) == (
            init_spec(m, ctx, authority).0,
            Err::<(), InvokeError<Error>>(InvokeError::Contract(Error::AlreadyInitialized)),
        ),
{
}

/// Law: settling a deposit only flips its settlement flag: its amount,
/// depositor, bridge, creation time and timeout ledger stay as they were.
pub proof fn lemma_settlement_keeps_terms(
    m: EscrowModel,
    ctx: Invocation,
    ledger: u32,
    id: Seq<u8>,
    recipient: Addr,
)
    ensures
        release_spec(m, ctx, id, recipient).1 is Ok ==> ({
            let d2 = release_spec(m, ctx, id, recipient).0.deposits[id];
            d2 == EscrowDeposit { released: true, ..m.deposits[id] }
        }),
        refund_spec(m, ledger, id).1 is Ok ==> ({
            let d2 = refund_spec(m, ledger, id).0.deposits[id];
            d2 == EscrowDeposit { refunded: true, ..m.deposits[id] }
        }),
        release_spec(m, ctx, id, recipient).0.deposits.remove(id) == m.deposits.remove(id),
        refund_spec(m, ledger, id).0.deposits.remove(id) == m.deposits.remove(id),
{
    assert(release_spec(m, ctx, id, recipient).0.deposits.remove(id) =~= m.deposits.remove(id));
    assert(refund_spec(m, ledger, id).0.deposits.remove(id) =~= m.deposits.remove(id));
}

/// Law (refund guarantee): once its timeout ledger is reached, an unsettled
/// deposit can always be refunded, by anyone, for its full amount; nothing
/// but a release by the settlement authority can prevent it.
pub proof fn lemma_refund_guarantee(m: EscrowModel, ledger: u32, id: Seq<u8>)
    requires
        m.deposits.contains_key(id),
        !m.deposits[id].released,
        !m.deposits[id].refunded,
        ledger >= m.deposits[id].timeout_ledger,
    ensures
        refund_spec(m, ledger, id).1 == Ok::<i128, Error>(m.deposits[id].amount),
        can_refund_spec(m, ledger, id) == Ok::<bool, Error>(true),
{
}

/// Law: a refund always pays the recorded depositor the recorded amount,
/// whoever triggers it.
pub proof fn lemma_refund_pays_depositor(m: EscrowModel, ledger: u32, id: Seq<u8>)
    requires
        refund_spec(m, ledger, id).1 is Ok,
    ensures
        refund_spec(m, ledger, id).1 == Ok::<i128, Error>(m.deposits[id].amount),
        refund_spec(m, ledger, id).0.events == m.events.push(
            EscrowEventModel::Refund { deposit_id: id, depositor: m.deposits[id].depositor, amount: m.deposits[id].amount },
        ),
{
}

/// Law: once set, the settlement authority never changes: no entry point
/// can replace it.
pub proof fn lemma_authority_is_fixed(
    m: EscrowModel,
    ctx: Invocation,
    other: Addr,
    depositor: Addr,
    amount: i128,
    bridge_address: Addr,
    id: Seq<u8>,
    recipient: Addr,
    timeout_ledgers: u32,
)
    requires
        m.settlement_authority is Some,
    ensures
        init_spec(m, ctx, other).0.settlement_authority == m.settlement_authority,
        deposit_spec(m, ctx, depositor, amount, bridge_address).0.settlement_authority == m.settlement_authority,
        release_spec(m, ctx, id, recipient).0.settlement_authority == m.settlement_authority,
        refund_spec(m, ctx.ledger, id).0.settlement_authority == m.settlement_authority,
        set_timeout_spec(m, ctx, timeout_ledgers).0.settlement_authority == m.settlement_authority,
{
}

/// Law: the big-endian encoding of a `u64` is injective.
pub proof fn lemma_be_bytes_u64_injective(a: u64, b: u64)
    requires
        be_bytes_u64(a) == be_bytes_u64(b),
    ensures
        a == b,
{
    let ea = be_bytes_u64(a);
    let eb = be_bytes_u64(b);
    assert(ea[0] == eb[0] && ea[1] == eb[1] && ea[2] == eb[2] && ea[3] == eb[3]);
    assert(ea[4] == eb[4] && ea[5] == eb[5] && ea[6] == eb[6] && ea[7] == eb[7]);
    assert(a == b) by (bit_vector)
        requires
            (a >> 56u64) as u8 == (b >> 56u64) as u8,
            (a >> 48u64) as u8 == (b >> 48u64) as u8,
            (a >> 40u64) as u8 == (b >> 40u64) as u8,
            (a >> 32u64) as u8 == (b >> 32u64) as u8,
            (a >> 24u64) as u8 == (b >> 24u64) as u8,
            (a >> 16u64) as u8 == (b >> 16u64) as u8,
            (a >> 8u64) as u8 == (b >> 8u64) as u8,
            a as u8 == b as u8,
    ;
}

/// Law: deposits made under different counter values hash different byte
/// strings, whatever their depositors, bridges and ledgers (the preimage ends
/// with the counter). Two deposits in a row always use different counter
/// values, so their IDs can only coincide through a SHA-256 collision.
pub proof fn lemma_deposit_preimages_distinct(
    d1: Addr,
    b1: Addr,
    l1: u32,
    s1: u64,
    d2: Addr,
    b2: Addr,
    l2: u32,
    s2: u64,
)
    requires
        s1 != s2,
    ensures
        deposit_preimage(d1, b1, l1, s1) != deposit_preimage(d2, b2, l2, s2),
{
    let p1 = deposit_preimage(d1, b1, l1, s1);
    let p2 = deposit_preimage(d2, b2, l2, s2);
    if p1 == p2 {
        let n = p1.len();
        assert(p1.subrange(n - 8, n as int) =~= be_bytes_u64(s1));
        assert(p2.subrange(n - 8, n as int) =~= be_bytes_u64(s2));
        lemma_be_bytes_u64_injective(s1, s2);
    }
}

/// Law: every successful deposit advances the counter by one, so a second
/// deposit never reuses the first one's counter value.
pub proof fn lemma_deposit_counter_advances(
    m: EscrowModel,
    ctx: Invocation,
    depositor: Addr,
    amount: i128,
    bridge_address: Addr,
)
    requires
        deposit_spec(m, ctx, depositor, amount, bridge_address).1 is Ok,
        m.deposit_seq < u64::MAX,
    ensures
        deposit_spec(m, ctx, depositor, amount, bridge_address).0.deposit_seq == m.deposit_seq + 1,
        deposit_spec(m, ctx, depositor, amount, bridge_address).1->Ok_0 == deposit_id_spec(
            depositor,
            bridge_address,
            ctx.ledger,
            (m.deposit_seq + 1) as u64,
        ),
{
}

/// Every stored deposit ID is the ID of some depositor, bridge and ledger
/// under a counter value already issued (from 1 to `deposit_seq`).
pub open spec fn ids_issued(m: EscrowModel) -> bool {
    forall|id: Seq<u8>| #[trigger]
        m.deposits.contains_key(id) ==> exists|d: Addr, b: Addr, l: u32, s: u64|
            1 <= s <= m.deposit_seq && id == #[trigger] deposit_id_spec(d, b, l, s)
}

/// Law: a fresh escrow (no deposits) has issued all its IDs.
pub proof fn lemma_ids_issued_fresh(m: EscrowModel)
    requires
        m.deposits.dom() == Set::<Seq<u8>>::empty(),
    ensures
        ids_issued(m),
{
    assert forall|id: Seq<u8>| #[trigger] m.deposits.contains_key(id) implies false by {
        assert(m.deposits.dom().contains(id));
    }
}

/// Law: `init`, `release`, `refund` and `set_timeout` keep every stored ID an
/// issued one: they neither add keys nor move the counter.
pub proof fn lemma_ids_issued_kept(
    m: EscrowModel,
    ctx: Invocation,
    authority: Addr,
    id: Seq<u8>,
    recipient: Addr,
    ledger: u32,
    timeout_ledgers: u32,
)
    requires
        ids_issued(m),
    ensures
        ids_issued(init_spec(m, ctx, authority).0),
        ids_issued(release_spec(m, ctx, id, recipient).0),
        ids_issued(refund_spec(m, ledger, id).0),
        ids_issued(set_timeout_spec(m, ctx, timeout_ledgers).0),
{
    let m2 = release_spec(m, ctx, id, recipient).0;
    assert forall|k: Seq<u8>| #[trigger] m2.deposits.contains_key(k) implies exists|d: Addr, b: Addr, l: u32, s: u64|
        1 <= s <= m2.deposit_seq && k == #[trigger] deposit_id_spec(d, b, l, s) by {
        assert(m.deposits.contains_key(k));
    }
    let m3 = refund_spec(m, ledger, id).0;
    assert forall|k: Seq<u8>| #[trigger] m3.deposits.contains_key(k) implies exists|d: Addr, b: Addr, l: u32, s: u64|
        1 <= s <= m3.deposit_seq && k == #[trigger] deposit_id_spec(d, b, l, s) by {
        assert(m.deposits.contains_key(k));
    }
}

/// Law: a deposit never overwrites a stored deposit. Assuming that deposit
/// IDs do not collide (different preimages give different SHA-256 digests,
/// hence different IDs), the new ID is not yet stored, every stored deposit
/// keeps its record, the new record is the only key added, and all stored IDs
/// stay issued ones.
pub proof fn lemma_deposit_never_overwrites(
    m: EscrowModel,
    ctx: Invocation,
    depositor: Addr,
    amount: i128,
    bridge_address: Addr,
)
    requires
        ids_issued(m),
        m.deposit_seq < u64::MAX,
        deposit_spec(m, ctx, depositor, amount, bridge_address).1 is Ok,
        forall|d: Addr, b: Addr, l: u32, s: u64|
            #![trigger deposit_id_spec(d, b, l, s)]
            deposit_preimage(d, b, l, s) != deposit_preimage(depositor, bridge_address, ctx.ledger, (m.deposit_seq + 1) as u64)
                ==> deposit_id_spec(d, b, l, s) != deposit_id_spec(
                depositor,
                bridge_address,
                ctx.ledger,
                (m.deposit_seq + 1) as u64,
            ),
    ensures
        !m.deposits.contains_key(deposit_spec(m, ctx, depositor, amount, bridge_address).1->Ok_0),
        deposit_spec(m, ctx, depositor, amount, bridge_address).0.deposits.dom() == m.deposits.dom().insert(
            deposit_spec(m, ctx, depositor, amount, bridge_address).1->Ok_0,
        ),
        forall|k: Seq<u8>| #[trigger]
            m.deposits.contains_key(k) ==> deposit_spec(m, ctx, depositor, amount, bridge_address).0.deposits[k]
                == m.deposits[k],
        ids_issued(deposit_spec(m, ctx, depositor, amount, bridge_address).0),
{
    let seq = (m.deposit_seq + 1) as u64;
    let new_id = deposit_id_spec(depositor, bridge_address, ctx.ledger, seq);
    let m2 = deposit_spec(m, ctx, depositor, amount, bridge_address).0;
    assert(deposit_spec(m, ctx, depositor, amount, bridge_address).1->Ok_0 == new_id);
    if m.deposits.contains_key(new_id) {
        let (d, b, l, s) = choose|d: Addr, b: Addr, l: u32, s: u64|
            1 <= s <= m.deposit_seq && new_id == #[trigger] deposit_id_spec(d, b, l, s);
        lemma_deposit_preimages_distinct(d, b, l, s, depositor, bridge_address, ctx.ledger, seq);
        assert(false);
    }
    assert(m2.deposits.dom() =~= m.deposits.dom().insert(new_id));
    assert forall|k: Seq<u8>| #[trigger] m2.deposits.contains_key(k) implies exists|d: Addr, b: Addr, l: u32, s: u64|
        1 <= s <= m2.deposit_seq && k == #[trigger] deposit_id_spec(d, b, l, s) by {
        if k == new_id {
            assert(new_id == deposit_id_spec(depositor, bridge_address, ctx.ledger, seq));
        } else {
            assert(m.deposits.contains_key(k));
        }
    }
}

/// Law: `set_timeout(t)` succeeds exactly when the escrow is initialised, its
/// settlement authority signed and `1 <= t <= MAX_TIMEOUT_LEDGERS`; it then
/// makes `t` the timeout of later deposits and leaves the authority, the
/// counter and every deposit as they were.
pub proof fn lemma_set_timeout_sets_timeout(m: EscrowModel, ctx: Invocation, t: u32)
    ensures
        set_timeout_spec(m, ctx, t).1 is Ok <==> (m.settlement_authority is Some && ctx.authorizes(
            m.settlement_authority.unwrap(),
        ) && 1 <= t && t <= MAX_TIMEOUT_LEDGERS),
        set_timeout_spec(m, ctx, t).1 is Ok ==> set_timeout_spec(m, ctx, t).0.timeout == t,
        set_timeout_spec(m, ctx, t).1 is Err ==> set_timeout_spec(m, ctx, t).0.timeout == m.timeout,
        set_timeout_spec(m, ctx, t).0.settlement_authority == m.settlement_authority,
        set_timeout_spec(m, ctx, t).0.deposit_seq == m.deposit_seq,
        set_timeout_spec(m, ctx, t).0.deposits == m.deposits,
{
}

/// Law: a new deposit records its depositor, amount, bridge and timestamp,
/// is neither released nor refunded, and becomes refundable at the current
/// ledger plus the configured timeout, capped at `u32::MAX`.
pub proof fn lemma_deposit_uses_configured_timeout(
    m: EscrowModel,
    ctx: Invocation,
    depositor: Addr,
    amount: i128,
    bridge_address: Addr,
)
    requires
        deposit_spec(m, ctx, depositor, amount, bridge_address).1 is Ok,
    ensures
        ({
            let (m2, r) = deposit_spec(m, ctx, depositor, amount, bridge_address);
            let d = m2.deposits[r->Ok_0];
            &&& m2.deposits.contains_key(r->Ok_0)
            &&& d.timeout_ledger == (if ctx.ledger + m.timeout <= u32::MAX {
                ctx.ledger + m.timeout
            } else {
                u32::MAX as int
            })
            &&& d.depositor == depositor
            &&& d.amount == amount
            &&& d.bridge_address == bridge_address
            &&& d.timestamp == ctx.timestamp
            &&& !d.released && !d.refunded
            &&& m2.timeout == m.timeout
        }),
{
}

/// Law: after the authority sets the timeout to `t`, a deposit made at ledger
/// `l` (with `l + t` within `u32`) is refundable at ledger `l + t` and not one
/// ledger earlier, and a refund there pays back its amount.
pub proof fn lemma_set_timeout_then_deposit_then_refund(
    m: EscrowModel,
    ctx: Invocation,
    t: u32,
    dctx: Invocation,
    depositor: Addr,
    amount: i128,
    bridge_address: Addr,
)
    requires
        m.inv(),
        set_timeout_spec(m, ctx, t).1 is Ok,
        deposit_spec(set_timeout_spec(m, ctx, t).0, dctx, depositor, amount, bridge_address).1 is Ok,
        dctx.ledger + t <= u32::MAX,
    ensures
        ({
            let m1 = set_timeout_spec(m, ctx, t).0;
            let (m2, r) = deposit_spec(m1, dctx, depositor, amount, bridge_address);
            let id = r->Ok_0;
            &&& can_refund_spec(m2, (dctx.ledger + t) as u32, id) == Ok::<bool, Error>(true)
            &&& can_refund_spec(m2, (dctx.ledger + t - 1) as u32, id) == Ok::<bool, Error>(false)
            &&& refund_spec(m2, (dctx.ledger + t) as u32, id).1 == Ok::<i128, Error>(amount)
        }),
{
    lemma_set_timeout_sets_timeout(m, ctx, t);
}

} // verus!
