//! Fee-manager contract: pausable basis-point fee calculation with
//! overflow-checked arithmetic and volume-tiered fee rates.
use vstd::prelude::*;
use crate::address::Addr;
use crate::errors::ContractError;
use crate::invocation::{Invocation, InvokeError};
use crate::table::copy_vec;

verus! {

/// Basis-point denominator: fee rates are expressed in hundredths of a percent.
pub const BASIS_POINT_DENOM: u128 = 10_000;

/// Lower bound of tier 1 (inclusive).
pub const FEE_TIER_1_MIN: i128 = 0;
/// Upper bound of tier 1 (inclusive).
pub const FEE_TIER_1_MAX: i128 = 10_000_000;
/// Lower bound of tier 2 (inclusive).
pub const FEE_TIER_2_MIN: i128 = 10_000_001;
/// Upper bound of tier 2 (inclusive).
pub const FEE_TIER_2_MAX: i128 = 50_000_000;
/// Lower bound of tier 3 (inclusive); tier 3 is unbounded above.
pub const FEE_TIER_3_MIN: i128 = 50_000_001;

/// Tier 1 fee rate: 0.5%.
pub const TIER_1_FEE_RATE: u32 = 50;
/// Tier 2 fee rate: 0.35%.
pub const TIER_2_FEE_RATE: u32 = 35;
/// Tier 3 fee rate: 0.25%.
pub const TIER_3_FEE_RATE: u32 = 25;

/// `floor(amount * fee_rate / 10_000)`, or `Overflow` when the product does
/// not fit in a `u128`.
pub open spec fn fee_spec(amount: int, fee_rate: int) -> Result<i128, ContractError> {
    if amount * fee_rate > u128::MAX {
        Err(ContractError::Overflow)
    } else {
        Ok((amount * fee_rate / 10_000) as i128)
    }
}

/// The fee rate of the volume tier that `amount` falls in.
pub open spec fn tier_fee_rate_spec(amount: i128) -> Result<u32, ContractError> {
    if amount < 0 {
        Err(ContractError::InvalidAmount)
    } else if amount <= FEE_TIER_1_MAX {
        Ok(TIER_1_FEE_RATE)
    } else if amount <= FEE_TIER_2_MAX {
        Ok(TIER_2_FEE_RATE)
    } else {
        Ok(TIER_3_FEE_RATE)
    }
}

/// An event the fee manager publishes.
pub enum FeeEvent {
    Pause { reason: Vec<u8> },
    Unpause,
    FeeCalculated { fee: i128 },
    Migrate { new_version: Vec<u8> },
}

/// The model of a [`FeeEvent`].
pub enum FeeEventModel {
    Pause { reason: Seq<u8> },
    Unpause,
    FeeCalculated { fee: i128 },
    Migrate { new_version: Seq<u8> },
}

impl View for FeeEvent {
    type V = FeeEventModel;

    open spec fn view(&self) -> FeeEventModel {
        match self {
            FeeEvent::Pause { reason } => FeeEventModel::Pause { reason: reason@ },
            FeeEvent::Unpause => FeeEventModel::Unpause,
            FeeEvent::FeeCalculated { fee } => FeeEventModel::FeeCalculated { fee: *fee },
            FeeEvent::Migrate { new_version } => FeeEventModel::Migrate { new_version: new_version@ },
        }
    }
}

/// The model of the fee manager's storage and of the events it published.
pub struct FeeModel {
    pub admin: Option<Addr>,
    pub paused: bool,
    pub events: Seq<FeeEventModel>,
}

/// `init`: record the admin and start unpaused.
pub open spec fn init_spec(m: FeeModel, ctx: Invocation, admin: Addr) -> (FeeModel, Result<(), InvokeError<ContractError>>) {
    if !ctx.authorizes(admin) {
        (m, Err(InvokeError::MissingAuth(admin)))
    } else {
        (FeeModel { admin: Some(admin), paused: false, ..m }, Ok(()))
    }
}

/// `pause` (admin only).
pub open spec fn pause_spec(m: FeeModel, ctx: Invocation, reason: Seq<u8>) -> (FeeModel, Result<(), InvokeError<ContractError>>) {
    match m.admin {
        None => (m, Err(InvokeError::Contract(ContractError::NotFound))),
        Some(admin) => if !ctx.authorizes(admin) {
            (m, Err(InvokeError::MissingAuth(admin)))
        } else {
            (FeeModel { paused: true, events: m.events.push(FeeEventModel::Pause { reason }), ..m }, Ok(()))
        },
    }
}

/// `unpause` (admin only).
pub open spec fn unpause_spec(m: FeeModel, ctx: Invocation) -> (FeeModel, Result<(), InvokeError<ContractError>>) {
    match m.admin {
        None => (m, Err(InvokeError::Contract(ContractError::NotFound))),
        Some(admin) => if !ctx.authorizes(admin) {
            (m, Err(InvokeError::MissingAuth(admin)))
        } else {
            (FeeModel { paused: false, events: m.events.push(FeeEventModel::Unpause), ..m }, Ok(()))
        },
    }
}

/// `calculate_fee`: the fee for `amount` at `fee_rate`, unless paused.
pub open spec fn calculate_fee_spec(m: FeeModel, amount: i128, fee_rate: u32) -> (FeeModel, Result<i128, ContractError>) {
    if m.paused {
        (m, Err(ContractError::Paused))
    } else if amount < 0 {
        (m, Err(ContractError::InvalidAmount))
    } else {
        match fee_spec(amount as int, fee_rate as int) {
            Err(e) => (m, Err(e)),
            Ok(fee) => (FeeModel { events: m.events.push(FeeEventModel::FeeCalculated { fee }), ..m }, Ok(fee)),
        }
    }
}

/// `migrate` (admin only): announce a new version.
pub open spec fn migrate_spec(m: FeeModel, ctx: Invocation, new_version: Seq<u8>) -> (FeeModel, Result<
    (),
    InvokeError<ContractError>,
>) {
    match m.admin {
        None => (m, Err(InvokeError::Contract(ContractError::NotFound))),
        Some(admin) => if !ctx.authorizes(admin) {
            (m, Err(InvokeError::MissingAuth(admin)))
        } else {
            (FeeModel { events: m.events.push(FeeEventModel::Migrate { new_version }), ..m }, Ok(()))
        },
    }
}

/// The fee manager's storage as plain values, as it is kept between invocations.
pub struct FeeRecord {
    pub admin: Option<Addr>,
    /// `None` when no pause flag has been stored (not paused).
    pub paused: Option<bool>,
}

/// The fee-manager contract: its storage and the events it has published.
pub struct FeeManagerContract {
    admin: Option<Addr>,
    paused: bool,
    events: Vec<FeeEvent>,
}

impl View for FeeManagerContract {
    type V = FeeModel;

    closed spec fn view(&self) -> FeeModel {
        FeeModel { admin: self.admin, paused: self.paused, events: self.events@.map_values(|e: FeeEvent| e@) }
    }
}

impl FeeManagerContract {
    /// A freshly deployed fee manager: no admin, not paused, no events.
    pub fn new() -> (c: Self)
        ensures
            c@.admin is None,
            !c@.paused,
            c@.events == Seq::<FeeEventModel>::empty(),
    {
        let c = FeeManagerContract { admin: None, paused: false, events: Vec::new() };
        assert(c@.events =~= Seq::<FeeEventModel>::empty());
        c
    }


    fn publish(&mut self, e: FeeEvent)
        ensures
            final(self)@ == (FeeModel { events: old(self)@.events.push(e@), ..old(self)@ }),
    {
        let ghost old_events = self.events@;
        self.events.push(e);
        proof {
            crate::lemma_view_push(old_events, e);
        }
    }

    /// Events published so far, oldest first.
    pub fn events(&self) -> (r: &Vec<FeeEvent>)
        ensures
            r@.map_values(|e: FeeEvent| e@) == self@.events,
    {
        &self.events
    }

    /// Rebuild the fee manager from its stored record.
    pub fn from_record(rec: &FeeRecord) -> (c: Self)
        ensures
            c@.admin == rec.admin,
            c@.paused == (rec.paused == Some(true)),
            c@.events == Seq::<FeeEventModel>::empty(),
    {
        let paused = match rec.paused {
            Some(p) => p,
            None => false,
        };
        let c = FeeManagerContract { admin: rec.admin, paused, events: Vec::new() };
        assert(c@.events =~= Seq::<FeeEventModel>::empty());
        c
    }

    /// The fee manager's storage as a record (events are not part of storage).
    pub fn to_record(&self) -> (rec: FeeRecord)
        ensures
            rec.admin == self@.admin,
            rec.paused == Some(self@.paused),
    {
        FeeRecord { admin: self.admin, paused: Some(self.paused) }
    }

    /// Record `admin` and start unpaused.
    pub fn init(&mut self, ctx: &Invocation, admin: Addr) -> (r: Result<(), InvokeError<ContractError>>)
        ensures
            (final(self)@, r) == init_spec(old(self)@, *ctx, admin),
    {
        if !ctx.has_authorized(admin) {
            return Err(InvokeError::MissingAuth(admin));
        }
        self.admin = Some(admin);
        self.paused = false;
        Ok(())
    }

    /// The contract version.
    pub fn version() -> (v: String)
        ensures
            v@ == "1.0.0"@,
    {
        "1.0.0".to_owned()
    }

    fn load_admin(&self) -> (r: Result<Addr, ContractError>)
        ensures
            r == (match self@.admin {
                Some(a) => Ok::<Addr, ContractError>(a),
                None => Err(ContractError::NotFound),
            }),
    {
        match self.admin {
            Some(a) => Ok(a),
            None => Err(ContractError::NotFound),
        }
    }

    /// Pause fee calculation (admin only).
    pub fn pause(&mut self, ctx: &Invocation, reason: &Vec<u8>) -> (r: Result<(), InvokeError<ContractError>>)
        ensures
            (final(self)@, r) == pause_spec(old(self)@, *ctx, reason@),
    {
        let admin = match self.load_admin() {
            Ok(a) => a,
            Err(e) => return Err(InvokeError::Contract(e)),
        };
        if !ctx.has_authorized(admin) {
            return Err(InvokeError::MissingAuth(admin));
        }
        self.paused = true;
        self.publish(FeeEvent::Pause { reason: copy_vec(reason) });
        Ok(())
    }

    /// Resume fee calculation (admin only).
    pub fn unpause(&mut self, ctx: &Invocation) -> (r: Result<(), InvokeError<ContractError>>)
        ensures
            (final(self)@, r) == unpause_spec(old(self)@, *ctx),
    {
        let admin = match self.load_admin() {
            Ok(a) => a,
            Err(e) => return Err(InvokeError::Contract(e)),
        };
        if !ctx.has_authorized(admin) {
            return Err(InvokeError::MissingAuth(admin));
        }
        self.paused = false;
        self.publish(FeeEvent::Unpause);
        Ok(())
    }

    /// Whether fee calculation is paused.
    pub fn is_paused(&self) -> (p: bool)
        ensures
            p == self@.paused,
    {
        self.paused
    }

    /// Compute `floor(amount * fee_rate / 10_000)` and publish it.
    ///
    /// Returns `Paused` while paused, `InvalidAmount` for a negative amount
    /// and `Overflow` when `amount * fee_rate` does not fit in a `u128`.
    pub fn calculate_fee(&mut self, amount: i128, fee_rate: u32) -> (r: Result<i128, ContractError>)
        ensures
            (final(self)@, r) == calculate_fee_spec(old(self)@, amount, fee_rate),
    {
        if self.is_paused() {
            return Err(ContractError::Paused);
        }
        if amount < 0 {
            return Err(ContractError::InvalidAmount);
        }
        let fee = match Self::compute_fee(amount, fee_rate) {
            Ok(f) => f,
            Err(e) => return Err(e),
        };
        self.publish(FeeEvent::FeeCalculated { fee });
        Ok(fee)
    }

    /// Announce a migration to `new_version` (admin only).
    pub fn migrate(&mut self, ctx: &Invocation, new_version: &Vec<u8>) -> (r: Result<(), InvokeError<ContractError>>)
        ensures
            (final(self)@, r) == migrate_spec(old(self)@, *ctx, new_version@),
    {
        let admin = match self.load_admin() {
            Ok(a) => a,
            Err(e) => return Err(InvokeError::Contract(e)),
        };
        if !ctx.has_authorized(admin) {
            return Err(InvokeError::MissingAuth(admin));
        }
        self.publish(FeeEvent::Migrate { new_version: copy_vec(new_version) });
        Ok(())
    }

    /// Overflow-checked `floor(amount * fee_rate / 10_000)` of a non-negative amount.
    pub fn compute_fee(amount: i128, fee_rate: u32) -> (r: Result<i128, ContractError>)
        requires
            amount >= 0,
        ensures
            r == fee_spec(amount as int, fee_rate as int),
    {
        let amount_u128 = amount as u128;
        let numerator = match amount_u128.checked_mul(fee_rate as u128) {
            Some(n) => n,
            None => return Err(ContractError::Overflow),
        };
        let fee_u128 = match numerator.checked_div(BASIS_POINT_DENOM) {
            Some(f) => f,
            None => return Err(ContractError::Overflow),
        };
        assert(fee_u128 <= u128::MAX / 10_000);
        Ok(fee_u128 as i128)
    }

    /// The fee rate of the volume tier that `amount` falls in; negative
    /// amounts are rejected.
    pub fn get_tier_fee_rate(amount: i128) -> (r: Result<u32, ContractError>)
        ensures
            r == tier_fee_rate_spec(amount),
    {
        if amount < 0 {
            Err(ContractError::InvalidAmount)
        } else if amount <= FEE_TIER_1_MAX {
            Ok(TIER_1_FEE_RATE)
        } else if amount <= FEE_TIER_2_MAX {
            Ok(TIER_2_FEE_RATE)
        } else {
            Ok(TIER_3_FEE_RATE)
        }
    }
}

// ── Laws ────────────────────────────────────────────────────────────────────

/// Law: a fee at a rate of at most 100% (10 000 bp) never exceeds the amount.
pub proof fn lemma_fee_at_most_amount(amount: int, fee_rate: int)
    requires
        amount >= 0,
        0 <= fee_rate <= 10_000,
        fee_spec(amount, fee_rate) is Ok,
    ensures
        0 <= fee_spec(amount, fee_rate)->Ok_0 <= amount,
{
    assert(0 <= amount * fee_rate <= amount * 10_000) by (nonlinear_arith)
        requires
            amount >= 0,
            0 <= fee_rate <= 10_000,
    ;
    assert(amount * fee_rate / 10_000 <= amount) by (nonlinear_arith)
        requires
            0 <= amount * fee_rate <= amount * 10_000,
    ;
    assert(0 <= amount * fee_rate / 10_000) by (nonlinear_arith)
        requires
            0 <= amount * fee_rate,
    ;
}

/// Law: at a fixed rate, a larger amount never yields a smaller fee.
pub proof fn lemma_fee_monotone(a1: int, a2: int, fee_rate: int)
    requires
        0 <= a1 <= a2,
        fee_rate >= 0,
        fee_spec(a2, fee_rate) is Ok,
    ensures
        fee_spec(a1, fee_rate) is Ok,
        fee_spec(a1, fee_rate)->Ok_0 <= fee_spec(a2, fee_rate)->Ok_0,
{
    assert(a1 * fee_rate <= a2 * fee_rate) by (nonlinear_arith)
        requires
            0 <= a1 <= a2,
            fee_rate >= 0,
    ;
    assert(a1 * fee_rate / 10_000 <= a2 * fee_rate / 10_000) by (nonlinear_arith)
        requires
            0 <= a1 * fee_rate <= a2 * fee_rate,
    ;
    assert(0 <= a1 * fee_rate) by (nonlinear_arith)
        requires
            0 <= a1,
            fee_rate >= 0,
    ;
}

/// Law: a fee at a rate of at most 100% never overflows for an amount up to
/// `u128::MAX / 10_000`.
pub proof fn lemma_fee_no_overflow(amount: int, fee_rate: int)
    requires
        0 <= amount <= u128::MAX / 10_000,
        0 <= fee_rate <= 10_000,
    ensures
        fee_spec(amount, fee_rate) is Ok,
{
    assert(amount * fee_rate <= (u128::MAX / 10_000) * 10_000) by (nonlinear_arith)
        requires
            0 <= amount <= u128::MAX / 10_000,
            0 <= fee_rate <= 10_000,
    ;
}

/// Law: fee rates never increase with volume, and every non-negative amount
/// falls in exactly one tier.
pub proof fn lemma_tier_rate_non_increasing(a1: i128, a2: i128)
    requires
        0 <= a1 <= a2,
    ensures
        tier_fee_rate_spec(a1) is Ok,
        tier_fee_rate_spec(a2) is Ok,
        tier_fee_rate_spec(a1)->Ok_0 >= tier_fee_rate_spec(a2)->Ok_0,
{
}

/// Law: while paused, no fee is calculated and nothing is published.
pub proof fn lemma_paused_blocks_fees(m: FeeModel, amount: i128, fee_rate: u32)
    requires
        m.paused,
    ensures
        calculate_fee_spec(m, amount, fee_rate) == (m, Err::<i128, ContractError>(ContractError::Paused)),
{
}

/// Law: a successful `pause` blocks fee calculation, and a successful
/// `unpause` lets it run again (for any non-negative amount whose fee fits).
pub proof fn lemma_pause_unpause(m: FeeModel, ctx: Invocation, reason: Seq<u8>, amount: i128, fee_rate: u32)
    requires
        pause_spec(m, ctx, reason).1 is Ok,
        amount >= 0,
        fee_spec(amount as int, fee_rate as int) is Ok,
    ensures
        calculate_fee_spec(pause_spec(m, ctx, reason).0, amount, fee_rate).1 == Err::<i128, ContractError>(
            ContractError::Paused,
        ),
        unpause_spec(pause_spec(m, ctx, reason).0, ctx).1 is Ok,
        calculate_fee_spec(unpause_spec(pause_spec(m, ctx, reason).0, ctx).0, amount, fee_rate).1
            == fee_spec(amount as int, fee_rate as int),
{
}

} // verus!
