//! Treasury contract: tiered fee collection with overflow-checked arithmetic,
//! an admin-managed fee schedule and the treasury address fees are routed to.
use vstd::prelude::*;
use crate::address::{Addr, AddressKind};
use crate::auth::{assert_is_admin, assert_is_admin_spec};
use crate::errors::ContractError;
use crate::host::{self, tier_entries, tier_entries_typed};
use crate::invocation::{Invocation, InvokeError};

verus! {

broadcast use vstd::laws_cmp::group_laws_cmp;

/// Basis-point denominator.
pub const MAX_BASIS_POINTS: u32 = 10_000;

/// Largest fee a schedule entry may carry: 5%.
pub const MAX_SINGLE_FEE_BP: u32 = 500;

/// `floor(amount * fee_basis_points / 10_000)`, or `Overflow` when the product
/// exceeds `i128::MAX`.
pub open spec fn treasury_fee_spec(amount: int, fee_basis_points: int) -> Result<i128, ContractError> {
    if amount * fee_basis_points > i128::MAX {
        Err(ContractError::Overflow)
    } else {
        Ok((amount * fee_basis_points / 10_000) as i128)
    }
}

/// Fee in basis points for `amount`: 0.5% below 1M, 0.25% from 1M, 0.1% from 10M.
pub open spec fn fee_for_amount_spec(amount: i128) -> u32 {
    if amount >= 10_000_000 {
        10
    } else if amount >= 1_000_000 {
        25
    } else {
        50
    }
}

/// The schedule written by `init`.
pub open spec fn initial_schedule() -> Map<i128, u32> {
    Map::<i128, u32>::empty().insert(0, 50).insert(1_000_000, 25).insert(10_000_000, 10)
}

/// An event the treasury publishes.
#[derive(Copy, Clone, Debug, PartialEq, Eq, Structural)]
pub enum TreasuryEvent {
    FeeCollected { amount: i128, fee: i128, recipient: Addr },
    FeeScheduleUpdated { amount_tier: i128, basis_points: u32 },
    TreasuryUpdated { treasury: Addr },
    FeeRouted { amount: i128, treasury: Addr },
}

/// The model of the treasury's storage and of the events it published.
pub struct TreasuryModel {
    pub admin: Option<Addr>,
    pub treasury: Option<Addr>,
    pub fee_schedule: Option<Map<i128, u32>>,
    pub events: Seq<TreasuryEvent>,
}

impl TreasuryModel {
    /// What holds of every reachable state: admin, treasury and schedule are
    /// set together, and no schedule entry exceeds 5%.
    pub open spec fn inv(self) -> bool {
        &&& self.admin is Some == self.treasury is Some
        &&& self.treasury is Some == self.fee_schedule is Some
        &&& self.fee_schedule is Some ==> forall|tier: i128|
            #[trigger] self.fee_schedule.unwrap().contains_key(tier) ==> self.fee_schedule.unwrap()[tier]
                <= MAX_SINGLE_FEE_BP
    }
}

/// `init`: record admin and treasury and write the default schedule.
pub open spec fn init_spec(m: TreasuryModel, ctx: Invocation, admin: Addr, treasury: Addr) -> (TreasuryModel, Result<
    (),
    InvokeError<ContractError>,
>) {
    if !ctx.authorizes(admin) {
        (m, Err(InvokeError::MissingAuth(admin)))
    } else {
        (
            TreasuryModel {
                admin: Some(admin),
                treasury: Some(treasury),
                fee_schedule: Some(initial_schedule()),
                ..m
            },
            Ok(()),
        )
    }
}

/// `collect_fee`: the fee owed on `amount`, published with its recipient.
pub open spec fn collect_fee_spec(m: TreasuryModel, amount: i128, recipient: Addr) -> (TreasuryModel, Result<
    i128,
    ContractError,
>) {
    if amount <= 0 {
        (m, Err(ContractError::InvalidAmount))
    } else if m.fee_schedule is None {
        (m, Err(ContractError::NotFound))
    } else {
        match treasury_fee_spec(amount as int, fee_for_amount_spec(amount) as int) {
            Err(e) => (m, Err(e)),
            Ok(fee) => (
                TreasuryModel {
                    events: m.events.push(TreasuryEvent::FeeCollected { amount, fee, recipient }),
                    ..m
                },
                Ok(fee),
            ),
        }
    }
}

/// `set_fee_schedule` (admin only): set the fee of one amount tier.
pub open spec fn set_fee_schedule_spec(m: TreasuryModel, ctx: Invocation, amount_tier: i128, basis_points: u32) -> (TreasuryModel, Result<
    (),
    InvokeError<ContractError>,
>) {
    match m.admin {
        None => (m, Err(InvokeError::Contract(ContractError::NotFound))),
        Some(admin) => if !ctx.authorizes(admin) {
            (m, Err(InvokeError::MissingAuth(admin)))
        } else if basis_points > MAX_SINGLE_FEE_BP {
            (m, Err(InvokeError::Contract(ContractError::InvalidAmount)))
        } else if m.fee_schedule is None {
            (m, Err(InvokeError::Contract(ContractError::NotFound)))
        } else {
            (
                TreasuryModel {
                    fee_schedule: Some(m.fee_schedule.unwrap().insert(amount_tier, basis_points)),
                    events: m.events.push(TreasuryEvent::FeeScheduleUpdated { amount_tier, basis_points }),
                    ..m
                },
                Ok(()),
            )
        },
    }
}

/// `update_treasury` (admin only).
pub open spec fn update_treasury_spec(m: TreasuryModel, ctx: Invocation, new_treasury: Addr) -> (TreasuryModel, Result<
    (),
    InvokeError<ContractError>,
>) {
    match m.admin {
        None => (m, Err(InvokeError::Contract(ContractError::NotFound))),
        Some(admin) => if !ctx.authorizes(admin) {
            (m, Err(InvokeError::MissingAuth(admin)))
        } else {
            (
                TreasuryModel {
                    treasury: Some(new_treasury),
                    events: m.events.push(TreasuryEvent::TreasuryUpdated { treasury: new_treasury }),
                    ..m
                },
                Ok(()),
            )
        },
    }
}

/// `route_to_treasury`: announce `amount` routed to the treasury.
pub open spec fn route_to_treasury_spec(m: TreasuryModel, amount: i128) -> (TreasuryModel, Result<(), ContractError>) {
    if amount <= 0 {
        (m, Err(ContractError::InvalidAmount))
    } else if m.treasury is None {
        (m, Err(ContractError::NotFound))
    } else {
        (
            TreasuryModel {
                events: m.events.push(TreasuryEvent::FeeRouted { amount, treasury: m.treasury.unwrap() }),
                ..m
            },
            Ok(()),
        )
    }
}

/// The treasury's storage as plain values, as it is kept between invocations.
pub struct TreasuryRecord {
    pub admin: Option<Addr>,
    pub treasury: Option<Addr>,
    pub fee_schedule: Option<soroban_sdk::Map<i128, u32>>,
}

/// The model a record describes (with no events).
pub open spec fn record_model(rec: TreasuryRecord) -> TreasuryModel {
    TreasuryModel {
        admin: rec.admin,
        treasury: rec.treasury,
        fee_schedule: match rec.fee_schedule {
            Some(s) => Some(tier_entries(s)),
            None => None,
        },
        events: Seq::empty(),
    }
}

/// Whether the record's schedule, if any, holds only `i128` tiers and `u32`
/// basis points.
pub open spec fn record_typed(rec: TreasuryRecord) -> bool {
    rec.fee_schedule matches Some(s) ==> tier_entries_typed(s)
}

/// Whether every entry of `schedule` is typed and at most 5%.
pub fn schedule_within_cap(schedule: &soroban_sdk::Map<i128, u32>) -> (r: bool)
    ensures
        r == (tier_entries_typed(*schedule) && forall|tier: i128| #[trigger]
            tier_entries(*schedule).contains_key(tier) ==> tier_entries(*schedule)[tier] <= MAX_SINGLE_FEE_BP),
{
    let entries = match host::tier_map_entries(schedule) {
        None => return false,
        Some(v) => v,
    };
    let ghost m = tier_entries(*schedule);
    let mut i: usize = 0;
    while i < entries.len()
        invariant
            0 <= i <= entries@.len(),
            m == tier_entries(*schedule),
            tier_entries_typed(*schedule),
            forall|j: int| 0 <= j < entries@.len() ==> #[trigger] m.contains_key(entries@[j].0)
                && m[entries@[j].0] == entries@[j].1,
            forall|tier: i128| #[trigger] m.contains_key(tier) ==> exists|j: int|
                0 <= j < entries@.len() && entries@[j].0 == tier,
            forall|j: int| 0 <= j < i ==> (#[trigger] entries@[j]).1 <= MAX_SINGLE_FEE_BP,
        decreases entries@.len() - i,
    {
        if entries[i].1 > MAX_SINGLE_FEE_BP {
            assert(m.contains_key(entries@[i as int].0));
            return false;
        }
        i += 1;
    }
    assert forall|tier: i128| #[trigger] m.contains_key(tier) implies m[tier] <= MAX_SINGLE_FEE_BP by {
        let j = choose|j: int| 0 <= j < entries@.len() && entries@[j].0 == tier;
        assert(m.contains_key(entries@[j].0));
        assert(entries@[j].1 <= MAX_SINGLE_FEE_BP);
    }
    true
}

/// The treasury contract: its storage and the events it has published.
pub struct TreasuryContract {
    admin: Option<Addr>,
    treasury: Option<Addr>,
    fee_schedule: Option<soroban_sdk::Map<i128, u32>>,
    events: Vec<TreasuryEvent>,
}

impl View for TreasuryContract {
    type V = TreasuryModel;

    closed spec fn view(&self) -> TreasuryModel {
        TreasuryModel {
            admin: self.admin,
            treasury: self.treasury,
            fee_schedule: match self.fee_schedule {
                Some(s) => Some(tier_entries(s)),
                None => None,
            },
            events: self.events@,
        }
    }
}

impl TreasuryContract {
    /// Well-formed storage: the model invariant holds and the schedule holds
    /// only typed entries.
    pub closed spec fn wf(&self) -> bool {
        &&& self@.inv()
        &&& self.fee_schedule matches Some(s) ==> tier_entries_typed(s)
    }

    /// Well-formed storage satisfies the model's invariant.
    pub proof fn lemma_wf_inv(&self)
        requires
            self.wf(),
        ensures
            self@.inv(),
    {
    }

    /// A freshly deployed treasury: nothing configured, no events.
    pub fn new() -> (c: Self)
        ensures
            c.wf(),
            c@.admin is None && c@.treasury is None && c@.fee_schedule is None,
            c@.events == Seq::<TreasuryEvent>::empty(),
    {
        TreasuryContract { admin: None, treasury: None, fee_schedule: None, events: Vec::new() }
    }

    /// Events published so far, oldest first.
    pub fn events(&self) -> (r: &Vec<TreasuryEvent>)
        ensures
            r@ == self@.events,
    {
        &self.events
    }

    /// Record the admin and the treasury address, and write the default
    /// schedule: 0.5% from 0, 0.25% from 1M, 0.1% from 10M stroops.
    pub fn init(&mut self, env: &soroban_sdk::Env, ctx: &Invocation, admin: Addr, treasury: Addr) -> (r: Result<
        (),
        InvokeError<ContractError>,
    >)
        requires
            old(self).wf(),
        ensures
            final(self).wf(),
            (final(self)@, r) == init_spec(old(self)@, *ctx, admin, treasury),
    {
        if !ctx.has_authorized(admin) {
            return Err(InvokeError::MissingAuth(admin));
        }
        let mut schedule = host::tier_map_new(env);
        host::tier_map_set(&mut schedule, 0i128, 50);
        host::tier_map_set(&mut schedule, 1_000_000i128, 25);
        host::tier_map_set(&mut schedule, 10_000_000i128, 10);
        assert(tier_entries(schedule) =~= initial_schedule());
        self.admin = Some(admin);
        self.treasury = Some(treasury);
        self.fee_schedule = Some(schedule);
        Ok(())
    }

    /// Rebuild the treasury from its stored record; `None` if the record could
    /// not have been written by the treasury.
    pub fn from_record(rec: TreasuryRecord) -> (r: Option<Self>)
        ensures
            r is Some <==> record_model(rec).inv() && record_typed(rec),
            r matches Some(c) ==> c.wf() && c@ == record_model(rec),
    {
        let configured = rec.admin.is_some();
        if rec.treasury.is_some() != configured || rec.fee_schedule.is_some() != configured {
            return None;
        }
        if let Some(schedule) = &rec.fee_schedule {
            if !schedule_within_cap(schedule) {
                proof {
                    assert(rec.fee_schedule == Some(*schedule));
                    if tier_entries_typed(*schedule) {
                        let tier = choose|tier: i128| #[trigger] tier_entries(*schedule).contains_key(tier)
                            && tier_entries(*schedule)[tier] > MAX_SINGLE_FEE_BP;
                        assert(record_model(rec).fee_schedule.unwrap().contains_key(tier));
                    }
                }
                return None;
            }
        }
        let c = TreasuryContract {
            admin: rec.admin,
            treasury: rec.treasury,
            fee_schedule: rec.fee_schedule,
            events: Vec::new(),
        };
        assert(c@ == record_model(rec)) by {
            assert(c@.events =~= Seq::<TreasuryEvent>::empty());
        }
        Some(c)
    }

    /// The treasury's storage as a record (events are not part of storage).
    pub fn to_record(&self) -> (rec: TreasuryRecord)
        requires
            self.wf(),
        ensures
            record_model(rec) == (TreasuryModel { events: Seq::empty(), ..self@ }),
            record_model(rec).inv(),
            record_typed(rec),
    {
        let fee_schedule = match &self.fee_schedule {
            Some(s) => Some(host::tier_map_clone(s)),
            None => None,
        };
        TreasuryRecord { admin: self.admin, treasury: self.treasury, fee_schedule }
    }

    /// Compute the fee owed on `amount` and publish it with its recipient.
    ///
    /// Returns `Overflow` when `amount * basis points` exceeds `i128::MAX`.
    pub fn collect_fee(&mut self, amount: i128, recipient: Addr) -> (r: Result<i128, ContractError>)
        requires
            old(self).wf(),
        ensures
            final(self).wf(),
            (final(self)@, r) == collect_fee_spec(old(self)@, amount, recipient),
    {
        if amount <= 0 {
            return Err(ContractError::InvalidAmount);
        }
        let fee_basis_points = match &self.fee_schedule {
            None => return Err(ContractError::NotFound),
            Some(schedule) => Self::get_fee_for_amount(schedule, amount),
        };
        let fee = match Self::compute_fee(amount, fee_basis_points) {
            Ok(f) => f,
            Err(e) => return Err(e),
        };
        self.events.push(TreasuryEvent::FeeCollected { amount, fee, recipient });
        Ok(fee)
    }

    /// The fee, in basis points, for `amount`. The tiers are fixed; the
    /// schedule argument is not consulted.
    pub fn get_fee_for_amount(schedule: &soroban_sdk::Map<i128, u32>, amount: i128) -> (bp: u32)
        ensures
            bp == fee_for_amount_spec(amount),
    {
        let _ = schedule;
        if amount >= 10_000_000 {
            10
        } else if amount >= 1_000_000 {
            25
        } else {
            50
        }
    }

    /// Set the fee of one amount tier (admin only); at most 5%.
    pub fn set_fee_schedule(&mut self, ctx: &Invocation, amount_tier: i128, basis_points: u32) -> (r: Result<
        (),
        InvokeError<ContractError>,
    >)
        requires
            old(self).wf(),
        ensures
            final(self).wf(),
            (final(self)@, r) == set_fee_schedule_spec(old(self)@, *ctx, amount_tier, basis_points),
    {
        let admin = match self.admin {
            None => return Err(InvokeError::Contract(ContractError::NotFound)),
            Some(a) => a,
        };
        if !ctx.has_authorized(admin) {
            return Err(InvokeError::MissingAuth(admin));
        }
        if let Err(e) = assert_is_admin(self.admin, admin) {
            return Err(InvokeError::Contract(e));
        }
        if basis_points > MAX_SINGLE_FEE_BP {
            return Err(InvokeError::Contract(ContractError::InvalidAmount));
        }
        let mut schedule = match self.fee_schedule.take() {
            None => return Err(InvokeError::Contract(ContractError::NotFound)),
            Some(s) => s,
        };
        host::tier_map_set(&mut schedule, amount_tier, basis_points);
        self.fee_schedule = Some(schedule);
        self.events.push(TreasuryEvent::FeeScheduleUpdated { amount_tier, basis_points });
        assert(self@.fee_schedule == Some(old(self)@.fee_schedule.unwrap().insert(amount_tier, basis_points)));
        assert(self@.events == old(self)@.events.push(TreasuryEvent::FeeScheduleUpdated { amount_tier, basis_points }));
        Ok(())
    }

    /// The treasury address. Before initialisation there is none, and a fresh
    /// contract address is made up by the environment.
    pub fn get_treasury(&self, env: &soroban_sdk::Env) -> (t: Addr)
        ensures
            self@.treasury is Some ==> t == self@.treasury.unwrap(),
            self@.treasury is None ==> t.kind == AddressKind::Contract,
    {
        match self.treasury {
            Some(t) => t,
            None => host::generate_address(env),
        }
    }

    /// Replace the treasury address (admin only).
    pub fn update_treasury(&mut self, ctx: &Invocation, new_treasury: Addr) -> (r: Result<
        (),
        InvokeError<ContractError>,
    >)
        requires
            old(self).wf(),
        ensures
            final(self).wf(),
            (final(self)@, r) == update_treasury_spec(old(self)@, *ctx, new_treasury),
    {
        let admin = match self.admin {
            None => return Err(InvokeError::Contract(ContractError::NotFound)),
            Some(a) => a,
        };
        if !ctx.has_authorized(admin) {
            return Err(InvokeError::MissingAuth(admin));
        }
        if let Err(e) = assert_is_admin(self.admin, admin) {
            return Err(InvokeError::Contract(e));
        }
        self.treasury = Some(new_treasury);
        self.events.push(TreasuryEvent::TreasuryUpdated { treasury: new_treasury });
        Ok(())
    }

    /// Announce `amount` routed to the treasury.
    pub fn route_to_treasury(&mut self, amount: i128) -> (r: Result<(), ContractError>)
        requires
            old(self).wf(),
        ensures
            final(self).wf(),
            (final(self)@, r) == route_to_treasury_spec(old(self)@, amount),
    {
        if amount <= 0 {
            return Err(ContractError::InvalidAmount);
        }
        let treasury = match self.treasury {
            None => return Err(ContractError::NotFound),
            Some(t) => t,
        };
        self.events.push(TreasuryEvent::FeeRouted { amount, treasury });
        Ok(())
    }

    /// Overflow-checked `floor(amount * fee_basis_points / 10_000)` of a
    /// non-negative amount.
    pub fn compute_fee(amount: i128, fee_basis_points: u32) -> (r: Result<i128, ContractError>)
        requires
            amount >= 0,
        ensures
            r == treasury_fee_spec(amount as int, fee_basis_points as int),
    {
        let numerator = match amount.checked_mul(fee_basis_points as i128) {
            Some(n) => n,
            None => return Err(ContractError::Overflow),
        };
        assert(numerator >= 0) by (nonlinear_arith)
            requires
                numerator == amount * fee_basis_points,
                amount >= 0,
                fee_basis_points >= 0,
        ;
        Ok(numerator / (MAX_BASIS_POINTS as i128))
    }
}

// ── Laws ────────────────────────────────────────────────────────────────────

/// Law: the tiered rate never increases with the amount, and is always one
/// of 50, 25 or 10 basis points.
pub proof fn lemma_fee_for_amount_non_increasing(a1: i128, a2: i128)
    requires
        a1 <= a2,
    ensures
        fee_for_amount_spec(a1) >= fee_for_amount_spec(a2),
        fee_for_amount_spec(a2) == 10 || fee_for_amount_spec(a2) == 25 || fee_for_amount_spec(a2) == 50,
{
}

/// Law: a collected fee is at most half a percent of the amount, so it is
/// always strictly less than the amount itself.
pub proof fn lemma_collected_fee_bounded(m: TreasuryModel, amount: i128, recipient: Addr)
    requires
        collect_fee_spec(m, amount, recipient).1 is Ok,
    ensures
        0 <= collect_fee_spec(m, amount, recipient).1->Ok_0 <= amount / 200,
        collect_fee_spec(m, amount, recipient).1->Ok_0 < amount,
{
    let bp = fee_for_amount_spec(amount) as int;
    let a = amount as int;
    assert(0 <= a * bp <= a * 50) by (nonlinear_arith)
        requires
            a > 0,
            0 <= bp <= 50,
    ;
    assert(a * bp / 10_000 <= a / 200) by (nonlinear_arith)
        requires
            0 <= a * bp <= a * 50,
            a > 0,
    ;
}

/// Law: a successful `set_fee_schedule` stores exactly the requested entry,
/// leaving all other tiers as they were.
pub proof fn lemma_set_fee_schedule_writes_one_tier(
    m: TreasuryModel,
    ctx: Invocation,
    amount_tier: i128,
    basis_points: u32,
    other: i128,
)
    requires
        set_fee_schedule_spec(m, ctx, amount_tier, basis_points).1 is Ok,
        other != amount_tier,
    ensures
        ({
            let s2 = set_fee_schedule_spec(m, ctx, amount_tier, basis_points).0.fee_schedule.unwrap();
            let s1 = m.fee_schedule.unwrap();
            &&& s2.contains_key(amount_tier) && s2[amount_tier] == basis_points
            &&& s2.contains_key(other) == s1.contains_key(other)
            &&& s1.contains_key(other) ==> s2[other] == s1[other]
        }),
{
}

} // verus!
