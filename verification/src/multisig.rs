//! Multi-signature settlement authority: M-of-N threshold signing for
//! high-value release and upgrade actions. Every collected signature is
//! published as an event for off-chain audit.
use vstd::prelude::*;
use crate::address::Addr;
use crate::auth::{
    assert_is_admin,
    assert_is_admin_spec,
    assert_is_signer,
    assert_is_signer_spec,
    contains_addr,
    required_threshold,
    required_threshold_spec,
    verify_threshold,
    verify_threshold_spec,
};
use crate::errors::ContractError;
use crate::invocation::{Invocation, InvokeError};
use crate::table::{bytes_eq, copy_vec, entries_map, keys_distinct, lemma_entries_map, Duplicate, Table};

verus! {

/// On-chain state of a pending release or upgrade action.
pub struct Proposal {
    /// Unique proposal ID (caller-supplied).
    pub id: Vec<u8>,
    /// Human-readable description of the action.
    pub description: Vec<u8>,
    /// Target contract or address the action applies to.
    pub target: Addr,
    /// Value involved (in stroops / token base units).
    pub value: i128,
    /// Addresses that have already signed.
    pub signatures: Vec<Addr>,
    /// Whether the proposal has been executed.
    pub executed: bool,
    /// Ledger sequence at proposal creation.
    pub created_at: u32,
}

/// The model of a [`Proposal`].
pub struct ProposalModel {
    pub id: Seq<u8>,
    pub description: Seq<u8>,
    pub target: Addr,
    pub value: i128,
    pub signatures: Seq<Addr>,
    pub executed: bool,
    pub created_at: u32,
}

impl View for Proposal {
    type V = ProposalModel;

    open spec fn view(&self) -> ProposalModel {
        ProposalModel {
            id: self.id@,
            description: self.description@,
            target: self.target,
            value: self.value,
            signatures: self.signatures@,
            executed: self.executed,
            created_at: self.created_at,
        }
    }
}

impl Proposal {
    /// A copy of the proposal.
    pub fn copy(&self) -> (p: Proposal)
        ensures
            p@ == self@,
    {
        Proposal {
            id: copy_vec(&self.id),
            description: copy_vec(&self.description),
            target: self.target,
            value: self.value,
            signatures: copy_vec(&self.signatures),
            executed: self.executed,
            created_at: self.created_at,
        }
    }
}

impl Duplicate for Proposal {
    fn duplicate(&self) -> (r: Self)
        ensures
            r@ == self@,
    {
        self.copy()
    }
}

/// Whether no address occurs twice in `list`.
pub fn all_distinct(list: &Vec<Addr>) -> (r: bool)
    ensures
        r == list@.no_duplicates(),
{
    let mut i: usize = 0;
    while i < list.len()
        invariant
            0 <= i <= list@.len(),
            forall|a: int, b: int| 0 <= a < i && 0 <= b < i && a != b ==> list@[a] != list@[b],
        decreases list@.len() - i,
    {
        let mut j: usize = 0;
        while j < i
            invariant
                0 <= j <= i < list@.len(),
                forall|b: int| 0 <= b < j ==> list@[b] != list@[i as int],
            decreases i - j,
        {
            if list[j] == list[i] {
                return false;
            }
            j += 1;
        }
        i += 1;
    }
    true
}

/// The authority's storage as plain values, as it is kept between invocations.
pub struct MultisigRecord {
    pub admin: Option<Addr>,
    pub signers: Option<Vec<Addr>>,
    pub threshold: Option<u32>,
    pub high_value_limit: Option<i128>,
    pub proposals: Vec<(Vec<u8>, Proposal)>,
}

/// The model a record describes (with no events).
pub open spec fn record_model(rec: MultisigRecord) -> MultisigModel {
    MultisigModel {
        admin: rec.admin,
        signers: match rec.signers {
            Some(s) => Some(s@),
            None => None,
        },
        threshold: rec.threshold,
        high_value_limit: rec.high_value_limit,
        proposals: entries_map(rec.proposals@),
        events: Seq::empty(),
    }
}

/// A record the authority could have stored.
pub open spec fn record_ok(rec: MultisigRecord) -> bool {
    keys_distinct(rec.proposals@) && record_model(rec).inv()
}

/// An event the multisig authority publishes.
pub enum MultisigEvent {
    Init { admin: Addr, threshold: u32, high_value_limit: i128 },
    Proposed { id: Vec<u8>, proposer: Addr, target: Addr, value: i128 },
    Signed { proposal_id: Vec<u8>, signer: Addr, sig_count: u32 },
    Executed { proposal_id: Vec<u8>, executor: Addr, value: i128, sig_count: u32 },
    SignerAdded { signer: Addr },
    SignerRemoved { signer: Addr },
    ThresholdSet { threshold: u32 },
}

/// The model of a [`MultisigEvent`].
pub enum MultisigEventModel {
    Init { admin: Addr, threshold: u32, high_value_limit: i128 },
    Proposed { id: Seq<u8>, proposer: Addr, target: Addr, value: i128 },
    Signed { proposal_id: Seq<u8>, signer: Addr, sig_count: u32 },
    Executed { proposal_id: Seq<u8>, executor: Addr, value: i128, sig_count: u32 },
    SignerAdded { signer: Addr },
    SignerRemoved { signer: Addr },
    ThresholdSet { threshold: u32 },
}

impl View for MultisigEvent {
    type V = MultisigEventModel;

    open spec fn view(&self) -> MultisigEventModel {
        match self {
            MultisigEvent::Init { admin, threshold, high_value_limit } => MultisigEventModel::Init {
                admin: *admin,
                threshold: *threshold,
                high_value_limit: *high_value_limit,
            },
            MultisigEvent::Proposed { id, proposer, target, value } => MultisigEventModel::Proposed {
                id: id@,
                proposer: *proposer,
                target: *target,
                value: *value,
            },
            MultisigEvent::Signed { proposal_id, signer, sig_count } => MultisigEventModel::Signed {
                proposal_id: proposal_id@,
                signer: *signer,
                sig_count: *sig_count,
            },
            MultisigEvent::Executed { proposal_id, executor, value, sig_count } => MultisigEventModel::Executed {
                proposal_id: proposal_id@,
                executor: *executor,
                value: *value,
                sig_count: *sig_count,
            },
            MultisigEvent::SignerAdded { signer } => MultisigEventModel::SignerAdded { signer: *signer },
            MultisigEvent::SignerRemoved { signer } => MultisigEventModel::SignerRemoved { signer: *signer },
            MultisigEvent::ThresholdSet { threshold } => MultisigEventModel::ThresholdSet { threshold: *threshold },
        }
    }
}

/// The model of the authority's storage and of the events it published.
pub struct MultisigModel {
    pub admin: Option<Addr>,
    pub signers: Option<Seq<Addr>>,
    pub threshold: Option<u32>,
    pub high_value_limit: Option<i128>,
    pub proposals: Map<Seq<u8>, ProposalModel>,
    pub events: Seq<MultisigEventModel>,
}

impl MultisigModel {
    /// What holds of every reachable state: the configuration is either wholly
    /// absent or wholly present; a present threshold is at least one and at
    /// most the number of signers (quorum stays reachable); the high-value
    /// limit is non-negative; each proposal is stored under its own ID, was
    /// signed at least by its proposer and never twice by the same signer.
    pub open spec fn inv(self) -> bool {
        &&& self.signers is Some == self.threshold is Some
        &&& self.threshold is Some == self.high_value_limit is Some
        &&& self.high_value_limit is Some == self.admin is Some
        &&& self.threshold is Some ==> {
            &&& 1 <= self.threshold.unwrap() <= self.signers.unwrap().len()
            &&& self.signers.unwrap().len() <= u32::MAX
            &&& self.high_value_limit.unwrap() >= 0
        }
        &&& forall|k: Seq<u8>|
            #[trigger] self.proposals.contains_key(k) ==> {
                &&& self.proposals[k].id == k
                &&& self.proposals[k].signatures.no_duplicates()
                &&& 1 <= self.proposals[k].signatures.len() <= u32::MAX
            }
    }

    /// The quorum needed for `value` under the stored configuration.
    pub open spec fn quorum(self, value: i128) -> u32 {
        required_threshold_spec(self.threshold.unwrap(), self.high_value_limit.unwrap(), value)
    }
}

/// `init`: configure admin, signers, threshold and high-value limit.
pub open spec fn init_spec(
    m: MultisigModel,
    ctx: Invocation,
    admin: Addr,
    signers: Seq<Addr>,
    threshold: u32,
    high_value_limit: i128,
) -> (MultisigModel, Result<(), InvokeError<ContractError>>) {
    if !ctx.authorizes(admin) {
        (m, Err(InvokeError::MissingAuth(admin)))
    } else if signers.len() == 0 || threshold == 0 || threshold > signers.len() || high_value_limit < 0 {
        (m, Err(InvokeError::Contract(ContractError::InvalidAmount)))
    } else {
        (
            MultisigModel {
                admin: Some(admin),
                signers: Some(signers),
                threshold: Some(threshold),
                high_value_limit: Some(high_value_limit),
                proposals: Map::empty(),
                events: m.events.push(MultisigEventModel::Init { admin, threshold, high_value_limit }),
            },
            Ok(()),
        )
    }
}

/// `propose`: a signer opens a proposal, signing it at once.
pub open spec fn propose_spec(
    m: MultisigModel,
    ctx: Invocation,
    proposer: Addr,
    id: Seq<u8>,
    description: Seq<u8>,
    target: Addr,
    value: i128,
) -> (MultisigModel, Result<(), InvokeError<ContractError>>) {
    if !ctx.authorizes(proposer) {
        (m, Err(InvokeError::MissingAuth(proposer)))
    } else if assert_is_signer_spec(m.signers, proposer) is Err {
        (m, Err(InvokeError::Contract(assert_is_signer_spec(m.signers, proposer)->Err_0)))
    } else if m.proposals.contains_key(id) {
        (m, Err(InvokeError::Contract(ContractError::AlreadyProcessed)))
    } else {
        let p = ProposalModel {
            id,
            description,
            target,
            value,
            signatures: seq![proposer],
            executed: false,
            created_at: ctx.ledger,
        };
        (
            MultisigModel {
                proposals: m.proposals.insert(id, p),
                events: m.events.push(MultisigEventModel::Proposed { id, proposer, target, value }),
                ..m
            },
            Ok(()),
        )
    }
}

/// `sign`: a signer adds their approval; returns the new signature count.
pub open spec fn sign_spec(m: MultisigModel, ctx: Invocation, signer: Addr, id: Seq<u8>) -> (MultisigModel, Result<
    u32,
    InvokeError<ContractError>,
>) {
    if !ctx.authorizes(signer) {
        (m, Err(InvokeError::MissingAuth(signer)))
    } else if assert_is_signer_spec(m.signers, signer) is Err {
        (m, Err(InvokeError::Contract(assert_is_signer_spec(m.signers, signer)->Err_0)))
    } else if !m.proposals.contains_key(id) {
        (m, Err(InvokeError::Contract(ContractError::NotFound)))
    } else if m.proposals[id].executed {
        (m, Err(InvokeError::Contract(ContractError::AlreadyProcessed)))
    } else if m.proposals[id].signatures.contains(signer) {
        (m, Err(InvokeError::Contract(ContractError::AlreadyProcessed)))
    } else {
        let p = m.proposals[id];
        let sigs = p.signatures.push(signer);
        let count = sigs.len() as u32;
        (
            MultisigModel {
                proposals: m.proposals.insert(id, ProposalModel { signatures: sigs, ..p }),
                events: m.events.push(MultisigEventModel::Signed { proposal_id: id, signer, sig_count: count }),
                ..m
            },
            Ok(count),
        )
    }
}

/// `execute`: carry out a proposal once its quorum is met; returns its value.
pub open spec fn execute_spec(m: MultisigModel, ctx: Invocation, executor: Addr, id: Seq<u8>) -> (MultisigModel, Result<
    i128,
    InvokeError<ContractError>,
>) {
    if !ctx.authorizes(executor) {
        (m, Err(InvokeError::MissingAuth(executor)))
    } else if assert_is_signer_spec(m.signers, executor) is Err {
        (m, Err(InvokeError::Contract(assert_is_signer_spec(m.signers, executor)->Err_0)))
    } else if !m.proposals.contains_key(id) {
        (m, Err(InvokeError::Contract(ContractError::NotFound)))
    } else if m.proposals[id].executed {
        (m, Err(InvokeError::Contract(ContractError::AlreadyProcessed)))
    } else if m.threshold is None || m.high_value_limit is None {
        (m, Err(InvokeError::Contract(ContractError::NotFound)))
    } else {
        let p = m.proposals[id];
        let count = p.signatures.len() as u32;
        if verify_threshold_spec(count, m.threshold.unwrap(), m.high_value_limit.unwrap(), p.value) is Err {
            (m, Err(InvokeError::Contract(ContractError::BelowThreshold)))
        } else {
            (
                MultisigModel {
                    proposals: m.proposals.insert(id, ProposalModel { executed: true, ..p }),
                    events: m.events.push(
                        MultisigEventModel::Executed { proposal_id: id, executor, value: p.value, sig_count: count },
                    ),
                    ..m
                },
                Ok(p.value),
            )
        }
    }
}

/// `add_signer` (admin only).
pub open spec fn add_signer_spec(m: MultisigModel, ctx: Invocation, admin: Addr, new_signer: Addr) -> (MultisigModel, Result<
    (),
    InvokeError<ContractError>,
>) {
    if !ctx.authorizes(admin) {
        (m, Err(InvokeError::MissingAuth(admin)))
    } else if assert_is_admin_spec(m.admin, admin) is Err {
        (m, Err(InvokeError::Contract(assert_is_admin_spec(m.admin, admin)->Err_0)))
    } else if m.signers is None {
        (m, Err(InvokeError::Contract(ContractError::NotFound)))
    } else if m.signers.unwrap().contains(new_signer) {
        (m, Err(InvokeError::Contract(ContractError::AlreadyProcessed)))
    } else {
        (
            MultisigModel {
                signers: Some(m.signers.unwrap().push(new_signer)),
                events: m.events.push(MultisigEventModel::SignerAdded { signer: new_signer }),
                ..m
            },
            Ok(()),
        )
    }
}

/// `remove_signer` (admin only); refused when it would make quorum impossible.
pub open spec fn remove_signer_spec(m: MultisigModel, ctx: Invocation, admin: Addr, signer: Addr) -> (MultisigModel, Result<
    (),
    InvokeError<ContractError>,
>) {
    if !ctx.authorizes(admin) {
        (m, Err(InvokeError::MissingAuth(admin)))
    } else if assert_is_admin_spec(m.admin, admin) is Err {
        (m, Err(InvokeError::Contract(assert_is_admin_spec(m.admin, admin)->Err_0)))
    } else if m.signers is None || m.threshold is None {
        (m, Err(InvokeError::Contract(ContractError::NotFound)))
    } else if m.signers.unwrap().len() - 1 < m.threshold.unwrap() {
        (m, Err(InvokeError::Contract(ContractError::BelowThreshold)))
    } else if !m.signers.unwrap().contains(signer) {
        (m, Err(InvokeError::Contract(ContractError::NotFound)))
    } else {
        (
            MultisigModel {
                signers: Some(m.signers.unwrap().remove_value(signer)),
                events: m.events.push(MultisigEventModel::SignerRemoved { signer }),
                ..m
            },
            Ok(()),
        )
    }
}

/// `set_threshold` (admin only).
pub open spec fn set_threshold_spec(m: MultisigModel, ctx: Invocation, admin: Addr, new_threshold: u32) -> (MultisigModel, Result<
    (),
    InvokeError<ContractError>,
>) {
    if !ctx.authorizes(admin) {
        (m, Err(InvokeError::MissingAuth(admin)))
    } else if assert_is_admin_spec(m.admin, admin) is Err {
        (m, Err(InvokeError::Contract(assert_is_admin_spec(m.admin, admin)->Err_0)))
    } else if m.signers is None {
        (m, Err(InvokeError::Contract(ContractError::NotFound)))
    } else if new_threshold == 0 || new_threshold > m.signers.unwrap().len() {
        (m, Err(InvokeError::Contract(ContractError::InvalidAmount)))
    } else {
        (
            MultisigModel {
                threshold: Some(new_threshold),
                events: m.events.push(MultisigEventModel::ThresholdSet { threshold: new_threshold }),
                ..m
            },
            Ok(()),
        )
    }
}

/// `required_threshold_for`: the quorum for `value`.
pub open spec fn required_threshold_for_spec(m: MultisigModel, value: i128) -> Result<u32, ContractError> {
    if m.threshold is None || m.high_value_limit is None {
        Err(ContractError::NotFound)
    } else {
        Ok(m.quorum(value))
    }
}

/// `proposal_status`: (signature count, quorum, executable).
pub open spec fn proposal_status_spec(m: MultisigModel, id: Seq<u8>) -> Result<(u32, u32, bool), ContractError> {
    if !m.proposals.contains_key(id) {
        Err(ContractError::NotFound)
    } else if m.threshold is None || m.high_value_limit is None {
        Err(ContractError::NotFound)
    } else {
        let p = m.proposals[id];
        let count = p.signatures.len() as u32;
        let needed = m.quorum(p.value);
        Ok((count, needed, count >= needed && !p.executed))
    }
}

/// The multisig authority: its storage and the events it has published.
pub struct MultisigAuthority {
    admin: Option<Addr>,
    signers: Option<Vec<Addr>>,
    threshold: Option<u32>,
    high_value_limit: Option<i128>,
    proposals: Table<Proposal>,
    events: Vec<MultisigEvent>,
}

impl View for MultisigAuthority {
    type V = MultisigModel;

    closed spec fn view(&self) -> MultisigModel {
        MultisigModel {
            admin: self.admin,
            signers: match self.signers {
                Some(s) => Some(s@),
                None => None,
            },
            threshold: self.threshold,
            high_value_limit: self.high_value_limit,
            proposals: self.proposals.map(),
            events: self.events@.map_values(|e: MultisigEvent| e@),
        }
    }
}

/// Position of the first occurrence of `who` in `list`.
fn first_index_of(list: &Vec<Addr>, who: Addr) -> (r: Option<usize>)
    ensures
        r == (match list@.index_of_first(who) {
            Some(i) => Some(i as usize),
            None => None::<usize>,
        }),
{
    proof {
        list@.index_of_first_ensures(who);
    }
    let mut i: usize = 0;
    while i < list.len()
        invariant
            0 <= i <= list@.len(),
            forall|j: int| 0 <= j < i ==> list@[j] != who,
            match list@.index_of_first(who) {
                Some(index) => {
                    &&& list@.contains(who)
                    &&& 0 <= index < list@.len()
                    &&& list@[index] == who
                    &&& forall|j: int| 0 <= j < index < list@.len() ==> list@[j] != who
                },
                None => !list@.contains(who),
            },
        decreases list@.len() - i,
    {
        if list[i] == who {
            proof {
                let index = list@.index_of_first(who)->Some_0;
                assert(list@.contains(who));
                if index < i {
                } else if index > i {
                    assert(list@[i as int] == who);
                }
            }
            return Some(i);
        }
        i += 1;
    }
    proof {
        if list@.contains(who) {
            let k = choose|k: int| 0 <= k < list@.len() && list@[k] == who;
            assert(list@[k] == who);
        }
    }
    None
}

impl MultisigAuthority {
    /// Well-formed storage: the proposal table is consistent and the model
    /// invariant holds.
    pub closed spec fn wf(&self) -> bool {
        &&& self.proposals.wf()
        &&& self@.inv()
    }

    /// Well-formed storage satisfies the model's invariant.
    pub proof fn lemma_wf_inv(&self)
        requires
            self.wf(),
        ensures
            self@.inv(),
    {
    }

    /// A freshly deployed authority: nothing configured, no proposals, no events.
    pub fn new() -> (c: Self)
        ensures
            c.wf(),
            c@.admin is None && c@.signers is None && c@.threshold is None && c@.high_value_limit is None,
            c@.proposals == Map::<Seq<u8>, ProposalModel>::empty(),
            c@.events == Seq::<MultisigEventModel>::empty(),
    {
        let c = MultisigAuthority {
            admin: None,
            signers: None,
            threshold: None,
            high_value_limit: None,
            proposals: Table::new(),
            events: Vec::new(),
        };
        assert(c@.events =~= Seq::<MultisigEventModel>::empty());
        c
    }


    fn publish(&mut self, e: MultisigEvent)
        ensures
            final(self)@ == (MultisigModel { events: old(self)@.events.push(e@), ..old(self)@ }),
            final(self).proposals == old(self).proposals,
    {
        let ghost old_events = self.events@;
        self.events.push(e);
        proof {
            crate::lemma_view_push(old_events, e);
        }
    }

    /// Events published so far, oldest first.
    pub fn events(&self) -> (r: &Vec<MultisigEvent>)
        ensures
            r@.map_values(|e: MultisigEvent| e@) == self@.events,
    {
        &self.events
    }

    fn signers_ref(&self) -> (r: Option<&Vec<Addr>>)
        ensures
            match r {
                None => self@.signers is None,
                Some(l) => self@.signers == Some(l@),
            },
    {
        match &self.signers {
            None => None,
            Some(l) => Some(l),
        }
    }

    /// Initialise the authority with M-of-N signers and a high-value limit.
    ///
    /// `threshold` must be between 1 and the number of signers; releases above
    /// `high_value_limit` need the full threshold (a limit of 0 always does).
    pub fn init(
        &mut self,
        ctx: &Invocation,
        admin: Addr,
        signers: Vec<Addr>,
        threshold: u32,
        high_value_limit: i128,
    ) -> (r: Result<(), InvokeError<ContractError>>)
        requires
            old(self).wf(),
            signers@.len() <= u32::MAX,
        ensures
            final(self).wf(),
            (final(self)@, r) == init_spec(old(self)@, *ctx, admin, signers@, threshold, high_value_limit),
    {
        if !ctx.has_authorized(admin) {
            return Err(InvokeError::MissingAuth(admin));
        }
        if signers.len() == 0 {
            return Err(InvokeError::Contract(ContractError::InvalidAmount));
        }
        if threshold == 0 || threshold as usize > signers.len() {
            return Err(InvokeError::Contract(ContractError::InvalidAmount));
        }
        if high_value_limit < 0 {
            return Err(InvokeError::Contract(ContractError::InvalidAmount));
        }
        self.admin = Some(admin);
        self.signers = Some(signers);
        self.threshold = Some(threshold);
        self.high_value_limit = Some(high_value_limit);
        self.proposals = Table::new();
        self.publish(MultisigEvent::Init { admin, threshold, high_value_limit });
        Ok(())
    }

    /// Open a proposal. The proposer must be a registered signer, and the
    /// proposal starts with the proposer's signature.
    pub fn propose(
        &mut self,
        ctx: &Invocation,
        proposer: Addr,
        id: &Vec<u8>,
        description: &Vec<u8>,
        target: Addr,
        value: i128,
    ) -> (r: Result<(), InvokeError<ContractError>>)
        requires
            old(self).wf(),
        ensures
            final(self).wf(),
            (final(self)@, r) == propose_spec(old(self)@, *ctx, proposer, id@, description@, target, value),
    {
        if !ctx.has_authorized(proposer) {
            return Err(InvokeError::MissingAuth(proposer));
        }
        if let Err(e) = assert_is_signer(self.signers_ref(), proposer) {
            return Err(InvokeError::Contract(e));
        }
        if self.proposals.contains_key(id) {
            return Err(InvokeError::Contract(ContractError::AlreadyProcessed));
        }
        let mut signatures: Vec<Addr> = Vec::new();
        signatures.push(proposer);
        let proposal = Proposal {
            id: copy_vec(id),
            description: copy_vec(description),
            target,
            value,
            signatures,
            executed: false,
            created_at: ctx.ledger,
        };
        assert(proposal@.signatures =~= seq![proposer]);
        self.proposals.set(copy_vec(id), proposal);
        self.publish(MultisigEvent::Proposed { id: copy_vec(id), proposer, target, value });
        Ok(())
    }

    /// Add `signer`'s approval to a proposal; returns the new signature count.
    pub fn sign(&mut self, ctx: &Invocation, signer: Addr, proposal_id: &Vec<u8>) -> (r: Result<
        u32,
        InvokeError<ContractError>,
    >)
        requires
            old(self).wf(),
            old(self)@.proposals.contains_key(proposal_id@) ==> old(self)@.proposals[proposal_id@].signatures.len()
                < u32::MAX,
        ensures
            final(self).wf(),
            (final(self)@, r) == sign_spec(old(self)@, *ctx, signer, proposal_id@),
    {
        if !ctx.has_authorized(signer) {
            return Err(InvokeError::MissingAuth(signer));
        }
        if let Err(e) = assert_is_signer(self.signers_ref(), signer) {
            return Err(InvokeError::Contract(e));
        }
        let idx = match self.proposals.find(proposal_id) {
            None => return Err(InvokeError::Contract(ContractError::NotFound)),
            Some(i) => i,
        };
        let mut proposal = self.proposals.value_at(idx).copy();
        if proposal.executed {
            return Err(InvokeError::Contract(ContractError::AlreadyProcessed));
        }
        if contains_addr(&proposal.signatures, signer) {
            return Err(InvokeError::Contract(ContractError::AlreadyProcessed));
        }
        proposal.signatures.push(signer);
        let sig_count = proposal.signatures.len() as u32;
        proof {
            let old_sigs = old(self)@.proposals[proposal_id@].signatures;
            assert forall|i: int, j: int|
                0 <= i < proposal.signatures@.len() && 0 <= j < proposal.signatures@.len() && i != j
                    implies proposal.signatures@[i] != proposal.signatures@[j] by {
                if i < old_sigs.len() && j < old_sigs.len() {
                } else if i == old_sigs.len() {
                    assert(old_sigs[j] == proposal.signatures@[j]);
                } else {
                    assert(old_sigs[i] == proposal.signatures@[i]);
                }
            }
        }
        self.proposals.replace_at(idx, proposal);
        self.publish(MultisigEvent::Signed { proposal_id: copy_vec(proposal_id), signer, sig_count });
        Ok(sig_count)
    }

    /// Execute a proposal once its quorum is met; returns the approved value.
    /// Proposals above the high-value limit need the full threshold.
    pub fn execute(&mut self, ctx: &Invocation, executor: Addr, proposal_id: &Vec<u8>) -> (r: Result<
        i128,
        InvokeError<ContractError>,
    >)
        requires
            old(self).wf(),
        ensures
            final(self).wf(),
            (final(self)@, r) == execute_spec(old(self)@, *ctx, executor, proposal_id@),
    {
        if !ctx.has_authorized(executor) {
            return Err(InvokeError::MissingAuth(executor));
        }
        if let Err(e) = assert_is_signer(self.signers_ref(), executor) {
            return Err(InvokeError::Contract(e));
        }
        let idx = match self.proposals.find(proposal_id) {
            None => return Err(InvokeError::Contract(ContractError::NotFound)),
            Some(i) => i,
        };
        let mut proposal = self.proposals.value_at(idx).copy();
        if proposal.executed {
            return Err(InvokeError::Contract(ContractError::AlreadyProcessed));
        }
        let threshold = match self.threshold {
            None => return Err(InvokeError::Contract(ContractError::NotFound)),
            Some(t) => t,
        };
        let high_value_limit = match self.high_value_limit {
            None => return Err(InvokeError::Contract(ContractError::NotFound)),
            Some(h) => h,
        };
        let sig_count = proposal.signatures.len() as u32;
        if let Err(e) = verify_threshold(sig_count, threshold, high_value_limit, proposal.value) {
            return Err(InvokeError::Contract(e));
        }
        let value = proposal.value;
        proposal.executed = true;
        self.proposals.replace_at(idx, proposal);
        self.publish(MultisigEvent::Executed { proposal_id: copy_vec(proposal_id), executor, value, sig_count });
        Ok(value)
    }

    /// Add a new signer (admin only).
    pub fn add_signer(&mut self, ctx: &Invocation, admin: Addr, new_signer: Addr) -> (r: Result<
        (),
        InvokeError<ContractError>,
    >)
        requires
            old(self).wf(),
            old(self)@.signers is Some ==> old(self)@.signers.unwrap().len() < u32::MAX,
        ensures
            final(self).wf(),
            (final(self)@, r) == add_signer_spec(old(self)@, *ctx, admin, new_signer),
    {
        if !ctx.has_authorized(admin) {
            return Err(InvokeError::MissingAuth(admin));
        }
        if let Err(e) = assert_is_admin(self.admin, admin) {
            return Err(InvokeError::Contract(e));
        }
        let mut signers = match &self.signers {
            None => return Err(InvokeError::Contract(ContractError::NotFound)),
            Some(s) => copy_vec(s),
        };
        if contains_addr(&signers, new_signer) {
            return Err(InvokeError::Contract(ContractError::AlreadyProcessed));
        }
        signers.push(new_signer);
        self.signers = Some(signers);
        self.publish(MultisigEvent::SignerAdded { signer: new_signer });
        Ok(())
    }

    /// Remove a signer (admin only). Refused with `BelowThreshold` when the
    /// remaining signers could no longer reach the threshold.
    pub fn remove_signer(&mut self, ctx: &Invocation, admin: Addr, signer: Addr) -> (r: Result<
        (),
        InvokeError<ContractError>,
    >)
        requires
            old(self).wf(),
        ensures
            final(self).wf(),
            (final(self)@, r) == remove_signer_spec(old(self)@, *ctx, admin, signer),
    {
        if !ctx.has_authorized(admin) {
            return Err(InvokeError::MissingAuth(admin));
        }
        if let Err(e) = assert_is_admin(self.admin, admin) {
            return Err(InvokeError::Contract(e));
        }
        let mut signers = match &self.signers {
            None => return Err(InvokeError::Contract(ContractError::NotFound)),
            Some(s) => copy_vec(s),
        };
        let threshold = match self.threshold {
            None => return Err(InvokeError::Contract(ContractError::NotFound)),
            Some(t) => t,
        };
        if ((signers.len() - 1) as u32) < threshold {
            return Err(InvokeError::Contract(ContractError::BelowThreshold));
        }
        proof {
            signers@.index_of_first_ensures(signer);
        }
        let idx = match first_index_of(&signers, signer) {
            None => return Err(InvokeError::Contract(ContractError::NotFound)),
            Some(i) => i,
        };
        proof {
            signers@.index_of_first_ensures(signer);
        }
        signers.remove(idx);
        self.signers = Some(signers);
        self.publish(MultisigEvent::SignerRemoved { signer });
        Ok(())
    }

    /// Update the threshold (admin only); it must be between 1 and the number
    /// of signers.
    pub fn set_threshold(&mut self, ctx: &Invocation, admin: Addr, new_threshold: u32) -> (r: Result<
        (),
        InvokeError<ContractError>,
    >)
        requires
            old(self).wf(),
        ensures
            final(self).wf(),
            (final(self)@, r) == set_threshold_spec(old(self)@, *ctx, admin, new_threshold),
    {
        if !ctx.has_authorized(admin) {
            return Err(InvokeError::MissingAuth(admin));
        }
        if let Err(e) = assert_is_admin(self.admin, admin) {
            return Err(InvokeError::Contract(e));
        }
        let signer_count = match &self.signers {
            None => return Err(InvokeError::Contract(ContractError::NotFound)),
            Some(s) => s.len(),
        };
        if new_threshold == 0 || new_threshold as usize > signer_count {
            return Err(InvokeError::Contract(ContractError::InvalidAmount));
        }
        self.threshold = Some(new_threshold);
        self.publish(MultisigEvent::ThresholdSet { threshold: new_threshold });
        Ok(())
    }

    /// The number of signatures a proposal of `value` needs.
    pub fn required_threshold_for(&self, value: i128) -> (r: Result<u32, ContractError>)
        ensures
            r == required_threshold_for_spec(self@, value),
    {
        let full_threshold = match self.threshold {
            None => return Err(ContractError::NotFound),
            Some(t) => t,
        };
        let high_value_limit = match self.high_value_limit {
            None => return Err(ContractError::NotFound),
            Some(h) => h,
        };
        Ok(required_threshold(full_threshold, high_value_limit, value))
    }

    /// (signature count, signatures required, executable) of a proposal.
    pub fn proposal_status(&self, proposal_id: &Vec<u8>) -> (r: Result<(u32, u32, bool), ContractError>)
        requires
            self.wf(),
        ensures
            r == proposal_status_spec(self@, proposal_id@),
    {
        let proposal = match self.proposals.get(proposal_id) {
            None => return Err(ContractError::NotFound),
            Some(p) => p,
        };
        let full_threshold = match self.threshold {
            None => return Err(ContractError::NotFound),
            Some(t) => t,
        };
        let high_value_limit = match self.high_value_limit {
            None => return Err(ContractError::NotFound),
            Some(h) => h,
        };
        let threshold = required_threshold(full_threshold, high_value_limit, proposal.value);
        let sig_count = proposal.signatures.len() as u32;
        Ok((sig_count, threshold, sig_count >= threshold && !proposal.executed))
    }

    /// Rebuild the authority from its stored record; `None` if the record
    /// could not have been written by the authority.
    pub fn from_record(rec: &MultisigRecord) -> (r: Option<Self>)
        ensures
            r is Some <==> record_ok(*rec),
            r matches Some(c) ==> c.wf() && c@ == record_model(*rec),
    {
        let configured = rec.threshold.is_some();
        if rec.signers.is_some() != configured || rec.high_value_limit.is_some() != configured
            || rec.admin.is_some() != configured {
            return None;
        }
        if let (Some(signers), Some(threshold), Some(limit)) = (&rec.signers, rec.threshold, rec.high_value_limit) {
            if signers.len() > 0xFFFF_FFFF || threshold == 0 || threshold as usize > signers.len() || limit < 0 {
                return None;
            }
        }
        let mut i: usize = 0;
        while i < rec.proposals.len()
            invariant
                0 <= i <= rec.proposals@.len(),
                forall|j: int|
                    0 <= j < i ==> {
                        &&& (#[trigger] rec.proposals@[j]).1@.id == rec.proposals@[j].0@
                        &&& rec.proposals@[j].1@.signatures.no_duplicates()
                        &&& 1 <= rec.proposals@[j].1@.signatures.len() <= u32::MAX
                    },
            decreases rec.proposals@.len() - i,
        {
            let (key, p) = (&rec.proposals[i].0, &rec.proposals[i].1);
            if !bytes_eq(&p.id, key) || p.signatures.len() == 0 || p.signatures.len() > 0xFFFF_FFFF
                || !all_distinct(&p.signatures) {
                proof {
                    if keys_distinct(rec.proposals@) {
                        lemma_entries_map(rec.proposals@);
                        let k = rec.proposals@[i as int].0@;
                        assert(record_model(*rec).proposals.contains_key(k));
                    }
                }
                return None;
            }
            i += 1;
        }
        let proposals = match Table::from_entries(&rec.proposals) {
            Some(t) => t,
            None => return None,
        };
        let signers = match &rec.signers {
            Some(l) => Some(copy_vec(l)),
            None => None,
        };
        let c = MultisigAuthority {
            admin: rec.admin,
            signers,
            threshold: rec.threshold,
            high_value_limit: rec.high_value_limit,
            proposals,
            events: Vec::new(),
        };
        proof {
            lemma_entries_map(rec.proposals@);
            assert forall|k: Seq<u8>| #[trigger] c@.proposals.contains_key(k) implies {
                &&& c@.proposals[k].id == k
                &&& c@.proposals[k].signatures.no_duplicates()
                &&& 1 <= c@.proposals[k].signatures.len() <= u32::MAX
            } by {
                let j = choose|j: int| 0 <= j < rec.proposals@.len() && rec.proposals@[j].0@ == k;
                assert(rec.proposals@[j].1@.id == rec.proposals@[j].0@);
            }
            assert(c@.events =~= Seq::<MultisigEventModel>::empty());
            assert(c@ == record_model(*rec));
        }
        Some(c)
    }

    /// The authority's storage as a record (events are not part of storage).
    pub fn to_record(&self) -> (rec: MultisigRecord)
        requires
            self.wf(),
        ensures
            record_ok(rec),
            record_model(rec) == (MultisigModel { events: Seq::empty(), ..self@ }),
    {
        let proposals = self.proposals.to_entries();
        let signers = match &self.signers {
            Some(l) => Some(copy_vec(l)),
            None => None,
        };
        let rec = MultisigRecord {
            admin: self.admin,
            signers,
            threshold: self.threshold,
            high_value_limit: self.high_value_limit,
            proposals,
        };
        assert(record_model(rec) == (MultisigModel { events: Seq::empty(), ..self@ }));
        rec
    }

    /// The current signer list (empty before initialisation).
    pub fn get_signers(&self) -> (r: Vec<Addr>)
        ensures
            r@ == (match self@.signers {
                Some(s) => s,
                None => Seq::<Addr>::empty(),
            }),
    {
        match &self.signers {
            Some(s) => copy_vec(s),
            None => Vec::new(),
        }
    }
}

// ── Laws ────────────────────────────────────────────────────────────────────

/// Law: an executed proposal can never be executed again nor collect more
/// signatures.
pub proof fn lemma_execute_is_final(
    m: MultisigModel,
    ctx: Invocation,
    executor: Addr,
    id: Seq<u8>,
    later: Invocation,
    who: Addr,
)
    requires
        m.inv(),
        execute_spec(m, ctx, executor, id).1 is Ok,
        later.authorizes(who),
        m.signers.unwrap().contains(who),
    ensures
        ({
            let m2 = execute_spec(m, ctx, executor, id).0;
            &&& execute_spec(m2, later, who, id).1 == Err::<i128, InvokeError<ContractError>>(
                InvokeError::Contract(ContractError::AlreadyProcessed),
            )
            &&& sign_spec(m2, later, who, id).1 == Err::<u32, InvokeError<ContractError>>(
                InvokeError::Contract(ContractError::AlreadyProcessed),
            )
        }),
{
}

/// Law: a proposal is executed only when its signatures meet the quorum for
/// its value under the configuration in force.
pub proof fn lemma_execute_meets_quorum(m: MultisigModel, ctx: Invocation, executor: Addr, id: Seq<u8>)
    requires
        m.inv(),
        execute_spec(m, ctx, executor, id).1 is Ok,
    ensures
        m.proposals.contains_key(id),
        !m.proposals[id].executed,
        m.proposals[id].signatures.len() >= m.quorum(m.proposals[id].value),
        execute_spec(m, ctx, executor, id).1 == Ok::<i128, InvokeError<ContractError>>(m.proposals[id].value),
{
}

/// Law: no signer can sign the same proposal twice.
pub proof fn lemma_no_double_signing(m: MultisigModel, ctx: Invocation, signer: Addr, id: Seq<u8>, later: Invocation)
    requires
        m.inv(),
        sign_spec(m, ctx, signer, id).1 is Ok,
        later.authorizes(signer),
    ensures
        sign_spec(sign_spec(m, ctx, signer, id).0, later, signer, id).1 == Err::<u32, InvokeError<ContractError>>(
            InvokeError::Contract(ContractError::AlreadyProcessed),
        ),
{
    let m2 = sign_spec(m, ctx, signer, id).0;
    let sigs = m2.proposals[id].signatures;
    assert(sigs[sigs.len() - 1] == signer);
    assert(sigs.contains(signer));
}

/// Law: the "executable" flag of `proposal_status` is exactly whether
/// `execute` would succeed for an authorised signer.
pub proof fn lemma_status_matches_execute(m: MultisigModel, ctx: Invocation, executor: Addr, id: Seq<u8>)
    requires
        m.inv(),
        m.proposals.contains_key(id),
        ctx.authorizes(executor),
        m.signers is Some,
        m.signers.unwrap().contains(executor),
    ensures
        proposal_status_spec(m, id) is Ok,
        proposal_status_spec(m, id)->Ok_0.2 <==> execute_spec(m, ctx, executor, id).1 is Ok,
{
}

/// Law: every reachable configuration keeps quorum reachable; a successful
/// `remove_signer` in particular leaves at least `threshold` signers.
pub proof fn lemma_remove_signer_keeps_quorum(m: MultisigModel, ctx: Invocation, admin: Addr, signer: Addr)
    requires
        m.inv(),
        remove_signer_spec(m, ctx, admin, signer).1 is Ok,
    ensures
        ({
            let m2 = remove_signer_spec(m, ctx, admin, signer).0;
            &&& m2.signers.unwrap().len() == m.signers.unwrap().len() - 1
            &&& m2.threshold.unwrap() <= m2.signers.unwrap().len()
        }),
{
    let s = m.signers.unwrap();
    s.index_of_first_ensures(signer);
}

/// Law: a new proposal reads back with its proposer's single signature,
/// not executed, under the quorum for its value.
pub proof fn lemma_propose_then_status(
    m: MultisigModel,
    ctx: Invocation,
    proposer: Addr,
    id: Seq<u8>,
    description: Seq<u8>,
    target: Addr,
    value: i128,
)
    requires
        m.inv(),
        propose_spec(m, ctx, proposer, id, description, target, value).1 is Ok,
    ensures
        ({
            let m2 = propose_spec(m, ctx, proposer, id, description, target, value).0;
            &&& m2.proposals[id].signatures == seq![proposer]
            &&& proposal_status_spec(m2, id) == Ok::<(u32, u32, bool), ContractError>(
                (1, m.quorum(value), 1 >= m.quorum(value)),
            )
        }),
{
}

/// Law: `init` only ever accepts a configuration whose quorum is reachable.
pub proof fn lemma_init_validates(
    m: MultisigModel,
    ctx: Invocation,
    admin: Addr,
    signers: Seq<Addr>,
    threshold: u32,
    high_value_limit: i128,
)
    requires
        init_spec(m, ctx, admin, signers, threshold, high_value_limit).1 is Ok,
    ensures
        1 <= threshold <= signers.len(),
        high_value_limit >= 0,
        init_spec(m, ctx, admin, signers, threshold, high_value_limit).0.proposals == Map::<
            Seq<u8>,
            ProposalModel,
        >::empty(),
{
}

/// Law: `remove_signer` succeeds exactly when the stored admin signed, the
/// authority is configured, the signer is on the list and at least
/// `threshold` signers would remain. It only takes that signer off the list:
/// the threshold, the high-value limit, the admin and the proposals never
/// change.
pub proof fn lemma_remove_signer_only_removes(m: MultisigModel, ctx: Invocation, admin: Addr, signer: Addr)
    ensures
        remove_signer_spec(m, ctx, admin, signer).1 is Ok <==> (ctx.authorizes(admin) && m.admin == Some(admin)
            && m.signers is Some && m.threshold is Some && m.signers.unwrap().len() > m.threshold.unwrap()
            && m.signers.unwrap().contains(signer)),
        remove_signer_spec(m, ctx, admin, signer).0.threshold == m.threshold,
        remove_signer_spec(m, ctx, admin, signer).0.high_value_limit == m.high_value_limit,
        remove_signer_spec(m, ctx, admin, signer).0.admin == m.admin,
        remove_signer_spec(m, ctx, admin, signer).0.proposals == m.proposals,
        remove_signer_spec(m, ctx, admin, signer).1 is Ok ==> remove_signer_spec(m, ctx, admin, signer).0.signers
            == Some(m.signers.unwrap().remove_value(signer)),
        remove_signer_spec(m, ctx, admin, signer).1 is Err ==> remove_signer_spec(m, ctx, admin, signer).0 == m,
{
}

/// Law: removing a signer never changes the quorum any value needs.
pub proof fn lemma_remove_signer_keeps_required_threshold(
    m: MultisigModel,
    ctx: Invocation,
    admin: Addr,
    signer: Addr,
    value: i128,
)
    ensures
        required_threshold_for_spec(remove_signer_spec(m, ctx, admin, signer).0, value)
            == required_threshold_for_spec(m, value),
{
    lemma_remove_signer_only_removes(m, ctx, admin, signer);
}

/// Law: `set_threshold(t)` succeeds exactly when the stored admin signed, the
/// signers are configured and `1 <= t <= #signers`, whether `t` is above,
/// equal to or below the current threshold; it then makes `t` the threshold
/// and changes nothing else but the event log.
pub proof fn lemma_set_threshold_sets(m: MultisigModel, ctx: Invocation, admin: Addr, t: u32)
    ensures
        set_threshold_spec(m, ctx, admin, t).1 is Ok <==> (ctx.authorizes(admin) && m.admin == Some(admin)
            && m.signers is Some && 1 <= t && t <= m.signers.unwrap().len()),
        set_threshold_spec(m, ctx, admin, t).1 is Ok ==> set_threshold_spec(m, ctx, admin, t).0.threshold == Some(t),
        set_threshold_spec(m, ctx, admin, t).1 is Err ==> set_threshold_spec(m, ctx, admin, t).0 == m,
        set_threshold_spec(m, ctx, admin, t).0.signers == m.signers,
        set_threshold_spec(m, ctx, admin, t).0.high_value_limit == m.high_value_limit,
        set_threshold_spec(m, ctx, admin, t).0.admin == m.admin,
        set_threshold_spec(m, ctx, admin, t).0.proposals == m.proposals,
{
}

} // verus!
