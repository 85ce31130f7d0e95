//! The unit and its slot state.

use crate::keys::PRIVATE_KEY_LEN;
use crate::notice::{noncommit_message, noncommit_message_spec};
use crate::{supermajority, supermajority_spec};
use crate::{BounceConfig, Commit, CommitType, CommitView, ConfigError};
use vstd::prelude::*;

verus! {

/// Where a unit stands within its slot.
#[derive(Clone, Copy, Debug, PartialEq, Eq, Structural)]
pub enum Phase {
    Stop,
    First,
    Second,
    Third,
}

/// What a unit knows of the current slot.
#[derive(Debug)]
pub struct SlotInfo {
    /// Index of the current slot.
    pub i: u32,
    /// Index of the last finalized slot.
    pub j: u32,
    pub phase: Phase,
    /// Whether the unit has signed a commit of its own in this slot.
    pub signed: bool,
    /// Whether the unit has seen or made an aggregated commit in this slot.
    pub aggregated: bool,
    /// The individual precommits collected in this slot, in order of arrival.
    pub precommits: Vec<Commit>,
    /// The individual noncommits collected in this slot, in order of arrival.
    pub noncommits: Vec<Commit>,
}

/// A slot state as a mathematical value.
#[verifier::ext_equal]
pub struct SlotInfoView {
    pub i: u32,
    pub j: u32,
    pub phase: Phase,
    pub signed: bool,
    pub aggregated: bool,
    pub precommits: Seq<CommitView>,
    pub noncommits: Seq<CommitView>,
}

impl View for SlotInfo {
    type V = SlotInfoView;

    open spec fn view(&self) -> SlotInfoView {
        SlotInfoView {
            i: self.i,
            j: self.j,
            phase: self.phase,
            signed: self.signed,
            aggregated: self.aggregated,
            precommits: self.precommits.deep_view(),
            noncommits: self.noncommits.deep_view(),
        }
    }
}

impl Phase {
    /// Whether a unit in this phase takes up individual commits of kind `typ`:
    /// precommits in the first two phases, noncommits in the last two.
    pub open spec fn takes_up_spec(self, typ: CommitType) -> bool {
        match self {
            Phase::Stop => false,
            Phase::First => typ == CommitType::Precommit,
            Phase::Second => true,
            Phase::Third => typ == CommitType::Noncommit,
        }
    }

    /// Tells whether a unit in this phase takes up individual commits of kind
    /// `typ`.
    #[verifier::when_used_as_spec(takes_up_spec)]
    pub fn takes_up(self, typ: CommitType) -> (r: bool)
        ensures
            r == self.takes_up_spec(typ),
    {
        match self {
            Phase::Stop => false,
            Phase::First => typ == CommitType::Precommit,
            Phase::Second => true,
            Phase::Third => typ == CommitType::Noncommit,
        }
    }
}

impl SlotInfoView {
    /// The state of a unit that has not started: slot 0, nothing finalized.
    pub open spec fn initial() -> SlotInfoView {
        SlotInfoView {
            i: 0,
            j: 0,
            phase: Phase::Stop,
            signed: false,
            aggregated: false,
            precommits: Seq::empty(),
            noncommits: Seq::empty(),
        }
    }

    /// The state at the start of the slot after `self`.
    pub open spec fn next(self) -> SlotInfoView {
        SlotInfoView {
            i: (self.i + 1) as u32,
            j: self.j,
            phase: Phase::First,
            signed: false,
            aggregated: false,
            precommits: Seq::empty(),
            noncommits: Seq::empty(),
        }
    }

    /// The commits of kind `typ` collected so far.
    pub open spec fn collected(self, typ: CommitType) -> Seq<CommitView> {
        match typ {
            CommitType::Precommit => self.precommits,
            CommitType::Noncommit => self.noncommits,
        }
    }

    /// The state after the unit has signed, if it had not, and has put `c` at
    /// the end of the collection of its kind.
    pub open spec fn record(self, c: CommitView) -> SlotInfoView {
        match c.typ {
            CommitType::Precommit => SlotInfoView {
                signed: true,
                precommits: self.precommits.push(c),
                ..self
            },
            CommitType::Noncommit => SlotInfoView {
                signed: true,
                noncommits: self.noncommits.push(c),
                ..self
            },
        }
    }

    /// The state after an aggregated commit for slot `i`, whose sender last
    /// saw slot `j` finalized, has been taken over.
    pub open spec fn adopt(self, i: u32, j: u32) -> SlotInfoView {
        SlotInfoView { aggregated: true, i, j, ..self }
    }

    /// The state after the unit has itself finalized slot `i`.
    pub open spec fn finalize(self, i: u32) -> SlotInfoView {
        SlotInfoView { aggregated: true, j: i, ..self }
    }
}

/// A copy of `commits`, in order.
fn clone_commits(commits: &Vec<Commit>) -> (copy: Vec<Commit>)
    ensures
        copy.deep_view() == commits.deep_view(),
{
    let mut copy: Vec<Commit> = Vec::new();
    let mut k: usize = 0;
    while k < commits.len()
        invariant
            k <= commits@.len(),
            copy@.len() == k,
            forall|m: int| 0 <= m < k ==> (#[trigger] copy@[m])@ == commits@[m]@,
        decreases commits@.len() - k,
    {
        copy.push(commits[k].clone());
        k += 1;
    }
    assert(copy.deep_view() =~= commits.deep_view());
    copy
}

impl Clone for SlotInfo {
    fn clone(&self) -> (r: Self)
        ensures
            r@ == self@,
    {
        SlotInfo {
            i: self.i,
            j: self.j,
            phase: self.phase,
            signed: self.signed,
            aggregated: self.aggregated,
            precommits: clone_commits(&self.precommits),
            noncommits: clone_commits(&self.noncommits),
        }
    }
}

impl SlotInfo {
    /// The slot state of a unit that has not started.
    pub fn new() -> (s: Self)
        ensures
            s@ == SlotInfoView::initial(),
    {
        Self {
            i: 0,
            j: 0,
            phase: Phase::Stop,
            signed: false,
            aggregated: false,
            precommits: Vec::new(),
            noncommits: Vec::new(),
        }
    }

    /// Moves to the next slot: one index further, first phase, nothing signed,
    /// aggregated or collected. The last finalized slot stays.
    pub fn next(&mut self)
        requires
            old(self).i < u32::MAX,
        ensures
            final(self)@ == old(self)@.next(),
            final(self).i == old(self).i + 1,
            final(self).j == old(self).j,
            final(self).phase == Phase::First,
            !final(self).signed,
            !final(self).aggregated,
            final(self).precommits@.len() == 0,
            final(self).noncommits@.len() == 0,
    {
        self.i += 1;
        self.phase = Phase::First;
        self.signed = false;
        self.aggregated = false;
        self.precommits.clear();
        self.noncommits.clear();
    }
}

/// Orders that the enclosing process gives a unit.
#[derive(Clone, Copy, Debug, PartialEq, Eq, Structural)]
pub enum Command {
    /// Stop handling events.
    Terminate,
}

/// Why a unit cannot be built.
#[derive(Clone, Copy, Debug, PartialEq, Eq, Structural)]
pub enum StartError {
    /// The configuration is refused.
    Config(ConfigError),
    /// The private key does not have `PRIVATE_KEY_LEN` bytes.
    KeyLength,
}

/// The views of byte strings held in a vector, in order.
pub open spec fn byte_strings(v: Seq<Vec<u8>>) -> Seq<Seq<u8>> {
    Seq::new(v.len(), |k: int| v[k]@)
}

/// The view of a byte string that may be absent.
pub open spec fn optional_bytes(o: Option<Vec<u8>>) -> Option<Seq<u8>> {
    match o {
        Some(v) => Some(v@),
        None => None,
    }
}

/// The signatures that `commits` carry, in order.
pub open spec fn signatures_of(commits: Seq<CommitView>) -> Seq<Seq<u8>> {
    Seq::new(commits.len(), |k: int| commits[k].signature)
}

/// The public keys that `commits` carry, in order.
pub open spec fn public_keys_of(commits: Seq<CommitView>) -> Seq<Seq<u8>> {
    Seq::new(commits.len(), |k: int| commits[k].public_key)
}

/// A collection that has reached the supermajority: the commit that completed
/// it, and what is to be aggregated, in order of arrival.
#[derive(Debug)]
pub struct Quorum {
    pub commit: Commit,
    pub signatures: Vec<Vec<u8>>,
    pub public_keys: Vec<Vec<u8>>,
}

/// A quorum as a mathematical value.
#[verifier::ext_equal]
pub struct QuorumView {
    pub commit: CommitView,
    pub signatures: Seq<Seq<u8>>,
    pub public_keys: Seq<Seq<u8>>,
}

impl View for Quorum {
    type V = QuorumView;

    open spec fn view(&self) -> QuorumView {
        QuorumView {
            commit: self.commit@,
            signatures: byte_strings(self.signatures@),
            public_keys: byte_strings(self.public_keys@),
        }
    }
}

/// What a unit answers to an event.
#[derive(Debug)]
pub struct Reaction {
    /// The commits to send to the hub, in order.
    pub emitted: Vec<Commit>,
    /// A collection to aggregate, whose result is handed back as
    /// `Event::Aggregated`.
    pub quorum: Option<Quorum>,
    /// Whether the unit is to stop handling events.
    pub stop: bool,
}

/// A reaction as a mathematical value.
#[verifier::ext_equal]
pub struct ReactionView {
    pub emitted: Seq<CommitView>,
    pub quorum: Option<QuorumView>,
    pub stop: bool,
}

impl View for Reaction {
    type V = ReactionView;

    open spec fn view(&self) -> ReactionView {
        ReactionView {
            emitted: self.emitted.deep_view(),
            quorum: match self.quorum {
                Some(q) => Some(q@),
                None => None,
            },
            stop: self.stop,
        }
    }
}

impl ReactionView {
    /// Nothing to send, nothing to aggregate, no stop.
    pub open spec fn nothing() -> ReactionView {
        ReactionView { emitted: Seq::empty(), quorum: None, stop: false }
    }

    /// Only `commits` to send.
    pub open spec fn sending(commits: Seq<CommitView>) -> ReactionView {
        ReactionView { emitted: commits, quorum: None, stop: false }
    }

    /// Only the order to stop.
    pub open spec fn stopping() -> ReactionView {
        ReactionView { emitted: Seq::empty(), quorum: None, stop: true }
    }
}

/// What a unit is woken by: a tick of the slot clock, a commit from the hub,
/// the result of an aggregation that it asked for, or a word from the
/// enclosing process.
#[derive(Debug)]
pub enum Event {
    /// A slot begins.
    SlotTick,
    /// The second phase begins.
    Phase2Tick,
    /// The third phase begins; `signature` is the unit's signature over its
    /// `boundary_message`.
    Phase3Tick { signature: Vec<u8> },
    /// The hub delivers `commit`; `own_signature` is the unit's signature over
    /// the message of `commit`, where the unit `wants_signature`.
    Inbound { commit: Commit, own_signature: Option<Vec<u8>> },
    /// The signatures and public keys of the quorum that `commit` completed
    /// have been aggregated.
    Aggregated { commit: Commit, signature: Vec<u8>, public_key: Vec<u8> },
    /// The enclosing process gives an order.
    Control(Command),
    /// The enclosing process has hung up.
    ControlClosed,
}

/// An event as a mathematical value.
#[verifier::ext_equal]
pub enum EventView {
    SlotTick,
    Phase2Tick,
    Phase3Tick { signature: Seq<u8> },
    Inbound { commit: CommitView, own_signature: Option<Seq<u8>> },
    Aggregated { commit: CommitView, signature: Seq<u8>, public_key: Seq<u8> },
    Control(Command),
    ControlClosed,
}

impl View for Event {
    type V = EventView;

    open spec fn view(&self) -> EventView {
        match *self {
            Event::SlotTick => EventView::SlotTick,
            Event::Phase2Tick => EventView::Phase2Tick,
            Event::Phase3Tick { signature } => EventView::Phase3Tick { signature: signature@ },
            Event::Inbound { commit, own_signature } => EventView::Inbound {
                commit: commit@,
                own_signature: optional_bytes(own_signature),
            },
            Event::Aggregated { commit, signature, public_key } => EventView::Aggregated {
                commit: commit@,
                signature: signature@,
                public_key: public_key@,
            },
            Event::Control(command) => EventView::Control(command),
            Event::ControlClosed => EventView::ControlClosed,
        }
    }
}

/// A signing unit: its configuration, its keys and its slot state.
#[derive(Debug)]
pub struct Cubesat {
    pub id: usize,
    pub bounce_config: BounceConfig,
    pub slot_info: SlotInfo,
    pub public_key: Vec<u8>,
    pub private_key: Vec<u8>,
}

/// A unit as a mathematical value.
#[verifier::ext_equal]
pub struct CubesatView {
    pub id: usize,
    pub config: BounceConfig,
    pub slot: SlotInfoView,
    pub public_key: Seq<u8>,
    pub private_key: Seq<u8>,
}

impl View for Cubesat {
    type V = CubesatView;

    open spec fn view(&self) -> CubesatView {
        CubesatView {
            id: self.id,
            config: self.bounce_config,
            slot: self.slot_info@,
            public_key: self.public_key@,
            private_key: self.private_key@,
        }
    }
}

impl CubesatView {
    /// The unit with another slot state.
    pub open spec fn with_slot(self, slot: SlotInfoView) -> CubesatView {
        CubesatView { slot, ..self }
    }

    /// The number of matching commits that finalizes a slot.
    pub open spec fn threshold(self) -> nat {
        supermajority_spec(self.config.num_cubesats as nat)
    }

    /// Whether the unit takes over the aggregated commit `c`: it has not
    /// finalized its slot and it has started.
    pub open spec fn adopts(self, c: CommitView) -> bool {
        &&& c.aggregated
        &&& !self.slot.aggregated
        &&& self.slot.phase != Phase::Stop
    }

    /// Whether the unit takes up the individual commit `c`: the commit is
    /// about the unit's current slot, the unit has not finalized that slot,
    /// and its phase takes commits of that kind.
    pub open spec fn takes_up(self, c: CommitView) -> bool {
        &&& !c.aggregated
        &&& c.i == self.slot.i
        &&& !self.slot.aggregated
        &&& self.slot.phase.takes_up_spec(c.typ)
    }

    /// Whether the unit would sign `c`: it takes `c` up and has not signed in
    /// this slot.
    pub open spec fn wants_signature(self, c: CommitView) -> bool {
        self.takes_up(c) && !self.slot.signed
    }

    /// What is to be aggregated once `c` has completed its collection, if the
    /// collection of the kind of `c` has reached the threshold.
    pub open spec fn quorum(self, c: CommitView) -> Option<QuorumView> {
        let held = self.slot.collected(c.typ);
        if held.len() >= self.threshold() {
            Some(
                QuorumView {
                    commit: c,
                    signatures: signatures_of(held),
                    public_keys: public_keys_of(held),
                },
            )
        } else {
            None
        }
    }

    /// The unit after an inbound commit `c`, and its reaction. `signature` is
    /// the unit's own signature over the message of `c`, where it has one.
    ///
    /// An aggregated commit is taken over, whatever slot it is about. An
    /// individual commit that the unit takes up is recorded: if the unit has
    /// not signed in this slot, it first puts its own key and signature on the
    /// commit and sends it, and without a signature it leaves the commit
    /// aside. Everything else is ignored, an individual commit about another
    /// slot than the current one among it.
    pub open spec fn process(self, c: CommitView, signature: Option<Seq<u8>>) -> (
        CubesatView,
        ReactionView,
    ) {
        if self.adopts(c) {
            (self.with_slot(self.slot.adopt(c.i, c.j)), ReactionView::nothing())
        } else if !self.takes_up(c) {
            (self, ReactionView::nothing())
        } else if self.slot.signed {
            let after = self.with_slot(self.slot.record(c));
            (after, ReactionView { emitted: Seq::empty(), quorum: after.quorum(c), stop: false })
        } else {
            match signature {
                None => (self, ReactionView::nothing()),
                Some(sig) => {
                    let mine = c.signed_by(self.public_key, sig);
                    let after = self.with_slot(self.slot.record(mine));
                    (
                        after,
                        ReactionView { emitted: seq![mine], quorum: after.quorum(mine), stop: false },
                    )
                },
            }
        }
    }

    /// The unit after the aggregate over the collection that `c` completed has
    /// come back, and the aggregated commit that it sends, if it still takes
    /// `c` up and the collection has the threshold. The slot that it finalizes
    /// is then its current one.
    pub open spec fn conclude(self, c: CommitView, signature: Seq<u8>, public_key: Seq<u8>) -> (
        CubesatView,
        Option<CommitView>,
    ) {
        if self.takes_up(c) && self.slot.collected(c.typ).len() >= self.threshold() {
            (self.with_slot(self.slot.finalize(c.i)), Some(c.sealed(public_key, signature)))
        } else {
            (self, None)
        }
    }

    /// The noncommit that the unit sends at the third phase boundary, signed
    /// with `signature`.
    pub open spec fn boundary_noncommit(self, signature: Seq<u8>) -> CommitView {
        CommitView {
            typ: CommitType::Noncommit,
            i: self.slot.i,
            j: self.slot.j,
            msg: noncommit_message_spec(self.slot.j, self.slot.i),
            public_key: self.public_key,
            signature,
            aggregated: false,
        }
    }

    /// The unit in another phase of the same slot.
    pub open spec fn in_phase(self, phase: Phase) -> CubesatView {
        self.with_slot(SlotInfoView { phase, ..self.slot })
    }

    /// The unit after `event`, and its reaction.
    ///
    /// A slot tick starts the next slot and a second phase tick the second
    /// phase. A third phase tick starts the third phase and sends the boundary
    /// noncommit. An inbound commit is processed, an aggregate concluded. The
    /// order to terminate, or the loss of the control channel, stops the unit.
    pub open spec fn handle(self, event: EventView) -> (CubesatView, ReactionView) {
        match event {
            EventView::SlotTick => (self.with_slot(self.slot.next()), ReactionView::nothing()),
            EventView::Phase2Tick => (self.in_phase(Phase::Second), ReactionView::nothing()),
            EventView::Phase3Tick { signature } => (
                self.in_phase(Phase::Third),
                ReactionView::sending(seq![self.boundary_noncommit(signature)]),
            ),
            EventView::Inbound { commit, own_signature } => self.process(commit, own_signature),
            EventView::Aggregated { commit, signature, public_key } => {
                let (after, sealed) = self.conclude(commit, signature, public_key);
                (
                    after,
                    ReactionView::sending(
                        match sealed {
                            Some(c) => seq![c],
                            None => Seq::empty(),
                        },
                    ),
                )
            },
            EventView::Control(Command::Terminate) => (self, ReactionView::stopping()),
            EventView::ControlClosed => (self, ReactionView::stopping()),
        }
    }
}

impl Cubesat {
    /// Why `new` refuses a configuration or a private key of `key_len` bytes,
    /// if it does: the configuration is looked at first.
    pub open spec fn start_spec(bounce_config: BounceConfig, key_len: nat) -> Result<
        (),
        StartError,
    > {
        match bounce_config.check_spec() {
            Err(e) => Err(StartError::Config(e)),
            Ok(_) => if key_len != PRIVATE_KEY_LEN {
                Err(StartError::KeyLength)
            } else {
                Ok(())
            },
        }
    }

    /// Builds a unit that has not started, with its key pair.
    pub fn new(
        id: usize,
        bounce_config: BounceConfig,
        private_key: Vec<u8>,
        public_key: Vec<u8>,
    ) -> (r: Result<Cubesat, StartError>)
        ensures
            match r {
                Ok(unit) => {
                    &&& Self::start_spec(bounce_config, private_key@.len()) is Ok
                    &&& bounce_config.valid()
                    &&& unit@ == (CubesatView {
                        id,
                        config: bounce_config,
                        slot: SlotInfoView::initial(),
                        public_key: public_key@,
                        private_key: private_key@,
                    })
                },
                Err(e) => Self::start_spec(bounce_config, private_key@.len()) == Err::<
                    (),
                    StartError,
                >(e),
            },
    {
        match bounce_config.check() {
            Err(e) => Err(StartError::Config(e)),
            Ok(_) => {
                if private_key.len() != PRIVATE_KEY_LEN {
                    Err(StartError::KeyLength)
                } else {
                    Ok(
                        Cubesat {
                            id,
                            bounce_config,
                            slot_info: SlotInfo::new(),
                            public_key,
                            private_key,
                        },
                    )
                }
            },
        }
    }

    /// The signatures and the public keys of `commits`, each in the order of
    /// `commits`: what the aggregation of a collection takes.
    pub fn aggregate_inputs(commits: &Vec<Commit>) -> (r: (Vec<Vec<u8>>, Vec<Vec<u8>>))
        ensures
            byte_strings(r.0@) == signatures_of(commits.deep_view()),
            byte_strings(r.1@) == public_keys_of(commits.deep_view()),
    {
        let mut signatures: Vec<Vec<u8>> = Vec::new();
        let mut public_keys: Vec<Vec<u8>> = Vec::new();
        let mut k: usize = 0;
        while k < commits.len()
            invariant
                k <= commits@.len(),
                signatures@.len() == k,
                public_keys@.len() == k,
                forall|m: int| 0 <= m < k ==> (#[trigger] signatures@[m])@ == commits@[m].signature@,
                forall|m: int| 0 <= m < k ==> (#[trigger] public_keys@[m])@ == commits@[m].public_key@,
            decreases commits@.len() - k,
        {
            signatures.push(commits[k].signature.clone());
            public_keys.push(commits[k].public_key.clone());
            k += 1;
        }
        assert(byte_strings(signatures@) =~= signatures_of(commits.deep_view()));
        assert(byte_strings(public_keys@) =~= public_keys_of(commits.deep_view()));
        (signatures, public_keys)
    }
}

impl Cubesat {
    /// Sets the phase: at the start of a run the first, at the second phase
    /// boundary the second.
    pub fn enter(&mut self, phase: Phase)
        ensures
            final(self)@ == old(self)@.in_phase(phase),
    {
        self.slot_info.phase = phase;
    }

    /// Starts the next slot.
    pub fn next_slot(&mut self)
        requires
            old(self).slot_info.i < u32::MAX,
        ensures
            final(self)@ == old(self)@.with_slot(old(self)@.slot.next()),
    {
        self.slot_info.next();
    }

    /// Tells whether `process` would sign `commit`, so that the caller signs
    /// its message only where the signature is used.
    pub fn wants_signature(&self, commit: &Commit) -> (r: bool)
        ensures
            r == self@.wants_signature(commit@),
    {
        !commit.aggregated && commit.i == self.slot_info.i && !self.slot_info.aggregated
            && !self.slot_info.signed && self.slot_info.phase.takes_up(commit.typ)
    }

    /// The commits of kind `typ` collected in this slot.
    pub fn collected(&self, typ: CommitType) -> (held: &Vec<Commit>)
        ensures
            held.deep_view() == self@.slot.collected(typ),
    {
        match typ {
            CommitType::Precommit => &self.slot_info.precommits,
            CommitType::Noncommit => &self.slot_info.noncommits,
        }
    }

    /// Puts `commit` at the end of the collection of its kind and marks the
    /// unit as having signed.
    fn record(&mut self, commit: Commit)
        ensures
            final(self)@ == old(self)@.with_slot(old(self)@.slot.record(commit@)),
    {
        self.slot_info.signed = true;
        match commit.typ {
            CommitType::Precommit => {
                self.slot_info.precommits.push(commit);
                assert(self.slot_info.precommits.deep_view() =~= old(
                    self,
                ).slot_info.precommits.deep_view().push(commit@));
            },
            CommitType::Noncommit => {
                self.slot_info.noncommits.push(commit);
                assert(self.slot_info.noncommits.deep_view() =~= old(
                    self,
                ).slot_info.noncommits.deep_view().push(commit@));
            },
        }
    }

    /// What is to be aggregated, if the collection of the kind of `commit`
    /// has reached the supermajority.
    fn quorum(&self, commit: Commit) -> (r: Option<Quorum>)
        ensures
            match r {
                Some(q) => Some(q@),
                None => None,
            } == self@.quorum(commit@),
    {
        let held = self.collected(commit.typ);
        if held.len() >= supermajority(self.bounce_config.num_cubesats) {
            let (signatures, public_keys) = Self::aggregate_inputs(held);
            Some(Quorum { commit, signatures, public_keys })
        } else {
            None
        }
    }

    /// Handles an inbound commit. `signature` is the unit's own signature over
    /// `commit.msg`; it is used only where `wants_signature` holds.
    ///
    /// Once the slot is finalized, and before the unit has started, nothing
    /// happens. An aggregated commit finalizes the slot: the unit takes over
    /// its `i` and `j`. An individual commit about another slot than the
    /// current one, or of a kind that the phase does not take, is ignored: the
    /// unit stays as it is and sends nothing. Any other commit is recorded; if
    /// the unit has not signed in this slot, it first replaces key and
    /// signature by its own, sends that commit and records it in place of the
    /// inbound one. Where the collection then holds a supermajority, the
    /// reaction names what is to be aggregated.
    pub fn process(&mut self, commit: Commit, signature: Option<Vec<u8>>) -> (r: Reaction)
        ensures
            (final(self)@, r@) == old(self)@.process(commit@, optional_bytes(signature)),
            r.emitted@.len() == old(self)@.process(
                commit@,
                optional_bytes(signature),
            ).1.emitted.len(),
            old(self).slot_info.aggregated ==> final(self)@ == old(self)@,
            !commit.aggregated && commit.i != old(self).slot_info.i ==> final(self)@ == old(self)@
                && r.emitted@.len() == 0 && r.quorum is None,
            old(self).slot_info.aggregated || old(self).slot_info.signed ==> r.emitted@.len() == 0,
            r.emitted@.len() <= 1,
            !r.stop,
    {
        let mut emitted: Vec<Commit> = Vec::new();
        assert(emitted.deep_view() =~= Seq::<CommitView>::empty());
        if self.slot_info.aggregated {
            return Reaction { emitted, quorum: None, stop: false };
        }
        if commit.aggregated {
            match self.slot_info.phase {
                Phase::Stop => {},
                _ => {
                    self.slot_info.aggregated = true;
                    self.slot_info.i = commit.i;
                    self.slot_info.j = commit.j;
                },
            }
            return Reaction { emitted, quorum: None, stop: false };
        }
        if commit.i != self.slot_info.i || !self.slot_info.phase.takes_up(commit.typ) {
            return Reaction { emitted, quorum: None, stop: false };
        }
        let mut commit = commit;
        if !self.slot_info.signed {
            match signature {
                None => {
                    return Reaction { emitted, quorum: None, stop: false };
                },
                Some(own) => {
                    commit.signature = own;
                    commit.public_key = self.public_key.clone();
                    emitted.push(commit.clone());
                    assert(emitted.deep_view() =~= seq![commit@]);
                },
            }
        }
        self.record(commit.clone());
        let quorum = self.quorum(commit);
        Reaction { emitted, quorum, stop: false }
    }

    /// Finalizes the slot with the aggregate over the collection that
    /// `commit` completed, and gives the aggregated commit to send: `commit`
    /// with the aggregated key and signature. Nothing happens, and nothing is
    /// sent, where the unit does not take `commit` up, as where it is about
    /// another slot, or the collection of its kind is below the supermajority.
    pub fn conclude(&mut self, commit: Commit, signature: Vec<u8>, public_key: Vec<u8>) -> (r:
        Option<Commit>)
        ensures
            (
                final(self)@,
                match r {
                    Some(c) => Some(c@),
                    None => None,
                },
            ) == old(self)@.conclude(commit@, signature@, public_key@),
    {
        if commit.aggregated || commit.i != self.slot_info.i || self.slot_info.aggregated
            || !self.slot_info.phase.takes_up(commit.typ) {
            return None;
        }
        if self.collected(commit.typ).len() < supermajority(self.bounce_config.num_cubesats) {
            return None;
        }
        let mut commit = commit;
        commit.signature = signature;
        commit.public_key = public_key;
        commit.aggregated = true;
        self.slot_info.aggregated = true;
        self.slot_info.j = commit.i;
        Some(commit)
    }

    /// The message that the unit signs at the third phase boundary.
    pub fn boundary_message(&self) -> (msg: Vec<u8>)
        ensures
            msg@ == noncommit_message_spec(self.slot_info.j, self.slot_info.i),
    {
        noncommit_message(self.slot_info.j, self.slot_info.i)
    }

    /// Enters the third phase and gives the noncommit to send: an individual
    /// noncommit for the current slot over `boundary_message`, under the
    /// unit's key and `signature`. It is sent whatever the unit has signed or
    /// finalized in this slot, and it is not recorded.
    pub fn third_phase(&mut self, signature: Vec<u8>) -> (notice: Commit)
        ensures
            final(self)@ == old(self)@.in_phase(Phase::Third),
            notice@ == old(self)@.boundary_noncommit(signature@),
    {
        self.slot_info.phase = Phase::Third;
        Commit {
            typ: CommitType::Noncommit,
            i: self.slot_info.i,
            j: self.slot_info.j,
            msg: self.boundary_message(),
            public_key: self.public_key.clone(),
            signature,
            aggregated: false,
        }
    }
}

impl Cubesat {
    /// Handles one event of the unit's loop and says what to send, what to
    /// aggregate and whether to stop. The caller sends `emitted` in order,
    /// aggregates `quorum` where there is one and hands the result back as
    /// `Event::Aggregated` before it takes the next event.
    pub fn handle(&mut self, event: Event) -> (r: Reaction)
        requires
            event is SlotTick ==> old(self).slot_info.i < u32::MAX,
        ensures
            (final(self)@, r@) == old(self)@.handle(event@),
            r.emitted@.len() == old(self)@.handle(event@).1.emitted.len(),
    {
        match event {
            Event::SlotTick => {
                self.next_slot();
                Reaction::sending(Vec::new())
            },
            Event::Phase2Tick => {
                self.enter(Phase::Second);
                Reaction::sending(Vec::new())
            },
            Event::Phase3Tick { signature } => {
                let notice = self.third_phase(signature);
                let mut emitted: Vec<Commit> = Vec::new();
                emitted.push(notice);
                Reaction::sending(emitted)
            },
            Event::Inbound { commit, own_signature } => self.process(commit, own_signature),
            Event::Aggregated { commit, signature, public_key } => {
                let mut emitted: Vec<Commit> = Vec::new();
                match self.conclude(commit, signature, public_key) {
                    Some(sealed) => {
                        emitted.push(sealed);
                    },
                    None => {},
                }
                Reaction::sending(emitted)
            },
            Event::Control(Command::Terminate) => Reaction {
                emitted: Vec::new(),
                quorum: None,
                stop: true,
            },
            Event::ControlClosed => Reaction { emitted: Vec::new(), quorum: None, stop: true },
        }
    }
}

impl Reaction {
    /// The reaction that only sends `emitted`.
    pub fn sending(emitted: Vec<Commit>) -> (r: Reaction)
        ensures
            r@ == ReactionView::sending(emitted.deep_view()),
            r.emitted == emitted,
            r.quorum is None,
            !r.stop,
    {
        Reaction { emitted, quorum: None, stop: false }
    }
}

} // verus!
