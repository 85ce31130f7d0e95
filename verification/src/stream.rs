//! What a unit sends over a run of events, and the rules that every run
//! keeps: in a slot a unit signs once, aggregates once, and is silent once it
//! has aggregated.

use crate::cubesat::{CubesatView, EventView, ReactionView};
use crate::{CommitType, CommitView};
use vstd::prelude::*;

verus! {

/// The number of individual commits in `stream`.
pub open spec fn individual_count(stream: Seq<CommitView>) -> nat {
    stream.filter(|c: CommitView| !c.aggregated).len()
}

/// The number of aggregated commits in `stream`.
pub open spec fn aggregated_count(stream: Seq<CommitView>) -> nat {
    stream.filter(|c: CommitView| c.aggregated).len()
}

/// Whether `events` lie within one slot: none of them starts a slot.
pub open spec fn within_slot(events: Seq<EventView>) -> bool {
    forall|k: int| 0 <= k < events.len() ==> !(#[trigger] events[k] is SlotTick)
}

/// A run of a unit over a sequence of events.
#[verifier::ext_equal]
pub struct Run {
    /// The unit after the run.
    pub unit: CubesatView,
    /// Everything that the unit sent, in order.
    pub outbound: Seq<CommitView>,
    /// How many third phase boundaries the unit passed.
    pub boundaries: nat,
    /// Whether the unit was told to stop.
    pub stopped: bool,
}

/// The run of `unit` over `events`, handled one after the other up to the
/// first that stops the unit.
pub open spec fn run(unit: CubesatView, events: Seq<EventView>) -> Run
    decreases events.len(),
{
    if events.len() == 0 {
        Run { unit, outbound: Seq::empty(), boundaries: 0, stopped: false }
    } else {
        let (after, reaction) = unit.handle(events[0]);
        if reaction.stop {
            Run { unit: after, outbound: reaction.emitted, boundaries: 0, stopped: true }
        } else {
            let rest = run(after, events.drop_first());
            Run {
                unit: rest.unit,
                outbound: reaction.emitted + rest.outbound,
                boundaries: rest.boundaries + if events[0] is Phase3Tick {
                    1nat
                } else {
                    0nat
                },
                stopped: rest.stopped,
            }
        }
    }
}

impl Run {
    /// The run that goes on with `next` where `self` ends.
    pub open spec fn followed_by(self, next: Run) -> Run {
        Run {
            unit: next.unit,
            outbound: self.outbound + next.outbound,
            boundaries: self.boundaries + next.boundaries,
            stopped: next.stopped,
        }
    }
}

/// 1 where a flag went from unset to set, else 0.
pub open spec fn raised(before: bool, after: bool) -> nat {
    if !before && after {
        1
    } else {
        0
    }
}

proof fn lemma_counts_of_empty()
    ensures
        individual_count(Seq::empty()) == 0,
        aggregated_count(Seq::empty()) == 0,
{
    reveal_with_fuel(Seq::filter, 1);
}

proof fn lemma_counts_of_one(c: CommitView)
    ensures
        individual_count(seq![c]) == if c.aggregated { 0nat } else { 1nat },
        aggregated_count(seq![c]) == if c.aggregated { 1nat } else { 0nat },
{
    reveal_with_fuel(Seq::filter, 2);
    assert(seq![c].drop_last() =~= Seq::<CommitView>::empty());
    assert(seq![c].last() == c);
}

proof fn lemma_counts_of_concat(a: Seq<CommitView>, b: Seq<CommitView>)
    ensures
        individual_count(a + b) == individual_count(a) + individual_count(b),
        aggregated_count(a + b) == aggregated_count(a) + aggregated_count(b),
{
    Seq::filter_distributes_over_add(a, b, |c: CommitView| !c.aggregated);
    Seq::filter_distributes_over_add(a, b, |c: CommitView| c.aggregated);
}

/// What follows the first of the events of a slot lies within that slot.
proof fn lemma_rest_within_slot(events: Seq<EventView>)
    requires
        within_slot(events),
        events.len() > 0,
    ensures
        within_slot(events.drop_first()),
{
    let rest = events.drop_first();
    assert forall|k: int| 0 <= k < rest.len() implies !(#[trigger] rest[k] is SlotTick) by {
        assert(rest[k] == events[k + 1]);
    }
}

/// What one event within a slot sends, against what it does to the two flags.
proof fn lemma_step(unit: CubesatView, event: EventView)
    requires
        !(event is SlotTick),
    ensures
        ({
            let (after, reaction) = unit.handle(event);
            &&& unit.slot.signed ==> after.slot.signed
            &&& unit.slot.aggregated ==> after.slot.aggregated
            &&& individual_count(reaction.emitted) == raised(unit.slot.signed, after.slot.signed)
                + if event is Phase3Tick { 1nat } else { 0nat }
            &&& aggregated_count(reaction.emitted) <= raised(
                unit.slot.aggregated,
                after.slot.aggregated,
            )
            &&& unit.slot.aggregated ==> reaction.emitted.len() == if event is Phase3Tick {
                1nat
            } else {
                0nat
            }
            &&& reaction.stop ==> reaction.emitted.len() == 0 && !(event is Phase3Tick)
        }),
{
    let (after, reaction) = unit.handle(event);
    lemma_counts_of_empty();
    if reaction.emitted.len() > 0 {
        assert(reaction.emitted =~= seq![reaction.emitted[0]]);
        lemma_counts_of_one(reaction.emitted[0]);
    } else {
        assert(reaction.emitted =~= Seq::empty());
    }
}

/// In a slot a unit signs at most once: over any run of events within one
/// slot, the individual commits that the unit sends are one boundary noncommit
/// for each third phase boundary that it passes, and one commit more exactly
/// if it went from unsigned to signed. A unit that has signed stays signed.
pub proof fn lemma_signs_once_per_slot(unit: CubesatView, events: Seq<EventView>)
    requires
        within_slot(events),
    ensures
        individual_count(run(unit, events).outbound) == run(unit, events).boundaries + raised(
            unit.slot.signed,
            run(unit, events).unit.slot.signed,
        ),
        individual_count(run(unit, events).outbound) <= run(unit, events).boundaries + 1,
        unit.slot.signed ==> run(unit, events).unit.slot.signed,
    decreases events.len(),
{
    if events.len() == 0 {
        lemma_counts_of_empty();
    } else {
        let (after, reaction) = unit.handle(events[0]);
        lemma_step(unit, events[0]);
        if !reaction.stop {
            let rest = events.drop_first();
            lemma_rest_within_slot(events);
            lemma_signs_once_per_slot(after, rest);
            lemma_counts_of_concat(reaction.emitted, run(after, rest).outbound);
        }
    }
}

/// Once a unit has seen or made the aggregated commit of its slot, it stays
/// so for the rest of the slot and sends nothing in answer to any commit or
/// aggregate: all that it sends is one individual noncommit under its own key
/// for each third phase boundary that it passes.
pub proof fn lemma_silent_once_aggregated(unit: CubesatView, events: Seq<EventView>)
    requires
        within_slot(events),
        unit.slot.aggregated,
    ensures
        run(unit, events).unit.slot.aggregated,
        run(unit, events).outbound.len() == run(unit, events).boundaries,
        aggregated_count(run(unit, events).outbound) == 0,
        forall|k: int|
            0 <= k < run(unit, events).outbound.len() ==> {
                let sent = #[trigger] run(unit, events).outbound[k];
                &&& sent.typ == CommitType::Noncommit
                &&& !sent.aggregated
                &&& sent.public_key == unit.public_key
            },
    decreases events.len(),
{
    if events.len() == 0 {
        lemma_counts_of_empty();
    } else {
        let (after, reaction) = unit.handle(events[0]);
        lemma_step(unit, events[0]);
        if !reaction.stop {
            let rest = events.drop_first();
            lemma_rest_within_slot(events);
            lemma_silent_once_aggregated(after, rest);
            lemma_counts_of_concat(reaction.emitted, run(after, rest).outbound);
        }
    }
}

/// A run over two stretches of events is the run over the first, followed,
/// unless that stopped the unit, by the run over the second from where the
/// first left the unit.
pub proof fn lemma_run_splits(unit: CubesatView, first: Seq<EventView>, second: Seq<EventView>)
    ensures
        run(unit, first + second) == if run(unit, first).stopped {
            run(unit, first)
        } else {
            run(unit, first).followed_by(run(run(unit, first).unit, second))
        },
    decreases first.len(),
{
    if first.len() == 0 {
        assert(first + second =~= second);
        assert(run(unit, first).followed_by(run(unit, second)) =~= run(unit, second));
    } else {
        let (after, reaction) = unit.handle(first[0]);
        assert((first + second)[0] == first[0]);
        assert((first + second).drop_first() =~= first.drop_first() + second);
        if !reaction.stop {
            lemma_run_splits(after, first.drop_first(), second);
            let head = run(after, first.drop_first());
            if !head.stopped {
                let tail = run(head.unit, second);
                assert(run(unit, first + second) =~= run(unit, first).followed_by(tail));
            }
        }
    }
}

/// Nothing follows the aggregation of a slot: where a run has left the unit
/// aggregated, whatever the unit sends over the rest of the slot comes after
/// what it had sent, and is one individual noncommit for each third phase
/// boundary that it still passes.
pub proof fn lemma_nothing_after_aggregation(
    unit: CubesatView,
    before: Seq<EventView>,
    after: Seq<EventView>,
)
    requires
        within_slot(after),
        !run(unit, before).stopped,
        run(unit, before).unit.slot.aggregated,
    ensures
        ({
            let head = run(unit, before);
            let tail = run(head.unit, after);
            let whole = run(unit, before + after);
            &&& whole.outbound == head.outbound + tail.outbound
            &&& whole.unit.slot.aggregated
            &&& tail.outbound.len() == tail.boundaries
            &&& aggregated_count(tail.outbound) == 0
        }),
{
    lemma_run_splits(unit, before, after);
    lemma_silent_once_aggregated(run(unit, before).unit, after);
}

/// In a slot a unit sends at most one aggregated commit, and only when it goes
/// from not aggregated to aggregated. A unit that has aggregated stays so.
pub proof fn lemma_aggregates_once_per_slot(unit: CubesatView, events: Seq<EventView>)
    requires
        within_slot(events),
    ensures
        aggregated_count(run(unit, events).outbound) <= raised(
            unit.slot.aggregated,
            run(unit, events).unit.slot.aggregated,
        ),
        aggregated_count(run(unit, events).outbound) <= 1,
        unit.slot.aggregated ==> run(unit, events).unit.slot.aggregated,
    decreases events.len(),
{
    if events.len() == 0 {
        lemma_counts_of_empty();
    } else {
        let (after, reaction) = unit.handle(events[0]);
        lemma_step(unit, events[0]);
        if !reaction.stop {
            let rest = events.drop_first();
            lemma_rest_within_slot(events);
            lemma_aggregates_once_per_slot(after, rest);
            lemma_counts_of_concat(reaction.emitted, run(after, rest).outbound);
        }
    }
}

/// A collection that reaches the supermajority finalizes the slot: where the
/// reaction to an inbound commit names a quorum, the quorum holds at least the
/// threshold of entries, the last of them the commit just recorded, and the
/// aggregate over it, whatever it is, is accepted. The unit then sends the
/// recorded commit under the aggregated key and signature, marked as
/// aggregated, and takes its current slot, which is the slot of the commit,
/// as the last finalized one.
pub proof fn lemma_quorum_finalizes(
    unit: CubesatView,
    commit: CommitView,
    signature: Option<Seq<u8>>,
    aggregate_signature: Seq<u8>,
    aggregate_public_key: Seq<u8>,
)
    requires
        unit.process(commit, signature).1.quorum is Some,
    ensures
        ({
            let (recorded, reaction) = unit.process(commit, signature);
            let quorum = reaction.quorum->0;
            let (after, sealed) = recorded.conclude(
                quorum.commit,
                aggregate_signature,
                aggregate_public_key,
            );
            &&& quorum.commit.typ == commit.typ
            &&& quorum.commit.i == commit.i
            &&& quorum.commit.j == commit.j
            &&& quorum.commit.msg == commit.msg
            &&& quorum.signatures.len() == quorum.public_keys.len()
            &&& quorum.signatures.len() >= unit.threshold()
            &&& quorum.signatures.last() == quorum.commit.signature
            &&& quorum.public_keys.last() == quorum.commit.public_key
            &&& sealed == Some(quorum.commit.sealed(aggregate_public_key, aggregate_signature))
            &&& after.slot.signed
            &&& after.slot.aggregated
            &&& commit.i == unit.slot.i
            &&& after.slot.j == unit.slot.i
            &&& after.slot.i == unit.slot.i
        }),
{
}

/// Whether `unit` holds, in one of its two collections, a commit under its
/// own key.
pub open spec fn holds_own_entry(unit: CubesatView) -> bool {
    ||| exists|k: int|
        0 <= k < unit.slot.precommits.len() && (#[trigger] unit.slot.precommits[k]).public_key
            == unit.public_key
    ||| exists|k: int|
        0 <= k < unit.slot.noncommits.len() && (#[trigger] unit.slot.noncommits[k]).public_key
            == unit.public_key
}

/// Whether the unit's part in the slot is on record: a unit that has signed
/// holds a commit under its own key.
pub open spec fn participation_recorded(unit: CubesatView) -> bool {
    unit.slot.signed ==> holds_own_entry(unit)
}

proof fn lemma_step_records_participation(unit: CubesatView, event: EventView)
    requires
        participation_recorded(unit),
    ensures
        participation_recorded(unit.handle(event).0),
{
    let after = unit.handle(event).0;
    if after.slot.signed {
        if unit.slot.signed {
            if exists|k: int|
                0 <= k < unit.slot.precommits.len() && (#[trigger] unit.slot.precommits[k]).public_key
                    == unit.public_key {
                let k = choose|k: int|
                    0 <= k < unit.slot.precommits.len() && (
                    #[trigger] unit.slot.precommits[k]).public_key == unit.public_key;
                assert(after.slot.precommits[k].public_key == after.public_key);
            } else {
                let k = choose|k: int|
                    0 <= k < unit.slot.noncommits.len() && (
                    #[trigger] unit.slot.noncommits[k]).public_key == unit.public_key;
                assert(after.slot.noncommits[k].public_key == after.public_key);
            }
        } else {
            match event {
                EventView::Inbound { commit, own_signature } => {
                    match commit.typ {
                        CommitType::Precommit => {
                            let k = after.slot.precommits.len() - 1;
                            assert(after.slot.precommits[k].public_key == after.public_key);
                        },
                        CommitType::Noncommit => {
                            let k = after.slot.noncommits.len() - 1;
                            assert(after.slot.noncommits[k].public_key == after.public_key);
                        },
                    }
                },
                _ => {},
            }
        }
    }
}

/// A unit that has signed in a slot holds its own commit: where this is so
/// before a run, as it is of a unit that has not signed, it is so after it,
/// whatever the events.
pub proof fn lemma_participation_is_recorded(unit: CubesatView, events: Seq<EventView>)
    requires
        participation_recorded(unit),
    ensures
        participation_recorded(run(unit, events).unit),
    decreases events.len(),
{
    if events.len() > 0 {
        let (after, reaction) = unit.handle(events[0]);
        lemma_step_records_participation(unit, events[0]);
        if !reaction.stop {
            lemma_participation_is_recorded(after, events.drop_first());
        }
    }
}

/// The two slot indices move only with the slot clock and with aggregation: a
/// slot tick moves the current slot one further and leaves the last finalized
/// slot alone, and no other event changes either index unless it takes the
/// unit from not aggregated to aggregated.
pub proof fn lemma_indices_move_only_on_tick_or_aggregation(unit: CubesatView, event: EventView)
    ensures
        ({
            let after = unit.handle(event).0;
            &&& event is SlotTick ==> after.slot.j == unit.slot.j
            &&& event is SlotTick && unit.slot.i < u32::MAX ==> after.slot.i == unit.slot.i + 1
            &&& !(event is SlotTick) && (after.slot.i != unit.slot.i || after.slot.j
                != unit.slot.j) ==> !unit.slot.aggregated && after.slot.aggregated
            &&& after.id == unit.id
            &&& after.config == unit.config
            &&& after.public_key == unit.public_key
            &&& after.private_key == unit.private_key
        }),
{
}

/// Whatever a unit sends is its own or aggregated: every individual commit in
/// what a run sends is under the unit's own key.
pub proof fn lemma_sends_own_or_aggregated(unit: CubesatView, events: Seq<EventView>)
    ensures
        run(unit, events).unit.public_key == unit.public_key,
        forall|k: int|
            0 <= k < run(unit, events).outbound.len() ==> {
                let sent = #[trigger] run(unit, events).outbound[k];
                sent.aggregated || sent.public_key == unit.public_key
            },
    decreases events.len(),
{
    if events.len() > 0 {
        let (after, reaction) = unit.handle(events[0]);
        if !reaction.stop {
            lemma_sends_own_or_aggregated(after, events.drop_first());
        }
    }
}

/// An individual commit about another slot than the current one changes
/// nothing and has nothing sent, whether it comes in from the hub or comes
/// back with an aggregate; the unit wants no signature for it.
pub proof fn lemma_other_slot_is_ignored(
    unit: CubesatView,
    commit: CommitView,
    own_signature: Option<Seq<u8>>,
    signature: Seq<u8>,
    public_key: Seq<u8>,
)
    requires
        !commit.aggregated,
        commit.i != unit.slot.i,
    ensures
        !unit.wants_signature(commit),
        unit.handle(EventView::Inbound { commit, own_signature }) == (
            unit,
            ReactionView::nothing(),
        ),
        unit.handle(EventView::Aggregated { commit, signature, public_key }) == (
            unit,
            ReactionView::nothing(),
        ),
{
}

/// Whether a unit that has not finalized its slot holds only commits about
/// that slot.
pub open spec fn collects_current_slot_only(unit: CubesatView) -> bool {
    !unit.slot.aggregated ==> {
        &&& forall|k: int|
            0 <= k < unit.slot.precommits.len() ==> (#[trigger] unit.slot.precommits[k]).i
                == unit.slot.i
        &&& forall|k: int|
            0 <= k < unit.slot.noncommits.len() ==> (#[trigger] unit.slot.noncommits[k]).i
                == unit.slot.i
    }
}

/// As long as a unit has not finalized its slot, the commits that it holds
/// are about that slot: where this is so before a run, as it is of a unit
/// that holds nothing, it is so after it, whatever the events.
pub proof fn lemma_collects_current_slot_only(unit: CubesatView, events: Seq<EventView>)
    requires
        collects_current_slot_only(unit),
    ensures
        collects_current_slot_only(run(unit, events).unit),
    decreases events.len(),
{
    if events.len() > 0 {
        let (after, reaction) = unit.handle(events[0]);
        assert(collects_current_slot_only(after));
        if !reaction.stop {
            lemma_collects_current_slot_only(after, events.drop_first());
        }
    }
}

} // verus!
