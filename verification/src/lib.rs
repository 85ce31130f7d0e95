//! A committee of signing units that settles, slot by slot, on one aggregated
//! decision. This crate holds the slot state machine of a single unit: what it
//! signs, what it records, when a supermajority finalizes the slot, and what
//! it hands to the hub. Signing and aggregation themselves are done by the
//! caller, which passes their results in as plain bytes.

use vstd::prelude::*;

pub mod cubesat;
pub mod keys;
pub mod notice;
pub mod stream;

pub use crate::cubesat::{
    Command, Cubesat, Event, Phase, Quorum, Reaction, SlotInfo, StartError,
};
pub use crate::keys::generate_private_key;

verus! {

/// Timing and size of the committee, in seconds and units.
#[derive(Clone, Copy, Debug, PartialEq, Eq, Structural)]
pub struct BounceConfig {
    pub num_cubesats: usize,
    pub slot_duration: u64,
    pub phase1_duration: u64,
    pub phase2_duration: u64,
}

/// Why a configuration is refused.
#[derive(Clone, Copy, Debug, PartialEq, Eq, Structural)]
pub enum ConfigError {
    /// The committee has no unit.
    EmptyCommittee,
    /// A slot lasts no time.
    ZeroSlotDuration,
    /// The first two phases leave no time for the third.
    PhasesFillSlot,
}

impl BounceConfig {
    /// The first reason to refuse `self`, if there is one: an empty committee
    /// comes before a zero slot, and that before phases that fill the slot.
    pub open spec fn check_spec(self) -> Result<(), ConfigError> {
        if self.num_cubesats == 0 {
            Err(ConfigError::EmptyCommittee)
        } else if self.slot_duration == 0 {
            Err(ConfigError::ZeroSlotDuration)
        } else if self.phase1_duration + self.phase2_duration >= self.slot_duration {
            Err(ConfigError::PhasesFillSlot)
        } else {
            Ok(())
        }
    }

    /// A configuration that a unit can be started with.
    pub open spec fn valid(self) -> bool {
        &&& self.num_cubesats >= 1
        &&& self.slot_duration > 0
        &&& self.phase1_duration + self.phase2_duration < self.slot_duration
    }

    /// Checks the committee size and the three durations.
    pub fn check(&self) -> (r: Result<(), ConfigError>)
        ensures
            r == self.check_spec(),
            r is Ok <==> self.valid(),
    {
        if self.num_cubesats == 0 {
            Err(ConfigError::EmptyCommittee)
        } else if self.slot_duration == 0 {
            Err(ConfigError::ZeroSlotDuration)
        } else if self.phase1_duration >= self.slot_duration || self.phase2_duration
            >= self.slot_duration - self.phase1_duration {
            Err(ConfigError::PhasesFillSlot)
        } else {
            Ok(())
        }
    }

    /// Seconds from the start of a slot to the start of its second phase.
    pub fn phase2_offset(&self) -> (secs: u64)
        ensures
            secs == self.phase1_duration,
    {
        self.phase1_duration
    }

    /// Seconds from the start of a slot to the start of its third phase.
    pub fn phase3_offset(&self) -> (secs: u64)
        requires
            self.valid(),
        ensures
            secs == self.phase1_duration + self.phase2_duration,
            secs < self.slot_duration,
    {
        self.phase1_duration + self.phase2_duration
    }

    /// Seconds that the third phase lasts.
    pub fn phase3_duration(&self) -> (secs: u64)
        requires
            self.valid(),
        ensures
            secs == self.slot_duration - self.phase1_duration - self.phase2_duration,
            secs > 0,
    {
        self.slot_duration - self.phase1_duration - self.phase2_duration
    }
}

/// What a commit certifies for its slot.
#[derive(Clone, Copy, Debug, PartialEq, Eq, Structural)]
pub enum CommitType {
    /// A client's message was acknowledged.
    Precommit,
    /// No message was certified.
    Noncommit,
}

/// A signed statement about slot `i`, by one unit or, once `aggregated`, by a
/// supermajority of them.
#[derive(Debug)]
pub struct Commit {
    pub typ: CommitType,
    /// The slot that the commit is about.
    pub i: u32,
    /// The last finalized slot that its sender knew of.
    pub j: u32,
    pub msg: Vec<u8>,
    pub public_key: Vec<u8>,
    pub signature: Vec<u8>,
    pub aggregated: bool,
}

/// A commit as a mathematical value.
#[verifier::ext_equal]
pub struct CommitView {
    pub typ: CommitType,
    pub i: u32,
    pub j: u32,
    pub msg: Seq<u8>,
    pub public_key: Seq<u8>,
    pub signature: Seq<u8>,
    pub aggregated: bool,
}

impl View for Commit {
    type V = CommitView;

    open spec fn view(&self) -> CommitView {
        CommitView {
            typ: self.typ,
            i: self.i,
            j: self.j,
            msg: self.msg@,
            public_key: self.public_key@,
            signature: self.signature@,
            aggregated: self.aggregated,
        }
    }
}

impl DeepView for Commit {
    type V = CommitView;

    open spec fn deep_view(&self) -> CommitView {
        self@
    }
}

impl Clone for Commit {
    fn clone(&self) -> (r: Self)
        ensures
            r@ == self@,
    {
        Commit {
            typ: self.typ,
            i: self.i,
            j: self.j,
            msg: self.msg.clone(),
            public_key: self.public_key.clone(),
            signature: self.signature.clone(),
            aggregated: self.aggregated,
        }
    }
}

impl Commit {
    /// What the commit certifies.
    pub fn typ(&self) -> (t: CommitType)
        ensures
            t == self.typ,
    {
        self.typ
    }
}

impl CommitView {
    /// `self` signed anew: the same statement under another key and signature.
    pub open spec fn signed_by(self, public_key: Seq<u8>, signature: Seq<u8>) -> CommitView {
        CommitView { public_key, signature, ..self }
    }

    /// The aggregated commit that finalizes the slot of `self`.
    pub open spec fn sealed(self, public_key: Seq<u8>, signature: Seq<u8>) -> CommitView {
        CommitView { public_key, signature, aggregated: true, ..self }
    }
}

/// The least number of matching commits that finalizes a slot in a committee
/// of `n` units: the least count strictly above two thirds of `n`.
pub open spec fn supermajority_spec(n: nat) -> nat {
    2 * n / 3 + 1
}

/// Computes the supermajority threshold of a committee of `n` units.
pub fn supermajority(n: usize) -> (t: usize)
    ensures
        t == supermajority_spec(n as nat),
{
    let thirds: usize = n / 3;
    let rest: usize = n % 3;
    thirds * 2 + rest * 2 / 3 + 1
}

/// The threshold is strictly more than two thirds of the committee, no smaller
/// count is, and it never asks for more units than the committee has, but for
/// the empty committee.
pub proof fn lemma_supermajority_least_above_two_thirds(n: nat)
    ensures
        3 * supermajority_spec(n) > 2 * n,
        3 * (supermajority_spec(n) - 1) <= 2 * n,
        n >= 1 ==> 1 <= supermajority_spec(n) <= n,
{
}

/// Two thirds of `n`, rounded up.
pub open spec fn two_thirds_ceil(n: nat) -> nat {
    (2 * n + 2) / 3
}

/// Where the committee divides into three equal parts, the threshold is one
/// more than two thirds of it, rounded up.
pub proof fn lemma_supermajority_of_thirds(n: nat)
    requires
        n % 3 == 0,
    ensures
        supermajority_spec(n) == two_thirds_ceil(n) + 1,
{
    let q = n / 3;
    assert(n == 3 * q);
    assert(2 * n == 3 * (2 * q));
    assert(2 * n / 3 == 2 * q);
    assert((2 * n + 2) / 3 == 2 * q);
}

} // verus!
