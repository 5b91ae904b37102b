//! The double-buffer pool: two slots for the particle state and two for the
//! trail field, and the rule that picks a stage's read and write slot from the
//! parity of the frame.

use vstd::prelude::*;

verus! {

/// Number of slots kept of every double-buffered resource.
pub const SLOT_COUNT: usize = 2;

/// The four stages of a frame, in the order in which they run.
#[derive(Clone, Copy, Debug, PartialEq, Eq, Structural)]
pub enum Stage {
    /// Moves the particles and deposits into the trail field.
    Particle,
    /// Fades the trail field.
    Decay,
    /// Blurs the trail field.
    Diffuse,
    /// Draws the trail field to the presentation surface.
    Render,
}

/// The slots that one stage touches in one dispatch.
#[derive(Clone, Copy, Debug, PartialEq, Eq)]
pub struct Slots {
    /// Slot the stage reads.
    pub read: usize,
    /// Slot the stage writes; `None` for a stage that writes no slot.
    pub write: Option<usize>,
}

/// The two slots of one double-buffered resource. While one is read the
/// other is written; which is which follows from the stage and the parity
/// of the frame.
#[derive(Debug, PartialEq, Eq)]
pub struct DoubleBuffer<T> {
    /// Slot 0.
    pub first: T,
    /// Slot 1.
    pub second: T,
}

impl<T> View for DoubleBuffer<T> {
    type V = Seq<T>;

    open spec fn view(&self) -> Seq<T> {
        seq![self.first, self.second]
    }
}

/// Parity of a frame index: 0 for even frames, 1 for odd ones.
pub open spec fn parity(frame: nat) -> nat {
    frame % 2
}

/// The slot that is not `slot`.
pub open spec fn other_slot(slot: usize) -> usize {
    if slot == 0 {
        1
    } else {
        0
    }
}

/// The slot a stage reads at a given parity.
pub open spec fn read_slot(stage: Stage, parity: usize) -> usize {
    match stage {
        Stage::Particle | Stage::Diffuse => parity,
        Stage::Decay | Stage::Render => other_slot(parity),
    }
}

/// The slot a stage writes at a given parity, if it writes one.
pub open spec fn write_slot(stage: Stage, parity: usize) -> Option<usize> {
    match stage {
        Stage::Particle | Stage::Diffuse => Some(other_slot(parity)),
        Stage::Decay => Some(parity),
        Stage::Render => None,
    }
}

/// Read and write slot of a stage at a given parity.
pub open spec fn spec_slots_for(stage: Stage, parity: usize) -> Slots {
    Slots { read: read_slot(stage, parity), write: write_slot(stage, parity) }
}

/// Parity of the frame with index `frame_num`.
pub fn frame_parity(frame_num: usize) -> (p: usize)
    ensures
        p == parity(frame_num as nat),
        p < SLOT_COUNT,
{
    frame_num % 2
}

/// The slots `stage` reads and writes in a frame of the given parity.
pub fn slots_for(stage: Stage, parity: usize) -> (slots: Slots)
    requires
        parity < SLOT_COUNT,
    ensures
        slots == spec_slots_for(stage, parity),
        slots.read < SLOT_COUNT,
        slots.write matches Some(w) ==> w < SLOT_COUNT && w != slots.read,
{
    let flipped: usize = 1 - parity;
    match stage {
        Stage::Particle => Slots { read: parity, write: Some(flipped) },
        Stage::Decay => Slots { read: flipped, write: Some(parity) },
        Stage::Diffuse => Slots { read: parity, write: Some(flipped) },
        Stage::Render => Slots { read: flipped, write: None },
    }
}

impl<T> DoubleBuffer<T> {
    /// A double buffer of the two given slots.
    pub fn new(first: T, second: T) -> (pool: DoubleBuffer<T>)
        ensures
            pool@ == seq![first, second],
    {
        DoubleBuffer { first, second }
    }

    /// The slot with the given index.
    pub fn slot(&self, index: usize) -> (item: &T)
        requires
            index < SLOT_COUNT,
        ensures
            *item == self@[index as int],
    {
        if index == 0 {
            &self.first
        } else {
            &self.second
        }
    }

    /// The slot that `stage` reads in a frame of the given parity.
    pub fn read_of(&self, stage: Stage, parity: usize) -> (item: &T)
        requires
            parity < SLOT_COUNT,
        ensures
            *item == self@[read_slot(stage, parity) as int],
    {
        self.slot(slots_for(stage, parity).read)
    }

    /// The slot that `stage` writes in a frame of the given parity, if it
    /// writes one; it is never the slot that the stage reads.
    pub fn write_of(&self, stage: Stage, parity: usize) -> (item: Option<&T>)
        requires
            parity < SLOT_COUNT,
        ensures
            match write_slot(stage, parity) {
                Some(w) => item == Some(&self@[w as int]) && w != read_slot(stage, parity),
                None => item is None,
            },
    {
        match slots_for(stage, parity).write {
            Some(w) => Some(self.slot(w)),
            None => None,
        }
    }
}

/// Consecutive frames have opposite parity.
pub proof fn lemma_parity_alternates(frame: nat)
    ensures
        parity(frame) < 2,
        parity(frame + 1) == 1 - parity(frame),
{
}

/// No stage writes the slot it reads, whatever the parity.
pub proof fn lemma_no_read_write_hazard(stage: Stage, parity: usize)
    requires
        parity < SLOT_COUNT,
    ensures
        read_slot(stage, parity) < SLOT_COUNT,
        write_slot(stage, parity) matches Some(w) ==> w < SLOT_COUNT && w != read_slot(
            stage,
            parity,
        ),
{
}

/// Within a frame every stage reads what the stage before it wrote: decay
/// reads the particle stage's deposit, diffuse reads what decay wrote, and
/// render samples what diffuse wrote. Without decay and diffuse, render
/// samples the particle stage's deposit.
pub proof fn lemma_stage_chain(parity: usize)
    requires
        parity < SLOT_COUNT,
    ensures
        write_slot(Stage::Particle, parity) == Some(read_slot(Stage::Decay, parity)),
        write_slot(Stage::Decay, parity) == Some(read_slot(Stage::Diffuse, parity)),
        write_slot(Stage::Diffuse, parity) == Some(read_slot(Stage::Render, parity)),
        write_slot(Stage::Particle, parity) == Some(read_slot(Stage::Render, parity)),
{
}

/// What one frame leaves in its final slot is what the particle stage of the
/// next frame reads.
pub proof fn lemma_frames_hand_over(frame: nat)
    ensures
        read_slot(Stage::Particle, parity(frame + 1) as usize) == read_slot(
            Stage::Render,
            parity(frame) as usize,
        ),
{
}

} // verus!
