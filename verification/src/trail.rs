//! A model of what the two trail slots hold from frame to frame, told by
//! post-processing generation: the frame whose diffuse pass last shaped the
//! content of a slot. The kernels are opaque, so this follows the bindings
//! only: a stage's output carries on the generation of the trail it read,
//! and a diffuse pass starts a new one.

use crate::frame::{frame_stages, spec_frame_passes, spec_pass, Pass};
use crate::pool::{parity, read_slot, write_slot, Stage, SLOT_COUNT};
use vstd::prelude::*;

verus! {

/// The generation of each trail slot: `None` for content that no diffuse
/// pass has shaped, as in the zero-initialized field.
pub struct TrailField {
    pub slots: Seq<Option<nat>>,
}

impl TrailField {
    /// There is one generation for each slot.
    pub open spec fn wf(self) -> bool {
        self.slots.len() == SLOT_COUNT
    }

    /// The field as it is allocated: no slot has seen a diffuse pass.
    pub open spec fn blank() -> TrailField {
        TrailField { slots: seq![None, None] }
    }

    /// The field after one stage ran in frame `frame` with the bind group
    /// of `parity`.
    pub open spec fn after_stage(self, stage: Stage, parity: usize, frame: nat) -> TrailField {
        match write_slot(stage, parity) {
            Some(w) => TrailField {
                slots: self.slots.update(
                    w as int,
                    if stage == Stage::Diffuse {
                        Some(frame)
                    } else {
                        self.slots[read_slot(stage, parity) as int]
                    },
                ),
            },
            None => self,
        }
    }

    /// The field after the given stages ran in order, all in frame `frame`
    /// with the bind groups of `parity`.
    pub open spec fn after_stages(self, stages: Seq<Stage>, parity: usize, frame: nat) -> TrailField
        decreases stages.len(),
    {
        if stages.len() == 0 {
            self
        } else {
            self.after_stage(stages[0], parity, frame).after_stages(
                stages.drop_first(),
                parity,
                frame,
            )
        }
    }

    /// The field after the given passes ran in order, all in frame `frame`,
    /// each with the bind group it names.
    pub open spec fn after_passes(self, passes: Seq<Pass>, frame: nat) -> TrailField
        decreases passes.len(),
    {
        if passes.len() == 0 {
            self
        } else {
            self.after_stage(passes[0].stage, passes[0].bind_group, frame).after_passes(
                passes.drop_first(),
                frame,
            )
        }
    }

    /// The field after frame `frame` ran.
    pub open spec fn after_frame(self, frame: nat, post_enabled: bool) -> TrailField {
        self.after_stages(frame_stages(post_enabled), parity(frame) as usize, frame)
    }

    /// The generation that the render stage of frame `frame` samples, for a
    /// field taken after the compute stages of that frame.
    pub open spec fn sampled(self, frame: nat) -> Option<nat> {
        self.slots[read_slot(Stage::Render, parity(frame) as usize) as int]
    }
}

/// Running the passes of stages with the bind groups of one parity is
/// running those stages at that parity.
pub proof fn lemma_passes_run_their_stages(
    field: TrailField,
    stages: Seq<Stage>,
    parity: usize,
    frame: nat,
    particle_groups: u32,
    screen_groups: (u32, u32),
)
    ensures
        field.after_passes(
            stages.map_values(
                |stage: Stage| spec_pass(stage, parity, particle_groups, screen_groups),
            ),
            frame,
        ) == field.after_stages(stages, parity, frame),
    decreases stages.len(),
{
    let pass_of = |stage: Stage| spec_pass(stage, parity, particle_groups, screen_groups);
    let passes = stages.map_values(pass_of);
    if stages.len() > 0 {
        assert(passes.drop_first() =~= stages.drop_first().map_values(pass_of));
        lemma_passes_run_their_stages(
            field.after_stage(stages[0], parity, frame),
            stages.drop_first(),
            parity,
            frame,
            particle_groups,
            screen_groups,
        );
    }
}

/// The passes that the orchestrator plans for a frame do to the field what
/// the frame is said to do, whatever the sizes of the dispatches.
pub proof fn lemma_plan_runs_the_frame(
    field: TrailField,
    frame: nat,
    post_enabled: bool,
    particle_groups: u32,
    screen_groups: (u32, u32),
)
    ensures
        field.after_passes(
            spec_frame_passes(
                post_enabled,
                parity(frame) as usize,
                particle_groups,
                screen_groups,
            ),
            frame,
        ) == field.after_frame(frame, post_enabled),
{
    lemma_passes_run_their_stages(
        field,
        frame_stages(post_enabled),
        parity(frame) as usize,
        frame,
        particle_groups,
        screen_groups,
    );
}

/// What a frame does to the field, stage by stage: without post-processing
/// only the particle stage writes; with it decay and diffuse follow.
pub proof fn lemma_after_frame_unfolds(field: TrailField, frame: nat, post_enabled: bool)
    requires
        field.wf(),
    ensures
        field.after_frame(frame, post_enabled).wf(),
        !post_enabled ==> field.after_frame(frame, post_enabled) == field.after_stage(
            Stage::Particle,
            parity(frame) as usize,
            frame,
        ),
        post_enabled ==> field.after_frame(frame, post_enabled) == field.after_stage(
            Stage::Particle,
            parity(frame) as usize,
            frame,
        ).after_stage(Stage::Decay, parity(frame) as usize, frame).after_stage(
            Stage::Diffuse,
            parity(frame) as usize,
            frame,
        ),
{
    let p = parity(frame) as usize;
    let stages = frame_stages(post_enabled);
    reveal_with_fuel(TrailField::after_stages, 5);
    if post_enabled {
        let s1 = stages.drop_first();
        let s2 = s1.drop_first();
        let s3 = s2.drop_first();
        let s4 = s3.drop_first();
        assert(s1 =~= seq![Stage::Decay, Stage::Diffuse, Stage::Render]);
        assert(s2 =~= seq![Stage::Diffuse, Stage::Render]);
        assert(s3 =~= seq![Stage::Render]);
        assert(s4 =~= Seq::<Stage>::empty());
        assert(stages[0] == Stage::Particle);
        assert(s1[0] == Stage::Decay);
        assert(s2[0] == Stage::Diffuse);
        assert(s3[0] == Stage::Render);
    } else {
        let s1 = stages.drop_first();
        let s2 = s1.drop_first();
        assert(s1 =~= seq![Stage::Render]);
        assert(s2 =~= Seq::<Stage>::empty());
        assert(stages[0] == Stage::Particle);
        assert(s1[0] == Stage::Render);
    }
}

/// With post-processing enabled the render stage samples the output of this
/// frame's diffuse pass.
pub proof fn lemma_render_samples_fresh_field(field: TrailField, frame: nat)
    requires
        field.wf(),
    ensures
        field.after_frame(frame, true).sampled(frame) == Some(frame),
{
    lemma_after_frame_unfolds(field, frame, true);
}

/// Where post-processing is disabled in a frame, its render stage samples a
/// field of the same generation as the render stage of the frame before:
/// decay and diffuse are skipped, so no diffuse pass has shaped it since.
/// This speaks of the generation only. The particle stage still deposits
/// into the slot that render samples, in this frame as in every other, so
/// the content of what is sampled is not claimed to be the same.
pub proof fn lemma_render_samples_stale_field(field: TrailField, frame: nat, post_before: bool)
    requires
        field.wf(),
    ensures
        field.after_frame(frame, post_before).after_frame(frame + 1, false).sampled(frame + 1)
            == field.after_frame(frame, post_before).sampled(frame),
{
    lemma_after_frame_unfolds(field, frame, post_before);
    lemma_after_frame_unfolds(field.after_frame(frame, post_before), frame + 1, false);
}

/// A frame without post-processing leaves the generations that are there:
/// no slot comes to hold a generation that neither slot held before.
pub proof fn lemma_no_post_no_new_generation(field: TrailField, frame: nat, slot: int)
    requires
        field.wf(),
        0 <= slot < SLOT_COUNT,
    ensures
        field.after_frame(frame, false).slots[slot] == field.slots[0] || field.after_frame(
            frame,
            false,
        ).slots[slot] == field.slots[1],
{
    lemma_after_frame_unfolds(field, frame, false);
}

/// While post-processing has never been enabled, the render stage samples
/// the field as it was allocated.
pub proof fn lemma_blank_field_stays_blank(frame: nat)
    ensures
        TrailField::blank().after_frame(frame, false) == TrailField::blank(),
        TrailField::blank().after_frame(frame, false).sampled(frame) == None::<nat>,
{
    lemma_after_frame_unfolds(TrailField::blank(), frame, false);
    assert(TrailField::blank().after_frame(frame, false).slots =~= TrailField::blank().slots);
}

} // verus!
