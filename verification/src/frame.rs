//! The orchestrator. At startup it plans what is allocated, laid out and
//! bound. Per frame it sizes the particle dispatch, stages the four uniform
//! uploads, lists the passes in their fixed order and moves on to the next
//! parity.

use crate::layout::{
    bind_group, check_schema, is_first_mismatch, plan_resources, quad_vertices,
    spec_bind_group, spec_plan_resources, spec_quad_vertices, spec_stage_layout,
    spec_uniform_size, stage_layout, BindGroupEntry, BindingKind, LayoutEntry, Resource,
    ResourcePlan, PARTICLE_BYTES, QUAD_VERTEX_COUNT, SCREEN_HEIGHT, SCREEN_WIDTH,
};
use crate::params::{GlobalParams, ParamManager, Params, Scalar};
use crate::pool::{frame_parity, parity, Stage, SLOT_COUNT};
use crate::uniform::{is_native_layout, Uniform};
use vstd::prelude::*;

verus! {

/// Particles that one work group of the particle kernel handles.
pub const PARTICLES_PER_GROUP: u32 = 64;

/// Side of the square tile of cells that one work group of the decay and
/// diffuse kernels handles.
pub const TILE_SIZE: u32 = 16;

/// What a pass asks of the device.
#[derive(Clone, Copy, Debug, PartialEq, Eq)]
pub enum Work {
    /// A compute dispatch of `x` by `y` by `z` work groups.
    Dispatch { x: u32, y: u32, z: u32 },
    /// A draw of the first `vertices` vertices, `instances` times.
    Draw { vertices: u32, instances: u32 },
}

/// One pass of a frame: a stage, the bind group it runs with, and its work.
#[derive(Clone, Copy, Debug, PartialEq, Eq)]
pub struct Pass {
    pub stage: Stage,
    /// Which of the stage's two bind groups is bound.
    pub bind_group: usize,
    pub work: Work,
}

/// The bytes to write to the uniform buffer of a stage.
#[derive(Clone, Debug, PartialEq, Eq)]
pub struct Upload {
    pub stage: Stage,
    pub bytes: Vec<u8>,
}

/// Everything one frame submits: the uniform uploads, then the passes, in
/// this order.
#[derive(Clone, Debug, PartialEq, Eq)]
pub struct FramePlan {
    pub uploads: Vec<Upload>,
    pub passes: Vec<Pass>,
}

/// The kind of pipeline that runs a stage.
#[derive(Clone, Copy, Debug, PartialEq, Eq, Structural)]
pub enum PipelineKind {
    /// A compute pipeline, which is dispatched.
    Compute,
    /// A render pipeline, which draws the full-screen quad.
    Raster,
}

/// What startup builds for one stage.
#[derive(Clone, Debug, PartialEq, Eq)]
pub struct StageSetup {
    pub stage: Stage,
    /// The kind of pipeline that is built for the stage.
    pub pipeline: PipelineKind,
    /// The binding layout of the stage's kernel.
    pub layout: Vec<LayoutEntry>,
    /// The stage's bind groups, one for each parity.
    pub bind_groups: Vec<Vec<BindGroupEntry>>,
    /// What the stage's uniform buffer holds at first.
    pub upload: Upload,
}

/// Everything startup builds, before the first frame.
#[derive(Clone, Debug, PartialEq, Eq)]
pub struct StartupPlan {
    /// How many buffers and textures there are, and how large.
    pub resources: ResourcePlan,
    /// What the vertex buffer holds: the corners of the full-screen quad.
    pub quad: Vec<Scalar>,
    /// One setup for each stage, in the order in which the stages run.
    pub stages: Vec<StageSetup>,
}

/// A kernel whose declared schema differs from the layout of its stage.
#[derive(Clone, Copy, Debug, PartialEq, Eq)]
pub struct KernelMismatch {
    /// Place of the stage among the stages; the length of the shorter list
    /// where there are more or fewer schemas than stages.
    pub stage: usize,
    /// Position of the first entry that differs; 0 where a schema or a
    /// stage is missing.
    pub position: usize,
}

/// The simulation as the orchestrator sees it.
#[derive(Debug, PartialEq, Eq)]
pub struct MoldSim {
    pub params: ParamManager,
    /// Work groups of the particle dispatch of the last frame planned.
    pub particle_work_group_count: u32,
    /// Work groups of a decay or diffuse dispatch, across and down.
    pub screen_work_group_count: (u32, u32),
    /// Index of the next frame.
    pub frame_num: usize,
}

/// The number of groups of `per_group` that it takes to cover `items`.
pub open spec fn ceil_div(items: nat, per_group: nat) -> nat
    recommends
        per_group > 0,
{
    (items + per_group - 1) as nat / per_group
}

/// `groups` groups of `per_group` are the fewest that cover `items`: they
/// hold every item, there is none where there is no item, and one group
/// fewer would leave an item out.
pub open spec fn covers(groups: nat, items: nat, per_group: nat) -> bool {
    &&& per_group * groups >= items
    &&& items == 0 ==> groups == 0
    &&& items > 0 ==> per_group * (groups - 1) < items
}

/// All four stages, in the order in which they run and in which their
/// uniforms are uploaded.
pub open spec fn all_stages() -> Seq<Stage> {
    seq![Stage::Particle, Stage::Decay, Stage::Diffuse, Stage::Render]
}

/// The stages of one frame in the order in which they run: decay and
/// diffuse only where post-processing is enabled.
pub open spec fn frame_stages(post_enabled: bool) -> Seq<Stage> {
    if post_enabled {
        all_stages()
    } else {
        seq![Stage::Particle, Stage::Render]
    }
}

/// The pass of a stage in a frame of the given parity.
pub open spec fn spec_pass(
    stage: Stage,
    parity: usize,
    particle_groups: u32,
    screen_groups: (u32, u32),
) -> Pass {
    Pass {
        stage,
        bind_group: parity,
        work: match stage {
            Stage::Particle => Work::Dispatch { x: particle_groups, y: 1, z: 1 },
            Stage::Decay | Stage::Diffuse => Work::Dispatch {
                x: screen_groups.0,
                y: screen_groups.1,
                z: 1,
            },
            Stage::Render => Work::Draw { vertices: QUAD_VERTEX_COUNT, instances: 1 },
        },
    }
}

/// The passes of one frame, in order.
pub open spec fn spec_frame_passes(
    post_enabled: bool,
    parity: usize,
    particle_groups: u32,
    screen_groups: (u32, u32),
) -> Seq<Pass> {
    frame_stages(post_enabled).map_values(
        |stage: Stage| spec_pass(stage, parity, particle_groups, screen_groups),
    )
}

/// The words of the parameter block that a stage's kernel reads.
pub open spec fn stage_words(stage: Stage, preset: Params) -> Seq<u32> {
    match stage {
        Stage::Particle => preset.particle.spec_words(),
        Stage::Decay => preset.decay.spec_words(),
        Stage::Diffuse => preset.diffuse.spec_words(),
        Stage::Render => preset.render.spec_words(),
    }
}

/// The uploads are those of one frame for `preset`: one per stage, in the
/// order of the stages, each the memory image of that stage's parameters.
pub open spec fn uploads_of(uploads: Seq<Upload>, preset: Params) -> bool {
    &&& uploads.len() == all_stages().len()
    &&& forall|k: int|
        0 <= k < uploads.len() ==> (#[trigger] uploads[k]).stage == all_stages()[k]
            && is_native_layout(uploads[k].bytes@, stage_words(all_stages()[k], preset))
}

/// The kind of pipeline that runs a stage: the render stage draws, the
/// others are dispatched.
pub open spec fn stage_pipeline(stage: Stage) -> PipelineKind {
    match stage {
        Stage::Render => PipelineKind::Raster,
        _ => PipelineKind::Compute,
    }
}

/// `setup` is what startup builds for `stage`: its layout, a bind group for
/// each of the two parities, and the memory image of its parameters.
pub open spec fn is_stage_setup(
    setup: StageSetup,
    stage: Stage,
    preset: Params,
    global: GlobalParams,
) -> bool {
    &&& setup.stage == stage
    &&& setup.pipeline == stage_pipeline(stage)
    &&& setup.layout@ == spec_stage_layout(stage, preset, global)
    &&& setup.bind_groups@.len() == SLOT_COUNT
    &&& forall|p: int|
        0 <= p < SLOT_COUNT ==> (#[trigger] setup.bind_groups@[p])@ == spec_bind_group(
            stage,
            p as usize,
        )
    &&& setup.upload.stage == stage
    &&& is_native_layout(setup.upload.bytes@, stage_words(stage, preset))
}

/// `plan` is the startup plan for a store whose active preset is `preset`.
pub open spec fn is_startup_plan(plan: StartupPlan, preset: Params, global: GlobalParams) -> bool {
    &&& plan.resources == spec_plan_resources(preset, global)
    &&& plan.quad@ == spec_quad_vertices()
    &&& plan.stages@.len() == all_stages().len()
    &&& forall|s: int|
        0 <= s < all_stages().len() ==> is_stage_setup(
            #[trigger] plan.stages@[s],
            all_stages()[s],
            preset,
            global,
        )
}

/// Every declared schema is the layout of the stage at its place, and
/// there is one for each stage.
pub open spec fn kernels_fit(declared: Seq<Vec<LayoutEntry>>, stages: Seq<StageSetup>) -> bool {
    &&& declared.len() == stages.len()
    &&& forall|s: int| 0 <= s < declared.len() ==> (#[trigger] declared[s])@ == stages[s].layout@
}

/// The number of work groups of `per_group` items that cover `items`.
pub fn work_groups(items: u32, per_group: u32) -> (groups: u32)
    requires
        per_group > 0,
    ensures
        groups == ceil_div(items as nat, per_group as nat),
        covers(groups as nat, items as nat, per_group as nat),
{
    proof {
        lemma_work_groups_cover(items as nat, per_group as nat);
    }
    let whole: u32 = items / per_group;
    let rest: u32 = items % per_group;
    proof {
        lemma_ceil_div_by_cases(items as nat, per_group as nat);
    }
    if rest == 0 {
        whole
    } else {
        assert(whole < items) by (nonlinear_arith)
            requires
                whole == items / per_group,
                rest == items % per_group,
                rest != 0,
                per_group > 0,
        ;
        whole + 1
    }
}

/// Work groups of the particle dispatch for a number of particles.
pub fn particle_work_groups(num_particles: u32) -> (groups: u32)
    ensures
        groups == ceil_div(num_particles as nat, PARTICLES_PER_GROUP as nat),
        covers(groups as nat, num_particles as nat, PARTICLES_PER_GROUP as nat),
{
    work_groups(num_particles, PARTICLES_PER_GROUP)
}

/// Work groups of a decay or diffuse dispatch over a field of the given
/// size, across and down.
pub fn screen_work_groups(width: u32, height: u32) -> (groups: (u32, u32))
    ensures
        groups.0 == ceil_div(width as nat, TILE_SIZE as nat),
        groups.1 == ceil_div(height as nat, TILE_SIZE as nat),
{
    (work_groups(width, TILE_SIZE), work_groups(height, TILE_SIZE))
}

/// The bytes to write to the uniform buffer of a stage.
pub fn stage_upload(stage: Stage, preset: &Params) -> (upload: Upload)
    ensures
        upload.stage == stage,
        is_native_layout(upload.bytes@, stage_words(stage, *preset)),
{
    let bytes = match stage {
        Stage::Particle => preset.particle.to_bytes(),
        Stage::Decay => preset.decay.to_bytes(),
        Stage::Diffuse => preset.diffuse.to_bytes(),
        Stage::Render => preset.render.to_bytes(),
    };
    Upload { stage, bytes }
}

/// What startup builds for a stage.
pub fn stage_setup(stage: Stage, preset: &Params, global: &GlobalParams) -> (setup: StageSetup)
    ensures
        is_stage_setup(setup, stage, *preset, *global),
{
    let mut bind_groups: Vec<Vec<BindGroupEntry>> = Vec::new();
    bind_groups.push(bind_group(stage, 0));
    bind_groups.push(bind_group(stage, 1));
    let pipeline = match stage {
        Stage::Render => PipelineKind::Raster,
        _ => PipelineKind::Compute,
    };
    StageSetup {
        stage,
        pipeline,
        layout: stage_layout(stage, preset, global),
        bind_groups,
        upload: stage_upload(stage, preset),
    }
}

/// The pass of a stage in a frame of the given parity.
pub fn stage_pass(
    stage: Stage,
    parity: usize,
    particle_groups: u32,
    screen_groups: (u32, u32),
) -> (pass: Pass)
    ensures
        pass == spec_pass(stage, parity, particle_groups, screen_groups),
{
    let work = match stage {
        Stage::Particle => Work::Dispatch { x: particle_groups, y: 1, z: 1 },
        Stage::Decay => Work::Dispatch { x: screen_groups.0, y: screen_groups.1, z: 1 },
        Stage::Diffuse => Work::Dispatch { x: screen_groups.0, y: screen_groups.1, z: 1 },
        Stage::Render => Work::Draw { vertices: QUAD_VERTEX_COUNT, instances: 1 },
    };
    Pass { stage, bind_group: parity, work }
}

impl StartupPlan {
    /// Holds the schemas that the kernels declare, one for each stage in the
    /// order of the stages, against the layouts of the plan. The first stage
    /// whose kernel does not fit is reported, with the first entry that
    /// differs.
    pub fn check_kernels(&self, declared: &Vec<Vec<LayoutEntry>>) -> (r: Result<
        (),
        KernelMismatch,
    >)
        ensures
            r is Ok <==> kernels_fit(declared@, self.stages@),
            r matches Err(m) ==> {
                &&& m.stage <= declared@.len()
                &&& m.stage <= self.stages@.len()
                &&& forall|s: int|
                    0 <= s < m.stage ==> (#[trigger] declared@[s])@ == self.stages@[s].layout@
                &&& if m.stage < declared@.len() && m.stage < self.stages@.len() {
                    is_first_mismatch(
                        declared@[m.stage as int]@,
                        self.stages@[m.stage as int].layout@,
                        m.position as nat,
                    )
                } else {
                    declared@.len() != self.stages@.len() && m.position == 0
                }
            },
    {
        let mut s: usize = 0;
        while s < declared.len() && s < self.stages.len()
            invariant
                s <= declared@.len(),
                s <= self.stages@.len(),
                forall|t: int| 0 <= t < s ==> (#[trigger] declared@[t])@ == self.stages@[t].layout@,
            decreases declared@.len() - s,
        {
            match check_schema(&declared[s], &self.stages[s].layout) {
                Ok(()) => {},
                Err(mismatch) => {
                    assert(declared@[s as int]@ != self.stages@[s as int].layout@);
                    return Err(KernelMismatch { stage: s, position: mismatch.position });
                },
            }
            s = s + 1;
        }
        if declared.len() == self.stages.len() {
            Ok(())
        } else {
            Err(KernelMismatch { stage: s, position: 0 })
        }
    }
}

impl MoldSim {
    /// The store has an active preset.
    pub open spec fn wf(&self) -> bool {
        self.params.wf()
    }

    /// The active preset.
    pub open spec fn active(&self) -> Params
        recommends
            self.wf(),
    {
        self.params.params@[self.params.current as int]
    }

    /// Parity of the next frame.
    pub open spec fn spec_parity(&self) -> usize {
        parity(self.frame_num as nat) as usize
    }

    /// Starts the simulation at frame 0 with the given store, and plans
    /// everything that is built before the first frame: two particle
    /// buffers and two trail textures sized by the global limits, the quad,
    /// and for each stage its layout, its bind group for either parity and
    /// the first content of its uniform buffer.
    pub fn init(params: ParamManager) -> (r: (MoldSim, StartupPlan))
        requires
            params.wf(),
        ensures
            r.0.wf(),
            r.0.params == params,
            r.0.frame_num == 0,
            r.0.particle_work_group_count == ceil_div(
                r.0.active().particle.num_particles as nat,
                PARTICLES_PER_GROUP as nat,
            ),
            r.0.screen_work_group_count.0 == ceil_div(SCREEN_WIDTH as nat, TILE_SIZE as nat),
            r.0.screen_work_group_count.1 == ceil_div(SCREEN_HEIGHT as nat, TILE_SIZE as nat),
            is_startup_plan(r.1, r.0.active(), r.0.params.global),
            r.1.resources == spec_plan_resources(r.0.active(), r.0.params.global),
            r.1.stages@.len() == all_stages().len(),
            forall|s: int|
                0 <= s < all_stages().len() ==> (#[trigger] r.1.stages@[s]).layout@
                    == spec_stage_layout(all_stages()[s], r.0.active(), r.0.params.global),
            forall|s: int, p: int|
                0 <= s < all_stages().len() && 0 <= p < SLOT_COUNT ==> (
                #[trigger] r.1.stages@[s].bind_groups@[p])@ == spec_bind_group(
                    all_stages()[s],
                    p as usize,
                ),
    {
        let preset = params.current();
        let global = params.global;
        let particle_work_group_count = particle_work_groups(preset.particle.num_particles);
        let screen_work_group_count = screen_work_groups(SCREEN_WIDTH, SCREEN_HEIGHT);

        let mut stages: Vec<StageSetup> = Vec::new();
        stages.push(stage_setup(Stage::Particle, preset, &global));
        stages.push(stage_setup(Stage::Decay, preset, &global));
        stages.push(stage_setup(Stage::Diffuse, preset, &global));
        stages.push(stage_setup(Stage::Render, preset, &global));
        let plan = StartupPlan {
            resources: plan_resources(preset, &global),
            quad: quad_vertices(),
            stages,
        };
        assert(is_startup_plan(plan, *preset, global));
        assert forall|s: int, p: int|
            0 <= s < all_stages().len() && 0 <= p < SLOT_COUNT implies (
        #[trigger] plan.stages@[s].bind_groups@[p])@ == spec_bind_group(
            all_stages()[s],
            p as usize,
        ) by {
            assert(is_stage_setup(plan.stages@[s], all_stages()[s], *preset, global));
        }

        (MoldSim { params, particle_work_group_count, screen_work_group_count, frame_num: 0 }, plan)
    }

    /// Parity of the next frame.
    pub fn parity(&self) -> (p: usize)
        ensures
            p == self.spec_parity(),
            p == self.frame_num as nat % 2,
    {
        frame_parity(self.frame_num)
    }

    /// Plans the next frame and moves on to the one after it.
    ///
    /// The particle dispatch is sized for the active preset as it is now;
    /// all four uniforms are uploaded from it; the passes are the particle
    /// update, then decay and diffuse where post-processing is enabled, then
    /// the render, each with the bind group of the frame's parity.
    pub fn render(&mut self) -> (plan: FramePlan)
        requires
            old(self).wf(),
            old(self).frame_num < usize::MAX,
        ensures
            final(self).wf(),
            final(self).params == old(self).params,
            final(self).screen_work_group_count == old(self).screen_work_group_count,
            final(self).frame_num == old(self).frame_num + 1,
            final(self).particle_work_group_count == ceil_div(
                old(self).active().particle.num_particles as nat,
                PARTICLES_PER_GROUP as nat,
            ),
            uploads_of(plan.uploads@, old(self).active()),
            plan.passes@ == spec_frame_passes(
                old(self).params.global.post_enabled,
                old(self).spec_parity(),
                final(self).particle_work_group_count,
                old(self).screen_work_group_count,
            ),
            covers(
                final(self).particle_work_group_count as nat,
                old(self).active().particle.num_particles as nat,
                PARTICLES_PER_GROUP as nat,
            ),
            plan.passes@.len() == if old(self).params.global.post_enabled {
                4nat
            } else {
                2nat
            },
            forall|k: int|
                0 <= k < plan.passes@.len() ==> {
                    &&& (#[trigger] plan.passes@[k]).bind_group == old(self).frame_num % 2
                    &&& plan.passes@[k].stage == frame_stages(
                        old(self).params.global.post_enabled,
                    )[k]
                },
    {
        proof {
            lemma_work_groups_cover(
                self.active().particle.num_particles as nat,
                PARTICLES_PER_GROUP as nat,
            );
        }
        self.particle_work_group_count = particle_work_groups(
            self.params.current().particle.num_particles,
        );
        let parity = frame_parity(self.frame_num);
        let groups = self.particle_work_group_count;
        let screen = self.screen_work_group_count;
        let preset = self.params.current();

        let mut uploads: Vec<Upload> = Vec::new();
        uploads.push(stage_upload(Stage::Particle, preset));
        uploads.push(stage_upload(Stage::Decay, preset));
        uploads.push(stage_upload(Stage::Diffuse, preset));
        uploads.push(stage_upload(Stage::Render, preset));

        let mut passes: Vec<Pass> = Vec::new();
        passes.push(stage_pass(Stage::Particle, parity, groups, screen));
        if self.params.global.post_enabled {
            passes.push(stage_pass(Stage::Decay, parity, groups, screen));
            passes.push(stage_pass(Stage::Diffuse, parity, groups, screen));
        }
        passes.push(stage_pass(Stage::Render, parity, groups, screen));
        assert(passes@ =~= spec_frame_passes(
            self.params.global.post_enabled,
            parity,
            groups,
            screen,
        ));

        self.frame_num = self.frame_num + 1;
        FramePlan { uploads, passes }
    }
}

/// The quotient rounded up is the quotient where the division leaves no
/// rest, and one more where it does.
pub proof fn lemma_ceil_div_by_cases(items: nat, per_group: nat)
    requires
        per_group > 0,
    ensures
        items % per_group == 0 ==> ceil_div(items, per_group) == items / per_group,
        items % per_group != 0 ==> ceil_div(items, per_group) == items / per_group + 1,
{
    let q = items / per_group;
    let r = items % per_group;
    assert(items == q * per_group + r) by (nonlinear_arith)
        requires
            q == items / per_group,
            r == items % per_group,
            per_group > 0,
    ;
    if r == 0 {
        assert((q * per_group + per_group - 1) / (per_group as int) == q) by (nonlinear_arith)
            requires
                per_group > 0,
                q >= 0,
        ;
    } else {
        assert((q * per_group + r + per_group - 1) / (per_group as int) == q + 1)
            by (nonlinear_arith)
            requires
                per_group > 0,
                q >= 0,
                0 < r < per_group,
        ;
    }
}

/// The work groups cover every item, with less than one group to spare.
pub proof fn lemma_work_groups_cover(items: nat, per_group: nat)
    requires
        per_group > 0,
    ensures
        items <= ceil_div(items, per_group) * per_group < items + per_group,
        covers(ceil_div(items, per_group), items, per_group),
{
    lemma_ceil_div_by_cases(items, per_group);
    let q = items / per_group;
    let r = items % per_group;
    let groups = ceil_div(items, per_group);
    assert(items <= groups * per_group < items + per_group && (items == 0 ==> groups == 0)
        && per_group * groups == groups * per_group && per_group * (groups - 1) == groups
        * per_group - per_group) by (nonlinear_arith)
        requires
            q == items / per_group,
            r == items % per_group,
            per_group > 0,
            r == 0 ==> groups == q,
            r != 0 ==> groups == q + 1,
    ;
}

/// No smaller number of work groups covers every item.
pub proof fn lemma_work_groups_least(items: nat, per_group: nat, fewer: nat)
    requires
        per_group > 0,
        fewer < ceil_div(items, per_group),
    ensures
        fewer * per_group < items,
{
    lemma_work_groups_cover(items, per_group);
    let groups = ceil_div(items, per_group);
    assert(fewer * per_group < items) by (nonlinear_arith)
        requires
            groups * per_group < items + per_group,
            fewer + 1 <= groups,
            per_group > 0,
    ;
}

/// What a startup plan comes to, whatever the preset: two particle buffers
/// of 16 bytes for each particle of the capacity and two trail textures of
/// 3200 by 1800 cells; uniform bindings of 24, 4, 4 and 32 bytes and
/// particle bindings of the size of a particle buffer.
pub proof fn lemma_startup_sizes(plan: StartupPlan, preset: Params, global: GlobalParams)
    requires
        is_startup_plan(plan, preset, global),
    ensures
        plan.resources.particle_buffer_count == 2,
        plan.resources.trail_texture_count == 2,
        plan.resources.particle_buffer_bytes == PARTICLE_BYTES * global.max_particles,
        plan.resources.trail_width == 3200,
        plan.resources.trail_height == 1800,
        plan.stages@[0].layout@[0].kind == (BindingKind::UniformBuffer { min_size: Some(24u64) }),
        plan.stages@[1].layout@[0].kind == (BindingKind::UniformBuffer { min_size: Some(4u64) }),
        plan.stages@[2].layout@[0].kind == (BindingKind::UniformBuffer { min_size: Some(4u64) }),
        plan.stages@[3].layout@[0].kind == (BindingKind::UniformBuffer { min_size: Some(32u64) }),
        global.max_particles > 0 ==> {
            &&& plan.stages@[0].layout@[1].kind == (BindingKind::StorageBuffer {
                read_only: true,
                min_size: Some(plan.resources.particle_buffer_bytes),
            })
            &&& plan.stages@[0].layout@[2].kind == (BindingKind::StorageBuffer {
                read_only: false,
                min_size: Some(plan.resources.particle_buffer_bytes),
            })
        },
{
    assert(is_stage_setup(plan.stages@[0], all_stages()[0], preset, global));
    assert(is_stage_setup(plan.stages@[1], all_stages()[1], preset, global));
    assert(is_stage_setup(plan.stages@[2], all_stages()[2], preset, global));
    assert(is_stage_setup(plan.stages@[3], all_stages()[3], preset, global));
}

/// What a startup plan binds for either parity `p`: the particle stage
/// reads particle buffer and trail `p` and writes particle buffer and trail
/// `1 - p`; decay reads trail `1 - p` and writes trail `p`; diffuse reads
/// trail `p` and writes trail `1 - p`; render samples trail `1 - p` and
/// writes no slot. No group reads the slot it writes, and every slot is one
/// of the two.
pub proof fn lemma_startup_bindings(
    plan: StartupPlan,
    preset: Params,
    global: GlobalParams,
    p: usize,
)
    requires
        is_startup_plan(plan, preset, global),
        p < SLOT_COUNT,
    ensures
        plan.stages@[0].bind_groups@[p as int]@ == seq![
            BindGroupEntry { binding: 0, resource: Resource::Uniform(Stage::Particle) },
            BindGroupEntry { binding: 1, resource: Resource::ParticleBuffer(p) },
            BindGroupEntry { binding: 2, resource: Resource::ParticleBuffer((1 - p) as usize) },
            BindGroupEntry { binding: 3, resource: Resource::TrailTexture(p) },
            BindGroupEntry { binding: 4, resource: Resource::TrailTexture((1 - p) as usize) },
        ],
        plan.stages@[1].bind_groups@[p as int]@ == seq![
            BindGroupEntry { binding: 0, resource: Resource::Uniform(Stage::Decay) },
            BindGroupEntry { binding: 1, resource: Resource::TrailTexture((1 - p) as usize) },
            BindGroupEntry { binding: 2, resource: Resource::TrailTexture(p) },
        ],
        plan.stages@[2].bind_groups@[p as int]@ == seq![
            BindGroupEntry { binding: 0, resource: Resource::Uniform(Stage::Diffuse) },
            BindGroupEntry { binding: 1, resource: Resource::TrailTexture(p) },
            BindGroupEntry { binding: 2, resource: Resource::TrailTexture((1 - p) as usize) },
        ],
        plan.stages@[3].bind_groups@[p as int]@ == seq![
            BindGroupEntry { binding: 0, resource: Resource::Uniform(Stage::Render) },
            BindGroupEntry { binding: 1, resource: Resource::TrailTexture((1 - p) as usize) },
            BindGroupEntry { binding: 2, resource: Resource::TrailSampler },
        ],
        p != 1 - p,
        0 <= 1 - p < SLOT_COUNT,
{
    assert(is_stage_setup(plan.stages@[0], all_stages()[0], preset, global));
    assert(is_stage_setup(plan.stages@[1], all_stages()[1], preset, global));
    assert(is_stage_setup(plan.stages@[2], all_stages()[2], preset, global));
    assert(is_stage_setup(plan.stages@[3], all_stages()[3], preset, global));
    assert(plan.stages@[0].bind_groups@[p as int]@ == spec_bind_group(Stage::Particle, p));
    assert(plan.stages@[1].bind_groups@[p as int]@ == spec_bind_group(Stage::Decay, p));
    assert(plan.stages@[2].bind_groups@[p as int]@ == spec_bind_group(Stage::Diffuse, p));
    assert(plan.stages@[3].bind_groups@[p as int]@ == spec_bind_group(Stage::Render, p));
}

/// A preset that asks for no more particles than the buffers hold is
/// dispatched with less than one work group beyond their capacity.
pub proof fn lemma_dispatch_within_capacity(num_particles: u32, max_particles: u32)
    requires
        num_particles <= max_particles,
    ensures
        ceil_div(num_particles as nat, PARTICLES_PER_GROUP as nat) * PARTICLES_PER_GROUP
            < max_particles + PARTICLES_PER_GROUP,
{
    lemma_work_groups_cover(num_particles as nat, PARTICLES_PER_GROUP as nat);
}

/// What is uploaded for a stage fills its uniform buffer exactly: the bytes
/// are as many as the binding layout asks for.
pub proof fn lemma_upload_fills_uniform(stage: Stage, preset: Params, bytes: Seq<u8>)
    requires
        is_native_layout(bytes, stage_words(stage, preset)),
    ensures
        spec_uniform_size(stage, preset) == Some(bytes.len() as u64),
        bytes.len() == 4 * stage_words(stage, preset).len(),
{
}

/// The passes of frame `n` are its stages in order, each run with the bind
/// group of parity `n mod 2`; the frame after it runs with the other one.
pub proof fn lemma_frames_alternate_bind_groups(
    frame: nat,
    post_enabled: bool,
    particle_groups: u32,
    screen_groups: (u32, u32),
)
    ensures
        spec_frame_passes(
            post_enabled,
            parity(frame) as usize,
            particle_groups,
            screen_groups,
        ).len() == frame_stages(post_enabled).len(),
        forall|k: int|
            0 <= k < frame_stages(post_enabled).len() ==> {
                &&& (#[trigger] spec_frame_passes(
                    post_enabled,
                    parity(frame) as usize,
                    particle_groups,
                    screen_groups,
                )[k]).stage == frame_stages(post_enabled)[k]
                &&& spec_frame_passes(
                    post_enabled,
                    parity(frame) as usize,
                    particle_groups,
                    screen_groups,
                )[k].bind_group == frame % 2
            },
        parity(frame + 1) != parity(frame),
{
}

} // verus!
