//! The resource layout: how large every buffer and texture is, what each
//! stage's kernel expects at each binding, and which resources are bound for
//! a frame of either parity.

use crate::params::{GlobalParams, Params, Scalar};
use crate::pool::{read_slot, slots_for, write_slot, Stage, SLOT_COUNT};
use crate::uniform::{spec_memsize, Uniform};
use vstd::prelude::*;

verus! {

/// Width of the trail field in cells.
pub const SCREEN_WIDTH: u32 = 3200;

/// Height of the trail field in cells.
pub const SCREEN_HEIGHT: u32 = 1800;

/// Bytes that one particle occupies: a position and a heading, two scalars
/// each.
pub const PARTICLE_BYTES: u64 = 16;

/// Scalars that one particle occupies.
pub const PARTICLE_SCALARS: u64 = 4;

/// Vertices of the full-screen quad: two triangles.
pub const QUAD_VERTEX_COUNT: u32 = 6;

/// Bytes from one vertex of the quad to the next: two scalars.
pub const QUAD_VERTEX_STRIDE: u64 = 8;

/// Bit pattern of the scalar `1`.
pub const ONE_BITS: u32 = 0x3f80_0000;

/// Bit pattern of the scalar `-1`.
pub const MINUS_ONE_BITS: u32 = 0xbf80_0000;

/// The part of the pipeline that sees a binding.
#[derive(Clone, Copy, Debug, PartialEq, Eq, Structural)]
pub enum ShaderStage {
    Vertex,
    Fragment,
    Compute,
}

/// What a kernel may do with a storage texture.
#[derive(Clone, Copy, Debug, PartialEq, Eq, Structural)]
pub enum TextureAccess {
    ReadOnly,
    WriteOnly,
}

/// The kind of resource a binding takes. Every texture is two-dimensional
/// and holds one scalar per cell.
#[derive(Clone, Copy, Debug, PartialEq, Eq)]
pub enum BindingKind {
    /// A uniform buffer of at least `min_size` bytes.
    UniformBuffer { min_size: Option<u64> },
    /// A storage buffer of at least `min_size` bytes.
    StorageBuffer { read_only: bool, min_size: Option<u64> },
    /// A texture that a compute kernel loads from or stores to.
    StorageTexture { access: TextureAccess },
    /// A texture that the render stage samples.
    SampledTexture,
    /// The sampler that the render stage samples with.
    Sampler,
}

/// One entry of a stage's binding layout.
#[derive(Clone, Copy, Debug, PartialEq, Eq)]
pub struct LayoutEntry {
    pub binding: u32,
    pub visibility: ShaderStage,
    pub kind: BindingKind,
}

/// A resource that can be bound.
#[derive(Clone, Copy, Debug, PartialEq, Eq)]
pub enum Resource {
    /// The uniform buffer that holds a stage's parameters.
    Uniform(Stage),
    /// One of the two particle buffers.
    ParticleBuffer(usize),
    /// One of the two trail textures.
    TrailTexture(usize),
    /// The sampler of the trail field.
    TrailSampler,
    /// The vertex buffer that holds the full-screen quad.
    QuadVertices,
    /// The presentation surface.
    Surface,
}

/// What a stage reads and what it writes in one frame.
#[derive(Clone, Debug, PartialEq, Eq)]
pub struct StageContract {
    pub inputs: Vec<Resource>,
    pub outputs: Vec<Resource>,
}

/// One entry of a bind group: the resource bound at a binding.
#[derive(Clone, Copy, Debug, PartialEq, Eq)]
pub struct BindGroupEntry {
    pub binding: u32,
    pub resource: Resource,
}

/// Sizes of everything that is allocated at startup.
#[derive(Clone, Copy, Debug, PartialEq, Eq)]
pub struct ResourcePlan {
    /// Number of particle buffers.
    pub particle_buffer_count: usize,
    /// Number of trail textures.
    pub trail_texture_count: usize,
    /// Scalars of initial state that fill one particle buffer.
    pub particle_scalars: u64,
    /// Bytes of each of the two particle buffers.
    pub particle_buffer_bytes: u64,
    /// Width of each of the two trail textures.
    pub trail_width: u32,
    /// Height of each of the two trail textures.
    pub trail_height: u32,
    /// Bytes of the vertex buffer that holds the full-screen quad.
    pub vertex_buffer_bytes: u64,
    /// Bytes of the uniform buffer of the particle stage.
    pub particle_uniform_bytes: Option<u64>,
    /// Bytes of the uniform buffer of the decay stage.
    pub decay_uniform_bytes: Option<u64>,
    /// Bytes of the uniform buffer of the diffuse stage.
    pub diffuse_uniform_bytes: Option<u64>,
    /// Bytes of the uniform buffer of the render stage.
    pub render_uniform_bytes: Option<u64>,
}

/// A binding at which a kernel's declared schema differs from the layout.
#[derive(Clone, Copy, Debug, PartialEq, Eq)]
pub struct BindingMismatch {
    /// Position of the first entry that differs; the length of the shorter
    /// schema where one is the start of the other.
    pub position: usize,
}

/// `position` is where a declared schema first differs from a layout: the
/// first entry that is not the same in both, or the length of the shorter
/// where one is the start of the other.
pub open spec fn is_first_mismatch(
    declared: Seq<LayoutEntry>,
    layout: Seq<LayoutEntry>,
    position: nat,
) -> bool {
    &&& position <= declared.len()
    &&& position <= layout.len()
    &&& forall|j: int| 0 <= j < position ==> declared[j] == layout[j]
    &&& if position < declared.len() && position < layout.len() {
        declared[position as int] != layout[position as int]
    } else {
        declared.len() != layout.len()
    }
}

/// Least size of a particle buffer binding: none for an empty buffer.
pub open spec fn spec_storage_size(max_particles: u32) -> Option<u64> {
    if max_particles == 0 {
        None
    } else {
        Some((PARTICLE_BYTES * max_particles) as u64)
    }
}

/// Size of the parameter block of a stage.
pub open spec fn spec_uniform_size(stage: Stage, preset: Params) -> Option<u64> {
    match stage {
        Stage::Particle => spec_memsize(preset.particle.spec_words().len()),
        Stage::Decay => spec_memsize(preset.decay.spec_words().len()),
        Stage::Diffuse => spec_memsize(preset.diffuse.spec_words().len()),
        Stage::Render => spec_memsize(preset.render.spec_words().len()),
    }
}

/// The part of the pipeline that runs a stage's kernel.
pub open spec fn stage_visibility(stage: Stage) -> ShaderStage {
    match stage {
        Stage::Render => ShaderStage::Fragment,
        _ => ShaderStage::Compute,
    }
}

/// The binding layout of a stage.
pub open spec fn spec_stage_layout(stage: Stage, preset: Params, global: GlobalParams) -> Seq<
    LayoutEntry,
> {
    let visibility = stage_visibility(stage);
    let uniform = LayoutEntry {
        binding: 0,
        visibility,
        kind: BindingKind::UniformBuffer { min_size: spec_uniform_size(stage, preset) },
    };
    let storage = spec_storage_size(global.max_particles);
    match stage {
        Stage::Particle => seq![
            uniform,
            LayoutEntry {
                binding: 1,
                visibility,
                kind: BindingKind::StorageBuffer { read_only: true, min_size: storage },
            },
            LayoutEntry {
                binding: 2,
                visibility,
                kind: BindingKind::StorageBuffer { read_only: false, min_size: storage },
            },
            LayoutEntry {
                binding: 3,
                visibility,
                kind: BindingKind::StorageTexture { access: TextureAccess::ReadOnly },
            },
            LayoutEntry {
                binding: 4,
                visibility,
                kind: BindingKind::StorageTexture { access: TextureAccess::WriteOnly },
            },
        ],
        Stage::Decay | Stage::Diffuse => seq![
            uniform,
            LayoutEntry {
                binding: 1,
                visibility,
                kind: BindingKind::StorageTexture { access: TextureAccess::ReadOnly },
            },
            LayoutEntry {
                binding: 2,
                visibility,
                kind: BindingKind::StorageTexture { access: TextureAccess::WriteOnly },
            },
        ],
        Stage::Render => seq![
            uniform,
            LayoutEntry { binding: 1, visibility, kind: BindingKind::SampledTexture },
            LayoutEntry { binding: 2, visibility, kind: BindingKind::Sampler },
        ],
    }
}

/// What a stage reads in a frame of the given parity: its parameters and
/// the read slot of every resource it works on; the render stage also reads
/// the sampler and the full-screen quad.
pub open spec fn spec_inputs(stage: Stage, parity: usize) -> Seq<Resource> {
    let read = read_slot(stage, parity);
    match stage {
        Stage::Particle => seq![
            Resource::Uniform(stage),
            Resource::ParticleBuffer(read),
            Resource::TrailTexture(read),
        ],
        Stage::Decay | Stage::Diffuse => seq![
            Resource::Uniform(stage),
            Resource::TrailTexture(read),
        ],
        Stage::Render => seq![
            Resource::Uniform(stage),
            Resource::TrailTexture(read),
            Resource::TrailSampler,
            Resource::QuadVertices,
        ],
    }
}

/// What a stage writes in a frame of the given parity: the write slot of
/// every resource it works on; the render stage writes the surface.
pub open spec fn spec_outputs(stage: Stage, parity: usize) -> Seq<Resource> {
    match write_slot(stage, parity) {
        Some(write) => if stage == Stage::Particle {
            seq![Resource::ParticleBuffer(write), Resource::TrailTexture(write)]
        } else {
            seq![Resource::TrailTexture(write)]
        },
        None => seq![Resource::Surface],
    }
}

/// Whether a kernel may write to what is bound at a binding of this kind.
pub open spec fn is_writable(kind: BindingKind) -> bool {
    match kind {
        BindingKind::StorageBuffer { read_only, .. } => !read_only,
        BindingKind::StorageTexture { access } => access == TextureAccess::WriteOnly,
        _ => false,
    }
}

/// The resources bound for a stage in a frame of the given parity.
pub open spec fn spec_bind_group(stage: Stage, parity: usize) -> Seq<BindGroupEntry> {
    let read = read_slot(stage, parity);
    let uniform = BindGroupEntry { binding: 0, resource: Resource::Uniform(stage) };
    match write_slot(stage, parity) {
        Some(write) => if stage == Stage::Particle {
            seq![
                uniform,
                BindGroupEntry { binding: 1, resource: Resource::ParticleBuffer(read) },
                BindGroupEntry { binding: 2, resource: Resource::ParticleBuffer(write) },
                BindGroupEntry { binding: 3, resource: Resource::TrailTexture(read) },
                BindGroupEntry { binding: 4, resource: Resource::TrailTexture(write) },
            ]
        } else {
            seq![
                uniform,
                BindGroupEntry { binding: 1, resource: Resource::TrailTexture(read) },
                BindGroupEntry { binding: 2, resource: Resource::TrailTexture(write) },
            ]
        },
        None => seq![
            uniform,
            BindGroupEntry { binding: 1, resource: Resource::TrailTexture(read) },
            BindGroupEntry { binding: 2, resource: Resource::TrailSampler },
        ],
    }
}

/// Whether a resource is of the kind a binding takes, and, where the binding
/// tells reading from writing, sits in the slot the stage reads or writes at
/// this parity.
pub open spec fn resource_fits(
    kind: BindingKind,
    resource: Resource,
    stage: Stage,
    parity: usize,
) -> bool {
    match kind {
        BindingKind::UniformBuffer { .. } => resource == Resource::Uniform(stage),
        BindingKind::StorageBuffer { read_only, .. } => resource matches Resource::ParticleBuffer(
            slot,
        ) && if read_only {
            slot == read_slot(stage, parity)
        } else {
            write_slot(stage, parity) == Some(slot)
        },
        BindingKind::StorageTexture { access } => resource matches Resource::TrailTexture(slot)
            && if access == TextureAccess::ReadOnly {
            slot == read_slot(stage, parity)
        } else {
            write_slot(stage, parity) == Some(slot)
        },
        BindingKind::SampledTexture => resource == Resource::TrailTexture(read_slot(stage, parity)),
        BindingKind::Sampler => resource == Resource::TrailSampler,
    }
}

/// The corners of the two triangles that cover the whole surface, two
/// scalars per corner.
pub open spec fn spec_quad_vertices() -> Seq<Scalar> {
    let lo = Scalar { bits: MINUS_ONE_BITS };
    let hi = Scalar { bits: ONE_BITS };
    seq![lo, lo, hi, lo, hi, hi, lo, lo, hi, hi, lo, hi]
}

/// The sizes of everything that is allocated at startup.
pub open spec fn spec_plan_resources(preset: Params, global: GlobalParams) -> ResourcePlan {
    ResourcePlan {
        particle_buffer_count: SLOT_COUNT,
        trail_texture_count: SLOT_COUNT,
        particle_scalars: (PARTICLE_SCALARS * global.max_particles) as u64,
        particle_buffer_bytes: (PARTICLE_BYTES * global.max_particles) as u64,
        trail_width: SCREEN_WIDTH,
        trail_height: SCREEN_HEIGHT,
        vertex_buffer_bytes: (4 * spec_quad_vertices().len()) as u64,
        particle_uniform_bytes: spec_uniform_size(Stage::Particle, preset),
        decay_uniform_bytes: spec_uniform_size(Stage::Decay, preset),
        diffuse_uniform_bytes: spec_uniform_size(Stage::Diffuse, preset),
        render_uniform_bytes: spec_uniform_size(Stage::Render, preset),
    }
}

/// Least size of a particle buffer binding.
pub fn storage_size(max_particles: u32) -> (size: Option<u64>)
    ensures
        size == spec_storage_size(max_particles),
{
    if max_particles == 0 {
        None
    } else {
        Some(PARTICLE_BYTES * (max_particles as u64))
    }
}

/// Size of the parameter block of a stage.
pub fn uniform_size(stage: Stage, preset: &Params) -> (size: Option<u64>)
    ensures
        size == spec_uniform_size(stage, *preset),
{
    match stage {
        Stage::Particle => preset.particle.memsize(),
        Stage::Decay => preset.decay.memsize(),
        Stage::Diffuse => preset.diffuse.memsize(),
        Stage::Render => preset.render.memsize(),
    }
}

/// The binding layout of a stage: what its kernel expects at each binding.
pub fn stage_layout(stage: Stage, preset: &Params, global: &GlobalParams) -> (layout: Vec<
    LayoutEntry,
>)
    ensures
        layout@ == spec_stage_layout(stage, *preset, *global),
{
    let uniform = LayoutEntry {
        binding: 0,
        visibility: ShaderStage::Compute,
        kind: BindingKind::UniformBuffer { min_size: uniform_size(stage, preset) },
    };
    let read_texture = LayoutEntry {
        binding: 1,
        visibility: ShaderStage::Compute,
        kind: BindingKind::StorageTexture { access: TextureAccess::ReadOnly },
    };
    let write_texture = LayoutEntry {
        binding: 2,
        visibility: ShaderStage::Compute,
        kind: BindingKind::StorageTexture { access: TextureAccess::WriteOnly },
    };
    let layout = match stage {
        Stage::Particle => {
            let storage = storage_size(global.max_particles);
            vec![
                uniform,
                LayoutEntry {
                    binding: 1,
                    visibility: ShaderStage::Compute,
                    kind: BindingKind::StorageBuffer { read_only: true, min_size: storage },
                },
                LayoutEntry {
                    binding: 2,
                    visibility: ShaderStage::Compute,
                    kind: BindingKind::StorageBuffer { read_only: false, min_size: storage },
                },
                LayoutEntry { binding: 3, ..read_texture },
                LayoutEntry { binding: 4, ..write_texture },
            ]
        },
        Stage::Decay => vec![uniform, read_texture, write_texture],
        Stage::Diffuse => vec![uniform, read_texture, write_texture],
        Stage::Render => vec![
            LayoutEntry { visibility: ShaderStage::Fragment, ..uniform },
            LayoutEntry {
                binding: 1,
                visibility: ShaderStage::Fragment,
                kind: BindingKind::SampledTexture,
            },
            LayoutEntry {
                binding: 2,
                visibility: ShaderStage::Fragment,
                kind: BindingKind::Sampler,
            },
        ],
    };
    assert(layout@ =~= spec_stage_layout(stage, *preset, *global));
    layout
}

/// The resources bound for a stage in a frame of the given parity.
pub fn bind_group(stage: Stage, parity: usize) -> (entries: Vec<BindGroupEntry>)
    requires
        parity < SLOT_COUNT,
    ensures
        entries@ == spec_bind_group(stage, parity),
{
    let slots = slots_for(stage, parity);
    let read = slots.read;
    let uniform = BindGroupEntry { binding: 0, resource: Resource::Uniform(stage) };
    let entries = match (stage, slots.write) {
        (Stage::Particle, Some(write)) => vec![
            uniform,
            BindGroupEntry { binding: 1, resource: Resource::ParticleBuffer(read) },
            BindGroupEntry { binding: 2, resource: Resource::ParticleBuffer(write) },
            BindGroupEntry { binding: 3, resource: Resource::TrailTexture(read) },
            BindGroupEntry { binding: 4, resource: Resource::TrailTexture(write) },
        ],
        (_, Some(write)) => vec![
            uniform,
            BindGroupEntry { binding: 1, resource: Resource::TrailTexture(read) },
            BindGroupEntry { binding: 2, resource: Resource::TrailTexture(write) },
        ],
        (_, None) => vec![
            uniform,
            BindGroupEntry { binding: 1, resource: Resource::TrailTexture(read) },
            BindGroupEntry { binding: 2, resource: Resource::TrailSampler },
        ],
    };
    assert(entries@ =~= spec_bind_group(stage, parity));
    entries
}

/// What a stage reads and what it writes in a frame of the given parity.
pub fn stage_contract(stage: Stage, parity: usize) -> (contract: StageContract)
    requires
        parity < SLOT_COUNT,
    ensures
        contract.inputs@ == spec_inputs(stage, parity),
        contract.outputs@ == spec_outputs(stage, parity),
{
    let slots = slots_for(stage, parity);
    let read = slots.read;
    let uniform = Resource::Uniform(stage);
    let contract = match (stage, slots.write) {
        (Stage::Particle, Some(write)) => StageContract {
            inputs: vec![uniform, Resource::ParticleBuffer(read), Resource::TrailTexture(read)],
            outputs: vec![Resource::ParticleBuffer(write), Resource::TrailTexture(write)],
        },
        (_, Some(write)) => StageContract {
            inputs: vec![uniform, Resource::TrailTexture(read)],
            outputs: vec![Resource::TrailTexture(write)],
        },
        (_, None) => StageContract {
            inputs: vec![
                uniform,
                Resource::TrailTexture(read),
                Resource::TrailSampler,
                Resource::QuadVertices,
            ],
            outputs: vec![Resource::Surface],
        },
    };
    assert(contract.inputs@ =~= spec_inputs(stage, parity));
    assert(contract.outputs@ =~= spec_outputs(stage, parity));
    contract
}

/// The corners of the full-screen quad.
pub fn quad_vertices() -> (vertices: Vec<Scalar>)
    ensures
        vertices@ == spec_quad_vertices(),
{
    let lo = Scalar { bits: MINUS_ONE_BITS };
    let hi = Scalar { bits: ONE_BITS };
    let vertices = vec![lo, lo, hi, lo, hi, hi, lo, lo, hi, hi, lo, hi];
    assert(vertices@ =~= spec_quad_vertices());
    vertices
}

/// The sizes of everything that is allocated at startup, from the global
/// limits and the active preset.
pub fn plan_resources(preset: &Params, global: &GlobalParams) -> (plan: ResourcePlan)
    ensures
        plan == spec_plan_resources(*preset, *global),
{
    let vertices = quad_vertices();
    ResourcePlan {
        particle_buffer_count: SLOT_COUNT,
        trail_texture_count: SLOT_COUNT,
        particle_scalars: PARTICLE_SCALARS * (global.max_particles as u64),
        particle_buffer_bytes: PARTICLE_BYTES * (global.max_particles as u64),
        trail_width: SCREEN_WIDTH,
        trail_height: SCREEN_HEIGHT,
        vertex_buffer_bytes: 4 * (vertices.len() as u64),
        particle_uniform_bytes: uniform_size(Stage::Particle, preset),
        decay_uniform_bytes: uniform_size(Stage::Decay, preset),
        diffuse_uniform_bytes: uniform_size(Stage::Diffuse, preset),
        render_uniform_bytes: uniform_size(Stage::Render, preset),
    }
}

/// Whether two layout entries are the same.
pub fn same_entry(a: &LayoutEntry, b: &LayoutEntry) -> (same: bool)
    ensures
        same == (*a == *b),
{
    let same_kind = match (a.kind, b.kind) {
        (
            BindingKind::UniformBuffer { min_size: x },
            BindingKind::UniformBuffer { min_size: y },
        ) => same_size(x, y),
        (
            BindingKind::StorageBuffer { read_only: r, min_size: x },
            BindingKind::StorageBuffer { read_only: s, min_size: y },
        ) => r == s && same_size(x, y),
        (
            BindingKind::StorageTexture { access: x },
            BindingKind::StorageTexture { access: y },
        ) => x == y,
        (BindingKind::SampledTexture, BindingKind::SampledTexture) => true,
        (BindingKind::Sampler, BindingKind::Sampler) => true,
        _ => false,
    };
    a.binding == b.binding && a.visibility == b.visibility && same_kind
}

/// Whether two binding sizes are the same.
pub fn same_size(a: Option<u64>, b: Option<u64>) -> (same: bool)
    ensures
        same == (a == b),
{
    match (a, b) {
        (Some(x), Some(y)) => x == y,
        (None, None) => true,
        _ => false,
    }
}

/// Holds the schema that a kernel declares against the layout that will be
/// bound: they must agree entry by entry. On a mismatch the first position
/// that differs is reported.
pub fn check_schema(declared: &Vec<LayoutEntry>, layout: &Vec<LayoutEntry>) -> (r: Result<
    (),
    BindingMismatch,
>)
    ensures
        r is Ok <==> declared@ == layout@,
        r matches Err(m) ==> is_first_mismatch(declared@, layout@, m.position as nat),
{
    let mut i: usize = 0;
    while i < declared.len() && i < layout.len()
        invariant
            i <= declared@.len(),
            i <= layout@.len(),
            forall|j: int| 0 <= j < i ==> declared@[j] == layout@[j],
        decreases declared@.len() - i,
    {
        if !same_entry(&declared[i], &layout[i]) {
            return Err(BindingMismatch { position: i });
        }
        i = i + 1;
    }
    if declared.len() == layout.len() {
        assert(declared@ =~= layout@);
        Ok(())
    } else {
        Err(BindingMismatch { position: i })
    }
}

/// In every bind group each binding holds a resource of the kind the
/// stage's layout takes there, under the same binding number; a read-only
/// binding holds the slot the stage reads and a writable one the slot it
/// writes, and the two are never the same slot.
pub proof fn lemma_bind_group_fits_layout(
    stage: Stage,
    parity: usize,
    preset: Params,
    global: GlobalParams,
)
    requires
        parity < SLOT_COUNT,
    ensures
        spec_bind_group(stage, parity).len() == spec_stage_layout(stage, preset, global).len(),
        forall|k: int|
            0 <= k < spec_bind_group(stage, parity).len() ==> {
                &&& (#[trigger] spec_bind_group(stage, parity)[k]).binding == k
                &&& spec_stage_layout(stage, preset, global)[k].binding == k
                &&& resource_fits(
                    spec_stage_layout(stage, preset, global)[k].kind,
                    spec_bind_group(stage, parity)[k].resource,
                    stage,
                    parity,
                )
            },
        write_slot(stage, parity) != Some(read_slot(stage, parity)),
{
}

/// What is allocated is what the layouts ask for: each particle buffer has
/// the least size of the particle bindings, each uniform buffer that of its
/// stage's uniform binding, a particle buffer holds its initial state
/// exactly, and the vertex buffer holds the six vertices of the quad.
pub proof fn lemma_allocations_match_layouts(stage: Stage, preset: Params, global: GlobalParams)
    ensures
        spec_plan_resources(preset, global).particle_buffer_count == 2,
        spec_plan_resources(preset, global).trail_texture_count == 2,
        spec_plan_resources(preset, global).particle_buffer_bytes == 4 * spec_plan_resources(
            preset,
            global,
        ).particle_scalars,
        spec_storage_size(global.max_particles) == if global.max_particles == 0 {
            None
        } else {
            Some(spec_plan_resources(preset, global).particle_buffer_bytes)
        },
        spec_stage_layout(Stage::Particle, preset, global)[1].kind == (BindingKind::StorageBuffer {
            read_only: true,
            min_size: spec_storage_size(global.max_particles),
        }),
        spec_stage_layout(Stage::Particle, preset, global)[2].kind == (BindingKind::StorageBuffer {
            read_only: false,
            min_size: spec_storage_size(global.max_particles),
        }),
        spec_stage_layout(stage, preset, global)[0].kind == (BindingKind::UniformBuffer {
            min_size: match stage {
                Stage::Particle => spec_plan_resources(preset, global).particle_uniform_bytes,
                Stage::Decay => spec_plan_resources(preset, global).decay_uniform_bytes,
                Stage::Diffuse => spec_plan_resources(preset, global).diffuse_uniform_bytes,
                Stage::Render => spec_plan_resources(preset, global).render_uniform_bytes,
            },
        }),
        spec_plan_resources(preset, global).vertex_buffer_bytes == QUAD_VERTEX_COUNT
            * QUAD_VERTEX_STRIDE,
{
}

/// Sizes and layouts are fixed by the global limits alone: whichever preset
/// is active and however it is edited, the same buffers and bindings fit,
/// so nothing is ever allocated anew.
pub proof fn lemma_layout_ignores_the_preset(
    stage: Stage,
    preset: Params,
    other: Params,
    global: GlobalParams,
)
    ensures
        spec_plan_resources(preset, global) == spec_plan_resources(other, global),
        spec_stage_layout(stage, preset, global) == spec_stage_layout(stage, other, global),
{
}

/// A stage never reads and writes the same resource in one dispatch: none
/// of its inputs is among its outputs.
pub proof fn lemma_inputs_and_outputs_are_disjoint(stage: Stage, parity: usize, i: int, j: int)
    requires
        parity < SLOT_COUNT,
        0 <= i < spec_inputs(stage, parity).len(),
        0 <= j < spec_outputs(stage, parity).len(),
    ensures
        spec_inputs(stage, parity)[i] != spec_outputs(stage, parity)[j],
{
}

/// A bind group holds nothing but the stage's inputs and outputs: what is
/// bound where the kernel may write is an output, and everything else that
/// is bound is an input.
pub proof fn lemma_bind_group_binds_the_contract(
    stage: Stage,
    parity: usize,
    preset: Params,
    global: GlobalParams,
    k: int,
)
    requires
        parity < SLOT_COUNT,
        0 <= k < spec_bind_group(stage, parity).len(),
    ensures
        k < spec_stage_layout(stage, preset, global).len(),
        is_writable(spec_stage_layout(stage, preset, global)[k].kind) ==> spec_outputs(
            stage,
            parity,
        ).contains(spec_bind_group(stage, parity)[k].resource),
        !is_writable(spec_stage_layout(stage, preset, global)[k].kind) ==> spec_inputs(
            stage,
            parity,
        ).contains(spec_bind_group(stage, parity)[k].resource),
{
    let inputs = spec_inputs(stage, parity);
    let outputs = spec_outputs(stage, parity);
    let bound = spec_bind_group(stage, parity)[k].resource;
    if stage == Stage::Particle {
        if k == 0 {
            assert(bound == inputs[0]);
        } else if k == 1 {
            assert(bound == inputs[1]);
        } else if k == 2 {
            assert(bound == outputs[0]);
        } else if k == 3 {
            assert(bound == inputs[2]);
        } else {
            assert(bound == outputs[1]);
        }
    } else if k == 2 && stage != Stage::Render {
        assert(bound == outputs[0]);
    } else {
        assert(bound == inputs[k]);
    }
}

} // verus!
