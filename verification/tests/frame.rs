use mold_sim::frame::{
    particle_work_groups, screen_work_groups, stage_pass, stage_setup, stage_upload, work_groups,
    FramePlan, KernelMismatch, MoldSim, Pass, PipelineKind, Work, PARTICLES_PER_GROUP, TILE_SIZE,
};
use mold_sim::layout::{
    bind_group, plan_resources, quad_vertices, stage_layout, BindGroupEntry, BindingKind,
    LayoutEntry, Resource,
};
use mold_sim::params::{
    DecayParams, DiffuseParams, GlobalParams, ParamManager, Params, ParticleParams, RenderParams,
    Scalar,
};
use mold_sim::pool::{slots_for, Stage};
use mold_sim::uniform::Uniform;

fn scalar(value: f32) -> Scalar {
    Scalar::from_bits(value.to_bits())
}

fn preset(name: &str, num_particles: u32) -> Params {
    Params {
        name: name.to_string(),
        particle: ParticleParams {
            trail_power: scalar(5.0),
            speed: scalar(1.0),
            sensor_angle: scalar(0.5),
            sensor_distance: scalar(0.005),
            turn_speed: scalar(1.25),
            num_particles,
        },
        decay: DecayParams { decay_rate: scalar(0.75) },
        diffuse: DiffuseParams { diffuse_amount: scalar(0.25) },
        render: RenderParams {
            color_1: [scalar(0.0), scalar(0.5), scalar(1.0)],
            color_2: [scalar(1.0), scalar(0.25), scalar(0.0)],
            color_pow: scalar(0.5),
            cutoff: scalar(0.125),
        },
    }
}

fn store(num_particles: u32, post_enabled: bool) -> ParamManager {
    ParamManager {
        current: 1,
        params: vec![preset("First", 1), preset("Second", num_particles)],
        global: GlobalParams { post_enabled, max_particles: 1 << 20 },
    }
}

fn sim(num_particles: u32, post_enabled: bool) -> MoldSim {
    MoldSim::init(store(num_particles, post_enabled)).0
}

fn stages(plan: &FramePlan) -> Vec<Stage> {
    plan.passes.iter().map(|p| p.stage).collect()
}

/// Follows the generation of the two trail slots through the passes of a
/// frame: diffuse starts a new one, the other stages carry on what they read.
fn run(slots: &mut [Option<usize>; 2], plan: &FramePlan, frame: usize) -> Option<usize> {
    let mut sampled = None;
    for pass in &plan.passes {
        let s = slots_for(pass.stage, pass.bind_group);
        match s.write {
            Some(w) => {
                slots[w] = if pass.stage == Stage::Diffuse { Some(frame) } else { slots[s.read] }
            }
            None => sampled = slots[s.read],
        }
    }
    sampled
}

#[test]
fn particle_work_groups_of_1024_particles() {
    assert_eq!(PARTICLES_PER_GROUP, 64);
    assert_eq!(particle_work_groups(1024), 16);
}

#[test]
fn screen_work_groups_of_the_full_field() {
    assert_eq!(TILE_SIZE, 16);
    assert_eq!(screen_work_groups(3200, 1800), (200, 113));
}

#[test]
fn work_groups_round_up() {
    assert_eq!(particle_work_groups(0), 0);
    assert_eq!(particle_work_groups(1), 1);
    assert_eq!(particle_work_groups(63), 1);
    assert_eq!(particle_work_groups(64), 1);
    assert_eq!(particle_work_groups(65), 2);
    assert_eq!(particle_work_groups(1023), 16);
    assert_eq!(particle_work_groups(1025), 17);
    assert_eq!(particle_work_groups(16_777_217), 262_145);
    assert_eq!(particle_work_groups(u32::MAX), 67_108_864);
    assert_eq!(work_groups(10, 1), 10);
    assert_eq!(work_groups(10, 3), 4);
    assert_eq!(work_groups(9, 3), 3);
    assert_eq!(work_groups(u32::MAX, 1), u32::MAX);
    assert_eq!(work_groups(u32::MAX, u32::MAX), 1);
    assert_eq!(work_groups(5, u32::MAX), 1);
    assert_eq!(screen_work_groups(0, 0), (0, 0));
    assert_eq!(screen_work_groups(16, 17), (1, 2));
}

#[test]
fn work_groups_are_the_least_cover() {
    for items in 0..300u32 {
        for per_group in 1..20u32 {
            let groups = work_groups(items, per_group);
            assert!(groups * per_group >= items);
            assert!(groups == 0 || (groups - 1) * per_group < items);
        }
    }
}

#[test]
fn init_starts_at_frame_zero() {
    let s = sim(1024, true);
    assert_eq!(s.frame_num, 0);
    assert_eq!(s.parity(), 0);
    assert_eq!(s.particle_work_group_count, 16);
    assert_eq!(s.screen_work_group_count, (200, 113));
    assert_eq!(s.params.current, 1);
    assert_eq!(s.params.params.len(), 2);
}

#[test]
fn a_frame_with_post_processing_runs_all_four_stages() {
    let mut s = sim(1024, true);
    let plan = s.render();
    assert_eq!(
        plan.passes,
        vec![
            Pass { stage: Stage::Particle, bind_group: 0, work: Work::Dispatch { x: 16, y: 1, z: 1 } },
            Pass { stage: Stage::Decay, bind_group: 0, work: Work::Dispatch { x: 200, y: 113, z: 1 } },
            Pass { stage: Stage::Diffuse, bind_group: 0, work: Work::Dispatch { x: 200, y: 113, z: 1 } },
            Pass { stage: Stage::Render, bind_group: 0, work: Work::Draw { vertices: 6, instances: 1 } },
        ]
    );
    assert_eq!(s.frame_num, 1);
}

#[test]
fn a_frame_without_post_processing_skips_decay_and_diffuse() {
    let mut s = sim(100, false);
    let plan = s.render();
    assert_eq!(
        plan.passes,
        vec![
            Pass { stage: Stage::Particle, bind_group: 0, work: Work::Dispatch { x: 2, y: 1, z: 1 } },
            Pass { stage: Stage::Render, bind_group: 0, work: Work::Draw { vertices: 6, instances: 1 } },
        ]
    );
}

#[test]
fn frames_alternate_between_the_bind_groups() {
    let mut s = sim(1024, true);
    for frame in 0..9usize {
        assert_eq!(s.frame_num, frame);
        assert_eq!(s.parity(), frame % 2);
        let plan = s.render();
        for pass in &plan.passes {
            assert_eq!(pass.bind_group, frame % 2);
        }
        assert_eq!(s.frame_num, frame + 1);
    }
}

#[test]
fn every_frame_uploads_all_four_uniforms_of_the_active_preset() {
    let mut s = sim(1024, false);
    let plan = s.render();
    let active = s.params.current().clone();
    assert_eq!(plan.uploads.len(), 4);
    assert_eq!(plan.uploads[0].stage, Stage::Particle);
    assert_eq!(plan.uploads[1].stage, Stage::Decay);
    assert_eq!(plan.uploads[2].stage, Stage::Diffuse);
    assert_eq!(plan.uploads[3].stage, Stage::Render);
    assert_eq!(plan.uploads[0].bytes, active.particle.to_bytes());
    assert_eq!(plan.uploads[1].bytes, active.decay.to_bytes());
    assert_eq!(plan.uploads[2].bytes, active.diffuse.to_bytes());
    assert_eq!(plan.uploads[3].bytes, active.render.to_bytes());
    assert_eq!(plan.uploads[0].bytes.len(), 24);
    assert_eq!(&plan.uploads[0].bytes[20..], &1024u32.to_ne_bytes()[..]);
    assert_eq!(plan.uploads[1].bytes, 0.75f32.to_ne_bytes().to_vec());
    assert_eq!(plan.uploads[3].bytes.len(), 32);
}

#[test]
fn edits_between_frames_show_in_the_next_frame() {
    let mut s = sim(1024, true);
    let _ = s.render();
    s.params.current_mut().particle.num_particles = 130;
    s.params.current_mut().decay.decay_rate = scalar(0.5);
    s.params.global.post_enabled = false;
    let plan = s.render();
    assert_eq!(s.particle_work_group_count, 3);
    assert_eq!(plan.passes.len(), 2);
    assert_eq!(plan.passes[0].work, Work::Dispatch { x: 3, y: 1, z: 1 });
    assert_eq!(plan.passes[0].bind_group, 1);
    assert_eq!(&plan.uploads[0].bytes[20..], &130u32.to_ne_bytes()[..]);
    assert_eq!(plan.uploads[1].bytes, 0.5f32.to_ne_bytes().to_vec());
    assert_eq!(s.frame_num, 2);
}

#[test]
fn switching_the_preset_changes_what_is_uploaded() {
    let mut s = sim(1024, true);
    assert_eq!(s.params.select(0), Ok(()));
    let plan = s.render();
    assert_eq!(s.particle_work_group_count, 1);
    assert_eq!(&plan.uploads[0].bytes[20..], &1u32.to_ne_bytes()[..]);
}

#[test]
fn render_leaves_the_store_as_it_is() {
    let mut s = sim(1024, true);
    let before = s.params.clone();
    let _ = s.render();
    let _ = s.render();
    assert_eq!(s.params, before);
    assert_eq!(s.screen_work_group_count, (200, 113));
}

#[test]
fn stage_pass_and_upload_by_stage() {
    assert_eq!(
        stage_pass(Stage::Particle, 1, 5, (7, 9)),
        Pass { stage: Stage::Particle, bind_group: 1, work: Work::Dispatch { x: 5, y: 1, z: 1 } }
    );
    assert_eq!(
        stage_pass(Stage::Diffuse, 0, 5, (7, 9)),
        Pass { stage: Stage::Diffuse, bind_group: 0, work: Work::Dispatch { x: 7, y: 9, z: 1 } }
    );
    assert_eq!(
        stage_pass(Stage::Render, 1, 5, (7, 9)),
        Pass { stage: Stage::Render, bind_group: 1, work: Work::Draw { vertices: 6, instances: 1 } }
    );
    let p = preset("P", 3);
    let upload = stage_upload(Stage::Diffuse, &p);
    assert_eq!(upload.stage, Stage::Diffuse);
    assert_eq!(upload.bytes, 0.25f32.to_ne_bytes().to_vec());
}

#[test]
fn with_post_processing_render_samples_this_frames_diffuse_output() {
    let mut s = sim(1024, true);
    let mut slots = [None, None];
    for frame in 0..6usize {
        let plan = s.render();
        assert_eq!(stages(&plan), vec![Stage::Particle, Stage::Decay, Stage::Diffuse, Stage::Render]);
        assert_eq!(run(&mut slots, &plan, frame), Some(frame));
    }
}

#[test]
fn without_post_processing_render_keeps_sampling_the_same_field() {
    let mut s = sim(1024, true);
    let mut slots = [None, None];
    let mut sampled = None;
    for frame in 0..3usize {
        sampled = run(&mut slots, &s.render(), frame);
    }
    assert_eq!(sampled, Some(2));
    s.params.global.post_enabled = false;
    for frame in 3..10usize {
        let plan = s.render();
        assert_eq!(stages(&plan), vec![Stage::Particle, Stage::Render]);
        assert_eq!(run(&mut slots, &plan, frame), Some(2));
    }
    s.params.global.post_enabled = true;
    assert_eq!(run(&mut slots, &s.render(), 10), Some(10));
}

#[test]
fn a_field_that_was_never_post_processed_stays_blank() {
    let mut s = sim(1024, false);
    let mut slots = [None, None];
    for frame in 0..5usize {
        assert_eq!(run(&mut slots, &s.render(), frame), None);
        assert_eq!(slots, [None, None]);
    }
}

#[test]
fn a_count_over_capacity_is_dispatched_as_it_stands() {
    let mut s = sim(1024, false);
    s.params.global.max_particles = 100;
    assert!(!s.params.fits_capacity());
    let plan = s.render();
    assert_eq!(plan.passes[0].work, Work::Dispatch { x: 16, y: 1, z: 1 });
    s.params.set_num_particles(1024);
    assert!(s.params.fits_capacity());
    let plan = s.render();
    assert_eq!(plan.passes[0].work, Work::Dispatch { x: 2, y: 1, z: 1 });
}

#[test]
fn the_last_frame_index_can_still_be_planned() {
    let mut s = sim(64, true);
    s.frame_num = usize::MAX - 1;
    assert_eq!(s.parity(), 0);
    let plan = s.render();
    assert_eq!(plan.passes[0].bind_group, 0);
    assert_eq!(s.frame_num, usize::MAX);
    assert_eq!(s.parity(), 1);
}

const STAGES: [Stage; 4] = [Stage::Particle, Stage::Decay, Stage::Diffuse, Stage::Render];

#[test]
fn startup_plans_two_buffers_and_two_textures_by_the_capacity() {
    let (s, plan) = MoldSim::init(store(1024, true));
    assert_eq!(plan.resources, plan_resources(s.params.current(), &s.params.global));
    assert_eq!(plan.resources.particle_buffer_count, 2);
    assert_eq!(plan.resources.trail_texture_count, 2);
    assert_eq!(plan.resources.particle_buffer_bytes, 16 << 20);
    assert_eq!(plan.resources.particle_scalars, 4 << 20);
    assert_eq!((plan.resources.trail_width, plan.resources.trail_height), (3200, 1800));
    assert_eq!(plan.quad, quad_vertices());
}

#[test]
fn startup_sizes_do_not_follow_the_particle_count_in_use() {
    let (_, few) = MoldSim::init(store(1, true));
    let (_, many) = MoldSim::init(store(1 << 20, false));
    assert_eq!(few.resources, many.resources);
    for (a, b) in few.stages.iter().zip(many.stages.iter()) {
        assert_eq!(a.layout, b.layout);
        assert_eq!(a.bind_groups, b.bind_groups);
    }
}

#[test]
fn startup_sets_up_the_four_stages_in_order() {
    let (s, plan) = MoldSim::init(store(1024, true));
    assert_eq!(plan.stages.len(), 4);
    for (setup, stage) in plan.stages.iter().zip(STAGES) {
        assert_eq!(setup.stage, stage);
        assert_eq!(setup.layout, stage_layout(stage, s.params.current(), &s.params.global));
        assert_eq!(setup.bind_groups, vec![bind_group(stage, 0), bind_group(stage, 1)]);
        assert_eq!(setup.upload, stage_upload(stage, s.params.current()));
        assert_eq!(*setup, stage_setup(stage, s.params.current(), &s.params.global));
    }
    assert_eq!(plan.stages[0].pipeline, PipelineKind::Compute);
    assert_eq!(plan.stages[1].pipeline, PipelineKind::Compute);
    assert_eq!(plan.stages[2].pipeline, PipelineKind::Compute);
    assert_eq!(plan.stages[3].pipeline, PipelineKind::Raster);
}

#[test]
fn startup_binding_sizes_are_24_4_4_32_and_16_bytes_a_particle() {
    let (_, plan) = MoldSim::init(store(1024, true));
    let sizes: Vec<BindingKind> = plan.stages.iter().map(|s| s.layout[0].kind).collect();
    assert_eq!(
        sizes,
        vec![
            BindingKind::UniformBuffer { min_size: Some(24) },
            BindingKind::UniformBuffer { min_size: Some(4) },
            BindingKind::UniformBuffer { min_size: Some(4) },
            BindingKind::UniformBuffer { min_size: Some(32) },
        ]
    );
    assert_eq!(
        plan.stages[0].layout[1].kind,
        BindingKind::StorageBuffer { read_only: true, min_size: Some(16 << 20) }
    );
    assert_eq!(
        plan.stages[0].layout[2].kind,
        BindingKind::StorageBuffer { read_only: false, min_size: Some(16 << 20) }
    );
    assert_eq!(plan.stages[3].upload.bytes.len(), 32);
}

#[test]
fn startup_binds_the_slots_of_either_parity() {
    let (_, plan) = MoldSim::init(store(1024, true));
    let entry = |binding, resource| BindGroupEntry { binding, resource };
    for p in 0..2usize {
        let q = 1 - p;
        assert_eq!(
            plan.stages[0].bind_groups[p],
            vec![
                entry(0, Resource::Uniform(Stage::Particle)),
                entry(1, Resource::ParticleBuffer(p)),
                entry(2, Resource::ParticleBuffer(q)),
                entry(3, Resource::TrailTexture(p)),
                entry(4, Resource::TrailTexture(q)),
            ]
        );
        assert_eq!(
            plan.stages[1].bind_groups[p],
            vec![
                entry(0, Resource::Uniform(Stage::Decay)),
                entry(1, Resource::TrailTexture(q)),
                entry(2, Resource::TrailTexture(p)),
            ]
        );
        assert_eq!(
            plan.stages[2].bind_groups[p],
            vec![
                entry(0, Resource::Uniform(Stage::Diffuse)),
                entry(1, Resource::TrailTexture(p)),
                entry(2, Resource::TrailTexture(q)),
            ]
        );
        assert_eq!(
            plan.stages[3].bind_groups[p],
            vec![
                entry(0, Resource::Uniform(Stage::Render)),
                entry(1, Resource::TrailTexture(q)),
                entry(2, Resource::TrailSampler),
            ]
        );
    }
}

#[test]
fn kernels_that_declare_the_layouts_fit() {
    let (_, plan) = MoldSim::init(store(1024, true));
    let declared: Vec<Vec<LayoutEntry>> = plan.stages.iter().map(|s| s.layout.clone()).collect();
    assert_eq!(plan.check_kernels(&declared), Ok(()));
}

#[test]
fn the_first_kernel_that_does_not_fit_is_reported() {
    let (_, plan) = MoldSim::init(store(1024, true));
    let fitting: Vec<Vec<LayoutEntry>> = plan.stages.iter().map(|s| s.layout.clone()).collect();
    let mut declared = fitting.clone();
    declared[2][1].binding = 7;
    declared[3][0].kind = BindingKind::Sampler;
    assert_eq!(plan.check_kernels(&declared), Err(KernelMismatch { stage: 2, position: 1 }));
    let mut declared = fitting.clone();
    declared[0].pop();
    assert_eq!(plan.check_kernels(&declared), Err(KernelMismatch { stage: 0, position: 4 }));
    let mut declared = fitting.clone();
    declared.swap(0, 3);
    assert_eq!(plan.check_kernels(&declared), Err(KernelMismatch { stage: 0, position: 0 }));
}

#[test]
fn a_missing_or_surplus_kernel_is_reported() {
    let (_, plan) = MoldSim::init(store(1024, true));
    let fitting: Vec<Vec<LayoutEntry>> = plan.stages.iter().map(|s| s.layout.clone()).collect();
    let mut declared = fitting.clone();
    declared.pop();
    assert_eq!(plan.check_kernels(&declared), Err(KernelMismatch { stage: 3, position: 0 }));
    let mut declared = fitting.clone();
    declared.push(Vec::new());
    assert_eq!(plan.check_kernels(&declared), Err(KernelMismatch { stage: 4, position: 0 }));
    assert_eq!(plan.check_kernels(&Vec::new()), Err(KernelMismatch { stage: 0, position: 0 }));
}

#[test]
fn every_pass_of_a_frame_runs_with_the_frames_parity() {
    for post in [false, true] {
        let mut s = sim(1000, post);
        for frame in 0..6usize {
            let plan = s.render();
            assert_eq!(plan.passes.len(), if post { 4 } else { 2 });
            for pass in &plan.passes {
                assert_eq!(pass.bind_group, frame % 2);
            }
            assert_eq!(plan.passes[0].stage, Stage::Particle);
            assert_eq!(plan.passes[plan.passes.len() - 1].stage, Stage::Render);
        }
    }
}

#[test]
fn the_particle_dispatch_is_the_least_that_covers_the_count() {
    for n in [0u32, 1, 63, 64, 65, 1000, 1 << 20, u32::MAX] {
        let mut s = sim(n, false);
        let _ = s.render();
        let c = s.particle_work_group_count as u64;
        assert!(64 * c >= n as u64);
        assert!(n != 0 || c == 0);
        assert!(n == 0 || 64 * (c - 1) < n as u64);
    }
}
