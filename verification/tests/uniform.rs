use mold_sim::params::{DecayParams, DiffuseParams, ParticleParams, RenderParams, Scalar};
use mold_sim::uniform::{cast_slice, Uniform};

fn scalar(value: f32) -> Scalar {
    Scalar::from_bits(value.to_bits())
}

fn native(words: &[u32]) -> Vec<u8> {
    let mut bytes = Vec::new();
    for w in words {
        bytes.extend_from_slice(&w.to_ne_bytes());
    }
    bytes
}

fn little(words: &[u32]) -> Vec<u8> {
    let mut bytes = Vec::new();
    for w in words {
        bytes.extend_from_slice(&w.to_le_bytes());
    }
    bytes
}

fn big(words: &[u32]) -> Vec<u8> {
    let mut bytes = Vec::new();
    for w in words {
        bytes.extend_from_slice(&w.to_be_bytes());
    }
    bytes
}

fn particle() -> ParticleParams {
    ParticleParams {
        trail_power: scalar(5.0),
        speed: scalar(1.5),
        sensor_angle: scalar(0.5),
        sensor_distance: scalar(0.005),
        turn_speed: scalar(1.25),
        num_particles: 0x0102_0304,
    }
}

fn render() -> RenderParams {
    RenderParams {
        color_1: [scalar(0.0), scalar(0.5), scalar(1.0)],
        color_2: [scalar(1.0), scalar(0.25), scalar(-2.0)],
        color_pow: scalar(0.5),
        cutoff: scalar(0.125),
    }
}

#[test]
fn cast_slice_gives_the_memory_image() {
    let words = [0x0102_0304u32, 0, 0xffff_ffff, 0x3f80_0000];
    let bytes = cast_slice(&words);
    assert_eq!(bytes.len(), 16);
    assert_eq!(bytes, native(&words));
    assert!(bytes == little(&words) || bytes == big(&words));
    let word = [0x0102_0304u32];
    let one = cast_slice(&word);
    assert!(one == [4, 3, 2, 1] || one == [1, 2, 3, 4]);
}

#[test]
fn cast_slice_of_nothing_is_empty() {
    assert_eq!(cast_slice(&[]), &[] as &[u8]);
}

#[test]
fn cast_slice_agrees_with_the_cast_of_the_numbers() {
    let values = [1.0f32, -1.0, 0.5, 3.25];
    let words: Vec<u32> = values.iter().map(|v| v.to_bits()).collect();
    let expected: &[u8] = bytemuck::cast_slice(&values);
    assert_eq!(cast_slice(&words), expected);
}

#[test]
fn particle_words_follow_the_fields() {
    let p = particle();
    assert_eq!(
        p.words(),
        vec![
            5.0f32.to_bits(),
            1.5f32.to_bits(),
            0.5f32.to_bits(),
            0.005f32.to_bits(),
            1.25f32.to_bits(),
            0x0102_0304,
        ]
    );
    assert_eq!(p.to_bytes(), native(&p.words()));
    assert_eq!(p.to_bytes().len(), 24);
}

#[test]
fn decay_and_diffuse_are_one_word_each() {
    let decay = DecayParams { decay_rate: scalar(0.75) };
    let diffuse = DiffuseParams { diffuse_amount: scalar(0.25) };
    assert_eq!(decay.words(), vec![0.75f32.to_bits()]);
    assert_eq!(diffuse.words(), vec![0.25f32.to_bits()]);
    assert_eq!(decay.to_bytes(), 0.75f32.to_ne_bytes().to_vec());
    assert_eq!(diffuse.to_bytes(), 0.25f32.to_ne_bytes().to_vec());
}

#[test]
fn render_words_are_the_two_colors_then_power_and_cutoff() {
    let r = render();
    let expected: Vec<u32> =
        [0.0f32, 0.5, 1.0, 1.0, 0.25, -2.0, 0.5, 0.125].iter().map(|v| v.to_bits()).collect();
    assert_eq!(r.words(), expected);
    assert_eq!(r.to_bytes(), native(&expected));
    assert_eq!(r.to_bytes().len(), 32);
}

#[test]
fn memsize_is_four_bytes_a_word() {
    assert_eq!(particle().memsize(), Some(24));
    assert_eq!(DecayParams { decay_rate: scalar(0.75) }.memsize(), Some(4));
    assert_eq!(DiffuseParams { diffuse_amount: scalar(0.25) }.memsize(), Some(4));
    assert_eq!(render().memsize(), Some(32));
}
