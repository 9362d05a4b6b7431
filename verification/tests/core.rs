use pathtracer::accumulation::Accumulator;
use pathtracer::algebra::Vec3;
use pathtracer::camera::Camera;
use pathtracer::render::PathTracer;

#[test]
fn vec3_new_keeps_components() {
    let v = Vec3::new(0.75f32.to_bits(), (-0.5f32).to_bits(), 1.0f32.to_bits());
    assert_eq!(v.x(), 0.75f32.to_bits());
    assert_eq!(v.y(), (-0.5f32).to_bits());
    assert_eq!(v.z(), 1.0f32.to_bits());
}

#[test]
fn vec3_all_shares_one_pattern() {
    let v = Vec3::all(2.5f32.to_bits());
    assert_eq!(v.x(), v.y());
    assert_eq!(v.y(), v.z());
    assert_eq!(v.x(), 2.5f32.to_bits());
}

#[test]
fn vec3_zero_is_positive_zero() {
    // The all-zero pattern is exactly how IEEE-754 encodes +0.0, so the
    // additive identity (0, 0, 0) is the all-zero vector.
    let z = Vec3::zero();
    assert_eq!(z.x(), 0.0f32.to_bits());
    assert_eq!(z.y(), 0);
    assert_eq!(z.z(), 0);
    assert_eq!(f32::from_bits(z.x()), 0.0);
}

#[test]
fn vec3_default_is_zero() {
    assert_eq!(Vec3::default(), Vec3::zero());
}

#[test]
fn camera_origin_is_stored_exactly() {
    // The eye of the standard view: (0, 0.75, 1).
    let eye = Vec3::new(0.0f32.to_bits(), 0.75f32.to_bits(), 1.0f32.to_bits());
    let camera = Camera::new(eye);
    let bytes = camera.uniforms().to_bytes();
    assert_eq!(bytes[0..4], 0.0f32.to_bits().to_le_bytes());
    assert_eq!(bytes[4..8], 0.75f32.to_bits().to_le_bytes());
    assert_eq!(bytes[8..12], 1.0f32.to_bits().to_le_bytes());
}

#[test]
fn camera_uniform_block_layout() {
    let v = Vec3::new(0x01020304, 0x05060708, 0x090a0b0c);
    let camera = Camera::new(v);
    let bytes = camera.uniforms().to_bytes();
    assert_eq!(bytes.len(), 16);
    assert_eq!(
        bytes,
        vec![
            0x04, 0x03, 0x02, 0x01, // first component, little-endian
            0x08, 0x07, 0x06, 0x05, // second component
            0x0c, 0x0b, 0x0a, 0x09, // third component
            0x00, 0x00, 0x00, 0x00, // padding word
        ]
    );
}

#[test]
fn uniform_block_round_trips_through_bytes() {
    // Decoding the block positionally, as the kernel does, recovers the
    // origin components exactly.
    let eye = Vec3::new(0.0f32.to_bits(), 0.75f32.to_bits(), 1.0f32.to_bits());
    let bytes = Camera::new(eye).uniforms().to_bytes();
    let word = |lo: usize| u32::from_le_bytes(bytes[lo..lo + 4].try_into().unwrap());
    assert_eq!(f32::from_bits(word(0)), 0.0);
    assert_eq!(f32::from_bits(word(4)), 0.75);
    assert_eq!(f32::from_bits(word(8)), 1.0);
    assert_eq!(word(12), 0);
}

#[test]
fn camera_uniforms_reflect_latest_origin() {
    let mut camera = Camera::new(Vec3::zero());
    camera.set_origin(Vec3::all(1.5f32.to_bits()));
    camera.set_origin(Vec3::new(1, 2, 3));
    let bytes = camera.uniforms().to_bytes();
    assert_eq!(bytes[0], 1);
    assert_eq!(bytes[4], 2);
    assert_eq!(bytes[8], 3);
    assert_eq!(&bytes[12..16], &[0, 0, 0, 0]);
}

#[test]
fn tracer_starts_at_zero_samples() {
    let tracer = PathTracer::new(1600, 1200);
    assert_eq!(tracer.sample_count(), 0);
    assert_eq!(tracer.pixel_count(), 1600 * 1200);
}

#[test]
fn tracer_counter_counts_frames() {
    let mut tracer = PathTracer::new(8, 8);
    assert_eq!(tracer.advance_frame(), 1);
    assert_eq!(tracer.advance_frame(), 2);
    assert_eq!(tracer.advance_frame(), 3);
    assert_eq!(tracer.sample_count(), 3);
}

#[test]
fn tracer_reset_restarts_counting() {
    let mut tracer = PathTracer::new(8, 8);
    tracer.advance_frame();
    tracer.advance_frame();
    tracer.reset_samples();
    assert_eq!(tracer.sample_count(), 0);
    assert_eq!(tracer.advance_frame(), 1);
}

#[test]
fn tracer_reset_is_idempotent() {
    let mut once = PathTracer::new(8, 8);
    let mut twice = PathTracer::new(8, 8);
    for _ in 0..5 {
        once.advance_frame();
        twice.advance_frame();
    }
    once.reset_samples();
    twice.reset_samples();
    twice.reset_samples();
    assert_eq!(once.sample_count(), twice.sample_count());
    assert_eq!(once.pixel_count(), twice.pixel_count());
}

#[test]
fn accumulator_starts_empty() {
    let accum = Accumulator::new(4);
    assert_eq!(accum.pixel_count(), 4);
    assert_eq!(accum.sample_count(), 0);
}

#[test]
fn accumulator_reset_is_idempotent() {
    let mut once = Accumulator::new(3);
    let mut twice = Accumulator::new(3);
    let frame = vec![9, 8, 7];
    once.add_frame(&frame);
    twice.add_frame(&frame);
    once.reset();
    twice.reset();
    twice.reset();
    assert_eq!(once.sample_count(), twice.sample_count());
    let probe = vec![2, 4, 6];
    once.add_frame(&probe);
    twice.add_frame(&probe);
    assert_eq!(once.resolve(), twice.resolve());
}

#[test]
fn first_frame_after_reset_resolves_exactly() {
    let mut accum = Accumulator::new(3);
    accum.add_frame(&vec![100, 200, 300]);
    accum.add_frame(&vec![50, 60, 70]);
    accum.reset();
    accum.add_frame(&vec![11, 22, 33]);
    assert_eq!(accum.sample_count(), 1);
    // Exactly the frame itself: no blend with anything before the reset.
    assert_eq!(accum.resolve(), vec![11, 22, 33]);
}

#[test]
fn resolved_image_is_running_mean() {
    let mut accum = Accumulator::new(2);
    accum.add_frame(&vec![3, 5]);
    assert_eq!(accum.resolve(), vec![3, 5]);
    accum.add_frame(&vec![5, 9]);
    assert_eq!(accum.sample_count(), 2);
    assert_eq!(accum.resolve(), vec![(3 + 5) / 2, (5 + 9) / 2]);
    accum.add_frame(&vec![4, 7]);
    assert_eq!(accum.sample_count(), 3);
    assert_eq!(accum.resolve(), vec![(3 + 5 + 4) / 3, (5 + 9 + 7) / 3]);
}

#[test]
fn equal_frames_resolve_to_that_frame() {
    let mut accum = Accumulator::new(2);
    for _ in 0..4 {
        accum.add_frame(&vec![12, 34]);
    }
    assert_eq!(accum.resolve(), vec![12, 34]);
}

#[test]
fn empty_target_accumulates_nothing() {
    let mut accum = Accumulator::new(0);
    assert_eq!(accum.pixel_count(), 0);
    accum.add_frame(&vec![]);
    assert_eq!(accum.sample_count(), 1);
    assert_eq!(accum.resolve(), Vec::<u64>::new());
}

#[test]
fn resolve_truncates_a_fractional_mean() {
    // The model resolves by Euclidean division: 1 + 2 over two samples
    // yields 1, not 1.5 rounded.
    let mut accum = Accumulator::new(1);
    accum.add_frame(&vec![1]);
    accum.add_frame(&vec![2]);
    assert_eq!(accum.resolve(), vec![1]);
}

#[test]
fn largest_single_contribution_resolves_unchanged() {
    let mut accum = Accumulator::new(1);
    accum.add_frame(&vec![u64::MAX]);
    assert_eq!(accum.resolve(), vec![u64::MAX]);
}
