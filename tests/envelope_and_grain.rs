use granular::{clamp_length, progress, spawn, triangle, Grain, GrainSample, UNITY};
use rand::rngs::StdRng;
use rand::SeedableRng;

#[test]
fn triangle_starts_silent_and_peaks_in_the_middle() {
    assert_eq!(triangle(0), 0);
    assert_eq!(triangle(UNITY / 2), UNITY);
    assert_eq!(triangle(UNITY / 4), UNITY / 2);
    assert_eq!(triangle(3 * UNITY / 4), UNITY / 2);
    assert_eq!(triangle(UNITY - 1), 2);
}

#[test]
fn triangle_is_symmetric_about_the_middle() {
    for p in [1u32, 7, 1000, 20000, 32767, 32768, 40000, 65535] {
        assert_eq!(triangle(p), triangle(UNITY - p), "progress {}", p);
    }
}

#[test]
fn progress_is_the_fraction_of_the_grain_played() {
    assert_eq!(progress(0, 10), 0);
    assert_eq!(progress(5, 10), UNITY / 2);
    assert_eq!(progress(1, 3), 21845);
    assert_eq!(progress(9, 10), 58982);
}

#[test]
fn grain_sample_value_scales_by_envelope() {
    let s = GrainSample { sample_value: 1000, envelope_value: UNITY / 2 };
    assert_eq!(s.value(), 500);
    let s = GrainSample { sample_value: -1001, envelope_value: UNITY / 2 };
    assert_eq!(s.value(), -500);
    let s = GrainSample { sample_value: i16::MIN, envelope_value: UNITY };
    assert_eq!(s.value(), i16::MIN);
}

#[test]
fn grain_finishes_after_exactly_length_advances() {
    let samples: Vec<i16> = (0..20).map(|i| i as i16 * 100).collect();
    let mut g = Grain::new(4, 6);
    assert_eq!(g.end_frame, 10);
    assert!(!g.finished);
    for k in 0..6 {
        assert!(!g.finished, "finished early at step {}", k);
        let s = g.advance(&samples);
        assert_eq!(s.sample_value, ((4 + k) * 100) as i16);
    }
    assert!(g.finished);
    assert_eq!(g.current_frame, 10);
}

#[test]
fn grain_envelope_rises_then_falls() {
    let samples: Vec<i16> = vec![1000; 8];
    let mut g = Grain::new(0, 4);
    let envelopes: Vec<u32> = (0..4).map(|_| g.advance(&samples).envelope_value).collect();
    assert_eq!(envelopes, vec![0, UNITY / 2, UNITY, UNITY / 2]);
}

#[test]
fn idle_grain_is_finished() {
    let g = Grain::idle();
    assert!(g.finished);
    assert_eq!(g.length, 0);
}

#[test]
fn clamp_length_keeps_grain_inside_selection() {
    assert_eq!(clamp_length(0, 10), 1);
    assert_eq!(clamp_length(5, 10), 5);
    assert_eq!(clamp_length(9, 10), 9);
    assert_eq!(clamp_length(10, 10), 9);
    assert_eq!(clamp_length(5000, 2), 1);
}

#[test]
fn spawn_needs_room_for_a_grain() {
    let mut rng = StdRng::seed_from_u64(1);
    assert!(spawn(0, 0, 10, 100, &mut rng).is_none());
    assert!(spawn(5, 6, 10, 100, &mut rng).is_none());
    assert!(spawn(5, 7, 10, 100, &mut rng).is_some());
}

#[test]
fn spawned_grains_stay_inside_the_selection() {
    let mut rng = StdRng::seed_from_u64(7);
    for _ in 0..2000 {
        let g = spawn(1000, 3000, 50, 400, &mut rng).unwrap();
        assert!(g.start_frame >= 1000);
        assert!(g.end_frame < 3000);
        assert!(g.length >= 50 && g.length < 400);
        assert_eq!(g.current_frame, g.start_frame);
        assert_eq!(g.end_frame, g.start_frame + g.length);
        assert!(!g.finished);
    }
}

#[test]
fn spawn_clamps_long_grains_to_a_narrow_selection() {
    let mut rng = StdRng::seed_from_u64(3);
    for _ in 0..500 {
        let g = spawn(100, 120, 500, 1000, &mut rng).unwrap();
        assert_eq!(g.length, 19);
        assert_eq!(g.start_frame, 100);
        assert_eq!(g.end_frame, 119);
    }
}

#[test]
fn spawn_draws_varied_places_and_lengths() {
    let mut rng = StdRng::seed_from_u64(11);
    let grains: Vec<Grain> = (0..200).map(|_| spawn(0, 10000, 10, 1000, &mut rng).unwrap()).collect();
    assert!(grains.iter().any(|g| g.start_frame != 0));
    assert!(grains.iter().any(|g| g.length != 10));
    assert!(grains.iter().any(|g| g.start_frame != grains[0].start_frame));
}

#[test]
fn spawn_with_empty_length_range_uses_the_minimum() {
    let mut rng = StdRng::seed_from_u64(5);
    for _ in 0..100 {
        let g = spawn(0, 1000, 30, 30, &mut rng).unwrap();
        assert_eq!(g.length, 30);
    }
}
