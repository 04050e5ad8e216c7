use granular::{apply_gain, ms_to_samples, ConfigError, Mixdown, SelectionWindow, MAX_VOICES, UNITY};

const LOG2_3: u32 = 103872;

fn loudness_of(voices: usize) -> u32 {
    ((voices as f64).log2() * UNITY as f64).round() as u32
}

#[test]
fn selection_clamps_on_write() {
    let w = SelectionWindow::new(70000, 80000);
    assert_eq!((w.start, w.end), (UNITY, UNITY));
    let w = SelectionWindow::new(40000, 20000);
    assert_eq!((w.start, w.end), (20000, 20000));
    let mut w = SelectionWindow::new(1000, 2000);
    w.set_start(3000);
    assert_eq!((w.start, w.end), (2000, 2000));
    w.set_end(500);
    assert_eq!((w.start, w.end), (2000, 2000));
    w.set_end(90000);
    assert_eq!((w.start, w.end), (2000, UNITY));
    w.set_start(100);
    assert_eq!((w.start, w.end), (100, UNITY));
}

#[test]
fn selection_bounds_round_to_nearest_index() {
    assert_eq!(SelectionWindow::full().bounds(44100), (0, 44100));
    assert_eq!(SelectionWindow::new(UNITY / 2, UNITY).bounds(3), (2, 3));
    assert_eq!(SelectionWindow::new(UNITY / 4, 3 * UNITY / 4).bounds(10), (3, 8));
    assert_eq!(SelectionWindow::new(0, UNITY).bounds(0), (0, 0));
}

#[test]
fn ms_to_samples_rounds_down() {
    assert_eq!(ms_to_samples(10, 44100), 441);
    assert_eq!(ms_to_samples(100, 44100), 4410);
    assert_eq!(ms_to_samples(1, 44100), 44);
    assert_eq!(ms_to_samples(0, 48000), 0);
}

#[test]
fn mixdown_rejects_bad_configurations() {
    assert_eq!(Mixdown::new(0, UNITY), Err(ConfigError::TooFewVoices));
    assert_eq!(Mixdown::new(1, UNITY), Err(ConfigError::TooFewVoices));
    assert_eq!(Mixdown::new(MAX_VOICES + 1, UNITY * 17), Err(ConfigError::TooManyVoices));
    assert_eq!(Mixdown::new(2, UNITY - 1), Err(ConfigError::LoudnessBelowUnity));
    let m = Mixdown::new(3, LOG2_3).unwrap();
    assert_eq!(m.voices(), 3);
    assert_eq!(m.loudness(), LOG2_3);
}

#[test]
fn two_voices_pan_left_and_right() {
    let m = Mixdown::new(2, UNITY).unwrap();
    let lr = m.mix(&vec![32767, 0], 2);
    assert!(lr[0] > lr[1]);
    assert_eq!(lr, vec![32767, 0]);
    let lr = m.mix(&vec![0, 32767], 2);
    assert!(lr[1] > lr[0]);
    for x in [-32768i16, -5, 0, 1, 12345, 32767] {
        let lr = m.mix(&vec![x, x], 2);
        assert_eq!(lr[0], lr[1]);
    }
}

#[test]
fn stereo_weights_divide_by_loudness() {
    let m = Mixdown::new(3, LOG2_3).unwrap();
    // left = (3000 * 2 + 6000 * 1) / 2 / log2(3); right = (6000 * 1 + 9000 * 2) / 2 / log2(3)
    let lr = m.mix(&vec![3000, 6000, 9000], 2);
    assert_eq!(lr, vec![(6000i64 * 65536) / 103872, (12000i64 * 65536) / 103872]);
    assert_eq!(lr, vec![3785, 7571]);
    let lr = m.mix(&vec![-3000, -6000, -9000], 2);
    assert_eq!(lr, vec![-3785, -7571]);
}

#[test]
fn other_channel_counts_average_voices_round_robin() {
    let m = Mixdown::new(5, loudness_of(5)).unwrap();
    let frame = vec![10, 20, 30, 40, 50];
    assert_eq!(m.mix(&frame, 1), vec![30]);
    assert_eq!(m.mix(&frame, 3), vec![25, 35, 30]);
    assert_eq!(m.mix(&frame, 7), vec![10, 20, 30, 40, 50, 10, 20]);
    assert_eq!(m.mix(&frame, 0), Vec::<i64>::new());
    assert_eq!(m.mix(&vec![-1, -2, 0, 0, 0], 1), vec![0]);
    assert_eq!(m.mix(&vec![-5, -4, 0, 0, 0], 1), vec![-1]);
}

#[test]
fn uniform_input_keeps_output_energy_steady_as_voices_grow() {
    let x: i16 = 8000;
    for n in [1usize, 4] {
        let mut rms = Vec::new();
        for c in [2usize, 4, 8, 16] {
            let m = Mixdown::new(c, loudness_of(c)).unwrap();
            let out = m.mix(&vec![x; c], n);
            let energy: f64 = out.iter().map(|&v| (v as f64) * (v as f64)).sum();
            rms.push((energy / n as f64).sqrt());
        }
        for r in &rms {
            assert!((r - x as f64).abs() < 1e-9, "rms {:?}", rms);
        }
    }
}

#[test]
fn uniform_input_on_stereo_stays_centred_and_bounded() {
    let x: i16 = 8000;
    let mut levels = Vec::new();
    for c in [2usize, 4, 8, 16] {
        let m = Mixdown::new(c, loudness_of(c)).unwrap();
        let lr = m.mix(&vec![x; c], 2);
        assert_eq!(lr[0], lr[1]);
        levels.push(lr[0]);
    }
    // each side is x * (c / 2) / log2(c), rounded toward zero
    assert_eq!(levels, vec![8000, 8000, 10666, 16000]);
}

#[test]
fn gain_scales_toward_zero() {
    assert_eq!(apply_gain(1000, UNITY / 2), 500);
    assert_eq!(apply_gain(-1001, UNITY / 2), -500);
    assert_eq!(apply_gain(1234, UNITY), 1234);
    assert_eq!(apply_gain(1234, 0), 0);
    assert_eq!(apply_gain(2147483648, u32::MAX), 140737488322560);
}
