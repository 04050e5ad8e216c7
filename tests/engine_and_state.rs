use std::sync::Arc;
use granular::{AppAction, AppState, ConfigError, Engine, GranularSynthesizer, PlayStatus, SelectionWindow, UNITY};

fn ramp(len: usize) -> Arc<Vec<i16>> {
    Arc::new((0..len).map(|i| ((i % 2000) as i32 - 1000) as i16 * 10).collect())
}

#[test]
fn engine_rejects_fewer_than_two_voices() {
    assert_eq!(Engine::new(ramp(100), 1, 44100, 1, UNITY, 0).err(), Some(ConfigError::TooFewVoices));
    assert!(Engine::new(ramp(100), 1, 44100, 2, UNITY, 0).is_ok());
}

#[test]
fn paused_engine_emits_exact_silence() {
    let mut e = Engine::new(ramp(44100), 1, 44100, 4, 2 * UNITY, 9).unwrap();
    let mut out = vec![7i64; 2];
    for _ in 0..200 {
        e.render_frame(PlayStatus::Playing, SelectionWindow::full(), UNITY, &mut out);
    }
    let before: Vec<_> = (0..4).map(|i| e.synthesizer().grain(i)).collect();
    for gain in [0, UNITY, u32::MAX] {
        for sel in [SelectionWindow::full(), SelectionWindow::new(100, 200)] {
            let mut out = vec![7i64; 6];
            e.render_frame(PlayStatus::Paused, sel, gain, &mut out);
            assert_eq!(out, vec![0; 6]);
        }
    }
    let after: Vec<_> = (0..4).map(|i| e.synthesizer().grain(i)).collect();
    assert_eq!(before, after);
}

#[test]
fn empty_buffer_plays_silence_and_spawns_nothing() {
    let mut e = Engine::new(Arc::new(Vec::new()), 0, 44100, 3, 103872, 4).unwrap();
    for _ in 0..100 {
        let mut out = vec![9i64; 2];
        e.render_frame(PlayStatus::Playing, SelectionWindow::full(), UNITY, &mut out);
        assert_eq!(out, vec![0, 0]);
        for i in 0..3 {
            assert!(e.synthesizer().grain(i).finished);
        }
    }
}

#[test]
fn three_voices_over_one_second_spawn_grains_of_ten_to_hundred_ms() {
    let mut e = Engine::new(ramp(44100), 1, 44100, 3, 103872, 42).unwrap();
    assert_eq!(e.synthesizer().grain_len_min_ms(), 10);
    assert_eq!(e.synthesizer().grain_len_max_ms(), 100);
    let mut out = vec![0i64; 2];
    let mut spawned = 0;
    for _ in 0..44100 {
        e.render_frame(PlayStatus::Playing, SelectionWindow::full(), UNITY, &mut out);
        for i in 0..3 {
            let g = e.synthesizer().grain(i);
            if g.current_frame == g.start_frame + 1 {
                spawned += 1;
                assert!(g.length >= 441 && g.length < 4410, "length {}", g.length);
                assert!(g.end_frame < 44100);
            }
        }
    }
    assert!(spawned >= 3 * 10);
}

#[test]
fn grains_spawn_inside_a_narrowed_selection() {
    let mut e = Engine::new(ramp(44100), 1, 44100, 5, 152170, 8).unwrap();
    let sel = SelectionWindow::new(UNITY / 4, UNITY / 2);
    let (lo, hi) = sel.bounds(44100);
    assert_eq!((lo, hi), (11025, 22050));
    let mut out = vec![0i64; 2];
    for _ in 0..20000 {
        e.render_frame(PlayStatus::Playing, sel, UNITY, &mut out);
        for i in 0..5 {
            let g = e.synthesizer().grain(i);
            if g.current_frame == g.start_frame + 1 {
                assert!(g.start_frame >= lo && g.end_frame <= hi);
            }
        }
    }
}

#[test]
fn in_flight_grains_keep_their_bounds_when_the_selection_moves() {
    let mut e = Engine::new(ramp(44100), 1, 44100, 2, UNITY, 2).unwrap();
    let mut out = vec![0i64; 2];
    e.render_frame(PlayStatus::Playing, SelectionWindow::new(0, UNITY / 4), UNITY, &mut out);
    let g0 = e.synthesizer().grain(0);
    e.render_frame(PlayStatus::Playing, SelectionWindow::new(3 * UNITY / 4, UNITY), UNITY, &mut out);
    let g1 = e.synthesizer().grain(0);
    if g0.length > 1 {
        assert_eq!(g1.start_frame, g0.start_frame);
        assert_eq!(g1.current_frame, g0.current_frame + 1);
    }
    assert_eq!(e.synthesizer().selection(), SelectionWindow::new(3 * UNITY / 4, UNITY));
}

#[test]
fn playing_output_is_the_gained_mix_of_the_frame() {
    let mut e = Engine::new(ramp(44100), 1, 44100, 4, 2 * UNITY, 6).unwrap();
    let mut out = vec![0i64; 2];
    for _ in 0..500 {
        e.render_frame(PlayStatus::Playing, SelectionWindow::full(), UNITY / 2, &mut out);
        let mixed = e.mixdown().mix(e.last_frame(), 2);
        let expected: Vec<i64> = mixed.iter().map(|&v| granular::apply_gain(v, UNITY / 2)).collect();
        assert_eq!(out, expected);
    }
}

#[test]
fn replacing_the_buffer_restarts_every_voice() {
    let mut e = Engine::new(ramp(44100), 1, 44100, 3, 103872, 3).unwrap();
    let mut out = vec![0i64; 2];
    for _ in 0..10 {
        e.render_frame(PlayStatus::Playing, SelectionWindow::full(), UNITY, &mut out);
    }
    e.replace_buffer(ramp(500), 1);
    assert_eq!(e.synthesizer().buffer_len(), 44100);
    e.replace_buffer(Arc::new(Vec::new()), 2);
    assert_eq!(e.buffer_version(), 1);
    e.replace_buffer(ramp(500), 2);
    assert_eq!(e.buffer_version(), 2);
    assert_eq!(e.synthesizer().buffer_len(), 500);
    for i in 0..3 {
        assert!(e.synthesizer().grain(i).finished);
    }
    for _ in 0..1000 {
        e.render_frame(PlayStatus::Playing, SelectionWindow::full(), UNITY, &mut out);
        for i in 0..3 {
            assert!(e.synthesizer().grain(i).end_frame < 500);
        }
    }
}

#[test]
fn synthesizer_setters_take_effect() {
    let mut s = GranularSynthesizer::new(ramp(1000), 48000, 3, 1);
    assert_eq!(s.voices(), 3);
    assert_eq!(s.sample_rate(), 48000);
    s.set_grain_len_min(2);
    s.set_grain_len_max(5);
    s.set_selection_start(UNITY / 2);
    s.set_selection_end(UNITY / 4);
    assert_eq!(s.selection(), SelectionWindow::new(UNITY / 2, UNITY / 2));
    s.set_selection_start(0);
    assert_eq!(s.selection(), SelectionWindow::new(0, UNITY / 2));
    let mut frame = vec![0i16; 3];
    for _ in 0..300 {
        s.next_frame(&mut frame);
        for i in 0..3 {
            let g = s.grain(i);
            assert!(g.length >= 96 && g.length < 240);
            assert!(g.end_frame < 500);
        }
    }
}

#[test]
fn reducer_applies_each_action() {
    let s = AppState::new();
    assert_eq!(s.status, PlayStatus::Paused);
    assert_eq!(s.gain, UNITY);
    let s = s.reduce(AppAction::SetBuffer(ramp(10)));
    assert_eq!(s.buffer.len(), 10);
    assert_eq!(s.buffer_version, 1);
    let s = s.reduce(AppAction::SetBufferSelectionStart(UNITY / 2));
    let s = s.reduce(AppAction::SetBufferSelectionEnd(UNITY / 4));
    assert_eq!(s.selection, SelectionWindow::new(UNITY / 2, UNITY / 2));
    let s = s.reduce(AppAction::SetBufferSelectionMouseDown(true));
    assert!(s.mouse_down);
    let s = s.reduce(AppAction::SetGain(100));
    assert_eq!(s.gain, 100);
    let s = s.reduce(AppAction::SetStatus(PlayStatus::Playing));
    assert_eq!(s.status, PlayStatus::Playing);
    let s = s.reduce(AppAction::SetAudioInitialized(true));
    assert!(s.audio_initialized);
    let s = s.reduce(AppAction::SetAudioLoading(true));
    assert!(s.audio_loading);
    assert_eq!(s.buffer_version, 1);
    assert_eq!(s.gain, 100);
}

#[test]
fn engine_grain_lengths_can_be_set() {
    let mut e = Engine::new(ramp(44100), 1, 44100, 2, UNITY, 12).unwrap();
    e.set_grain_lengths(1, 2);
    assert_eq!(e.synthesizer().grain_len_min_ms(), 1);
    assert_eq!(e.synthesizer().grain_len_max_ms(), 2);
    let mut out = vec![0i64; 2];
    for _ in 0..200 {
        e.render_frame(PlayStatus::Playing, SelectionWindow::full(), UNITY, &mut out);
        for i in 0..2 {
            let g = e.synthesizer().grain(i);
            assert!(g.length >= 44 && g.length < 88);
        }
    }
}
