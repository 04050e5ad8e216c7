//! A granular synthesis engine on fixed-point integer audio.
//!
//! Grains are short, enveloped excerpts of a source buffer. A synthesizer
//! keeps one grain per voice, respawns each grain at a random place inside the
//! current selection window when it finishes, and a mixdown spreads the voices
//! over the output channels.

mod fixed;
mod envelope;
mod random;
mod grain;
mod selection;
mod synthesizer;
mod mixdown;
mod engine;
mod app_state;

pub use fixed::{UNITY, trunc_div, div_toward_zero};
pub use envelope::{triangle_spec, progress_spec, triangle, progress, lemma_triangle_shape};
pub use grain::{Grain, GrainSample, clamped_length_spec, longest_draw, clamp_length, spawn, lemma_finishes_after_length, lemma_fresh_grain_silent};
pub use selection::{SelectionWindow, index_spec, min_spec};
pub use synthesizer::{GranularSynthesizer, voice_step, ms_to_samples, ms_to_samples_spec, DEFAULT_GRAIN_LEN_MIN_MS, DEFAULT_GRAIN_LEN_MAX_MS, lemma_empty_buffer_silent};
pub use mixdown::{Mixdown, ConfigError, MAX_VOICES, MAX_MIXED, left_sum, right_sum, pan_spec, stride_sum, stride_count, mixed_spec, lemma_two_voice_panning, lemma_uniform_mix};
pub use engine::{Engine, PlayStatus, apply_gain, gained_spec};
pub use app_state::{AppState, AppAction, next_version};
