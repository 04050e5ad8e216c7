use vstd::prelude::*;
use std::sync::Arc;
use crate::engine::PlayStatus;
use crate::fixed::UNITY;
use crate::selection::{min_spec, SelectionWindow};

verus! {

/// A change to the application state, as the user interface sends it.
pub enum AppAction {
    /// A newly loaded buffer replaces the current one.
    SetBuffer(Arc<Vec<i16>>),
    /// The selection's start moves (in parts of `UNITY`).
    SetBufferSelectionStart(u32),
    /// The selection's end moves (in parts of `UNITY`).
    SetBufferSelectionEnd(u32),
    /// The mouse button over the buffer view goes down or up.
    SetBufferSelectionMouseDown(bool),
    /// The output gain changes (in parts of `UNITY`).
    SetGain(u32),
    /// Playing or paused.
    SetStatus(PlayStatus),
    /// Audio has (or has not) been started.
    SetAudioInitialized(bool),
    /// Audio is (or is not) being started.
    SetAudioLoading(bool),
}

/// What the controls hold: the loaded buffer, the selection, the gain and
/// the transport, read by the audio side once per frame.
pub struct AppState {
    /// The currently loaded audio buffer.
    pub buffer: Arc<Vec<i16>>,
    /// Counts buffer replacements, so the audio side can tell a new buffer
    /// from the one it plays.
    pub buffer_version: u64,
    /// The portion of the buffer currently selected.
    pub selection: SelectionWindow,
    /// Whether the mouse is held down over the buffer view.
    pub mouse_down: bool,
    /// Overall output gain, in parts of `UNITY`.
    pub gain: u32,
    /// Current play / pause status.
    pub status: PlayStatus,
    /// Whether audio has been started; browsers allow that only after a
    /// user gesture.
    pub audio_initialized: bool,
    /// Whether audio is being started.
    pub audio_loading: bool,
}

/// The version that follows `v`, wrapping around at the top.
pub open spec fn next_version(v: u64) -> u64 {
    if v == u64::MAX {
        0
    } else {
        (v + 1) as u64
    }
}

impl AppState {
    pub open spec fn wf(&self) -> bool {
        self.selection.wf()
    }

    /// The state before anything is loaded: an empty buffer, the whole
    /// buffer selected, unity gain, paused, audio not started.
    pub fn new() -> (s: AppState)
        ensures
            s.wf(),
            s.buffer@.len() == 0,
            s.buffer_version == 0,
            s.selection == SelectionWindow::full_spec(),
            !s.mouse_down,
            s.gain == UNITY,
            s.status == PlayStatus::Paused,
            !s.audio_initialized,
            !s.audio_loading,
    {
        AppState {
            buffer: Arc::new(Vec::new()),
            buffer_version: 0,
            selection: SelectionWindow::full(),
            mouse_down: false,
            gain: UNITY,
            status: PlayStatus::Paused,
            audio_initialized: false,
            audio_loading: false,
        }
    }

    /// The state after `action`: the field the action names changes as it
    /// says, and every other field stays.
    pub fn reduce(self, action: AppAction) -> (r: AppState)
        requires
            self.wf(),
        ensures
            r.wf(),
            match action {
                AppAction::SetBuffer(b) => {
                    &&& r.buffer == b
                    &&& r.buffer_version == next_version(self.buffer_version)
                    &&& r.selection == self.selection
                    &&& r.mouse_down == self.mouse_down
                    &&& r.gain == self.gain
                    &&& r.status == self.status
                    &&& r.audio_initialized == self.audio_initialized
                    &&& r.audio_loading == self.audio_loading
                },
                AppAction::SetBufferSelectionStart(start) => {
                    &&& r.selection.start == min_spec(start as int, self.selection.end as int)
                    &&& r.selection.end == self.selection.end
                    &&& r.buffer == self.buffer
                    &&& r.buffer_version == self.buffer_version
                    &&& r.mouse_down == self.mouse_down
                    &&& r.gain == self.gain
                    &&& r.status == self.status
                    &&& r.audio_initialized == self.audio_initialized
                    &&& r.audio_loading == self.audio_loading
                },
                AppAction::SetBufferSelectionEnd(end) => {
                    &&& r.selection.start == self.selection.start
                    &&& r.selection.end == (if end < self.selection.start {
                        self.selection.start as int
                    } else {
                        min_spec(end as int, UNITY as int)
                    })
                    &&& r.buffer == self.buffer
                    &&& r.buffer_version == self.buffer_version
                    &&& r.mouse_down == self.mouse_down
                    &&& r.gain == self.gain
                    &&& r.status == self.status
                    &&& r.audio_initialized == self.audio_initialized
                    &&& r.audio_loading == self.audio_loading
                },
                AppAction::SetBufferSelectionMouseDown(down) => {
                    &&& r.mouse_down == down
                    &&& r.buffer == self.buffer
                    &&& r.buffer_version == self.buffer_version
                    &&& r.selection == self.selection
                    &&& r.gain == self.gain
                    &&& r.status == self.status
                    &&& r.audio_initialized == self.audio_initialized
                    &&& r.audio_loading == self.audio_loading
                },
                AppAction::SetGain(gain) => {
                    &&& r.gain == gain
                    &&& r.buffer == self.buffer
                    &&& r.buffer_version == self.buffer_version
                    &&& r.selection == self.selection
                    &&& r.mouse_down == self.mouse_down
                    &&& r.status == self.status
                    &&& r.audio_initialized == self.audio_initialized
                    &&& r.audio_loading == self.audio_loading
                },
                AppAction::SetStatus(status) => {
                    &&& r.status == status
                    &&& r.buffer == self.buffer
                    &&& r.buffer_version == self.buffer_version
                    &&& r.selection == self.selection
                    &&& r.mouse_down == self.mouse_down
                    &&& r.gain == self.gain
                    &&& r.audio_initialized == self.audio_initialized
                    &&& r.audio_loading == self.audio_loading
                },
                AppAction::SetAudioInitialized(initialized) => {
                    &&& r.audio_initialized == initialized
                    &&& r.buffer == self.buffer
                    &&& r.buffer_version == self.buffer_version
                    &&& r.selection == self.selection
                    &&& r.mouse_down == self.mouse_down
                    &&& r.gain == self.gain
                    &&& r.status == self.status
                    &&& r.audio_loading == self.audio_loading
                },
                AppAction::SetAudioLoading(loading) => {
                    &&& r.audio_loading == loading
                    &&& r.buffer == self.buffer
                    &&& r.buffer_version == self.buffer_version
                    &&& r.selection == self.selection
                    &&& r.mouse_down == self.mouse_down
                    &&& r.gain == self.gain
                    &&& r.status == self.status
                    &&& r.audio_initialized == self.audio_initialized
                },
            },
    {
        let mut next = self;
        match action {
            AppAction::SetBuffer(buffer) => {
                next.buffer = buffer;
                next.buffer_version = if next.buffer_version == u64::MAX {
                    0
                } else {
                    next.buffer_version + 1
                };
            },
            AppAction::SetBufferSelectionStart(start) => {
                next.selection.set_start(start);
            },
            AppAction::SetBufferSelectionEnd(end) => {
                next.selection.set_end(end);
            },
            AppAction::SetBufferSelectionMouseDown(down) => {
                next.mouse_down = down;
            },
            AppAction::SetGain(gain) => {
                next.gain = gain;
            },
            AppAction::SetStatus(status) => {
                next.status = status;
            },
            AppAction::SetAudioInitialized(initialized) => {
                next.audio_initialized = initialized;
            },
            AppAction::SetAudioLoading(loading) => {
                next.audio_loading = loading;
            },
        }
        next
    }
}

} // verus!
