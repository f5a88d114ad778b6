//! What a global hotkey event does.
//!
//! Two hotkeys are registered: Ctrl+Shift+R toggles recording, and
//! Ctrl+Shift+Space is press-to-talk (press starts, release stops and
//! transcribes).

use vstd::prelude::*;

verus! {

/// Which registered hotkey an event belongs to.
#[derive(Debug, Clone, Copy, PartialEq, Eq, Structural)]
pub enum HotkeyKind {
    Toggle,
    PushToTalk,
    Other,
}

/// Whether the key went down or up.
#[derive(Debug, Clone, Copy, PartialEq, Eq, Structural)]
pub enum KeyState {
    Pressed,
    Released,
}

/// What the application does in answer to a hotkey event.
#[derive(Debug, Clone, Copy, PartialEq, Eq, Structural)]
pub enum HotkeyAction {
    Nothing,
    /// Remember the foreground window, then start recording.
    StartRecording,
    StopRecording,
}

/// The answer to a hotkey event in the given state of the application.
pub open spec fn hotkey_response(
    kind: HotkeyKind,
    state: KeyState,
    toggle_enabled: bool,
    ptt_enabled: bool,
    is_recording: bool,
    is_processing: bool,
) -> HotkeyAction {
    match kind {
        HotkeyKind::Toggle => {
            if state == KeyState::Pressed && toggle_enabled {
                if is_recording {
                    HotkeyAction::StopRecording
                } else if !is_processing {
                    HotkeyAction::StartRecording
                } else {
                    HotkeyAction::Nothing
                }
            } else {
                HotkeyAction::Nothing
            }
        },
        HotkeyKind::PushToTalk => {
            if !ptt_enabled {
                HotkeyAction::Nothing
            } else if state == KeyState::Pressed && !is_recording && !is_processing {
                HotkeyAction::StartRecording
            } else if state == KeyState::Released && is_recording {
                HotkeyAction::StopRecording
            } else {
                HotkeyAction::Nothing
            }
        },
        HotkeyKind::Other => HotkeyAction::Nothing,
    }
}

/// Decides what a hotkey event does: the toggle key (on press) stops a
/// recording or starts one when nothing is being processed; the
/// press-to-talk key starts on press when idle and stops on release while
/// recording. A disabled hotkey does nothing.
pub fn hotkey_action(
    kind: HotkeyKind,
    state: KeyState,
    toggle_enabled: bool,
    ptt_enabled: bool,
    is_recording: bool,
    is_processing: bool,
) -> (r: HotkeyAction)
    ensures
        r == hotkey_response(kind, state, toggle_enabled, ptt_enabled, is_recording, is_processing),
        kind == HotkeyKind::Toggle && state == KeyState::Pressed && toggle_enabled && is_recording
            ==> r == HotkeyAction::StopRecording,
        kind == HotkeyKind::PushToTalk && state == KeyState::Released && ptt_enabled && is_recording
            ==> r == HotkeyAction::StopRecording,
{
    match kind {
        HotkeyKind::Toggle => {
            match state {
                KeyState::Pressed => {
                    if !toggle_enabled {
                        HotkeyAction::Nothing
                    } else if is_recording {
                        HotkeyAction::StopRecording
                    } else if !is_processing {
                        HotkeyAction::StartRecording
                    } else {
                        HotkeyAction::Nothing
                    }
                },
                KeyState::Released => HotkeyAction::Nothing,
            }
        },
        HotkeyKind::PushToTalk => {
            if !ptt_enabled {
                return HotkeyAction::Nothing;
            }
            match state {
                KeyState::Pressed => {
                    if !is_recording && !is_processing {
                        HotkeyAction::StartRecording
                    } else {
                        HotkeyAction::Nothing
                    }
                },
                KeyState::Released => {
                    if is_recording {
                        HotkeyAction::StopRecording
                    } else {
                        HotkeyAction::Nothing
                    }
                },
            }
        },
        HotkeyKind::Other => HotkeyAction::Nothing,
    }
}

/// A hotkey never starts a recording while one is running or while a
/// transcription is being processed, never stops one that is not running,
/// and a disabled hotkey does nothing.
pub proof fn law_hotkey_safety(
    kind: HotkeyKind,
    state: KeyState,
    toggle_enabled: bool,
    ptt_enabled: bool,
    is_recording: bool,
    is_processing: bool,
)
    ensures
        hotkey_response(kind, state, toggle_enabled, ptt_enabled, is_recording, is_processing)
            == HotkeyAction::StartRecording ==> !is_recording && !is_processing,
        hotkey_response(kind, state, toggle_enabled, ptt_enabled, is_recording, is_processing)
            == HotkeyAction::StopRecording ==> is_recording,
        kind == HotkeyKind::Toggle && !toggle_enabled ==> hotkey_response(
            kind,
            state,
            toggle_enabled,
            ptt_enabled,
            is_recording,
            is_processing,
        ) == HotkeyAction::Nothing,
        kind == HotkeyKind::PushToTalk && !ptt_enabled ==> hotkey_response(
            kind,
            state,
            toggle_enabled,
            ptt_enabled,
            is_recording,
            is_processing,
        ) == HotkeyAction::Nothing,
{
}

/// The toggle key's answer does not depend on the press-to-talk setting,
/// nor the press-to-talk key's on the toggle setting; pressing the enabled
/// toggle key while recording stops the recording, whether or not a
/// transcription is being processed; releasing the enabled press-to-talk key
/// while recording stops it too; an idle application (not recording, not
/// processing) starts recording on a press of either enabled key; releasing
/// the toggle key, and any event of an unregistered key, does nothing.
pub proof fn law_hotkey_answers(
    state: KeyState,
    toggle_enabled: bool,
    ptt_enabled: bool,
    other_toggle: bool,
    other_ptt: bool,
    is_recording: bool,
    is_processing: bool,
)
    ensures
        hotkey_response(HotkeyKind::Toggle, state, toggle_enabled, ptt_enabled, is_recording, is_processing)
            == hotkey_response(HotkeyKind::Toggle, state, toggle_enabled, other_ptt, is_recording, is_processing),
        hotkey_response(HotkeyKind::PushToTalk, state, toggle_enabled, ptt_enabled, is_recording, is_processing)
            == hotkey_response(HotkeyKind::PushToTalk, state, other_toggle, ptt_enabled, is_recording, is_processing),
        toggle_enabled && is_recording ==> hotkey_response(
            HotkeyKind::Toggle,
            KeyState::Pressed,
            toggle_enabled,
            ptt_enabled,
            is_recording,
            is_processing,
        ) == HotkeyAction::StopRecording,
        ptt_enabled && is_recording ==> hotkey_response(
            HotkeyKind::PushToTalk,
            KeyState::Released,
            toggle_enabled,
            ptt_enabled,
            is_recording,
            is_processing,
        ) == HotkeyAction::StopRecording,
        toggle_enabled && !is_recording && !is_processing ==> hotkey_response(
            HotkeyKind::Toggle,
            KeyState::Pressed,
            toggle_enabled,
            ptt_enabled,
            is_recording,
            is_processing,
        ) == HotkeyAction::StartRecording,
        ptt_enabled && !is_recording && !is_processing ==> hotkey_response(
            HotkeyKind::PushToTalk,
            KeyState::Pressed,
            toggle_enabled,
            ptt_enabled,
            is_recording,
            is_processing,
        ) == HotkeyAction::StartRecording,
        hotkey_response(HotkeyKind::Toggle, KeyState::Released, toggle_enabled, ptt_enabled, is_recording, is_processing)
            == HotkeyAction::Nothing,
        hotkey_response(HotkeyKind::Other, state, toggle_enabled, ptt_enabled, is_recording, is_processing)
            == HotkeyAction::Nothing,
{
}

} // verus!
