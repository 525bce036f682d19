//! The keyboard-hook rule for the stop/cancel keys.
//!
//! While recording, Enter -> Finish and Escape -> Cancel are swallowed so they
//! never reach the focused window (otherwise the stop-Enter would submit an
//! empty line in the chat box before the transcript exists); their releases
//! are swallowed too, so no stray key-up leaks through.
use vstd::prelude::*;

verus! {

/// How a recording ends.
#[derive(Debug, Clone, Copy, PartialEq, Eq)]
pub enum StopKind {
    /// Keep the recording: save and transcribe it.
    Finish,
    /// Discard the recording.
    Cancel,
}

/// The keys the hook tells apart.
#[derive(Debug, Clone, Copy, PartialEq, Eq)]
pub enum Key {
    Return,
    KpReturn,
    Escape,
    Other,
}

/// A global input event, as the hook sees it.
#[derive(Debug, Clone, Copy, PartialEq, Eq)]
pub enum InputEvent {
    KeyPress(Key),
    KeyRelease(Key),
    /// Any other input (mouse, wheel, ...).
    Other,
}

/// What the hook does with an event.
#[derive(Debug, Clone, Copy, PartialEq, Eq)]
pub struct HookDecision {
    /// The stop signal to send, if any.
    pub signal: Option<StopKind>,
    /// Whether the event goes on to the focused window.
    pub pass_through: bool,
}

/// Whether `k` is one of the stop keys (either Enter or Escape).
pub open spec fn is_stop_key(k: Key) -> bool {
    k == Key::Return || k == Key::KpReturn || k == Key::Escape
}

/// The hook's rule: while recording, an Enter press (main or keypad) sends
/// `Finish` and an Escape press sends `Cancel`, and the presses and releases
/// of these keys are swallowed; every other event, and every event while not
/// recording, passes through with no signal.
pub open spec fn hook_rule(recording: bool, event: InputEvent) -> HookDecision {
    if !recording {
        HookDecision { signal: None, pass_through: true }
    } else {
        match event {
            InputEvent::KeyPress(Key::Return) | InputEvent::KeyPress(Key::KpReturn) => HookDecision {
                signal: Some(StopKind::Finish),
                pass_through: false,
            },
            InputEvent::KeyPress(Key::Escape) => HookDecision {
                signal: Some(StopKind::Cancel),
                pass_through: false,
            },
            InputEvent::KeyRelease(k) => HookDecision {
                signal: None,
                pass_through: !is_stop_key(k),
            },
            _ => HookDecision { signal: None, pass_through: true },
        }
    }
}

/// Decides what the hook does with `event`, given whether a recording is
/// in progress.
pub fn on_input_event(recording: bool, event: InputEvent) -> (d: HookDecision)
    ensures
        d == hook_rule(recording, event),
{
    if !recording {
        return HookDecision { signal: None, pass_through: true };
    }
    match event {
        InputEvent::KeyPress(Key::Return) | InputEvent::KeyPress(Key::KpReturn) => HookDecision {
            signal: Some(StopKind::Finish),
            pass_through: false,
        },
        InputEvent::KeyPress(Key::Escape) => HookDecision {
            signal: Some(StopKind::Cancel),
            pass_through: false,
        },
        InputEvent::KeyRelease(Key::Return) | InputEvent::KeyRelease(Key::KpReturn)
        | InputEvent::KeyRelease(Key::Escape) => HookDecision { signal: None, pass_through: false },
        _ => HookDecision { signal: None, pass_through: true },
    }
}

/// Outside a recording the hook is transparent: every event passes through
/// and no stop signal is sent.
pub proof fn law_hook_transparent_when_idle(event: InputEvent)
    ensures
        hook_rule(false, event) == (HookDecision { signal: None, pass_through: true }),
{
}

/// While recording, an event is swallowed exactly when it is a press or a
/// release of a stop key, and a signal is sent only for a press.
pub proof fn law_hook_swallows_only_stop_keys(event: InputEvent)
    ensures
        !hook_rule(true, event).pass_through <==> (match event {
            InputEvent::KeyPress(k) => is_stop_key(k),
            InputEvent::KeyRelease(k) => is_stop_key(k),
            InputEvent::Other => false,
        }),
        hook_rule(true, event).signal is Some ==> (event matches InputEvent::KeyPress(k)
            && is_stop_key(k)),
{
}

} // verus!
