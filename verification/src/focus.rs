//! Whether the focused UI element accepts typed text.
//!
//! Conservative: only reports "no" for clearly non-text targets, so it never
//! blocks a real input box it doesn't recognize.
use vstd::prelude::*;

verus! {

/// What inspecting the focused element (through UI Automation) found.
#[derive(Debug, Clone, Copy, PartialEq, Eq)]
pub enum FocusProbe {
    /// The automation service could not be reached.
    AutomationUnavailable,
    /// Nothing has the keyboard focus.
    NothingFocused,
    /// The focused element, with its control type id where it could be read.
    Focused(Option<i32>),
}

/// The UI Automation control type ids that clearly do not take text:
/// Button (50000), CheckBox (50002), Image (50006), List (50008), MenuBar
/// (50010), MenuItem (50011), RadioButton (50013), StatusBar (50017), Tab
/// (50018), ToolBar (50021), Tree (50023), TreeItem (50024), Window
/// (50032), Pane (50033) and TitleBar (50037).
pub open spec fn is_blocked_control_type(ct: int) -> bool {
    ||| ct == 50000
    ||| ct == 50002
    ||| ct == 50006
    ||| ct == 50008
    ||| ct == 50010
    ||| ct == 50011
    ||| ct == 50013
    ||| ct == 50017
    ||| ct == 50018
    ||| ct == 50021
    ||| ct == 50023
    ||| ct == 50024
    ||| ct == 50032
    ||| ct == 50033
    ||| ct == 50037
}

/// Whether an element of control type `ct` may receive typed text: every
/// type but the clearly non-text ones (Edit, Document, ComboBox, Text,
/// Group, Custom and unknown types are allowed).
pub fn control_type_accepts_text(ct: i32) -> (b: bool)
    ensures
        b == !is_blocked_control_type(ct as int),
{
    !(ct == 50000 || ct == 50002 || ct == 50006 || ct == 50008 || ct == 50010 || ct == 50011
        || ct == 50013 || ct == 50017 || ct == 50018 || ct == 50021 || ct == 50023 || ct == 50024
        || ct == 50032 || ct == 50033 || ct == 50037)
}

/// The verdict for what the probe found, with the control type id (`-1`
/// where there is none): when the check cannot be made, typing is not
/// blocked; when nothing is focused, it is; otherwise it depends on the
/// element's control type, an unreadable one counting as `-1`.
pub fn focus_verdict(probe: FocusProbe) -> (r: (bool, i32))
    ensures
        (match probe {
            FocusProbe::AutomationUnavailable => r == (true, -1i32),
            FocusProbe::NothingFocused => r == (false, -1i32),
            FocusProbe::Focused(Some(ct)) => r == (!is_blocked_control_type(ct as int), ct),
            FocusProbe::Focused(None) => r == (true, -1i32),
        }),
{
    match probe {
        FocusProbe::AutomationUnavailable => (true, -1),
        FocusProbe::NothingFocused => (false, -1),
        FocusProbe::Focused(ct_opt) => {
            let ct = match ct_opt {
                Some(c) => c,
                None => -1,
            };
            (control_type_accepts_text(ct), ct)
        },
    }
}

/// The answer where the focused element cannot be inspected (no UI
/// Automation on this platform): typing is allowed, with no control type.
pub fn focused_accepts_text() -> (r: (bool, i32))
    ensures
        r == (true, -1i32),
{
    focus_verdict(FocusProbe::AutomationUnavailable)
}

} // verus!
