//! How text is put into the focused window. `"type"` (the default) types it
//! as Unicode (layout-independent, reliable for Cyrillic); `"paste"` goes
//! through the clipboard and Ctrl+V, optionally restoring the clipboard
//! afterwards. Either way Enter can follow.
use vstd::prelude::*;

use crate::text::same_text;

verus! {

broadcast use vstd::string::group_string_axioms;

/// One step of an injection, carried out in order by the caller.
#[derive(Debug, Clone, Copy, PartialEq, Eq)]
pub enum InjectStep {
    /// Open the synthetic keyboard.
    OpenKeyboard,
    /// Open the clipboard.
    OpenClipboard,
    /// Remember the clipboard's current text, if it holds any.
    SaveClipboard,
    /// Put the text to inject on the clipboard.
    SetClipboard,
    /// Wait this many milliseconds.
    Pause(u64),
    /// Press and hold Ctrl.
    CtrlDown,
    /// Click the V key (with Ctrl held, this pastes).
    PasteKey,
    /// Release Ctrl.
    CtrlUp,
    /// Put the remembered clipboard text back, if any was remembered.
    RestoreClipboard,
    /// Type the text to inject.
    TypeText,
    /// Click Enter.
    PressEnter,
}

/// The injection method that goes through the clipboard.
pub open spec fn paste_method() -> Seq<char> {
    "paste"@
}

/// The steps of the clipboard method.
pub open spec fn paste_steps(restore_clipboard: bool) -> Seq<InjectStep> {
    seq![InjectStep::OpenClipboard] + (if restore_clipboard {
        seq![InjectStep::SaveClipboard]
    } else {
        Seq::empty()
    }) + seq![
        InjectStep::SetClipboard,
        InjectStep::Pause(60),
        InjectStep::CtrlDown,
        InjectStep::PasteKey,
        InjectStep::CtrlUp,
        InjectStep::Pause(120),
    ] + (if restore_clipboard {
        seq![InjectStep::RestoreClipboard]
    } else {
        Seq::empty()
    })
}

/// The steps of the typing method.
pub open spec fn type_steps() -> Seq<InjectStep> {
    seq![InjectStep::Pause(30), InjectStep::TypeText]
}

/// The steps that submit the line, where asked for.
pub open spec fn enter_steps(press_enter: bool) -> Seq<InjectStep> {
    if press_enter {
        seq![InjectStep::Pause(40), InjectStep::PressEnter]
    } else {
        Seq::empty()
    }
}

/// The whole injection: open the keyboard; paste where the method is
/// `"paste"`, type for any other method; then Enter where asked for.
pub open spec fn plan(press_enter: bool, method: Seq<char>, restore_clipboard: bool) -> Seq<
    InjectStep,
> {
    seq![InjectStep::OpenKeyboard] + (if method == paste_method() {
        paste_steps(restore_clipboard)
    } else {
        type_steps()
    }) + enter_steps(press_enter)
}

/// Whether a failure of `step` ends the injection with an error. Saving
/// and restoring the clipboard are best effort, and pauses cannot fail.
pub open spec fn aborts_on_failure(step: InjectStep) -> bool {
    !(step is SaveClipboard || step is RestoreClipboard || step is Pause)
}

/// The steps that inject a text with the given `method`, pressing Enter
/// afterwards where `press_enter`.
pub fn injection_plan(press_enter: bool, method: &str, restore_clipboard: bool) -> (steps: Vec<
    InjectStep,
>)
    ensures
        steps@ == plan(press_enter, method@, restore_clipboard),
{
    let mut steps: Vec<InjectStep> = Vec::new();
    steps.push(InjectStep::OpenKeyboard);
    proof {
        reveal_strlit("paste");
    }
    if same_text(method, "paste") {
        steps.push(InjectStep::OpenClipboard);
        if restore_clipboard {
            steps.push(InjectStep::SaveClipboard);
        }
        steps.push(InjectStep::SetClipboard);
        steps.push(InjectStep::Pause(60));
        steps.push(InjectStep::CtrlDown);
        steps.push(InjectStep::PasteKey);
        steps.push(InjectStep::CtrlUp);
        steps.push(InjectStep::Pause(120));
        if restore_clipboard {
            steps.push(InjectStep::RestoreClipboard);
        }
    } else {
        steps.push(InjectStep::Pause(30));
        steps.push(InjectStep::TypeText);
    }
    if press_enter {
        steps.push(InjectStep::Pause(40));
        steps.push(InjectStep::PressEnter);
    }
    assert(steps@ =~= plan(press_enter, method@, restore_clipboard));
    steps
}

/// Whether the caller stops with an error when `step` fails.
pub fn step_failure_aborts(step: InjectStep) -> (b: bool)
    ensures
        b == aborts_on_failure(step),
{
    match step {
        InjectStep::SaveClipboard | InjectStep::RestoreClipboard | InjectStep::Pause(_) => false,
        _ => true,
    }
}


/// Enter, where asked for, is the very last step, after the text is in; it
/// is never pressed otherwise.
pub proof fn law_enter_comes_last(press_enter: bool, method: Seq<char>, restore_clipboard: bool)
    ensures
        press_enter ==> plan(press_enter, method, restore_clipboard).last()
            == InjectStep::PressEnter,
        !press_enter ==> !plan(press_enter, method, restore_clipboard).contains(
            InjectStep::PressEnter,
        ),
{
    let p = plan(press_enter, method, restore_clipboard);
    if !press_enter {
        let body = if method == paste_method() {
            paste_steps(restore_clipboard)
        } else {
            type_steps()
        };
        assert(p =~= seq![InjectStep::OpenKeyboard] + body);
        assert forall|i: int| 0 <= i < p.len() implies p[i] != InjectStep::PressEnter by {
            if i > 0 {
                assert(p[i] == body[i - 1]);
                if method == paste_method() {
                    let a = seq![InjectStep::OpenClipboard];
                    let b: Seq<InjectStep> = if restore_clipboard {
                        seq![InjectStep::SaveClipboard]
                    } else {
                        Seq::empty()
                    };
                    let c = seq![
                        InjectStep::SetClipboard,
                        InjectStep::Pause(60),
                        InjectStep::CtrlDown,
                        InjectStep::PasteKey,
                        InjectStep::CtrlUp,
                        InjectStep::Pause(120),
                    ];
                    let d: Seq<InjectStep> = if restore_clipboard {
                        seq![InjectStep::RestoreClipboard]
                    } else {
                        Seq::empty()
                    };
                    assert(body == a + b + c + d);
                    let j = i - 1;
                    if j < 1 {
                    } else if j < 1 + b.len() {
                        assert(body[j] == b[j - 1]);
                    } else if j < 1 + b.len() + 6 {
                        assert(body[j] == c[j - 1 - b.len()]);
                    } else {
                        assert(body[j] == d[j - 7 - b.len()]);
                    }
                }
            }
        }
    }
}

/// Typing never touches the clipboard.
pub proof fn law_typing_leaves_clipboard_alone(press_enter: bool, method: Seq<char>, restore_clipboard: bool)
    requires
        method != paste_method(),
    ensures
        plan(press_enter, method, restore_clipboard) == seq![
            InjectStep::OpenKeyboard,
            InjectStep::Pause(30),
            InjectStep::TypeText,
        ] + enter_steps(press_enter),
{
    assert(plan(press_enter, method, restore_clipboard) =~= seq![
        InjectStep::OpenKeyboard,
        InjectStep::Pause(30),
        InjectStep::TypeText,
    ] + enter_steps(press_enter));
}

/// Pasting always puts the text on the clipboard before Ctrl+V, and
/// nothing changes the clipboard between the two, whether or not the
/// clipboard is restored and Enter is pressed.
pub proof fn law_paste_sets_text_before_pasting(press_enter: bool, restore_clipboard: bool)
    ensures
        ({
            let p = plan(press_enter, paste_method(), restore_clipboard);
            exists|i: int, j: int|
                0 <= i < j < p.len() && #[trigger] p[i] == InjectStep::SetClipboard && #[trigger] p[j]
                    == InjectStep::PasteKey && forall|k: int|
                    i < k < j ==> p[k] != InjectStep::SetClipboard && p[k]
                        != InjectStep::RestoreClipboard
        }),
{
    let p = plan(press_enter, paste_method(), restore_clipboard);
    let r: int = if restore_clipboard {
        1
    } else {
        0
    };
    let body = paste_steps(restore_clipboard);
    assert(p =~= seq![InjectStep::OpenKeyboard] + body + enter_steps(press_enter));
    let i = 2 + r;
    let j = 5 + r;
    assert(p[i] == InjectStep::SetClipboard);
    assert(p[i + 1] == InjectStep::Pause(60));
    assert(p[i + 2] == InjectStep::CtrlDown);
    assert(p[j] == InjectStep::PasteKey);
}

/// Pasting with `restore_clipboard` leaves the clipboard as it was: its text
/// is remembered before the transcript is put there, and put back after the
/// paste.
pub proof fn law_paste_restores_clipboard(press_enter: bool)
    ensures
        ({
            let p = plan(press_enter, paste_method(), true);
            &&& p[2] == InjectStep::SaveClipboard
            &&& p[3] == InjectStep::SetClipboard
            &&& p[6] == InjectStep::PasteKey
            &&& p[9] == InjectStep::RestoreClipboard
            &&& forall|i: int| 9 < i < p.len() ==> !(#[trigger] p[i] is SetClipboard)
        }),
{
    let p = plan(press_enter, paste_method(), true);
    assert(p =~= seq![
        InjectStep::OpenKeyboard,
        InjectStep::OpenClipboard,
        InjectStep::SaveClipboard,
        InjectStep::SetClipboard,
        InjectStep::Pause(60),
        InjectStep::CtrlDown,
        InjectStep::PasteKey,
        InjectStep::CtrlUp,
        InjectStep::Pause(120),
        InjectStep::RestoreClipboard,
    ] + enter_steps(press_enter));
}

} // verus!
