use voicewedge::icon::{colour_for, icon_rgba};
use voicewedge::config::Feedback;
use voicewedge::focus::{control_type_accepts_text, focus_verdict, focused_accepts_text, FocusProbe};
use voicewedge::hook::{on_input_event, HookDecision, InputEvent, Key, StopKind};
use voicewedge::inject::{injection_plan, step_failure_aborts, InjectStep};
use voicewedge::session::{notice_text, recording_time_up, tooltip, Action, Cue, Event, JobOutcome, Notice, Session, Status};
use voicewedge::sound::{alert, beep_frequency, finish, start};

#[test]
fn cues() {
    assert_eq!(start(), vec![(660, 70), (950, 80)]);
    assert_eq!(finish(), vec![(950, 90), (640, 150)]);
    assert_eq!(alert(), vec![(520, 150), (380, 260)]);
    for (f, _) in start().into_iter().chain(finish()).chain(alert()) {
        assert_eq!(beep_frequency(f), f);
    }
}

#[test]
fn beep_clamp() {
    assert_eq!(beep_frequency(0), 37);
    assert_eq!(beep_frequency(37), 37);
    assert_eq!(beep_frequency(440), 440);
    assert_eq!(beep_frequency(32767), 32767);
    assert_eq!(beep_frequency(100000), 32767);
}

#[test]
fn focus_rules() {
    assert_eq!(focused_accepts_text(), (true, -1));
    assert_eq!(focus_verdict(FocusProbe::AutomationUnavailable), (true, -1));
    assert_eq!(focus_verdict(FocusProbe::NothingFocused), (false, -1));
    assert_eq!(focus_verdict(FocusProbe::Focused(Some(50000))), (false, 50000));
    assert_eq!(focus_verdict(FocusProbe::Focused(Some(50004))), (true, 50004));
    assert_eq!(focus_verdict(FocusProbe::Focused(None)), (true, -1));
    for ct in [50000, 50002, 50006, 50008, 50010, 50011, 50013, 50017, 50018, 50021, 50023, 50024, 50032, 50033, 50037] {
        assert!(!control_type_accepts_text(ct));
    }
    for ct in [50004, 50030, 50003, 50020, 50026, 50025, 50027, 50029, 50034, 0, -1] {
        assert!(control_type_accepts_text(ct));
    }
}

#[test]
fn hook_rules() {
    let pass = HookDecision { signal: None, pass_through: true };
    assert_eq!(on_input_event(false, InputEvent::KeyPress(Key::Return)), pass);
    assert_eq!(on_input_event(false, InputEvent::KeyPress(Key::Escape)), pass);
    assert_eq!(
        on_input_event(true, InputEvent::KeyPress(Key::Return)),
        HookDecision { signal: Some(StopKind::Finish), pass_through: false }
    );
    assert_eq!(
        on_input_event(true, InputEvent::KeyPress(Key::KpReturn)),
        HookDecision { signal: Some(StopKind::Finish), pass_through: false }
    );
    assert_eq!(
        on_input_event(true, InputEvent::KeyPress(Key::Escape)),
        HookDecision { signal: Some(StopKind::Cancel), pass_through: false }
    );
    assert_eq!(
        on_input_event(true, InputEvent::KeyRelease(Key::Escape)),
        HookDecision { signal: None, pass_through: false }
    );
    assert_eq!(on_input_event(true, InputEvent::KeyPress(Key::Other)), pass);
    assert_eq!(on_input_event(true, InputEvent::KeyRelease(Key::Other)), pass);
    assert_eq!(on_input_event(true, InputEvent::Other), pass);
}

#[test]
fn inject_plans() {
    assert_eq!(injection_plan(false, "type", true), vec![InjectStep::OpenKeyboard, InjectStep::Pause(30), InjectStep::TypeText]);
    assert_eq!(
        injection_plan(true, "anything", false),
        vec![InjectStep::OpenKeyboard, InjectStep::Pause(30), InjectStep::TypeText, InjectStep::Pause(40), InjectStep::PressEnter]
    );
    assert_eq!(
        injection_plan(true, "paste", true),
        vec![InjectStep::OpenKeyboard, InjectStep::OpenClipboard, InjectStep::SaveClipboard, InjectStep::SetClipboard, InjectStep::Pause(60), InjectStep::CtrlDown, InjectStep::PasteKey, InjectStep::CtrlUp, InjectStep::Pause(120), InjectStep::RestoreClipboard, InjectStep::Pause(40), InjectStep::PressEnter]
    );
    assert_eq!(
        injection_plan(false, "paste", false),
        vec![InjectStep::OpenKeyboard, InjectStep::OpenClipboard, InjectStep::SetClipboard, InjectStep::Pause(60), InjectStep::CtrlDown, InjectStep::PasteKey, InjectStep::CtrlUp, InjectStep::Pause(120)]
    );
    assert!(!step_failure_aborts(InjectStep::SaveClipboard));
    assert!(!step_failure_aborts(InjectStep::RestoreClipboard));
    assert!(!step_failure_aborts(InjectStep::Pause(5)));
    assert!(step_failure_aborts(InjectStep::SetClipboard));
    assert!(step_failure_aborts(InjectStep::TypeText));
}

fn feedback(on: bool) -> Feedback {
    Feedback { overlay: on, toast: on, sound: on }
}

#[test]
fn session_finish_flow() {
    let mut s = Session::new(true, &feedback(true));
    assert_eq!(s.status(), Status::Ready);
    assert!(s.handle(Event::Hotkey { ours: false, pressed: true }).is_empty());
    assert!(s.handle(Event::Hotkey { ours: true, pressed: false }).is_empty());
    assert_eq!(s.handle(Event::Hotkey { ours: true, pressed: true }), vec![Action::StartRecorder]);
    assert_eq!(
        s.handle(Event::RecorderStarted),
        vec![Action::ArmStopKeys(true), Action::Show(Status::Recording), Action::Toast(Notice::RecordingStarted), Action::Play(Cue::Start)]
    );
    assert!(s.recording);
    assert!(s.handle(Event::Hotkey { ours: true, pressed: true }).is_empty());
    assert_eq!(
        s.handle(Event::Stop(StopKind::Finish)),
        vec![Action::ArmStopKeys(false), Action::Show(Status::Transcribing), Action::Play(Cue::Finish), Action::SaveRecording]
    );
    assert_eq!(s.handle(Event::RecordingSaved(true)), vec![Action::Transcribe]);
    assert_eq!(s.pending, 1);
    assert_eq!(s.status(), Status::Transcribing);
    assert_eq!(
        s.handle(Event::JobDone(JobOutcome::Inserted)),
        vec![Action::Toast(Notice::Inserted), Action::Show(Status::Ready)]
    );
    assert_eq!(s.handle(Event::Quit), vec![Action::Exit]);
}

#[test]
fn session_cancel_flow() {
    let mut s = Session::new(true, &feedback(false));
    s.handle(Event::Hotkey { ours: true, pressed: true });
    assert_eq!(s.handle(Event::RecorderStarted), vec![Action::ArmStopKeys(true), Action::Show(Status::Recording)]);
    let acts = s.handle(Event::Stop(StopKind::Cancel));
    assert_eq!(acts, vec![Action::ArmStopKeys(false), Action::DiscardRecording, Action::Show(Status::Ready)]);
    assert!(!acts.contains(&Action::SaveRecording) && !acts.contains(&Action::Transcribe));
    assert_eq!(s.handle(Event::Stop(StopKind::Finish)), vec![Action::ArmStopKeys(false)]);
}

#[test]
fn session_failures() {
    let mut s = Session::new(false, &feedback(true));
    assert_eq!(s.handle(Event::RecorderFailed), vec![Action::Toast(Notice::MicError), Action::Play(Cue::Alert)]);
    assert!(!s.recording);
    assert_eq!(
        s.handle(Event::RecordingSaved(false)),
        vec![Action::Toast(Notice::WavWriteFailed), Action::Play(Cue::Alert), Action::Show(Status::Ready)]
    );
    // Without an API key the recording is kept but not transcribed.
    assert_eq!(s.handle(Event::RecordingSaved(true)), vec![Action::Show(Status::Ready)]);
    assert_eq!(s.pending, 0);
    assert_eq!(
        s.handle(Event::JobDone(JobOutcome::Failed)),
        vec![Action::Toast(Notice::TranscriptionFailed), Action::Play(Cue::Alert), Action::Show(Status::Ready)]
    );
    assert_eq!(
        s.handle(Event::JobDone(JobOutcome::InsertFailed)),
        vec![Action::Toast(Notice::InsertFailed), Action::Play(Cue::Alert), Action::Show(Status::Ready)]
    );
}

#[test]
fn session_records_while_transcribing() {
    let mut s = Session::new(true, &feedback(false));
    s.handle(Event::RecorderStarted);
    s.handle(Event::Stop(StopKind::Finish));
    s.handle(Event::RecordingSaved(true));
    s.handle(Event::RecorderStarted);
    assert_eq!(s.status(), Status::Recording);
    assert_eq!(s.handle(Event::JobDone(JobOutcome::Inserted)), vec![Action::Show(Status::Recording)]);
    assert_eq!(
        s.handle(Event::Stop(StopKind::Cancel)),
        vec![Action::ArmStopKeys(false), Action::DiscardRecording, Action::Show(Status::Ready)]
    );
}

#[test]
fn icons() {
    let img = icon_rgba([1, 2, 3]);
    assert_eq!(img.len(), 32 * 32 * 4);
    for px in img.chunks(4) {
        assert_eq!(px, &[1, 2, 3, 0xff]);
    }
    assert_eq!(colour_for(Status::Ready), [0x2e, 0x7d, 0xff]);
    assert_eq!(colour_for(Status::Recording), [0xff, 0x3b, 0x30]);
    assert_eq!(colour_for(Status::Transcribing), [0xff, 0x95, 0x00]);
}

#[test]
fn status_and_notice_texts() {
    assert_eq!(tooltip(Status::Ready), "voicewedge — ready");
    assert_eq!(tooltip(Status::Recording), "voicewedge — recording… (Enter=finish, Esc=cancel)");
    assert_eq!(tooltip(Status::Transcribing), "voicewedge — transcribing…");
    assert_eq!(notice_text(Notice::MicError, "no device"), "Mic error: no device");
    assert_eq!(notice_text(Notice::Cancelled, "x"), "Cancelled");
    assert_eq!(notice_text(Notice::Inserted, ""), "Transcribed & inserted");
    assert_eq!(notice_text(Notice::RecordingStarted, ""), "Recording… Enter to finish, Esc to cancel");
    assert_eq!(notice_text(Notice::WavWriteFailed, ""), "WAV write failed");
    assert_eq!(notice_text(Notice::InsertFailed, ""), "Transcribed (insert failed)");
    assert_eq!(notice_text(Notice::TranscriptionFailed, ""), "Transcription failed");
}

#[test]
fn audio_limit() {
    assert!(!recording_time_up(299_999, 300));
    assert!(recording_time_up(300_000, 300));
    assert!(recording_time_up(0, 0));
    assert!(!recording_time_up(u64::MAX, u64::MAX));
    let mut s = Session::new(true, &feedback(false));
    assert_eq!(s.handle(Event::TimeUp), vec![Action::ArmStopKeys(false)]);
    s.handle(Event::RecorderStarted);
    assert_eq!(
        s.handle(Event::TimeUp),
        vec![Action::ArmStopKeys(false), Action::Show(Status::Transcribing), Action::SaveRecording]
    );
    assert!(!s.recording);
}
