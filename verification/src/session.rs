//! The tray application's decisions, as a state machine: the hotkey starts a
//! recording; Enter finishes it (save, then transcribe and inject), Escape
//! cancels it (no file, no request). The caller performs each action and
//! feeds back what happened as the next event.
use vstd::prelude::*;

use crate::config::Feedback;
use crate::hook::StopKind;

verus! {

broadcast use vstd::string::group_string_axioms;

/// What the tray shows: icon colour and tooltip.
#[derive(Debug, Clone, Copy, PartialEq, Eq)]
pub enum Status {
    /// Idle (blue icon, "ready").
    Ready,
    /// Recording (red icon, "Enter=finish, Esc=cancel").
    Recording,
    /// Transcribing (orange icon).
    Transcribing,
}

/// A toast notification.
#[derive(Debug, Clone, Copy, PartialEq, Eq)]
pub enum Notice {
    /// Recording started; Enter finishes, Escape cancels.
    RecordingStarted,
    /// The microphone could not be opened.
    MicError,
    /// The recording was discarded.
    Cancelled,
    /// The recording could not be written to disk.
    WavWriteFailed,
    /// The transcript was typed into the focused field.
    Inserted,
    /// The transcript was obtained but could not be typed.
    InsertFailed,
    /// The transcription request failed.
    TranscriptionFailed,
}

/// A sound cue (see `sound`).
#[derive(Debug, Clone, Copy, PartialEq, Eq)]
pub enum Cue {
    Start,
    Finish,
    Alert,
}

/// How a transcription job ended.
#[derive(Debug, Clone, Copy, PartialEq, Eq)]
pub enum JobOutcome {
    /// Transcribed and typed into the focused field.
    Inserted,
    /// Transcribed, but typing failed.
    InsertFailed,
    /// The transcription failed.
    Failed,
}

/// What happened, as reported to the state machine.
#[derive(Debug, Clone, Copy, PartialEq, Eq)]
pub enum Event {
    /// A global hotkey event: whether it is our hotkey, and whether it is a
    /// press (rather than a release).
    Hotkey { ours: bool, pressed: bool },
    /// The microphone capture started.
    RecorderStarted,
    /// The microphone capture could not be started.
    RecorderFailed,
    /// The keyboard hook reported a stop key.
    Stop(StopKind),
    /// The finished recording was (or could not be) written to disk.
    RecordingSaved(bool),
    /// A transcription job ended.
    JobDone(JobOutcome),
    /// The recording in progress reached the audio limit
    /// (`audio.max_seconds`); it ends as if Enter was pressed.
    TimeUp,
    /// "Quit" was chosen in the tray menu.
    Quit,
}

/// What the caller is to do.
#[derive(Debug, Clone, Copy, PartialEq, Eq)]
pub enum Action {
    /// Open the microphone; report `RecorderStarted` or `RecorderFailed`.
    StartRecorder,
    /// Arm (true) or disarm (false) the keyboard hook's stop keys.
    ArmStopKeys(bool),
    /// Show this status in the tray.
    Show(Status),
    /// Show this toast.
    Toast(Notice),
    /// Play this cue.
    Play(Cue),
    /// Stop the capture and throw the audio away.
    DiscardRecording,
    /// Stop the capture and write the audio to a new file in the inbox;
    /// report `RecordingSaved`.
    SaveRecording,
    /// Transcribe the file just saved and inject the result, on a worker;
    /// report `JobDone`.
    Transcribe,
    /// Leave the event loop.
    Exit,
}

/// The state of the application.
#[derive(Debug, Clone, Copy, PartialEq, Eq)]
pub struct Session {
    /// Whether a recording is in progress.
    pub recording: bool,
    /// How many transcription jobs are running.
    pub pending: u64,
    /// Whether an API key is available (without one, recordings are saved
    /// but not transcribed).
    pub has_api_key: bool,
    /// Whether toasts are shown.
    pub toasts: bool,
    /// Whether cues are played.
    pub sounds: bool,
}

/// The toast `n`, where toasts are on.
pub open spec fn toast_if(s: Session, n: Notice) -> Seq<Action> {
    if s.toasts {
        seq![Action::Toast(n)]
    } else {
        Seq::empty()
    }
}

/// The cue `c`, where sounds are on.
pub open spec fn cue_if(s: Session, c: Cue) -> Seq<Action> {
    if s.sounds {
        seq![Action::Play(c)]
    } else {
        Seq::empty()
    }
}

/// The status that `s` calls for.
pub open spec fn status_of(s: Session) -> Status {
    if s.recording {
        Status::Recording
    } else if s.pending > 0 {
        Status::Transcribing
    } else {
        Status::Ready
    }
}

/// The step for a stop key `kind` (or the audio limit, as `Finish`).
pub open spec fn stop_step(s: Session, kind: StopKind) -> (Session, Seq<Action>) {
    if !s.recording {
        (s, seq![Action::ArmStopKeys(false)])
    } else {
        let t = Session { recording: false, ..s };
        match kind {
            StopKind::Cancel => (
                t,
                seq![
                    Action::ArmStopKeys(false),
                    Action::DiscardRecording,
                    Action::Show(status_of(t)),
                ] + toast_if(s, Notice::Cancelled) + cue_if(s, Cue::Finish),
            ),
            StopKind::Finish => (
                t,
                seq![Action::ArmStopKeys(false), Action::Show(Status::Transcribing)] + cue_if(
                    s,
                    Cue::Finish,
                ) + seq![Action::SaveRecording],
            ),
        }
    }
}

/// The state machine: the next state and the actions, in order, for event
/// `e` in state `s`.
pub open spec fn next(s: Session, e: Event) -> (Session, Seq<Action>) {
    match e {
        Event::Hotkey { ours, pressed } => if ours && pressed && !s.recording {
            (s, seq![Action::StartRecorder])
        } else {
            (s, Seq::empty())
        },
        Event::RecorderStarted => if s.recording {
            (s, Seq::empty())
        } else {
            let t = Session { recording: true, ..s };
            (
                t,
                seq![Action::ArmStopKeys(true), Action::Show(Status::Recording)] + toast_if(
                    s,
                    Notice::RecordingStarted,
                ) + cue_if(s, Cue::Start),
            )
        },
        Event::RecorderFailed => (s, toast_if(s, Notice::MicError) + cue_if(s, Cue::Alert)),
        Event::Stop(kind) => stop_step(s, kind),
        Event::TimeUp => stop_step(s, StopKind::Finish),
        Event::RecordingSaved(ok) => if !ok {
            (
                s,
                toast_if(s, Notice::WavWriteFailed) + cue_if(s, Cue::Alert) + seq![
                    Action::Show(status_of(s)),
                ],
            )
        } else if !s.has_api_key || s.pending == u64::MAX {
            (s, seq![Action::Show(status_of(s))])
        } else {
            (Session { pending: (s.pending + 1) as u64, ..s }, seq![Action::Transcribe])
        },
        Event::JobDone(outcome) => {
            let t = Session {
                pending: if s.pending > 0 {
                    (s.pending - 1) as u64
                } else {
                    0
                },
                ..s
            };
            let notice = match outcome {
                JobOutcome::Inserted => Notice::Inserted,
                JobOutcome::InsertFailed => Notice::InsertFailed,
                JobOutcome::Failed => Notice::TranscriptionFailed,
            };
            let cue = if outcome == JobOutcome::Inserted {
                Seq::empty()
            } else {
                cue_if(s, Cue::Alert)
            };
            (t, toast_if(s, notice) + cue + seq![Action::Show(status_of(t))])
        },
        Event::Quit => (s, seq![Action::Exit]),
    }
}

impl Session {
    /// The state at start-up: not recording, no jobs, with the given key
    /// availability and feedback settings.
    pub fn new(has_api_key: bool, feedback: &Feedback) -> (s: Session)
        ensures
            s == (Session {
                recording: false,
                pending: 0,
                has_api_key,
                toasts: feedback.toast,
                sounds: feedback.sound,
            }),
    {
        Session {
            recording: false,
            pending: 0,
            has_api_key,
            toasts: feedback.toast,
            sounds: feedback.sound,
        }
    }

    /// The status to show for the current state.
    pub fn status(&self) -> (st: Status)
        ensures
            st == status_of(*self),
    {
        if self.recording {
            Status::Recording
        } else if self.pending > 0 {
            Status::Transcribing
        } else {
            Status::Ready
        }
    }

    fn push_toast(&self, actions: &mut Vec<Action>, n: Notice)
        ensures
            final(actions)@ == old(actions)@ + toast_if(*self, n),
    {
        if self.toasts {
            actions.push(Action::Toast(n));
        }
        assert(final(actions)@ =~= old(actions)@ + toast_if(*self, n));
    }

    fn push_cue(&self, actions: &mut Vec<Action>, c: Cue)
        ensures
            final(actions)@ == old(actions)@ + cue_if(*self, c),
    {
        if self.sounds {
            actions.push(Action::Play(c));
        }
        assert(final(actions)@ =~= old(actions)@ + cue_if(*self, c));
    }

    /// Handles one event: updates the state and returns the actions to
    /// perform, in order.
    pub fn handle(&mut self, event: Event) -> (actions: Vec<Action>)
        ensures
            (*final(self), actions@) == next(*old(self), event),
    {
        let s = *self;
        let mut actions: Vec<Action> = Vec::new();
        let ev = match event {
            Event::TimeUp => Event::Stop(StopKind::Finish),
            other => other,
        };
        assert(next(s, ev) == next(s, event));
        match ev {
            Event::Hotkey { ours, pressed } => {
                if ours && pressed && !s.recording {
                    actions.push(Action::StartRecorder);
                }
            },
            Event::RecorderStarted => {
                if !s.recording {
                    self.recording = true;
                    actions.push(Action::ArmStopKeys(true));
                    actions.push(Action::Show(Status::Recording));
                    s.push_toast(&mut actions, Notice::RecordingStarted);
                    s.push_cue(&mut actions, Cue::Start);
                }
            },
            Event::RecorderFailed => {
                s.push_toast(&mut actions, Notice::MicError);
                s.push_cue(&mut actions, Cue::Alert);
            },
            Event::Stop(kind) => {
                actions.push(Action::ArmStopKeys(false));
                if s.recording {
                    self.recording = false;
                    match kind {
                        StopKind::Cancel => {
                            actions.push(Action::DiscardRecording);
                            let st = self.status();
                            actions.push(Action::Show(st));
                            s.push_toast(&mut actions, Notice::Cancelled);
                            s.push_cue(&mut actions, Cue::Finish);
                        },
                        StopKind::Finish => {
                            actions.push(Action::Show(Status::Transcribing));
                            s.push_cue(&mut actions, Cue::Finish);
                            actions.push(Action::SaveRecording);
                        },
                    }
                }
            },
            Event::RecordingSaved(ok) => {
                if !ok {
                    s.push_toast(&mut actions, Notice::WavWriteFailed);
                    s.push_cue(&mut actions, Cue::Alert);
                    actions.push(Action::Show(s.status()));
                } else if !s.has_api_key || s.pending == u64::MAX {
                    actions.push(Action::Show(s.status()));
                } else {
                    self.pending = s.pending + 1;
                    actions.push(Action::Transcribe);
                }
            },
            Event::JobDone(outcome) => {
                if s.pending > 0 {
                    self.pending = s.pending - 1;
                }
                let notice = match outcome {
                    JobOutcome::Inserted => Notice::Inserted,
                    JobOutcome::InsertFailed => Notice::InsertFailed,
                    JobOutcome::Failed => Notice::TranscriptionFailed,
                };
                s.push_toast(&mut actions, notice);
                match outcome {
                    JobOutcome::Inserted => {},
                    _ => s.push_cue(&mut actions, Cue::Alert),
                }
                let st = self.status();
                actions.push(Action::Show(st));
            },
            Event::Quit => {
                actions.push(Action::Exit);
            },
            Event::TimeUp => {
                // Already turned into a `Finish` stop above.
                assert(false);
            },
        }
        proof {
            let (t, acts) = next(s, ev);
            assert(actions@ =~= acts);
        }
        actions
    }
}


/// Whether a recording that has lasted `elapsed_ms` milliseconds has
/// reached the audio limit of `max_seconds` seconds.
pub fn recording_time_up(elapsed_ms: u64, max_seconds: u64) -> (up: bool)
    ensures
        up == (elapsed_ms >= max_seconds * 1000),
{
    elapsed_ms / 1000 >= max_seconds
}

/// The tray tooltip for each status.
pub open spec fn tooltip_of(st: Status) -> Seq<char> {
    match st {
        Status::Ready => "voicewedge — ready"@,
        Status::Recording => "voicewedge — recording… (Enter=finish, Esc=cancel)"@,
        Status::Transcribing => "voicewedge — transcribing…"@,
    }
}

/// The text of each toast; a microphone error shows the device's error
/// message `mic_error`.
pub open spec fn notice_text_of(n: Notice, mic_error: Seq<char>) -> Seq<char> {
    match n {
        Notice::RecordingStarted => "Recording… Enter to finish, Esc to cancel"@,
        Notice::MicError => "Mic error: "@ + mic_error,
        Notice::Cancelled => "Cancelled"@,
        Notice::WavWriteFailed => "WAV write failed"@,
        Notice::Inserted => "Transcribed & inserted"@,
        Notice::InsertFailed => "Transcribed (insert failed)"@,
        Notice::TranscriptionFailed => "Transcription failed"@,
    }
}

/// The tooltip to show for status `st`.
pub fn tooltip(st: Status) -> (text: String)
    ensures
        text@ == tooltip_of(st),
{
    match st {
        Status::Ready => "voicewedge — ready".to_owned(),
        Status::Recording => "voicewedge — recording… (Enter=finish, Esc=cancel)".to_owned(),
        Status::Transcribing => "voicewedge — transcribing…".to_owned(),
    }
}

/// The text of the toast `n`; `mic_error` is the message shown with a
/// microphone error.
pub fn notice_text(n: Notice, mic_error: &str) -> (text: String)
    ensures
        text@ == notice_text_of(n, mic_error@),
{
    match n {
        Notice::RecordingStarted => "Recording… Enter to finish, Esc to cancel".to_owned(),
        Notice::MicError => {
            let mut t = "Mic error: ".to_owned();
            t.append(mic_error);
            t
        },
        Notice::Cancelled => "Cancelled".to_owned(),
        Notice::WavWriteFailed => "WAV write failed".to_owned(),
        Notice::Inserted => "Transcribed & inserted".to_owned(),
        Notice::InsertFailed => "Transcribed (insert failed)".to_owned(),
        Notice::TranscriptionFailed => "Transcription failed".to_owned(),
    }
}

/// Whether `a` is feedback only (a toast or a cue).
pub open spec fn is_feedback(a: Action) -> bool {
    a is Toast || a is Play
}

/// The actions of `next(s, e)` other than feedback, in order.
pub open spec fn core_actions(s: Session, e: Event) -> Seq<Action> {
    let (t, acts) = next(s, e);
    match e {
        Event::RecorderStarted => if s.recording {
            Seq::empty()
        } else {
            seq![Action::ArmStopKeys(true), Action::Show(Status::Recording)]
        },
        Event::RecorderFailed => Seq::empty(),
        Event::TimeUp => stop_core(s, StopKind::Finish),
        Event::Stop(kind) => stop_core(s, kind),
        Event::RecordingSaved(ok) => if !ok {
            seq![Action::Show(status_of(s))]
        } else {
            acts
        },
        Event::JobDone(_) => seq![Action::Show(status_of(t))],
        _ => acts,
    }
}

/// The core actions of a stop.
pub open spec fn stop_core(s: Session, kind: StopKind) -> Seq<Action> {
    let t = Session { recording: false, ..s };
    if !s.recording {
        seq![Action::ArmStopKeys(false)]
    } else {
        match kind {
            StopKind::Cancel => seq![
                Action::ArmStopKeys(false),
                Action::DiscardRecording,
                Action::Show(status_of(t)),
            ],
            StopKind::Finish => seq![
                Action::ArmStopKeys(false),
                Action::Show(Status::Transcribing),
                Action::SaveRecording,
            ],
        }
    }
}

proof fn lemma_in_concat(a: Seq<Action>, b: Seq<Action>, x: Action)
    ensures
        (a + b).contains(x) ==> a.contains(x) || b.contains(x),
{
    if (a + b).contains(x) {
        let i = choose|i: int| 0 <= i < (a + b).len() && (a + b)[i] == x;
        if i < a.len() {
            assert(a[i] == x);
        } else {
            assert(b[i - a.len()] == x);
        }
    }
}

proof fn lemma_feedback_parts(s: Session, n: Notice, c: Cue, x: Action)
    requires
        !is_feedback(x),
    ensures
        !toast_if(s, n).contains(x),
        !cue_if(s, c).contains(x),
{
}

/// Every action of a stop that is not feedback is one of its core actions.
proof fn lemma_stop_core(s: Session, kind: StopKind, x: Action)
    requires
        !is_feedback(x),
        stop_step(s, kind).1.contains(x),
    ensures
        stop_core(s, kind).contains(x),
{
    if s.recording {
        match kind {
            StopKind::Cancel => {
                let h = stop_core(s, kind);
                lemma_in_concat(h + toast_if(s, Notice::Cancelled), cue_if(s, Cue::Finish), x);
                lemma_in_concat(h, toast_if(s, Notice::Cancelled), x);
                lemma_feedback_parts(s, Notice::Cancelled, Cue::Finish, x);
            },
            StopKind::Finish => {
                let h = seq![Action::ArmStopKeys(false), Action::Show(Status::Transcribing)];
                let tail = seq![Action::SaveRecording];
                lemma_in_concat(h + cue_if(s, Cue::Finish), tail, x);
                lemma_in_concat(h, cue_if(s, Cue::Finish), x);
                lemma_feedback_parts(s, Notice::Cancelled, Cue::Finish, x);
                assert(stop_core(s, kind) == h + tail);
                if h.contains(x) {
                    let i = choose|i: int| 0 <= i < h.len() && h[i] == x;
                    assert(stop_core(s, kind)[i] == x);
                } else if tail.contains(x) {
                    assert(stop_core(s, kind)[2] == x);
                }
            },
        }
    }
}

/// Every action of a step that is not feedback is one of its core actions.
pub proof fn lemma_core_actions(s: Session, e: Event, x: Action)
    requires
        !is_feedback(x),
        next(s, e).1.contains(x),
    ensures
        core_actions(s, e).contains(x),
{
    let (t, acts) = next(s, e);
    match e {
        Event::RecorderStarted => {
            if !s.recording {
                let h = seq![Action::ArmStopKeys(true), Action::Show(Status::Recording)];
                lemma_in_concat(h + toast_if(s, Notice::RecordingStarted), cue_if(s, Cue::Start), x);
                lemma_in_concat(h, toast_if(s, Notice::RecordingStarted), x);
                lemma_feedback_parts(s, Notice::RecordingStarted, Cue::Start, x);
            }
        },
        Event::RecorderFailed => {
            lemma_in_concat(toast_if(s, Notice::MicError), cue_if(s, Cue::Alert), x);
            lemma_feedback_parts(s, Notice::MicError, Cue::Alert, x);
        },
        Event::Stop(kind) => lemma_stop_core(s, kind, x),
        Event::TimeUp => lemma_stop_core(s, StopKind::Finish, x),
        Event::RecordingSaved(ok) => {
            if !ok {
                let tail = seq![Action::Show(status_of(s))];
                lemma_in_concat(toast_if(s, Notice::WavWriteFailed) + cue_if(s, Cue::Alert), tail, x);
                lemma_in_concat(toast_if(s, Notice::WavWriteFailed), cue_if(s, Cue::Alert), x);
                lemma_feedback_parts(s, Notice::WavWriteFailed, Cue::Alert, x);
            }
        },
        Event::JobDone(outcome) => {
            let notice = match outcome {
                JobOutcome::Inserted => Notice::Inserted,
                JobOutcome::InsertFailed => Notice::InsertFailed,
                JobOutcome::Failed => Notice::TranscriptionFailed,
            };
            let c = if outcome == JobOutcome::Inserted {
                Seq::empty()
            } else {
                cue_if(s, Cue::Alert)
            };
            let tail = seq![Action::Show(status_of(t))];
            lemma_in_concat(toast_if(s, notice) + c, tail, x);
            lemma_in_concat(toast_if(s, notice), c, x);
            lemma_feedback_parts(s, notice, Cue::Alert, x);
        },
        _ => {},
    }
}

/// Cancelling keeps nothing: Escape never saves nor transcribes anything,
/// and a recording in progress is discarded.
pub proof fn law_cancel_keeps_nothing(s: Session)
    ensures
        !next(s, Event::Stop(StopKind::Cancel)).1.contains(Action::SaveRecording),
        !next(s, Event::Stop(StopKind::Cancel)).1.contains(Action::Transcribe),
        s.recording ==> next(s, Event::Stop(StopKind::Cancel)).1.contains(
            Action::DiscardRecording,
        ),
        !next(s, Event::Stop(StopKind::Cancel)).0.recording,
{
    let e = Event::Stop(StopKind::Cancel);
    if s.recording {
        assert(next(s, e).1[1] == Action::DiscardRecording);
    }
    if next(s, e).1.contains(Action::SaveRecording) {
        lemma_core_actions(s, e, Action::SaveRecording);
    }
    if next(s, e).1.contains(Action::Transcribe) {
        lemma_core_actions(s, e, Action::Transcribe);
    }
}

/// A transcription is started only for a recording that was just saved, and
/// only when an API key is available.
pub proof fn law_transcribe_only_after_save(s: Session, e: Event)
    ensures
        next(s, e).1.contains(Action::Transcribe) ==> e == Event::RecordingSaved(true)
            && s.has_api_key,
{
    if next(s, e).1.contains(Action::Transcribe) {
        lemma_core_actions(s, e, Action::Transcribe);
    }
}

/// The keyboard hook is armed exactly while recording: a step that changes
/// whether a recording is in progress says so to the hook, and every
/// arming or disarming it asks for agrees with the new state.
pub proof fn law_hook_armed_while_recording(s: Session, e: Event)
    ensures
        next(s, e).0.recording != s.recording ==> next(s, e).1.contains(
            Action::ArmStopKeys(next(s, e).0.recording),
        ),
        forall|b: bool| #[trigger]
            next(s, e).1.contains(Action::ArmStopKeys(b)) ==> b == next(s, e).0.recording,
{
    let (t, acts) = next(s, e);
    if t.recording != s.recording {
        assert(acts[0] == Action::ArmStopKeys(t.recording));
    }
    assert forall|b: bool| #[trigger] acts.contains(Action::ArmStopKeys(b)) implies b
        == t.recording by {
        lemma_core_actions(s, e, Action::ArmStopKeys(b));
    }
}

/// Our hotkey, pressed while idle, asks for the microphone; once it is
/// open the session is recording, the stop keys are armed and the tray
/// shows it.
pub proof fn law_hotkey_starts_recording(s: Session)
    requires
        !s.recording,
    ensures
        next(s, Event::Hotkey { ours: true, pressed: true }) == (s, seq![Action::StartRecorder]),
        next(s, Event::RecorderStarted).0 == (Session { recording: true, ..s }),
        next(s, Event::RecorderStarted).1.subrange(0, 2) == seq![
            Action::ArmStopKeys(true),
            Action::Show(Status::Recording),
        ],
        next(s, Event::RecorderFailed).0 == s,
        !next(s, Event::RecorderFailed).1.contains(Action::ArmStopKeys(true)),
{
    assert(next(s, Event::RecorderStarted).1.subrange(0, 2) =~= seq![
        Action::ArmStopKeys(true),
        Action::Show(Status::Recording),
    ]);
    if next(s, Event::RecorderFailed).1.contains(Action::ArmStopKeys(true)) {
        lemma_core_actions(s, Event::RecorderFailed, Action::ArmStopKeys(true));
    }
}

/// A finished job is no longer counted, and the tray then shows what is
/// still going on: recording, other jobs, or ready.
pub proof fn law_job_done_updates_count(s: Session, outcome: JobOutcome)
    requires
        s.pending > 0,
    ensures
        next(s, Event::JobDone(outcome)).0 == (Session { pending: (s.pending - 1) as u64, ..s }),
        next(s, Event::JobDone(outcome)).1.last() == Action::Show(
            if s.recording {
                Status::Recording
            } else if s.pending > 1 {
                Status::Transcribing
            } else {
                Status::Ready
            },
        ),
        next(s, Event::JobDone(outcome)).1.contains(Action::Toast(Notice::Inserted)) ==> outcome
            == JobOutcome::Inserted,
{
    let acts = next(s, Event::JobDone(outcome)).1;
    if acts.contains(Action::Toast(Notice::Inserted)) {
        let i = choose|i: int| 0 <= i < acts.len() && acts[i] == Action::Toast(Notice::Inserted);
        if s.toasts {
            assert(acts[0] == Action::Toast(
                match outcome {
                    JobOutcome::Inserted => Notice::Inserted,
                    JobOutcome::InsertFailed => Notice::InsertFailed,
                    JobOutcome::Failed => Notice::TranscriptionFailed,
                },
            ));
            if i > 0 && outcome != JobOutcome::Inserted {
                let c = cue_if(s, Cue::Alert);
                let t = next(s, Event::JobDone(outcome)).0;
                assert(acts == seq![acts[0]] + c + seq![Action::Show(status_of(t))]);
                if i < 1 + c.len() {
                    assert(acts[i] == c[i - 1]);
                }
            }
        } else {
            let c: Seq<Action> = if outcome == JobOutcome::Inserted {
                Seq::empty()
            } else {
                cue_if(s, Cue::Alert)
            };
            let t = next(s, Event::JobDone(outcome)).0;
            assert(acts == c + seq![Action::Show(status_of(t))]);
            if i < c.len() {
                assert(acts[i] == c[i]);
            }
        }
    }
}

/// Every recording saved while an API key is available is sent for
/// transcription, whatever jobs are still running: one more job is counted
/// and nothing else about the state changes.
pub proof fn law_every_saved_recording_is_transcribed(s: Session)
    requires
        s.has_api_key,
        s.pending < u64::MAX,
    ensures
        next(s, Event::RecordingSaved(true)).1.contains(Action::Transcribe),
        next(s, Event::RecordingSaved(true)).0 == (Session { pending: (s.pending + 1) as u64, ..s }),
{
    assert(next(s, Event::RecordingSaved(true)).1[0] == Action::Transcribe);
}

/// Reaching the audio limit ends a recording exactly as Enter does: it is
/// saved and then transcribed.
pub proof fn law_time_up_finishes(s: Session)
    ensures
        next(s, Event::TimeUp) == next(s, Event::Stop(StopKind::Finish)),
        s.recording ==> next(s, Event::TimeUp).1.contains(Action::SaveRecording),
{
    if s.recording {
        let acts = next(s, Event::TimeUp).1;
        assert(acts.last() == Action::SaveRecording);
        assert(acts[acts.len() - 1] == Action::SaveRecording);
    }
}

/// The hotkey does nothing while a recording is in progress (Enter and
/// Escape end it), and a stop key does nothing but disarm the hook when no
/// recording is in progress.
pub proof fn law_one_recording_at_a_time(s: Session, ours: bool, pressed: bool, kind: StopKind)
    ensures
        s.recording ==> next(s, Event::Hotkey { ours, pressed }) == (s, Seq::<Action>::empty()),
        !s.recording ==> next(s, Event::Stop(kind)) == (s, seq![Action::ArmStopKeys(false)]),
{
}

} // verus!
