use vstd::prelude::*;

use crate::menu_bar::IconState;

verus! {

/// The application's state, as the main-thread timer sees it:
/// `Idle → (hotkey) → Recording → (hotkey) → Transcribing → (done) → Idle`.
/// `Starting` is the moment between the hotkey press and the microphone
/// stream answering.
#[derive(Debug, Clone, Copy, PartialEq, Eq, Structural)]
pub enum AppState {
    Idle,
    Starting,
    Recording,
    Transcribing,
}

/// What the application hands back to the state machine.
#[derive(Debug)]
pub enum Event {
    /// The global hotkey was pressed.
    Hotkey,
    /// The microphone stream was opened and started.
    RecorderStarted,
    /// The recorder could not be created or started.
    RecorderFailed,
    /// A transcription finished; a failed transcription is handed back as
    /// an empty text.
    Transcript(String),
}

/// Work the application performs, in order, after a step.
#[derive(Debug)]
pub enum Action {
    /// Show this state in the menu bar (title and status label).
    ShowIcon(IconState),
    /// Create a recorder on the default input device and start it, then
    /// hand back `RecorderStarted` or `RecorderFailed`.
    StartRecorder,
    /// Stop the recorder and keep its 16 kHz mono samples.
    StopRecorder,
    /// Transcribe the kept samples in the background, then hand back
    /// `Transcript`.
    Transcribe,
    /// Paste this text into the focused application.
    Inject(String),
}

/// The state after a step, and the actions to perform.
#[derive(Debug)]
pub struct Step {
    pub state: AppState,
    pub actions: Vec<Action>,
}

/// The icon that belongs to each state.
pub open spec fn icon_of(state: AppState) -> IconState {
    match state {
        AppState::Idle => IconState::Idle,
        AppState::Starting => IconState::Recording,
        AppState::Recording => IconState::Recording,
        AppState::Transcribing => IconState::Transcribing,
    }
}

/// The state after `event` in `state`.
pub open spec fn next_state(state: AppState, event: Event) -> AppState {
    match (state, event) {
        (AppState::Idle, Event::Hotkey) => AppState::Starting,
        (AppState::Starting, Event::RecorderStarted) => AppState::Recording,
        (AppState::Starting, Event::RecorderFailed) => AppState::Idle,
        (AppState::Recording, Event::Hotkey) => AppState::Transcribing,
        (AppState::Transcribing, Event::Transcript(_)) => AppState::Idle,
        _ => state,
    }
}

/// The actions after `event` in `state`.
pub open spec fn actions_of(state: AppState, event: Event) -> Seq<Action> {
    match (state, event) {
        (AppState::Idle, Event::Hotkey) => seq![
            Action::ShowIcon(IconState::Recording),
            Action::StartRecorder,
        ],
        (AppState::Starting, Event::RecorderStarted) => seq![],
        (AppState::Starting, Event::RecorderFailed) => seq![Action::ShowIcon(IconState::Idle)],
        (AppState::Recording, Event::Hotkey) => seq![
            Action::StopRecorder,
            Action::ShowIcon(IconState::Transcribing),
            Action::Transcribe,
        ],
        (AppState::Transcribing, Event::Transcript(text)) => if text@.len() == 0 {
            seq![Action::ShowIcon(IconState::Idle)]
        } else {
            seq![Action::Inject(text), Action::ShowIcon(IconState::Idle)]
        },
        _ => seq![],
    }
}

/// The icon on display after performing `actions`, where `shown` was on
/// display before: the last `ShowIcon`, if any.
pub open spec fn displayed_after(shown: IconState, actions: Seq<Action>) -> IconState
    decreases actions.len(),
{
    if actions.len() == 0 {
        shown
    } else {
        match actions.last() {
            Action::ShowIcon(icon) => icon,
            _ => displayed_after(shown, actions.drop_last()),
        }
    }
}

/// One step of the state machine that the main-thread timer drives: the
/// state after `event` in `state` and the actions to perform. Hotkey
/// presses while transcribing, and events that do not belong to the
/// current state, change nothing.
pub fn step(state: AppState, event: Event) -> (res: Step)
    ensures
        res.state == next_state(state, event),
        res.actions@ == actions_of(state, event),
        displayed_after(icon_of(state), res.actions@) == icon_of(res.state),
{
    let ghost ev = event;
    let mut actions: Vec<Action> = Vec::new();
    let next = match state {
        AppState::Idle => match event {
            Event::Hotkey => {
                actions.push(Action::ShowIcon(IconState::Recording));
                actions.push(Action::StartRecorder);
                AppState::Starting
            },
            _ => AppState::Idle,
        },
        AppState::Starting => match event {
            Event::RecorderStarted => AppState::Recording,
            Event::RecorderFailed => {
                actions.push(Action::ShowIcon(IconState::Idle));
                AppState::Idle
            },
            _ => AppState::Starting,
        },
        AppState::Recording => match event {
            Event::Hotkey => {
                actions.push(Action::StopRecorder);
                actions.push(Action::ShowIcon(IconState::Transcribing));
                actions.push(Action::Transcribe);
                AppState::Transcribing
            },
            _ => AppState::Recording,
        },
        AppState::Transcribing => match event {
            Event::Transcript(text) => {
                if !text.as_str().is_empty() {
                    actions.push(Action::Inject(text));
                }
                actions.push(Action::ShowIcon(IconState::Idle));
                AppState::Idle
            },
            _ => AppState::Transcribing,
        },
    };
    proof {
        assert(actions@ =~= actions_of(state, ev));
        reveal_with_fuel(displayed_after, 3);
    }
    Step { state: next, actions }
}

/// Whatever the event, after the actions of a step the menu bar shows the
/// icon of the new state, provided it showed the icon of the old one.
pub proof fn lemma_icon_tracks_state(state: AppState, event: Event)
    ensures
        displayed_after(icon_of(state), actions_of(state, event)) == icon_of(next_state(state, event)),
{
    reveal_with_fuel(displayed_after, 3);
}

/// Hotkey presses while transcribing are ignored.
pub proof fn lemma_hotkey_ignored_while_transcribing()
    ensures
        next_state(AppState::Transcribing, Event::Hotkey) == AppState::Transcribing,
        actions_of(AppState::Transcribing, Event::Hotkey) == Seq::<Action>::empty(),
{
}

/// A finished transcription brings the application back to idle; its text
/// is pasted exactly when it is not empty, and nothing else is pasted.
pub proof fn lemma_transcript_pasted_iff_nonempty(text: String)
    ensures
        next_state(AppState::Transcribing, Event::Transcript(text)) == AppState::Idle,
        actions_of(AppState::Transcribing, Event::Transcript(text)).contains(Action::Inject(text))
            <==> text@.len() > 0,
        forall|other: String|
            #[trigger] actions_of(AppState::Transcribing, Event::Transcript(text)).contains(
                Action::Inject(other),
            ) ==> other == text,
{
    let acts = actions_of(AppState::Transcribing, Event::Transcript(text));
    if text@.len() > 0 {
        assert(acts[0] == Action::Inject(text));
    }
    assert forall|other: String| #[trigger] acts.contains(Action::Inject(other)) implies other
        == text by {
        let i = choose|i: int| 0 <= i < acts.len() && acts[i] == Action::Inject(other);
        assert(0 <= i < acts.len());
    }
}

/// If the recorder cannot be started, the application is idle again and
/// shows the idle icon.
pub proof fn lemma_failed_start_returns_to_idle()
    ensures
        next_state(AppState::Starting, Event::RecorderFailed) == AppState::Idle,
        actions_of(AppState::Starting, Event::RecorderFailed) == seq![Action::ShowIcon(IconState::Idle)],
{
}

/// The recorder is only stopped from the recording state, text is only
/// pasted from the transcribing state, and a new recorder is only started
/// from the idle state.
pub proof fn lemma_actions_belong_to_their_state(state: AppState, event: Event)
    ensures
        actions_of(state, event).contains(Action::StopRecorder) ==> state == AppState::Recording,
        actions_of(state, event).contains(Action::StartRecorder) ==> state == AppState::Idle,
        forall|t: String|
            #[trigger] actions_of(state, event).contains(Action::Inject(t)) ==> state
                == AppState::Transcribing && event == Event::Transcript(t) && t@.len() > 0,
{
    let acts = actions_of(state, event);
    assert forall|t: String| #[trigger] acts.contains(Action::Inject(t)) implies state
        == AppState::Transcribing && event == Event::Transcript(t) && t@.len() > 0 by {
        let i = choose|i: int| 0 <= i < acts.len() && acts[i] == Action::Inject(t);
        assert(0 <= i < acts.len());
    }
    if acts.contains(Action::StopRecorder) {
        let i = choose|i: int| 0 <= i < acts.len() && acts[i] == Action::StopRecorder;
        assert(0 <= i < acts.len());
    }
    if acts.contains(Action::StartRecorder) {
        let i = choose|i: int| 0 <= i < acts.len() && acts[i] == Action::StartRecorder;
        assert(0 <= i < acts.len());
    }
}

/// A full dictation cycle: from idle, a hotkey press, a started recorder, a
/// second hotkey press and a finished transcription lead back to idle, and
/// the transcription's text is what gets pasted (unless it is empty).
pub proof fn lemma_dictation_cycle(text: String)
    ensures
        ({
            let s1 = next_state(AppState::Idle, Event::Hotkey);
            let s2 = next_state(s1, Event::RecorderStarted);
            let s3 = next_state(s2, Event::Hotkey);
            let s4 = next_state(s3, Event::Transcript(text));
            &&& s1 == AppState::Starting
            &&& s2 == AppState::Recording
            &&& s3 == AppState::Transcribing
            &&& s4 == AppState::Idle
            &&& actions_of(s1, Event::RecorderStarted) == Seq::<Action>::empty()
            &&& actions_of(AppState::Idle, Event::Hotkey).contains(Action::StartRecorder)
            &&& actions_of(s2, Event::Hotkey).contains(Action::StopRecorder)
            &&& actions_of(s2, Event::Hotkey).contains(Action::Transcribe)
            &&& (actions_of(s3, Event::Transcript(text)).contains(Action::Inject(text))
                <==> text@.len() > 0)
        }),
{
    assert(actions_of(AppState::Idle, Event::Hotkey)[1] == Action::StartRecorder);
    assert(actions_of(AppState::Recording, Event::Hotkey)[0] == Action::StopRecorder);
    assert(actions_of(AppState::Recording, Event::Hotkey)[2] == Action::Transcribe);
    lemma_transcript_pasted_iff_nonempty(text);
}

/// The menu bar keeps no history: after any actions that end by showing an
/// icon, that icon is on display whatever was shown before. In particular
/// showing `s1` then `s2` looks the same as showing `s2` alone, showing a
/// state twice looks the same as showing it once, and showing the idle
/// state right after start-up (which shows idle) changes nothing.
pub proof fn lemma_last_icon_wins(
    actions: Seq<Action>,
    shown: IconState,
    other: IconState,
    s1: IconState,
    s2: IconState,
)
    ensures
        displayed_after(shown, actions.push(Action::ShowIcon(s2))) == s2,
        displayed_after(shown, seq![Action::ShowIcon(s1), Action::ShowIcon(s2)])
            == displayed_after(other, seq![Action::ShowIcon(s2)]),
        displayed_after(shown, seq![Action::ShowIcon(s1), Action::ShowIcon(s1)])
            == displayed_after(shown, seq![Action::ShowIcon(s1)]),
        displayed_after(IconState::Idle, seq![Action::ShowIcon(IconState::Idle)]) == IconState::Idle,
{
    assert(actions.push(Action::ShowIcon(s2)).last() == Action::ShowIcon(s2));
    assert(seq![Action::ShowIcon(s1), Action::ShowIcon(s2)].last() == Action::ShowIcon(s2));
    assert(seq![Action::ShowIcon(s2)].last() == Action::ShowIcon(s2));
    assert(seq![Action::ShowIcon(s1), Action::ShowIcon(s1)].last() == Action::ShowIcon(s1));
    assert(seq![Action::ShowIcon(s1)].last() == Action::ShowIcon(s1));
    assert(seq![Action::ShowIcon(IconState::Idle)].last() == Action::ShowIcon(IconState::Idle));
}

} // verus!
