use whisper::app_state::{step, Action, AppState, Event};
use whisper::menu_bar::IconState;

fn is_show(a: &Action, icon: IconState) -> bool {
    matches!(a, Action::ShowIcon(i) if *i == icon)
}

#[test]
fn hotkey_when_idle_starts_recorder() {
    let s = step(AppState::Idle, Event::Hotkey);
    assert_eq!(s.state, AppState::Starting);
    assert_eq!(s.actions.len(), 2);
    assert!(is_show(&s.actions[0], IconState::Recording));
    assert!(matches!(s.actions[1], Action::StartRecorder));
}

#[test]
fn started_recorder_means_recording() {
    let s = step(AppState::Starting, Event::RecorderStarted);
    assert_eq!(s.state, AppState::Recording);
    assert!(s.actions.is_empty());
}

#[test]
fn failed_recorder_returns_to_idle() {
    let s = step(AppState::Starting, Event::RecorderFailed);
    assert_eq!(s.state, AppState::Idle);
    assert_eq!(s.actions.len(), 1);
    assert!(is_show(&s.actions[0], IconState::Idle));
}

#[test]
fn hotkey_when_recording_transcribes() {
    let s = step(AppState::Recording, Event::Hotkey);
    assert_eq!(s.state, AppState::Transcribing);
    assert_eq!(s.actions.len(), 3);
    assert!(matches!(s.actions[0], Action::StopRecorder));
    assert!(is_show(&s.actions[1], IconState::Transcribing));
    assert!(matches!(s.actions[2], Action::Transcribe));
}

#[test]
fn hotkey_ignored_while_transcribing() {
    let s = step(AppState::Transcribing, Event::Hotkey);
    assert_eq!(s.state, AppState::Transcribing);
    assert!(s.actions.is_empty());
}

#[test]
fn transcript_is_injected() {
    let s = step(AppState::Transcribing, Event::Transcript("hello world".to_string()));
    assert_eq!(s.state, AppState::Idle);
    assert_eq!(s.actions.len(), 2);
    assert!(matches!(&s.actions[0], Action::Inject(t) if t == "hello world"));
    assert!(is_show(&s.actions[1], IconState::Idle));
}

#[test]
fn empty_transcript_is_not_injected() {
    let s = step(AppState::Transcribing, Event::Transcript(String::new()));
    assert_eq!(s.state, AppState::Idle);
    assert_eq!(s.actions.len(), 1);
    assert!(is_show(&s.actions[0], IconState::Idle));
}

#[test]
fn stray_events_change_nothing() {
    let s = step(AppState::Idle, Event::Transcript("x".to_string()));
    assert_eq!(s.state, AppState::Idle);
    assert!(s.actions.is_empty());
    let s = step(AppState::Recording, Event::RecorderStarted);
    assert_eq!(s.state, AppState::Recording);
    assert!(s.actions.is_empty());
    let s = step(AppState::Idle, Event::RecorderFailed);
    assert_eq!(s.state, AppState::Idle);
    assert!(s.actions.is_empty());
}

#[test]
fn full_dictation_cycle() {
    let mut state = AppState::Idle;
    let mut injected = Vec::new();
    let events = vec![
        Event::Hotkey,
        Event::RecorderStarted,
        Event::Hotkey,
        Event::Hotkey,
        Event::Transcript("Dictated text.".to_string()),
    ];
    for e in events {
        let s = step(state, e);
        state = s.state;
        for a in s.actions {
            if let Action::Inject(t) = a {
                injected.push(t);
            }
        }
    }
    assert_eq!(state, AppState::Idle);
    assert_eq!(injected, vec!["Dictated text.".to_string()]);
}

#[test]
fn last_icon_shown_wins() {
    let mut shown = IconState::Idle;
    for a in step(AppState::Recording, Event::Hotkey).actions {
        if let Action::ShowIcon(i) = a {
            shown = i;
        }
    }
    assert_eq!(shown, IconState::Transcribing);
    for a in step(AppState::Transcribing, Event::Transcript("x".to_string())).actions {
        if let Action::ShowIcon(i) = a {
            shown = i;
        }
    }
    assert_eq!(shown, IconState::Idle);
}
