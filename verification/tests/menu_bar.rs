use whisper::menu_bar::IconState;

#[test]
fn presentation_of_each_state() {
    assert_eq!(IconState::Idle.presentation(), ("🎤", "Idle"));
    assert_eq!(IconState::Recording.presentation(), ("🔴", "Recording…"));
    assert_eq!(IconState::Transcribing.presentation(), ("⏳", "Transcribing…"));
}

#[test]
fn presentations_are_distinct() {
    let all = [IconState::Idle, IconState::Recording, IconState::Transcribing];
    for a in all {
        for b in all {
            if a != b {
                assert_ne!(a.presentation().0, b.presentation().0);
                assert_ne!(a.presentation().1, b.presentation().1);
            }
        }
    }
}
