use vstd::prelude::*;

verus! {

/// Menu bar title while idle.
pub const ICON_IDLE: &'static str = "🎤";

/// Menu bar title while recording.
pub const ICON_RECORDING: &'static str = "🔴";

/// Menu bar title while transcribing.
pub const ICON_TRANSCRIBING: &'static str = "⏳";

/// Status label while idle.
pub const LABEL_IDLE: &'static str = "Idle";

/// Status label while recording.
pub const LABEL_RECORDING: &'static str = "Recording…";

/// Status label while transcribing.
pub const LABEL_TRANSCRIBING: &'static str = "Transcribing…";

/// Title of the menu item that quits the application.
pub const QUIT_TITLE: &'static str = "Quit";

/// Key equivalent of the quit menu item.
pub const QUIT_KEY: &'static str = "q";

/// The possible visual states of the menu bar icon.
#[derive(Debug, Clone, Copy, PartialEq, Eq, Structural)]
pub enum IconState {
    Idle,
    Recording,
    Transcribing,
}

/// The title shown in the menu bar in a state.
pub open spec fn icon_text(state: IconState) -> Seq<char> {
    match state {
        IconState::Idle => ICON_IDLE@,
        IconState::Recording => ICON_RECORDING@,
        IconState::Transcribing => ICON_TRANSCRIBING@,
    }
}

/// The disabled status line shown in the menu in a state.
pub open spec fn label_text(state: IconState) -> Seq<char> {
    match state {
        IconState::Idle => LABEL_IDLE@,
        IconState::Recording => LABEL_RECORDING@,
        IconState::Transcribing => LABEL_TRANSCRIBING@,
    }
}

impl IconState {
    /// The menu bar title and the status label that show this state.
    pub fn presentation(self) -> (res: (&'static str, &'static str))
        ensures
            res.0@ == icon_text(self),
            res.1@ == label_text(self),
    {
        match self {
            IconState::Idle => (ICON_IDLE, LABEL_IDLE),
            IconState::Recording => (ICON_RECORDING, LABEL_RECORDING),
            IconState::Transcribing => (ICON_TRANSCRIBING, LABEL_TRANSCRIBING),
        }
    }
}

/// Different states never look alike: both the title and the status label
/// tell them apart.
pub proof fn lemma_states_are_distinguishable(a: IconState, b: IconState)
    requires
        a != b,
    ensures
        icon_text(a) != icon_text(b),
        label_text(a) != label_text(b),
{
    reveal_strlit("🎤");
    reveal_strlit("🔴");
    reveal_strlit("⏳");
    reveal_strlit("Idle");
    reveal_strlit("Recording…");
    reveal_strlit("Transcribing…");
    assert(ICON_IDLE@[0] != ICON_RECORDING@[0]);
    assert(ICON_IDLE@[0] != ICON_TRANSCRIBING@[0]);
    assert(ICON_RECORDING@[0] != ICON_TRANSCRIBING@[0]);
    assert(LABEL_IDLE@[0] != LABEL_RECORDING@[0]);
    assert(LABEL_IDLE@[0] != LABEL_TRANSCRIBING@[0]);
    assert(LABEL_RECORDING@[0] != LABEL_TRANSCRIBING@[0]);
}

} // verus!
