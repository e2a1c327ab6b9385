use vstd::prelude::*;

verus! {

/// Virtual keycode for the hotkey (49 = Space).
pub const HOTKEY_KEYCODE: u16 = 49;

/// Path to the whisper model file, before tilde expansion.
pub const MODEL_PATH: &'static str = "~/.config/whisper/models/ggml-small.en.bin";

/// Log file, before tilde expansion.
pub const LOG_PATH: &'static str = "~/.config/whisper/whisper.log";

/// Language code for whisper transcription.
pub const LANGUAGE: &'static str = "en";

/// Delay in milliseconds after the synthetic paste before the pasteboard is restored.
pub const PASTE_DELAY_MS: u64 = 500;

/// What expanding a leading `~` of `path` gives, where `home` is the value of
/// `HOME` if it is set (and valid Unicode).
pub open spec fn expanded(path: Seq<char>, home: Option<Seq<char>>) -> Seq<char> {
    if path.len() > 0 && path[0] == '~' && home is Some {
        home->0 + path.subrange(1, path.len() as int)
    } else {
        path
    }
}

/// Expands a leading `~` in `path` to `home`, the value of the `HOME`
/// environment variable (`None` where it is unset).
pub fn expand_tilde(path: &str, home: Option<&str>) -> (res: String)
    ensures
        res@ == expanded(path@, match home { Some(h) => Some(h@), None => None }),
{
    let n = path.unicode_len();
    if n > 0 && path.get_char(0) == '~' {
        match home {
            Some(h) => {
                let rest = path.substring_char(1, n);
                return String::from_str(h).concat(rest);
            },
            None => {},
        }
    }
    path.to_owned()
}

/// Returns the model path with a leading `~` replaced by `home`.
pub fn model_path(home: Option<&str>) -> (res: String)
    ensures
        res@ == expanded(MODEL_PATH@, match home { Some(h) => Some(h@), None => None }),
{
    expand_tilde(MODEL_PATH, home)
}

/// Tilde expansion: without a home, or without a leading `~`, the path is
/// unchanged; with both, the home takes the place of the `~` and the rest of
/// the path follows it.
pub proof fn lemma_expansion(path: Seq<char>, home: Seq<char>)
    ensures
        expanded(path, None) == path,
        path.len() > 0 && path[0] == '~' ==> expanded(path, Some(home)) == home + path.drop_first(),
        path.len() == 0 || path[0] != '~' ==> expanded(path, Some(home)) == path,
        path.len() > 0 && path[0] == '~' ==> expanded(path, Some(home)).len() == home.len() + path.len() - 1,
{
    assert(path.subrange(1, path.len() as int) =~= path.drop_first());
}

} // verus!
