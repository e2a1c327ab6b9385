use vstd::prelude::*;

use crate::hotkey::FLAG_COMMAND;

verus! {

/// Virtual keycode of the `V` key.
pub const PASTE_KEYCODE: u16 = 9;

/// Delay in milliseconds between writing the transcript to the pasteboard
/// and posting the paste, so that the pasteboard update propagates first.
pub const PASTEBOARD_SETTLE_MS: u64 = 10;

/// One synthetic keyboard event.
#[derive(Debug, Clone, Copy, PartialEq, Eq, Structural)]
pub struct KeyStroke {
    pub keycode: u16,
    pub key_down: bool,
    pub flags: u64,
}

/// The ⌘V paste: `V` pressed, then released, both with the Command flag.
pub open spec fn paste_sequence() -> Seq<KeyStroke> {
    seq![
        KeyStroke { keycode: PASTE_KEYCODE, key_down: true, flags: FLAG_COMMAND },
        KeyStroke { keycode: PASTE_KEYCODE, key_down: false, flags: FLAG_COMMAND },
    ]
}

/// The keyboard events that synthesise a ⌘V paste, in the order in which
/// they are posted.
pub fn paste_keystrokes() -> (res: Vec<KeyStroke>)
    ensures
        res@ == paste_sequence(),
{
    let mut v: Vec<KeyStroke> = Vec::new();
    v.push(KeyStroke { keycode: PASTE_KEYCODE, key_down: true, flags: FLAG_COMMAND });
    v.push(KeyStroke { keycode: PASTE_KEYCODE, key_down: false, flags: FLAG_COMMAND });
    assert(v@ =~= paste_sequence());
    v
}

/// A single pasteboard item's data across all its types: each entry is a
/// type name and the raw data of that representation.
#[derive(Debug)]
pub struct SavedItem {
    pub entries: Vec<(String, Vec<u8>)>,
}

/// The representations of an item that can be saved, in their order: those
/// whose data could be read.
pub open spec fn kept_entries(representations: Seq<(String, Option<Vec<u8>>)>) -> Seq<(String, Vec<u8>)>
    decreases representations.len(),
{
    if representations.len() == 0 {
        Seq::empty()
    } else {
        let rest = kept_entries(representations.drop_last());
        match representations.last().1 {
            Some(data) => rest.push((representations.last().0, data)),
            None => rest,
        }
    }
}

/// Saves one pasteboard item from its representations, each a type name and
/// the data read for it (`None` where none could be read). Representations
/// without data are left out; the others keep their order.
pub fn save_item(representations: Vec<(String, Option<Vec<u8>>)>) -> (res: SavedItem)
    ensures
        res.entries@ == kept_entries(representations@),
{
    let ghost all = representations@;
    let mut rest = representations;
    let mut entries: Vec<(String, Vec<u8>)> = Vec::new();
    let ghost mut k: int = 0;
    assert(all.skip(0) =~= all);
    assert(all.take(0) =~= Seq::<(String, Option<Vec<u8>>)>::empty());
    while rest.len() > 0
        invariant
            0 <= k <= all.len(),
            rest@ == all.skip(k),
            entries@ == kept_entries(all.take(k)),
        decreases rest@.len(),
    {
        let (ty, data) = rest.remove(0);
        proof {
            assert(all.take(k + 1).drop_last() =~= all.take(k));
            assert(all.take(k + 1).last() == all[k]);
            assert(all.skip(k + 1) =~= all.skip(k).remove(0));
        }
        match data {
            Some(bytes) => entries.push((ty, bytes)),
            None => {},
        }
        proof {
            k = k + 1;
        }
    }
    assert(all.take(k) =~= all);
    SavedItem { entries }
}

/// Saving loses nothing that could be read: when every representation of
/// an item has data, the saved item holds each of them, in order, with its
/// type and its bytes.
pub proof fn lemma_save_keeps_readable(representations: Seq<(String, Option<Vec<u8>>)>)
    requires
        forall|i: int| 0 <= i < representations.len() ==> (#[trigger] representations[i]).1 is Some,
    ensures
        kept_entries(representations).len() == representations.len(),
        forall|i: int|
            0 <= i < representations.len() ==> #[trigger] kept_entries(representations)[i] == (
                representations[i].0,
                representations[i].1->0,
            ),
    decreases representations.len(),
{
    if representations.len() > 0 {
        let init = representations.drop_last();
        assert forall|i: int| 0 <= i < init.len() implies (#[trigger] init[i]).1 is Some by {
            assert(init[i] == representations[i]);
        }
        lemma_save_keeps_readable(init);
        assert((representations[representations.len() - 1]).1 is Some);
    }
}

/// Saving an item is built one representation at a time: a representation
/// without data adds nothing, one with data is appended, with its type and
/// bytes, after those before it.
pub proof fn lemma_save_appends(
    representations: Seq<(String, Option<Vec<u8>>)>,
    ty: String,
    data: Vec<u8>,
)
    ensures
        kept_entries(Seq::empty()) == Seq::<(String, Vec<u8>)>::empty(),
        kept_entries(representations.push((ty, None))) == kept_entries(representations),
        kept_entries(representations.push((ty, Some(data)))) == kept_entries(representations).push(
            (ty, data),
        ),
        kept_entries(representations).len() <= representations.len(),
    decreases representations.len(),
{
    assert(representations.push((ty, None)).drop_last() =~= representations);
    assert(representations.push((ty, Some(data))).drop_last() =~= representations);
    if representations.len() > 0 {
        lemma_save_appends(representations.drop_last(), ty, data);
    }
}

} // verus!
