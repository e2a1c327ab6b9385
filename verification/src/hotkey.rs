use vstd::prelude::*;

use crate::config::HOTKEY_KEYCODE;

verus! {

/// Caps Lock modifier bit of a key event's flags.
pub const FLAG_ALPHA_SHIFT: u64 = 0x0001_0000;

/// Shift modifier bit.
pub const FLAG_SHIFT: u64 = 0x0002_0000;

/// Control modifier bit.
pub const FLAG_CONTROL: u64 = 0x0004_0000;

/// Option (alternate) modifier bit.
pub const FLAG_ALTERNATE: u64 = 0x0008_0000;

/// Command modifier bit.
pub const FLAG_COMMAND: u64 = 0x0010_0000;

/// The modifier bits that take part in matching the hotkey; device-dependent
/// bits and flags such as "non-coalesced" are masked out.
pub const MODIFIER_MASK: u64 = 0x001F_0000;

/// The modifier combination that, together with the keycode, makes the hotkey.
pub const HOTKEY_MODIFIERS: u64 = 0x0004_0000;

/// A key-down event is the hotkey when its keycode field, read as a `u16`,
/// is the hotkey's keycode and its active modifiers are exactly Control.
pub open spec fn is_hotkey_event(keycode_field: i64, flags: u64) -> bool {
    keycode_field as u16 == HOTKEY_KEYCODE && flags & MODIFIER_MASK == HOTKEY_MODIFIERS
}

/// Decides whether a key-down event, given by its raw keycode field and its
/// flags, is the global hotkey. The event tap swallows the event and signals
/// a toggle exactly when this returns `true`, and passes it on otherwise.
pub fn is_hotkey(keycode_field: i64, flags: u64) -> (res: bool)
    ensures
        res == is_hotkey_event(keycode_field, flags),
{
    let keycode: u16 = keycode_field as u16;
    keycode == HOTKEY_KEYCODE && flags & MODIFIER_MASK == HOTKEY_MODIFIERS
}

/// Bits outside the modifier mask never change whether an event is the hotkey.
pub proof fn lemma_hotkey_ignores_other_bits(keycode_field: i64, flags: u64, other: u64)
    requires
        other & MODIFIER_MASK == 0,
    ensures
        is_hotkey_event(keycode_field, flags | other) == is_hotkey_event(keycode_field, flags),
{
    assert((flags | other) & 0x001F_0000u64 == flags & 0x001F_0000u64) by (bit_vector)
        requires
            other & 0x001F_0000u64 == 0,
    ;
}

/// The hotkey is Control held with Space, with none of Shift, Option,
/// Command or Caps Lock.
pub proof fn lemma_hotkey_is_exactly_control_space(keycode_field: i64, flags: u64)
    ensures
        is_hotkey_event(keycode_field, flags) <==> (
            keycode_field as u16 == 49
            && flags & FLAG_CONTROL != 0
            && flags & FLAG_SHIFT == 0
            && flags & FLAG_ALTERNATE == 0
            && flags & FLAG_COMMAND == 0
            && flags & FLAG_ALPHA_SHIFT == 0
        ),
{
    assert((flags & 0x001F_0000u64 == 0x0004_0000u64) <==> (
        flags & 0x0004_0000u64 != 0
        && flags & 0x0002_0000u64 == 0
        && flags & 0x0008_0000u64 == 0
        && flags & 0x0010_0000u64 == 0
        && flags & 0x0001_0000u64 == 0
    )) by (bit_vector);
}

/// A key-down event as the event tap sees it: the raw keycode field and the
/// flags.
pub type KeyEvent = (i64, u64);

/// The events that the tap passes on to applications when the window server
/// delivers `events`, in order: each event is either swallowed (and a toggle
/// signalled) or passed on unchanged, as `is_hotkey` decides.
pub open spec fn passed_on(events: Seq<KeyEvent>) -> Seq<KeyEvent>
    decreases events.len(),
{
    if events.len() == 0 {
        Seq::empty()
    } else {
        let e = events.last();
        let before = passed_on(events.drop_last());
        if is_hotkey_event(e.0, e.1) {
            before
        } else {
            before.push(e)
        }
    }
}

/// The number of toggles the tap signals when the window server delivers
/// `events`.
pub open spec fn signals(events: Seq<KeyEvent>) -> nat
    decreases events.len(),
{
    if events.len() == 0 {
        0
    } else {
        let e = events.last();
        signals(events.drop_last()) + if is_hotkey_event(e.0, e.1) {
            1nat
        } else {
            0nat
        }
    }
}

/// Whether a key event is not the hotkey.
pub open spec fn not_hotkey(e: KeyEvent) -> bool {
    !is_hotkey_event(e.0, e.1)
}

/// Whether a key event is the hotkey.
pub open spec fn hotkey(e: KeyEvent) -> bool {
    is_hotkey_event(e.0, e.1)
}

/// Over any sequence of key events, the tap passes on exactly the events
/// that are not the hotkey, unchanged and in their order, and signals one
/// toggle per hotkey event; no event is both passed on and signalled, and
/// none is lost.
pub proof fn lemma_tap_over_events(events: Seq<KeyEvent>)
    ensures
        passed_on(events) == events.filter(|e: KeyEvent| not_hotkey(e)),
        signals(events) == events.filter(|e: KeyEvent| hotkey(e)).len(),
        passed_on(events).len() + signals(events) == events.len(),
    decreases events.len(),
{
    reveal_with_fuel(Seq::<KeyEvent>::filter, 1);
    if events.len() > 0 {
        lemma_tap_over_events(events.drop_last());
    }
}

} // verus!
