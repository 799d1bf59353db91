//! Keyboard decode and the fan-in of scroll producers.
//!
//! The keyboard peripheral reports raw status codes; only press codes for
//! the lowercase letters decode to a key event, everything else is dropped.
//! Two always-running watchers turn the scroll keys into commands and
//! deposit them in the shared mailbox the render loop consumes from.

use vstd::prelude::*;

use crate::mailbox::Mailbox;
use crate::mailbox::notified;
use crate::scroll::ScrollCommand;

verus! {

/// Raw code of the first decodable key, `'a'`.
pub const RAW_CODE_FIRST: u8 = 97;

/// Raw code of the last decodable key, `'z'`.
pub const RAW_CODE_LAST: u8 = 122;

/// Letter index of the key that scrolls up (`'i'`).
pub const KEY_CODE_SCROLL_UP: u8 = 8;

/// Letter index of the key that scrolls down (`'k'`).
pub const KEY_CODE_SCROLL_DOWN: u8 = 10;

/// A decoded key identity: the index of a lowercase letter, `0` for `'a'`
/// through `25` for `'z'`.
#[derive(Clone, Copy, PartialEq, Eq, Structural, Debug)]
pub struct Key {
    pub code: u8,
}

/// What a raw status code decodes to: the corresponding letter key for a
/// lowercase-letter press code, nothing for every other code.
pub open spec fn spec_parse_key(raw: u8) -> Option<Key> {
    if RAW_CODE_FIRST <= raw && raw <= RAW_CODE_LAST {
        Some(Key { code: (raw - RAW_CODE_FIRST) as u8 })
    } else {
        None
    }
}

/// Decode one raw press code. Codes outside the lowercase-letter range are
/// dropped and never produce a key event.
pub fn parse_key_state(raw: u8) -> (r: Option<Key>)
    ensures
        r == spec_parse_key(raw),
        r matches Some(k) ==> k.code < 26,
{
    if raw >= RAW_CODE_FIRST && raw <= RAW_CODE_LAST {
        Some(Key { code: raw - RAW_CODE_FIRST })
    } else {
        None
    }
}

/// The scroll command a key stands for, if it is one of the two scroll
/// keys.
pub open spec fn spec_scroll_command_for_key(key: Key) -> Option<ScrollCommand> {
    if key.code == KEY_CODE_SCROLL_UP {
        Some(ScrollCommand::Up)
    } else if key.code == KEY_CODE_SCROLL_DOWN {
        Some(ScrollCommand::Down)
    } else {
        None
    }
}

/// Map a decoded key to its scroll command, if any.
pub fn scroll_command_for_key(key: Key) -> (r: Option<ScrollCommand>)
    ensures
        r == spec_scroll_command_for_key(key),
{
    if key.code == KEY_CODE_SCROLL_UP {
        Some(ScrollCommand::Up)
    } else if key.code == KEY_CODE_SCROLL_DOWN {
        Some(ScrollCommand::Down)
    } else {
        None
    }
}

/// The mailbox slot after one raw code has run through decode and the
/// scroll watchers: a scroll-key press overwrites the slot with its
/// command, every other code leaves the slot untouched.
pub open spec fn spec_slot_after_key(slot: Option<ScrollCommand>, raw: u8) -> Option<
    ScrollCommand,
> {
    match spec_parse_key(raw) {
        Some(k) => match spec_scroll_command_for_key(k) {
            Some(cmd) => notified(slot, cmd),
            None => slot,
        },
        None => slot,
    }
}

/// One step of the input pipeline: decode a raw code and, when it is a
/// scroll key, deposit its command in the shared mailbox. Returns the
/// decoded key event, if any.
pub fn on_key_press(raw: u8, scroll_mailbox: &mut Mailbox<ScrollCommand>) -> (key: Option<Key>)
    ensures
        key == spec_parse_key(raw),
        final(scroll_mailbox).slot() == spec_slot_after_key(old(scroll_mailbox).slot(), raw),
{
    let key = parse_key_state(raw);
    match key {
        Some(k) => {
            match scroll_command_for_key(k) {
                Some(cmd) => {
                    scroll_mailbox.notify(cmd);
                },
                None => {},
            }
        },
        None => {},
    }
    key
}

} // verus!
