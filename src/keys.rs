//! Keyboard facts: which keys and buttons hold back an activation, and the
//! chord that an activation sends.

use vstd::prelude::*;

verus! {

/// Virtual-key code of the primary mouse button.
pub const VK_LBUTTON: u16 = 0x01;
/// Virtual-key code of the secondary mouse button.
pub const VK_RBUTTON: u16 = 0x02;
/// Virtual-key code of Tab.
pub const VK_TAB: u16 = 0x09;
/// Virtual-key code of either Shift key.
pub const VK_SHIFT: u16 = 0x10;
/// Virtual-key code of either Ctrl key.
pub const VK_CONTROL: u16 = 0x11;
/// Virtual-key code of either Alt key.
pub const VK_MENU: u16 = 0x12;
/// Virtual-key code of the left Windows key.
pub const VK_LWIN: u16 = 0x5B;
/// Virtual-key code of the right Windows key.
pub const VK_RWIN: u16 = 0x5C;

/// Number of entries in a keyboard state table, one per virtual-key code.
pub const KEYBOARD_STATE_LEN: usize = 256;

/// Number of events in the activation chord.
pub const CHORD_LEN: usize = 4;

/// Whether a keyboard-state byte marks its key as down (its high bit is set).
pub open spec fn spec_keydown(key: u8) -> bool {
    key >= 0x80
}

/// Whether the key `vk` is down in the keyboard state table `keys`; a code
/// past the end of the table counts as up.
pub open spec fn key_held(keys: Seq<u8>, vk: u16) -> bool {
    (vk as int) < keys.len() && spec_keydown(keys[vk as int])
}

/// Whether any modifier that holds back an activation is down: Shift, Ctrl,
/// Alt, or either Windows key.
pub open spec fn spec_modifier_held(keys: Seq<u8>) -> bool {
    ||| key_held(keys, VK_SHIFT)
    ||| key_held(keys, VK_CONTROL)
    ||| key_held(keys, VK_MENU)
    ||| key_held(keys, VK_LWIN)
    ||| key_held(keys, VK_RWIN)
}

/// Whether a keyboard-state byte marks its key as down.
pub fn keydown(key: u8) -> (r: bool)
    ensures
        r == spec_keydown(key),
{
    assert((key & 0x80u8 != 0) == (key >= 0x80u8)) by (bit_vector);
    (key & 0x80) != 0
}

/// Whether a single-key state, as the system reports it for one key, marks
/// the key as down (the value is negative).
pub fn button_down(state: i16) -> (r: bool)
    ensures
        r == (state < 0),
{
    state < 0
}

/// Whether `vk` is down in the keyboard state table `keys`.
fn key_held_in(keys: &[u8], vk: u16) -> (r: bool)
    ensures
        r == key_held(keys@, vk),
{
    let i = vk as usize;
    i < keys.len() && keydown(keys[i])
}

/// Whether any modifier that holds back an activation is down in `keys`.
pub fn modifier_held(keys: &[u8]) -> (r: bool)
    ensures
        r == spec_modifier_held(keys@),
{
    key_held_in(keys, VK_SHIFT) || key_held_in(keys, VK_CONTROL) || key_held_in(keys, VK_MENU)
        || key_held_in(keys, VK_LWIN) || key_held_in(keys, VK_RWIN)
}

/// What the input devices report when the pointer enters the corner.
#[derive(Clone, Copy, Debug, PartialEq, Eq, Structural)]
pub struct Guards {
    /// The primary or secondary mouse button is down.
    pub button_held: bool,
    /// Shift, Ctrl, Alt or a Windows key is down.
    pub modifier_held: bool,
}

impl Guards {
    /// Neither a button nor a modifier is down.
    pub open spec fn spec_is_clear(self) -> bool {
        !self.button_held && !self.modifier_held
    }

    /// Nothing held down.
    pub fn clear() -> (r: Guards)
        ensures
            r.spec_is_clear(),
    {
        Guards { button_held: false, modifier_held: false }
    }

    /// Reads the guards from the raw device state: the single-key states of
    /// the two mouse buttons, and the keyboard state table, `None` when it
    /// could not be read. An unreadable table counts as no modifier down.
    pub fn from_device_state(left_button: i16, right_button: i16, keyboard: Option<&[u8]>) -> (r:
        Guards)
        ensures
            r.button_held == (left_button < 0 || right_button < 0),
            r.modifier_held == match keyboard {
                Some(keys) => spec_modifier_held(keys@),
                None => false,
            },
    {
        let button_held = button_down(left_button) || button_down(right_button);
        let modifier_held = match keyboard {
            Some(keys) => modifier_held(keys),
            None => false,
        };
        Guards { button_held, modifier_held }
    }
}

/// One synthetic keyboard event: a key goes down or comes up.
#[derive(Clone, Copy, Debug, PartialEq, Eq, Structural)]
pub struct KeyEvent {
    pub key: u16,
    pub key_up: bool,
}

/// The chord that an activation sends: Windows down, Tab down, Tab up,
/// Windows up.
pub open spec fn spec_chord() -> Seq<KeyEvent> {
    seq![
        KeyEvent { key: VK_LWIN, key_up: false },
        KeyEvent { key: VK_TAB, key_up: false },
        KeyEvent { key: VK_TAB, key_up: true },
        KeyEvent { key: VK_LWIN, key_up: true },
    ]
}

/// The chord that an activation sends, in order.
pub fn hot_corner_input() -> (r: Vec<KeyEvent>)
    ensures
        r@ == spec_chord(),
        r@.len() == CHORD_LEN,
{
    let r = vec![
        KeyEvent { key: VK_LWIN, key_up: false },
        KeyEvent { key: VK_TAB, key_up: false },
        KeyEvent { key: VK_TAB, key_up: true },
        KeyEvent { key: VK_LWIN, key_up: true },
    ];
    assert(r@ =~= spec_chord());
    r
}

/// Whether the system accepted fewer events than the chord holds.
pub fn is_partial_injection(accepted: u32) -> (r: bool)
    ensures
        r == ((accepted as int) < CHORD_LEN),
{
    (accepted as usize) < CHORD_LEN
}

} // verus!
