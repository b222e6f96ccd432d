//! Translation of local-shm client control messages into Linux input
//! events, tracking which keys and pointer buttons are held so that every
//! press is paired with a release.
use vstd::prelude::*;
use std::collections::HashSet;
use crate::shm_protocol::{ClientMessage, DISPLAY_HEIGHT, DISPLAY_WIDTH};

verus! {

/// Synchronisation event type.
pub const EV_SYN: u16 = 0;
/// Key/button event type.
pub const EV_KEY: u16 = 1;
/// Relative axis event type.
pub const EV_REL: u16 = 2;
/// Absolute axis event type.
pub const EV_ABS: u16 = 3;
/// End of an event packet.
pub const SYN_REPORT: u16 = 0;
/// Relative x axis.
pub const REL_X: u16 = 0;
/// Relative y axis.
pub const REL_Y: u16 = 1;
/// Scroll wheel.
pub const REL_WHEEL: u16 = 8;
/// Absolute x axis.
pub const ABS_X: u16 = 0;
/// Absolute y axis.
pub const ABS_Y: u16 = 1;
/// Left pointer button.
pub const BTN_LEFT: u16 = 272;
/// Right pointer button.
pub const BTN_RIGHT: u16 = 273;
/// Middle pointer button.
pub const BTN_MIDDLE: u16 = 274;
/// Longest control line (in bytes) the transport reads as a message.
pub const MAX_CONTROL_LINE_BYTES: usize = 4096;

/// One Linux input event.
#[derive(Clone, Copy, Debug, PartialEq, Eq, Structural)]
pub struct InputEvent {
    /// Event type (`EV_*`).
    pub type_: u16,
    /// Event code.
    pub code: u16,
    /// Event value.
    pub value: u32,
}

/// Builds an input event.
pub fn input_event(event_type: u16, code: u16, value: u32) -> (e: InputEvent)
    ensures
        e == (InputEvent { type_: event_type, code, value }),
{
    InputEvent { type_: event_type, code, value }
}

/// Whether a control line of this many bytes is read as a message; longer
/// lines are skipped.
pub fn control_line_accepted(len: usize) -> (b: bool)
    ensures
        b == (len <= MAX_CONTROL_LINE_BYTES),
{
    len <= MAX_CONTROL_LINE_BYTES
}

/// The end-of-packet event.
pub open spec fn syn() -> InputEvent {
    InputEvent { type_: EV_SYN, code: SYN_REPORT, value: 0 }
}

/// A key or button event.
pub open spec fn key_ev(code: u16, down: bool) -> InputEvent {
    InputEvent { type_: EV_KEY, code, value: if down { 1 } else { 0 } }
}

/// The Linux key code of an RFB/X11 keysym, when it has one: letters
/// (either case), digits and their shifted symbols, space, return, escape
/// and backspace.
pub open spec fn keysym_code(keysym: u32) -> Option<u16> {
    let lower: u32 = if 65 <= keysym <= 90 {
        (keysym + 32) as u32
    } else {
        keysym
    };
    if lower == 0x61 { Some(30u16) }
    else if lower == 0x62 { Some(48u16) }
    else if lower == 0x63 { Some(46u16) }
    else if lower == 0x64 { Some(32u16) }
    else if lower == 0x65 { Some(18u16) }
    else if lower == 0x66 { Some(33u16) }
    else if lower == 0x67 { Some(34u16) }
    else if lower == 0x68 { Some(35u16) }
    else if lower == 0x69 { Some(23u16) }
    else if lower == 0x6a { Some(36u16) }
    else if lower == 0x6b { Some(37u16) }
    else if lower == 0x6c { Some(38u16) }
    else if lower == 0x6d { Some(50u16) }
    else if lower == 0x6e { Some(49u16) }
    else if lower == 0x6f { Some(24u16) }
    else if lower == 0x70 { Some(25u16) }
    else if lower == 0x71 { Some(16u16) }
    else if lower == 0x72 { Some(19u16) }
    else if lower == 0x73 { Some(31u16) }
    else if lower == 0x74 { Some(20u16) }
    else if lower == 0x75 { Some(22u16) }
    else if lower == 0x76 { Some(47u16) }
    else if lower == 0x77 { Some(17u16) }
    else if lower == 0x78 { Some(45u16) }
    else if lower == 0x79 { Some(21u16) }
    else if lower == 0x7a { Some(44u16) }
    else if lower == 0x31 || lower == 0x21 { Some(2u16) }
    else if lower == 0x32 || lower == 0x40 { Some(3u16) }
    else if lower == 0x33 || lower == 0x23 { Some(4u16) }
    else if lower == 0x34 || lower == 0x24 { Some(5u16) }
    else if lower == 0x35 || lower == 0x25 { Some(6u16) }
    else if lower == 0x36 || lower == 0x5e { Some(7u16) }
    else if lower == 0x37 || lower == 0x26 { Some(8u16) }
    else if lower == 0x38 || lower == 0x2a { Some(9u16) }
    else if lower == 0x39 || lower == 0x28 { Some(10u16) }
    else if lower == 0x30 || lower == 0x29 { Some(11u16) }
    else if lower == 0x20 { Some(57u16) }
    else if lower == 0xff0d { Some(28u16) }
    else if lower == 0xff1b { Some(1u16) }
    else if lower == 0xff08 { Some(14u16) }
    else { None }
}

/// Maps an RFB/X11 keysym to a Linux key code.
pub fn keysym_to_linux(keysym: u32) -> (r: Option<u16>)
    ensures
        r == keysym_code(keysym),
{
    let lower: u32 = if 65 <= keysym && keysym <= 90 {
        keysym + 32
    } else {
        keysym
    };
    let code: u16 = match lower {
        0x0061 => 30,
        0x0062 => 48,
        0x0063 => 46,
        0x0064 => 32,
        0x0065 => 18,
        0x0066 => 33,
        0x0067 => 34,
        0x0068 => 35,
        0x0069 => 23,
        0x006a => 36,
        0x006b => 37,
        0x006c => 38,
        0x006d => 50,
        0x006e => 49,
        0x006f => 24,
        0x0070 => 25,
        0x0071 => 16,
        0x0072 => 19,
        0x0073 => 31,
        0x0074 => 20,
        0x0075 => 22,
        0x0076 => 47,
        0x0077 => 17,
        0x0078 => 45,
        0x0079 => 21,
        0x007a => 44,
        0x0031 | 0x0021 => 2,
        0x0032 | 0x0040 => 3,
        0x0033 | 0x0023 => 4,
        0x0034 | 0x0024 => 5,
        0x0035 | 0x0025 => 6,
        0x0036 | 0x005e => 7,
        0x0037 | 0x0026 => 8,
        0x0038 | 0x002a => 9,
        0x0039 | 0x0028 => 10,
        0x0030 | 0x0029 => 11,
        0x0020 => 57,
        0xff0d => 28,
        0xff1b => 1,
        0xff08 => 14,
        _ => {
            return None;
        },
    };
    Some(code)
}

/// Upper-case ASCII letter keysyms map to the same key as lower-case ones.
pub proof fn lemma_keysym_case_insensitive(keysym: u32)
    requires
        65 <= keysym <= 90,
    ensures
        keysym_code(keysym) == keysym_code((keysym + 32) as u32),
        keysym_code(keysym) is Some,
{
}

/// The letter keys of a QWERTY keyboard, row by row: Linux numbers the keys
/// of each row consecutively, `q`..`p` from 16, `a`..`l` from 30 and
/// `z`..`m` from 44.
pub open spec fn top_letter_row() -> Seq<char> {
    seq!['q', 'w', 'e', 'r', 't', 'y', 'u', 'i', 'o', 'p']
}

/// The middle row of letter keys.
pub open spec fn home_letter_row() -> Seq<char> {
    seq!['a', 's', 'd', 'f', 'g', 'h', 'j', 'k', 'l']
}

/// The bottom row of letter keys.
pub open spec fn bottom_letter_row() -> Seq<char> {
    seq!['z', 'x', 'c', 'v', 'b', 'n', 'm']
}

/// The digit row, `1` to `0`, and the symbols on the same keys with shift.
pub open spec fn digit_row() -> Seq<char> {
    seq!['1', '2', '3', '4', '5', '6', '7', '8', '9', '0']
}

/// The shifted symbols of the digit row, key by key.
pub open spec fn shifted_digit_row() -> Seq<char> {
    seq!['!', '@', '#', '$', '%', '^', '&', '*', '(', ')']
}

/// Every letter keysym, lower or upper case, types the key of that letter:
/// the `i`-th key of a letter row has Linux code first-code-of-row + `i`.
pub proof fn lemma_letter_keysyms_follow_keyboard_rows(i: int)
    ensures
        0 <= i < 10 ==> keysym_code(top_letter_row()[i] as u32) == Some((16 + i) as u16),
        0 <= i < 10 ==> keysym_code((top_letter_row()[i] as u32 - 32) as u32) == Some(
            (16 + i) as u16,
        ),
        0 <= i < 9 ==> keysym_code(home_letter_row()[i] as u32) == Some((30 + i) as u16),
        0 <= i < 9 ==> keysym_code((home_letter_row()[i] as u32 - 32) as u32) == Some(
            (30 + i) as u16,
        ),
        0 <= i < 7 ==> keysym_code(bottom_letter_row()[i] as u32) == Some((44 + i) as u16),
        0 <= i < 7 ==> keysym_code((bottom_letter_row()[i] as u32 - 32) as u32) == Some(
            (44 + i) as u16,
        ),
{
    if 0 <= i < 10 {
        assert(i == 0 || i == 1 || i == 2 || i == 3 || i == 4 || i == 5 || i == 6 || i == 7 || i
            == 8 || i == 9);
    }
}

/// Every digit keysym, and the symbol shift gives on that key, types the
/// digit's key: `1`..`9` are Linux codes 2..10 and `0` is 11.
pub proof fn lemma_digit_keysyms_follow_digit_row(i: int)
    requires
        0 <= i < 10,
    ensures
        keysym_code(digit_row()[i] as u32) == Some((2 + i) as u16),
        keysym_code(shifted_digit_row()[i] as u32) == Some((2 + i) as u16),
{
    assert(i == 0 || i == 1 || i == 2 || i == 3 || i == 4 || i == 5 || i == 6 || i == 7 || i == 8
        || i == 9);
}

/// Space, return, escape and backspace type KEY_SPACE (57), KEY_ENTER
/// (28), KEY_ESC (1) and KEY_BACKSPACE (14).
pub proof fn lemma_control_keysyms(keysym: u32)
    ensures
        keysym == 0x20 ==> keysym_code(keysym) == Some(57u16),
        keysym == 0xff0d ==> keysym_code(keysym) == Some(28u16),
        keysym == 0xff1b ==> keysym_code(keysym) == Some(1u16),
        keysym == 0xff08 ==> keysym_code(keysym) == Some(14u16),
{
}

/// A key event for `code` when `changed`, otherwise nothing.
pub open spec fn key_if(changed: bool, code: u16, down: bool) -> Seq<InputEvent> {
    if changed {
        seq![key_ev(code, down)]
    } else {
        seq![]
    }
}

/// Button events for the buttons whose state differs between `old` and
/// `new` (bit 0 left, bit 1 middle, bit 2 right), in that order.
pub open spec fn button_changes(old: u8, new: u8) -> Seq<InputEvent> {
    key_if(old & 1 != new & 1, BTN_LEFT, new & 1 != 0) + key_if(
        old & 2 != new & 2,
        BTN_MIDDLE,
        new & 2 != 0,
    ) + key_if(old & 4 != new & 4, BTN_RIGHT, new & 4 != 0)
}

/// Wheel events: bit 3 scrolls one step up, bit 4 one step down.
pub open spec fn wheel_events(buttons: u8) -> Seq<InputEvent> {
    (if buttons & 8 != 0 {
        seq![InputEvent { type_: EV_REL, code: REL_WHEEL, value: 1 }]
    } else {
        seq![]
    }) + (if buttons & 16 != 0 {
        seq![InputEvent { type_: EV_REL, code: REL_WHEEL, value: u32::MAX }]
    } else {
        seq![]
    })
}

/// Release events for the held buttons, in left, middle, right order.
pub open spec fn button_releases(held: u8) -> Seq<InputEvent> {
    key_if(held & 1 != 0, BTN_LEFT, false) + key_if(held & 2 != 0, BTN_MIDDLE, false) + key_if(
        held & 4 != 0,
        BTN_RIGHT,
        false,
    )
}

/// The smaller of two values.
pub open spec fn min_u32(a: u32, b: u32) -> u32 {
    if a <= b {
        a
    } else {
        b
    }
}

/// Motion and button events of a relative pointer report, before the end
/// of packet.
pub open spec fn relative_body(held: u8, dx: i32, dy: i32, buttons: u8) -> Seq<InputEvent> {
    (if dx != 0 {
        seq![InputEvent { type_: EV_REL, code: REL_X, value: dx as u32 }]
    } else {
        seq![]
    }) + (if dy != 0 {
        seq![InputEvent { type_: EV_REL, code: REL_Y, value: dy as u32 }]
    } else {
        seq![]
    }) + button_changes(held, buttons)
}

/// The outcome of a relative pointer report: nothing (and no state change)
/// when there is no motion and no button change, otherwise the motion and
/// button events, end of packet, and the new buttons.
pub open spec fn relative_outcome(
    before: PointerState,
    dx: i32,
    dy: i32,
    buttons: u8,
    after: PointerState,
    events: Seq<InputEvent>,
) -> bool {
    let body = relative_body(before.held_buttons(), dx, dy, buttons);
    if body.len() == 0 {
        events.len() == 0 && after == before
    } else {
        events == body + seq![syn()] && after.held_buttons() == buttons & 7
    }
}

/// Held pointer buttons of one client: bit 0 left, bit 1 middle, bit 2
/// right; no other bit is ever set.
#[derive(Clone, Copy, Debug, PartialEq, Eq, Structural)]
pub struct PointerState {
    buttons: u8,
}

fn push_button_changes(events: &mut Vec<InputEvent>, prev: u8, new: u8)
    ensures
        final(events)@ == old(events)@ + button_changes(prev, new),
{
    let ghost start = events@;
    if prev & 1 != new & 1 {
        events.push(input_event(EV_KEY, BTN_LEFT, if new & 1 != 0 { 1 } else { 0 }));
    }
    let ghost a = events@;
    assert(a =~= start + key_if(prev & 1 != new & 1, BTN_LEFT, new & 1 != 0));
    if prev & 2 != new & 2 {
        events.push(input_event(EV_KEY, BTN_MIDDLE, if new & 2 != 0 { 1 } else { 0 }));
    }
    let ghost b = events@;
    assert(b =~= a + key_if(prev & 2 != new & 2, BTN_MIDDLE, new & 2 != 0));
    if prev & 4 != new & 4 {
        events.push(input_event(EV_KEY, BTN_RIGHT, if new & 4 != 0 { 1 } else { 0 }));
    }
    assert(events@ =~= b + key_if(prev & 4 != new & 4, BTN_RIGHT, new & 4 != 0));
    assert(events@ =~= start + button_changes(prev, new));
}

impl PointerState {
    #[verifier::type_invariant]
    spec fn only_button_bits(&self) -> bool {
        self.buttons <= 7
    }

    /// The held buttons.
    pub closed spec fn held_buttons(&self) -> u8 {
        self.buttons
    }

    /// No buttons held.
    pub fn new() -> (p: Self)
        ensures
            p.held_buttons() == 0,
    {
        PointerState { buttons: 0 }
    }

    /// The held buttons (bit 0 left, bit 1 middle, bit 2 right); never
    /// more than the three button bits.
    pub fn buttons(&self) -> (b: u8)
        ensures
            b == self.held_buttons(),
            b <= 7,
    {
        proof {
            use_type_invariant(&*self);
        }
        self.buttons
    }

    /// Events for an absolute pointer report: position clamped to the
    /// display, changed buttons, wheel steps, end of packet.
    pub fn send(&mut self, x: u32, y: u32, buttons: u8) -> (events: Vec<InputEvent>)
        ensures
            events@ == seq![
                InputEvent { type_: EV_ABS, code: ABS_X, value: min_u32(x, (DISPLAY_WIDTH - 1) as u32) },
                InputEvent { type_: EV_ABS, code: ABS_Y, value: min_u32(y, (DISPLAY_HEIGHT - 1) as u32) },
            ] + button_changes(old(self).held_buttons(), buttons) + wheel_events(buttons) + seq![
                syn(),
            ],
            final(self).held_buttons() == buttons & 7,
            final(self).held_buttons() <= 7,
    {
        assert(buttons & 7 <= 7) by (bit_vector);
        let max_x: u32 = DISPLAY_WIDTH - 1;
        let max_y: u32 = DISPLAY_HEIGHT - 1;
        let cx = if x <= max_x { x } else { max_x };
        let cy = if y <= max_y { y } else { max_y };
        let mut events: Vec<InputEvent> = Vec::new();
        events.push(input_event(EV_ABS, ABS_X, cx));
        events.push(input_event(EV_ABS, ABS_Y, cy));
        let ghost head = events@;
        push_button_changes(&mut events, self.buttons, buttons);
        let ghost with_buttons = events@;
        if buttons & 8 != 0 {
            events.push(input_event(EV_REL, REL_WHEEL, 1));
        }
        if buttons & 16 != 0 {
            events.push(input_event(EV_REL, REL_WHEEL, u32::MAX));
        }
        assert(events@ =~= with_buttons + wheel_events(buttons));
        events.push(input_event(EV_SYN, SYN_REPORT, 0));
        self.buttons = buttons & 7;
        events
    }

    /// Events for a relative pointer report: nonzero motion, changed
    /// buttons, end of packet; nothing (and no state change) when there is
    /// no motion and no button change.
    pub fn send_relative(&mut self, dx: i32, dy: i32, buttons: u8) -> (events: Vec<InputEvent>)
        ensures
            relative_outcome(*old(self), dx, dy, buttons, *final(self), events@),
            final(self).held_buttons() <= 7,
    {
        proof {
            use_type_invariant(&*self);
        }
        assert(buttons & 7 <= 7) by (bit_vector);
        let mut events: Vec<InputEvent> = Vec::new();
        if dx != 0 {
            events.push(input_event(EV_REL, REL_X, dx as u32));
        }
        if dy != 0 {
            events.push(input_event(EV_REL, REL_Y, dy as u32));
        }
        let ghost motion = events@;
        assert(motion =~= (if dx != 0 {
            seq![InputEvent { type_: EV_REL, code: REL_X, value: dx as u32 }]
        } else {
            seq![]
        }) + (if dy != 0 {
            seq![InputEvent { type_: EV_REL, code: REL_Y, value: dy as u32 }]
        } else {
            seq![]
        }));
        push_button_changes(&mut events, self.buttons, buttons);
        let ghost body = relative_body(self.buttons, dx, dy, buttons);
        assert(events@ =~= body);
        if events.len() == 0 {
            return events;
        }
        events.push(input_event(EV_SYN, SYN_REPORT, 0));
        assert(events@ =~= body + seq![syn()]);
        self.buttons = buttons & 7;
        events
    }

    /// Releases every held button: release events and end of packet, or
    /// nothing when no button is held. Afterwards no button is held.
    pub fn release_all(&mut self) -> (events: Vec<InputEvent>)
        ensures
            old(self).held_buttons() == 0 ==> events@.len() == 0,
            old(self).held_buttons() != 0 ==> events@ == button_releases(old(self).held_buttons())
                + seq![syn()],
            final(self).held_buttons() == 0,
    {
        if self.buttons == 0 {
            return Vec::new();
        }
        let held = self.buttons;
        let mut events: Vec<InputEvent> = Vec::new();
        if held & 1 != 0 {
            events.push(input_event(EV_KEY, BTN_LEFT, 0));
        }
        let ghost a = events@;
        assert(a =~= key_if(held & 1 != 0, BTN_LEFT, false));
        if held & 2 != 0 {
            events.push(input_event(EV_KEY, BTN_MIDDLE, 0));
        }
        let ghost b = events@;
        assert(b =~= a + key_if(held & 2 != 0, BTN_MIDDLE, false));
        if held & 4 != 0 {
            events.push(input_event(EV_KEY, BTN_RIGHT, 0));
        }
        assert(events@ =~= button_releases(held));
        events.push(input_event(EV_SYN, SYN_REPORT, 0));
        self.buttons = 0;
        events
    }
}

/// Input events produced by one control message, per device.
#[derive(Debug)]
pub struct InputBatch {
    /// Events for the virtual keyboard (empty when nothing is sent).
    pub keyboard: Vec<InputEvent>,
    /// Events for the virtual pointer (empty when nothing is sent).
    pub pointer: Vec<InputEvent>,
}

/// Button changes are key events on the three pointer buttons only.
pub proof fn lemma_button_changes_are_button_keys(old: u8, new: u8)
    ensures
        forall|i: int|
            0 <= i < button_changes(old, new).len() ==> {
                let e = #[trigger] button_changes(old, new)[i];
                e.type_ == EV_KEY && (e.code == BTN_LEFT || e.code == BTN_MIDDLE || e.code
                    == BTN_RIGHT)
            },
        button_changes(old, new).len() <= 3,
{
}

/// Bit 0 of a report is the left button, bit 1 the middle and bit 2 the
/// right: a button's event is sent exactly when its bit changes, as a press
/// when the bit is now set and a release when it is now clear; releasing
/// held buttons releases exactly the buttons whose bits are set.
pub proof fn lemma_button_bits_name_buttons(old: u8, new: u8)
    ensures
        (old & 1 != new & 1) <==> button_changes(old, new).contains(key_ev(BTN_LEFT, new & 1 != 0)),
        (old & 2 != new & 2) <==> button_changes(old, new).contains(
            key_ev(BTN_MIDDLE, new & 2 != 0),
        ),
        (old & 4 != new & 4) <==> button_changes(old, new).contains(
            key_ev(BTN_RIGHT, new & 4 != 0),
        ),
        (old & 1 != 0) <==> button_releases(old).contains(key_ev(BTN_LEFT, false)),
        (old & 2 != 0) <==> button_releases(old).contains(key_ev(BTN_MIDDLE, false)),
        (old & 4 != 0) <==> button_releases(old).contains(key_ev(BTN_RIGHT, false)),
{
    let l = key_if(old & 1 != new & 1, BTN_LEFT, new & 1 != 0);
    let m = key_if(old & 2 != new & 2, BTN_MIDDLE, new & 2 != 0);
    let r = key_if(old & 4 != new & 4, BTN_RIGHT, new & 4 != 0);
    let all = button_changes(old, new);
    assert(all == l + m + r);
    if old & 1 != new & 1 {
        assert(all[0] == key_ev(BTN_LEFT, new & 1 != 0));
    }
    if old & 2 != new & 2 {
        assert(all[l.len() as int] == key_ev(BTN_MIDDLE, new & 2 != 0));
    }
    if old & 4 != new & 4 {
        assert(all[(l.len() + m.len()) as int] == key_ev(BTN_RIGHT, new & 4 != 0));
    }
    let rl = key_if(old & 1 != 0, BTN_LEFT, false);
    let rm = key_if(old & 2 != 0, BTN_MIDDLE, false);
    let rr = key_if(old & 4 != 0, BTN_RIGHT, false);
    let rel = button_releases(old);
    assert(rel == rl + rm + rr);
    if old & 1 != 0 {
        assert(rel[0] == key_ev(BTN_LEFT, false));
    }
    if old & 2 != 0 {
        assert(rel[rl.len() as int] == key_ev(BTN_MIDDLE, false));
    }
    if old & 4 != 0 {
        assert(rel[(rl.len() + rm.len()) as int] == key_ev(BTN_RIGHT, false));
    }
}

/// An absolute position is clamped into the display: a coordinate inside
/// it is kept, one beyond it becomes the last pixel.
pub proof fn lemma_position_clamp(v: u32, last: u32)
    ensures
        min_u32(v, last) <= last,
        v <= last ==> min_u32(v, last) == v,
        v > last ==> min_u32(v, last) == last,
{
}

/// The wheel bits of a pointer report scroll one step each: bit 3 alone
/// gives one wheel event of +1 (up), bit 4 alone one of -1 (down), both
/// give up then down, neither gives none.
pub proof fn lemma_wheel_bits_scroll(buttons: u8)
    ensures
        buttons & 8 != 0 && buttons & 16 == 0 ==> wheel_events(buttons) == seq![
            InputEvent { type_: EV_REL, code: REL_WHEEL, value: 1 },
        ],
        buttons & 8 == 0 && buttons & 16 != 0 ==> wheel_events(buttons) == seq![
            InputEvent { type_: EV_REL, code: REL_WHEEL, value: u32::MAX },
        ],
        buttons & 8 != 0 && buttons & 16 != 0 ==> wheel_events(buttons) == seq![
            InputEvent { type_: EV_REL, code: REL_WHEEL, value: 1 },
            InputEvent { type_: EV_REL, code: REL_WHEEL, value: u32::MAX },
        ],
        buttons & 8 == 0 && buttons & 16 == 0 ==> wheel_events(buttons).len() == 0,
{
    if buttons & 8 != 0 && buttons & 16 == 0 {
        assert(wheel_events(buttons) =~= seq![
            InputEvent { type_: EV_REL, code: REL_WHEEL, value: 1 },
        ]);
    }
    if buttons & 8 == 0 && buttons & 16 != 0 {
        assert(wheel_events(buttons) =~= seq![
            InputEvent { type_: EV_REL, code: REL_WHEEL, value: u32::MAX },
        ]);
    }
    if buttons & 8 != 0 && buttons & 16 != 0 {
        assert(wheel_events(buttons) =~= seq![
            InputEvent { type_: EV_REL, code: REL_WHEEL, value: 1 },
            InputEvent { type_: EV_REL, code: REL_WHEEL, value: u32::MAX },
        ]);
    }
}

/// A relative report with vertical motion always sends it: the events are
/// not empty, end with end-of-packet and hold one REL_Y event with the
/// motion, whatever the horizontal motion and buttons; likewise horizontal
/// motion is always sent as a REL_X event. Motion events come first, x
/// before y.
pub proof fn lemma_relative_motion_is_sent(
    before: PointerState,
    dx: i32,
    dy: i32,
    buttons: u8,
    after: PointerState,
    events: Seq<InputEvent>,
)
    requires
        relative_outcome(before, dx, dy, buttons, after, events),
    ensures
        dx != 0 || dy != 0 ==> events.len() >= 2 && events.last() == syn(),
        dx != 0 ==> events[0] == (InputEvent { type_: EV_REL, code: REL_X, value: dx as u32 }),
        dx == 0 && dy != 0 ==> events[0] == (InputEvent {
            type_: EV_REL,
            code: REL_Y,
            value: dy as u32,
        }),
        dx != 0 && dy != 0 ==> events[1] == (InputEvent {
            type_: EV_REL,
            code: REL_Y,
            value: dy as u32,
        }),
{
}

/// Held keys and pointer buttons of one control client.
#[derive(Debug)]
pub struct ClientInputState {
    keys: HashSet<u16>,
    pointer: PointerState,
}

/// A key release event for each key of `keys`, in order.
pub open spec fn key_releases(keys: Seq<u16>) -> Seq<InputEvent> {
    keys.map_values(|code: u16| key_ev(code, false))
}

/// Whether `order` lists each element of `keys` exactly once.
pub open spec fn lists_each_once(order: Seq<u16>, keys: Set<u16>) -> bool {
    order.no_duplicates() && order.to_set() == keys
}

/// The held keys, each once, in the set's walk order.
fn held_list(keys: &HashSet<u16>) -> (v: Vec<u16>)
    ensures
        lists_each_once(v@, keys@),
{
    broadcast use vstd::std_specs::hash::group_hash_axioms;

    let ghost walk = vstd::std_specs::iter::IteratorSpec::remaining(&keys.iter()).unref();
    let mut v: Vec<u16> = Vec::new();
    for k in it: keys.iter()
        invariant
            it.seq().unref() == walk,
            v@.len() == it.index(),
            v@ == walk.take(it.index()),
    {
        let ghost before = v@;
        v.push(*k);
        assert(walk.take(it.index() + 1) =~= before.push(*k));
    }
    assert(v@.len() == walk.len());
    assert(walk.take(walk.len() as int) =~= walk);
    v
}

impl ClientInputState {
    /// The held key codes.
    pub closed spec fn held(&self) -> Set<u16> {
        self.keys@
    }

    /// The held pointer buttons.
    pub closed spec fn pointer_state(&self) -> PointerState {
        self.pointer
    }

    /// Nothing held.
    pub fn new() -> (s: Self)
        ensures
            s.held() == Set::<u16>::empty(),
            s.pointer_state().held_buttons() == 0,
    {
        ClientInputState { keys: HashSet::new(), pointer: PointerState::new() }
    }

    /// The held key codes, each once, in no particular order.
    pub fn key_codes(&self) -> (v: Vec<u16>)
        ensures
            lists_each_once(v@, self.held()),
    {
        held_list(&self.keys)
    }

    /// The held pointer buttons (bit 0 left, bit 1 middle, bit 2 right).
    pub fn pointer_buttons(&self) -> (b: u8)
        ensures
            b == self.pointer_state().held_buttons(),
            b <= 7,
    {
        self.pointer.buttons()
    }

    /// Records a key press or release; a key event and end of packet are
    /// produced only when the key's held state changes.
    pub fn send_key(&mut self, code: u16, down: bool) -> (events: Vec<InputEvent>)
        ensures
            final(self).pointer_state() == old(self).pointer_state(),
            final(self).held() == (if down {
                old(self).held().insert(code)
            } else {
                old(self).held().remove(code)
            }),
            down != old(self).held().contains(code) ==> events@ == seq![key_ev(code, down), syn()],
            down == old(self).held().contains(code) ==> events@.len() == 0,
    {
        broadcast use vstd::std_specs::hash::group_hash_axioms;

        let changed = if down {
            self.keys.insert(code)
        } else {
            self.keys.remove(&code)
        };
        if changed {
            let mut events: Vec<InputEvent> = Vec::new();
            events.push(input_event(EV_KEY, code, if down { 1 } else { 0 }));
            events.push(input_event(EV_SYN, SYN_REPORT, 0));
            events
        } else {
            Vec::new()
        }
    }

    /// Releases everything the client holds: a release for each held key
    /// (in the set's walk order) and end of packet for the keyboard when a
    /// key is held, button releases and end of packet for the pointer when
    /// a button is held. Afterwards nothing is held.
    pub fn release_all(&mut self) -> (batch: InputBatch)
        ensures
            release_all_outcome(*old(self), *final(self), batch),
    {
        broadcast use vstd::std_specs::hash::group_hash_axioms;

        let ghost before = *self;
        let ghost mut released: Seq<u16> = Seq::empty();
        let mut keyboard: Vec<InputEvent> = Vec::new();
        if !self.keys.is_empty() {
            let order = held_list(&self.keys);
            proof {
                released = order@;
            }
            let mut i: usize = 0;
            while i < order.len()
                invariant
                    i <= order@.len(),
                    keyboard@ =~= key_releases(order@.subrange(0, i as int)),
                decreases order@.len() - i,
            {
                keyboard.push(input_event(EV_KEY, order[i], 0));
                assert(order@.subrange(0, i + 1) =~= order@.subrange(0, i as int).push(
                    order@[i as int],
                ));
                i = i + 1;
            }
            assert(order@.subrange(0, order@.len() as int) =~= order@);
            keyboard.push(input_event(EV_SYN, SYN_REPORT, 0));
            assert(lists_each_once(released, before.held()));
            assert(keyboard@ == key_releases(released) + seq![syn()]);
        } else {
            assert(before.held() =~= Set::<u16>::empty());
        }
        self.keys.clear();
        let mut held = self.pointer;
        let pointer = held.release_all();
        self.pointer = held;
        assert(self.held() =~= Set::<u16>::empty());
        InputBatch { keyboard, pointer }
    }

    /// Applies one control message: keysyms without a key code are
    /// ignored; pointer reports go to the pointer; a release-all message
    /// releases every held key and button.
    pub fn handle_message(&mut self, message: ClientMessage) -> (batch: InputBatch)
        ensures
            match message {
                ClientMessage::Key { keysym, down } => match keysym_code(keysym) {
                    Some(code) => {
                        &&& final(self).pointer_state() == old(self).pointer_state()
                        &&& batch.pointer@.len() == 0
                        &&& final(self).held() == (if down {
                            old(self).held().insert(code)
                        } else {
                            old(self).held().remove(code)
                        })
                        &&& (down != old(self).held().contains(code) ==> batch.keyboard@ == seq![
                            key_ev(code, down),
                            syn(),
                        ])
                        &&& (down == old(self).held().contains(code) ==> batch.keyboard@.len()
                            == 0)
                    },
                    None => {
                        &&& final(self).held() == old(self).held()
                        &&& final(self).pointer_state() == old(self).pointer_state()
                        &&& batch.keyboard@.len() == 0
                        &&& batch.pointer@.len() == 0
                    },
                },
                ClientMessage::Pointer { x, y, buttons } => {
                    &&& final(self).held() == old(self).held()
                    &&& batch.keyboard@.len() == 0
                    &&& final(self).pointer_state().held_buttons() == buttons & 7
                    &&& batch.pointer@ == seq![
                        InputEvent { type_: EV_ABS, code: ABS_X, value: min_u32(x, (DISPLAY_WIDTH - 1) as u32) },
                        InputEvent { type_: EV_ABS, code: ABS_Y, value: min_u32(y, (DISPLAY_HEIGHT - 1) as u32) },
                    ] + button_changes(old(self).pointer_state().held_buttons(), buttons)
                        + wheel_events(buttons) + seq![syn()]
                },
                ClientMessage::RelativePointer { dx, dy, buttons } => {
                    &&& final(self).held() == old(self).held()
                    &&& batch.keyboard@.len() == 0
                    &&& relative_outcome(
                        old(self).pointer_state(),
                        dx,
                        dy,
                        buttons,
                        final(self).pointer_state(),
                        batch.pointer@,
                    )
                },
                ClientMessage::ReleaseAll => release_all_outcome(*old(self), *final(self), batch),
            },
    {
        match message {
            ClientMessage::Key { keysym, down } => match keysym_to_linux(keysym) {
                Some(code) => {
                    let keyboard = self.send_key(code, down);
                    InputBatch { keyboard, pointer: Vec::new() }
                },
                None => InputBatch { keyboard: Vec::new(), pointer: Vec::new() },
            },
            ClientMessage::Pointer { x, y, buttons } => {
                let mut held = self.pointer;
                let pointer = held.send(x, y, buttons);
                self.pointer = held;
                InputBatch { keyboard: Vec::new(), pointer }
            },
            ClientMessage::RelativePointer { dx, dy, buttons } => {
                let mut held = self.pointer;
                let pointer = held.send_relative(dx, dy, buttons);
                self.pointer = held;
                InputBatch { keyboard: Vec::new(), pointer }
            },
            ClientMessage::ReleaseAll => self.release_all(),
        }
    }
}

/// The outcome of releasing everything a client holds: afterwards nothing
/// is held; the keyboard batch releases each held key exactly once (in
/// some order) and ends the packet, or is empty when no key was held; the
/// pointer batch releases each held button and ends the packet, or is
/// empty when no button was held.
pub open spec fn release_all_outcome(
    before: ClientInputState,
    after: ClientInputState,
    batch: InputBatch,
) -> bool {
    &&& after.held() == Set::<u16>::empty()
    &&& after.pointer_state().held_buttons() == 0
    &&& (before.held() == Set::<u16>::empty() ==> batch.keyboard@.len() == 0)
    &&& (before.held() != Set::<u16>::empty() ==> exists|order: Seq<u16>|
        lists_each_once(order, before.held()) && batch.keyboard@ == key_releases(order) + seq![
            syn(),
        ])
    &&& (before.pointer_state().held_buttons() == 0 ==> batch.pointer@.len() == 0)
    &&& (before.pointer_state().held_buttons() != 0 ==> batch.pointer@ == button_releases(
        before.pointer_state().held_buttons(),
    ) + seq![syn()])
}

/// Pressing a key that is not held and then releasing it leaves the held
/// keys as they were.
pub proof fn lemma_press_release_restores(held: Set<u16>, code: u16)
    requires
        !held.contains(code),
    ensures
        held.insert(code).remove(code) == held,
{
    assert(held.insert(code).remove(code) =~= held);
}

} // verus!
