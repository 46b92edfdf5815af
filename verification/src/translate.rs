//! Translation of host events into the unified vocabulary.
//!
//! A host event arrives as plain values: numeric button and key codes, client
//! coordinates, and four modifier flags. Translation is pure. A code that the
//! tables below do not list yields no event at all.

use vstd::prelude::*;
use crate::event::{Action, Key, Modifier, Modifiers, MouseButton, WindowEvent};

verus! {

/// The four modifier flags that a host event carries.
#[derive(Clone, Copy, Debug, PartialEq, Eq, Structural)]
pub struct ModifierFlags {
    pub shift: bool,
    pub ctrl: bool,
    pub alt: bool,
    pub meta: bool,
}

impl ModifierFlags {
    /// The modifiers whose flag is set: Shift for `shift`, Control for `ctrl`,
    /// Alt for `alt`, Super for `meta`.
    pub open spec fn held(self) -> Set<Modifier> {
        Set::new(
            |m: Modifier|
                match m {
                    Modifier::Shift => self.shift,
                    Modifier::Control => self.ctrl,
                    Modifier::Alt => self.alt,
                    Modifier::Super => self.meta,
                },
        )
    }

    /// All four flags clear.
    pub fn none() -> (f: ModifierFlags)
        ensures
            f == (ModifierFlags { shift: false, ctrl: false, alt: false, meta: false }),
    {
        ModifierFlags { shift: false, ctrl: false, alt: false, meta: false }
    }
}

/// An event as the host delivers it.
#[derive(Clone, Copy, Debug, PartialEq, Eq, Structural)]
pub enum RawEvent {
    /// The drawable surface now has this size in device pixels.
    Resize { width: u32, height: u32 },
    /// The button with this host code went down.
    MouseDown { button: i32, flags: ModifierFlags },
    /// The button with this host code went up.
    MouseUp { button: i32, flags: ModifierFlags },
    /// The pointer moved to these client coordinates.
    MouseMove { x: i32, y: i32, flags: ModifierFlags },
    /// The wheel turned by these amounts.
    Wheel { delta_x: i32, delta_y: i32, flags: ModifierFlags },
    /// The key with this host code went down.
    KeyDown { code: u32, flags: ModifierFlags },
    /// The key with this host code went up.
    KeyUp { code: u32, flags: ModifierFlags },
}

/// The table of mouse buttons: the host code that stands for each button.
/// The last three buttons have none.
pub open spec fn button_code(button: MouseButton) -> Option<i32> {
    match button {
        MouseButton::Button1 => Some(0i32),
        MouseButton::Button2 => Some(2i32),
        MouseButton::Button3 => Some(1i32),
        MouseButton::Button4 => Some(3i32),
        MouseButton::Button5 => Some(4i32),
        MouseButton::Button6 => None,
        MouseButton::Button7 => None,
        MouseButton::Button8 => None,
    }
}

/// The table of keys: the host code that stands for each key. `Unknown` has
/// none.
pub open spec fn key_code(key: Key) -> Option<u32> {
    match key {
        Key::Key1 => Some(49u32),
        Key::Key2 => Some(50u32),
        Key::Key3 => Some(51u32),
        Key::Key4 => Some(52u32),
        Key::Key5 => Some(53u32),
        Key::Key6 => Some(54u32),
        Key::Key7 => Some(55u32),
        Key::Key8 => Some(56u32),
        Key::Key9 => Some(57u32),
        Key::Key0 => Some(48u32),
        Key::A => Some(65u32),
        Key::B => Some(66u32),
        Key::C => Some(67u32),
        Key::D => Some(68u32),
        Key::E => Some(69u32),
        Key::F => Some(70u32),
        Key::G => Some(71u32),
        Key::H => Some(72u32),
        Key::I => Some(73u32),
        Key::J => Some(74u32),
        Key::K => Some(75u32),
        Key::L => Some(76u32),
        Key::M => Some(77u32),
        Key::N => Some(78u32),
        Key::O => Some(79u32),
        Key::P => Some(80u32),
        Key::Q => Some(81u32),
        Key::R => Some(82u32),
        Key::S => Some(83u32),
        Key::T => Some(84u32),
        Key::U => Some(85u32),
        Key::V => Some(86u32),
        Key::W => Some(87u32),
        Key::X => Some(88u32),
        Key::Y => Some(89u32),
        Key::Z => Some(90u32),
        Key::Escape => Some(27u32),
        Key::F1 => Some(112u32),
        Key::F2 => Some(113u32),
        Key::F3 => Some(114u32),
        Key::F4 => Some(115u32),
        Key::F5 => Some(116u32),
        Key::F6 => Some(117u32),
        Key::F7 => Some(118u32),
        Key::F8 => Some(119u32),
        Key::F9 => Some(120u32),
        Key::F10 => Some(121u32),
        Key::F11 => Some(122u32),
        Key::F12 => Some(123u32),
        Key::Insert => Some(45u32),
        Key::Home => Some(36u32),
        Key::Delete => Some(46u32),
        Key::End => Some(35u32),
        Key::PageDown => Some(34u32),
        Key::PageUp => Some(33u32),
        Key::Left => Some(37u32),
        Key::Up => Some(38u32),
        Key::Right => Some(39u32),
        Key::Down => Some(40u32),
        Key::Back => Some(8u32),
        Key::Return => Some(13u32),
        Key::Space => Some(32u32),
        Key::Tab => Some(9u32),
        Key::Numpad0 => Some(96u32),
        Key::Numpad1 => Some(97u32),
        Key::Numpad2 => Some(98u32),
        Key::Numpad3 => Some(99u32),
        Key::Numpad4 => Some(100u32),
        Key::Numpad5 => Some(101u32),
        Key::Numpad6 => Some(102u32),
        Key::Numpad7 => Some(103u32),
        Key::Numpad8 => Some(104u32),
        Key::Numpad9 => Some(105u32),
        Key::Unknown => None,
    }
}

/// The button that `code` stands for: the one that the table lists with this
/// code, if there is one.
pub open spec fn button_for_code(code: i32) -> Option<MouseButton> {
    if exists|b: MouseButton| button_code(b) == Some(code) {
        Some(choose|b: MouseButton| button_code(b) == Some(code))
    } else {
        None
    }
}

/// The key that `code` stands for: the one that the table lists with this
/// code, if there is one.
pub open spec fn key_for_code(code: u32) -> Option<Key> {
    if exists|k: Key| key_code(k) == Some(code) {
        Some(choose|k: Key| key_code(k) == Some(code))
    } else {
        None
    }
}

/// No two buttons share a host code.
pub proof fn lemma_button_codes_distinct(a: MouseButton, b: MouseButton)
    requires
        button_code(a) is Some,
        button_code(a) == button_code(b),
    ensures
        a == b,
{
}

/// No two keys share a host code.
pub proof fn lemma_key_codes_distinct(a: Key, b: Key)
    requires
        key_code(a) is Some,
        key_code(a) == key_code(b),
    ensures
        a == b,
{
}

/// A button is what its own host code stands for, and nothing else is.
pub proof fn lemma_button_for_code(button: MouseButton, code: i32)
    ensures
        button_for_code(code) == Some(button) <==> button_code(button) == Some(code),
{
    if button_code(button) == Some(code) {
        let chosen = choose|b: MouseButton| button_code(b) == Some(code);
        lemma_button_codes_distinct(button, chosen);
    }
}

/// A key is what its own host code stands for, and nothing else is. In
/// particular no code stands for `Unknown`.
pub proof fn lemma_key_for_code(key: Key, code: u32)
    ensures
        key_for_code(code) == Some(key) <==> key_code(key) == Some(code),
        key_for_code(code) != Some(Key::Unknown),
{
    if key_code(key) == Some(code) {
        let chosen = choose|k: Key| key_code(k) == Some(code);
        lemma_key_codes_distinct(key, chosen);
    }
}

/// What a host event becomes: no event where its code is not in the tables,
/// two for a resize, and one otherwise, with the coordinates unchanged.
pub open spec fn translation(raw: RawEvent) -> Seq<WindowEvent> {
    match raw {
        RawEvent::Resize { width, height } => seq![
            WindowEvent::FramebufferSize(width, height),
            WindowEvent::Size(width, height),
        ],
        RawEvent::MouseDown { button, flags } => match button_for_code(button) {
            Some(b) => seq![WindowEvent::MouseButton(b, Action::Press, Modifiers::of(flags.held()))],
            None => Seq::empty(),
        },
        RawEvent::MouseUp { button, flags } => match button_for_code(button) {
            Some(b) => seq![
                WindowEvent::MouseButton(b, Action::Release, Modifiers::of(flags.held())),
            ],
            None => Seq::empty(),
        },
        RawEvent::MouseMove { x, y, flags } => seq![
            WindowEvent::CursorPos(x, y, Modifiers::of(flags.held())),
        ],
        RawEvent::Wheel { delta_x, delta_y, flags } => seq![
            WindowEvent::Scroll(delta_x, delta_y, Modifiers::of(flags.held())),
        ],
        RawEvent::KeyDown { code, flags } => match key_for_code(code) {
            Some(k) => seq![WindowEvent::Key(k, Action::Press, Modifiers::of(flags.held()))],
            None => Seq::empty(),
        },
        RawEvent::KeyUp { code, flags } => match key_for_code(code) {
            Some(k) => seq![WindowEvent::Key(k, Action::Release, Modifiers::of(flags.held()))],
            None => Seq::empty(),
        },
    }
}

/// The translations of `raws`, one after the other.
pub open spec fn translations(raws: Seq<RawEvent>) -> Seq<WindowEvent>
    decreases raws.len(),
{
    if raws.len() == 0 {
        Seq::empty()
    } else {
        translations(raws.drop_last()) + translation(raws.last())
    }
}

/// Reads the four flags into a set of modifiers.
pub fn translate_modifiers(flags: &ModifierFlags) -> (res: Modifiers)
    ensures
        res == Modifiers::of(flags.held()),
        res@ == flags.held(),
{
    let mut res = Modifiers::empty();
    if flags.shift {
        res.insert(Modifier::Shift)
    }
    if flags.ctrl {
        res.insert(Modifier::Control)
    }
    if flags.alt {
        res.insert(Modifier::Alt)
    }
    if flags.meta {
        res.insert(Modifier::Super)
    }
    proof {
        assert(res@ =~= flags.held());
    }
    res
}

/// Looks a host button code up in the table of buttons.
pub fn translate_mouse_button(code: i32) -> (res: Option<MouseButton>)
    ensures
        res == button_for_code(code),
        res matches Some(b) ==> button_code(b) == Some(code),
        res is None ==> forall|b: MouseButton| button_code(b) != Some(code),
{
    let res = match code {
        0 => Some(MouseButton::Button1),
        2 => Some(MouseButton::Button2),
        1 => Some(MouseButton::Button3),
        3 => Some(MouseButton::Button4),
        4 => Some(MouseButton::Button5),
        _ => None,
    };
    proof {
        match res {
            Some(b) => {
                lemma_button_for_code(b, code);
            },
            None => {
                assert forall|b: MouseButton| button_code(b) != Some(code) by {}
            },
        }
    }
    res
}

/// Looks a host key code up in the table of keys.
pub fn translate_key(code: u32) -> (res: Option<Key>)
    ensures
        res == key_for_code(code),
        res matches Some(k) ==> key_code(k) == Some(code),
        res is None ==> forall|k: Key| key_code(k) != Some(code),
        res != Some(Key::Unknown),
{
    let res = match code {
        8 => Some(Key::Back),
        9 => Some(Key::Tab),
        13 => Some(Key::Return),
        27 => Some(Key::Escape),
        32 => Some(Key::Space),
        33 => Some(Key::PageUp),
        34 => Some(Key::PageDown),
        35 => Some(Key::End),
        36 => Some(Key::Home),
        37 => Some(Key::Left),
        38 => Some(Key::Up),
        39 => Some(Key::Right),
        40 => Some(Key::Down),
        45 => Some(Key::Insert),
        46 => Some(Key::Delete),
        48 => Some(Key::Key0),
        49 => Some(Key::Key1),
        50 => Some(Key::Key2),
        51 => Some(Key::Key3),
        52 => Some(Key::Key4),
        53 => Some(Key::Key5),
        54 => Some(Key::Key6),
        55 => Some(Key::Key7),
        56 => Some(Key::Key8),
        57 => Some(Key::Key9),
        65 => Some(Key::A),
        66 => Some(Key::B),
        67 => Some(Key::C),
        68 => Some(Key::D),
        69 => Some(Key::E),
        70 => Some(Key::F),
        71 => Some(Key::G),
        72 => Some(Key::H),
        73 => Some(Key::I),
        74 => Some(Key::J),
        75 => Some(Key::K),
        76 => Some(Key::L),
        77 => Some(Key::M),
        78 => Some(Key::N),
        79 => Some(Key::O),
        80 => Some(Key::P),
        81 => Some(Key::Q),
        82 => Some(Key::R),
        83 => Some(Key::S),
        84 => Some(Key::T),
        85 => Some(Key::U),
        86 => Some(Key::V),
        87 => Some(Key::W),
        88 => Some(Key::X),
        89 => Some(Key::Y),
        90 => Some(Key::Z),
        96 => Some(Key::Numpad0),
        97 => Some(Key::Numpad1),
        98 => Some(Key::Numpad2),
        99 => Some(Key::Numpad3),
        100 => Some(Key::Numpad4),
        101 => Some(Key::Numpad5),
        102 => Some(Key::Numpad6),
        103 => Some(Key::Numpad7),
        104 => Some(Key::Numpad8),
        105 => Some(Key::Numpad9),
        112 => Some(Key::F1),
        113 => Some(Key::F2),
        114 => Some(Key::F3),
        115 => Some(Key::F4),
        116 => Some(Key::F5),
        117 => Some(Key::F6),
        118 => Some(Key::F7),
        119 => Some(Key::F8),
        120 => Some(Key::F9),
        121 => Some(Key::F10),
        122 => Some(Key::F11),
        123 => Some(Key::F12),
        _ => None,
    };
    proof {
        match res {
            Some(k) => {
                lemma_key_for_code(k, code);
            },
            None => {
                assert forall|k: Key| key_code(k) != Some(code) by {}
            },
        }
    }
    res
}

/// Translates one host event. The result holds no event where the event's
/// code is not in the tables.
pub fn translate(raw: &RawEvent) -> (events: Vec<WindowEvent>)
    ensures
        events@ == translation(*raw),
{
    let mut events: Vec<WindowEvent> = Vec::new();
    match *raw {
        RawEvent::Resize { width, height } => {
            events.push(WindowEvent::FramebufferSize(width, height));
            events.push(WindowEvent::Size(width, height));
        },
        RawEvent::MouseDown { button, flags } => {
            if let Some(b) = translate_mouse_button(button) {
                events.push(WindowEvent::MouseButton(b, Action::Press, translate_modifiers(&flags)));
            }
        },
        RawEvent::MouseUp { button, flags } => {
            if let Some(b) = translate_mouse_button(button) {
                events.push(
                    WindowEvent::MouseButton(b, Action::Release, translate_modifiers(&flags)),
                );
            }
        },
        RawEvent::MouseMove { x, y, flags } => {
            events.push(WindowEvent::CursorPos(x, y, translate_modifiers(&flags)));
        },
        RawEvent::Wheel { delta_x, delta_y, flags } => {
            events.push(WindowEvent::Scroll(delta_x, delta_y, translate_modifiers(&flags)));
        },
        RawEvent::KeyDown { code, flags } => {
            if let Some(k) = translate_key(code) {
                events.push(WindowEvent::Key(k, Action::Press, translate_modifiers(&flags)));
            }
        },
        RawEvent::KeyUp { code, flags } => {
            if let Some(k) = translate_key(code) {
                events.push(WindowEvent::Key(k, Action::Release, translate_modifiers(&flags)));
            }
        },
    }
    proof {
        assert(events@ =~= translation(*raw));
    }
    events
}

} // verus!
