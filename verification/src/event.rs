//! The unified event vocabulary: actions, buttons, keys, modifiers and events.
//!
//! Every backend reports input in these terms. The enumerations are closed: a
//! host code that has no counterpart here is never turned into a value of
//! them.

use vstd::prelude::*;

verus! {

/// The level state of a key or a mouse button.
#[derive(Clone, Copy, Debug, PartialEq, Eq, Hash, Structural)]
pub enum Action {
    Release,
    Press,
}

/// A mouse button. `Button8` is the last one; the table of button states has
/// one entry for each button up to it.
#[derive(Clone, Copy, Debug, PartialEq, Eq, Hash, Structural)]
pub enum MouseButton {
    Button1,
    Button2,
    Button3,
    Button4,
    Button5,
    Button6,
    Button7,
    Button8,
}

/// How many entries the table of button states has.
pub const BUTTON_COUNT: usize = 8;

impl MouseButton {
    /// The position of this button in the table of button states.
    pub open spec fn ord(self) -> int {
        self as int
    }

    /// The position of this button in the table of button states.
    pub fn index(self) -> (i: usize)
        ensures
            i == self.ord(),
            i < BUTTON_COUNT,
    {
        self as usize
    }
}

/// A key of the keyboard. `Unknown` is the last one; the table of key states
/// has one entry for each key up to it.
#[derive(Clone, Copy, Debug, PartialEq, Eq, Hash, Structural)]
pub enum Key {
    Key1,
    Key2,
    Key3,
    Key4,
    Key5,
    Key6,
    Key7,
    Key8,
    Key9,
    Key0,
    A,
    B,
    C,
    D,
    E,
    F,
    G,
    H,
    I,
    J,
    K,
    L,
    M,
    N,
    O,
    P,
    Q,
    R,
    S,
    T,
    U,
    V,
    W,
    X,
    Y,
    Z,
    Escape,
    F1,
    F2,
    F3,
    F4,
    F5,
    F6,
    F7,
    F8,
    F9,
    F10,
    F11,
    F12,
    Insert,
    Home,
    Delete,
    End,
    PageDown,
    PageUp,
    Left,
    Up,
    Right,
    Down,
    Back,
    Return,
    Space,
    Tab,
    Numpad0,
    Numpad1,
    Numpad2,
    Numpad3,
    Numpad4,
    Numpad5,
    Numpad6,
    Numpad7,
    Numpad8,
    Numpad9,
    Unknown,
}

/// How many entries the table of key states has.
pub const KEY_COUNT: usize = 74;

impl Key {
    /// The position of this key in the table of key states.
    pub open spec fn ord(self) -> int {
        self as int
    }

    /// The position of this key in the table of key states.
    pub fn index(self) -> (i: usize)
        ensures
            i == self.ord(),
            i < KEY_COUNT,
    {
        self as usize
    }
}

/// One of the four modifier keys.
#[derive(Clone, Copy, Debug, PartialEq, Eq, Hash, Structural)]
pub enum Modifier {
    Shift,
    Control,
    Alt,
    Super,
}

impl Modifier {
    /// The bit that stands for this modifier in a `Modifiers` value.
    pub open spec fn mask(self) -> u8 {
        match self {
            Modifier::Shift => 1u8,
            Modifier::Control => 2u8,
            Modifier::Alt => 4u8,
            Modifier::Super => 8u8,
        }
    }

    /// The bit that stands for this modifier in a `Modifiers` value.
    pub fn bit(self) -> (b: u8)
        ensures
            b == self.mask(),
    {
        match self {
            Modifier::Shift => 1u8,
            Modifier::Control => 2u8,
            Modifier::Alt => 4u8,
            Modifier::Super => 8u8,
        }
    }
}

/// The set of modifier keys that were held when an event occurred, kept as
/// one bit per modifier.
#[derive(Clone, Copy, Debug, PartialEq, Eq, Hash, Structural)]
pub struct Modifiers {
    bits: u8,
}

/// The bits of the modifiers in `held`, each at its mask.
pub open spec fn bits_of(held: Set<Modifier>) -> u8 {
    ((if held.contains(Modifier::Shift) { 1u8 } else { 0u8 })
        | (if held.contains(Modifier::Control) { 2u8 } else { 0u8 })
        | (if held.contains(Modifier::Alt) { 4u8 } else { 0u8 })
        | (if held.contains(Modifier::Super) { 8u8 } else { 0u8 }))
}

proof fn lemma_masks(a: u8, b: u8, c: u8, d: u8)
    requires
        a == 0 || a == 1,
        b == 0 || b == 2,
        c == 0 || c == 4,
        d == 0 || d == 8,
    ensures
        ((a | b | c | d) & 1u8 != 0) == (a == 1),
        ((a | b | c | d) & 2u8 != 0) == (b == 2),
        ((a | b | c | d) & 4u8 != 0) == (c == 4),
        ((a | b | c | d) & 8u8 != 0) == (d == 8),
        (a | b | c | d) & 0xf0u8 == 0,
{
    assert(((a | b | c | d) & 1u8 != 0) == (a == 1)) by (bit_vector)
        requires
            a == 0 || a == 1,
            b == 0 || b == 2,
            c == 0 || c == 4,
            d == 0 || d == 8,
    ;
    assert(((a | b | c | d) & 2u8 != 0) == (b == 2)) by (bit_vector)
        requires
            a == 0 || a == 1,
            b == 0 || b == 2,
            c == 0 || c == 4,
            d == 0 || d == 8,
    ;
    assert(((a | b | c | d) & 4u8 != 0) == (c == 4)) by (bit_vector)
        requires
            a == 0 || a == 1,
            b == 0 || b == 2,
            c == 0 || c == 4,
            d == 0 || d == 8,
    ;
    assert(((a | b | c | d) & 8u8 != 0) == (d == 8)) by (bit_vector)
        requires
            a == 0 || a == 1,
            b == 0 || b == 2,
            c == 0 || c == 4,
            d == 0 || d == 8,
    ;
    assert((a | b | c | d) & 0xf0u8 == 0) by (bit_vector)
        requires
            a == 0 || a == 1,
            b == 0 || b == 2,
            c == 0 || c == 4,
            d == 0 || d == 8,
    ;
}

proof fn lemma_bits_split(x: u8)
    requires
        x & 0xf0u8 == 0,
    ensures
        x == (x & 1u8) | (x & 2u8) | (x & 4u8) | (x & 8u8),
        x & 1u8 == 0 || x & 1u8 == 1,
        x & 2u8 == 0 || x & 2u8 == 2,
        x & 4u8 == 0 || x & 4u8 == 4,
        x & 8u8 == 0 || x & 8u8 == 8,
{
    assert(x == (x & 1u8) | (x & 2u8) | (x & 4u8) | (x & 8u8)) by (bit_vector)
        requires
            x & 0xf0u8 == 0,
    ;
    assert(x & 1u8 == 0 || x & 1u8 == 1) by (bit_vector);
    assert(x & 2u8 == 0 || x & 2u8 == 2) by (bit_vector);
    assert(x & 4u8 == 0 || x & 4u8 == 4) by (bit_vector);
    assert(x & 8u8 == 0 || x & 8u8 == 8) by (bit_vector);
}

impl View for Modifiers {
    type V = Set<Modifier>;

    /// The modifiers whose bit is set.
    closed spec fn view(&self) -> Set<Modifier> {
        Set::new(|m: Modifier| self.bits & m.mask() != 0)
    }
}

impl Modifiers {
    #[verifier::type_invariant]
    spec fn only_known_bits(self) -> bool {
        self.bits & 0xf0u8 == 0
    }

    /// The value that holds exactly the modifiers in `held`.
    pub closed spec fn of(held: Set<Modifier>) -> Modifiers {
        Modifiers { bits: bits_of(held) }
    }

    /// The value that `of` gives for a set of modifiers holds exactly that
    /// set.
    pub proof fn lemma_of_view(held: Set<Modifier>)
        ensures
            Modifiers::of(held)@ == held,
    {
        let a = if held.contains(Modifier::Shift) { 1u8 } else { 0u8 };
        let b = if held.contains(Modifier::Control) { 2u8 } else { 0u8 };
        let c = if held.contains(Modifier::Alt) { 4u8 } else { 0u8 };
        let d = if held.contains(Modifier::Super) { 8u8 } else { 0u8 };
        lemma_masks(a, b, c, d);
        assert forall|m: Modifier| Modifiers::of(held)@.contains(m) == held.contains(m) by {
            match m {
                Modifier::Shift => {},
                Modifier::Control => {},
                Modifier::Alt => {},
                Modifier::Super => {},
            }
        }
        assert(Modifiers::of(held)@ =~= held);
    }

    /// A value is the one that `of` gives for its own view.
    proof fn lemma_canonical(self)
        requires
            self.bits & 0xf0u8 == 0,
        ensures
            self == Modifiers::of(self@),
    {
        lemma_bits_split(self.bits);
    }

    /// No modifier.
    pub fn empty() -> (m: Modifiers)
        ensures
            m@ == Set::<Modifier>::empty(),
            m == Modifiers::of(Set::<Modifier>::empty()),
    {
        proof {
            assert(0u8 & 0xf0u8 == 0) by (bit_vector);
        }
        let m = Modifiers { bits: 0u8 };
        proof {
            assert forall|k: Modifier| !m@.contains(k) by {
                let x = k.mask();
                assert(0u8 & x == 0) by (bit_vector);
            }
            assert(m@ =~= Set::<Modifier>::empty());
            m.lemma_canonical();
        }
        m
    }

    /// The value with one bit for each flag that is set.
    pub fn from_flags(shift: bool, control: bool, alt: bool, super_key: bool) -> (m: Modifiers)
        ensures
            m@.contains(Modifier::Shift) == shift,
            m@.contains(Modifier::Control) == control,
            m@.contains(Modifier::Alt) == alt,
            m@.contains(Modifier::Super) == super_key,
            m == Modifiers::of(m@),
    {
        let a: u8 = if shift { 1u8 } else { 0u8 };
        let b: u8 = if control { 2u8 } else { 0u8 };
        let c: u8 = if alt { 4u8 } else { 0u8 };
        let d: u8 = if super_key { 8u8 } else { 0u8 };
        proof {
            lemma_masks(a, b, c, d);
        }
        let m = Modifiers { bits: a | b | c | d };
        proof {
            m.lemma_canonical();
        }
        m
    }

    /// Adds `which` to the set.
    pub fn insert(&mut self, which: Modifier)
        ensures
            final(self)@ == old(self)@.insert(which),
            *final(self) == Modifiers::of(old(self)@.insert(which)),
    {
        let bit = which.bit();
        let bits = self.bits;
        proof {
            use_type_invariant(&*self);
            assert((bits | bit) & 0xf0u8 == 0) by (bit_vector)
                requires
                    bits & 0xf0u8 == 0,
                    bit == 1 || bit == 2 || bit == 4 || bit == 8,
            ;
        }
        self.bits = bits | bit;
        proof {
            assert forall|m: Modifier| self@.contains(m) == old(self)@.insert(which).contains(m) by {
                let x = m.mask();
                assert(((bits | bit) & x != 0) == ((bits & x != 0) || x == bit)) by (bit_vector)
                    requires
                        bit == 1 || bit == 2 || bit == 4 || bit == 8,
                        x == 1 || x == 2 || x == 4 || x == 8,
                ;
            }
            assert(self@ =~= old(self)@.insert(which));
            self.lemma_canonical();
        }
    }

    /// Whether `which` is in the set.
    pub fn contains(&self, which: Modifier) -> (r: bool)
        ensures
            r == self@.contains(which),
    {
        self.bits & which.bit() != 0
    }

    /// Whether no modifier is in the set.
    pub fn is_empty(&self) -> (r: bool)
        ensures
            r == (self@ == Set::<Modifier>::empty()),
    {
        proof {
            use_type_invariant(self);
            self.lemma_canonical();
            Modifiers::lemma_of_view(Set::<Modifier>::empty());
            if self.bits == 0 {
                assert forall|k: Modifier| !self@.contains(k) by {
                    let x = k.mask();
                    assert(0u8 & x == 0) by (bit_vector);
                }
                assert(self@ =~= Set::<Modifier>::empty());
            } else {
                lemma_bits_split(self.bits);
                let x = self.bits;
                assert((x & 1u8) | (x & 2u8) | (x & 4u8) | (x & 8u8) != 0 ==> x & 1u8 != 0 || x & 2u8
                    != 0 || x & 4u8 != 0 || x & 8u8 != 0) by (bit_vector);
                assert(self@.contains(Modifier::Shift) || self@.contains(Modifier::Control)
                    || self@.contains(Modifier::Alt) || self@.contains(Modifier::Super));
            }
        }
        self.bits == 0
    }

    /// The bits of this value: 1 for Shift, 2 for Control, 4 for Alt, 8 for
    /// Super.
    pub fn bits(&self) -> (b: u8)
        ensures
            b == bits_of(self@),
    {
        proof {
            use_type_invariant(self);
            self.lemma_canonical();
            Modifiers::lemma_of_view(self@);
        }
        self.bits
    }
}

/// An event in the form that every backend reports it in.
#[derive(Clone, Copy, Debug, PartialEq, Eq, Hash, Structural)]
pub enum WindowEvent {
    /// The window was resized to this width and height.
    Size(u32, u32),
    /// The framebuffer was resized to this width and height.
    FramebufferSize(u32, u32),
    /// A mouse button was pressed or released.
    MouseButton(MouseButton, Action, Modifiers),
    /// The cursor moved to these client coordinates.
    CursorPos(i32, i32, Modifiers),
    /// The wheel was turned by these amounts.
    Scroll(i32, i32, Modifiers),
    /// A key was pressed or released.
    Key(Key, Action, Modifiers),
    /// The window was asked to close.
    Close,
}

} // verus!
