//! The vocabulary of the library: input symbols, modifier and quit flag
//! sets, and the small enums that events carry.

use vstd::prelude::*;

pub use crate::events::IdLessTouch;

verus! {

/// Identifier of a physical key.
pub type ScanCode = u32;

/// Identifier of an analog axis on some device.
pub type AxisId = u32;

/// Identifier of a button on some device.
pub type ButtonId = u32;

/// A value that names one input (a key, a button, ...) and can be stored in
/// a hash table under a 64-bit code.
///
/// The code identifies the symbol: two symbols with the same code are the
/// same symbol, and `from_code` finds the symbol of a code whenever there is
/// one.
pub trait Symbol: Copy + Sized {
    /// The code under which the symbol is stored.
    spec fn code(self) -> u64;

    /// Computes the code of the symbol.
    fn to_code(self) -> (c: u64)
        ensures
            c == self.code(),
    ;

    /// Finds the symbol that has the given code.
    fn from_code(c: u64) -> (found: Option<Self>)
        ensures
            found matches Some(s) ==> s.code() == c,
            found is None ==> forall|s: Self| #[trigger] s.code() != c,
    ;

    /// No two symbols share a code.
    proof fn code_is_injective(a: Self, b: Self)
        requires
            a.code() == b.code(),
        ensures
            a == b,
    ;
}

/// Whether a key or button went down or up.
#[derive(Clone, Copy, Debug, PartialEq, Eq, Hash, Structural)]
pub enum ElementState {
    Pressed,
    Released,
}

/// Whether the cursor is over the window.
#[derive(Clone, Copy, Debug, PartialEq, Eq, Hash, Structural)]
pub enum CursorState {
    Entered,
    Left,
}

/// A button of a mouse.
#[derive(Clone, Copy, Debug, PartialEq, Eq, Hash, Structural)]
pub enum MouseButton {
    Left,
    Right,
    Middle,
    Other(u16),
}

/// The layout-dependent meaning of a key, as a number.
#[derive(Clone, Copy, Debug, PartialEq, Eq, Hash, Structural)]
pub struct KeyCode(pub u32);

/// Any input that can be pressed: a mouse button, a key by meaning, or a key
/// by position.
#[derive(Clone, Copy, Debug, PartialEq, Eq, Hash, Structural)]
pub enum GenericInput {
    MouseButton(MouseButton),
    KeyCode(KeyCode),
    ScanCode(ScanCode),
}

/// Codes of keys by meaning start here.
pub const KEY_BASE: u64 = 0x1_0000_0000;

/// Codes of keys by position start here.
pub const SCAN_BASE: u64 = 0x2_0000_0000;

/// One past the largest code in use.
pub const CODE_END: u64 = 0x3_0000_0000;

impl Symbol for MouseButton {
    open spec fn code(self) -> u64 {
        match self {
            MouseButton::Left => 0,
            MouseButton::Right => 1,
            MouseButton::Middle => 2,
            MouseButton::Other(n) => (3 + n) as u64,
        }
    }

    fn to_code(self) -> (c: u64) {
        match self {
            MouseButton::Left => 0,
            MouseButton::Right => 1,
            MouseButton::Middle => 2,
            MouseButton::Other(n) => 3 + n as u64,
        }
    }

    fn from_code(c: u64) -> (found: Option<Self>) {
        if c == 0 {
            Some(MouseButton::Left)
        } else if c == 1 {
            Some(MouseButton::Right)
        } else if c == 2 {
            Some(MouseButton::Middle)
        } else if c <= 3 + 0xffff {
            Some(MouseButton::Other((c - 3) as u16))
        } else {
            None
        }
    }

    proof fn code_is_injective(a: Self, b: Self) {
    }
}

impl Symbol for KeyCode {
    open spec fn code(self) -> u64 {
        self.0 as u64
    }

    fn to_code(self) -> (c: u64) {
        self.0 as u64
    }

    fn from_code(c: u64) -> (found: Option<Self>) {
        if c <= 0xffff_ffff {
            Some(KeyCode(c as u32))
        } else {
            None
        }
    }

    proof fn code_is_injective(a: Self, b: Self) {
    }
}

impl Symbol for GenericInput {
    open spec fn code(self) -> u64 {
        match self {
            GenericInput::MouseButton(button) => button.code(),
            GenericInput::KeyCode(key) => (KEY_BASE + key.0) as u64,
            GenericInput::ScanCode(scan) => (SCAN_BASE + scan) as u64,
        }
    }

    fn to_code(self) -> (c: u64) {
        match self {
            GenericInput::MouseButton(button) => button.to_code(),
            GenericInput::KeyCode(key) => KEY_BASE + key.0 as u64,
            GenericInput::ScanCode(scan) => SCAN_BASE + scan as u64,
        }
    }

    fn from_code(c: u64) -> (found: Option<Self>) {
        if c < KEY_BASE {
            match MouseButton::from_code(c) {
                Some(button) => Some(GenericInput::MouseButton(button)),
                None => None,
            }
        } else if c < SCAN_BASE {
            Some(GenericInput::KeyCode(KeyCode((c - KEY_BASE) as u32)))
        } else if c < CODE_END {
            Some(GenericInput::ScanCode((c - SCAN_BASE) as u32))
        } else {
            None
        }
    }

    proof fn code_is_injective(a: Self, b: Self) {
    }
}

impl GenericInput {
    /// The mouse button that this input is, if it is one.
    pub fn mouse_button(self) -> (found: Option<MouseButton>)
        ensures
            found == match self {
                GenericInput::MouseButton(button) => Some(button),
                _ => None,
            },
    {
        match self {
            GenericInput::MouseButton(button) => Some(button),
            _ => None,
        }
    }

    /// The key (by meaning) that this input is, if it is one.
    pub fn key_code(self) -> (found: Option<KeyCode>)
        ensures
            found == match self {
                GenericInput::KeyCode(key) => Some(key),
                _ => None,
            },
    {
        match self {
            GenericInput::KeyCode(key) => Some(key),
            _ => None,
        }
    }

    /// The key (by position) that this input is, if it is one.
    pub fn scan_code(self) -> (found: Option<ScanCode>)
        ensures
            found == match self {
                GenericInput::ScanCode(scan) => Some(scan),
                _ => None,
            },
    {
        match self {
            GenericInput::ScanCode(scan) => Some(scan),
            _ => None,
        }
    }
}

impl From<MouseButton> for GenericInput {
    fn from(value: MouseButton) -> (input: Self) {
        GenericInput::MouseButton(value)
    }
}

impl vstd::std_specs::convert::FromSpecImpl<MouseButton> for GenericInput {
    open spec fn obeys_from_spec() -> bool {
        true
    }

    open spec fn from_spec(value: MouseButton) -> Self {
        GenericInput::MouseButton(value)
    }
}

impl From<KeyCode> for GenericInput {
    fn from(value: KeyCode) -> (input: Self) {
        GenericInput::KeyCode(value)
    }
}

impl vstd::std_specs::convert::FromSpecImpl<KeyCode> for GenericInput {
    open spec fn obeys_from_spec() -> bool {
        true
    }

    open spec fn from_spec(value: KeyCode) -> Self {
        GenericInput::KeyCode(value)
    }
}

impl From<ScanCode> for GenericInput {
    fn from(value: ScanCode) -> (input: Self) {
        GenericInput::ScanCode(value)
    }
}

impl vstd::std_specs::convert::FromSpecImpl<ScanCode> for GenericInput {
    open spec fn obeys_from_spec() -> bool {
        true
    }

    open spec fn from_spec(value: ScanCode) -> Self {
        GenericInput::ScanCode(value)
    }
}

impl TryFrom<GenericInput> for KeyCode {
    type Error = ();

    fn try_from(value: GenericInput) -> (found: Result<Self, ()>) {
        match value {
            GenericInput::KeyCode(key) => Ok(key),
            _ => Err(()),
        }
    }
}

impl vstd::std_specs::convert::TryFromSpecImpl<GenericInput> for KeyCode {
    open spec fn obeys_try_from_spec() -> bool {
        true
    }

    open spec fn try_from_spec(value: GenericInput) -> Result<Self, ()> {
        match value {
            GenericInput::KeyCode(key) => Ok(key),
            _ => Err(()),
        }
    }
}

impl TryFrom<GenericInput> for MouseButton {
    type Error = ();

    fn try_from(value: GenericInput) -> (found: Result<Self, ()>) {
        match value {
            GenericInput::MouseButton(button) => Ok(button),
            _ => Err(()),
        }
    }
}

impl vstd::std_specs::convert::TryFromSpecImpl<GenericInput> for MouseButton {
    open spec fn obeys_try_from_spec() -> bool {
        true
    }

    open spec fn try_from_spec(value: GenericInput) -> Result<Self, ()> {
        match value {
            GenericInput::MouseButton(button) => Ok(button),
            _ => Err(()),
        }
    }
}

impl TryFrom<GenericInput> for ScanCode {
    type Error = ();

    fn try_from(value: GenericInput) -> (found: Result<Self, ()>) {
        match value {
            GenericInput::ScanCode(scan) => Ok(scan),
            _ => Err(()),
        }
    }
}

impl vstd::std_specs::convert::TryFromSpecImpl<GenericInput> for ScanCode {
    open spec fn obeys_try_from_spec() -> bool {
        true
    }

    open spec fn try_from_spec(value: GenericInput) -> Result<Self, ()> {
        match value {
            GenericInput::ScanCode(scan) => Ok(scan),
            _ => Err(()),
        }
    }
}

/// The modifier keys that are down, as a set of flags.
#[derive(Clone, Copy, Debug, PartialEq, Eq, Hash, Structural)]
pub struct Modifiers {
    pub bits: u32,
}

impl Modifiers {
    /// The "shift" key.
    pub const SHIFT: u32 = 0x004;

    /// The "control" key.
    pub const CTRL: u32 = 0x020;

    /// The "alt" key.
    pub const ALT: u32 = 0x100;

    /// The "windows" or "command" key.
    pub const LOGO: u32 = 0x800;

    /// Every flag of `other` is also a flag of `self`.
    pub open spec fn includes(self, other: Modifiers) -> bool {
        self.bits & other.bits == other.bits
    }

    /// The set without any flag.
    pub fn empty() -> (none: Self)
        ensures
            none.bits == 0,
    {
        Modifiers { bits: 0 }
    }

    /// The set with the flags of `bits` that name a modifier; other bits are
    /// dropped.
    pub fn from_bits_truncate(bits: u32) -> (known: Self)
        ensures
            known.bits == bits & 0x924,
    {
        Modifiers { bits: bits & 0x924 }
    }

    /// The flags as a number.
    pub fn bits(&self) -> (bits: u32)
        ensures
            bits == self.bits,
    {
        self.bits
    }

    /// Whether no flag is set.
    pub fn is_empty(&self) -> (none: bool)
        ensures
            none == (self.bits == 0),
    {
        self.bits == 0
    }

    /// Whether every flag of `other` is set in `self`.
    pub fn contains(&self, other: Modifiers) -> (all: bool)
        ensures
            all == self.includes(other),
    {
        self.bits & other.bits == other.bits
    }

    /// Whether the shift flag is set.
    pub fn shift(&self) -> (down: bool)
        ensures
            down == self.includes(Modifiers { bits: Modifiers::SHIFT }),
    {
        self.bits & 0x004 == 0x004
    }

    /// Whether the control flag is set.
    pub fn ctrl(&self) -> (down: bool)
        ensures
            down == self.includes(Modifiers { bits: Modifiers::CTRL }),
    {
        self.bits & 0x020 == 0x020
    }

    /// Whether the alt flag is set.
    pub fn alt(&self) -> (down: bool)
        ensures
            down == self.includes(Modifiers { bits: Modifiers::ALT }),
    {
        self.bits & 0x100 == 0x100
    }

    /// Whether the logo flag is set.
    pub fn logo(&self) -> (down: bool)
        ensures
            down == self.includes(Modifiers { bits: Modifiers::LOGO }),
    {
        self.bits & 0x800 == 0x800
    }

    /// Every set includes the empty set and itself.
    pub proof fn includes_empty_and_self(self)
        ensures
            self.includes(Modifiers { bits: 0 }),
            self.includes(self),
    {
        let b = self.bits;
        assert(b & 0 == 0) by (bit_vector);
        assert(b & b == b) by (bit_vector);
    }
}

/// Why a window is going away.
#[derive(Clone, Copy, Debug, PartialEq, Eq, Hash, Structural)]
pub struct QuitWindow {
    pub bits: u8,
}

impl QuitWindow {
    /// The window has been destroyed.
    pub const DESTROYED: u8 = 0x01;

    /// The user asked to close the window.
    pub const CLOSE_REQUESTED: u8 = 0x02;

    /// Every flag of `other` is also a flag of `self`.
    pub open spec fn includes(self, other: QuitWindow) -> bool {
        self.bits & other.bits == other.bits
    }

    /// The set without any flag.
    pub fn empty() -> (none: Self)
        ensures
            none.bits == 0,
    {
        QuitWindow { bits: 0 }
    }

    /// The flags as a number.
    pub fn bits(&self) -> (bits: u8)
        ensures
            bits == self.bits,
    {
        self.bits
    }

    /// Whether no flag is set.
    pub fn is_empty(&self) -> (none: bool)
        ensures
            none == (self.bits == 0),
    {
        self.bits == 0
    }

    /// Whether every flag of `other` is set in `self`.
    pub fn contains(&self, other: QuitWindow) -> (all: bool)
        ensures
            all == self.includes(other),
    {
        self.bits & other.bits == other.bits
    }

    /// Sets the flags of `other`; the flags already set stay.
    pub fn insert(&mut self, other: QuitWindow)
        ensures
            final(self).bits == old(self).bits | other.bits,
            final(self).includes(other),
            final(self).includes(*old(self)),
    {
        let before: u8 = self.bits;
        let added: u8 = other.bits;
        self.bits = before | added;
        assert((before | added) & added == added) by (bit_vector);
        assert((before | added) & before == before) by (bit_vector);
    }
}

/// Why the application should end.
#[derive(Clone, Copy, Debug, PartialEq, Eq, Hash, Structural)]
pub struct Quit {
    pub bits: u8,
}

impl Quit {
    /// The application itself asked to quit.
    pub const USER_REQUESTED: u8 = 0x01;

    /// The event loop is shutting down.
    pub const LOOP_DESTROYED: u8 = 0x02;

    /// A window has been destroyed.
    pub const WINDOW_DESTROYED: u8 = 0x04;

    /// Every flag of `other` is also a flag of `self`.
    pub open spec fn includes(self, other: Quit) -> bool {
        self.bits & other.bits == other.bits
    }

    /// `self` and `other` have a flag in common.
    pub open spec fn overlaps(self, other: Quit) -> bool {
        self.bits & other.bits != 0
    }

    /// The set without any flag.
    pub fn empty() -> (none: Self)
        ensures
            none.bits == 0,
    {
        Quit { bits: 0 }
    }

    /// The flags as a number.
    pub fn bits(&self) -> (bits: u8)
        ensures
            bits == self.bits,
    {
        self.bits
    }

    /// Whether no flag is set.
    pub fn is_empty(&self) -> (none: bool)
        ensures
            none == (self.bits == 0),
    {
        self.bits == 0
    }

    /// Whether every flag of `other` is set in `self`.
    pub fn contains(&self, other: Quit) -> (all: bool)
        ensures
            all == self.includes(other),
    {
        self.bits & other.bits == other.bits
    }

    /// Whether some flag of `other` is set in `self`.
    pub fn intersects(&self, other: Quit) -> (some: bool)
        ensures
            some == self.overlaps(other),
    {
        self.bits & other.bits != 0
    }

    /// Sets the flags of `other`; the flags already set stay.
    pub fn insert(&mut self, other: Quit)
        ensures
            final(self).bits == old(self).bits | other.bits,
            final(self).includes(other),
            final(self).includes(*old(self)),
    {
        let before: u8 = self.bits;
        let added: u8 = other.bits;
        self.bits = before | added;
        assert((before | added) & added == added) by (bit_vector);
        assert((before | added) & before == before) by (bit_vector);
    }
}

impl Default for Quit {
    fn default() -> (none: Self)
        ensures
            none.bits == 0,
    {
        Quit { bits: 0 }
    }
}

impl Default for Modifiers {
    fn default() -> (none: Self)
        ensures
            none.bits == 0,
    {
        Modifiers { bits: 0 }
    }
}

} // verus!
