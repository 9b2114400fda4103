//! Input value types: the modifier-key and key-state bit sets, the mouse /
//! capture / focus-navigation enums, and the decoding half of the
//! `KeyboardNavigation` attached-property getters.

use vstd::prelude::*;
use vstd::std_specs::ops::BitOrSpec;

use crate::bitset::{bits_of, lemma_bits_of_and_eq, lemma_bits_of_or, lemma_bits_of_zero};

verus! {

/// A typed bitset of `Noesis::ModifierKeys`: the chord modifiers held down
/// (`Alt` / `Control` / `Shift` / `Windows`). Its view is the set of bit
/// positions switched on in the raw mask.
#[derive(Copy, Clone, Debug, Default, PartialEq, Eq)]
pub struct ModifierKeys(pub i32);

impl View for ModifierKeys {
    type V = Set<int>;

    open spec fn view(&self) -> Set<int> {
        bits_of(self.0)
    }
}

impl ModifierKeys {
    /// No modifiers.
    #[allow(non_snake_case)]
    pub fn NONE() -> (r: ModifierKeys)
        ensures
            r.0 == 0,
    {
        ModifierKeys(0)
    }

    /// The Alt key.
    #[allow(non_snake_case)]
    pub fn ALT() -> (r: ModifierKeys)
        ensures
            r.0 == 1,
    {
        ModifierKeys(1)
    }

    /// The Control key.
    #[allow(non_snake_case)]
    pub fn CONTROL() -> (r: ModifierKeys)
        ensures
            r.0 == 2,
    {
        ModifierKeys(2)
    }

    /// The Shift key.
    #[allow(non_snake_case)]
    pub fn SHIFT() -> (r: ModifierKeys)
        ensures
            r.0 == 4,
    {
        ModifierKeys(4)
    }

    /// The Windows ("logo") key.
    #[allow(non_snake_case)]
    pub fn WINDOWS() -> (r: ModifierKeys)
        ensures
            r.0 == 8,
    {
        ModifierKeys(8)
    }


    /// Wrap a raw `Noesis::ModifierKeys` bitmask.
    pub fn from_bits(bits: i32) -> (r: Self)
        ensures
            r.0 == bits,
    {
        ModifierKeys(bits)
    }

    /// The raw bitmask Noesis uses.
    pub fn bits(self) -> (r: i32)
        ensures
            r == self.0,
    {
        self.0
    }

    /// A copy of this set with `other`'s bits added.
    pub fn with(self, other: Self) -> (r: Self)
        ensures
            r.0 == self.0 | other.0,
            r@ == self@.union(other@),
    {
        proof {
            lemma_bits_of_or(self.0, other.0);
        }
        ModifierKeys(self.0 | other.0)
    }

    /// Whether every bit of `other` is present (with [`Self::NONE`], always
    /// `true`).
    pub fn contains(self, other: Self) -> (r: bool)
        ensures
            r == other@.subset_of(self@),
    {
        proof {
            lemma_bits_of_and_eq(self.0, other.0);
        }
        self.0 & other.0 == other.0
    }

    /// Whether no modifiers are held.
    pub fn is_empty(self) -> (r: bool)
        ensures
            r == (self@ == Set::<int>::empty()),
            r == (self.0 == 0),
    {
        proof {
            lemma_bits_of_zero(self.0);
        }
        self.0 == 0
    }

    /// The union of every set in `keys` (the empty union is [`Self::NONE`]).
    pub fn from_iter(keys: &[ModifierKeys]) -> (r: Self)
        ensures
            forall|b: int| r@.contains(b) <==> exists|k: int| 0 <= k < keys@.len() && (#[trigger] keys@[k])@.contains(b),
    {
        let mut acc: i32 = 0;
        proof {
            lemma_bits_of_zero(0i32);
        }
        let mut n: usize = 0;
        while n < keys.len()
            invariant
                n <= keys@.len(),
                forall|b: int| bits_of(acc).contains(b) <==> exists|k: int| 0 <= k < n && (#[trigger] keys@[k])@.contains(b),
            decreases keys@.len() - n,
        {
            let m = keys[n];
            proof {
                lemma_bits_of_or(acc, m.0);
                assert forall|b: int| bits_of(acc | m.0).contains(b) <==> exists|k: int| 0 <= k < n + 1 && (#[trigger] keys@[k])@.contains(b) by {
                    if bits_of(acc | m.0).contains(b) {
                        if !bits_of(acc).contains(b) {
                            assert(keys@[n as int]@.contains(b));
                        }
                    }
                    if exists|k: int| 0 <= k < n + 1 && (#[trigger] keys@[k])@.contains(b) {
                        let k = choose|k: int| 0 <= k < n + 1 && (#[trigger] keys@[k])@.contains(b);
                        if k < n {
                            assert(bits_of(acc).contains(b));
                        }
                    }
                }
            }
            acc = acc | m.0;
            n = n + 1;
        }
        ModifierKeys(acc)
    }
}

impl core::ops::BitOr for ModifierKeys {
    type Output = ModifierKeys;

    fn bitor(self, rhs: ModifierKeys) -> (r: ModifierKeys)
        ensures
            r@ == self@.union(rhs@),
    {
        proof {
            lemma_bits_of_or(self.0, rhs.0);
        }
        ModifierKeys(self.0 | rhs.0)
    }
}

impl vstd::std_specs::ops::BitOrSpecImpl for ModifierKeys {
    open spec fn obeys_bitor_spec() -> bool {
        true
    }

    open spec fn bitor_req(self, rhs: ModifierKeys) -> bool {
        true
    }

    open spec fn bitor_spec(self, rhs: ModifierKeys) -> ModifierKeys {
        ModifierKeys(self.0 | rhs.0)
    }
}

/// Every set contains the empty set ([`ModifierKeys::NONE`]), and every set
/// contains itself.
pub proof fn lemma_modifier_keys_contains_none_and_self(m: ModifierKeys)
    ensures
        ModifierKeys(0)@.subset_of(m@),
        m@.subset_of(m@),
{
    lemma_bits_of_zero(0i32);
}

/// `a.with(b)` contains both `a` and `b`, and anything containing both `a`
/// and `b` contains `a.with(b)`.
pub proof fn lemma_modifier_keys_with_is_least_upper_bound(a: ModifierKeys, b: ModifierKeys, c: ModifierKeys)
    ensures
        a@.subset_of(ModifierKeys(a.0 | b.0)@),
        b@.subset_of(ModifierKeys(a.0 | b.0)@),
        a@.subset_of(c@) && b@.subset_of(c@) ==> ModifierKeys(a.0 | b.0)@.subset_of(c@),
{
    lemma_bits_of_or(a.0, b.0);
}

/// Adding keys is order-independent and idempotent, and adding no keys
/// changes nothing: `with` is commutative, associative and idempotent, with
/// [`ModifierKeys::NONE`] as its identity.
pub proof fn lemma_modifier_keys_with_algebra(a: ModifierKeys, b: ModifierKeys, c: ModifierKeys)
    ensures
        a.0 | b.0 == b.0 | a.0,
        (a.0 | b.0) | c.0 == a.0 | (b.0 | c.0),
        a.0 | a.0 == a.0,
        a.0 | 0i32 == a.0,
{
    let (x, y, z) = (a.0, b.0, c.0);
    assert(x | y == y | x && (x | y) | z == x | (y | z) && x | x == x && x | 0i32 == x) by (bit_vector);
}

/// Containment is transitive.
pub proof fn lemma_modifier_keys_contains_transitive(a: ModifierKeys, b: ModifierKeys, c: ModifierKeys)
    ensures
        b@.subset_of(a@) && c@.subset_of(b@) ==> c@.subset_of(a@),
{
}

/// A typed bitset of `Noesis::KeyStates`: `Down` (currently pressed) and/or
/// `Toggled` (the toggle is on, e.g. `CapsLock`).
#[derive(Copy, Clone, Debug, Default, PartialEq, Eq)]
pub struct KeyStates(pub i32);

impl View for KeyStates {
    type V = Set<int>;

    open spec fn view(&self) -> Set<int> {
        bits_of(self.0)
    }
}

impl KeyStates {
    /// The key is up and untoggled.
    #[allow(non_snake_case)]
    pub fn NONE() -> (r: KeyStates)
        ensures
            r.0 == 0,
    {
        KeyStates(0)
    }

    /// The key is currently pressed.
    #[allow(non_snake_case)]
    pub fn DOWN() -> (r: KeyStates)
        ensures
            r.0 == 1,
    {
        KeyStates(1)
    }

    /// The key's toggle is on (`CapsLock` / `NumLock` style).
    #[allow(non_snake_case)]
    pub fn TOGGLED() -> (r: KeyStates)
        ensures
            r.0 == 2,
    {
        KeyStates(2)
    }


    /// Wrap a raw `Noesis::KeyStates` bitmask.
    pub fn from_bits(bits: i32) -> (r: Self)
        ensures
            r.0 == bits,
    {
        KeyStates(bits)
    }

    /// The raw bitmask Noesis uses.
    pub fn bits(self) -> (r: i32)
        ensures
            r == self.0,
    {
        self.0
    }

    /// Whether every bit of `other` is present.
    pub fn contains(self, other: Self) -> (r: bool)
        ensures
            r == other@.subset_of(self@),
    {
        proof {
            lemma_bits_of_and_eq(self.0, other.0);
        }
        self.0 & other.0 == other.0
    }
}

/// `Noesis::MouseAction`: the pointer gesture a mouse gesture or mouse binding
/// matches.
#[derive(Copy, Clone, Debug, PartialEq, Eq)]
#[non_exhaustive]
pub enum MouseAction {
    /// No action (`MouseAction::None` in Noesis).
    NoAction,
    LeftClick,
    RightClick,
    MiddleClick,
    WheelClick,
    LeftDoubleClick,
    RightDoubleClick,
    MiddleDoubleClick,
}

impl MouseAction {
    /// The raw value Noesis uses for this member.
    pub open spec fn raw_of(self) -> i32 {
        match self {
            MouseAction::NoAction => 0,
            MouseAction::LeftClick => 1,
            MouseAction::RightClick => 2,
            MouseAction::MiddleClick => 3,
            MouseAction::WheelClick => 4,
            MouseAction::LeftDoubleClick => 5,
            MouseAction::RightDoubleClick => 6,
            MouseAction::MiddleDoubleClick => 7,
        }
    }

    /// The raw value handed across the FFI for this member.
    pub fn to_raw(self) -> (r: i32)
        ensures
            r == self.raw_of(),
    {
        match self {
            MouseAction::NoAction => 0,
            MouseAction::LeftClick => 1,
            MouseAction::RightClick => 2,
            MouseAction::MiddleClick => 3,
            MouseAction::WheelClick => 4,
            MouseAction::LeftDoubleClick => 5,
            MouseAction::RightDoubleClick => 6,
            MouseAction::MiddleDoubleClick => 7,
        }
    }
}

/// Distinct members of [`MouseAction`] have distinct raw values, so decoding the
/// raw value of a member gives that member back.
pub proof fn lemma_mouse_action_raw_injective(a: MouseAction, b: MouseAction)
    ensures
        a.raw_of() == b.raw_of() ==> a == b,
{
}

/// `Noesis::CaptureMode`: how an element captures the mouse.
#[derive(Copy, Clone, Debug, PartialEq, Eq)]
#[non_exhaustive]
pub enum CaptureMode {
    /// Release any capture (`CaptureMode::None` in Noesis).
    NoCapture,
    /// Only the element itself receives mouse events.
    Element,
    /// The element and its visual subtree receive mouse events.
    SubTree,
}

impl CaptureMode {
    /// The raw value Noesis uses for this member.
    pub open spec fn raw_of(self) -> i32 {
        match self {
            CaptureMode::NoCapture => 0,
            CaptureMode::Element => 1,
            CaptureMode::SubTree => 2,
        }
    }

    /// The raw value handed across the FFI for this member.
    pub fn to_raw(self) -> (r: i32)
        ensures
            r == self.raw_of(),
    {
        match self {
            CaptureMode::NoCapture => 0,
            CaptureMode::Element => 1,
            CaptureMode::SubTree => 2,
        }
    }
}

/// Distinct members of [`CaptureMode`] have distinct raw values, so decoding the
/// raw value of a member gives that member back.
pub proof fn lemma_capture_mode_raw_injective(a: CaptureMode, b: CaptureMode)
    ensures
        a.raw_of() == b.raw_of() ==> a == b,
{
}

/// `Noesis::FocusNavigationDirection`: the direction for moving or predicting
/// focus. `Next` / `Previous` / `First` / `Last` are tab-order traversal;
/// `Left` / `Right` / `Up` / `Down` are directional.
#[derive(Copy, Clone, Debug, PartialEq, Eq)]
#[non_exhaustive]
pub enum FocusNavigationDirection {
    Next,
    Previous,
    First,
    Last,
    Left,
    Right,
    Up,
    Down,
}

impl FocusNavigationDirection {
    /// The raw value Noesis uses for this member.
    pub open spec fn raw_of(self) -> i32 {
        match self {
            FocusNavigationDirection::Next => 0,
            FocusNavigationDirection::Previous => 1,
            FocusNavigationDirection::First => 2,
            FocusNavigationDirection::Last => 3,
            FocusNavigationDirection::Left => 4,
            FocusNavigationDirection::Right => 5,
            FocusNavigationDirection::Up => 6,
            FocusNavigationDirection::Down => 7,
        }
    }

    /// The raw value handed across the FFI for this member.
    pub fn to_raw(self) -> (r: i32)
        ensures
            r == self.raw_of(),
    {
        match self {
            FocusNavigationDirection::Next => 0,
            FocusNavigationDirection::Previous => 1,
            FocusNavigationDirection::First => 2,
            FocusNavigationDirection::Last => 3,
            FocusNavigationDirection::Left => 4,
            FocusNavigationDirection::Right => 5,
            FocusNavigationDirection::Up => 6,
            FocusNavigationDirection::Down => 7,
        }
    }
}

/// Distinct members of [`FocusNavigationDirection`] have distinct raw values, so decoding the
/// raw value of a member gives that member back.
pub proof fn lemma_focus_navigation_direction_raw_injective(a: FocusNavigationDirection, b: FocusNavigationDirection)
    ensures
        a.raw_of() == b.raw_of() ==> a == b,
{
}

/// `Noesis::KeyboardNavigationMode`: how Tab / directional traversal behaves
/// inside a container.
#[derive(Copy, Clone, Debug, PartialEq, Eq)]
#[non_exhaustive]
pub enum KeyboardNavigationMode {
    /// Tab moves out of the container into the rest of the tab order.
    Continue,
    /// Focus returns to the first/active element on re-entry, then leaves.
    Once,
    /// Tab cycles within the container, wrapping at the ends.
    Cycle,
    /// Tab does not navigate within the container (`None` in Noesis).
    NoNavigation,
    /// Tab stays contained: it never leaves the container.
    Contained,
    /// Tab cycles locally but restarts at the container start.
    Local,
}

impl KeyboardNavigationMode {
    /// The raw value Noesis uses for this member.
    pub open spec fn raw_of(self) -> i32 {
        match self {
            KeyboardNavigationMode::Continue => 0,
            KeyboardNavigationMode::Once => 1,
            KeyboardNavigationMode::Cycle => 2,
            KeyboardNavigationMode::NoNavigation => 3,
            KeyboardNavigationMode::Contained => 4,
            KeyboardNavigationMode::Local => 5,
        }
    }

    /// The raw value handed across the FFI for this member.
    pub fn to_raw(self) -> (r: i32)
        ensures
            r == self.raw_of(),
    {
        match self {
            KeyboardNavigationMode::Continue => 0,
            KeyboardNavigationMode::Once => 1,
            KeyboardNavigationMode::Cycle => 2,
            KeyboardNavigationMode::NoNavigation => 3,
            KeyboardNavigationMode::Contained => 4,
            KeyboardNavigationMode::Local => 5,
        }
    }

    /// Decode a raw value; `None` when no member has it.
    pub fn from_raw(v: i32) -> (r: Option<KeyboardNavigationMode>)
        ensures
            match r {
                Some(m) => m.raw_of() == v,
                None => forall|m: KeyboardNavigationMode| m.raw_of() != v,
            },
    {
        match v {
            0 => Some(KeyboardNavigationMode::Continue),
            1 => Some(KeyboardNavigationMode::Once),
            2 => Some(KeyboardNavigationMode::Cycle),
            3 => Some(KeyboardNavigationMode::NoNavigation),
            4 => Some(KeyboardNavigationMode::Contained),
            5 => Some(KeyboardNavigationMode::Local),
            _ => None,
        }
    }
}

/// Distinct members of [`KeyboardNavigationMode`] have distinct raw values, so decoding the
/// raw value of a member gives that member back.
pub proof fn lemma_keyboard_navigation_mode_raw_injective(a: KeyboardNavigationMode, b: KeyboardNavigationMode)
    ensures
        a.raw_of() == b.raw_of() ==> a == b,
{
}

impl KeyboardNavigationMode {
    /// The outcome of one of the `KeyboardNavigation` mode getters
    /// (`TabNavigation`, `ControlTabNavigation`, `DirectionalNavigation`):
    /// `ok` is whether the element answered, `out` the ordinal it wrote.
    /// `None` when it did not answer or wrote a value no mode has.
    pub fn from_getter(ok: bool, out: i32) -> (r: Option<KeyboardNavigationMode>)
        ensures
            !ok ==> r is None,
            ok ==> match r {
                Some(m) => m.raw_of() == out,
                None => forall|m: KeyboardNavigationMode| m.raw_of() != out,
            },
    {
        if !ok {
            return None;
        }
        KeyboardNavigationMode::from_raw(out)
    }
}

/// Every key state contains the empty state ([`KeyStates::NONE`]) and itself.
pub proof fn lemma_key_states_contains_none_and_self(k: KeyStates)
    ensures
        KeyStates(0)@.subset_of(k@),
        k@.subset_of(k@),
{
    lemma_bits_of_zero(0i32);
}


/// The raw value of each member of [`MouseAction`] is the one Noesis assigns it, so
/// encoding hands the native side exactly that member and decoding a raw value
/// gives back the member Noesis meant by it.
pub proof fn lemma_mouse_action_raw_values()
    ensures
        MouseAction::NoAction.raw_of() == 0,
        MouseAction::LeftClick.raw_of() == 1,
        MouseAction::RightClick.raw_of() == 2,
        MouseAction::MiddleClick.raw_of() == 3,
        MouseAction::WheelClick.raw_of() == 4,
        MouseAction::LeftDoubleClick.raw_of() == 5,
        MouseAction::RightDoubleClick.raw_of() == 6,
        MouseAction::MiddleDoubleClick.raw_of() == 7,
{
}

/// The raw value of each member of [`CaptureMode`] is the one Noesis assigns it, so
/// encoding hands the native side exactly that member and decoding a raw value
/// gives back the member Noesis meant by it.
pub proof fn lemma_capture_mode_raw_values()
    ensures
        CaptureMode::NoCapture.raw_of() == 0,
        CaptureMode::Element.raw_of() == 1,
        CaptureMode::SubTree.raw_of() == 2,
{
}

/// The raw value of each member of [`FocusNavigationDirection`] is the one Noesis assigns it, so
/// encoding hands the native side exactly that member and decoding a raw value
/// gives back the member Noesis meant by it.
pub proof fn lemma_focus_navigation_direction_raw_values()
    ensures
        FocusNavigationDirection::Next.raw_of() == 0,
        FocusNavigationDirection::Previous.raw_of() == 1,
        FocusNavigationDirection::First.raw_of() == 2,
        FocusNavigationDirection::Last.raw_of() == 3,
        FocusNavigationDirection::Left.raw_of() == 4,
        FocusNavigationDirection::Right.raw_of() == 5,
        FocusNavigationDirection::Up.raw_of() == 6,
        FocusNavigationDirection::Down.raw_of() == 7,
{
}

/// The raw value of each member of [`KeyboardNavigationMode`] is the one Noesis assigns it, so
/// encoding hands the native side exactly that member and decoding a raw value
/// gives back the member Noesis meant by it.
pub proof fn lemma_keyboard_navigation_mode_raw_values()
    ensures
        KeyboardNavigationMode::Continue.raw_of() == 0,
        KeyboardNavigationMode::Once.raw_of() == 1,
        KeyboardNavigationMode::Cycle.raw_of() == 2,
        KeyboardNavigationMode::NoNavigation.raw_of() == 3,
        KeyboardNavigationMode::Contained.raw_of() == 4,
        KeyboardNavigationMode::Local.raw_of() == 5,
{
}


/// `a | b` is the union of the two chords: it holds exactly the keys of `a`
/// and of `b`, so it contains both, adding a chord twice changes nothing, and
/// it is the same set as `a.with(b)`.
pub proof fn lemma_modifier_keys_bitor_is_union(a: ModifierKeys, b: ModifierKeys)
    ensures
        a.bitor_spec(b)@ == a@.union(b@),
        a@.subset_of(a.bitor_spec(b)@),
        b@.subset_of(a.bitor_spec(b)@),
        a.bitor_spec(b).bitor_spec(b) == a.bitor_spec(b),
        a.bitor_spec(a) == a,
{
    lemma_bits_of_or(a.0, b.0);
    let (x, y) = (a.0, b.0);
    assert((x | y) | y == x | y && x | x == x) by (bit_vector);
}

} // verus!
