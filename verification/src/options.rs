//! The options that the renderer reads, and the bindings of the keys.

use vstd::prelude::*;

verus! {

/// The levels of anti-aliasing.
#[derive(Clone, Copy, Debug, PartialEq, Eq, Structural)]
pub enum AALevel {
    /// No anti-aliasing.
    Off,
    FXAA,
    TAA,
    MSAA,
}

impl AALevel {
    /// How many levels there are.
    pub const VARIANT_COUNT: usize = 4;

    /// The place of a level in the order in which the levels are declared.
    pub open spec fn ordinal_of(self) -> i8 {
        match self {
            AALevel::Off => 0,
            AALevel::FXAA => 1,
            AALevel::TAA => 2,
            AALevel::MSAA => 3,
        }
    }

    /// Computes [`AALevel::ordinal_of`].
    pub fn ordinal(&self) -> (number: i8)
        ensures
            number == self.ordinal_of(),
    {
        match self {
            AALevel::Off => 0,
            AALevel::FXAA => 1,
            AALevel::TAA => 2,
            AALevel::MSAA => 3,
        }
    }

    /// The level at place `number`, if there is one.
    pub fn from_ordinal(number: i8) -> (level: Option<AALevel>)
        ensures
            level.is_some() <==> 0 <= number < 4,
            level matches Some(l) ==> l.ordinal_of() == number,
    {
        match number {
            0 => Some(AALevel::Off),
            1 => Some(AALevel::FXAA),
            2 => Some(AALevel::TAA),
            3 => Some(AALevel::MSAA),
            _ => None,
        }
    }

    /// All levels, in the order in which they are declared.
    pub fn variants() -> (levels: [AALevel; 4])
        ensures
            forall|i: int| 0 <= i < 4 ==> (#[trigger] levels@[i]).ordinal_of() == i,
    {
        [AALevel::Off, AALevel::FXAA, AALevel::TAA, AALevel::MSAA]
    }

    /// Every level has its own place, and the places are those below the
    /// number of levels.
    pub proof fn lemma_ordinals(a: AALevel, b: AALevel)
        ensures
            0 <= a.ordinal_of() < Self::VARIANT_COUNT,
            a.ordinal_of() == b.ordinal_of() ==> a == b,
    {
    }
}

impl Default for AALevel {
    /// The level that the graphics options start with.
    fn default() -> (level: AALevel)
        ensures
            level == AALevel::MSAA,
    {
        AALevel::MSAA
    }
}

/// The keys that can be bound.
#[derive(Clone, Copy, Debug, PartialEq, Eq, Hash, Structural)]
pub enum Key {
    Z,
    Escape,
    F1,
    F2,
    F3,
    F11,
    /// Another key, by the number that the window system gives it.
    Other(u32),
}

/// What a key can do.
#[derive(Clone, Copy, Debug, PartialEq, Eq, Hash, Structural)]
pub enum KeyActions {
    Escape,
    Undo,
    Debug,
    Fullscreen,
    Screenshot,
    HideGui,
}

/// How a key has to be pressed.
#[derive(Clone, Copy, Debug, PartialEq, Eq, Hash, Structural)]
pub enum PressTypes {
    /// The action happens once when the key goes down.
    Tap,
    /// The action lasts from one press to the next.
    Toggle,
}

/// What a key does, and how.
#[derive(Clone, Copy, Debug, PartialEq, Eq, Hash, Structural)]
pub struct KeyAction {
    pub action: KeyActions,
    pub press_type: PressTypes,
}

/// The bindings of the keys. No key is bound twice.
pub type Keymap = Vec<(Key, KeyAction)>;

/// The bindings that the game starts with.
pub open spec fn default_keymap_of() -> Seq<(Key, KeyAction)> {
    seq![
        (Key::Z, KeyAction { action: KeyActions::Undo, press_type: PressTypes::Tap }),
        (Key::Escape, KeyAction { action: KeyActions::Escape, press_type: PressTypes::Tap }),
        (Key::F3, KeyAction { action: KeyActions::Debug, press_type: PressTypes::Toggle }),
        (Key::F11, KeyAction { action: KeyActions::Fullscreen, press_type: PressTypes::Toggle }),
        (Key::F1, KeyAction { action: KeyActions::HideGui, press_type: PressTypes::Toggle }),
        (Key::F2, KeyAction { action: KeyActions::Screenshot, press_type: PressTypes::Tap }),
    ]
}

/// Computes [`default_keymap_of`].
pub fn default_keymap() -> (keymap: Keymap)
    ensures
        keymap@ == default_keymap_of(),
{
    let mut keymap: Keymap = Vec::new();
    keymap.push((Key::Z, KeyAction { action: KeyActions::Undo, press_type: PressTypes::Tap }));
    keymap.push(
        (Key::Escape, KeyAction { action: KeyActions::Escape, press_type: PressTypes::Tap }),
    );
    keymap.push((Key::F3, KeyAction { action: KeyActions::Debug, press_type: PressTypes::Toggle }));
    keymap.push(
        (Key::F11, KeyAction { action: KeyActions::Fullscreen, press_type: PressTypes::Toggle }),
    );
    keymap.push(
        (Key::F1, KeyAction { action: KeyActions::HideGui, press_type: PressTypes::Toggle }),
    );
    keymap.push(
        (Key::F2, KeyAction { action: KeyActions::Screenshot, press_type: PressTypes::Tap }),
    );
    assert(keymap@ =~= default_keymap_of());
    keymap
}

/// The bindings to go on with after options were loaded: those that were
/// loaded if they are as many as the game starts with, else those that the
/// game starts with.
pub fn keymap_or_default(loaded: Keymap) -> (keymap: Keymap)
    ensures
        keymap@ == (if loaded@.len() == default_keymap_of().len() {
            loaded@
        } else {
            default_keymap_of()
        }),
{
    let default = default_keymap();
    if loaded.len() != default.len() {
        default
    } else {
        loaded
    }
}

} // verus!
