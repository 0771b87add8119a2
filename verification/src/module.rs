//! What the payload's feature modules have in common: their categories
//! and the keys they can be bound to.

use std::collections::HashSet;
use vstd::prelude::*;

verus! {

/// The group that a feature module is listed under.
#[allow(dead_code)]
#[derive(Debug, Clone, PartialEq, Eq, Hash)]
pub enum ModuleCategory {
    COMBAT,
    MOVEMENT,
    RENDER,
    PLAYER,
    WORLD,
    MISC,
}

impl ModuleCategory {
    /// The category's name as shown to the user.
    pub open spec fn label(self) -> Seq<char> {
        match self {
            ModuleCategory::COMBAT => "Combat"@,
            ModuleCategory::MOVEMENT => "Movement"@,
            ModuleCategory::RENDER => "Render"@,
            ModuleCategory::PLAYER => "Player"@,
            ModuleCategory::WORLD => "World"@,
            ModuleCategory::MISC => "Misc"@,
        }
    }

    /// The name to show for the category.
    #[allow(dead_code)]
    pub fn display_name(&self) -> (name: &'static str)
        ensures
            name@ == self.label(),
    {
        match self {
            ModuleCategory::COMBAT => "Combat",
            ModuleCategory::MOVEMENT => "Movement",
            ModuleCategory::RENDER => "Render",
            ModuleCategory::PLAYER => "Player",
            ModuleCategory::WORLD => "World",
            ModuleCategory::MISC => "Misc",
        }
    }
}

/// A key of the keyboard, as the windowing library of the game numbers it.
#[derive(Debug, Copy, Clone, PartialEq, Eq)]
#[allow(dead_code)]
pub enum KeyboardKey {
    KeyNone,
    KeyEscape,
    Key1,
    Key2,
    Key3,
    Key4,
    Key5,
    Key6,
    Key7,
    Key8,
    Key9,
    Key0,
    KeyMinus,
    KeyEquals,
    KeyBack,
    KeyTab,
    KeyQ,
    KeyW,
    KeyE,
    KeyR,
    KeyT,
    KeyY,
    KeyU,
    KeyI,
    KeyO,
    KeyP,
    KeyLBracket,
    KeyRBracket,
    KeyReturn,
    KeyLControl,
    KeyA,
    KeyS,
    KeyD,
    KeyF,
    KeyG,
    KeyH,
    KeyJ,
    KeyK,
    KeyL,
    KeySemicolon,
    KeyApostrophe,
    KeyGrave,
    KeyLShift,
    KeyBackSlash,
    KeyZ,
    KeyX,
    KeyC,
    KeyV,
    KeyB,
    KeyN,
    KeyM,
    KeyComma,
    KeyPeriod,
    KeySlash,
    KeyRShift,
    KeyMultiply,
    KeyLAlt,
    KeySpace,
    KeyCapital,
    KeyF1,
    KeyF2,
    KeyF3,
    KeyF4,
    KeyF5,
    KeyF6,
    KeyF7,
    KeyF8,
    KeyF9,
    KeyF10,
    KeyNumLock,
    KeyScroll,
    KeyNumpad7,
    KeyNumpad8,
    KeyNumpad9,
    KeySubtract,
    KeyNumpad4,
    KeyNumpad5,
    KeyNumpad6,
    KeyAdd,
    KeyNumpad1,
    KeyNumpad2,
    KeyNumpad3,
    KeyNumpad0,
    KeyF11,
    KeyF12,
    KeyF13,
    KeyF14,
    KeyF15,
    KeyF16,
    KeyF17,
    KeyF18,
    KeyF19,
    KeyNumpadEquals,
    KeyNumpadEnter,
    KeyRControl,
    KeyNumpadComma,
    KeyDivide,
    KeyPause,
    KeyHome,
    KeyUp,
    KeyLeft,
    KeyRight,
    KeyEnd,
    KeyDown,
    KeyNext,
    KeyInsert,
    KeyDelete,
}

impl KeyboardKey {
    /// The number of the key; `-1` stands for no key.
    pub open spec fn key_code(self) -> int {
        match self {
            KeyboardKey::KeyNone => -1,
            KeyboardKey::KeyEscape => 256,
            KeyboardKey::Key1 => 49,
            KeyboardKey::Key2 => 50,
            KeyboardKey::Key3 => 51,
            KeyboardKey::Key4 => 52,
            KeyboardKey::Key5 => 53,
            KeyboardKey::Key6 => 54,
            KeyboardKey::Key7 => 55,
            KeyboardKey::Key8 => 56,
            KeyboardKey::Key9 => 57,
            KeyboardKey::Key0 => 48,
            KeyboardKey::KeyMinus => 45,
            KeyboardKey::KeyEquals => 61,
            KeyboardKey::KeyBack => 259,
            KeyboardKey::KeyTab => 258,
            KeyboardKey::KeyQ => 81,
            KeyboardKey::KeyW => 87,
            KeyboardKey::KeyE => 69,
            KeyboardKey::KeyR => 82,
            KeyboardKey::KeyT => 84,
            KeyboardKey::KeyY => 89,
            KeyboardKey::KeyU => 85,
            KeyboardKey::KeyI => 73,
            KeyboardKey::KeyO => 79,
            KeyboardKey::KeyP => 80,
            KeyboardKey::KeyLBracket => 91,
            KeyboardKey::KeyRBracket => 93,
            KeyboardKey::KeyReturn => 257,
            KeyboardKey::KeyLControl => 341,
            KeyboardKey::KeyA => 65,
            KeyboardKey::KeyS => 83,
            KeyboardKey::KeyD => 68,
            KeyboardKey::KeyF => 70,
            KeyboardKey::KeyG => 71,
            KeyboardKey::KeyH => 72,
            KeyboardKey::KeyJ => 74,
            KeyboardKey::KeyK => 75,
            KeyboardKey::KeyL => 76,
            KeyboardKey::KeySemicolon => 59,
            KeyboardKey::KeyApostrophe => 39,
            KeyboardKey::KeyGrave => 96,
            KeyboardKey::KeyLShift => 340,
            KeyboardKey::KeyBackSlash => 92,
            KeyboardKey::KeyZ => 90,
            KeyboardKey::KeyX => 88,
            KeyboardKey::KeyC => 67,
            KeyboardKey::KeyV => 86,
            KeyboardKey::KeyB => 66,
            KeyboardKey::KeyN => 78,
            KeyboardKey::KeyM => 77,
            KeyboardKey::KeyComma => 44,
            KeyboardKey::KeyPeriod => 46,
            KeyboardKey::KeySlash => 47,
            KeyboardKey::KeyRShift => 344,
            KeyboardKey::KeyMultiply => 332,
            KeyboardKey::KeyLAlt => 342,
            KeyboardKey::KeySpace => 32,
            KeyboardKey::KeyCapital => 280,
            KeyboardKey::KeyF1 => 290,
            KeyboardKey::KeyF2 => 291,
            KeyboardKey::KeyF3 => 292,
            KeyboardKey::KeyF4 => 293,
            KeyboardKey::KeyF5 => 294,
            KeyboardKey::KeyF6 => 295,
            KeyboardKey::KeyF7 => 296,
            KeyboardKey::KeyF8 => 297,
            KeyboardKey::KeyF9 => 298,
            KeyboardKey::KeyF10 => 299,
            KeyboardKey::KeyNumLock => 282,
            KeyboardKey::KeyScroll => 281,
            KeyboardKey::KeyNumpad7 => 327,
            KeyboardKey::KeyNumpad8 => 328,
            KeyboardKey::KeyNumpad9 => 329,
            KeyboardKey::KeySubtract => 333,
            KeyboardKey::KeyNumpad4 => 324,
            KeyboardKey::KeyNumpad5 => 325,
            KeyboardKey::KeyNumpad6 => 326,
            KeyboardKey::KeyAdd => 334,
            KeyboardKey::KeyNumpad1 => 321,
            KeyboardKey::KeyNumpad2 => 322,
            KeyboardKey::KeyNumpad3 => 323,
            KeyboardKey::KeyNumpad0 => 320,
            KeyboardKey::KeyF11 => 300,
            KeyboardKey::KeyF12 => 301,
            KeyboardKey::KeyF13 => 302,
            KeyboardKey::KeyF14 => 303,
            KeyboardKey::KeyF15 => 304,
            KeyboardKey::KeyF16 => 305,
            KeyboardKey::KeyF17 => 306,
            KeyboardKey::KeyF18 => 307,
            KeyboardKey::KeyF19 => 308,
            KeyboardKey::KeyNumpadEquals => 336,
            KeyboardKey::KeyNumpadEnter => 335,
            KeyboardKey::KeyRControl => 345,
            KeyboardKey::KeyNumpadComma => 330,
            KeyboardKey::KeyDivide => 331,
            KeyboardKey::KeyPause => 284,
            KeyboardKey::KeyHome => 268,
            KeyboardKey::KeyUp => 265,
            KeyboardKey::KeyLeft => 263,
            KeyboardKey::KeyRight => 262,
            KeyboardKey::KeyEnd => 269,
            KeyboardKey::KeyDown => 264,
            KeyboardKey::KeyNext => 267,
            KeyboardKey::KeyInsert => 260,
            KeyboardKey::KeyDelete => 261,
        }
    }

    /// The number under which the windowing library reports the key.
    pub fn code(&self) -> (code: i32)
        ensures
            code == self.key_code(),
    {
        match self {
            KeyboardKey::KeyNone => -1,
            KeyboardKey::KeyEscape => 256,
            KeyboardKey::Key1 => 49,
            KeyboardKey::Key2 => 50,
            KeyboardKey::Key3 => 51,
            KeyboardKey::Key4 => 52,
            KeyboardKey::Key5 => 53,
            KeyboardKey::Key6 => 54,
            KeyboardKey::Key7 => 55,
            KeyboardKey::Key8 => 56,
            KeyboardKey::Key9 => 57,
            KeyboardKey::Key0 => 48,
            KeyboardKey::KeyMinus => 45,
            KeyboardKey::KeyEquals => 61,
            KeyboardKey::KeyBack => 259,
            KeyboardKey::KeyTab => 258,
            KeyboardKey::KeyQ => 81,
            KeyboardKey::KeyW => 87,
            KeyboardKey::KeyE => 69,
            KeyboardKey::KeyR => 82,
            KeyboardKey::KeyT => 84,
            KeyboardKey::KeyY => 89,
            KeyboardKey::KeyU => 85,
            KeyboardKey::KeyI => 73,
            KeyboardKey::KeyO => 79,
            KeyboardKey::KeyP => 80,
            KeyboardKey::KeyLBracket => 91,
            KeyboardKey::KeyRBracket => 93,
            KeyboardKey::KeyReturn => 257,
            KeyboardKey::KeyLControl => 341,
            KeyboardKey::KeyA => 65,
            KeyboardKey::KeyS => 83,
            KeyboardKey::KeyD => 68,
            KeyboardKey::KeyF => 70,
            KeyboardKey::KeyG => 71,
            KeyboardKey::KeyH => 72,
            KeyboardKey::KeyJ => 74,
            KeyboardKey::KeyK => 75,
            KeyboardKey::KeyL => 76,
            KeyboardKey::KeySemicolon => 59,
            KeyboardKey::KeyApostrophe => 39,
            KeyboardKey::KeyGrave => 96,
            KeyboardKey::KeyLShift => 340,
            KeyboardKey::KeyBackSlash => 92,
            KeyboardKey::KeyZ => 90,
            KeyboardKey::KeyX => 88,
            KeyboardKey::KeyC => 67,
            KeyboardKey::KeyV => 86,
            KeyboardKey::KeyB => 66,
            KeyboardKey::KeyN => 78,
            KeyboardKey::KeyM => 77,
            KeyboardKey::KeyComma => 44,
            KeyboardKey::KeyPeriod => 46,
            KeyboardKey::KeySlash => 47,
            KeyboardKey::KeyRShift => 344,
            KeyboardKey::KeyMultiply => 332,
            KeyboardKey::KeyLAlt => 342,
            KeyboardKey::KeySpace => 32,
            KeyboardKey::KeyCapital => 280,
            KeyboardKey::KeyF1 => 290,
            KeyboardKey::KeyF2 => 291,
            KeyboardKey::KeyF3 => 292,
            KeyboardKey::KeyF4 => 293,
            KeyboardKey::KeyF5 => 294,
            KeyboardKey::KeyF6 => 295,
            KeyboardKey::KeyF7 => 296,
            KeyboardKey::KeyF8 => 297,
            KeyboardKey::KeyF9 => 298,
            KeyboardKey::KeyF10 => 299,
            KeyboardKey::KeyNumLock => 282,
            KeyboardKey::KeyScroll => 281,
            KeyboardKey::KeyNumpad7 => 327,
            KeyboardKey::KeyNumpad8 => 328,
            KeyboardKey::KeyNumpad9 => 329,
            KeyboardKey::KeySubtract => 333,
            KeyboardKey::KeyNumpad4 => 324,
            KeyboardKey::KeyNumpad5 => 325,
            KeyboardKey::KeyNumpad6 => 326,
            KeyboardKey::KeyAdd => 334,
            KeyboardKey::KeyNumpad1 => 321,
            KeyboardKey::KeyNumpad2 => 322,
            KeyboardKey::KeyNumpad3 => 323,
            KeyboardKey::KeyNumpad0 => 320,
            KeyboardKey::KeyF11 => 300,
            KeyboardKey::KeyF12 => 301,
            KeyboardKey::KeyF13 => 302,
            KeyboardKey::KeyF14 => 303,
            KeyboardKey::KeyF15 => 304,
            KeyboardKey::KeyF16 => 305,
            KeyboardKey::KeyF17 => 306,
            KeyboardKey::KeyF18 => 307,
            KeyboardKey::KeyF19 => 308,
            KeyboardKey::KeyNumpadEquals => 336,
            KeyboardKey::KeyNumpadEnter => 335,
            KeyboardKey::KeyRControl => 345,
            KeyboardKey::KeyNumpadComma => 330,
            KeyboardKey::KeyDivide => 331,
            KeyboardKey::KeyPause => 284,
            KeyboardKey::KeyHome => 268,
            KeyboardKey::KeyUp => 265,
            KeyboardKey::KeyLeft => 263,
            KeyboardKey::KeyRight => 262,
            KeyboardKey::KeyEnd => 269,
            KeyboardKey::KeyDown => 264,
            KeyboardKey::KeyNext => 267,
            KeyboardKey::KeyInsert => 260,
            KeyboardKey::KeyDelete => 261,
        }
    }
}

/// Tells a key that has just gone down from one that is being held, so
/// that a module bound to it is toggled once for each press.
#[derive(Debug)]
pub struct KeyLatch {
    held: HashSet<i32>,
}

impl KeyLatch {
    /// The keys that were down when last observed.
    pub closed spec fn held(&self) -> Set<i32> {
        self.held@
    }

    /// A latch with no key held.
    pub fn new() -> (latch: KeyLatch)
        ensures
            latch.held() == Set::<i32>::empty(),
    {
        KeyLatch { held: HashSet::new() }
    }

    /// Takes note of whether `key` is down. Returns `true` when the key
    /// has gone down since it was last observed: that is a press.
    pub fn observe(&mut self, key: i32, down: bool) -> (pressed: bool)
        ensures
            pressed == (down && !old(self).held().contains(key)),
            final(self).held() == if down {
                old(self).held().insert(key)
            } else {
                old(self).held().remove(key)
            },
    {
        broadcast use vstd::std_specs::hash::group_hash_axioms;

        if down {
            self.held.insert(key)
        } else {
            self.held.remove(&key);
            false
        }
    }
}

/// The positions of the modules that are enabled, in order.
pub open spec fn enabled_positions(enabled: Seq<bool>) -> Seq<usize>
    decreases enabled.len(),
{
    if enabled.len() == 0 {
        Seq::empty()
    } else if enabled.last() {
        enabled_positions(enabled.drop_last()).push((enabled.len() - 1) as usize)
    } else {
        enabled_positions(enabled.drop_last())
    }
}

/// `enabled_positions` lists each enabled position once, in rising
/// order, and no other.
pub proof fn enabled_positions_are_exact(enabled: Seq<bool>)
    requires
        enabled.len() <= usize::MAX,
    ensures
        forall|k: int|
            0 <= k < enabled_positions(enabled).len() ==> {
                &&& (#[trigger] enabled_positions(enabled)[k]) < enabled.len()
                &&& enabled[enabled_positions(enabled)[k] as int]
            },
        forall|j: int, k: int|
            0 <= j < k < enabled_positions(enabled).len() ==> enabled_positions(enabled)[j]
                < enabled_positions(enabled)[k],
        forall|i: int|
            0 <= i < enabled.len() && enabled[i] ==> enabled_positions(enabled).contains(
                i as usize,
            ),
    decreases enabled.len(),
{
    if enabled.len() > 0 {
        let head = enabled.drop_last();
        let rest = enabled_positions(head);
        let all = enabled_positions(enabled);
        enabled_positions_are_exact(head);
        assert forall|i: int| 0 <= i < enabled.len() && enabled[i] implies all.contains(
            i as usize,
        ) by {
            if i < head.len() {
                assert(head[i]);
                let k = choose|k: int| 0 <= k < rest.len() && rest[k] == i as usize;
                assert(all[k] == i as usize);
            } else {
                assert(all[all.len() - 1] == i as usize);
            }
        }
    }
}

/// The modules to stop when everything is to be switched off at once:
/// those that are enabled, by their position, in order.
pub fn modules_to_stop(enabled: &Vec<bool>) -> (stop: Vec<usize>)
    ensures
        stop@ == enabled_positions(enabled@),
{
    let mut stop: Vec<usize> = Vec::new();
    let mut i: usize = 0;
    assert(enabled@.take(0) =~= Seq::<bool>::empty());
    while i < enabled.len()
        invariant
            i <= enabled.len(),
            stop@ == enabled_positions(enabled@.take(i as int)),
        decreases enabled.len() - i,
    {
        assert(enabled@.take(i + 1).drop_last() =~= enabled@.take(i as int));
        if enabled[i] {
            stop.push(i);
        }
        i += 1;
    }
    assert(enabled@.take(enabled.len() as int) =~= enabled@);
    stop
}

/// The flag that tells the keyboard handler to go on. It is absent
/// until the handler is first started.
#[derive(Debug, Clone, Copy, PartialEq, Eq)]
pub struct HandlerFlag {
    pub running: Option<bool>,
}

impl HandlerFlag {
    /// A flag that is absent.
    pub fn new() -> (flag: HandlerFlag)
        ensures
            flag.running is None,
    {
        HandlerFlag { running: None }
    }

    /// Starts the handler: sets an absent flag, and leaves a flag that is
    /// there as it is.
    pub fn start(&mut self)
        ensures
            final(self).running == match old(self).running {
                None => Some(true),
                Some(value) => Some(value),
            },
    {
        if self.running.is_none() {
            self.running = Some(true);
        }
    }

    /// Stops the handler: clears a flag that is there, and leaves an
    /// absent flag absent.
    pub fn stop(&mut self)
        ensures
            final(self).running == match old(self).running {
                None => None,
                Some(_) => Some(false),
            },
    {
        if self.running.is_some() {
            self.running = Some(false);
        }
    }

    /// Whether the handler is to go on.
    pub fn is_running(&self) -> (running: bool)
        ensures
            running == (self.running == Some(true)),
    {
        match self.running {
            Some(value) => value,
            None => false,
        }
    }
}

} // verus!
