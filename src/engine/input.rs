//! Keyboard model: abstract keys and actions, raw key events, the
//! edge-triggered key state machine stated over sets of keys, and the
//! traits through which simulation code queries keyboard state.
pub mod glfw_input;

use crate::engine::error::EngineError;
use crate::engine::render_loop::LoopState;
use vstd::prelude::*;

verus! {

/// An abstract keyboard key, independent of any platform's key codes.
#[derive(Debug, Clone, Copy, PartialEq, Eq, Hash, Structural)]
pub enum KeyboardKey {
    A,
    B,
    C,
    D,
    E,
    F,
    G,
    H,
    I,
    J,
    K,
    L,
    M,
    N,
    O,
    P,
    Q,
    R,
    S,
    T,
    U,
    V,
    W,
    X,
    Y,
    Z,

    ZERO,
    ONE,
    TWO,
    THREE,
    FOUR,
    FIVE,
    SIX,
    SEVEN,
    EIGHT,
    NINE,

    GRAVE,
    ESCAPE,
    SPACE,
    ENTER,
    TAB,
    DELETE,
    BACKSPACE,
    INSERT,
    RIGHT,
    LEFT,
    DOWN,
    UP,
    PAGEUP,
    PAGEDOWN,
    HOME,
    END,
    CAPSLOCK,
    SCROLLLOCK,
    NUMLOCK,
    PRINTSCREEN,
    PAUSE,
}

impl KeyboardKey {
    /// Dense index of the key; distinct keys have distinct indices.
    pub open spec fn spec_index(self) -> u8 {
        match self {
            KeyboardKey::A => 0,
            KeyboardKey::B => 1,
            KeyboardKey::C => 2,
            KeyboardKey::D => 3,
            KeyboardKey::E => 4,
            KeyboardKey::F => 5,
            KeyboardKey::G => 6,
            KeyboardKey::H => 7,
            KeyboardKey::I => 8,
            KeyboardKey::J => 9,
            KeyboardKey::K => 10,
            KeyboardKey::L => 11,
            KeyboardKey::M => 12,
            KeyboardKey::N => 13,
            KeyboardKey::O => 14,
            KeyboardKey::P => 15,
            KeyboardKey::Q => 16,
            KeyboardKey::R => 17,
            KeyboardKey::S => 18,
            KeyboardKey::T => 19,
            KeyboardKey::U => 20,
            KeyboardKey::V => 21,
            KeyboardKey::W => 22,
            KeyboardKey::X => 23,
            KeyboardKey::Y => 24,
            KeyboardKey::Z => 25,
            KeyboardKey::ZERO => 26,
            KeyboardKey::ONE => 27,
            KeyboardKey::TWO => 28,
            KeyboardKey::THREE => 29,
            KeyboardKey::FOUR => 30,
            KeyboardKey::FIVE => 31,
            KeyboardKey::SIX => 32,
            KeyboardKey::SEVEN => 33,
            KeyboardKey::EIGHT => 34,
            KeyboardKey::NINE => 35,
            KeyboardKey::GRAVE => 36,
            KeyboardKey::ESCAPE => 37,
            KeyboardKey::SPACE => 38,
            KeyboardKey::ENTER => 39,
            KeyboardKey::TAB => 40,
            KeyboardKey::DELETE => 41,
            KeyboardKey::BACKSPACE => 42,
            KeyboardKey::INSERT => 43,
            KeyboardKey::RIGHT => 44,
            KeyboardKey::LEFT => 45,
            KeyboardKey::DOWN => 46,
            KeyboardKey::UP => 47,
            KeyboardKey::PAGEUP => 48,
            KeyboardKey::PAGEDOWN => 49,
            KeyboardKey::HOME => 50,
            KeyboardKey::END => 51,
            KeyboardKey::CAPSLOCK => 52,
            KeyboardKey::SCROLLLOCK => 53,
            KeyboardKey::NUMLOCK => 54,
            KeyboardKey::PRINTSCREEN => 55,
            KeyboardKey::PAUSE => 56,
        }
    }

    /// The key with a given dense index, if any.
    pub open spec fn from_index(i: u8) -> Option<KeyboardKey> {
        match i {
            0 => Some(KeyboardKey::A),
            1 => Some(KeyboardKey::B),
            2 => Some(KeyboardKey::C),
            3 => Some(KeyboardKey::D),
            4 => Some(KeyboardKey::E),
            5 => Some(KeyboardKey::F),
            6 => Some(KeyboardKey::G),
            7 => Some(KeyboardKey::H),
            8 => Some(KeyboardKey::I),
            9 => Some(KeyboardKey::J),
            10 => Some(KeyboardKey::K),
            11 => Some(KeyboardKey::L),
            12 => Some(KeyboardKey::M),
            13 => Some(KeyboardKey::N),
            14 => Some(KeyboardKey::O),
            15 => Some(KeyboardKey::P),
            16 => Some(KeyboardKey::Q),
            17 => Some(KeyboardKey::R),
            18 => Some(KeyboardKey::S),
            19 => Some(KeyboardKey::T),
            20 => Some(KeyboardKey::U),
            21 => Some(KeyboardKey::V),
            22 => Some(KeyboardKey::W),
            23 => Some(KeyboardKey::X),
            24 => Some(KeyboardKey::Y),
            25 => Some(KeyboardKey::Z),
            26 => Some(KeyboardKey::ZERO),
            27 => Some(KeyboardKey::ONE),
            28 => Some(KeyboardKey::TWO),
            29 => Some(KeyboardKey::THREE),
            30 => Some(KeyboardKey::FOUR),
            31 => Some(KeyboardKey::FIVE),
            32 => Some(KeyboardKey::SIX),
            33 => Some(KeyboardKey::SEVEN),
            34 => Some(KeyboardKey::EIGHT),
            35 => Some(KeyboardKey::NINE),
            36 => Some(KeyboardKey::GRAVE),
            37 => Some(KeyboardKey::ESCAPE),
            38 => Some(KeyboardKey::SPACE),
            39 => Some(KeyboardKey::ENTER),
            40 => Some(KeyboardKey::TAB),
            41 => Some(KeyboardKey::DELETE),
            42 => Some(KeyboardKey::BACKSPACE),
            43 => Some(KeyboardKey::INSERT),
            44 => Some(KeyboardKey::RIGHT),
            45 => Some(KeyboardKey::LEFT),
            46 => Some(KeyboardKey::DOWN),
            47 => Some(KeyboardKey::UP),
            48 => Some(KeyboardKey::PAGEUP),
            49 => Some(KeyboardKey::PAGEDOWN),
            50 => Some(KeyboardKey::HOME),
            51 => Some(KeyboardKey::END),
            52 => Some(KeyboardKey::CAPSLOCK),
            53 => Some(KeyboardKey::SCROLLLOCK),
            54 => Some(KeyboardKey::NUMLOCK),
            55 => Some(KeyboardKey::PRINTSCREEN),
            56 => Some(KeyboardKey::PAUSE),
            _ => None,
        }
    }

    /// The platform key code (GLFW numbering) that stands for this key.
    pub open spec fn platform_code(self) -> i32 {
        match self {
            KeyboardKey::A => 65,
            KeyboardKey::B => 66,
            KeyboardKey::C => 67,
            KeyboardKey::D => 68,
            KeyboardKey::E => 69,
            KeyboardKey::F => 70,
            KeyboardKey::G => 71,
            KeyboardKey::H => 72,
            KeyboardKey::I => 73,
            KeyboardKey::J => 74,
            KeyboardKey::K => 75,
            KeyboardKey::L => 76,
            KeyboardKey::M => 77,
            KeyboardKey::N => 78,
            KeyboardKey::O => 79,
            KeyboardKey::P => 80,
            KeyboardKey::Q => 81,
            KeyboardKey::R => 82,
            KeyboardKey::S => 83,
            KeyboardKey::T => 84,
            KeyboardKey::U => 85,
            KeyboardKey::V => 86,
            KeyboardKey::W => 87,
            KeyboardKey::X => 88,
            KeyboardKey::Y => 89,
            KeyboardKey::Z => 90,
            KeyboardKey::ZERO => 48,
            KeyboardKey::ONE => 49,
            KeyboardKey::TWO => 50,
            KeyboardKey::THREE => 51,
            KeyboardKey::FOUR => 52,
            KeyboardKey::FIVE => 53,
            KeyboardKey::SIX => 54,
            KeyboardKey::SEVEN => 55,
            KeyboardKey::EIGHT => 56,
            KeyboardKey::NINE => 57,
            KeyboardKey::GRAVE => 96,
            KeyboardKey::ESCAPE => 256,
            KeyboardKey::SPACE => 32,
            KeyboardKey::ENTER => 257,
            KeyboardKey::TAB => 258,
            KeyboardKey::DELETE => 261,
            KeyboardKey::BACKSPACE => 259,
            KeyboardKey::INSERT => 260,
            KeyboardKey::RIGHT => 262,
            KeyboardKey::LEFT => 263,
            KeyboardKey::DOWN => 264,
            KeyboardKey::UP => 265,
            KeyboardKey::PAGEUP => 266,
            KeyboardKey::PAGEDOWN => 267,
            KeyboardKey::HOME => 268,
            KeyboardKey::END => 269,
            KeyboardKey::CAPSLOCK => 280,
            KeyboardKey::SCROLLLOCK => 281,
            KeyboardKey::NUMLOCK => 282,
            KeyboardKey::PRINTSCREEN => 283,
            KeyboardKey::PAUSE => 284,
        }
    }

    /// Dense index of the key, its identity inside hashed key sets.
    #[verifier::when_used_as_spec(spec_index)]
    pub fn index(self) -> (r: u8)
        ensures
            r == self.spec_index(),
    {
        match self {
            KeyboardKey::A => 0,
            KeyboardKey::B => 1,
            KeyboardKey::C => 2,
            KeyboardKey::D => 3,
            KeyboardKey::E => 4,
            KeyboardKey::F => 5,
            KeyboardKey::G => 6,
            KeyboardKey::H => 7,
            KeyboardKey::I => 8,
            KeyboardKey::J => 9,
            KeyboardKey::K => 10,
            KeyboardKey::L => 11,
            KeyboardKey::M => 12,
            KeyboardKey::N => 13,
            KeyboardKey::O => 14,
            KeyboardKey::P => 15,
            KeyboardKey::Q => 16,
            KeyboardKey::R => 17,
            KeyboardKey::S => 18,
            KeyboardKey::T => 19,
            KeyboardKey::U => 20,
            KeyboardKey::V => 21,
            KeyboardKey::W => 22,
            KeyboardKey::X => 23,
            KeyboardKey::Y => 24,
            KeyboardKey::Z => 25,
            KeyboardKey::ZERO => 26,
            KeyboardKey::ONE => 27,
            KeyboardKey::TWO => 28,
            KeyboardKey::THREE => 29,
            KeyboardKey::FOUR => 30,
            KeyboardKey::FIVE => 31,
            KeyboardKey::SIX => 32,
            KeyboardKey::SEVEN => 33,
            KeyboardKey::EIGHT => 34,
            KeyboardKey::NINE => 35,
            KeyboardKey::GRAVE => 36,
            KeyboardKey::ESCAPE => 37,
            KeyboardKey::SPACE => 38,
            KeyboardKey::ENTER => 39,
            KeyboardKey::TAB => 40,
            KeyboardKey::DELETE => 41,
            KeyboardKey::BACKSPACE => 42,
            KeyboardKey::INSERT => 43,
            KeyboardKey::RIGHT => 44,
            KeyboardKey::LEFT => 45,
            KeyboardKey::DOWN => 46,
            KeyboardKey::UP => 47,
            KeyboardKey::PAGEUP => 48,
            KeyboardKey::PAGEDOWN => 49,
            KeyboardKey::HOME => 50,
            KeyboardKey::END => 51,
            KeyboardKey::CAPSLOCK => 52,
            KeyboardKey::SCROLLLOCK => 53,
            KeyboardKey::NUMLOCK => 54,
            KeyboardKey::PRINTSCREEN => 55,
            KeyboardKey::PAUSE => 56,
        }
    }
}

/// Distinct keys have distinct indices.
pub proof fn lemma_index_injective()
    ensures
        forall|a: KeyboardKey, b: KeyboardKey| #[trigger] a.spec_index() == #[trigger] b.spec_index() ==> a == b,
{
    assert forall|k: KeyboardKey| KeyboardKey::from_index(#[trigger] k.spec_index()) == Some(k) by {}
}

/// What a raw key event asks for.
#[derive(Debug, Clone, Copy, PartialEq, Eq, Hash, Structural)]
pub enum KeyboardAction {
    PRESS,
    RELEASE,
    REPEAT,
    ELSE,
}

/// A raw key event: the abstract key (none for a platform code without a
/// mapping) and the action.
#[derive(Debug, Clone, Copy, PartialEq, Eq, Structural)]
pub struct EventState {
    pub key: Option<KeyboardKey>,
    pub action: KeyboardAction,
}

/// The abstract keyboard state: keys held down (level), and the keys that
/// went down or up during the current tick (edges).
pub struct KeySets {
    pub down: Set<KeyboardKey>,
    pub pressed: Set<KeyboardKey>,
    pub released: Set<KeyboardKey>,
}

impl KeySets {
    /// No key down and no edges.
    pub open spec fn empty() -> KeySets {
        KeySets { down: Set::empty(), pressed: Set::empty(), released: Set::empty() }
    }

    /// The same level state with both edge sets emptied.
    pub open spec fn edges_cleared(self) -> KeySets {
        KeySets { down: self.down, pressed: Set::empty(), released: Set::empty() }
    }
}

/// Applies one raw event: `PRESS` and `REPEAT` put the key down, recording a
/// rising edge only when it was up; `RELEASE` and `ELSE` put it up,
/// recording a falling edge only when it was down. An event without a key
/// changes nothing.
pub open spec fn apply_event(s: KeySets, e: EventState) -> KeySets {
    match e.key {
        None => s,
        Some(k) => match e.action {
            KeyboardAction::PRESS | KeyboardAction::REPEAT => KeySets {
                down: s.down.insert(k),
                pressed: if s.down.contains(k) { s.pressed } else { s.pressed.insert(k) },
                released: s.released,
            },
            KeyboardAction::RELEASE | KeyboardAction::ELSE => KeySets {
                down: s.down.remove(k),
                pressed: s.pressed,
                released: if s.down.contains(k) { s.released.insert(k) } else { s.released },
            },
        },
    }
}

/// Records one platform event: the edge sets are cleared first when a clear
/// is pending (the first event after a tick began), then the key event, if
/// any, is applied.
pub open spec fn record(s: KeySets, clear_pending: bool, e: Option<EventState>) -> KeySets {
    let base = if clear_pending { s.edges_cleared() } else { s };
    match e {
        Some(ev) => apply_event(base, ev),
        None => base,
    }
}

/// A key event for `key` with `action`.
pub open spec fn key_event(key: KeyboardKey, action: KeyboardAction) -> EventState {
    EventState { key: Some(key), action }
}

/// Whether an event, if there is one, leaves `key` alone.
pub open spec fn spares(e: Option<EventState>, key: KeyboardKey) -> bool {
    match e {
        Some(ev) => ev.key != Some(key),
        None => true,
    }
}

/// Edge lifecycle of a key: a press of a key that is up makes it down and
/// pressed in that tick; the first event of the next tick that is not about
/// the key clears the press edge while the key stays down; a release then
/// makes it released and up; and the first event of the tick after that
/// which is not about the key clears the release edge, the key staying up.
pub proof fn lemma_press_release_lifecycle(
    s: KeySets,
    key: KeyboardKey,
    clear: bool,
    next_tick: Option<EventState>,
    release_clear: bool,
    after_release: Option<EventState>,
)
    requires
        !s.down.contains(key),
        spares(next_tick, key),
        spares(after_release, key),
    ensures
        ({
            let pressed = record(s, clear, Some(key_event(key, KeyboardAction::PRESS)));
            let held = record(pressed, true, next_tick);
            let released = record(held, release_clear, Some(key_event(key, KeyboardAction::RELEASE)));
            let after = record(released, true, after_release);
            &&& pressed.down.contains(key) && pressed.pressed.contains(key)
            &&& held.down.contains(key) && !held.pressed.contains(key)
            &&& released.released.contains(key) && !released.down.contains(key)
            &&& !after.released.contains(key) && !after.down.contains(key)
        }),
{
}

/// A repeat of a key that is already down keeps it down and raises no new
/// press edge: once the press edge has been cleared, it stays cleared.
pub proof fn lemma_repeat_keeps_down_without_edge(s: KeySets, key: KeyboardKey, clear: bool)
    requires
        s.down.contains(key),
        clear || !s.pressed.contains(key),
    ensures
        record(s, clear, Some(key_event(key, KeyboardAction::REPEAT))).down.contains(key),
        !record(s, clear, Some(key_event(key, KeyboardAction::REPEAT))).pressed.contains(key),
{
}

/// Distinct keys have distinct platform codes.
pub proof fn lemma_platform_code_injective()
    ensures
        forall|a: KeyboardKey, b: KeyboardKey| #[trigger] a.platform_code() == #[trigger] b.platform_code() ==> a == b,
{
}

/// Read access to keyboard state, as simulation code sees it.
pub trait KeyboardState {
    /// The abstract state that the queries answer from.
    spec fn keys(&self) -> KeySets;

    /// Whether `key` went down during the current tick.
    fn is_key_pressed(&self, key: KeyboardKey) -> (r: bool)
        ensures
            r == self.keys().pressed.contains(key),
    ;

    /// Whether `key` is held down.
    fn is_key_down(&self, key: KeyboardKey) -> (r: bool)
        ensures
            r == self.keys().down.contains(key),
    ;

    /// Whether `key` went up during the current tick.
    fn is_key_released(&self, key: KeyboardKey) -> (r: bool)
        ensures
            r == self.keys().released.contains(key),
    ;

    /// Whether `key` is up.
    fn is_key_up(&self, key: KeyboardKey) -> (r: bool)
        ensures
            r == !self.keys().down.contains(key),
    ;
}

/// One call of an input lifecycle hook, with what it returned.
pub enum InputCall {
    Start(Result<(), EngineError>),
    Next(Result<LoopState, EngineError>),
    End(Result<(), EngineError>),
}

/// The input state machine: it takes raw events one at a time and clears its
/// edges lazily, at the first event after a tick began.
pub trait InputState: KeyboardState {
    /// Whether the edge sets are to be cleared at the next recorded event.
    spec fn clear_pending(&self) -> bool;

    /// The event handed over and not yet recorded.
    spec fn pending_event(&self) -> Option<EventState>;

    /// The lifecycle hook calls made on this input so far, oldest first.
    spec fn input_calls(&self) -> Seq<InputCall>;

    /// Records the pending event (clearing the edges first if a clear is
    /// pending) and consumes it.
    fn handle_event(&mut self)
        ensures
            final(self).keys() == record(old(self).keys(), old(self).clear_pending(), old(self).pending_event()),
            !final(self).clear_pending(),
            final(self).pending_event() is None,
            final(self).input_calls() == old(self).input_calls(),
    ;

    /// Hands over the next event to record.
    fn on_event(&mut self, event: &Option<EventState>) -> (r: &Option<EventState>)
        ensures
            *r == *event,
            final(self).pending_event() == *event,
            final(self).keys() == old(self).keys(),
            final(self).clear_pending() == old(self).clear_pending(),
            final(self).input_calls() == old(self).input_calls(),
    ;

    /// Called once before the loop starts.
    fn on_start(&mut self) -> (r: Result<(), EngineError>)
        ensures
            final(self).keys() == old(self).keys(),
            final(self).clear_pending() == old(self).clear_pending(),
            final(self).pending_event() == old(self).pending_event(),
            final(self).input_calls() == old(self).input_calls().push(InputCall::Start(r)),
    ;

    /// Begins a tick: arms the lazy clear of the edge sets, which stay
    /// readable until the next event is recorded.
    fn on_next(&mut self) -> (r: Result<LoopState, EngineError>)
        ensures
            final(self).keys() == old(self).keys(),
            final(self).clear_pending(),
            final(self).pending_event() == old(self).pending_event(),
            final(self).input_calls() == old(self).input_calls().push(InputCall::Next(r)),
    ;

    /// Called once at teardown.
    fn on_end(&mut self) -> (r: Result<(), EngineError>)
        ensures
            final(self).input_calls() == old(self).input_calls().push(InputCall::End(r)),
    ;
}

} // verus!
