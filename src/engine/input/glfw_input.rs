//! The platform side of input: GLFW key and action codes mapped to abstract
//! keys and actions, platform events reduced to raw key events, and the
//! hashed-set implementation of the input state machine.
use crate::engine::error::EngineError;
use crate::engine::input::{
    apply_event, EventState, InputCall, InputState, KeySets, KeyboardAction, KeyboardKey,
    KeyboardState, lemma_index_injective, lemma_platform_code_injective,
};
use crate::engine::render_loop::LoopState;
use std::collections::HashSet;
use vstd::prelude::*;

verus! {

broadcast use vstd::std_specs::hash::group_hash_axioms;

/// The abstract key that a platform key code (GLFW numbering) stands for:
/// the key whose platform code it is, if there is one.
pub open spec fn key_for_code(code: i32) -> Option<KeyboardKey> {
    if exists|k: KeyboardKey| k.platform_code() == code {
        Some(choose|k: KeyboardKey| k.platform_code() == code)
    } else {
        None
    }
}

/// The abstract action for a platform action code (GLFW numbering): release
/// is 0, press 1, repeat 2; any other code is `ELSE`.
pub open spec fn action_for_code(code: i32) -> KeyboardAction {
    if code == 0 {
        KeyboardAction::RELEASE
    } else if code == 1 {
        KeyboardAction::PRESS
    } else if code == 2 {
        KeyboardAction::REPEAT
    } else {
        KeyboardAction::ELSE
    }
}

/// Maps a platform key code to its abstract key, if it has one.
pub fn key_mapping(code: i32) -> (r: Option<KeyboardKey>)
    ensures
        r == key_for_code(code),
        r matches Some(k) ==> k.platform_code() == code,
{
    proof {
        lemma_platform_code_injective();
    }
    match code {
            32 => Some(KeyboardKey::SPACE),
            48 => Some(KeyboardKey::ZERO),
            49 => Some(KeyboardKey::ONE),
            50 => Some(KeyboardKey::TWO),
            51 => Some(KeyboardKey::THREE),
            52 => Some(KeyboardKey::FOUR),
            53 => Some(KeyboardKey::FIVE),
            54 => Some(KeyboardKey::SIX),
            55 => Some(KeyboardKey::SEVEN),
            56 => Some(KeyboardKey::EIGHT),
            57 => Some(KeyboardKey::NINE),
            65 => Some(KeyboardKey::A),
            66 => Some(KeyboardKey::B),
            67 => Some(KeyboardKey::C),
            68 => Some(KeyboardKey::D),
            69 => Some(KeyboardKey::E),
            70 => Some(KeyboardKey::F),
            71 => Some(KeyboardKey::G),
            72 => Some(KeyboardKey::H),
            73 => Some(KeyboardKey::I),
            74 => Some(KeyboardKey::J),
            75 => Some(KeyboardKey::K),
            76 => Some(KeyboardKey::L),
            77 => Some(KeyboardKey::M),
            78 => Some(KeyboardKey::N),
            79 => Some(KeyboardKey::O),
            80 => Some(KeyboardKey::P),
            81 => Some(KeyboardKey::Q),
            82 => Some(KeyboardKey::R),
            83 => Some(KeyboardKey::S),
            84 => Some(KeyboardKey::T),
            85 => Some(KeyboardKey::U),
            86 => Some(KeyboardKey::V),
            87 => Some(KeyboardKey::W),
            88 => Some(KeyboardKey::X),
            89 => Some(KeyboardKey::Y),
            90 => Some(KeyboardKey::Z),
            96 => Some(KeyboardKey::GRAVE),
            256 => Some(KeyboardKey::ESCAPE),
            257 => Some(KeyboardKey::ENTER),
            258 => Some(KeyboardKey::TAB),
            259 => Some(KeyboardKey::BACKSPACE),
            260 => Some(KeyboardKey::INSERT),
            261 => Some(KeyboardKey::DELETE),
            262 => Some(KeyboardKey::RIGHT),
            263 => Some(KeyboardKey::LEFT),
            264 => Some(KeyboardKey::DOWN),
            265 => Some(KeyboardKey::UP),
            266 => Some(KeyboardKey::PAGEUP),
            267 => Some(KeyboardKey::PAGEDOWN),
            268 => Some(KeyboardKey::HOME),
            269 => Some(KeyboardKey::END),
            280 => Some(KeyboardKey::CAPSLOCK),
            281 => Some(KeyboardKey::SCROLLLOCK),
            282 => Some(KeyboardKey::NUMLOCK),
            283 => Some(KeyboardKey::PRINTSCREEN),
            284 => Some(KeyboardKey::PAUSE),
            _ => None,
    }
}

/// Maps a platform action code to its abstract action.
pub fn action_mapping(code: i32) -> (r: KeyboardAction)
    ensures
        r == action_for_code(code),
{
    match code {
        0 => KeyboardAction::RELEASE,
        1 => KeyboardAction::PRESS,
        2 => KeyboardAction::REPEAT,
        _ => KeyboardAction::ELSE,
    }
}

/// A platform window event, reduced to what the engine reads of it.
#[derive(Debug, Clone, Copy, PartialEq, Eq, Structural)]
pub enum PlatformEvent {
    /// A key event: platform key code and platform action code.
    Key { code: i32, action: i32 },
    /// The window moved.
    Pos { x: i32, y: i32 },
    /// The framebuffer was resized.
    FramebufferSize { width: i32, height: i32 },
    /// Any other event.
    Other,
}

/// The raw key event that a platform event carries, if it is a key event.
pub open spec fn captured(event: PlatformEvent) -> Option<EventState> {
    match event {
        PlatformEvent::Key { code, action } => Some(
            EventState { key: key_for_code(code), action: action_for_code(action) },
        ),
        _ => None,
    }
}

/// Reduces a platform event to the raw key event it carries.
pub fn capture_event(event: &PlatformEvent) -> (r: Option<EventState>)
    ensures
        r == captured(*event),
{
    let mut key_action: Option<EventState> = None;
    match event {
        PlatformEvent::Key { code, action } => {
            key_action = Some(EventState { action: action_mapping(*action), key: key_mapping(*code) });
        },
        _ => {},
    }
    key_action
}

/// The keys whose indices a set of indices holds.
pub open spec fn keys_of(ids: Set<u8>) -> Set<KeyboardKey> {
    Set::new(|k: KeyboardKey| ids.contains(k.spec_index()))
}

/// The input state machine over hashed sets of key indices.
pub struct GlfwInputState {
    key_down: HashSet<u8>,
    key_pressed_update: HashSet<u8>,
    key_released_update: HashSet<u8>,
    clear_key: bool,
    event: Option<EventState>,
    calls: Ghost<Seq<InputCall>>,
}

impl GlfwInputState {
    /// No key down, no edges, no pending event; the first recorded event
    /// clears the (empty) edge sets.
    pub fn new() -> (r: Self)
        ensures
            r.keys() == KeySets::empty(),
            r.clear_pending(),
            r.pending_event() is None,
            r.input_calls() == Seq::<InputCall>::empty(),
    {
        let r = Self {
            key_down: HashSet::new(),
            key_pressed_update: HashSet::new(),
            key_released_update: HashSet::new(),
            clear_key: true,
            event: None,
            calls: Ghost(Seq::empty()),
        };
        assert(r.keys().down =~= Set::empty());
        assert(r.keys().pressed =~= Set::empty());
        assert(r.keys().released =~= Set::empty());
        r
    }
}

impl KeyboardState for GlfwInputState {
    closed spec fn keys(&self) -> KeySets {
        KeySets {
            down: keys_of(self.key_down@),
            pressed: keys_of(self.key_pressed_update@),
            released: keys_of(self.key_released_update@),
        }
    }

    fn is_key_pressed(&self, key: KeyboardKey) -> (r: bool) {
        self.key_pressed_update.contains(&key.index())
    }

    fn is_key_down(&self, key: KeyboardKey) -> (r: bool) {
        self.key_down.contains(&key.index())
    }

    fn is_key_released(&self, key: KeyboardKey) -> (r: bool) {
        self.key_released_update.contains(&key.index())
    }

    fn is_key_up(&self, key: KeyboardKey) -> (r: bool) {
        !self.key_down.contains(&key.index())
    }
}

impl InputState for GlfwInputState {
    closed spec fn clear_pending(&self) -> bool {
        self.clear_key
    }

    closed spec fn pending_event(&self) -> Option<EventState> {
        self.event
    }

    closed spec fn input_calls(&self) -> Seq<InputCall> {
        self.calls@
    }

    fn handle_event(&mut self) {
        proof {
            lemma_index_injective();
        }
        let ghost start = if old(self).clear_key {
            old(self).keys().edges_cleared()
        } else {
            old(self).keys()
        };
        if self.clear_key {
            self.key_pressed_update.clear();
            self.key_released_update.clear();
            self.clear_key = false;
        }
        assert(self.keys().down =~= start.down);
        assert(self.keys().pressed =~= start.pressed);
        assert(self.keys().released =~= start.released);
        let event = self.event.take();
        match event {
            Some(EventState { action: a, key: Some(k) }) => {
                let id = k.index();
                if a == KeyboardAction::PRESS || a == KeyboardAction::REPEAT {
                    if !self.key_down.contains(&id) {
                        self.key_pressed_update.insert(id);
                    }
                    self.key_down.insert(id);
                } else {
                    if self.key_down.contains(&id) {
                        self.key_released_update.insert(id);
                    }
                    self.key_down.remove(&id);
                }
                let ghost expected = apply_event(start, EventState { action: a, key: Some(k) });
                assert(self.keys().down =~= expected.down);
                assert(self.keys().pressed =~= expected.pressed);
                assert(self.keys().released =~= expected.released);
            },
            _ => {},
        }
    }

    fn on_event(&mut self, event: &Option<EventState>) -> (r: &Option<EventState>) {
        self.event = *event;
        &self.event
    }

    fn on_start(&mut self) -> (r: Result<(), EngineError>)
        ensures
            r is Ok,
    {
        self.calls = Ghost(self.calls@.push(InputCall::Start(Ok(()))));
        Ok(())
    }

    fn on_next(&mut self) -> (r: Result<LoopState, EngineError>)
        ensures
            r == Ok::<LoopState, EngineError>(LoopState::Continue),
    {
        self.clear_key = true;
        self.calls = Ghost(self.calls@.push(InputCall::Next(Ok(LoopState::Continue))));
        Ok(LoopState::Continue)
    }

    fn on_end(&mut self) -> (r: Result<(), EngineError>)
        ensures
            r is Ok,
    {
        self.calls = Ghost(self.calls@.push(InputCall::End(Ok(()))));
        Ok(())
    }
}

} // verus!
