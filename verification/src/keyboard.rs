//! Keyboard state between frames and key combinations for shortcuts.
use vstd::prelude::*;
use crate::labels::joined;

verus! {

/// A key code of `winit`, carried through as an opaque value.
#[verifier::external_type_specification]
#[verifier::external_body]
pub struct ExVirtualKeyCode(winit::event::VirtualKeyCode);

/// The slot of a key in the key-state arrays: its `winit` discriminant.
pub uninterp spec fn key_slot_of(key: winit::event::VirtualKeyCode) -> usize;

/// The name `Debug` prints for a key.
pub uninterp spec fn key_name_of(key: winit::event::VirtualKeyCode) -> Seq<char>;

/// The `winit` key of each modifier key.
pub uninterp spec fn modifier_key_code(m: Modifier) -> winit::event::VirtualKeyCode;

/// The six modifier keys.
#[derive(Clone, Copy, Debug, PartialEq, Eq, Structural)]
pub enum Modifier {
    LAlt,
    RAlt,
    LControl,
    RControl,
    LShift,
    RShift,
}

/// `key as usize`. `VirtualKeyCode` is a `#[repr(u32)]` enum whose 163 variants take the
/// discriminants from 0 up, so every slot is below 512.
#[verifier::external_body]
pub(crate) fn key_slot(key: winit::event::VirtualKeyCode) -> (r: usize)
    ensures
        r == key_slot_of(key),
        r < 512,
{
    key as usize
}

/// The `Debug` name of a key.
#[verifier::external_body]
pub(crate) fn key_name(key: winit::event::VirtualKeyCode) -> (r: String)
    ensures
        r@ == key_name_of(key),
{
    format!("{:?}", key)
}

/// The `winit` key of a modifier key.
#[verifier::external_body]
pub(crate) fn modifier_key(m: Modifier) -> (r: winit::event::VirtualKeyCode)
    ensures
        r == modifier_key_code(m),
{
    match m {
        Modifier::LAlt => winit::event::VirtualKeyCode::LAlt,
        Modifier::RAlt => winit::event::VirtualKeyCode::RAlt,
        Modifier::LControl => winit::event::VirtualKeyCode::LControl,
        Modifier::RControl => winit::event::VirtualKeyCode::RControl,
        Modifier::LShift => winit::event::VirtualKeyCode::LShift,
        Modifier::RShift => winit::event::VirtualKeyCode::RShift,
    }
}

pub struct KeyboardState {
    pressed_prev: [bool; 512],
    pressed: [bool; 512],
    just_pressed: [bool; 512],
}

/// The key states as values, one flag per slot.
pub struct KeyboardView {
    pub pressed_prev: Seq<bool>,
    pub pressed: Seq<bool>,
    pub just_pressed: Seq<bool>,
}

impl View for KeyboardState {
    type V = KeyboardView;

    closed spec fn view(&self) -> KeyboardView {
        KeyboardView { pressed_prev: self.pressed_prev@, pressed: self.pressed@, just_pressed: self.just_pressed@ }
    }
}

/// The key states after a frame in which `keys_down` are held.
pub open spec fn after_update(s: KeyboardView, keys_down: Seq<bool>) -> KeyboardView {
    KeyboardView {
        pressed_prev: keys_down,
        pressed: keys_down,
        just_pressed: Seq::new(512, |i: int| keys_down[i] && !s.pressed_prev[i]),
    }
}

impl KeyboardView {
    /// One flag per slot in each array.
    pub open spec fn wf(self) -> bool {
        self.pressed_prev.len() == 512 && self.pressed.len() == 512 && self.just_pressed.len() == 512
    }
}

impl KeyboardState {
    /// Takes the keys held in this frame: a key is just pressed when it is held now and was
    /// not in the previous frame.
    pub fn update(&mut self, keys_down: &[bool; 512])
        ensures
            final(self)@ == after_update(old(self)@, keys_down@),
            final(self)@.wf(),
    {
        self.pressed = *keys_down;
        for i in 0..512
            invariant
                self.pressed@ == keys_down@,
                self.pressed_prev@.len() == 512,
                self.just_pressed@.len() == 512,
                forall|j: int| 0 <= j < i ==> self.just_pressed@[j] == (keys_down@[j] && !old(self)@.pressed_prev[j]),
                forall|j: int| 0 <= j < i ==> self.pressed_prev@[j] == keys_down@[j],
                forall|j: int| i <= j < 512 ==> self.pressed_prev@[j] == old(self)@.pressed_prev[j],
        {
            let pressed = self.pressed[i];
            let was_pressed = self.pressed_prev[i];
            self.just_pressed[i] = pressed && !was_pressed;
            self.pressed_prev[i] = pressed;
        }
        proof {
            let target = after_update(old(self)@, keys_down@);
            assert forall|j: int| 0 <= j < 512 implies self.just_pressed@[j] == target.just_pressed[j] by {
                assert(self.just_pressed@[j] == (keys_down@[j] && !old(self)@.pressed_prev[j]));
            }
            assert(self.just_pressed@ =~= target.just_pressed);
            assert(self.pressed_prev@ =~= target.pressed_prev);
        }
    }

    pub fn held(&self, key: winit::event::VirtualKeyCode) -> (r: bool)
        requires
            self@.wf(),
        ensures
            r == self@.pressed[key_slot_of(key) as int],
    {
        self.pressed[key_slot(key)]
    }

    pub fn just_pressed(&self, key: winit::event::VirtualKeyCode) -> (r: bool)
        requires
            self@.wf(),
        ensures
            r == self@.just_pressed[key_slot_of(key) as int],
    {
        self.just_pressed[key_slot(key)]
    }

    /// Whether either key of a modifier pair is held.
    fn held_pair(&self, left: Modifier, right: Modifier) -> (r: bool)
        requires
            self@.wf(),
        ensures
            r == (self@.pressed[key_slot_of(modifier_key_code(left)) as int]
                || self@.pressed[key_slot_of(modifier_key_code(right)) as int]),
    {
        self.held(modifier_key(left)) || self.held(modifier_key(right))
    }
}

impl Default for KeyboardState {
    fn default() -> (r: Self)
        ensures
            r@.pressed_prev == Seq::new(512, |i: int| false),
            r@.pressed == Seq::new(512, |i: int| false),
            r@.just_pressed == Seq::new(512, |i: int| false),
            r@.wf(),
    {
        let r = Self { pressed_prev: [false; 512], pressed: [false; 512], just_pressed: [false; 512] };
        proof {
            assert(r@.pressed_prev =~= Seq::new(512, |i: int| false));
            assert(r@.pressed =~= Seq::new(512, |i: int| false));
            assert(r@.just_pressed =~= Seq::new(512, |i: int| false));
        }
        r
    }
}

/// A key is just pressed only while it is held, and a key held through two frames in a row
/// is not just pressed in the second.
pub proof fn lemma_just_pressed_once(s: KeyboardView, keys_down: Seq<bool>)
    requires
        keys_down.len() == 512,
    ensures
        forall|i: int| 0 <= i < 512 && after_update(s, keys_down).just_pressed[i] ==> keys_down[i],
        forall|i: int| 0 <= i < 512 ==> !#[trigger] after_update(after_update(s, keys_down), keys_down).just_pressed[i],
{
}

pub struct KeyCombination {
    key_ctrl: bool,
    key_alt: bool,
    key_shift: bool,
    key: winit::event::VirtualKeyCode,
}

/// A key combination as values.
pub struct KeyCombinationView {
    pub ctrl: bool,
    pub alt: bool,
    pub shift: bool,
    pub key: winit::event::VirtualKeyCode,
}

impl View for KeyCombination {
    type V = KeyCombinationView;

    closed spec fn view(&self) -> KeyCombinationView {
        KeyCombinationView { ctrl: self.key_ctrl, alt: self.key_alt, shift: self.key_shift, key: self.key }
    }
}

/// Whether either key of a modifier pair is held.
pub open spec fn pair_held(s: KeyboardView, left: Modifier, right: Modifier) -> bool {
    s.pressed[key_slot_of(modifier_key_code(left)) as int] || s.pressed[key_slot_of(modifier_key_code(right)) as int]
}

/// The combination fires: its key was just pressed and exactly its modifiers are held.
pub open spec fn combination_fires(k: KeyCombinationView, s: KeyboardView) -> bool {
    &&& k.alt == pair_held(s, Modifier::LAlt, Modifier::RAlt)
    &&& k.ctrl == pair_held(s, Modifier::LControl, Modifier::RControl)
    &&& k.shift == pair_held(s, Modifier::LShift, Modifier::RShift)
    &&& s.just_pressed[key_slot_of(k.key) as int]
}

/// The text of a combination: its modifiers then its key, joined by `+`.
pub open spec fn combination_text(k: KeyCombinationView) -> Seq<char> {
    joined(
        crate::labels::part_if(k.ctrl, "ctrl"@) + crate::labels::part_if(k.alt, "alt"@)
            + crate::labels::part_if(k.shift, "shift"@) + seq![key_name_of(k.key)],
        "+"@,
    )
}

impl KeyCombination {
    /// The key alone, with no modifier.
    pub fn new(key: winit::event::VirtualKeyCode) -> (r: Self)
        ensures
            r@ == (KeyCombinationView { ctrl: false, alt: false, shift: false, key }),
    {
        Self { key_ctrl: false, key_alt: false, key_shift: false, key }
    }

    /// The same combination with ctrl.
    pub fn ctrl(self) -> (r: Self)
        ensures
            r@ == (KeyCombinationView { ctrl: true, ..self@ }),
    {
        Self { key_ctrl: true, ..self }
    }

    pub fn just_pressed(&self, keyboard_state: &KeyboardState) -> (r: bool)
        requires
            keyboard_state@.wf(),
        ensures
            r == combination_fires(self@, keyboard_state@),
    {
        let alt_pressed = keyboard_state.held_pair(Modifier::LAlt, Modifier::RAlt);
        let ctrl_pressed = keyboard_state.held_pair(Modifier::LControl, Modifier::RControl);
        let shift_pressed = keyboard_state.held_pair(Modifier::LShift, Modifier::RShift);

        (self.key_alt == alt_pressed) && (self.key_ctrl == ctrl_pressed) && (self.key_shift == shift_pressed)
            && keyboard_state.just_pressed(self.key)
    }

    /// The combination's text, as shown next to menu items (`ctrl+S`).
    pub fn to_string(&self) -> (r: String)
        ensures
            r@ == combination_text(self@),
    {
        let mut key_string: Vec<&str> = Vec::new();
        if self.key_ctrl {
            key_string.push("ctrl");
        }
        if self.key_alt {
            key_string.push("alt");
        }
        if self.key_shift {
            key_string.push("shift");
        }
        let key = key_name(self.key);
        key_string.push(key.as_str());
        proof {
            assert(key_string@.map_values(|p: &str| p@) =~= crate::labels::part_if(self.key_ctrl, "ctrl"@)
                + crate::labels::part_if(self.key_alt, "alt"@) + crate::labels::part_if(self.key_shift, "shift"@)
                + seq![key_name_of(self.key)]);
        }
        crate::labels::join_strs(&key_string, "+")
    }
}

} // verus!
