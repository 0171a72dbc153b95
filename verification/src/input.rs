//! The key-state table that the input system reads.

use vstd::prelude::*;

verus! {

/// Number of key codes the key-state table has room for.
pub const KEY_COUNT: usize = 161;

/// What is known of one key during a frame.
#[derive(Copy, Clone, Debug, PartialEq, Eq, Structural)]
pub enum KeyState {
    Released,
    Pressed,
    JustPressed,
}

impl KeyState {
    /// The key is held, whether it went down this frame or earlier.
    pub open spec fn down(self) -> bool {
        self != KeyState::Released
    }

    /// The state a key has after the window system has reported it down: a key
    /// that was released has just been pressed; a key that was already held
    /// stays as it is, so a repeated report does not press it anew.
    pub open spec fn pressed(self) -> KeyState {
        if self == KeyState::Released {
            KeyState::JustPressed
        } else {
            self
        }
    }

    /// The state a key has once the frame in which it went down is over.
    pub open spec fn settled(self) -> KeyState {
        if self == KeyState::JustPressed {
            KeyState::Pressed
        } else {
            self
        }
    }
}

/// One `KeyState` per key code.
pub struct Keys(pub [KeyState; 161]);

impl View for Keys {
    type V = Seq<KeyState>;

    open spec fn view(&self) -> Seq<KeyState> {
        self.0@
    }
}

impl Keys {
    /// A table in which every key is released.
    pub fn new() -> (keys: Keys)
        ensures
            keys@.len() == KEY_COUNT,
            forall|k: int| 0 <= k < KEY_COUNT ==> (#[trigger] keys@[k]) == KeyState::Released,
    {
        Keys([KeyState::Released; 161])
    }

    /// Changes keys that are `JustPressed` to `Pressed`; every other key keeps
    /// its state.
    pub fn update(&mut self)
        ensures
            final(self)@.len() == KEY_COUNT,
            forall|k: int|
                0 <= k < KEY_COUNT ==> (#[trigger] final(self)@[k]) == old(self)@[k].settled(),
    {
        let mut k: usize = 0;
        while k < KEY_COUNT
            invariant
                k <= KEY_COUNT,
                self@.len() == KEY_COUNT,
                forall|j: int| 0 <= j < k ==> self@[j] == old(self)@[j].settled(),
                forall|j: int| k <= j < KEY_COUNT ==> self@[j] == old(self)@[j],
            decreases KEY_COUNT - k,
        {
            if self.0[k] == KeyState::JustPressed {
                self.0[k] = KeyState::Pressed;
            }
            k += 1;
        }
    }

    /// Takes a report that `key` is down.
    pub fn press(&mut self, key: usize)
        requires
            key < KEY_COUNT,
        ensures
            final(self)@ == old(self)@.update(key as int, old(self)@[key as int].pressed()),
    {
        if self.0[key] == KeyState::Released {
            self.0[key] = KeyState::JustPressed;
        }
        assert(self@ =~= old(self)@.update(key as int, old(self)@[key as int].pressed()));
    }

    /// Takes a report that `key` is up.
    pub fn release(&mut self, key: usize)
        requires
            key < KEY_COUNT,
        ensures
            final(self)@ == old(self)@.update(key as int, KeyState::Released),
    {
        self.0[key] = KeyState::Released;
        assert(self@ =~= old(self)@.update(key as int, KeyState::Released));
    }

    /// Whether `key` went down in the current frame.
    pub fn is_just_pressed(&self, key: usize) -> (just_pressed: bool)
        requires
            key < KEY_COUNT,
        ensures
            just_pressed == (self@[key as int] == KeyState::JustPressed),
    {
        self.0[key] == KeyState::JustPressed
    }

    /// Whether `key` is held: `Pressed` and `JustPressed` both count.
    pub fn is_down(&self, key: usize) -> (down: bool)
        requires
            key < KEY_COUNT,
        ensures
            down == self@[key as int].down(),
    {
        match self.0[key] {
            KeyState::Released => false,
            KeyState::JustPressed | KeyState::Pressed => true,
        }
    }
}

/// Which key code stands for which action of the game.
#[derive(Copy, Clone, Debug, PartialEq, Eq, Structural)]
pub struct Controls {
    pub jump: usize,
    pub up: usize,
    pub down: usize,
    pub left: usize,
    pub right: usize,
    /// Grabs or lets go of the mouse pointer.
    pub mouse_grab: usize,
}

impl Controls {
    /// Every action is bound to a key code that the key-state table holds.
    pub open spec fn wf(self) -> bool {
        &&& self.jump < KEY_COUNT
        &&& self.up < KEY_COUNT
        &&& self.down < KEY_COUNT
        &&& self.left < KEY_COUNT
        &&& self.right < KEY_COUNT
        &&& self.mouse_grab < KEY_COUNT
    }

    /// Binds the actions to the given key codes, or gives `None` where one of
    /// them is not a key code of the table.
    pub fn new(
        jump: usize,
        up: usize,
        down: usize,
        left: usize,
        right: usize,
        mouse_grab: usize,
    ) -> (controls: Option<Controls>)
        ensures
            controls is Some <==> (Controls { jump, up, down, left, right, mouse_grab }).wf(),
            controls is Some ==> controls.unwrap() == (Controls {
                jump,
                up,
                down,
                left,
                right,
                mouse_grab,
            }),
    {
        if jump < KEY_COUNT && up < KEY_COUNT && down < KEY_COUNT && left < KEY_COUNT && right
            < KEY_COUNT && mouse_grab < KEY_COUNT {
            Some(Controls { jump, up, down, left, right, mouse_grab })
        } else {
            None
        }
    }
}

/// The key-state table together with the bindings it is read through.
pub struct Input {
    pub keys: Keys,
    pub controls: Controls,
}

} // verus!
