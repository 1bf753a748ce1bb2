use vstd::prelude::*;

verus! {

/// State of each key.
#[derive(Clone, Copy, Debug, PartialEq, Eq, Structural)]
pub enum KeyState {
    Pressed,
    Released,
}

impl Default for KeyState {
    fn default() -> (state: Self)
        ensures
            state == KeyState::Released,
    {
        KeyState::Released
    }
}

/// Which of the keys the application listens to are held down.
#[derive(Clone, Copy, Debug, PartialEq, Eq, Structural)]
pub struct Keys {
    pub a: KeyState,
    pub w: KeyState,
    pub s: KeyState,
    pub d: KeyState,
    pub space: KeyState,
    pub l_ctrl: KeyState,
    pub up_key: KeyState,
    pub down_key: KeyState,
    pub left_key: KeyState,
    pub right_key: KeyState,
}

impl Keys {
    /// Every key released.
    pub open spec fn all_released() -> Keys {
        Keys {
            a: KeyState::Released,
            w: KeyState::Released,
            s: KeyState::Released,
            d: KeyState::Released,
            space: KeyState::Released,
            l_ctrl: KeyState::Released,
            up_key: KeyState::Released,
            down_key: KeyState::Released,
            left_key: KeyState::Released,
            right_key: KeyState::Released,
        }
    }
}

impl Default for Keys {
    fn default() -> (keys: Self)
        ensures
            keys == Keys::all_released(),
    {
        Keys {
            a: KeyState::Released,
            w: KeyState::Released,
            s: KeyState::Released,
            d: KeyState::Released,
            space: KeyState::Released,
            l_ctrl: KeyState::Released,
            up_key: KeyState::Released,
            down_key: KeyState::Released,
            left_key: KeyState::Released,
            right_key: KeyState::Released,
        }
    }
}

} // verus!
