use vstd::prelude::*;
use crate::keys::{KeyState, Keys};

verus! {

/// The keys that the application tells apart. Every other key is `Other`.
#[derive(Clone, Copy, Debug, PartialEq, Eq, Structural)]
pub enum VirtualKeyCode {
    W,
    A,
    S,
    D,
    Space,
    LControl,
    LShift,
    Up,
    Down,
    Left,
    Right,
    Escape,
    C,
    Numpad2,
    Numpad3,
    Numpad4,
    Numpad5,
    Numpad6,
    Numpad8,
    Numpad9,
    Other,
}

/// What the application does on a key event, besides noting the key's state.
#[derive(Clone, Copy, Debug, PartialEq, Eq, Structural)]
pub enum KeyCommand {
    /// Nothing.
    Nothing,
    /// Leave the event loop.
    Exit,
    /// Let the camera move fast, or at its normal speed again.
    CameraSpeed { fast: bool },
    /// Grab the cursor, or let go of it.
    ToggleCursorGrab,
    /// Move the first cube by one unit along its own axes: each of `x`, `y`
    /// and `z` is -1, 0 or 1.
    MoveCube { x: i8, y: i8, z: i8 },
    /// Give the first cube a colour picked at random.
    RandomCubeColor,
}

/// The keys after `key_code` has changed to `state`. Only the keys that the
/// application follows are noted.
pub open spec fn keys_after(keys: Keys, key_code: VirtualKeyCode, state: KeyState) -> Keys {
    match key_code {
        VirtualKeyCode::W => Keys { w: state, ..keys },
        VirtualKeyCode::A => Keys { a: state, ..keys },
        VirtualKeyCode::S => Keys { s: state, ..keys },
        VirtualKeyCode::D => Keys { d: state, ..keys },
        VirtualKeyCode::Space => Keys { space: state, ..keys },
        VirtualKeyCode::LControl => Keys { l_ctrl: state, ..keys },
        VirtualKeyCode::Up => Keys { up_key: state, ..keys },
        VirtualKeyCode::Down => Keys { down_key: state, ..keys },
        VirtualKeyCode::Left => Keys { left_key: state, ..keys },
        VirtualKeyCode::Right => Keys { right_key: state, ..keys },
        _ => keys,
    }
}

/// What the application does when `key_code` changes to `state`.
///
/// Escape ends the program, pressed or released. Shift makes the camera fast
/// while it is held. The other commands are given when their key is let go.
pub open spec fn command_for(key_code: VirtualKeyCode, state: KeyState) -> KeyCommand {
    match key_code {
        VirtualKeyCode::Escape => KeyCommand::Exit,
        VirtualKeyCode::LShift => KeyCommand::CameraSpeed { fast: state == KeyState::Pressed },
        _ => if state == KeyState::Released {
            match key_code {
                VirtualKeyCode::C => KeyCommand::ToggleCursorGrab,
                VirtualKeyCode::Numpad8 => KeyCommand::MoveCube { x: 1, y: 0, z: 0 },
                VirtualKeyCode::Numpad2 => KeyCommand::MoveCube { x: (-1) as i8, y: 0, z: 0 },
                VirtualKeyCode::Numpad4 => KeyCommand::MoveCube { x: 0, y: 0, z: (-1) as i8 },
                VirtualKeyCode::Numpad6 => KeyCommand::MoveCube { x: 0, y: 0, z: 1 },
                VirtualKeyCode::Numpad9 => KeyCommand::MoveCube { x: 0, y: (-1) as i8, z: 0 },
                VirtualKeyCode::Numpad3 => KeyCommand::MoveCube { x: 0, y: 1, z: 0 },
                VirtualKeyCode::Numpad5 => KeyCommand::RandomCubeColor,
                _ => KeyCommand::Nothing,
            }
        } else {
            KeyCommand::Nothing
        },
    }
}

/// Notes the new state of a key and says what the application does about it.
pub fn handle_keyboard_input(keys: &mut Keys, key_code: VirtualKeyCode, state: KeyState) -> (command:
    KeyCommand)
    ensures
        *final(keys) == keys_after(*old(keys), key_code, state),
        command == command_for(key_code, state),
{
    match key_code {
        VirtualKeyCode::W => keys.w = state,
        VirtualKeyCode::A => keys.a = state,
        VirtualKeyCode::S => keys.s = state,
        VirtualKeyCode::D => keys.d = state,
        VirtualKeyCode::Space => keys.space = state,
        VirtualKeyCode::LControl => keys.l_ctrl = state,
        VirtualKeyCode::LShift => {
            return KeyCommand::CameraSpeed { fast: state == KeyState::Pressed };
        },
        VirtualKeyCode::Up => keys.up_key = state,
        VirtualKeyCode::Down => keys.down_key = state,
        VirtualKeyCode::Left => keys.left_key = state,
        VirtualKeyCode::Right => keys.right_key = state,
        VirtualKeyCode::Escape => {
            return KeyCommand::Exit;
        },
        _ => {},
    }
    if state == KeyState::Released {
        match key_code {
            VirtualKeyCode::C => KeyCommand::ToggleCursorGrab,
            VirtualKeyCode::Numpad8 => KeyCommand::MoveCube { x: 1, y: 0, z: 0 },
            VirtualKeyCode::Numpad2 => KeyCommand::MoveCube { x: -1, y: 0, z: 0 },
            VirtualKeyCode::Numpad4 => KeyCommand::MoveCube { x: 0, y: 0, z: -1 },
            VirtualKeyCode::Numpad6 => KeyCommand::MoveCube { x: 0, y: 0, z: 1 },
            VirtualKeyCode::Numpad9 => KeyCommand::MoveCube { x: 0, y: -1, z: 0 },
            VirtualKeyCode::Numpad3 => KeyCommand::MoveCube { x: 0, y: 1, z: 0 },
            VirtualKeyCode::Numpad5 => KeyCommand::RandomCubeColor,
            _ => KeyCommand::Nothing,
        }
    } else {
        KeyCommand::Nothing
    }
}

/// In which directions the square moves this tick.
#[derive(Clone, Copy, Debug, PartialEq, Eq, Structural)]
pub struct SquareMoves {
    pub up: bool,
    pub down: bool,
    pub left: bool,
    pub right: bool,
}

/// In which directions the square moves while `keys` are held: by an arrow
/// key, unless the letter key is held that moves the camera the same way.
pub fn update_square_position(keys: &Keys) -> (moves: SquareMoves)
    ensures
        moves == (SquareMoves {
            up: keys.up_key == KeyState::Pressed && keys.s == KeyState::Released,
            down: keys.down_key == KeyState::Pressed && keys.w == KeyState::Released,
            left: keys.left_key == KeyState::Pressed && keys.d == KeyState::Released,
            right: keys.right_key == KeyState::Pressed && keys.a == KeyState::Released,
        }),
{
    SquareMoves {
        up: keys.up_key == KeyState::Pressed && keys.s == KeyState::Released,
        down: keys.down_key == KeyState::Pressed && keys.w == KeyState::Released,
        left: keys.left_key == KeyState::Pressed && keys.d == KeyState::Released,
        right: keys.right_key == KeyState::Pressed && keys.a == KeyState::Released,
    }
}

/// One thing that the application does with the cursor.
#[derive(Clone, Copy, Debug, PartialEq, Eq, Structural)]
pub enum CursorAction {
    /// Confine the cursor to the window, or set it free.
    SetGrab { grab: bool },
    /// Show the cursor, or hide it.
    SetVisible { visible: bool },
    /// Put the cursor in the middle of the window.
    Center,
    /// Forget how far the mouse has moved since the last frame.
    ResetDelta,
    /// Add to how far the mouse has moved how far the cursor is from the
    /// middle of the window.
    AddDelta,
}

/// Whether the mouse steers the camera, and whether the cursor is over the
/// window.
#[derive(Clone, Copy, Debug, PartialEq, Eq, Structural)]
pub struct Mouse {
    pub in_window: bool,
    pub getting_grabbed: bool,
}

impl Mouse {
    /// What is done when grabbing is switched: to let go, the cursor is set
    /// free and shown; to grab, it is confined, hidden and centred, and the
    /// movement so far forgotten.
    pub open spec fn toggle_actions(self) -> Seq<CursorAction> {
        if self.getting_grabbed {
            seq![CursorAction::SetGrab { grab: false }, CursorAction::SetVisible { visible: true }]
        } else {
            seq![
                CursorAction::SetGrab { grab: true },
                CursorAction::SetVisible { visible: false },
                CursorAction::Center,
                CursorAction::ResetDelta,
            ]
        }
    }

    /// What is done when the cursor comes over the window: while grabbing,
    /// it is confined again and centred, and the movement so far forgotten.
    pub open spec fn entered_actions(self) -> Seq<CursorAction> {
        if self.getting_grabbed {
            seq![
                CursorAction::SetGrab { grab: true },
                CursorAction::Center,
                CursorAction::ResetDelta,
            ]
        } else {
            Seq::<CursorAction>::empty()
        }
    }

    /// What is done when the cursor leaves the window: while grabbing, it is
    /// set free.
    pub open spec fn left_actions(self) -> Seq<CursorAction> {
        if self.getting_grabbed {
            seq![CursorAction::SetGrab { grab: false }]
        } else {
            Seq::<CursorAction>::empty()
        }
    }

    /// What is done when the cursor has moved: while grabbing, the movement
    /// counts if the cursor is over the window, and the cursor goes back to
    /// the middle.
    pub open spec fn moved_actions(self) -> Seq<CursorAction> {
        if !self.getting_grabbed {
            Seq::<CursorAction>::empty()
        } else if self.in_window {
            seq![CursorAction::AddDelta, CursorAction::Center]
        } else {
            seq![CursorAction::Center]
        }
    }

    /// A mouse that is not grabbed, with the cursor outside the window.
    pub fn new() -> (mouse: Self)
        ensures
            mouse == (Mouse { in_window: false, getting_grabbed: false }),
    {
        Mouse { in_window: false, getting_grabbed: false }
    }

    /// Starts or stops grabbing the cursor.
    pub fn toggle_cursor_grab(&mut self) -> (actions: Vec<CursorAction>)
        ensures
            actions@ == old(self).toggle_actions(),
            *final(self) == (Mouse { getting_grabbed: !old(self).getting_grabbed, ..*old(self) }),
    {
        let mut actions: Vec<CursorAction> = Vec::new();
        if self.getting_grabbed {
            self.getting_grabbed = false;
            actions.push(CursorAction::SetGrab { grab: false });
            actions.push(CursorAction::SetVisible { visible: true });
        } else {
            self.getting_grabbed = true;
            actions.push(CursorAction::SetGrab { grab: true });
            actions.push(CursorAction::SetVisible { visible: false });
            actions.push(CursorAction::Center);
            actions.push(CursorAction::ResetDelta);
        }
        assert(actions@ =~= old(self).toggle_actions());
        actions
    }

    /// The cursor has come over the window.
    pub fn handle_cursor_entered_window(&mut self) -> (actions: Vec<CursorAction>)
        ensures
            actions@ == old(self).entered_actions(),
            *final(self) == (Mouse { in_window: true, ..*old(self) }),
    {
        let mut actions: Vec<CursorAction> = Vec::new();
        if self.getting_grabbed {
            actions.push(CursorAction::SetGrab { grab: true });
            actions.push(CursorAction::Center);
            actions.push(CursorAction::ResetDelta);
        }
        self.in_window = true;
        assert(actions@ =~= old(self).entered_actions());
        actions
    }

    /// The cursor has left the window.
    pub fn handle_cursor_left_window(&mut self) -> (actions: Vec<CursorAction>)
        ensures
            actions@ == old(self).left_actions(),
            *final(self) == (Mouse { in_window: false, ..*old(self) }),
    {
        let mut actions: Vec<CursorAction> = Vec::new();
        if self.getting_grabbed {
            actions.push(CursorAction::SetGrab { grab: false });
        }
        self.in_window = false;
        assert(actions@ =~= old(self).left_actions());
        actions
    }

    /// The cursor has moved.
    pub fn handle_mouse_movement(&self) -> (actions: Vec<CursorAction>)
        ensures
            actions@ == self.moved_actions(),
    {
        let mut actions: Vec<CursorAction> = Vec::new();
        if self.getting_grabbed {
            if self.in_window {
                actions.push(CursorAction::AddDelta);
            }
            actions.push(CursorAction::Center);
        }
        assert(actions@ =~= self.moved_actions());
        actions
    }
}

} // verus!
