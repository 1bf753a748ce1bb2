use frame_scheduler::input::{
    handle_keyboard_input, update_square_position, CursorAction, KeyCommand, Mouse, SquareMoves,
    VirtualKeyCode,
};
use frame_scheduler::pacing::FramePacer;
use frame_scheduler::{KeyState, Keys, Pressed, Released};

#[test]
fn keys_start_released() {
    assert!(matches!(KeyState::default(), Released));
    let keys = Keys::default();
    for state in [
        keys.a, keys.w, keys.s, keys.d, keys.space, keys.l_ctrl, keys.up_key, keys.down_key, keys.left_key,
        keys.right_key,
    ] {
        assert_eq!(state, Released);
    }
}

#[test]
fn key_events_are_noted() {
    let mut keys = Keys::default();
    assert_eq!(handle_keyboard_input(&mut keys, VirtualKeyCode::W, Pressed), KeyCommand::Nothing);
    assert_eq!(handle_keyboard_input(&mut keys, VirtualKeyCode::Left, Pressed), KeyCommand::Nothing);
    assert_eq!(handle_keyboard_input(&mut keys, VirtualKeyCode::LControl, Pressed), KeyCommand::Nothing);
    assert_eq!(keys, Keys { w: Pressed, left_key: Pressed, l_ctrl: Pressed, ..Keys::default() });
    assert_eq!(handle_keyboard_input(&mut keys, VirtualKeyCode::W, Released), KeyCommand::Nothing);
    assert_eq!(keys, Keys { left_key: Pressed, l_ctrl: Pressed, ..Keys::default() });
    for (key, pick) in [
        (VirtualKeyCode::A, (|keys: &Keys| keys.a) as fn(&Keys) -> KeyState),
        (VirtualKeyCode::S, |keys: &Keys| keys.s),
        (VirtualKeyCode::D, |keys: &Keys| keys.d),
        (VirtualKeyCode::Space, |keys: &Keys| keys.space),
        (VirtualKeyCode::Up, |keys: &Keys| keys.up_key),
        (VirtualKeyCode::Down, |keys: &Keys| keys.down_key),
        (VirtualKeyCode::Right, |keys: &Keys| keys.right_key),
    ] {
        let mut keys = Keys::default();
        handle_keyboard_input(&mut keys, key, Pressed);
        assert_eq!(pick(&keys), Pressed);
        handle_keyboard_input(&mut keys, key, Released);
        assert_eq!(keys, Keys::default());
    }
}

#[test]
fn commands_come_with_their_keys() {
    let mut keys = Keys::default();
    assert_eq!(handle_keyboard_input(&mut keys, VirtualKeyCode::Escape, Pressed), KeyCommand::Exit);
    assert_eq!(handle_keyboard_input(&mut keys, VirtualKeyCode::Escape, Released), KeyCommand::Exit);
    assert_eq!(handle_keyboard_input(&mut keys, VirtualKeyCode::LShift, Pressed), KeyCommand::CameraSpeed { fast: true });
    assert_eq!(handle_keyboard_input(&mut keys, VirtualKeyCode::LShift, Released), KeyCommand::CameraSpeed { fast: false });
    let on_release = [
        (VirtualKeyCode::C, KeyCommand::ToggleCursorGrab),
        (VirtualKeyCode::Numpad8, KeyCommand::MoveCube { x: 1, y: 0, z: 0 }),
        (VirtualKeyCode::Numpad2, KeyCommand::MoveCube { x: -1, y: 0, z: 0 }),
        (VirtualKeyCode::Numpad4, KeyCommand::MoveCube { x: 0, y: 0, z: -1 }),
        (VirtualKeyCode::Numpad6, KeyCommand::MoveCube { x: 0, y: 0, z: 1 }),
        (VirtualKeyCode::Numpad9, KeyCommand::MoveCube { x: 0, y: -1, z: 0 }),
        (VirtualKeyCode::Numpad3, KeyCommand::MoveCube { x: 0, y: 1, z: 0 }),
        (VirtualKeyCode::Numpad5, KeyCommand::RandomCubeColor),
        (VirtualKeyCode::Other, KeyCommand::Nothing),
    ];
    for (key, command) in on_release {
        assert_eq!(handle_keyboard_input(&mut keys, key, Pressed), KeyCommand::Nothing);
        assert_eq!(handle_keyboard_input(&mut keys, key, Released), command);
    }
    assert_eq!(keys, Keys::default());
}

#[test]
fn the_square_yields_to_the_camera() {
    let still = SquareMoves { up: false, down: false, left: false, right: false };
    assert_eq!(update_square_position(&Keys::default()), still);
    let arrows = Keys { up_key: Pressed, down_key: Pressed, left_key: Pressed, right_key: Pressed, ..Keys::default() };
    assert_eq!(update_square_position(&arrows), SquareMoves { up: true, down: true, left: true, right: true });
    assert_eq!(update_square_position(&Keys { s: Pressed, ..arrows }), SquareMoves { up: false, down: true, left: true, right: true });
    assert_eq!(update_square_position(&Keys { w: Pressed, ..arrows }), SquareMoves { up: true, down: false, left: true, right: true });
    assert_eq!(update_square_position(&Keys { d: Pressed, ..arrows }), SquareMoves { up: true, down: true, left: false, right: true });
    assert_eq!(update_square_position(&Keys { a: Pressed, ..arrows }), SquareMoves { up: true, down: true, left: true, right: false });
    assert_eq!(update_square_position(&Keys { w: Pressed, a: Pressed, s: Pressed, d: Pressed, ..Keys::default() }), still);
}

#[test]
fn drawing_pauses_after_a_resize() {
    let milli = 1_000_000u128;
    let mut pacer = FramePacer::new();
    assert_eq!(pacer.time_until_next_fps_print, 1500 * milli);
    assert!(pacer.tick(16 * milli).draw);
    pacer.resized();
    assert_eq!(pacer.time_to_resume_drawing, 50 * milli);
    assert!(!pacer.tick(20 * milli).draw);
    assert_eq!(pacer.time_to_resume_drawing, 30 * milli);
    assert!(!pacer.tick(20 * milli).draw);
    assert!(!pacer.draw_next_frame);
    // The tick in which the pause runs out draws nothing yet; the next one does.
    assert!(!pacer.tick(10 * milli).draw);
    assert!(pacer.draw_next_frame);
    assert!(pacer.tick(1).draw);
    pacer.moved();
    assert_eq!(pacer.time_to_resume_drawing, 200 * milli);
    assert!(!pacer.tick(199 * milli).draw);
    assert!(!pacer.tick(2 * milli).draw);
    assert!(pacer.tick(0).draw);
}

#[test]
fn the_frame_rate_is_printed_every_second_and_a_half() {
    let milli = 1_000_000u128;
    let mut pacer = FramePacer::new();
    let mut prints = Vec::new();
    for tick in 1..=40 {
        if pacer.tick(100 * milli).print_fps {
            prints.push(tick);
        }
    }
    assert_eq!(prints, vec![15, 30]);
    assert_eq!(pacer.time_until_next_fps_print, 500 * milli);
    assert!(pacer.tick(10_000 * milli).print_fps);
    assert_eq!(pacer.time_until_next_fps_print, 1500 * milli);
}

#[test]
fn the_cursor_is_grabbed_and_let_go() {
    let mut mouse = Mouse::new();
    assert_eq!(mouse, Mouse { in_window: false, getting_grabbed: false });
    assert!(mouse.handle_mouse_movement().is_empty());
    assert!(mouse.handle_cursor_entered_window().is_empty());
    assert!(mouse.in_window);
    assert_eq!(
        mouse.toggle_cursor_grab(),
        vec![
            CursorAction::SetGrab { grab: true },
            CursorAction::SetVisible { visible: false },
            CursorAction::Center,
            CursorAction::ResetDelta,
        ]
    );
    assert!(mouse.getting_grabbed);
    assert_eq!(mouse.handle_mouse_movement(), vec![CursorAction::AddDelta, CursorAction::Center]);
    assert_eq!(mouse.handle_cursor_left_window(), vec![CursorAction::SetGrab { grab: false }]);
    assert!(!mouse.in_window);
    assert_eq!(mouse.handle_mouse_movement(), vec![CursorAction::Center]);
    assert_eq!(
        mouse.handle_cursor_entered_window(),
        vec![CursorAction::SetGrab { grab: true }, CursorAction::Center, CursorAction::ResetDelta]
    );
    assert_eq!(
        mouse.toggle_cursor_grab(),
        vec![CursorAction::SetGrab { grab: false }, CursorAction::SetVisible { visible: true }]
    );
    assert_eq!(mouse, Mouse { in_window: true, getting_grabbed: false });
    assert!(mouse.handle_cursor_left_window().is_empty());
}
