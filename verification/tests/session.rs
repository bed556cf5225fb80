use gametank_libretro::buttons::{ControllerButton, InputCommand, JoypadButton, KeyState};
use gametank_libretro::session::{LoadError, Session};
use gametank_libretro::snapshot::InputSnapshot;

/// Stand-ins for the two handles that a host lends.
#[derive(Debug, PartialEq)]
struct RenderHandle(u32);

#[derive(Debug, PartialEq)]
struct FormatHandle(u32);

const CONTROLLER_BUTTONS: [ControllerButton; 8] = [
    ControllerButton::Start,
    ControllerButton::Up,
    ControllerButton::Down,
    ControllerButton::Left,
    ControllerButton::Right,
    ControllerButton::A,
    ControllerButton::B,
    ControllerButton::C,
];

fn test_palette() -> [(u8, u8, u8, u8); 256] {
    let mut palette = [(0u8, 0u8, 0u8, 255u8); 256];
    for (index, entry) in palette.iter_mut().enumerate() {
        entry.0 = index as u8;
        entry.1 = 255 - index as u8;
        entry.2 = (index as u8) ^ 0x55;
    }
    palette
}

#[test]
fn new_session_has_no_game_no_states_and_no_frame() {
    let (session, producer) = Session::<RenderHandle, FormatHandle>::new();
    assert!(!session.is_loaded());
    assert_eq!(session.framebuffer().data().len(), 0);
    assert_eq!(session.framebuffer().width(), 128);
    assert_eq!(session.framebuffer().height(), 128);
    assert_eq!(session.bindings().len(), 16);
    assert_eq!(producer.slots(), 4096);
    for button in CONTROLLER_BUTTONS {
        assert_eq!(session.key_state(InputCommand::Controller1(button)), None);
        assert_eq!(session.key_state(InputCommand::Controller2(button)), None);
    }
}

#[test]
fn load_fails_when_the_host_refuses_the_pixel_format() {
    let outcome = Session::<RenderHandle, FormatHandle>::load_game(RenderHandle(1), None);
    assert!(matches!(outcome, Err(LoadError::UnsupportedPixelFormat)));
}

#[test]
fn load_gives_a_fresh_session_that_holds_both_handles() {
    let outcome = Session::load_game(RenderHandle(1), Some(FormatHandle(2)));
    let (mut session, producer) = match outcome {
        Ok(made) => made,
        Err(error) => panic!("load failed: {:?}", error),
    };
    assert!(session.is_loaded());
    assert_eq!(session.framebuffer().data().len(), 0);
    assert_eq!(session.bindings().len(), 16);
    assert_eq!(producer.slots(), 4096);
    for button in CONTROLLER_BUTTONS {
        assert_eq!(session.key_state(InputCommand::Controller1(button)), None);
        assert_eq!(session.key_state(InputCommand::Controller2(button)), None);
    }
    let raw = [0u8; 16384];
    let handles = session.finish_frame(&raw, &test_palette());
    assert_eq!(handles, (RenderHandle(1), FormatHandle(2)));
}

#[test]
fn the_producer_of_a_loaded_session_feeds_its_own_queue() {
    let (mut session, mut producer) =
        match Session::load_game(RenderHandle(1), Some(FormatHandle(2))) {
            Ok(made) => made,
            Err(error) => panic!("load failed: {:?}", error),
        };
    let (_other, other_producer) = Session::<RenderHandle, FormatHandle>::new();
    for i in 0..100usize {
        assert!(producer.push(i as u8).is_ok());
    }
    assert_eq!(producer.slots(), 3996);
    assert_eq!(other_producer.slots(), 4096);
    let held = InputSnapshot::new();
    let _updates = session.begin_frame(&held);
    assert_eq!(producer.slots(), 4096);
}

#[test]
fn session_map_is_the_standard_map() {
    let (session, _producer) = Session::<RenderHandle, FormatHandle>::new();
    let bindings = session.bindings();
    assert_eq!(
        bindings.get(0, JoypadButton::X),
        Some(InputCommand::Controller1(ControllerButton::C))
    );
    assert_eq!(
        bindings.get(1, JoypadButton::Start),
        Some(InputCommand::Controller2(ControllerButton::Start))
    );
    assert_eq!(bindings.get(0, JoypadButton::Y), None);
    assert_eq!(bindings.get(2, JoypadButton::A), None);
}

#[test]
fn host_x_on_port_0_presses_c_on_controller_1_only() {
    let (mut session, _producer) = Session::<RenderHandle, FormatHandle>::new();
    let mut held = InputSnapshot::new();
    held.press(0, JoypadButton::X);
    let updates = session.begin_frame(&held);
    let c1 = InputCommand::Controller1(ControllerButton::C);
    assert_eq!(session.key_state(c1), Some(KeyState::new(true)));
    assert!(session.key_state(c1).unwrap().is_pressed());
    assert_eq!(updates.len(), 16);
    for (command, state) in updates {
        assert_eq!(state.is_pressed(), command == c1);
        assert_eq!(session.key_state(command), Some(state));
    }
}

#[test]
fn four_frames_read_as_the_host_button_was_held() {
    let (mut session, _producer) = Session::<RenderHandle, FormatHandle>::new();
    let command = InputCommand::Controller2(ControllerButton::A);
    let presses = [false, true, true, false];
    let mut observed: Vec<bool> = Vec::new();
    let mut states: Vec<KeyState> = Vec::new();
    for pressed in presses {
        let mut held = InputSnapshot::new();
        if pressed {
            held.press(1, JoypadButton::A);
        }
        let updates = session.begin_frame(&held);
        let state = session.key_state(command).unwrap();
        assert!(updates.contains(&(command, state)));
        observed.push(state.is_pressed());
        states.push(state);
    }
    assert_eq!(observed, vec![false, true, true, false]);
    assert_eq!(
        states,
        vec![
            KeyState { pressed: false, was_pressed: false },
            KeyState { pressed: true, was_pressed: false },
            KeyState { pressed: true, was_pressed: true },
            KeyState { pressed: false, was_pressed: true },
        ]
    );
}

#[test]
fn unbound_host_buttons_change_no_command() {
    let (mut plain, _plain_producer) = Session::<RenderHandle, FormatHandle>::new();
    let (mut noisy, _noisy_producer) = Session::<RenderHandle, FormatHandle>::new();
    let mut held = InputSnapshot::new();
    held.press(1, JoypadButton::Left);
    let mut held_and_more = InputSnapshot::new();
    held_and_more.press(1, JoypadButton::Left);
    held_and_more.press(0, JoypadButton::Y);
    held_and_more.press(0, JoypadButton::Select);
    held_and_more.press(1, JoypadButton::R3);
    held_and_more.press(2, JoypadButton::Left);
    for _ in 0..2 {
        let plain_updates = plain.begin_frame(&held);
        let noisy_updates = noisy.begin_frame(&held_and_more);
        assert_eq!(plain_updates, noisy_updates);
    }
    for button in CONTROLLER_BUTTONS {
        let first = InputCommand::Controller1(button);
        let second = InputCommand::Controller2(button);
        assert_eq!(plain.key_state(first), noisy.key_state(first));
        assert_eq!(plain.key_state(second), noisy.key_state(second));
    }
    assert_eq!(
        noisy.key_state(InputCommand::Controller2(ControllerButton::Left)),
        Some(KeyState { pressed: true, was_pressed: true })
    );
}

#[test]
fn begin_frame_throws_stale_audio_away() {
    let (mut session, mut producer) = Session::<RenderHandle, FormatHandle>::new();
    for i in 0..4096usize {
        assert!(producer.push(i as u8).is_ok());
    }
    assert!(producer.push(0).is_err());
    let held = InputSnapshot::new();
    let _updates = session.begin_frame(&held);
    assert_eq!(producer.slots(), 4096);
    assert!(producer.push(9).is_ok());
    let _updates = session.begin_frame(&held);
    assert_eq!(producer.slots(), 4096);
}

#[test]
fn a_frame_fills_the_framebuffer_and_keeps_both_handles() {
    let (mut session, _producer) =
        match Session::load_game(RenderHandle(7), Some(FormatHandle(9))) {
            Ok(made) => made,
            Err(error) => panic!("load failed: {:?}", error),
        };
    let palette = test_palette();
    let mut raw = [0u8; 16384];
    raw[0] = 3;
    raw[16383] = 250;
    for _ in 0..3 {
        let held = InputSnapshot::new();
        let _updates = session.begin_frame(&held);
        assert!(session.is_loaded());
        let (rendering_mode, pixel_format) = session.finish_frame(&raw, &palette);
        assert_eq!(rendering_mode, RenderHandle(7));
        assert_eq!(pixel_format, FormatHandle(9));
        assert!(!session.is_loaded());
        let frame = session.framebuffer();
        assert_eq!(frame.data().len(), 128 * 128 * 4);
        assert_eq!(&frame.data()[0..4], &[3 ^ 0x55, 252, 3, 255]);
        assert_eq!(&frame.data()[4..8], &[0x55, 255, 0, 255]);
        assert_eq!(&frame.data()[65532..65536], &[250 ^ 0x55, 5, 250, 255]);
        session.restore_handles(rendering_mode, pixel_format);
        assert!(session.is_loaded());
    }
}

#[test]
fn finish_frame_does_not_touch_key_states() {
    let (mut session, _producer) =
        match Session::load_game(RenderHandle(1), Some(FormatHandle(1))) {
            Ok(made) => made,
            Err(error) => panic!("load failed: {:?}", error),
        };
    let mut held = InputSnapshot::new();
    held.press(0, JoypadButton::Start);
    let _updates = session.begin_frame(&held);
    let raw = [1u8; 16384];
    let (rendering_mode, pixel_format) = session.finish_frame(&raw, &test_palette());
    session.restore_handles(rendering_mode, pixel_format);
    assert_eq!(
        session.key_state(InputCommand::Controller1(ControllerButton::Start)),
        Some(KeyState::new(true))
    );
    assert_eq!(
        session.key_state(InputCommand::Controller1(ControllerButton::Up)),
        Some(KeyState::new(false))
    );
}
