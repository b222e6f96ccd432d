use smolvm_graphics::input_device::{
    copy_name, set_bits, AbsInfo, DeviceIds, InputError, KeyboardConfig, PointerConfig,
    PointerOptions,
};
use smolvm_graphics::input_state::{
    control_line_accepted, input_event, keysym_to_linux, ClientInputState, InputEvent,
    PointerState, BTN_LEFT, BTN_MIDDLE, BTN_RIGHT, EV_ABS, EV_KEY, EV_REL, EV_SYN,
};
use smolvm_graphics::shm_protocol::ClientMessage;

fn ev(type_: u16, code: u16, value: u32) -> InputEvent {
    input_event(type_, code, value)
}

fn syn() -> InputEvent {
    ev(EV_SYN, 0, 0)
}

#[test]
fn keysyms_map_to_linux_key_codes() {
    assert_eq!(keysym_to_linux(0x61), Some(30));
    assert_eq!(keysym_to_linux(b'A' as u32), Some(30));
    assert_eq!(keysym_to_linux(b'Z' as u32), Some(44));
    assert_eq!(keysym_to_linux(0x21), Some(2));
    assert_eq!(keysym_to_linux(0x30), Some(11));
    assert_eq!(keysym_to_linux(0x20), Some(57));
    assert_eq!(keysym_to_linux(0xff0d), Some(28));
    assert_eq!(keysym_to_linux(0xff1b), Some(1));
    assert_eq!(keysym_to_linux(0xff08), Some(14));
    assert_eq!(keysym_to_linux(0xffe1), None);
    assert_eq!(keysym_to_linux(0x7b), None);
    for upper in b'A'..=b'Z' {
        assert_eq!(keysym_to_linux(upper as u32), keysym_to_linux(upper as u32 + 32));
    }
}

#[test]
fn key_events_only_on_state_change() {
    let mut state = ClientInputState::new();
    assert_eq!(state.send_key(30, true), vec![ev(EV_KEY, 30, 1), syn()]);
    assert!(state.send_key(30, true).is_empty());
    assert_eq!(state.key_codes(), vec![30]);
    assert_eq!(state.send_key(30, false), vec![ev(EV_KEY, 30, 0), syn()]);
    assert!(state.send_key(30, false).is_empty());
    assert!(state.key_codes().is_empty());
}

#[test]
fn release_all_releases_held_keys_and_buttons() {
    let mut state = ClientInputState::new();
    state.send_key(30, true);
    state.send_key(48, true);
    state.handle_message(ClientMessage::Pointer { x: 10, y: 10, buttons: 0b101 });
    let mut held = state.key_codes();
    held.sort();
    assert_eq!(held, vec![30, 48]);
    let batch = state.release_all();
    assert_eq!(batch.keyboard.len(), 3);
    assert_eq!(batch.keyboard[2], syn());
    let mut released = batch.keyboard[..2].to_vec();
    released.sort_by_key(|e| e.code);
    assert_eq!(released, vec![ev(EV_KEY, 30, 0), ev(EV_KEY, 48, 0)]);
    assert_eq!(batch.pointer, vec![ev(EV_KEY, BTN_LEFT, 0), ev(EV_KEY, BTN_RIGHT, 0), syn()]);
    assert!(state.key_codes().is_empty());
    assert_eq!(state.pointer_buttons(), 0);
    let batch = state.release_all();
    assert!(batch.keyboard.is_empty());
    assert!(batch.pointer.is_empty());
}

#[test]
fn absolute_pointer_clamps_and_reports_buttons_and_wheel() {
    let mut pointer = PointerState::new();
    let events = pointer.send(5000, 7, 0b0001_1011);
    assert_eq!(
        events,
        vec![
            ev(EV_ABS, 0, 1439),
            ev(EV_ABS, 1, 7),
            ev(EV_KEY, BTN_LEFT, 1),
            ev(EV_KEY, BTN_MIDDLE, 1),
            ev(EV_REL, 8, 1),
            ev(EV_REL, 8, u32::MAX),
            syn(),
        ]
    );
    assert_eq!(pointer.buttons(), 0b011);
    let events = pointer.send(3, 4000, 0b010);
    assert_eq!(events, vec![ev(EV_ABS, 0, 3), ev(EV_ABS, 1, 899), ev(EV_KEY, BTN_LEFT, 0), syn()]);
    assert_eq!(pointer.buttons(), 0b010);
}

#[test]
fn relative_pointer_sends_motion_and_skips_empty_reports() {
    let mut pointer = PointerState::new();
    assert!(pointer.send_relative(0, 0, 0).is_empty());
    let events = pointer.send_relative(-3, 4, 1);
    assert_eq!(
        events,
        vec![ev(EV_REL, 0, (-3i32) as u32), ev(EV_REL, 1, 4), ev(EV_KEY, BTN_LEFT, 1), syn()]
    );
    assert_eq!(pointer.buttons(), 1);
    assert!(pointer.send_relative(0, 0, 1).is_empty());
    assert_eq!(pointer.send_relative(0, 0, 0), vec![ev(EV_KEY, BTN_LEFT, 0), syn()]);
}

#[test]
fn control_messages_drive_input_state() {
    let mut state = ClientInputState::new();
    let batch = state.handle_message(ClientMessage::Key { keysym: 0x61, down: true });
    assert_eq!(batch.keyboard, vec![ev(EV_KEY, 30, 1), syn()]);
    assert!(batch.pointer.is_empty());
    let batch = state.handle_message(ClientMessage::Key { keysym: 0xffe1, down: true });
    assert!(batch.keyboard.is_empty());
    let batch = state.handle_message(ClientMessage::Pointer { x: 1, y: 2, buttons: 4 });
    assert_eq!(batch.pointer, vec![ev(EV_ABS, 0, 1), ev(EV_ABS, 1, 2), ev(EV_KEY, BTN_RIGHT, 1), syn()]);
    let batch = state.handle_message(ClientMessage::RelativePointer { dx: 1, dy: 0, buttons: 4 });
    assert_eq!(batch.pointer, vec![ev(EV_REL, 0, 1), syn()]);
    let batch = state.handle_message(ClientMessage::ReleaseAll);
    assert_eq!(batch.keyboard, vec![ev(EV_KEY, 30, 0), syn()]);
    assert_eq!(batch.pointer, vec![ev(EV_KEY, BTN_RIGHT, 0), syn()]);
    assert!(control_line_accepted(4096));
    assert!(!control_line_accepted(4097));
}

#[test]
fn set_bits_sets_listed_bits_and_reports_extent() {
    let mut buffer = vec![0u8; 4];
    assert_eq!(set_bits(&mut buffer, &[0, 9, 17]), Ok(3));
    assert_eq!(buffer, vec![0b1, 0b10, 0b10, 0]);
    let mut buffer = vec![0u8; 4];
    assert_eq!(set_bits(&mut buffer, &[]), Ok(0));
    assert_eq!(buffer, vec![0u8; 4]);
    let mut buffer = vec![0u8; 2];
    assert_eq!(set_bits(&mut buffer, &[1, 40, 2]), Err(InputError::InvalidParam));
    assert_eq!(buffer, vec![0b10, 0]);
}

#[test]
fn copy_name_truncates_to_buffer() {
    let mut buffer = vec![9u8; 4];
    assert_eq!(copy_name(&mut buffer, b"ab"), Ok(2));
    assert_eq!(buffer, vec![b'a', b'b', 9, 9]);
    let mut buffer = vec![0u8; 3];
    assert_eq!(copy_name(&mut buffer, b"abcdef"), Ok(3));
    assert_eq!(buffer, b"abc".to_vec());
    let mut buffer = vec![0u8; 300];
    assert_eq!(copy_name(&mut buffer, &[7u8; 300]), Ok(255));
    assert_eq!(buffer[254], 7);
    assert_eq!(buffer[255], 0);
}

#[test]
fn keyboard_device_capabilities() {
    let keyboard = KeyboardConfig;
    let mut name = vec![0u8; 64];
    assert_eq!(keyboard.query_device_name(&mut name), Ok(24));
    assert_eq!(&name[..24], b"SmolVM LocalShm Keyboard");
    let mut serial = vec![0u8; 64];
    assert_eq!(keyboard.query_serial_name(&mut serial), Ok(15));
    assert_eq!(&serial[..15], b"SMOLVM-LSHM-KBD");
    let mut ids = DeviceIds { bustype: 0, vendor: 0, product: 0, version: 0 };
    assert_eq!(keyboard.query_device_ids(&mut ids), Ok(()));
    assert_eq!(ids, DeviceIds { bustype: 6, vendor: 0x534d, product: 2, version: 1 });
    let mut bitmap = vec![0u8; 64];
    assert_eq!(keyboard.query_event_capabilities(0, &mut bitmap), Ok(1));
    assert_eq!(bitmap[0], 1);
    let mut bitmap = vec![0u8; 64];
    assert_eq!(keyboard.query_event_capabilities(1, &mut bitmap), Ok(32));
    assert_eq!(bitmap[0], 0xfe);
    assert_eq!(bitmap[30], 0xff);
    assert_eq!(bitmap[31], 0x01);
    let mut bitmap = vec![0u8; 64];
    assert_eq!(keyboard.query_event_capabilities(2, &mut bitmap), Ok(0));
    assert!(bitmap.iter().all(|b| *b == 0));
    let mut small = vec![0u8; 8];
    assert_eq!(keyboard.query_event_capabilities(1, &mut small), Err(InputError::InvalidParam));
    let mut props = vec![0u8; 4];
    assert_eq!(keyboard.query_properties(&mut props), Ok(0));
}

#[test]
fn pointer_device_capabilities() {
    let pointer = PointerConfig(PointerOptions { width: 1440, height: 900 });
    let mut name = vec![0u8; 64];
    assert_eq!(pointer.query_device_name(&mut name), Ok(23));
    assert_eq!(&name[..23], b"SmolVM LocalShm Pointer");
    let mut ids = DeviceIds { bustype: 0, vendor: 0, product: 0, version: 0 };
    assert_eq!(pointer.query_device_ids(&mut ids), Ok(()));
    assert_eq!(ids.product, 3);
    let mut bitmap = vec![0u8; 64];
    assert_eq!(pointer.query_event_capabilities(1, &mut bitmap), Ok(35));
    assert_eq!(bitmap[34], 0b111);
    let mut bitmap = vec![0u8; 64];
    assert_eq!(pointer.query_event_capabilities(2, &mut bitmap), Ok(2));
    assert_eq!(&bitmap[..2], &[0b11, 0b1]);
    let mut bitmap = vec![0u8; 64];
    assert_eq!(pointer.query_event_capabilities(3, &mut bitmap), Ok(1));
    assert_eq!(bitmap[0], 0b11);
    let mut info = AbsInfo { min: 9, max: 9, fuzz: 9, flat: 9, res: 9 };
    assert_eq!(pointer.query_abs_info(0, &mut info), Ok(()));
    assert_eq!(info, AbsInfo { min: 0, max: 1439, fuzz: 0, flat: 0, res: 0 });
    assert_eq!(pointer.query_abs_info(1, &mut info), Ok(()));
    assert_eq!(info.max, 899);
    assert_eq!(pointer.query_abs_info(5, &mut info), Ok(()));
    assert_eq!(info.max, 0);
    let empty = PointerConfig(PointerOptions { width: 0, height: 0 });
    assert_eq!(empty.query_abs_info(0, &mut info), Ok(()));
    assert_eq!(info.max, 0);
    let mut props = vec![0u8; 4];
    assert_eq!(pointer.query_properties(&mut props), Ok(1));
    assert_eq!(props[0], 1);
}

#[test]
fn release_all_message_without_held_buttons_sends_no_pointer_events() {
    let mut state = ClientInputState::new();
    state.handle_message(ClientMessage::Key { keysym: 0x61, down: true });
    let batch = state.handle_message(ClientMessage::ReleaseAll);
    assert_eq!(batch.keyboard, vec![ev(EV_KEY, 30, 0), syn()]);
    assert!(batch.pointer.is_empty());
    assert!(state.key_codes().is_empty());
    assert_eq!(state.pointer_buttons(), 0);
    state.handle_message(ClientMessage::Pointer { x: 0, y: 0, buttons: 0b011 });
    let batch = state.handle_message(ClientMessage::ReleaseAll);
    assert!(batch.keyboard.is_empty());
    assert_eq!(batch.pointer, vec![ev(EV_KEY, BTN_LEFT, 0), ev(EV_KEY, BTN_MIDDLE, 0), syn()]);
}

#[test]
fn pointer_state_keeps_only_button_bits() {
    let mut pointer = PointerState::new();
    pointer.send(0, 0, 0xff);
    assert_eq!(pointer.buttons(), 7);
    assert!(pointer.send_relative(0, 0, 0x0f).is_empty());
    assert_eq!(pointer.buttons(), 7);
    assert_eq!(
        pointer.release_all(),
        vec![ev(EV_KEY, BTN_LEFT, 0), ev(EV_KEY, BTN_MIDDLE, 0), ev(EV_KEY, BTN_RIGHT, 0), syn()]
    );
    assert_eq!(pointer.buttons(), 0);
}
