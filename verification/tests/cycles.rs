use rusty_chip8::{Chip8, Control, Fault, HostEvent, Key, Mode, Step};

fn machine_with(program: &[u8]) -> Chip8 {
    let mut emu = Chip8::new();
    assert!(emu.load_program(program));
    emu
}

#[test]
fn three_cycles_add_v1_into_v0() {
    let mut emu = machine_with(&[0x60, 0x05, 0x61, 0x03, 0x80, 0x14]);
    for _ in 0..3 {
        assert_eq!(emu.cycle(), Ok(Step::Executed));
    }
    assert_eq!(emu.register(0), 8);
    assert_eq!(emu.register(0xF), 0);
    assert_eq!(emu.pc(), 0x206);
}

#[test]
fn call_then_immediate_return() {
    let mut emu = machine_with(&[0x22, 0x08, 0, 0, 0, 0, 0, 0, 0x00, 0xEE]);
    assert_eq!(emu.cycle(), Ok(Step::Executed));
    assert_eq!(emu.pc(), 0x208);
    assert_eq!(emu.sp(), 1);
    assert_eq!(emu.cycle(), Ok(Step::Executed));
    assert_eq!(emu.sp(), 0);
    assert_eq!(emu.pc(), 0x202);
}

#[test]
fn cycle_ticks_timers_after_the_instruction() {
    // V3 = 2; delay = V3; sound = V3; V4 = delay
    let mut emu = machine_with(&[0x63, 0x02, 0xF3, 0x15, 0xF3, 0x18, 0xF4, 0x07]);
    assert_eq!(emu.cycle(), Ok(Step::Executed));
    assert_eq!(emu.cycle(), Ok(Step::Executed));
    assert_eq!(emu.delay_timer(), 1);
    assert_eq!(emu.cycle(), Ok(Step::Executed));
    assert_eq!(emu.delay_timer(), 0);
    assert_eq!(emu.sound_timer(), 1);
    assert!(emu.is_audible());
    assert_eq!(emu.cycle(), Ok(Step::Executed));
    assert_eq!(emu.register(4), 0);
    assert_eq!(emu.sound_timer(), 0);
}

#[test]
fn every_instruction_is_dispatched() {
    let mut emu = Chip8::new();
    assert!(emu.decode_and_execute(0x6A12));
    assert_eq!(emu.register(0xA), 0x12);
    assert!(emu.decode_and_execute(0x7A01));
    assert_eq!(emu.register(0xA), 0x13);
    assert!(emu.decode_and_execute(0x8BA0));
    assert_eq!(emu.register(0xB), 0x13);
    assert!(emu.decode_and_execute(0x6C0C));
    assert!(emu.decode_and_execute(0x8BC1));
    assert_eq!(emu.register(0xB), 0x1F);
    assert!(emu.decode_and_execute(0x8BC2));
    assert_eq!(emu.register(0xB), 0x0C);
    assert!(emu.decode_and_execute(0x8BA3));
    assert_eq!(emu.register(0xB), 0x1F);
    assert!(emu.decode_and_execute(0x8BA4));
    assert_eq!(emu.register(0xB), 0x32);
    assert!(emu.decode_and_execute(0x8BA5));
    assert_eq!(emu.register(0xB), 0x1F);
    assert!(emu.decode_and_execute(0x8B06));
    assert_eq!(emu.register(0xB), 0x0F);
    assert_eq!(emu.register(0xF), 1);
    assert!(emu.decode_and_execute(0x8BA7));
    assert_eq!(emu.register(0xB), 0x04);
    assert!(emu.decode_and_execute(0x8B0E));
    assert_eq!(emu.register(0xB), 0x08);
    assert_eq!(emu.register(0xF), 0);
    assert_eq!(emu.pc(), 0x200 + 2 * 12);

    assert!(emu.decode_and_execute(0x3B08));
    assert_eq!(emu.pc(), 0x21C);
    assert!(emu.decode_and_execute(0x4B08));
    assert_eq!(emu.pc(), 0x21E);
    assert!(emu.decode_and_execute(0x5AB0));
    assert_eq!(emu.pc(), 0x220);
    assert!(emu.decode_and_execute(0x9AB0));
    assert_eq!(emu.pc(), 0x224);

    assert!(emu.decode_and_execute(0xA123));
    assert_eq!(emu.i(), 0x123);
    assert!(emu.decode_and_execute(0xFB1E));
    assert_eq!(emu.i(), 0x12B);
    assert!(emu.decode_and_execute(0xFB29));
    assert_eq!(emu.i(), 40);
    assert!(emu.decode_and_execute(0xA300));
    assert!(emu.decode_and_execute(0xFA33));
    assert_eq!([emu.memory(0x300), emu.memory(0x301), emu.memory(0x302)], [0, 1, 9]);
    assert!(emu.decode_and_execute(0xF155));
    assert_eq!([emu.memory(0x300), emu.memory(0x301), emu.memory(0x302)], [0, 0, 9]);
    assert!(emu.decode_and_execute(0x6177));
    assert!(emu.decode_and_execute(0xF165));
    assert_eq!(emu.register(1), 0);

    assert!(emu.decode_and_execute(0xFA15));
    assert_eq!(emu.delay_timer(), 0x13);
    assert!(emu.decode_and_execute(0xFA18));
    assert_eq!(emu.sound_timer(), 0x13);
    assert!(emu.decode_and_execute(0xF207));
    assert_eq!(emu.register(2), 0x13);

    assert!(emu.decode_and_execute(0xC500));
    assert_eq!(emu.register(5), 0);

    let pc = emu.pc();
    assert!(emu.decode_and_execute(0xEB9E));
    assert_eq!(emu.pc(), pc + 2);
    assert!(emu.decode_and_execute(0xEBA1));
    assert_eq!(emu.pc(), pc + 6);

    assert!(emu.decode_and_execute(0xA000));
    assert!(emu.decode_and_execute(0xD005));
    assert_eq!(emu.pixel(0), 1);
    assert!(emu.decode_and_execute(0x00E0));
    assert_eq!(emu.pixel(0), 0);

    assert!(emu.decode_and_execute(0x2400));
    assert_eq!(emu.pc(), 0x400);
    assert_eq!(emu.sp(), 1);
    assert!(emu.decode_and_execute(0x00EE));
    assert_eq!(emu.pc(), pc + 14);
    assert!(emu.decode_and_execute(0x1ABC));
    assert_eq!(emu.pc(), 0xABC);
    assert!(emu.decode_and_execute(0x6003));
    assert!(emu.decode_and_execute(0xB200));
    assert_eq!(emu.pc(), 0x203);

    assert!(emu.decode_and_execute(0xF70A));
    assert_eq!(emu.mode(), Mode::AwaitingKey { register: 7 });
    assert_eq!(emu.pc(), 0x203);
}

#[test]
fn unknown_opcode_is_skipped_and_reported() {
    for opcode in [0x0000u16, 0x0123, 0x8128, 0xE100, 0xF1FF] {
        let mut emu = Chip8::new();
        emu.set_register(1, 0x55);
        assert!(!emu.decode_and_execute(opcode));
        assert_eq!(emu.pc(), 0x202);
        assert_eq!(emu.register(1), 0x55);
        assert_eq!(emu.sp(), 0);
    }
    let mut emu = machine_with(&[0x81, 0x28, 0x61, 0x07]);
    emu.set_delay_timer(4);
    assert_eq!(emu.cycle(), Ok(Step::UnknownOpcode));
    assert_eq!(emu.pc(), 0x202);
    assert_eq!(emu.delay_timer(), 3);
    assert_eq!(emu.cycle(), Ok(Step::Executed));
    assert_eq!(emu.register(1), 7);
}

#[test]
fn strict_machine_refuses_unknown_opcode() {
    let mut emu = machine_with(&[0x81, 0x28]);
    emu.set_strict(true);
    emu.set_delay_timer(4);
    assert_eq!(emu.cycle(), Err(Fault::UnknownOpcode));
    assert_eq!(emu.pc(), 0x200);
    assert_eq!(emu.delay_timer(), 4);
    emu.set_strict(false);
    assert_eq!(emu.cycle(), Ok(Step::UnknownOpcode));
}

#[test]
fn pc_beyond_memory_is_a_fault() {
    let mut emu = Chip8::new();
    emu.set_pc(0xFFF);
    assert_eq!(emu.cycle(), Err(Fault::PcOutOfBounds));
    assert_eq!(emu.pc(), 0xFFF);
    emu.set_pc(0xFFFF);
    assert_eq!(emu.cycle(), Err(Fault::PcOutOfBounds));
    emu.set_pc(0xFFE);
    emu.set_memory(0xFFE, 0x61);
    emu.set_memory(0xFFF, 0x01);
    assert_eq!(emu.cycle(), Ok(Step::Executed));
    assert_eq!(emu.pc(), 0x1000);
}

#[test]
fn return_on_empty_stack_is_a_fault() {
    let mut emu = machine_with(&[0x00, 0xEE]);
    assert_eq!(emu.fault_of(0x00EE), Some(Fault::StackUnderflow));
    assert_eq!(emu.cycle(), Err(Fault::StackUnderflow));
    assert_eq!(emu.pc(), 0x200);
    assert_eq!(emu.sp(), 0);
}

#[test]
fn seventeenth_call_is_a_fault() {
    // 0x200: call 0x200
    let mut emu = machine_with(&[0x22, 0x00]);
    emu.set_delay_timer(100);
    for depth in 0..16 {
        assert_eq!(emu.sp(), depth);
        assert_eq!(emu.cycle(), Ok(Step::Executed));
    }
    assert_eq!(emu.sp(), 16);
    assert_eq!(emu.cycle(), Err(Fault::StackOverflow));
    assert_eq!(emu.sp(), 16);
    assert_eq!(emu.pc(), 0x200);
    assert_eq!(emu.delay_timer(), 84);
}

#[test]
fn font_address_of_a_value_above_f_is_a_fault() {
    let mut emu = machine_with(&[0x61, 0x10, 0xF1, 0x29]);
    assert_eq!(emu.cycle(), Ok(Step::Executed));
    assert_eq!(emu.cycle(), Err(Fault::InvalidDigit));
    assert_eq!(emu.pc(), 0x202);
    assert_eq!(emu.i(), 0);
}

#[test]
fn key_test_of_a_value_above_f_is_a_fault() {
    let mut emu = machine_with(&[0x61, 0x10, 0xE1, 0x9E]);
    assert_eq!(emu.cycle(), Ok(Step::Executed));
    assert_eq!(emu.cycle(), Err(Fault::InvalidKey));
    assert_eq!(emu.fault_of(0xE1A1), Some(Fault::InvalidKey));
    assert_eq!(emu.fault_of(0xE19F), None);
    assert_eq!(emu.pc(), 0x202);
}

#[test]
fn memory_access_beyond_the_end_is_a_fault() {
    let mut emu = Chip8::new();
    emu.set_i(0xFFE);
    assert_eq!(emu.fault_of(0xF033), Some(Fault::MemoryOutOfBounds));
    assert_eq!(emu.fault_of(0xF155), None);
    assert_eq!(emu.fault_of(0xF255), Some(Fault::MemoryOutOfBounds));
    assert_eq!(emu.fault_of(0xF265), Some(Fault::MemoryOutOfBounds));
    assert_eq!(emu.fault_of(0xD002), None);
    assert_eq!(emu.fault_of(0xD003), Some(Fault::MemoryOutOfBounds));
    emu.set_i(0xFFFF);
    assert_eq!(emu.fault_of(0xD000), None);
    assert_eq!(emu.fault_of(0xD001), Some(Fault::MemoryOutOfBounds));
    assert_eq!(emu.fault_of(0x6123), None);

    let mut emu = machine_with(&[0xAF, 0xFE, 0xF0, 0x33]);
    assert_eq!(emu.cycle(), Ok(Step::Executed));
    assert_eq!(emu.cycle(), Err(Fault::MemoryOutOfBounds));
    assert_eq!(emu.pc(), 0x202);
    assert_eq!(emu.memory(0xFFE), 0);
}

#[test]
fn wait_for_key_suspends_until_a_key_goes_down() {
    // wait into V5; V6 = 1
    let mut emu = machine_with(&[0xF5, 0x0A, 0x66, 0x01]);
    emu.set_delay_timer(10);
    assert_eq!(emu.cycle(), Ok(Step::AwaitingKey));
    assert_eq!(emu.mode(), Mode::AwaitingKey { register: 5 });
    assert_eq!(emu.pc(), 0x200);
    assert_eq!(emu.delay_timer(), 10);

    assert_eq!(emu.cycle(), Ok(Step::AwaitingKey));
    assert_eq!(emu.pc(), 0x200);
    assert_eq!(emu.delay_timer(), 10);

    emu.set_key(0xD, true);
    emu.key_event(Key::R, false);
    assert!(!emu.key(0xD));
    assert_eq!(emu.mode(), Mode::AwaitingKey { register: 5 });
    assert_eq!(emu.pc(), 0x200);

    emu.key_event(Key::R, true);
    assert_eq!(emu.mode(), Mode::Running);
    assert_eq!(emu.register(5), 0xD);
    assert!(emu.key(0xD));
    assert_eq!(emu.pc(), 0x202);
    assert_eq!(emu.delay_timer(), 9);

    assert_eq!(emu.cycle(), Ok(Step::Executed));
    assert_eq!(emu.register(6), 1);
}

#[test]
fn wait_for_key_ends_on_a_key_that_is_not_on_the_keypad() {
    let mut emu = machine_with(&[0xF5, 0x0A]);
    emu.set_register(5, 0x42);
    assert_eq!(emu.cycle(), Ok(Step::AwaitingKey));
    emu.key_event(Key::Other, true);
    assert_eq!(emu.mode(), Mode::Running);
    assert_eq!(emu.register(5), 0x42);
    assert_eq!(emu.pc(), 0x202);
}

#[test]
fn key_event_on_a_running_machine_only_records_the_key() {
    let mut emu = Chip8::new();
    emu.set_delay_timer(3);
    emu.key_event(Key::X, true);
    assert!(emu.key(0));
    assert_eq!(emu.pc(), 0x200);
    assert_eq!(emu.delay_timer(), 3);
    emu.key_event(Key::X, false);
    assert!(!emu.key(0));
}

#[test]
fn keyboard_maps_to_the_keypad() {
    let layout = [
        (Key::Num1, 0x1u8),
        (Key::Num2, 0x2),
        (Key::Num3, 0x3),
        (Key::Num4, 0xC),
        (Key::Q, 0x4),
        (Key::W, 0x5),
        (Key::E, 0x6),
        (Key::R, 0xD),
        (Key::A, 0x7),
        (Key::S, 0x8),
        (Key::D, 0x9),
        (Key::F, 0xE),
        (Key::Z, 0xA),
        (Key::X, 0x0),
        (Key::C, 0xB),
        (Key::V, 0xF),
    ];
    for (key, index) in layout {
        assert_eq!(Chip8::map_key(key), Some(index));
        let mut emu = Chip8::new();
        emu.handle_keypress(key, true);
        for k in 0..16 {
            assert_eq!(emu.key(k), k == index as usize);
        }
        emu.handle_keypress(key, false);
        assert!(!emu.key(index as usize));
    }
    assert_eq!(Chip8::map_key(Key::Escape), None);
    assert_eq!(Chip8::map_key(Key::Other), None);
    let mut emu = Chip8::new();
    emu.handle_keypress(Key::Other, true);
    emu.handle_keypress(Key::Escape, true);
    for k in 0..16 {
        assert!(!emu.key(k));
    }
}

#[test]
fn host_events_steer_the_run_loop() {
    let mut emu = Chip8::new();
    assert_eq!(emu.handle_event(HostEvent::Idle), Control::Drained);
    assert_eq!(emu.handle_event(HostEvent::Other), Control::Continue);
    assert_eq!(emu.handle_event(HostEvent::Quit), Control::Stop);
    assert_eq!(
        emu.handle_event(HostEvent::Key { key: Key::Escape, pressed: true }),
        Control::Stop
    );
    assert_eq!(
        emu.handle_event(HostEvent::Key { key: Key::Escape, pressed: false }),
        Control::Stop
    );
    assert_eq!(
        emu.handle_event(HostEvent::Key { key: Key::W, pressed: true }),
        Control::Continue
    );
    assert!(emu.key(0x5));
    assert_eq!(
        emu.handle_event(HostEvent::Key { key: Key::W, pressed: false }),
        Control::Continue
    );
    assert!(!emu.key(0x5));
    assert_eq!(emu.pc(), 0x200);
}

#[test]
fn host_key_event_resumes_a_waiting_machine() {
    let mut emu = machine_with(&[0xF0, 0x0A]);
    assert_eq!(emu.cycle(), Ok(Step::AwaitingKey));
    assert_eq!(
        emu.handle_event(HostEvent::Key { key: Key::Escape, pressed: true }),
        Control::Stop
    );
    assert_eq!(emu.mode(), Mode::AwaitingKey { register: 0 });
    assert_eq!(
        emu.handle_event(HostEvent::Key { key: Key::V, pressed: true }),
        Control::Continue
    );
    assert_eq!(emu.mode(), Mode::Running);
    assert_eq!(emu.register(0), 0xF);
    assert_eq!(emu.pc(), 0x202);
}
