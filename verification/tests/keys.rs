use chip8::frame::{Frame, STEPS_PER_FRAME};
use chip8::fault::Fault;
use chip8::input::{
    check_input, check_key_down, check_key_up, interpret_event, keypad_key, Action, HostEvent,
    HostKey, Verdict,
};
use chip8::keyboard::{Keyboard, KEYS};
use chip8::machine::Chip8;
use chip8::stack::{Stack, STACK_SIZE};

fn machine_running(program: &[u8]) -> Chip8 {
    let mut chip = Chip8::new();
    assert_eq!(chip.load_rom(program), Ok(()));
    chip
}

fn go(chip: &mut Chip8, steps: usize) {
    for _ in 0..steps {
        assert_eq!(chip.step(), Ok(()));
    }
}

#[test]
fn stack_gives_back_the_newest_address_first() {
    let mut stack = Stack::new();
    assert_eq!(stack.len(), 0);
    assert_eq!(stack.push(0x202), Ok(()));
    assert_eq!(stack.push(0x304), Ok(()));
    assert_eq!(stack.len(), 2);
    assert_eq!(stack.pop(), Ok(0x304));
    assert_eq!(stack.pop(), Ok(0x202));
    assert_eq!(stack.len(), 0);
}

#[test]
fn stack_holds_twenty_four_addresses_and_no_more() {
    assert_eq!(STACK_SIZE, 24);
    let mut stack = Stack::new();
    for i in 0..24u16 {
        assert_eq!(stack.push(i), Ok(()));
    }
    assert_eq!(stack.push(99), Err(Fault::StackOverflow));
    assert_eq!(stack.len(), 24);
    for i in (0..24u16).rev() {
        assert_eq!(stack.pop(), Ok(i));
    }
    assert_eq!(stack.pop(), Err(Fault::StackUnderflow));
    assert_eq!(stack.len(), 0);
}

#[test]
fn empty_stack_underflows() {
    let mut stack = Stack::new();
    assert_eq!(stack.pop(), Err(Fault::StackUnderflow));
    assert_eq!(stack.push(7), Ok(()));
    assert_eq!(stack.pop(), Ok(7));
}

#[test]
fn keyboard_remembers_presses_and_releases() {
    assert_eq!(KEYS, 16);
    let mut keys = Keyboard::new();
    for k in 0..16u8 {
        assert!(!keys.is_pressed(k));
    }
    keys.set_key(0xF, true);
    keys.set_key(0x0, true);
    assert!(keys.is_pressed(0x0));
    assert!(keys.is_pressed(0xF));
    assert!(!keys.is_pressed(0x1));
    keys.set_key(0x0, false);
    assert!(!keys.is_pressed(0x0));
    assert!(keys.is_pressed(0xF));
}

#[test]
fn keys_pressed_lists_the_keys_lowest_first() {
    let mut keys = Keyboard::new();
    assert_eq!(keys.keys_pressed(), Vec::<u8>::new());
    keys.set_key(0xC, true);
    keys.set_key(0x3, true);
    keys.set_key(0xF, true);
    keys.set_key(0x0, true);
    assert_eq!(keys.keys_pressed(), vec![0x0, 0x3, 0xC, 0xF]);
    keys.set_key(0x0, false);
    assert_eq!(keys.keys_pressed(), vec![0x3, 0xC, 0xF]);
    for k in 0..16u8 {
        keys.set_key(k, true);
    }
    assert_eq!(keys.keys_pressed(), (0..16u8).collect::<Vec<u8>>());
}

#[test]
fn key_press_and_release_change_one_key() {
    let mut chip = Chip8::new();
    chip.key_press(0xA);
    for k in 0..16u8 {
        assert_eq!(chip.is_key_pressed(k), k == 0xA);
    }
    chip.key_press(0xA);
    assert!(chip.is_key_pressed(0xA));
    chip.key_release(0xA);
    assert!(!chip.is_key_pressed(0xA));
    chip.key_release(0xA);
    assert!(!chip.is_key_pressed(0xA));
    assert!(!chip.is_key_pressed(16));
    assert!(!chip.is_key_pressed(255));
}

#[test]
fn skip_if_key_follows_the_key_named_by_the_register() {
    let mut chip = machine_running(&[0x61, 0x07, 0xE1, 0x9E, 0xE1, 0x9E, 0x00, 0x00, 0xE1, 0xA1]);
    go(&mut chip, 2);
    assert_eq!(chip.program_counter(), 0x204);
    chip.key_press(0x7);
    go(&mut chip, 1);
    assert_eq!(chip.program_counter(), 0x208);
    go(&mut chip, 1);
    assert_eq!(chip.program_counter(), 0x20A);
}

#[test]
fn skip_if_not_key_skips_while_the_key_is_up() {
    let mut chip = machine_running(&[0x61, 0x07, 0xE1, 0xA1, 0x00, 0x00, 0xE1, 0xA1]);
    chip.key_press(0x6);
    go(&mut chip, 2);
    assert_eq!(chip.program_counter(), 0x206);
    chip.key_press(0x7);
    go(&mut chip, 1);
    assert_eq!(chip.program_counter(), 0x208);
}

#[test]
fn a_register_that_names_no_key_counts_as_not_pressed() {
    let mut chip = machine_running(&[0x61, 0x10, 0xE1, 0x9E, 0xE1, 0xA1, 0x00, 0x00, 0x62, 0xFF, 0xE2, 0x9E]);
    for k in 0..16u8 {
        chip.key_press(k);
    }
    go(&mut chip, 2);
    assert_eq!(chip.program_counter(), 0x204);
    go(&mut chip, 1);
    assert_eq!(chip.program_counter(), 0x208);
    go(&mut chip, 2);
    assert_eq!(chip.program_counter(), 0x20C);
}

#[test]
fn wait_key_repeats_until_a_key_is_down() {
    let mut chip = machine_running(&[0x65, 0xAA, 0xF5, 0x0A, 0x66, 0x01]);
    go(&mut chip, 1);
    for _ in 0..20 {
        go(&mut chip, 1);
        assert_eq!(chip.program_counter(), 0x202);
        assert_eq!(chip.register(5), 0xAA);
    }
    chip.key_press(0x9);
    go(&mut chip, 1);
    assert_eq!(chip.program_counter(), 0x204);
    assert_eq!(chip.register(5), 0x9);
    go(&mut chip, 1);
    assert_eq!(chip.register(6), 0x1);
}

#[test]
fn wait_key_takes_the_lowest_key_that_is_down() {
    let mut chip = machine_running(&[0xF5, 0x0A, 0xF6, 0x0A]);
    chip.key_press(0xB);
    chip.key_press(0x2);
    chip.key_press(0xF);
    go(&mut chip, 1);
    assert_eq!(chip.register(5), 0x2);
    chip.key_release(0x2);
    chip.key_press(0x0);
    go(&mut chip, 1);
    assert_eq!(chip.register(6), 0x0);
    assert_eq!(chip.program_counter(), 0x204);
}

#[test]
fn wait_key_after_a_release_waits_again() {
    let mut chip = machine_running(&[0xF5, 0x0A]);
    chip.key_press(0x4);
    chip.key_release(0x4);
    go(&mut chip, 3);
    assert_eq!(chip.program_counter(), 0x200);
    assert_eq!(chip.register(5), 0);
}

#[test]
fn keypad_mirrors_the_left_block_of_the_keyboard() {
    assert_eq!(keypad_key(HostKey::Num1), Some(0x1));
    assert_eq!(keypad_key(HostKey::Num2), Some(0x2));
    assert_eq!(keypad_key(HostKey::Num3), Some(0x3));
    assert_eq!(keypad_key(HostKey::Num4), Some(0xC));
    assert_eq!(keypad_key(HostKey::Q), Some(0x4));
    assert_eq!(keypad_key(HostKey::W), Some(0x5));
    assert_eq!(keypad_key(HostKey::E), Some(0x6));
    assert_eq!(keypad_key(HostKey::R), Some(0xD));
    assert_eq!(keypad_key(HostKey::A), Some(0x7));
    assert_eq!(keypad_key(HostKey::S), Some(0x8));
    assert_eq!(keypad_key(HostKey::D), Some(0x9));
    assert_eq!(keypad_key(HostKey::F), Some(0xE));
    assert_eq!(keypad_key(HostKey::Z), Some(0xA));
    assert_eq!(keypad_key(HostKey::X), Some(0x0));
    assert_eq!(keypad_key(HostKey::C), Some(0xB));
    assert_eq!(keypad_key(HostKey::V), Some(0xF));
    assert_eq!(keypad_key(HostKey::Escape), None);
    assert_eq!(keypad_key(HostKey::Other), None);
}

#[test]
fn keypad_has_one_host_key_for_each_of_its_keys() {
    let host = [
        HostKey::Num1, HostKey::Num2, HostKey::Num3, HostKey::Num4, HostKey::Q, HostKey::W,
        HostKey::E, HostKey::R, HostKey::A, HostKey::S, HostKey::D, HostKey::F, HostKey::Z,
        HostKey::X, HostKey::C, HostKey::V,
    ];
    let mut seen = [false; 16];
    for key in host {
        let k = keypad_key(key).unwrap() as usize;
        assert!(!seen[k]);
        seen[k] = true;
    }
    assert!(seen.iter().all(|s| *s));
}

#[test]
fn key_down_and_key_up_give_press_and_release() {
    assert_eq!(check_key_down(HostKey::W), Some(Action::Press(0x5)));
    assert_eq!(check_key_up(HostKey::W), Some(Action::Release(0x5)));
    assert_eq!(check_key_down(HostKey::Other), None);
    assert_eq!(check_key_up(HostKey::Other), None);
    assert_eq!(check_key_down(HostKey::Escape), None);
    assert_eq!(check_key_up(HostKey::Escape), None);
}

#[test]
fn events_are_settled_or_ignored() {
    assert_eq!(interpret_event(HostEvent::Quit), Verdict::Settled(Some(Action::Quit)));
    assert_eq!(
        interpret_event(HostEvent::KeyDown(HostKey::Escape)),
        Verdict::Settled(Some(Action::Quit))
    );
    assert_eq!(interpret_event(HostEvent::KeyUp(HostKey::Escape)), Verdict::Settled(None));
    assert_eq!(
        interpret_event(HostEvent::KeyDown(HostKey::V)),
        Verdict::Settled(Some(Action::Press(0xF)))
    );
    assert_eq!(
        interpret_event(HostEvent::KeyUp(HostKey::X)),
        Verdict::Settled(Some(Action::Release(0x0)))
    );
    assert_eq!(interpret_event(HostEvent::KeyDown(HostKey::Other)), Verdict::Settled(None));
    assert_eq!(interpret_event(HostEvent::Other), Verdict::Ignored);
}

#[test]
fn check_input_answers_with_the_first_event_that_settles() {
    assert_eq!(check_input(&[]), None);
    assert_eq!(check_input(&[HostEvent::Other, HostEvent::Other]), None);
    assert_eq!(
        check_input(&[HostEvent::Other, HostEvent::KeyDown(HostKey::Q), HostEvent::Quit]),
        Some(Action::Press(0x4))
    );
    assert_eq!(
        check_input(&[HostEvent::KeyUp(HostKey::Q), HostEvent::KeyDown(HostKey::Q)]),
        Some(Action::Release(0x4))
    );
    assert_eq!(check_input(&[HostEvent::Other, HostEvent::Quit]), Some(Action::Quit));
}

#[test]
fn check_input_stops_at_a_key_outside_the_keypad() {
    assert_eq!(
        check_input(&[HostEvent::KeyDown(HostKey::Other), HostEvent::KeyDown(HostKey::Q)]),
        None
    );
    assert_eq!(check_input(&[HostEvent::KeyUp(HostKey::Escape), HostEvent::Quit]), None);
}

fn expect_frame(frame: &Frame, quit: bool, unknown: &[u16], halted: Option<Fault>, sound: bool) {
    assert_eq!(frame.quit, quit);
    assert_eq!(frame.unknown, unknown);
    assert_eq!(frame.halted, halted);
    assert_eq!(frame.sound, sound);
}

#[test]
fn frame_takes_eight_steps_then_ticks_each_timer_once() {
    assert_eq!(STEPS_PER_FRAME, 8);
    // V1 = 3; delay = V1; sound = V1; then count V2 up in a loop.
    let mut chip = machine_running(&[0x61, 0x03, 0xF1, 0x15, 0xF1, 0x18, 0x72, 0x01, 0x12, 0x06]);
    let frame = chip.run_frame(None);
    expect_frame(&frame, false, &[], None, true);
    assert_eq!(chip.delay_timer(), 2);
    assert_eq!(chip.sound_timer(), 2);
    assert_eq!(chip.register(2), 3);
    assert_eq!(chip.program_counter(), 0x208);
    let frame = chip.run_frame(None);
    expect_frame(&frame, false, &[], None, true);
    assert_eq!(chip.register(2), 7);
    assert_eq!(chip.sound_timer(), 1);
    let frame = chip.run_frame(None);
    expect_frame(&frame, false, &[], None, false);
    assert_eq!(chip.sound_timer(), 0);
    assert_eq!(chip.delay_timer(), 0);
    let frame = chip.run_frame(None);
    expect_frame(&frame, false, &[], None, false);
    assert_eq!(chip.delay_timer(), 0);
    assert_eq!(chip.register(2), 15);
}

#[test]
fn frame_takes_the_key_event_before_the_steps() {
    let mut chip = machine_running(&[0xF5, 0x0A, 0x12, 0x02]);
    let frame = chip.run_frame(None);
    expect_frame(&frame, false, &[], None, false);
    assert_eq!(chip.program_counter(), 0x200);
    let frame = chip.run_frame(Some(Action::Press(0xD)));
    expect_frame(&frame, false, &[], None, false);
    assert_eq!(chip.register(5), 0xD);
    assert!(chip.is_key_pressed(0xD));
    assert_eq!(chip.program_counter(), 0x202);
    chip.run_frame(Some(Action::Release(0xD)));
    assert!(!chip.is_key_pressed(0xD));
}

#[test]
fn frame_stops_at_once_on_a_request_to_quit() {
    let mut chip = machine_running(&[0x61, 0x03, 0xF1, 0x15, 0x12, 0x04]);
    let frame = chip.run_frame(Some(Action::Quit));
    expect_frame(&frame, true, &[], None, false);
    assert_eq!(chip.program_counter(), 0x200);
    assert_eq!(chip.register(1), 0);
    assert_eq!(chip.delay_timer(), 0);
}

#[test]
fn frame_notes_unknown_words_and_goes_on() {
    let mut chip = machine_running(&[0xFF, 0xFF, 0x61, 0x01, 0x51, 0x21, 0x12, 0x06]);
    let frame = chip.run_frame(None);
    expect_frame(&frame, false, &[0xFFFF, 0x5121], None, false);
    assert_eq!(chip.register(1), 1);
    assert_eq!(chip.program_counter(), 0x206);
}

#[test]
fn frame_halts_on_a_stack_fault_and_leaves_the_timers() {
    let mut chip = machine_running(&[0x61, 0x09, 0xF1, 0x15, 0xF1, 0x18, 0x00, 0xEE, 0x62, 0x01]);
    let frame = chip.run_frame(None);
    expect_frame(&frame, false, &[], Some(Fault::StackUnderflow), false);
    assert_eq!(chip.delay_timer(), 9);
    assert_eq!(chip.sound_timer(), 9);
    assert_eq!(chip.program_counter(), 0x208);
    assert_eq!(chip.register(2), 0);
}

#[test]
fn frame_halts_on_a_memory_fault() {
    let mut chip = machine_running(&[0xFF, 0xFF, 0xAF, 0xFF, 0xF0, 0x33, 0x61, 0x01]);
    let frame = chip.run_frame(None);
    expect_frame(&frame, false, &[0xFFFF], Some(Fault::OutOfBounds), false);
    assert_eq!(chip.register(1), 0);
}

#[test]
fn run_steps_takes_the_number_of_steps_asked_for() {
    let mut chip = machine_running(&[0x71, 0x01, 0x12, 0x00]);
    assert_eq!(chip.run_steps(0), (vec![], None));
    assert_eq!(chip.register(1), 0);
    assert_eq!(chip.run_steps(5), (vec![], None));
    assert_eq!(chip.register(1), 3);
    assert_eq!(chip.program_counter(), 0x202);
    let mut chip = machine_running(&[0x22, 0x00]);
    assert_eq!(chip.run_steps(30), (vec![], Some(Fault::StackOverflow)));
    assert_eq!(chip.stack_depth(), 24);
}
