use weathervane::bitplane::{decode_level, encode_four_level, encode_monochrome};
use weathervane::bus::{BusOp, Level, OutputLine};
use weathervane::busy::{BusyStep, BusyWait, POLL_INTERVAL_MS};
use weathervane::command::{push_command, Command};
use weathervane::panel::{
    Display, PanelError, PanelState, DISPLAY_HEIGHT, DISPLAY_WIDTH, PLANE_BYTES,
};

fn commands_in(ops: &[BusOp]) -> Vec<u8> {
    ops.iter()
        .filter_map(|op| match op {
            BusOp::WriteCommand(c) => Some(*c),
            _ => None,
        })
        .collect()
}

fn ready_display() -> Display {
    let mut display = Display::new();
    display.init();
    display
}

#[test]
fn command_bytes_follow_the_table() {
    assert_eq!(Command::SetGateNumber.get_bytes(), (0x01, vec![0xDF, 0x01, 0x00]));
    assert_eq!(Command::PowerOff.get_bytes(), (0x02, vec![]));
    assert_eq!(Command::Sleep.get_bytes(), (0x07, vec![0xA5]));
    assert_eq!(
        Command::SetBoosterStrength.get_bytes(),
        (0x0C, vec![0xAE, 0xC7, 0xC3, 0xC0, 0xC0])
    );
    assert_eq!(Command::UpdateSequence(0xCF).get_bytes(), (0x22, vec![0xCF]));
    assert_eq!(Command::WriteRegister1(vec![1, 2, 3]).get_bytes(), (0x24, vec![1, 2, 3]));
    assert_eq!(
        Command::SetXRamPosition([0x00, 0x00, 0x17, 0x01]).get_bytes(),
        (0x44, vec![0x00, 0x00, 0x17, 0x01])
    );
    assert_eq!(Command::Unknown0x4E.get_bytes(), (0x4E, vec![0x00, 0x00]));
    assert_eq!(Command::Unknown0x50.get_bytes(), (0x50, vec![0xF7]));
}

#[test]
fn only_activation_and_two_init_steps_block() {
    assert!(Command::Display.is_blocking());
    assert!(Command::Unknown0x46.is_blocking());
    assert!(Command::Unknown0x47.is_blocking());
    assert!(!Command::Unknown0x12.is_blocking());
    assert!(!Command::WriteRegister2(vec![0]).is_blocking());
    assert!(!Command::PowerOff.is_blocking());
}

#[test]
fn command_without_payload_keeps_line_low() {
    let mut ops = Vec::new();
    push_command(&mut ops, &Command::PowerOff);
    assert_eq!(
        ops,
        vec![
            BusOp::SetLevel(OutputLine::DataCommand, Level::Low),
            BusOp::WriteCommand(0x02),
        ]
    );
}

#[test]
fn blocking_command_waits_for_the_panel() {
    let mut ops = Vec::new();
    push_command(&mut ops, &Command::Unknown0x46);
    assert_eq!(
        ops,
        vec![
            BusOp::SetLevel(OutputLine::DataCommand, Level::Low),
            BusOp::WriteCommand(0x46),
            BusOp::SetLevel(OutputLine::DataCommand, Level::High),
            BusOp::WriteData(vec![0xF7]),
            BusOp::AwaitReady,
        ]
    );
}

#[test]
fn long_payload_is_sent_in_bursts() {
    let payload: Vec<u8> = (0..10000u32).map(|i| (i % 251) as u8).collect();
    let mut ops = vec![BusOp::Delay(1)];
    push_command(&mut ops, &Command::WriteRegister1(payload.clone()));
    assert_eq!(ops.len(), 1 + 2 + 1 + 3);
    assert_eq!(ops[3], BusOp::SetLevel(OutputLine::DataCommand, Level::High));
    assert_eq!(ops[4], BusOp::WriteData(payload[..4096].to_vec()));
    assert_eq!(ops[5], BusOp::WriteData(payload[4096..8192].to_vec()));
    assert_eq!(ops[6], BusOp::WriteData(payload[8192..].to_vec()));
}

#[test]
fn payload_of_exactly_one_burst() {
    let payload = vec![7u8; 4096];
    let mut ops = Vec::new();
    push_command(&mut ops, &Command::WriteRegister2(payload.clone()));
    assert_eq!(ops.len(), 4);
    assert_eq!(ops[3], BusOp::WriteData(payload));
}

#[test]
fn encoding_is_deterministic() {
    let mut first = Vec::new();
    let mut second = Vec::new();
    push_command(&mut first, &Command::WriteRegister1(vec![9, 8, 7]));
    push_command(&mut second, &Command::WriteRegister1(vec![9, 8, 7]));
    assert_eq!(first, second);
}

#[test]
fn all_black_frame_sets_every_bit() {
    let pixels = vec![0u8; DISPLAY_WIDTH * DISPLAY_HEIGHT];
    let (plane1, plane2) = encode_four_level(&pixels);
    assert_eq!(plane1.len(), PLANE_BYTES);
    assert_eq!(plane2.len(), PLANE_BYTES);
    assert!(plane1.iter().all(|&b| b == 0xFF));
    assert!(plane2.iter().all(|&b| b == 0xFF));
}

#[test]
fn four_levels_map_to_bit_pairs() {
    let pixels = vec![0, 1, 2, 3, 3, 2, 1, 0, 1];
    let (plane1, plane2) = encode_four_level(&pixels);
    assert_eq!(plane1, vec![0b1010_0101, 0b0000_0000]);
    assert_eq!(plane2, vec![0b1100_0011, 0b1000_0000]);
}

#[test]
fn four_level_round_trip() {
    let pixels: Vec<u8> = (0..101u32).map(|i| ((i * 7 + i / 3) % 4) as u8).collect();
    let (plane1, plane2) = encode_four_level(&pixels);
    assert_eq!(plane1.len(), (pixels.len() + 7) / 8);
    assert_eq!(plane2.len(), (pixels.len() + 7) / 8);
    for (i, &level) in pixels.iter().enumerate() {
        assert_eq!(decode_level(&plane1, &plane2, i), level);
    }
}

#[test]
fn empty_buffer_gives_empty_planes() {
    let (plane1, plane2) = encode_four_level(&vec![]);
    assert!(plane1.is_empty());
    assert!(plane2.is_empty());
    assert!(encode_monochrome(&vec![]).is_empty());
}

#[test]
fn monochrome_sets_white_bits() {
    let pixels = vec![1, 0, 0, 1, 1, 1, 0, 0, 1, 1];
    assert_eq!(encode_monochrome(&pixels), vec![0b1001_1100, 0b1100_0000]);
}

#[test]
fn init_starts_with_reset_pulse() {
    let mut display = Display::new();
    assert_eq!(display.state(), PanelState::Off);
    let ops = display.init();
    assert_eq!(display.state(), PanelState::Ready);
    assert_eq!(
        ops[..6].to_vec(),
        vec![
            BusOp::SetLevel(OutputLine::Reset, Level::High),
            BusOp::Delay(30),
            BusOp::SetLevel(OutputLine::Reset, Level::Low),
            BusOp::Delay(3),
            BusOp::SetLevel(OutputLine::Reset, Level::High),
            BusOp::Delay(30),
        ]
    );
    assert_eq!(ops[6], BusOp::SetLevel(OutputLine::DataCommand, Level::Low));
    assert_eq!(ops[7], BusOp::WriteCommand(0x12));
    assert_eq!(ops[8], BusOp::Delay(300));
    assert_eq!(
        commands_in(&ops),
        vec![0x12, 0x46, 0x47, 0x01, 0x03, 0x04, 0x11, 0x3C, 0x0C, 0x18, 0x2C, 0x37, 0x44, 0x45, 0x22]
    );
}

#[test]
fn draw_resets_pointer_before_each_register_and_loads_table_last() {
    let mut display = ready_display();
    let plane1 = vec![0x0F; PLANE_BYTES];
    let plane2 = vec![0xF0; PLANE_BYTES];
    let ops = display.draw(&plane1, &plane2).unwrap();
    assert_eq!(
        commands_in(&ops),
        vec![0x49, 0x4E, 0x4F, 0x24, 0x4E, 0x4F, 0x26, 0x32, 0x22, 0x20]
    );
    assert_eq!(ops.last(), Some(&BusOp::AwaitReady));
    let table_at = ops.iter().position(|op| *op == BusOp::WriteCommand(0x32)).unwrap();
    match &ops[table_at + 2] {
        BusOp::WriteData(table) => {
            assert_eq!(table.len(), 105);
            assert_eq!(&table[..3], &[0x2A, 0x06, 0x15]);
            assert_eq!(&table[100..], &[0x22; 5]);
        }
        other => panic!("unexpected {:?}", other),
    }
    assert_eq!(display.state(), PanelState::Ready);
}

#[test]
fn draw_before_init_is_refused() {
    let mut display = Display::new();
    let plane = vec![0; PLANE_BYTES];
    assert_eq!(display.draw(&plane, &plane), Err(PanelError::NotReady));
    assert_eq!(display.clear(), Err(PanelError::NotReady));
    assert_eq!(display.sleep(), Err(PanelError::NotReady));
}

#[test]
fn draw_with_wrong_plane_length_is_refused() {
    let mut display = ready_display();
    let good = vec![0; PLANE_BYTES];
    let bad = vec![0; PLANE_BYTES - 1];
    assert_eq!(display.draw(&good, &bad), Err(PanelError::WrongLength));
    assert_eq!(display.draw(&bad, &good), Err(PanelError::WrongLength));
}

#[test]
fn clear_draws_full_planes() {
    let mut display = ready_display();
    let full = vec![0xFF; PLANE_BYTES];
    let mut other = ready_display();
    assert_eq!(display.clear(), other.draw(&full, &full));
}

#[test]
fn render_encodes_and_draws() {
    let mut display = ready_display();
    let pixels: Vec<u8> = (0..DISPLAY_WIDTH * DISPLAY_HEIGHT).map(|i| (i % 4) as u8).collect();
    let (plane1, plane2) = encode_four_level(&pixels);
    let mut other = ready_display();
    assert_eq!(display.render(&pixels), other.draw(&plane1, &plane2));
    assert_eq!(display.render(&vec![0; 10]), Err(PanelError::WrongLength));
}

#[test]
fn sleep_leaves_both_lines_low() {
    let mut display = ready_display();
    let ops = display.sleep().unwrap();
    assert_eq!(commands_in(&ops), vec![0x50, 0x02, 0x07]);
    let n = ops.len();
    assert_eq!(ops[n - 2], BusOp::SetLevel(OutputLine::DataCommand, Level::Low));
    assert_eq!(ops[n - 1], BusOp::SetLevel(OutputLine::Reset, Level::Low));
    assert_eq!(display.state(), PanelState::Asleep);
    assert_eq!(display.clear(), Err(PanelError::NotReady));
    display.init();
    assert!(display.clear().is_ok());
}

#[test]
fn transport_failure_requires_new_init() {
    let mut display = ready_display();
    display.transport_failed();
    assert_eq!(display.state(), PanelState::Off);
    assert_eq!(display.clear(), Err(PanelError::NotReady));
}

#[test]
fn busy_line_high_three_times_then_low() {
    let mut wait = BusyWait::new(10);
    let samples = [Level::High, Level::High, Level::High, Level::Low];
    let steps: Vec<BusyStep> = samples.iter().map(|&s| wait.on_sample(s)).collect();
    assert_eq!(
        steps,
        vec![
            BusyStep::Wait(POLL_INTERVAL_MS),
            BusyStep::Wait(200),
            BusyStep::Wait(200),
            BusyStep::Proceed,
        ]
    );
}

#[test]
fn ready_panel_needs_no_wait() {
    let mut wait = BusyWait::new(0);
    assert_eq!(wait.on_sample(Level::Low), BusyStep::Proceed);
}

#[test]
fn busy_line_stuck_high_times_out() {
    let mut wait = BusyWait::new(2);
    assert_eq!(wait.on_sample(Level::High), BusyStep::Wait(200));
    assert_eq!(wait.on_sample(Level::High), BusyStep::Wait(200));
    assert_eq!(wait.on_sample(Level::High), BusyStep::Unresponsive);
}
