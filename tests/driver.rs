use epd_waveshare::color::{TriColor, DEFAULT_BACKGROUND_COLOR};
use epd_waveshare::command::Command;
use epd_waveshare::epd4in2b::{HEIGHT, WIDTH};
use epd_waveshare::epd4in2bc::{Epd4in2bc, PanelState, IS_BUSY_LOW};
use epd_waveshare::graphics::ConfigurationError;
use epd_waveshare::interface::{is_busy, wait_idle_step, BusOp, PollStep};

fn cmd(c: Command) -> BusOp {
    BusOp::Command(c.address())
}

fn byte(b: u8) -> BusOp {
    BusOp::Data(vec![b])
}

fn wait() -> BusOp {
    BusOp::WaitIdle { busy_low: IS_BUSY_LOW }
}

fn commands(ops: &[BusOp]) -> Vec<u8> {
    ops.iter()
        .filter_map(|o| match o {
            BusOp::Command(c) => Some(*c),
            _ => None,
        })
        .collect()
}

fn ready_driver() -> Epd4in2bc {
    let mut ops = Vec::new();
    Epd4in2bc::new(&mut ops)
}

#[test]
fn epd_size() {
    assert_eq!(WIDTH, 400);
    assert_eq!(HEIGHT, 300);
    assert_eq!(DEFAULT_BACKGROUND_COLOR, TriColor::White);
}

#[test]
fn driver_dimensions() {
    let epd = ready_driver();
    assert_eq!(epd.width(), 400);
    assert_eq!(epd.height(), 300);
    assert_eq!(*epd.background_color(), TriColor::White);
    assert_eq!(epd.state(), PanelState::Ready);
}

#[test]
fn init_sequence_starts_with_reset_and_ends_powered_on() {
    let mut ops = Vec::new();
    let _epd = Epd4in2bc::new(&mut ops);
    assert_eq!(ops[0], BusOp::Reset { initial_us: 10_000, duration_us: 10_000 });
    assert_eq!(ops[1], cmd(Command::PowerSetting));
    assert_eq!(ops[2], BusOp::Data(vec![0x03, 0x00, 0x2b, 0x2b, 0xff]));
    let n = ops.len();
    assert_eq!(ops[n - 3], cmd(Command::PowerOn));
    assert_eq!(ops[n - 2], BusOp::DelayUs(5000));
    assert_eq!(ops[n - 1], wait());
    let res = ops.iter().position(|o| *o == cmd(Command::ResolutionSetting)).unwrap();
    assert_eq!(ops[res + 1..res + 5], [byte(0x01), byte(0x90), byte(0x01), byte(0x2C)]);
}

#[test]
fn quick_refresh_trace_order() {
    let mut epd = ready_driver();
    let buf_a = vec![0xAAu8; 15000];
    let buf_b = vec![0x55u8; 15000];
    let mut ops = Vec::new();
    epd.update_old_frame(&mut ops, &buf_a);
    epd.update_new_frame(&mut ops, &buf_b);
    epd.display_frame(&mut ops);
    let meaningful: Vec<BusOp> = ops
        .into_iter()
        .filter(|o| !matches!(o, BusOp::WaitIdle { .. } | BusOp::DelayUs(_)))
        .collect();
    let expected = vec![
        cmd(Command::DataStartTransmission1),
        BusOp::Data(buf_a.clone()),
        cmd(Command::ResolutionSetting),
        byte(0x01),
        byte(0x90),
        byte(0x01),
        byte(0x2C),
        cmd(Command::DataStartTransmission2),
        BusOp::Data(buf_b.clone()),
    ];
    assert_eq!(meaningful[..9], expected[..]);
    let luts = [
        Command::LutForVcom,
        Command::LutWhiteToWhite,
        Command::LutBlackToWhite,
        Command::LutWhiteToBlack,
        Command::LutBlackToBlack,
    ];
    for (k, c) in luts.iter().enumerate() {
        assert_eq!(meaningful[9 + 2 * k], cmd(*c));
        assert!(matches!(meaningful[10 + 2 * k], BusOp::Data(_)));
    }
    assert_eq!(meaningful[19], cmd(Command::DisplayRefresh));
    assert_eq!(meaningful.len(), 20);
}

#[test]
fn display_frame_uses_active_lut() {
    let mut epd = ready_driver();
    let mut quick = Vec::new();
    epd.display_frame(&mut quick);
    let mut full = Vec::new();
    epd.set_lut(&mut full, Some(epd_waveshare::constants::RefreshLut::Full));
    let mut full_display = Vec::new();
    epd.display_frame(&mut full_display);
    assert_eq!(quick[2], BusOp::Data({
        let mut v = vec![0x00, 0x0E, 0x00, 0x00, 0x00, 0x01];
        v.resize(44, 0);
        v
    }));
    assert_eq!(full_display[..11], full[..]);
    assert_ne!(quick[2], full_display[2]);
    assert_eq!(full_display[11], cmd(Command::DisplayRefresh));
    assert_eq!(full_display[12], BusOp::DelayUs(100_000));
    assert_eq!(full_display[13], wait());
}

#[test]
fn sleep_ends_with_deep_sleep_check_byte() {
    let mut epd = ready_driver();
    let mut ops = Vec::new();
    epd.sleep(&mut ops);
    assert_eq!(epd.state(), PanelState::Sleeping);
    let n = ops.len();
    assert_eq!(ops[n - 2], cmd(Command::DeepSleep));
    assert_eq!(ops[n - 1], byte(0xA5));
    let power_off = ops.iter().position(|o| *o == cmd(Command::PowerOff)).unwrap();
    assert!(ops[..power_off].contains(&wait()));
    assert_eq!(ops[power_off + 1], wait());
    assert_eq!(ops[6..10], [byte(0), byte(0), byte(0), byte(0)]);
}

#[test]
fn sleep_wake_cycle_repeats_update() {
    let mut ops = Vec::new();
    let mut epd = Epd4in2bc::new(&mut ops);
    let init_first = ops.clone();
    let buf = vec![0x0Fu8; 15000];
    let mut first = Vec::new();
    epd.update_frame(&mut first, &buf);
    let mut rest = Vec::new();
    epd.display_frame(&mut rest);
    epd.sleep(&mut rest);
    let mut init_again = Vec::new();
    epd.wake_up(&mut init_again);
    assert_eq!(epd.state(), PanelState::Ready);
    assert_eq!(init_again, init_first);
    let mut second = Vec::new();
    epd.update_frame(&mut second, &buf);
    assert_eq!(first, second);
}

#[test]
fn update_frame_sends_buffer_to_both_planes() {
    let mut epd = ready_driver();
    let buf = vec![0x12u8; 4];
    let mut ops = Vec::new();
    epd.set_background_color(TriColor::Black);
    epd.update_frame(&mut ops, &buf);
    assert_eq!(
        ops,
        vec![
            wait(),
            cmd(Command::DataStartTransmission1),
            BusOp::Data(buf.clone()),
            cmd(Command::DataStartTransmission2),
            BusOp::Data(buf.clone()),
            cmd(Command::DataStop),
        ]
    );
}

#[test]
fn color_frame_sends_achromatic_then_chromatic() {
    let mut epd = ready_driver();
    let mut ops = Vec::new();
    epd.update_color_frame(&mut ops, &[1, 2], &[3, 4]);
    assert_eq!(
        ops,
        vec![
            cmd(Command::DataStartTransmission1),
            BusOp::Data(vec![1, 2]),
            cmd(Command::DataStartTransmission2),
            BusOp::Data(vec![3, 4]),
            wait(),
        ]
    );
}

#[test]
fn partial_window_alignment() {
    let mut epd = ready_driver();
    let mut ops = Vec::new();
    epd.shift_display(&mut ops, 5, 20, 10, 4);
    assert_eq!(
        ops,
        vec![byte(0), byte(0), byte(0), byte(15), byte(0), byte(20), byte(0), byte(23), byte(0x01)]
    );
}

#[test]
fn partial_window_high_coordinates() {
    let mut epd = ready_driver();
    let mut ops = Vec::new();
    epd.shift_display(&mut ops, 0x123, 0x104, 16, 0x10);
    let expected = vec![
        byte(0x01),
        byte(0x20),
        byte(0x01),
        byte(0x2F),
        byte(0x01),
        byte(0x04),
        byte(0x01),
        byte(0x13),
        byte(0x01),
    ];
    assert_eq!(ops, expected);
}

#[test]
fn partial_update_rejects_wrong_buffer_size() {
    let mut epd = ready_driver();
    let mut ops = Vec::new();
    let r = epd.update_partial_frame(&mut ops, &[0u8; 5], 8, 8, 16, 2);
    assert_eq!(r, Err(ConfigurationError::BufferSizeMismatch));
    assert!(ops.is_empty());
    let r = epd.update_partial_old_frame(&mut ops, &[0u8; 3], 8, 8, 16, 2);
    assert_eq!(r, Err(ConfigurationError::BufferSizeMismatch));
    let r = epd.update_partial_new_frame(&mut ops, &[0u8; 3], 8, 8, 16, 2);
    assert_eq!(r, Err(ConfigurationError::BufferSizeMismatch));
    assert!(ops.is_empty());
}

#[test]
fn partial_update_sends_window_and_buffer() {
    let mut epd = ready_driver();
    let mut ops = Vec::new();
    let r = epd.update_partial_frame(&mut ops, &[7u8; 4], 8, 8, 16, 2);
    assert_eq!(r, Ok(()));
    assert_eq!(ops[..3], [wait(), cmd(Command::PartialIn), cmd(Command::PartialWindow)]);
    assert_eq!(ops[3..12], [byte(0), byte(8), byte(0), byte(0x17), byte(0), byte(8), byte(0), byte(9), byte(1)]);
    assert_eq!(ops[12], BusOp::DelayUs(2000));
    assert_eq!(ops[14], BusOp::Data(vec![7, 7, 7, 7]));
    assert_eq!(ops[16], BusOp::DataRepeat { value: 0xff, count: 4 });
    assert_eq!(ops[18], cmd(Command::PartialOut));
}

#[test]
fn partial_quick_refresh_halves() {
    let mut epd = ready_driver();
    let mut ops = Vec::new();
    assert_eq!(epd.update_partial_old_frame(&mut ops, &[1u8; 2], 0, 0, 8, 2), Ok(()));
    assert_eq!(commands(&ops), vec![0x91, 0x90, 0x10]);
    let mut ops = Vec::new();
    assert_eq!(epd.update_partial_new_frame(&mut ops, &[2u8; 2], 0, 0, 8, 2), Ok(()));
    assert_eq!(commands(&ops), vec![0x13, 0x92]);
    assert_eq!(ops[ops.len() - 2], BusOp::Data(vec![2, 2]));
}

#[test]
fn clear_partial_frame_floods_window() {
    let mut epd = ready_driver();
    let mut ops = Vec::new();
    epd.clear_partial_frame(&mut ops, 0, 0, 16, 4);
    assert_eq!(commands(&ops), vec![0x61, 0x91, 0x90, 0x10, 0x13, 0x92]);
    assert!(ops.contains(&BusOp::DataRepeat { value: 0xff, count: 8 }));
}

#[test]
fn clear_frame_floods_both_planes_with_byte_value() {
    let mut epd = ready_driver();
    let mut ops = Vec::new();
    epd.clear_frame(&mut ops);
    let n = ops.len();
    assert_eq!(ops[n - 1], BusOp::DataRepeat { value: 0xff, count: 15000 });
    assert_eq!(ops[n - 3], BusOp::DataRepeat { value: 0xff, count: 15000 });
    epd.set_background_color(TriColor::Black);
    let mut ops = Vec::new();
    epd.clear_frame(&mut ops);
    assert_eq!(ops[ops.len() - 1], BusOp::DataRepeat { value: 0x00, count: 15000 });
}

#[test]
fn partial_window_right_half_of_panel() {
    let mut epd = ready_driver();
    let mut ops = Vec::new();
    epd.shift_display(&mut ops, 256, 0, 8, 1);
    assert_eq!(ops[..4], [byte(0x01), byte(0x00), byte(0x01), byte(0x07)]);
    let mut ops = Vec::new();
    epd.shift_display(&mut ops, 391, 299, 9, 1);
    // start 384 = 0x0180, end (384 + 8) | 7 = 399 = 0x018F, row 299 = 0x012B
    assert_eq!(
        ops,
        vec![byte(0x01), byte(0x80), byte(0x01), byte(0x8F), byte(0x01), byte(0x2B), byte(0x01), byte(0x2B), byte(0x01)]
    );
}

#[test]
fn update_and_display_frame_reloads_tables() {
    let mut epd = ready_driver();
    let buf = vec![0x33u8; 8];
    let mut ops = Vec::new();
    epd.update_and_display_frame(&mut ops, &buf);
    let mut expected = Vec::new();
    epd.update_frame(&mut expected, &buf);
    epd.display_frame(&mut expected);
    assert_eq!(ops, expected);
    assert_eq!(ops[6], wait());
    assert_eq!(ops[7], cmd(Command::LutForVcom));
    let n = ops.len();
    assert_eq!(ops[n - 3], cmd(Command::DisplayRefresh));
    assert_eq!(ops[n - 2], BusOp::DelayUs(100_000));
    assert_eq!(ops[n - 1], wait());
}

#[test]
fn command_addresses() {
    assert_eq!(Command::DataStartTransmission1.address(), 0x10);
    assert_eq!(Command::DataStartTransmission2.address(), 0x13);
    assert_eq!(Command::DisplayRefresh.address(), 0x12);
    assert_eq!(Command::DeepSleep.address(), 0x07);
    assert_eq!(Command::ResolutionSetting.address(), 0x61);
    assert_eq!(Command::PartialWindow.address(), 0x90);
}

#[test]
fn busy_polarity_and_poll_budget() {
    assert!(is_busy(false, true));
    assert!(!is_busy(true, true));
    assert!(is_busy(true, false));
    assert!(!is_busy(false, false));
    assert_eq!(wait_idle_step(false, 100, Some(3)), PollStep::Idle);
    assert_eq!(wait_idle_step(true, 2, Some(3)), PollStep::Wait);
    assert_eq!(wait_idle_step(true, 3, Some(3)), PollStep::TimedOut);
    assert_eq!(wait_idle_step(true, u32::MAX, None), PollStep::Wait);
}
