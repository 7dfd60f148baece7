use lpm013m126::driver::{InitError, Lpm013m126};
use lpm013m126::frame_buffer::{WriteFrame, BUF_LEN};
use lpm013m126::hil::{ErrorCode, ScreenPixelFormat, ScreenRotation};
use lpm013m126::model::State;
use lpm013m126::sub_slice::SubSlice;
use lpm013m126::work::{Action, Completion, Delay, Delivery, Next, Step};

const PINS_LOW: [Action; 4] = [
    Action::ExtcominMakeOutput,
    Action::ExtcominClear,
    Action::DispMakeOutput,
    Action::DispClear,
];

fn driver(client: bool) -> Lpm013m126 {
    let mut driver = Lpm013m126::new(vec![0x11; BUF_LEN]).unwrap();
    if client {
        driver.set_client();
    }
    driver
}

/// Expects a transfer and gives its buffer.
fn transfer(step: Step) -> SubSlice {
    match step.next {
        Next::SpiWrite(data) => data,
        other => panic!("no transfer but {:?}", other),
    }
}

/// Expects an answer and gives it.
fn answer(step: Step) -> Result<(), ErrorCode> {
    match step.next {
        Next::Return(result) => result,
        other => panic!("no answer but {:?}", other),
    }
}

fn power_on(driver: &mut Lpm013m126) -> SubSlice {
    let step = driver.set_power(true);
    assert_eq!(step.actions, PINS_LOW);
    let data = transfer(step);
    let reply = driver.set_power_sent(Ok(()));
    assert_eq!(reply.result, Ok(()));
    assert!(reply.actions.is_empty());
    data
}

fn power_off(driver: &mut Lpm013m126) {
    let step = driver.set_power(false);
    assert!(step.actions.is_empty());
    assert!(matches!(step.next, Next::DisarmAlarm));
    let reply = driver.set_power_disarmed(Ok(()));
    assert_eq!(reply.result, Ok(()));
    assert_eq!(reply.actions, [Action::DispClear, Action::ScheduleReady]);
}

fn idle(client: bool) -> Lpm013m126 {
    let mut driver = driver(client);
    driver.setup().result.unwrap();
    let data = power_on(&mut driver);
    driver.read_write_done(data, Ok(2));
    driver.alarm();
    driver
}

/// A driver that waits for the end of the command before the picture, and the
/// buffer on the bus.
fn clearing(client: bool) -> (Lpm013m126, SubSlice) {
    let mut driver = idle(client);
    let data = transfer(driver.write(SubSlice::new(vec![0xff]), false));
    driver.write_sent(Ok(()));
    (driver, data)
}

/// A driver that waits for the end of the picture, and the buffer on the bus.
fn writing(client: bool) -> (Lpm013m126, SubSlice) {
    let (mut driver, data) = clearing(client);
    match driver.read_write_done(data, Ok(2)) {
        Completion::SpiWrite(data) => (driver, data),
        other => panic!("no transfer but {:?}", other),
    }
}

fn refused(driver: &mut Lpm013m126, expected: ErrorCode) {
    assert!(driver.accepts_write());
    let step = driver.write(SubSlice::new(vec![1, 2, 3]), false);
    assert_eq!(step.actions, [Action::ScheduleWriteComplete]);
    assert_eq!(answer(step), Err(expected));
}

fn delivered(driver: &mut Lpm013m126) -> (Vec<u8>, Result<(), ErrorCode>) {
    match driver.handle_write_complete_callback() {
        Delivery::WriteComplete(done) => {
            driver.write_complete_delivered();
            assert_eq!(done.data.len(), done.data.capacity());
            (done.data.take(), done.result)
        }
        other => panic!("no delivery but {:?}", other),
    }
}

#[test]
fn buffer_has_to_hold_the_screen() {
    assert_eq!(Lpm013m126::new(vec![0; BUF_LEN - 1]).unwrap_err(), InitError::BufferTooSmall);
    assert_eq!(Lpm013m126::new(Vec::new()).unwrap_err(), InitError::BufferTooSmall);
    assert!(Lpm013m126::new(vec![0; BUF_LEN]).is_ok());
    assert!(Lpm013m126::new(vec![0; BUF_LEN + 1]).is_ok());
}

#[test]
fn setup_works_once() {
    let mut driver = driver(false);
    let reply = driver.setup();
    assert_eq!(reply.result, Ok(()));
    assert_eq!(
        reply.actions,
        [Action::RegisterReady, Action::RegisterCommandComplete, Action::RegisterWriteComplete]
    );
    for _ in 0..2 {
        let reply = driver.setup();
        assert_eq!(reply.result, Err(ErrorCode::ALREADY));
        assert!(reply.actions.is_empty());
    }
    power_on(&mut driver);
}

#[test]
fn constant_answers() {
    let driver = driver(false);
    assert_eq!(driver.get_resolution(), (176, 176));
    assert_eq!(driver.get_pixel_format(), ScreenPixelFormat::Mono);
    assert_eq!(driver.get_rotation(), ScreenRotation::Normal);
    assert_eq!(driver.set_brightness(3), Err(ErrorCode::NOSUPPORT));
    assert_eq!(driver.set_invert(true), Err(ErrorCode::NOSUPPORT));
}

#[test]
fn start_up_sequence() {
    let mut driver = driver(true);
    driver.setup().result.unwrap();
    assert!(driver.accepts_power_on());
    let data = power_on(&mut driver);
    assert_eq!(data.as_slice(), &[0x20, 0x00]);
    assert_eq!(data.capacity(), BUF_LEN);
    refused(&mut driver, ErrorCode::BUSY);
    assert!(driver.accepts_read_write_done(&data));
    let completion = driver.read_write_done(data, Ok(2));
    assert!(matches!(completion, Completion::SetAlarm(Delay::Micros(150))));
    refused(&mut driver, ErrorCode::BUSY);
    assert!(driver.accepts_alarm());
    assert_eq!(
        driver.alarm(),
        [
            Action::ExtcominSet,
            Action::DispSet,
            Action::SetAlarm(Delay::Millis(100)),
            Action::ScreenIsReady,
        ]
    );
    assert_eq!(driver.state(), State::Idle);
}

#[test]
fn start_up_without_client() {
    let mut driver = driver(false);
    driver.setup().result.unwrap();
    let data = power_on(&mut driver);
    driver.read_write_done(data, Err(ErrorCode::FAIL));
    assert_eq!(
        driver.alarm(),
        [Action::ExtcominSet, Action::DispSet, Action::SetAlarm(Delay::Millis(100))]
    );
}

#[test]
fn extcomin_keeps_flipping_while_the_display_may_be_on() {
    let (in_clearing, _) = clearing(true);
    let (in_writing, _) = writing(true);
    let mut in_bug = idle(true);
    in_bug.read_write_done(SubSlice::new(vec![0; BUF_LEN]), Ok(0));
    for (mut driver, state) in [
        (idle(true), State::Idle),
        (in_clearing, State::AllClearing),
        (in_writing, State::Writing),
        (in_bug, State::Bug),
    ] {
        for _ in 0..3 {
            assert_eq!(
                driver.alarm(),
                [Action::ExtcominToggle, Action::SetAlarm(Delay::Millis(100))]
            );
            assert_eq!(driver.state(), state);
        }
    }
}

#[test]
fn extcomin_flips_once_while_the_display_is_off() {
    let mut off = driver(true);
    assert_eq!(off.state(), State::Uninitialized);
    assert_eq!(off.alarm(), [Action::ExtcominToggle]);
    off.setup().result.unwrap();
    assert_eq!(off.state(), State::Off);
    assert_eq!(off.alarm(), [Action::ExtcominToggle]);
    power_on(&mut off);
    assert_eq!(off.state(), State::InitializingPixelMemory);
    assert_eq!(off.alarm(), [Action::ExtcominToggle]);
}

#[test]
fn last_of_several_results_is_reported() {
    let mut driver = idle(true);
    let data = transfer(driver.write(SubSlice::new(vec![0xff]), false));
    driver.write_sent(Ok(()));
    refused(&mut driver, ErrorCode::BUSY);
    power_off(&mut driver);
    driver.read_write_done(data, Ok(2));
    refused(&mut driver, ErrorCode::FAIL);
    assert_eq!(delivered(&mut driver), (vec![1, 2, 3], Err(ErrorCode::FAIL)));
    assert!(matches!(driver.handle_write_complete_callback(), Delivery::Nothing));
}

#[test]
fn last_noted_result_replaces_the_others() {
    let mut driver = driver(true);
    refused(&mut driver, ErrorCode::OFF);
    for ret in [Err(ErrorCode::CANCEL), Ok(()), Err(ErrorCode::SIZE)] {
        assert_eq!(driver.call_write_complete(ret), Action::ScheduleWriteComplete);
    }
    assert_eq!(delivered(&mut driver), (vec![1, 2, 3], Err(ErrorCode::SIZE)));
    // There is no buffer to go with this one.
    driver.call_write_complete(Ok(()));
    assert!(matches!(driver.handle_write_complete_callback(), Delivery::Nothing));
}

#[test]
fn frame_is_kept() {
    let mut driver = driver(true);
    assert_eq!(driver.frame(), WriteFrame { row: 0, column: 0, width: 176, height: 176 });
    driver.set_write_frame(1, 2, 3, 4);
    assert_eq!(driver.frame(), WriteFrame { row: 2, column: 1, width: 3, height: 4 });
}

#[test]
fn picture_goes_out_with_headers() {
    let mut driver = idle(true);
    let reply = driver.set_write_frame(2, 1, 2, 2);
    assert_eq!(reply.result, Ok(()));
    assert_eq!(reply.actions, [Action::ScheduleCommandComplete]);
    let mut pixels = SubSlice::new(vec![0x33, 0x99, 0xff]);
    pixels.slice(1, 3);
    let step = driver.write(pixels, false);
    assert!(step.actions.is_empty());
    let data = transfer(step);
    assert_eq!(data.as_slice(), &[0xa0, 0x00]);
    let reply = driver.write_sent(Ok(()));
    assert_eq!(reply.result, Ok(()));
    assert_eq!(reply.actions, [Action::ScheduleWriteComplete]);

    let data = match driver.read_write_done(data, Ok(2)) {
        Completion::SpiWrite(data) => data,
        other => panic!("no transfer but {:?}", other),
    };
    assert_eq!(data.len(), BUF_LEN);
    for (pos, byte) in data.as_slice().iter().enumerate() {
        let expected = match pos {
            // The window says how many bytes count, not which.
            93 => 0x88,
            183 => 0x22,
            _ if pos >= 15840 => 0x11,
            _ if pos % 90 == 0 => 0x90,
            _ if pos % 90 == 1 => (pos / 90 + 1) as u8,
            _ => 0x11,
        };
        assert_eq!(*byte, expected, "at {}", pos);
    }

    match driver.read_write_done(data, Ok(BUF_LEN)) {
        Completion::WriteComplete(done) => {
            assert_eq!(done.result, Ok(()));
            assert_eq!(done.data.as_slice(), &[0x33, 0x99, 0xff]);
        }
        other => panic!("no delivery but {:?}", other),
    }
    assert!(matches!(driver.handle_write_complete_callback(), Delivery::Nothing));
    let again = transfer(driver.write(SubSlice::new(vec![]), true));
    assert_eq!(again.take()[93], 0x88);
}

#[test]
fn pixels_come_back_early_and_once() {
    let (mut driver, data) = clearing(true);
    assert_eq!(delivered(&mut driver), (vec![0xff], Ok(())));
    assert!(matches!(driver.handle_write_complete_callback(), Delivery::Nothing));
    let data = match driver.read_write_done(data, Ok(2)) {
        Completion::SpiWrite(data) => data,
        other => panic!("no transfer but {:?}", other),
    };
    assert!(matches!(driver.read_write_done(data, Ok(9)), Completion::Nothing));
}

#[test]
fn failed_transfer_is_reported_with_the_pixels() {
    let (mut driver, data) = writing(true);
    match driver.read_write_done(data, Err(ErrorCode::NOACK)) {
        Completion::WriteComplete(done) => {
            assert_eq!(done.result, Err(ErrorCode::NOACK));
            assert_eq!(done.data.take(), vec![0xff]);
        }
        other => panic!("no delivery but {:?}", other),
    }
    transfer(driver.write(SubSlice::new(vec![]), false));
}

#[test]
fn write_errors_by_state() {
    let mut driver = driver(true);
    refused(&mut driver, ErrorCode::OFF);
    assert_eq!(delivered(&mut driver), (vec![1, 2, 3], Err(ErrorCode::OFF)));
    driver.setup().result.unwrap();
    refused(&mut driver, ErrorCode::OFF);

    let (mut driver, _) = clearing(true);
    refused(&mut driver, ErrorCode::BUSY);
    assert_eq!(delivered(&mut driver), (vec![1, 2, 3], Err(ErrorCode::BUSY)));

    let mut driver = idle(true);
    driver.read_write_done(SubSlice::new(vec![0; BUF_LEN]), Ok(0));
    refused(&mut driver, ErrorCode::FAIL);
}

#[test]
fn write_during_a_write_is_not_called_back() {
    let (mut driver, data) = writing(true);
    driver.handle_write_complete_callback();
    driver.write_complete_delivered();
    let step = driver.write(SubSlice::new(vec![4, 5]), false);
    assert!(step.actions.is_empty());
    assert_eq!(answer(step), Err(ErrorCode::BUSY));
    assert!(matches!(driver.handle_write_complete_callback(), Delivery::Nothing));
    match driver.read_write_done(data, Ok(1)) {
        Completion::WriteComplete(done) => assert_eq!(done.data.take(), vec![4, 5]),
        other => panic!("no delivery but {:?}", other),
    }
}

#[test]
fn missing_frame_buffer_when_idle() {
    let mut driver = idle(true);
    transfer(driver.write(SubSlice::new(vec![]), false));
    // The transfer was never reported, and the buffer is still out.
    refused(&mut driver, ErrorCode::NOMEM);
}

#[test]
fn command_that_cannot_start_leaves_the_driver_idle() {
    let mut driver = idle(true);
    let first = transfer(driver.write(SubSlice::new(vec![0xff]), false));
    let reply = driver.write_sent(Err((ErrorCode::BUSY, first)));
    assert_eq!(reply.result, Err(ErrorCode::BUSY));
    assert_eq!(reply.actions, [Action::ScheduleWriteComplete]);
    assert_eq!(delivered(&mut driver), (vec![0xff], Err(ErrorCode::BUSY)));
    let retried = transfer(driver.write(SubSlice::new(vec![0xff]), false));

    let mut other = idle(true);
    let at_once = transfer(other.write(SubSlice::new(vec![0xff]), false));
    assert_eq!(retried.as_slice(), at_once.as_slice());
    assert_eq!(retried.take(), at_once.take());
}

#[test]
fn clear_command_that_cannot_start_is_a_bug() {
    let mut driver = driver(true);
    driver.setup().result.unwrap();
    let data = transfer(driver.set_power(true));
    let reply = driver.set_power_sent(Err((ErrorCode::FAIL, data)));
    assert_eq!(reply.result, Err(ErrorCode::FAIL));
    assert!(reply.actions.is_empty());
    refused(&mut driver, ErrorCode::FAIL);
    power_on(&mut driver);
}

#[test]
fn already_is_no_error_for_power() {
    let mut driver = driver(true);
    // Before setup the display counts as on.
    let step = driver.set_power(true);
    assert_eq!(step.actions, [Action::ScheduleReady]);
    assert_eq!(answer(step), Ok(()));
    driver.setup().result.unwrap();
    let step = driver.set_power(false);
    assert_eq!(step.actions, [Action::ScheduleReady]);
    assert_eq!(answer(step), Ok(()));
    let data = transfer(driver.set_power(true));
    let reply = driver.set_power_sent(Err((ErrorCode::ALREADY, data)));
    assert_eq!(reply.result, Ok(()));
    assert_eq!(reply.actions, [Action::ScheduleReady]);
    refused(&mut driver, ErrorCode::FAIL);
    let reply = driver.set_power_disarmed(Err(ErrorCode::ALREADY));
    assert_eq!(reply.result, Ok(()));
    assert_eq!(reply.actions, [Action::ScheduleReady]);
    refused(&mut driver, ErrorCode::FAIL);
}

#[test]
fn alarm_that_stays_armed_keeps_the_display_on() {
    let mut driver = idle(true);
    assert!(matches!(driver.set_power(false).next, Next::DisarmAlarm));
    let reply = driver.set_power_disarmed(Err(ErrorCode::FAIL));
    assert_eq!(reply.result, Err(ErrorCode::FAIL));
    assert!(reply.actions.is_empty());
    transfer(driver.write(SubSlice::new(vec![]), false));
}

#[test]
fn power_off_lands_off_from_anywhere() {
    let (in_clearing, _) = clearing(true);
    let (in_writing, _) = writing(true);
    for mut driver in [driver(true), idle(true), in_clearing, in_writing] {
        power_off(&mut driver);
        refused(&mut driver, ErrorCode::OFF);
    }
}

#[test]
fn power_without_frame_buffer() {
    let (mut driver, data) = clearing(true);
    power_off(&mut driver);
    let step = driver.set_power(true);
    assert_eq!(step.actions, PINS_LOW);
    assert_eq!(answer(step), Err(ErrorCode::NOMEM));
    refused(&mut driver, ErrorCode::OFF);
    // Nobody waits for this any more, but the buffer is welcome.
    assert!(matches!(driver.read_write_done(data, Ok(2)), Completion::Nothing));
    refused(&mut driver, ErrorCode::FAIL);
    power_off(&mut driver);
    power_on(&mut driver);
}

#[test]
fn any_run_keeps_order() {
    let mut driver = driver(true);
    let mut bus: Option<SubSlice> = None;
    let mut pictures = 0;
    let mut armed = false;
    let mut scheduled = false;
    let mut written: Vec<Vec<u8>> = Vec::new();
    let mut returned: Vec<Vec<u8>> = Vec::new();
    let mut random: u32 = 12345;
    for _ in 0..4000 {
        random = random.wrapping_mul(1664525).wrapping_add(1013904223);
        match random >> 24 {
            0..=9 => {
                let _ = driver.setup();
            }
            10..=39 => {
                assert!(driver.accepts_power_on());
                if let Next::SpiWrite(data) = driver.set_power(true).next {
                    assert!(bus.is_none());
                    assert_eq!(data.capacity(), BUF_LEN);
                    assert_eq!(data.as_slice(), &[0x20, 0x00]);
                    if random & 0x300 == 0 {
                        driver.set_power_sent(Err((ErrorCode::FAIL, data)));
                    } else {
                        bus = Some(data);
                        driver.set_power_sent(Ok(()));
                    }
                }
            }
            40..=44 => {
                if let Next::DisarmAlarm = driver.set_power(false).next {
                    driver.set_power_disarmed(Ok(()));
                    armed = false;
                }
            }
            45..=99 => {
                driver.set_write_frame(6, 170, 20, 10);
                assert!(driver.accepts_write());
                let pixels = (written.len() as u32).to_be_bytes().to_vec();
                written.push(pixels.clone());
                let step = driver.write(SubSlice::new(pixels), false);
                scheduled |= !step.actions.is_empty();
                if let Next::SpiWrite(data) = step.next {
                    scheduled = true;
                    assert!(bus.is_none());
                    assert_eq!(data.as_slice(), &[0xa0, 0x00]);
                    if random & 0x300 == 0 {
                        driver.write_sent(Err((ErrorCode::BUSY, data)));
                    } else {
                        bus = Some(data);
                        driver.write_sent(Ok(()));
                    }
                }
            }
            100..=139 => {
                if armed {
                    assert!(driver.accepts_alarm());
                    armed = driver.alarm().contains(&Action::SetAlarm(Delay::Millis(100)));
                }
            }
            140..=229 => {
                if let Some(data) = bus.take() {
                    assert!(driver.accepts_read_write_done(&data));
                    match driver.read_write_done(data, Ok(2)) {
                        Completion::Nothing => {}
                        Completion::SetAlarm(_) => armed = true,
                        Completion::SpiWrite(data) => {
                            assert_eq!(data.len(), BUF_LEN);
                            for (line, bytes) in data.as_slice()[..15840].chunks(90).enumerate() {
                                assert_eq!(&bytes[..2], &[0x90, (line + 1) as u8]);
                            }
                            pictures += 1;
                            bus = Some(data);
                        }
                        Completion::WriteComplete(done) => returned.push(done.data.take()),
                    }
                }
            }
            _ => {
                if scheduled {
                    scheduled = false;
                    match driver.handle_write_complete_callback() {
                        Delivery::NoClient => panic!("there is a client"),
                        Delivery::Nothing => {}
                        Delivery::WriteComplete(done) => returned.push(done.data.take()),
                    }
                    driver.write_complete_delivered();
                }
            }
        }
        if matches!(
            driver.state(),
            State::InitializingRest | State::Idle | State::AllClearing | State::Writing
        ) {
            assert!(armed);
        }
        if matches!(driver.state(), State::Uninitialized | State::Off) {
            assert!(!armed);
        }
        assert!(returned.len() <= written.len());
    }
    assert!(pictures > 20);
    // Each buffer that came back was written, once, and in this order.
    let mut writes = written.iter();
    for pixels in &returned {
        assert!(writes.any(|written| written == pixels));
    }
}

#[test]
fn callbacks_need_a_client() {
    let mut driver = driver(false);
    assert_eq!(driver.handle_ready_callback(), None);
    assert_eq!(driver.handle_command_complete_callback(), None);
    refused(&mut driver, ErrorCode::OFF);
    assert!(matches!(driver.handle_write_complete_callback(), Delivery::NoClient));
    driver.set_client();
    assert_eq!(driver.handle_ready_callback(), Some(Action::ScreenIsReady));
    assert_eq!(driver.handle_command_complete_callback(), Some(Action::CommandComplete));
    assert_eq!(delivered(&mut driver), (vec![1, 2, 3], Err(ErrorCode::OFF)));
}

#[test]
fn pixels_stay_without_client() {
    let (mut driver, data) = writing(false);
    assert!(matches!(driver.read_write_done(data, Ok(2)), Completion::Nothing));
    driver.set_client();
    assert_eq!(delivered(&mut driver), (vec![0xff], Ok(())));
}

#[test]
fn result_from_inside_the_client_is_dropped() {
    let mut driver = driver(true);
    refused(&mut driver, ErrorCode::OFF);
    assert!(matches!(driver.handle_write_complete_callback(), Delivery::WriteComplete(_)));
    // The client asks again while it is being called.
    refused(&mut driver, ErrorCode::OFF);
    driver.write_complete_delivered();
    assert!(matches!(driver.handle_write_complete_callback(), Delivery::Nothing));
}

#[test]
fn write_frame_counts_modulo_65536() {
    let mut driver = idle(true);
    driver.set_write_frame(65536 + 2, 65536 * 3 + 1, 65536 + 2, 65536 + 1);
    let data = transfer(driver.write(SubSlice::new(vec![0xff]), false)).take();
    assert_eq!(&data[92..95], &[0x11, 0xee, 0x11]);
}

#[test]
fn areas_that_writes_do_not_accept() {
    let mut driver = idle(true);
    for (x, y, width, height) in [(1, 0, 2, 2), (0, 0, 1, 2), (0, 65535, 2, 1)] {
        driver.set_write_frame(x, y, width, height);
        assert!(!driver.accepts_write());
    }
    driver.set_write_frame(0, 65534, 2, 1);
    assert!(driver.accepts_write());
}

#[test]
fn short_buffers_are_noticed() {
    let (mut driver, data) = clearing(true);
    assert!(!driver.accepts_read_write_done(&SubSlice::new(vec![0; 91])));
    assert!(driver.accepts_read_write_done(&SubSlice::new(vec![0; 92])));
    driver.read_write_done(data, Ok(2));
    assert!(!driver.accepts_read_write_done(&SubSlice::new(vec![0; BUF_LEN - 1])));
    assert!(driver.accepts_read_write_done(&SubSlice::new(vec![0; BUF_LEN])));

    let mut driver = idle(true);
    driver.read_write_done(SubSlice::new(vec![0; 91]), Ok(0));
    assert!(!driver.accepts_power_on());
    driver.read_write_done(SubSlice::new(vec![0; 92]), Ok(0));
    assert!(driver.accepts_power_on());
    let data = power_on(&mut driver);
    driver.read_write_done(data, Ok(2));
    assert!(!driver.accepts_alarm());
}
