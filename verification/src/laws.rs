//! What holds of the driver's methods together.

use crate::frame_buffer::line_headed;
use crate::frame_buffer::with_all_headers;
use crate::frame_buffer::with_header;
use crate::frame_buffer::WriteFrame;
use crate::frame_buffer::BUF_LEN;
use crate::header::header_bytes;
use crate::header::Mode;
use crate::hil::ErrorCode;
use crate::model::lone_command;
use crate::model::pins_low;
use crate::model::registrations;
use crate::model::DriverView;
use crate::model::State;
use crate::sub_slice::SubSliceView;
use crate::work::Action;
use crate::work::CompletionView;
use crate::work::Delay;
use crate::work::DeliveryView;
use crate::work::NextView;
use crate::work::ReplyView;
use crate::work::StepView;
use crate::work::WriteCompleteView;
use vstd::prelude::*;

verus! {

/// A driver after several results were noted, the first one first.
pub open spec fn note_all(driver: DriverView, results: Seq<Result<(), ErrorCode>>) -> DriverView
    decreases results.len(),
{
    if results.len() == 0 {
        driver
    } else {
        note_all(driver, results.drop_last()).call_write_complete(results.last()).0
    }
}

/// Setting up registers each deferred call the first time. Setting up again changes
/// nothing, registers nothing, and says so. Setting up never touches anything but the
/// state, and none of the hardware.
pub proof fn setup_idempotent(driver: DriverView)
    ensures
        driver.setup().0.setup().0 == driver.setup().0,
        driver.setup().0.setup().1 == (ReplyView {
            actions: seq![],
            result: Err(ErrorCode::ALREADY),
        }),
        driver.state == State::Uninitialized ==> driver.setup().1 == (ReplyView {
            actions: seq![
                Action::RegisterReady,
                Action::RegisterCommandComplete,
                Action::RegisterWriteComplete,
            ],
            result: Ok(()),
        }),
        driver.setup().0 == (DriverView { state: driver.setup().0.state, ..driver }),
{
}

/// The driver comes up: after setup, power, the end of the clear command and the
/// alarm it is idle, DISP is high, the next flip of EXTCOMIN is arranged, the
/// client knows that the screen is ready, and every line is headed by its command.
pub proof fn start_up(frame_buffer: Seq<u8>, client: bool, status: Result<usize, ErrorCode>)
    requires
        frame_buffer.len() >= BUF_LEN,
    ensures
        ({
            let fresh = DriverView { client, ..DriverView::initial(frame_buffer) };
            let (set_up, setup_reply) = fresh.setup();
            let (asked, step) = set_up.power_on();
            let clear = lone_command(frame_buffer, Mode::AllClear);
            let (clearing, reply) = asked.power_on_sent(None);
            let (cleared, completion) = clearing.read_write_done(clear.bytes, status);
            let (ready, actions) = cleared.alarm();
            &&& setup_reply == (ReplyView { actions: registrations(), result: Ok(()) })
            &&& step == (StepView { actions: pins_low(), next: NextView::SpiWrite(clear) })
            &&& clear.active() == header_bytes(Mode::AllClear, 0)
            &&& reply == (ReplyView { actions: seq![], result: Ok(()) })
            &&& clearing.state == State::InitializingPixelMemory
            &&& completion == CompletionView::SetAlarm(Delay::Micros(150))
            &&& cleared.state == State::InitializingRest
            &&& actions.contains(Action::DispSet)
            &&& actions.contains(Action::SetAlarm(Delay::Millis(100)))
            &&& client == actions.contains(Action::ScreenIsReady)
            &&& ready.state == State::Idle
            &&& ready.frame_buffer == Some(with_all_headers(frame_buffer))
            &&& forall|line: int|
                0 <= line < 176 ==> #[trigger] line_headed(ready.frame_buffer->0, line)
        }),
{
    let clear = lone_command(frame_buffer, Mode::AllClear);
    assert(clear.active() =~= header_bytes(Mode::AllClear, 0));
    assert(with_all_headers(clear.bytes) =~= with_all_headers(frame_buffer));
    let turn_on = seq![
        Action::ExtcominSet,
        Action::DispSet,
        Action::SetAlarm(Delay::Millis(100)),
    ];
    assert(turn_on[1] == Action::DispSet);
    assert(turn_on[2] == Action::SetAlarm(Delay::Millis(100)));
    assert(turn_on.push(Action::ScreenIsReady)[1] == Action::DispSet);
    assert(turn_on.push(Action::ScreenIsReady)[2] == Action::SetAlarm(Delay::Millis(100)));
    assert(turn_on.push(Action::ScreenIsReady)[3] == Action::ScreenIsReady);
}

/// Each state up to `Writing` can lead to the next one in order of appearance,
/// and `Writing` leads back to `Idle`. Transfers are taken to be started.
pub proof fn states_in_order(
    driver: DriverView,
    data: Seq<u8>,
    pixels: SubSliceView,
    status: Result<usize, ErrorCode>,
)
    ensures
        driver.state == State::Uninitialized ==> driver.setup().0.state == State::Off,
        driver.state == State::Off && driver.frame_buffer is Some
            ==> driver.power_on().1.next is SpiWrite && driver.power_on().0.power_on_sent(
            None,
        ).0.state == State::InitializingPixelMemory,
        driver.state == State::InitializingPixelMemory ==> driver.read_write_done(
            data,
            status,
        ).0.state == State::InitializingRest,
        driver.state == State::InitializingRest && driver.frame_buffer is Some
            ==> driver.alarm().0.state == State::Idle,
        driver.state == State::Idle && driver.frame_buffer is Some ==> driver.write(
            pixels,
        ).1.next is SpiWrite && driver.write(pixels).0.write_sent(None).0.state
            == State::AllClearing,
        driver.state == State::AllClearing ==> driver.read_write_done(data, status).0.state
            == State::Writing,
        driver.state == State::Writing ==> driver.read_write_done(data, status).0.state
            == State::Idle,
{
}

/// An SPI completion that nobody waits for makes the driver buggy, but hands it
/// the frame buffer.
pub proof fn unexpected_completion_is_a_bug(
    driver: DriverView,
    data: Seq<u8>,
    status: Result<usize, ErrorCode>,
)
    requires
        driver.state != State::InitializingPixelMemory,
        driver.state != State::AllClearing,
        driver.state != State::Writing,
    ensures
        driver.read_write_done(data, status) == (
            DriverView { state: State::Bug, frame_buffer: Some(data), ..driver },
            CompletionView::Nothing,
        ),
{
}

/// Turning off and on recovers a buggy driver that still has its frame buffer: it
/// ends up initializing, with the clear command on the bus.
pub proof fn power_cycle_recovers(driver: DriverView)
    requires
        driver.state == State::Bug,
        driver.frame_buffer is Some,
    ensures
        driver.power_off().1.next == NextView::DisarmAlarm,
        ({
            let off = driver.power_off().0.power_off_disarmed(Ok(())).0;
            let (asked, step) = off.power_on();
            &&& off.state == State::Off
            &&& step.next == NextView::SpiWrite(
                lone_command(driver.frame_buffer->0, Mode::AllClear),
            )
            &&& asked.power_on_sent(None).0.state == State::InitializingPixelMemory
        }),
{
}

/// Once the alarm is disarmed the display is off whatever it was doing, DISP is
/// low and the client is told; no buffer changes hands.
pub proof fn power_off_always_lands_off(driver: DriverView)
    requires
        driver.state != State::Off,
    ensures
        driver.power_off() == (
            driver,
            StepView { actions: seq![], next: NextView::DisarmAlarm },
        ),
        driver.power_off_disarmed(Ok(())) == (
            DriverView { state: State::Off, ..driver },
            ReplyView { actions: seq![Action::DispClear, Action::ScheduleReady], result: Ok(()) },
        ),
{
}

/// A power request that finds the display in the desired state succeeds, changes
/// nothing and has the client told. Without setup the display counts as on.
pub proof fn power_request_repeated(driver: DriverView)
    ensures
        driver.state != State::Off && driver.state != State::Bug ==> driver.power_on() == (
            driver,
            StepView { actions: seq![Action::ScheduleReady], next: NextView::Return(Ok(())) },
        ),
        driver.state == State::Off ==> driver.power_off() == (
            driver,
            StepView { actions: seq![Action::ScheduleReady], next: NextView::Return(Ok(())) },
        ),
{
}

/// A refused write leaves the picture, the state and the area alone, and the
/// error says why.
pub proof fn refused_write_keeps_picture(driver: DriverView, data: SubSliceView, error: ErrorCode)
    requires
        driver.write_refusal() == Some(error),
    ensures
        driver.write(data).1.next == NextView::Return(Err(error)),
        driver.write(data).0.frame_buffer == driver.frame_buffer,
        driver.write(data).0.state == driver.state,
        driver.write(data).0.frame == driver.frame,
        error == ErrorCode::OFF <==> (driver.state == State::Uninitialized || driver.state
            == State::Off),
        error == ErrorCode::BUSY <==> (driver.state == State::InitializingPixelMemory
            || driver.state == State::InitializingRest || driver.state == State::AllClearing
            || driver.state == State::Writing),
        error == ErrorCode::FAIL <==> driver.state == State::Bug,
        error == ErrorCode::NOMEM <==> driver.state == State::Idle && driver.frame_buffer is None,
{
}

/// The client of a refused write gets its whole buffer back through the write
/// complete callback, with the error. Only while a write is under way is the
/// callback not asked for.
pub proof fn refused_pixels_come_back(driver: DriverView, data: SubSliceView, error: ErrorCode)
    requires
        driver.client,
        driver.write_refusal() == Some(error),
        driver.state != State::Writing,
    ensures
        driver.write(data).1.actions == seq![Action::ScheduleWriteComplete],
        driver.write(data).0.write_complete_callback().1 == DeliveryView::WriteComplete(
            WriteCompleteView { data: SubSliceView::whole(data.bytes), result: Err(error) },
        ),
        driver.write(data).0.write_complete_callback().0.write_complete_delivered() == (
        DriverView { buffer: None, pending: None, ..driver }),
{
}

/// The client of a write whose command could be handed to the bus, or came back
/// from it, gets its whole buffer back through the write complete callback, with
/// what became of the command. It does not get it again when the transfer of the
/// picture ends.
pub proof fn accepted_pixels_come_back_once(
    driver: DriverView,
    data: SubSliceView,
    refused: Option<(ErrorCode, Seq<u8>)>,
    returned: Seq<u8>,
    status: Result<usize, ErrorCode>,
)
    requires
        driver.client,
        driver.write_refusal() is None,
    ensures
        ({
            let (sent, reply) = driver.write(data).0.write_sent(refused);
            let (called, delivery) = sent.write_complete_callback();
            let after = called.write_complete_delivered();
            &&& reply.actions == seq![Action::ScheduleWriteComplete]
            &&& reply.result == match refused {
                None => Ok(()),
                Some((error, _)) => Err::<(), ErrorCode>(error),
            }
            &&& delivery == DeliveryView::WriteComplete(
                WriteCompleteView { data: SubSliceView::whole(data.bytes), result: reply.result },
            )
            &&& after.buffer is None
            &&& after.write_complete_callback().1 == DeliveryView::Nothing
            &&& (DriverView { state: State::Writing, ..after }).read_write_done(
                returned,
                status,
            ).1 == CompletionView::Nothing
        }),
{
}

/// Of the results noted before the write complete callback comes due, the last one is
/// what the client gets to see, with the buffer that is held. Each of them has the
/// callback scheduled, and none of them touches anything else.
pub proof fn last_noted_result_is_delivered(
    driver: DriverView,
    results: Seq<Result<(), ErrorCode>>,
    pixels: Seq<u8>,
)
    requires
        driver.client,
        driver.buffer == Some(pixels),
        results.len() > 0,
    ensures
        forall|noting: DriverView, ret: Result<(), ErrorCode>|
            (#[trigger] noting.call_write_complete(ret)).1 == Action::ScheduleWriteComplete,
        note_all(driver, results) == (DriverView { pending: Some(results.last()), ..driver }),
        note_all(driver, results).write_complete_callback() == (
            DriverView { pending: Some(results.last()), buffer: None, ..driver },
            DeliveryView::WriteComplete(
                WriteCompleteView { data: SubSliceView::whole(pixels), result: results.last() },
            ),
        ),
    decreases results.len(),
{
    if results.len() > 1 {
        last_noted_result_is_delivered(driver, results.drop_last(), pixels);
    } else {
        assert(note_all(driver, results.drop_last()) == driver);
    }
}

/// When the transfer of the picture ends before the write complete callback comes
/// due, the client gets its buffer then, with the outcome of the transfer, and the
/// callback hands out nothing.
pub proof fn transfer_end_returns_pixels(
    driver: DriverView,
    pixels: Seq<u8>,
    returned: Seq<u8>,
    status: Result<usize, ErrorCode>,
)
    requires
        driver.state == State::Writing,
        driver.client,
        driver.buffer == Some(pixels),
    ensures
        driver.read_write_done(returned, status).1 == CompletionView::WriteComplete(
            WriteCompleteView {
                data: SubSliceView::whole(pixels),
                result: match status {
                    Ok(_) => Ok(()),
                    Err(error) => Err(error),
                },
            },
        ),
        driver.read_write_done(returned, status).0.write_complete_callback().1
            == DeliveryView::Nothing,
{
}

/// No client, no callback: buffers and results stay where they are.
pub proof fn nothing_is_lost_without_client(
    driver: DriverView,
    returned: Seq<u8>,
    status: Result<usize, ErrorCode>,
)
    requires
        !driver.client,
    ensures
        driver.write_complete_callback() == (driver, DeliveryView::NoClient),
        driver.read_write_done(returned, status).0.buffer == driver.buffer,
        !(driver.read_write_done(returned, status).1 is WriteComplete),
{
}

/// Coordinates of any area that the screen can show are kept as they are.
pub proof fn write_frame_kept(driver: DriverView, x: int, y: int, width: int, height: int)
    requires
        0 <= x < 65536,
        0 <= y < 65536,
        0 <= width < 65536,
        0 <= height < 65536,
    ensures
        driver.set_write_frame(x, y, width, height).0 == (DriverView {
            frame: WriteFrame {
                row: y as u16,
                column: x as u16,
                width: width as u16,
                height: height as u16,
            },
            ..driver
        }),
{
}

/// Except at the end of the initialization, the alarm flips EXTCOMIN once and
/// changes nothing in the driver. While the display may be on, it is set again, for
/// ten flips a second.
pub proof fn alarm_flips_extcomin(driver: DriverView)
    requires
        driver.state != State::InitializingRest,
    ensures
        driver.alarm().0 == driver,
        driver.alarm().1 == if driver.state == State::Idle || driver.state == State::AllClearing
            || driver.state == State::Writing || driver.state == State::Bug {
            seq![Action::ExtcominToggle, Action::SetAlarm(Delay::Millis(100))]
        } else {
            seq![Action::ExtcominToggle]
        },
{
}

/// The client's pixel buffer is not submitted anywhere: what goes to the bus is the
/// frame buffer, which leaves the driver, while the pixel buffer stays as it is.
pub proof fn pixels_stay_off_the_bus(
    driver: DriverView,
    data: SubSliceView,
    returned: Seq<u8>,
    status: Result<usize, ErrorCode>,
)
    ensures
        driver.write(data).0.buffer == Some(data.bytes),
        driver.write(data).1.next matches NextView::SpiWrite(sent) ==> {
            &&& driver.frame_buffer is Some
            &&& driver.write(data).0.frame_buffer is None
            &&& sent == lone_command(driver.painted(data), Mode::NoUpdate)
        },
        driver.power_on().0.buffer == driver.buffer,
        driver.power_on().1.next matches NextView::SpiWrite(sent) ==> sent == lone_command(
            driver.frame_buffer->0,
            Mode::AllClear,
        ),
        driver.read_write_done(returned, status).1 matches CompletionView::SpiWrite(sent) ==> {
            &&& driver.read_write_done(returned, status).0.buffer == driver.buffer
            &&& sent == SubSliceView::whole(with_header(returned, 0, Mode::Input4Bit, 1))
        },
{
}

/// A driver is made with room for all lines, and keeps it whatever happens, as long
/// as the bus gives back what has room for them.
pub proof fn wf_kept(
    driver: DriverView,
    frame_buffer: Seq<u8>,
    data: Seq<u8>,
    pixels: SubSliceView,
    error: ErrorCode,
    disarmed: Result<(), ErrorCode>,
    status: Result<usize, ErrorCode>,
)
    requires
        driver.wf(),
        frame_buffer.len() >= BUF_LEN,
        data.len() >= BUF_LEN,
    ensures
        DriverView::initial(frame_buffer).wf(),
        driver.setup().0.wf(),
        driver.power_on().0.wf(),
        driver.power_on_sent(None).0.wf(),
        driver.power_on_sent(Some((error, data))).0.wf(),
        driver.power_off().0.wf(),
        driver.power_off_disarmed(disarmed).0.wf(),
        driver.write(pixels).0.wf(),
        driver.write_sent(None).0.wf(),
        driver.call_write_complete(disarmed).0.wf(),
        driver.write_sent(Some((error, data))).0.wf(),
        driver.alarm().0.wf(),
        driver.read_write_done(data, status).0.wf(),
        driver.write_complete_callback().0.wf(),
        driver.write_complete_delivered().wf(),
        forall|x: int, y: int, width: int, height: int|
            #[trigger] driver.set_write_frame(x, y, width, height).0.wf(),
{
}

/// A driver with room for all lines can answer every event, but for pixels whose
/// area they cannot be copied into.
pub proof fn wf_admits_every_event(driver: DriverView, data: Seq<u8>)
    requires
        driver.wf(),
        data.len() >= BUF_LEN,
    ensures
        driver.can_power_on(),
        driver.can_alarm(),
        driver.can_finish(data),
        driver.frame.blittable() ==> driver.can_write(),
{
}

} // verus!
