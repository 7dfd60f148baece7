//! What each event does to a driver in any condition, down to the bytes.
//!
//! Wherever a driver is not said to change, it does not: area, pending result, frame
//! buffer, pixel buffer and client of the driver play no part but where they are
//! named.

use crate::frame_buffer::blitted;
use crate::hil::ErrorCode;
use crate::model::DriverView;
use crate::model::State;
use crate::sub_slice::SubSlice;
use crate::sub_slice::SubSliceView;
use crate::work::refused;
use crate::work::Action;
use crate::work::Completion;
use crate::work::CompletionView;
use crate::work::Delay;
use crate::work::Delivery;
use crate::work::DeliveryView;
use crate::work::Next;
use crate::work::NextView;
use crate::work::Reply;
use crate::work::ReplyView;
use crate::work::Step;
use crate::work::WriteComplete;
use vstd::prelude::*;

verus! {

/// A fresh driver holds its frame buffer untouched, shows the whole screen, and has
/// nothing to report, no pixels and no client.
pub proof fn fresh_driver(frame_buffer: Seq<u8>)
    ensures
        ({
            let driver = DriverView::initial(frame_buffer);
            &&& driver.state == State::Uninitialized
            &&& driver.frame.row == 0
            &&& driver.frame.column == 0
            &&& driver.frame.width == 176
            &&& driver.frame.height == 176
            &&& driver.pending is None
            &&& driver.frame_buffer == Some(frame_buffer)
            &&& driver.buffer is None
            &&& !driver.client
        }),
{
}

/// Setting up turns an uninitialized driver off and registers the three deferred
/// calls. In any other state it answers `ALREADY` and does nothing.
pub proof fn setup_from_any_state(driver: DriverView)
    ensures
        driver.state == State::Uninitialized ==> {
            &&& driver.setup().0 == (DriverView { state: State::Off, ..driver })
            &&& driver.setup().1.result is Ok
            &&& driver.setup().1.actions.len() == 3
            &&& driver.setup().1.actions[0] == Action::RegisterReady
            &&& driver.setup().1.actions[1] == Action::RegisterCommandComplete
            &&& driver.setup().1.actions[2] == Action::RegisterWriteComplete
        },
        driver.state != State::Uninitialized ==> {
            &&& driver.setup().0 == driver
            &&& driver.setup().1.result == Err::<(), ErrorCode>(ErrorCode::ALREADY)
            &&& driver.setup().1.actions.len() == 0
        },
{
}

/// Turning on a display that is off or buggy makes both pins outputs and drives them
/// low. If the frame buffer is there, it then leaves for the bus: its first two bytes
/// become the clear command, which is all that is sent, and the others stay. If it is
/// not there the answer is `NOMEM`. In any other state the client is told that the
/// display is on.
pub proof fn power_on_from_any_state(driver: DriverView, pos: int)
    requires
        driver.frame_buffer matches Some(data) ==> data.len() >= 92,
    ensures
        ({
            let (after, step) = driver.power_on();
            if driver.state == State::Off || driver.state == State::Bug {
                &&& step.actions.len() == 4
                &&& step.actions[0] == Action::ExtcominMakeOutput
                &&& step.actions[1] == Action::ExtcominClear
                &&& step.actions[2] == Action::DispMakeOutput
                &&& step.actions[3] == Action::DispClear
                &&& driver.frame_buffer is None ==> after == driver && step.next
                    == NextView::Return(Err(ErrorCode::NOMEM))
                &&& driver.frame_buffer matches Some(data) ==> {
                    &&& after == (DriverView { frame_buffer: None, ..driver })
                    &&& step.next matches NextView::SpiWrite(sent)
                    &&& sent.start == 0
                    &&& sent.end == 2
                    &&& sent.bytes.len() == data.len()
                    &&& sent.bytes[0] == 0x20
                    &&& sent.bytes[1] == 0
                    &&& 2 <= pos < data.len() ==> sent.bytes[pos] == data[pos]
                }
            } else {
                &&& after == driver
                &&& step.actions.len() == 1
                &&& step.actions[0] == Action::ScheduleReady
                &&& step.next == NextView::Return(Ok(()))
            }
        }),
{
}

/// Once the clear command was started the driver initializes. If it came back, the
/// driver is buggy and has the buffer; the error is the answer, except that `ALREADY`
/// counts as success and has the client told.
pub proof fn power_on_outcome(driver: DriverView, error: ErrorCode, data: Seq<u8>)
    ensures
        driver.power_on_sent(None).0 == (DriverView {
            state: State::InitializingPixelMemory,
            ..driver
        }),
        driver.power_on_sent(None).1.result is Ok,
        driver.power_on_sent(None).1.actions.len() == 0,
        driver.power_on_sent(Some((error, data))).0 == (DriverView {
            state: State::Bug,
            frame_buffer: Some(data),
            ..driver
        }),
        power_error_answered(error, driver.power_on_sent(Some((error, data))).1),
{
}

/// Whether a reply is the right one to a power request that met an error.
pub open spec fn power_error_answered(error: ErrorCode, reply: ReplyView) -> bool {
    &&& error == ErrorCode::ALREADY ==> reply.result is Ok && reply.actions.len() == 1
        && reply.actions[0] == Action::ScheduleReady
    &&& error != ErrorCode::ALREADY ==> reply.result == Err::<(), ErrorCode>(error)
        && reply.actions.len() == 0
}

/// Turning off asks for the alarm to be disarmed in every state but `Off`, where the
/// client is told that the display is off. Nothing changes yet.
pub proof fn power_off_from_any_state(driver: DriverView)
    ensures
        driver.power_off().0 == driver,
        driver.state == State::Off ==> {
            &&& driver.power_off().1.actions.len() == 1
            &&& driver.power_off().1.actions[0] == Action::ScheduleReady
            &&& driver.power_off().1.next == NextView::Return(Ok(()))
        },
        driver.state != State::Off ==> {
            &&& driver.power_off().1.actions.len() == 0
            &&& driver.power_off().1.next == NextView::DisarmAlarm
        },
{
}

/// Once the alarm is disarmed DISP goes low, the driver is off, and the client is
/// told. If the alarm cannot be disarmed nothing changes; the error is the answer,
/// except that `ALREADY` counts as success and has the client told.
pub proof fn power_off_outcome(driver: DriverView, error: ErrorCode)
    ensures
        driver.power_off_disarmed(Ok(())).0 == (DriverView { state: State::Off, ..driver }),
        driver.power_off_disarmed(Ok(())).1.result is Ok,
        driver.power_off_disarmed(Ok(())).1.actions.len() == 2,
        driver.power_off_disarmed(Ok(())).1.actions[0] == Action::DispClear,
        driver.power_off_disarmed(Ok(())).1.actions[1] == Action::ScheduleReady,
        driver.power_off_disarmed(Err(error)).0 == driver,
        power_error_answered(error, driver.power_off_disarmed(Err(error)).1),
{
}

/// Choosing an area always succeeds, on the screen or off it, and always has the
/// client told. Each coordinate is kept modulo 65536, and nothing else changes.
pub proof fn any_area_is_taken(driver: DriverView, x: int, y: int, width: int, height: int)
    ensures
        ({
            let (after, reply) = driver.set_write_frame(x, y, width, height);
            &&& reply.result is Ok
            &&& reply.actions.len() == 1
            &&& reply.actions[0] == Action::ScheduleCommandComplete
            &&& after.frame.row == y % 65536
            &&& after.frame.column == x % 65536
            &&& after.frame.width == width % 65536
            &&& after.frame.height == height % 65536
            &&& after == (DriverView { frame: after.frame, ..driver })
        }),
{
}

/// A write is refused with `OFF` before the display is on, with `BUSY` while it is
/// initializing or busy with a picture, with `FAIL` when the driver is buggy, and with
/// `NOMEM` when it is idle but its frame buffer is away. The pixels are kept, and the
/// error is noted for the client, except while a picture is being sent.
pub proof fn write_refused_by_state(driver: DriverView, data: SubSliceView)
    requires
        driver.state != State::Idle || driver.frame_buffer is None,
    ensures
        ({
            let (after, step) = driver.write(data);
            let error = if driver.state == State::Uninitialized || driver.state == State::Off {
                ErrorCode::OFF
            } else if driver.state == State::Bug {
                ErrorCode::FAIL
            } else if driver.state == State::Idle {
                ErrorCode::NOMEM
            } else {
                ErrorCode::BUSY
            };
            &&& step.next == NextView::Return(Err(error))
            &&& driver.state == State::Writing ==> {
                &&& after == (DriverView { buffer: Some(data.bytes), ..driver })
                &&& step.actions.len() == 0
            }
            &&& driver.state != State::Writing ==> {
                &&& after == (DriverView {
                    buffer: Some(data.bytes),
                    pending: Some(Err(error)),
                    ..driver
                })
                &&& step.actions.len() == 1
                &&& step.actions[0] == Action::ScheduleWriteComplete
            }
        }),
{
}

/// An idle driver takes the pixels. The frame buffer leaves for the bus with as many
/// bytes of the client's buffer as the window has, counted from its beginning, painted
/// into the chosen area; its first two bytes become a command that stores nothing,
/// which is all that is sent. The client's buffer is kept.
pub proof fn write_taken_when_idle(driver: DriverView, data: SubSliceView, pos: int)
    requires
        driver.state == State::Idle,
        driver.frame_buffer is Some,
        driver.frame_buffer->0.len() >= 92,
        0 <= data.start <= data.end <= data.bytes.len(),
    ensures
        ({
            let screen = driver.frame_buffer->0;
            let (after, step) = driver.write(data);
            &&& after == (DriverView { frame_buffer: None, buffer: Some(data.bytes), ..driver })
            &&& step.actions.len() == 0
            &&& step.next matches NextView::SpiWrite(sent)
            &&& sent.start == 0
            &&& sent.end == 2
            &&& sent.bytes.len() == screen.len()
            &&& sent.bytes[0] == 0xa0
            &&& sent.bytes[1] == 0
            &&& 2 <= pos < screen.len() ==> sent.bytes[pos] == blitted(
                screen,
                data.bytes.take(data.end - data.start),
                driver.frame,
            )[pos]
        }),
{
    assert(data.bytes.subrange(0, data.end - data.start) =~= data.bytes.take(
        data.end - data.start,
    ));
}

/// Once the command was started the driver waits for its end. If it came back, the
/// driver is idle and has the buffer. Either way the client is going to hear what
/// became of it, and that is the answer.
pub proof fn write_outcome(driver: DriverView, error: ErrorCode, data: Seq<u8>)
    ensures
        ({
            let (after, reply) = driver.write_sent(None);
            &&& after == (DriverView {
                state: State::AllClearing,
                pending: Some(Ok(())),
                ..driver
            })
            &&& reply.result is Ok
            &&& reply.actions.len() == 1
            &&& reply.actions[0] == Action::ScheduleWriteComplete
        }),
        ({
            let (after, reply) = driver.write_sent(Some((error, data)));
            &&& after == (DriverView {
                state: State::Idle,
                frame_buffer: Some(data),
                pending: Some(Err(error)),
                ..driver
            })
            &&& reply.result == Err::<(), ErrorCode>(error)
            &&& reply.actions.len() == 1
            &&& reply.actions[0] == Action::ScheduleWriteComplete
        }),
{
}

/// Noting a result replaces the one noted before, has the callback scheduled, and
/// changes nothing else.
pub proof fn noting_a_result(driver: DriverView, ret: Result<(), ErrorCode>)
    ensures
        driver.call_write_complete(ret).0 == (DriverView { pending: Some(ret), ..driver }),
        driver.call_write_complete(ret).1 == Action::ScheduleWriteComplete,
{
}

/// At the end of the initialization the alarm drives EXTCOMIN and DISP high, sets
/// itself for the next flip, and tells the client, if there is one, that the screen is
/// ready. A driver that lost its frame buffer does the same but tells nobody and is
/// buggy.
pub proof fn alarm_ends_initialization(driver: DriverView)
    requires
        driver.state == State::InitializingRest,
    ensures
        ({
            let (after, actions) = driver.alarm();
            &&& actions.len() == if driver.client && driver.frame_buffer is Some {
                4nat
            } else {
                3nat
            }
            &&& actions[0] == Action::ExtcominSet
            &&& actions[1] == Action::DispSet
            &&& actions[2] == Action::SetAlarm(Delay::Millis(100))
            &&& driver.client && driver.frame_buffer is Some ==> actions[3]
                == Action::ScreenIsReady
            &&& driver.frame_buffer is None ==> after == (DriverView {
                state: State::Bug,
                ..driver
            })
            &&& driver.frame_buffer is Some ==> after == (DriverView {
                state: State::Idle,
                frame_buffer: after.frame_buffer,
                ..driver
            })
        }),
{
}

/// Whether `after` is `before` with the 176 lines headed by the commands that store
/// them, 4-bit data for the rows from one up, and every other byte kept; seen at one
/// line and one position.
pub open spec fn headed_at(before: Seq<u8>, after: Seq<u8>, line: int, pos: int) -> bool {
    &&& after.len() == before.len()
    &&& 0 <= line < 176 ==> after[90 * line] == 0x90 && after[90 * line + 1] == line + 1
    &&& 0 <= pos < before.len() && (pos % 90 >= 2 || pos >= 15840) ==> after[pos] == before[pos]
}

/// At the end of the initialization every line of the frame buffer gets its header, and
/// the rest of it stays.
pub proof fn alarm_heads_lines(driver: DriverView, line: int, pos: int)
    requires
        driver.state == State::InitializingRest,
        driver.frame_buffer is Some,
        driver.frame_buffer->0.len() >= 15842,
    ensures
        driver.alarm().0.frame_buffer is Some,
        headed_at(driver.frame_buffer->0, driver.alarm().0.frame_buffer->0, line, pos),
{
}

/// In every other state the alarm flips EXTCOMIN once and leaves the driver alone. It is
/// set again where the display may be on.
pub proof fn alarm_otherwise(driver: DriverView)
    requires
        driver.state != State::InitializingRest,
    ensures
        driver.alarm().0 == driver,
        driver.alarm().1[0] == Action::ExtcominToggle,
        driver.state == State::Uninitialized || driver.state == State::Off || driver.state
            == State::InitializingPixelMemory ==> driver.alarm().1.len() == 1,
        driver.state == State::Idle || driver.state == State::AllClearing || driver.state
            == State::Writing || driver.state == State::Bug ==> driver.alarm().1.len() == 2
            && driver.alarm().1[1] == Action::SetAlarm(Delay::Millis(100)),
{
}

/// The end of the clear command has the driver wait for the rest of the
/// initialization, with its buffer back as it came.
pub proof fn clear_command_ends(
    driver: DriverView,
    data: Seq<u8>,
    status: Result<usize, ErrorCode>,
)
    requires
        driver.state == State::InitializingPixelMemory,
    ensures
        driver.read_write_done(data, status).0 == (DriverView {
            state: State::InitializingRest,
            frame_buffer: Some(data),
            ..driver
        }),
        driver.read_write_done(data, status).1 == CompletionView::SetAlarm(Delay::Micros(150)),
{
}

/// The end of the command that stores nothing sends the whole buffer on, with its first
/// two bytes turned into the header of the first line and every other byte as it came.
pub proof fn empty_command_ends(
    driver: DriverView,
    data: Seq<u8>,
    status: Result<usize, ErrorCode>,
    pos: int,
)
    requires
        driver.state == State::AllClearing,
        data.len() >= 92,
    ensures
        driver.read_write_done(data, status).0 == (DriverView {
            state: State::Writing,
            frame_buffer: None,
            ..driver
        }),
        ({
            &&& driver.read_write_done(data, status).1 matches CompletionView::SpiWrite(sent)
            &&& sent.start == 0
            &&& sent.end == data.len()
            &&& sent.bytes.len() == data.len()
            &&& sent.bytes[0] == 0x90
            &&& sent.bytes[1] == 1
            &&& 2 <= pos < data.len() ==> sent.bytes[pos] == data[pos]
        }),
{
}

/// The end of a picture makes the driver idle. Whether or not it still holds the
/// client's pixels, the picture that came back is kept: only the line headers are
/// written.
pub proof fn picture_is_kept(
    driver: DriverView,
    data: Seq<u8>,
    status: Result<usize, ErrorCode>,
    line: int,
    pos: int,
)
    requires
        driver.state == State::Writing,
        data.len() >= 15842,
    ensures
        ({
            let after = driver.read_write_done(data, status).0;
            &&& after.state == State::Idle
            &&& after.frame_buffer is Some
            &&& headed_at(data, after.frame_buffer->0, line, pos)
            &&& after.frame == driver.frame
            &&& after.pending == driver.pending
            &&& after.client == driver.client
        }),
{
}

/// The end of a picture hands the client its whole buffer, if there is a client and the
/// driver still has the buffer, with the outcome of the transfer. Otherwise it hands out
/// nothing, and what the driver has it keeps.
pub proof fn picture_end_hands_back_pixels(
    driver: DriverView,
    data: Seq<u8>,
    status: Result<usize, ErrorCode>,
)
    requires
        driver.state == State::Writing,
    ensures
        ({
            let (after, completion) = driver.read_write_done(data, status);
            if driver.client && driver.buffer is Some {
                &&& after.buffer is None
                &&& completion matches CompletionView::WriteComplete(done)
                &&& done.data.bytes == driver.buffer->0
                &&& done.data.start == 0
                &&& done.data.end == driver.buffer->0.len()
                &&& status is Ok ==> done.result is Ok
                &&& status matches Err(error) ==> done.result == Err::<(), ErrorCode>(error)
            } else {
                &&& after.buffer == driver.buffer
                &&& completion is Nothing
            }
        }),
{
}

/// The end of a transfer that nobody waits for makes the driver buggy, with the buffer
/// back as it came.
pub proof fn stray_transfer_ends(
    driver: DriverView,
    data: Seq<u8>,
    status: Result<usize, ErrorCode>,
)
    requires
        driver.state == State::Uninitialized || driver.state == State::Off || driver.state
            == State::InitializingRest || driver.state == State::Idle || driver.state
            == State::Bug,
    ensures
        driver.read_write_done(data, status).0 == (DriverView {
            state: State::Bug,
            frame_buffer: Some(data),
            ..driver
        }),
        driver.read_write_done(data, status).1 is Nothing,
{
}

/// The write complete callback hands the client its whole buffer with the noted result,
/// if there is a client, a result and a buffer. Without a client nothing happens; in
/// every case all but the buffer stays.
pub proof fn write_complete_callback_in_any_state(driver: DriverView)
    ensures
        ({
            let (after, delivery) = driver.write_complete_callback();
            &&& !driver.client ==> after == driver && delivery is NoClient
            &&& driver.client && (driver.pending is None || driver.buffer is None) ==> after
                == driver && delivery is Nothing
            &&& driver.client && driver.pending is Some && driver.buffer is Some ==> {
                &&& after == (DriverView { buffer: None, ..driver })
                &&& delivery matches DeliveryView::WriteComplete(done)
                &&& done.data.bytes == driver.buffer->0
                &&& done.data.start == 0
                &&& done.data.end == driver.buffer->0.len()
                &&& done.result == driver.pending->0
            }
        }),
        driver.write_complete_delivered() == (DriverView { pending: None, ..driver }),
{
}

/// What the driver needs of its frame buffer and area before an event, and nothing more:
/// a line to put a command in, room for all lines where they are going to be headed, and
/// an area that pixels can be copied into.
pub proof fn needs_of_events(driver: DriverView, data: Seq<u8>)
    ensures
        driver.can_power_on() <==> !((driver.state == State::Off || driver.state == State::Bug)
            && driver.frame_buffer is Some && driver.frame_buffer->0.len() < 92),
        driver.can_alarm() <==> !(driver.state == State::InitializingRest
            && driver.frame_buffer is Some && driver.frame_buffer->0.len() < 15842),
        driver.can_finish(data) <==> !(driver.state == State::AllClearing && data.len() < 92)
            && !(driver.state == State::Writing && data.len() < 15842),
        driver.can_write() <==> driver.state != State::Idle || driver.frame_buffer is None || (
        driver.frame_buffer->0.len() >= 92 && driver.frame.column % 2 == 0 && driver.frame.width
            >= 2 && driver.frame.row + driver.frame.height < 65536),
{
}

/// The models of what the driver returns leave nothing out and add nothing.
pub proof fn work_is_modelled_faithfully(
    step: Step,
    reply: Reply,
    done: WriteComplete,
    data: SubSlice,
    result: Result<(), ErrorCode>,
    error: ErrorCode,
    delay: Delay,
)
    ensures
        step@.actions == step.actions@,
        step@.next == step.next@,
        Next::Return(result)@ == NextView::Return(result),
        Next::SpiWrite(data)@ == NextView::SpiWrite(data@),
        Next::DisarmAlarm@ == NextView::DisarmAlarm,
        reply@.actions == reply.actions@,
        reply@.result == reply.result,
        done@.data == done.data@,
        done@.result == done.result,
        Completion::Nothing@ == CompletionView::Nothing,
        Completion::SetAlarm(delay)@ == CompletionView::SetAlarm(delay),
        Completion::SpiWrite(data)@ == CompletionView::SpiWrite(data@),
        Completion::WriteComplete(done)@ == CompletionView::WriteComplete(done@),
        Delivery::NoClient@ == DeliveryView::NoClient,
        Delivery::Nothing@ == DeliveryView::Nothing,
        Delivery::WriteComplete(done)@ == DeliveryView::WriteComplete(done@),
        refused(Ok(())) is None,
        refused(Err((error, data))) == Some((error, data@.bytes)),
{
}

/// A buffer with a window over all of it, and the bytes inside a window.
pub proof fn windows(data: SubSliceView, i: int)
    requires
        0 <= data.start <= data.end <= data.bytes.len(),
    ensures
        SubSliceView::whole(data.bytes).bytes == data.bytes,
        SubSliceView::whole(data.bytes).start == 0,
        SubSliceView::whole(data.bytes).end == data.bytes.len(),
        data.active().len() == data.end - data.start,
        0 <= i < data.end - data.start ==> data.active()[i] == data.bytes[data.start + i],
{
}

} // verus!
