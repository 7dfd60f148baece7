//! The driver together with its surroundings, over whole runs.
//!
//! A bus hands back the buffer that it was given, unchanged, when the transfer
//! ends. An alarm fires once for each time it is set, unless it is disarmed. A
//! callback comes due when it was scheduled. Beyond that, everything may happen in
//! any order: requests, alarms, callbacks, refusals.

use crate::frame_buffer::blitted;
use crate::frame_buffer::in_header;
use crate::frame_buffer::line_headed;
use crate::frame_buffer::row_start;
use crate::frame_buffer::with_all_headers;
use crate::frame_buffer::with_header;
use crate::frame_buffer::BUF_LEN;
use crate::frame_laws::blit_idempotent;
use crate::frame_laws::blit_keeps_headers;
use crate::frame_laws::initialize_byte_by_byte;
use crate::frame_laws::initialize_heads_every_line;
use crate::frame_laws::initialize_idempotent;
use crate::frame_laws::initialize_keeps_pixels;
use crate::header::header_bytes;
use crate::header::Mode;
use crate::hil::ErrorCode;
use crate::model::DriverView;
use crate::model::State;
use crate::sub_slice::SubSliceView;
use crate::work::Action;
use crate::work::CompletionView;
use crate::work::Delay;
use crate::work::DeliveryView;
use crate::work::NextView;
use crate::work::WriteCompleteView;
use vstd::prelude::*;

verus! {

/// A driver and what surrounds it.
#[verifier::ext_equal]
pub struct System {
    pub driver: DriverView,
    /// The buffer that is on the bus
    pub bus: Option<SubSliceView>,
    /// Whether the alarm is going to fire
    pub armed: bool,
    /// Whether the write complete callback is going to come due
    pub scheduled: bool,
    /// Whether the client is being called by the write complete callback
    pub delivering: bool,
    /// The buffers that the client passed to `write`, the first one first
    pub written: Seq<Seq<u8>>,
    /// What the client got back, the first one first
    pub returned: Seq<WriteCompleteView>,
}

/// Whether the actions set the alarm.
pub open spec fn sets_alarm(actions: Seq<Action>) -> bool {
    exists|i: int| 0 <= i < actions.len() && #[trigger] actions[i] is SetAlarm
}

/// Something that happens to the driver, with the outcome of the work that the
/// driver asks for.
pub enum Event {
    Setup,
    SetClient,
    /// `refused` is why the clear command cannot be started, if it cannot.
    PowerOn { refused: Option<ErrorCode> },
    PowerOff { disarmed: Result<(), ErrorCode> },
    SetWriteFrame { x: int, y: int, width: int, height: int },
    /// `refused` is why the command cannot be started, if it cannot.
    Write { data: SubSliceView, refused: Option<ErrorCode> },
    /// A result is noted for the client.
    CallWriteComplete { ret: Result<(), ErrorCode> },
    Alarm,
    /// A transfer ends. `started` is whether one that follows can be started.
    TransferEnds { status: Result<usize, ErrorCode>, started: bool },
    WriteCompleteDue,
    WriteCompleteDelivered,
}

impl System {
    /// A fresh driver in surroundings at rest.
    pub open spec fn initial(frame_buffer: Seq<u8>) -> System {
        System {
            driver: DriverView::initial(frame_buffer),
            bus: None,
            armed: false,
            scheduled: false,
            delivering: false,
            written: seq![],
            returned: seq![],
        }
    }

    /// A transfer can only end when there is one, an alarm or a callback only come
    /// when they were asked for, and pixels that are not going to be refused need an
    /// area that they can be copied into.
    pub open spec fn possible(self, event: Event) -> bool {
        match event {
            Event::TransferEnds { .. } => self.bus is Some,
            Event::Alarm => self.armed,
            Event::WriteCompleteDue => self.scheduled && !self.delivering,
            Event::WriteCompleteDelivered => self.delivering,
            Event::Write { data, .. } => {
                &&& 0 <= data.start <= data.end <= data.bytes.len()
                &&& self.driver.write_refusal() is None ==> self.driver.frame.blittable()
            },
            _ => true,
        }
    }

    /// The system after actions were carried out.
    pub open spec fn perform(self, actions: Seq<Action>) -> System {
        System {
            armed: self.armed || sets_alarm(actions),
            scheduled: self.scheduled || actions.contains(Action::ScheduleWriteComplete),
            ..self
        }
    }

    /// The system after an event.
    pub open spec fn after(self, event: Event) -> System {
        let driver = self.driver;
        match event {
            Event::Setup => {
                let (told, reply) = driver.setup();
                System { driver: told, ..self }.perform(reply.actions)
            },
            Event::CallWriteComplete { ret } => {
                let (told, action) = driver.call_write_complete(ret);
                System { driver: told, ..self }.perform(seq![action])
            },
            Event::SetClient => System { driver: DriverView { client: true, ..driver }, ..self },
            Event::PowerOn { refused } => {
                let (asked, step) = driver.power_on();
                let asking = self.perform(step.actions);
                match (step.next, refused) {
                    (NextView::SpiWrite(data), None) => {
                        let (told, reply) = asked.power_on_sent(None);
                        System { driver: told, bus: Some(data), ..asking }.perform(reply.actions)
                    },
                    (NextView::SpiWrite(data), Some(error)) => {
                        let (told, reply) = asked.power_on_sent(Some((error, data.bytes)));
                        System { driver: told, ..asking }.perform(reply.actions)
                    },
                    _ => System { driver: asked, ..asking },
                }
            },
            Event::PowerOff { disarmed } => {
                let (asked, step) = driver.power_off();
                let asking = self.perform(step.actions);
                match step.next {
                    NextView::DisarmAlarm => {
                        let (told, reply) = asked.power_off_disarmed(disarmed);
                        System {
                            driver: told,
                            armed: asking.armed && disarmed is Err,
                            ..asking
                        }.perform(reply.actions)
                    },
                    _ => System { driver: asked, ..asking },
                }
            },
            Event::SetWriteFrame { x, y, width, height } => {
                let (told, reply) = driver.set_write_frame(x, y, width, height);
                System { driver: told, ..self }.perform(reply.actions)
            },
            Event::Write { data, refused } => {
                let (asked, step) = driver.write(data);
                let asking = System {
                    written: self.written.push(data.bytes),
                    ..self.perform(step.actions)
                };
                match (step.next, refused) {
                    (NextView::SpiWrite(sent), None) => {
                        let (told, reply) = asked.write_sent(None);
                        System { driver: told, bus: Some(sent), ..asking }.perform(reply.actions)
                    },
                    (NextView::SpiWrite(sent), Some(error)) => {
                        let (told, reply) = asked.write_sent(Some((error, sent.bytes)));
                        System { driver: told, ..asking }.perform(reply.actions)
                    },
                    _ => System { driver: asked, ..asking },
                }
            },
            Event::Alarm => {
                let (told, actions) = driver.alarm();
                System { driver: told, armed: false, ..self }.perform(actions)
            },
            Event::TransferEnds { status, started } => {
                let (told, completion) = driver.read_write_done(self.bus->0.bytes, status);
                let ended = System { driver: told, bus: None, ..self };
                match completion {
                    CompletionView::Nothing => ended,
                    CompletionView::SetAlarm(_) => System { armed: true, ..ended },
                    CompletionView::SpiWrite(data) => if started {
                        System { bus: Some(data), ..ended }
                    } else {
                        ended
                    },
                    CompletionView::WriteComplete(done) => System {
                        returned: self.returned.push(done),
                        ..ended
                    },
                }
            },
            Event::WriteCompleteDue => {
                let (told, delivery) = driver.write_complete_callback();
                let due = System { driver: told, scheduled: false, ..self };
                match delivery {
                    DeliveryView::NoClient => due,
                    DeliveryView::Nothing => System { delivering: true, ..due },
                    DeliveryView::WriteComplete(done) => System {
                        delivering: true,
                        returned: self.returned.push(done),
                        ..due
                    },
                }
            },
            Event::WriteCompleteDelivered => System {
                driver: driver.write_complete_delivered(),
                delivering: false,
                ..self
            },
        }
    }

    /// The system after a sequence of events, the first one first.
    pub open spec fn run(self, events: Seq<Event>) -> System
        decreases events.len(),
    {
        if events.len() == 0 {
            self
        } else {
            self.run(events.drop_last()).after(events.last())
        }
    }

    /// Whether each event of the sequence can happen when its turn comes.
    pub open spec fn can_run(self, events: Seq<Event>) -> bool
        decreases events.len(),
    {
        events.len() > 0 ==> self.can_run(events.drop_last()) && self.run(
            events.drop_last(),
        ).possible(events.last())
    }

    /// What every event keeps, for a frame buffer of `len` bytes: the buffer is in
    /// one place at most and keeps its size, it is where the state says, and the
    /// lines are headed by their commands as soon as there is a picture. A command
    /// that precedes a picture borrows the first header, which is put right again
    /// before the picture is sent. The alarm is armed as long as EXTCOMIN has to
    /// flip, and not while the display is off.
    pub open spec fn inv(self, len: nat) -> bool {
        let driver = self.driver;
        &&& len >= BUF_LEN
        &&& driver.frame_buffer is None || self.bus is None
        &&& driver.frame_buffer matches Some(data) ==> data.len() == len
        &&& self.bus matches Some(data) ==> data.bytes.len() == len
        &&& match driver.state {
            State::Uninitialized => !self.armed && driver.frame_buffer is Some,
            State::InitializingRest => self.armed && driver.frame_buffer is Some,
            State::Idle => self.armed && driver.frame_buffer is Some && body_headed(driver.frame_buffer->0),
            State::InitializingPixelMemory => self.bus is Some,
            State::AllClearing => self.armed && self.bus is Some && body_headed(self.bus->0.bytes),
            State::Writing => {
                &&& self.armed
                &&& self.bus matches Some(data) ==> data == SubSliceView::whole(data.bytes)
                    && all_headed(data.bytes)
            },
            State::Off => !self.armed,
            State::Bug => true,
        }
    }
}

impl System {
    /// The result that an event notes for the write complete callback, if it notes
    /// one: the result of a call that does just that, or what became of a write,
    /// unless that came while the bus was busy with a picture.
    pub open spec fn noted(self, event: Event) -> Option<Result<(), ErrorCode>> {
        match event {
            Event::CallWriteComplete { ret } => Some(ret),
            Event::Write { refused, .. } => match self.driver.write_refusal() {
                Some(error) => if self.driver.state == State::Writing {
                    None
                } else {
                    Some(Err(error))
                },
                None => Some(
                    match refused {
                        Some(error) => Err(error),
                        None => Ok(()),
                    },
                ),
            },
            _ => None,
        }
    }

    /// The last result that was noted and not yet disposed of, after a sequence of
    /// events.
    pub open spec fn last_noted(self, events: Seq<Event>) -> Option<Result<(), ErrorCode>>
        decreases events.len(),
    {
        if events.len() == 0 {
            self.driver.pending
        } else if events.last() is WriteCompleteDelivered {
            None
        } else {
            match self.run(events.drop_last()).noted(events.last()) {
                Some(result) => Some(result),
                None => self.last_noted(events.drop_last()),
            }
        }
    }

    /// How many writes there were whose buffer is not held any more.
    pub open spec fn settled(self) -> int {
        if self.driver.buffer is Some {
            self.written.len() - 1
        } else {
            self.written.len() as int
        }
    }

    /// What every event keeps of the client's buffers: the client never got back
    /// more than it wrote, what the driver holds is what was written last, and what
    /// came back are buffers that were written, each at most once, unchanged and in
    /// order.
    pub open spec fn accounts(self) -> bool {
        &&& self.returned.len() <= self.settled()
        &&& self.driver.buffer matches Some(pixels) ==> pixels == self.written.last()
        &&& exists|at: Seq<int>|
            returned_in_order(self.written, self.returned, at, self.settled())
    }
}

/// Whether `at` tells, for each buffer that came back, which of the first `bound`
/// writes it came from, later ones from later writes.
pub open spec fn returned_in_order(
    written: Seq<Seq<u8>>,
    returned: Seq<WriteCompleteView>,
    at: Seq<int>,
    bound: int,
) -> bool {
    &&& at.len() == returned.len()
    &&& forall|i: int| 0 <= i < at.len() ==> 0 <= #[trigger] at[i] < bound
    &&& forall|i: int, j: int| 0 <= i < j < at.len() ==> at[i] < at[j]
    &&& forall|i: int|
        0 <= i < at.len() ==> (#[trigger] returned[i]).data == SubSliceView::whole(written[at[i]])
}

/// The buffers that a sequence of events passes to `write`.
pub open spec fn pixels_written(events: Seq<Event>) -> Seq<Seq<u8>>
    decreases events.len(),
{
    if events.len() == 0 {
        seq![]
    } else {
        match events.last() {
            Event::Write { data, .. } => pixels_written(events.drop_last()).push(data.bytes),
            _ => pixels_written(events.drop_last()),
        }
    }
}

/// Whether all lines are headed by their commands.
pub open spec fn all_headed(data: Seq<u8>) -> bool {
    forall|line: int| 0 <= line < 176 ==> #[trigger] line_headed(data, line)
}

/// Whether all lines but the first are headed by their commands.
pub open spec fn body_headed(data: Seq<u8>) -> bool {
    forall|line: int| 1 <= line < 176 ==> #[trigger] line_headed(data, line)
}

/// The pixels of one row of the screen.
pub open spec fn row_pixels(data: Seq<u8>, row: int) -> Seq<u8> {
    data.subrange(row_start(row), row_start(row) + 88)
}

/// A fresh system is in order.
pub proof fn initial_in_order(frame_buffer: Seq<u8>)
    requires
        frame_buffer.len() >= BUF_LEN,
    ensures
        System::initial(frame_buffer).inv(frame_buffer.len()),
{
}

/// Every event keeps the system in order.
pub proof fn event_keeps_order(system: System, event: Event, len: nat)
    requires
        system.inv(len),
        system.possible(event),
    ensures
        system.after(event).inv(len),
{
    match event {
        Event::Write { data, .. } => {
            if system.driver.write_refusal() is None {
                let painted = system.driver.painted(data);
                blit_keeps_headers(
                    system.driver.frame_buffer->0,
                    data.bytes.subrange(0, data.end - data.start),
                    system.driver.frame,
                );
                assert forall|line: int| 1 <= line < 176 implies #[trigger] line_headed(
                    with_header(painted, 0, Mode::NoUpdate, 0),
                    line,
                ) by {
                    assert(line_headed(system.driver.frame_buffer->0, line));
                    assert(line_headed(painted, line));
                }
            }
        },
        Event::TransferEnds { .. } => {
            let data = system.bus->0.bytes;
            initialize_heads_every_line(data);
            if system.driver.state == State::AllClearing {
                assert forall|line: int| 0 <= line < 176 implies #[trigger] line_headed(
                    with_header(data, 0, Mode::Input4Bit, 1),
                    line,
                ) by {
                    if line > 0 {
                        assert(line_headed(data, line));
                    }
                }
            }
        },
        Event::Alarm => {
            let actions = system.driver.alarm().1;
            if system.driver.state == State::InitializingRest {
                assert(actions[2] is SetAlarm);
            } else if system.driver.lit() {
                assert(actions[1] is SetAlarm);
            }
            if system.driver.frame_buffer is Some {
                initialize_heads_every_line(system.driver.frame_buffer->0);
            }
        },
        _ => {},
    }
}

/// Whatever happens, in whatever order, the system stays in order.
pub proof fn run_keeps_order(frame_buffer: Seq<u8>, events: Seq<Event>)
    requires
        frame_buffer.len() >= BUF_LEN,
        System::initial(frame_buffer).can_run(events),
    ensures
        System::initial(frame_buffer).run(events).inv(frame_buffer.len()),
    decreases events.len(),
{
    if events.len() > 0 {
        run_keeps_order(frame_buffer, events.drop_last());
        event_keeps_order(
            System::initial(frame_buffer).run(events.drop_last()),
            events.last(),
            frame_buffer.len(),
        );
    }
}

/// In a system that is in order the driver can answer every event: the buffer is
/// always large enough for what it is used for.
pub proof fn order_admits_every_event(system: System, len: nat)
    requires
        system.inv(len),
    ensures
        system.driver.can_power_on(),
        system.driver.can_alarm(),
        system.bus is Some ==> system.driver.can_finish(system.bus->0.bytes),
        system.driver.frame.blittable() ==> system.driver.can_write(),
{
}

/// In a system that is in order the driver never misses its frame buffer: the end
/// of the initialization makes it idle, and an idle driver takes pixels.
pub proof fn frame_buffer_never_missing(system: System, len: nat)
    requires
        system.inv(len),
    ensures
        system.driver.state == State::InitializingRest ==> system.after(Event::Alarm).driver.state
            == State::Idle,
        system.driver.state == State::Idle ==> system.driver.write_refusal() is None,
{
}

/// Pixels reach the panel: an idle driver first sends a command that stores
/// nothing, and when that is through the whole buffer, in which every line is
/// headed by the command that stores it, and every row shows the client's pixels
/// over the picture that was there. When that is through too the driver is idle
/// again and holds the same picture.
pub proof fn picture_reaches_panel(
    system: System,
    len: nat,
    data: SubSliceView,
    status: Result<usize, ErrorCode>,
    last_status: Result<usize, ErrorCode>,
    last_started: bool,
)
    requires
        system.inv(len),
        system.driver.state == State::Idle,
        system.possible(Event::Write { data, refused: None }),
    ensures
        ({
            let picture = blitted(
                system.driver.frame_buffer->0,
                data.bytes.subrange(0, data.end - data.start),
                system.driver.frame,
            );
            let accepted = system.after(Event::Write { data, refused: None });
            let sending = accepted.after(Event::TransferEnds { status, started: true });
            let sent = sending.after(
                Event::TransferEnds { status: last_status, started: last_started },
            );
            &&& accepted.driver.state == State::AllClearing
            &&& accepted.bus is Some
            &&& accepted.bus->0.active() == header_bytes(Mode::NoUpdate, 0)
            &&& sending.driver.state == State::Writing
            &&& sending.bus is Some
            &&& sending.bus->0.active() == with_all_headers(picture)
            &&& all_headed(sending.bus->0.active())
            &&& forall|row: int|
                0 <= row < 176 ==> #[trigger] row_pixels(sending.bus->0.active(), row)
                    == row_pixels(picture, row)
            &&& sent.driver.state == State::Idle
            &&& sent.driver.frame_buffer == Some(with_all_headers(picture))
            &&& sent.bus is None
        }),
{
    let source = data.bytes.subrange(0, data.end - data.start);
    let screen = system.driver.frame_buffer->0;
    let picture = blitted(screen, source, system.driver.frame);
    let command = with_header(picture, 0, Mode::NoUpdate, 0);
    let transfer = with_header(command, 0, Mode::Input4Bit, 1);
    let accepted = system.after(Event::Write { data, refused: None });
    let sending = accepted.after(Event::TransferEnds { status, started: true });
    blit_keeps_headers(screen, source, system.driver.frame);
    event_keeps_order(system, Event::Write { data, refused: None }, len);
    event_keeps_order(accepted, Event::TransferEnds { status, started: true }, len);
    assert(accepted.bus->0.active() =~= header_bytes(Mode::NoUpdate, 0));
    assert(sending.bus == Some(SubSliceView::whole(transfer)));
    assert(sending.bus->0.active() =~= transfer);
    assert(transfer =~= with_all_headers(picture)) by {
        assert forall|pos: int| 0 <= pos < transfer.len() implies #[trigger] transfer[pos]
            == with_all_headers(picture)[pos] by {
            if in_header(pos) {
                assert(line_headed(transfer, pos / 90));
            }
        }
    }
    initialize_idempotent(picture);
    assert forall|row: int| 0 <= row < 176 implies #[trigger] row_pixels(
        with_all_headers(picture),
        row,
    ) == row_pixels(picture, row) by {
        initialize_keeps_pixels(picture, row);
    }
}

/// When the command that precedes a picture cannot be started, asking for the same
/// pixels again puts the same bytes on the bus as if it had worked at once.
pub proof fn retry_sends_same_picture(
    system: System,
    len: nat,
    data: SubSliceView,
    error: ErrorCode,
)
    requires
        system.inv(len),
        system.driver.state == State::Idle,
        system.possible(Event::Write { data, refused: None }),
    ensures
        ({
            let failed = system.after(Event::Write { data, refused: Some(error) });
            let retried = failed.after(Event::Write { data, refused: None });
            &&& failed.driver.state == State::Idle
            &&& failed.bus is None
            &&& retried.driver == system.after(Event::Write { data, refused: None }).driver
            &&& retried.bus == system.after(Event::Write { data, refused: None }).bus
        }),
{
    let source = data.bytes.subrange(0, data.end - data.start);
    let frame = system.driver.frame;
    let screen = system.driver.frame_buffer->0;
    let picture = blitted(screen, source, frame);
    let command = with_header(picture, 0, Mode::NoUpdate, 0);
    let failed = system.after(Event::Write { data, refused: Some(error) });
    blit_idempotent(screen, source, frame);
    assert(failed.driver.frame_buffer == Some(command));
    assert(blitted(command, source, frame) =~= with_header(
        blitted(picture, source, frame),
        0,
        Mode::NoUpdate,
        0,
    ));
    assert(with_header(blitted(command, source, frame), 0, Mode::NoUpdate, 0) =~= command);
}

/// EXTCOMIN keeps flipping: in every run the alarm is going to fire as long as the
/// display is on, and each time it does it flips EXTCOMIN, or sets it for the first
/// time, and is set again. It does not fire while the display is off.
pub proof fn extcomin_keeps_flipping(frame_buffer: Seq<u8>, events: Seq<Event>)
    requires
        frame_buffer.len() >= BUF_LEN,
        System::initial(frame_buffer).can_run(events),
    ensures
        ({
            let system = System::initial(frame_buffer).run(events);
            let actions = system.driver.alarm().1;
            let on = system.driver.state == State::Idle || system.driver.state
                == State::AllClearing || system.driver.state == State::Writing;
            &&& on || system.driver.state == State::InitializingRest ==> system.armed
                && system.possible(Event::Alarm) && system.after(Event::Alarm).armed
            &&& on ==> actions == seq![
                Action::ExtcominToggle,
                Action::SetAlarm(Delay::Millis(100)),
            ]
            &&& on ==> system.after(Event::Alarm) == system
            &&& system.driver.state == State::InitializingRest ==> actions[0] == Action::ExtcominSet
            &&& system.driver.state == State::Uninitialized || system.driver.state == State::Off
                ==> !system.armed && !system.possible(Event::Alarm)
        }),
{
    run_keeps_order(frame_buffer, events);
    let system = System::initial(frame_buffer).run(events);
    let actions = system.driver.alarm().1;
    if system.driver.state == State::InitializingRest {
        assert(actions[2] is SetAlarm);
    } else if system.driver.lit() {
        assert(actions[1] is SetAlarm);
    }
}

/// A result that is noted for the client has the write complete callback scheduled.
/// Noting it does not call the client.
pub proof fn noted_result_is_scheduled(system: System, event: Event)
    requires
        system.noted(event) is Some,
    ensures
        system.after(event).scheduled,
        system.after(event).driver.pending == system.noted(event),
        system.after(event).returned == system.returned,
{
    assert(seq![Action::ScheduleWriteComplete][0] == Action::ScheduleWriteComplete);
}

/// A scheduled write complete callback stays scheduled until it comes due.
pub proof fn callback_stays_scheduled(system: System, events: Seq<Event>)
    requires
        system.scheduled,
        forall|i: int| 0 <= i < events.len() ==> !(#[trigger] events[i] is WriteCompleteDue),
    ensures
        system.run(events).scheduled,
    decreases events.len(),
{
    if events.len() > 0 {
        let before = events.drop_last();
        assert(forall|i: int| 0 <= i < before.len() ==> before[i] == events[i]);
        callback_stays_scheduled(system, before);
        assert(!(events.last() is WriteCompleteDue));
    }
}

/// One event changes the pending result to what it notes, if it notes anything, and
/// only the end of the callback takes it away.
proof fn event_changes_pending(system: System, event: Event)
    ensures
        system.after(event).driver.pending == if event is WriteCompleteDelivered {
            None
        } else {
            match system.noted(event) {
                Some(result) => Some(result),
                None => system.driver.pending,
            }
        },
{
}

/// Whatever happens in between, the write complete callback reports the last result
/// that was noted, along with the buffer that is held.
pub proof fn last_result_is_reported(system: System, events: Seq<Event>)
    ensures
        system.run(events).driver.pending == system.last_noted(events),
        ({
            let driver = system.run(events).driver;
            driver.client && driver.buffer is Some && system.last_noted(events) is Some
                ==> driver.write_complete_callback().1 == DeliveryView::WriteComplete(
                WriteCompleteView {
                    data: SubSliceView::whole(driver.buffer->0),
                    result: system.last_noted(events)->0,
                },
            )
        }),
    decreases events.len(),
{
    if events.len() > 0 {
        last_result_is_reported(system, events.drop_last());
        event_changes_pending(system.run(events.drop_last()), events.last());
    }
}

/// One event that is neither the callback coming due nor the end of a transfer hands
/// nothing back to the client.
proof fn event_returns_nothing(system: System, event: Event)
    requires
        !(event is WriteCompleteDue),
        !(event is TransferEnds),
    ensures
        system.after(event).returned == system.returned,
{
}

/// Until the write complete callback comes due or a transfer ends, the client gets
/// nothing back.
pub proof fn nothing_returned_before_due(system: System, events: Seq<Event>)
    requires
        forall|i: int|
            0 <= i < events.len() ==> !(#[trigger] events[i] is WriteCompleteDue)
                && !(events[i] is TransferEnds),
    ensures
        system.run(events).returned == system.returned,
    decreases events.len(),
{
    if events.len() > 0 {
        let before = events.drop_last();
        assert(forall|i: int| 0 <= i < before.len() ==> before[i] == events[i]);
        nothing_returned_before_due(system, before);
        assert(!(events.last() is WriteCompleteDue));
        event_returns_nothing(system.run(before), events.last());
    }
}

/// A result that is noted reaches the client: whatever happens before the write
/// complete callback comes due, it stays scheduled, and when it comes due it hands the
/// client the buffer that is held, with the last result that was noted. Where no other
/// was noted, that is this one.
pub proof fn noted_result_reaches_client(
    system: System,
    ret: Result<(), ErrorCode>,
    events: Seq<Event>,
)
    requires
        forall|i: int|
            0 <= i < events.len() ==> !(#[trigger] events[i] is WriteCompleteDue)
                && !(events[i] is WriteCompleteDelivered),
    ensures
        ({
            let noted = system.after(Event::CallWriteComplete { ret });
            let later = noted.run(events);
            let last = noted.last_noted(events);
            &&& noted.scheduled
            &&& noted.returned == system.returned
            &&& later.scheduled
            &&& last is Some
            &&& (forall|i: int|
                0 <= i < events.len() ==> !(#[trigger] events[i] is Write)
                    && !(events[i] is CallWriteComplete)) ==> last == Some(ret)
            &&& later.driver.client && later.driver.buffer is Some ==> later.after(
                Event::WriteCompleteDue,
            ).returned == later.returned.push(
                WriteCompleteView {
                    data: SubSliceView::whole(later.driver.buffer->0),
                    result: last->0,
                },
            )
        }),
    decreases events.len(),
{
    let noted = system.after(Event::CallWriteComplete { ret });
    noted_result_is_scheduled(system, Event::CallWriteComplete { ret });
    callback_stays_scheduled(noted, events);
    last_result_is_reported(noted, events);
    if events.len() > 0 {
        let before = events.drop_last();
        assert(forall|i: int| 0 <= i < before.len() ==> before[i] == events[i]);
        noted_result_reaches_client(system, ret, before);
        assert(events.last() == events[events.len() - 1]);
    }
}

/// Every event keeps the accounts of the client's buffers.
pub proof fn event_keeps_accounts(system: System, event: Event)
    requires
        system.accounts(),
    ensures
        system.after(event).accounts(),
{
    let after = system.after(event);
    let at = choose|at: Seq<int>|
        returned_in_order(system.written, system.returned, at, system.settled());
    if after.returned.len() > system.returned.len() {
        let more = at.push(system.written.len() - 1);
        assert(returned_in_order(after.written, after.returned, more, after.settled()));
    } else {
        assert(returned_in_order(after.written, after.returned, at, after.settled()));
    }
}

/// Over every run, the client gets back at most as many buffers as it passed to
/// `write`, not counting one that is still held; and what it gets back is what it
/// wrote: whole, unchanged, each buffer at most once, and in order.
pub proof fn pixels_come_back_at_most_once(frame_buffer: Seq<u8>, events: Seq<Event>)
    ensures
        System::initial(frame_buffer).run(events).accounts(),
        System::initial(frame_buffer).run(events).written == pixels_written(events),
        System::initial(frame_buffer).run(events).returned.len() <= pixels_written(events).len(),
    decreases events.len(),
{
    let initial = System::initial(frame_buffer);
    if events.len() > 0 {
        pixels_come_back_at_most_once(frame_buffer, events.drop_last());
        event_keeps_accounts(initial.run(events.drop_last()), events.last());
    } else {
        assert(returned_in_order(initial.written, initial.returned, seq![], initial.settled()));
    }
}

impl System {
    /// The bytes of the frame buffer, wherever it is.
    pub open spec fn picture(self) -> Option<Seq<u8>> {
        match (self.driver.frame_buffer, self.bus) {
            (Some(data), _) => Some(data),
            (None, Some(data)) => Some(data.bytes),
            (None, None) => None,
        }
    }

    /// Whether an event is a write that is not refused.
    pub open spec fn paints(self, event: Event) -> bool {
        event is Write && self.driver.state == State::Idle && self.driver.frame_buffer is Some
    }

    /// Whether no event of the sequence is a write that is not refused.
    pub open spec fn unpainted(self, events: Seq<Event>) -> bool
        decreases events.len(),
    {
        events.len() > 0 ==> self.unpainted(events.drop_last()) && !self.run(
            events.drop_last(),
        ).paints(events.last())
    }
}

/// Whether an event neither ends a transfer nor turns the display off.
pub open spec fn meanwhile(event: Event) -> bool {
    !(event is TransferEnds) && !(event is PowerOff)
}

/// No event but a write that is not refused changes a pixel of the frame buffer, whether
/// the driver holds it or the bus does.
pub proof fn event_keeps_pixels(system: System, event: Event, len: nat, row: int)
    requires
        system.inv(len),
        system.possible(event),
        !system.paints(event),
        system.after(event).picture() is Some,
        0 <= row < 176,
    ensures
        system.picture() is Some,
        row_pixels(system.after(event).picture()->0, row) == row_pixels(system.picture()->0, row),
{
    let before = system.picture()->0;
    let after = system.after(event).picture()->0;
    match event {
        Event::PowerOn { .. } => {
            if system.driver.frame_buffer is Some {
                assert(row_pixels(with_header(before, 0, Mode::AllClear, 0), row) =~= row_pixels(
                    before,
                    row,
                ));
            }
        },
        Event::TransferEnds { .. } => {
            assert(row_pixels(with_header(before, 0, Mode::Input4Bit, 1), row) =~= row_pixels(
                before,
                row,
            ));
            initialize_keeps_pixels(before, row);
        },
        Event::Alarm => {
            if system.driver.frame_buffer is Some {
                initialize_keeps_pixels(before, row);
            }
        },
        _ => {},
    }
}

/// A system in order stays in order over every sequence of events.
pub proof fn order_is_kept(system: System, events: Seq<Event>, len: nat)
    requires
        system.inv(len),
        system.can_run(events),
    ensures
        system.run(events).inv(len),
    decreases events.len(),
{
    if events.len() > 0 {
        order_is_kept(system, events.drop_last(), len);
        event_keeps_order(system.run(events.drop_last()), events.last(), len);
    }
}

/// The screen is cached: over every sequence of events without a write that is not
/// refused, through power cycles, transfers and failures, the pixels of the frame buffer
/// stay, unless the buffer itself is lost.
pub proof fn only_writes_change_pixels(
    system: System,
    events: Seq<Event>,
    len: nat,
    row: int,
)
    requires
        system.inv(len),
        system.can_run(events),
        system.unpainted(events),
        system.run(events).picture() is Some,
        0 <= row < 176,
    ensures
        system.picture() is Some,
        row_pixels(system.run(events).picture()->0, row) == row_pixels(system.picture()->0, row),
    decreases events.len(),
{
    if events.len() > 0 {
        let before = events.drop_last();
        order_is_kept(system, before, len);
        event_keeps_pixels(system.run(before), events.last(), len, row);
        only_writes_change_pixels(system, before, len, row);
    }
}

/// A write that is not refused paints the client's pixels over the cached screen, whether
/// or not its command can be started.
pub proof fn write_changes_pixels(
    system: System,
    len: nat,
    data: SubSliceView,
    refused: Option<ErrorCode>,
    row: int,
)
    requires
        system.inv(len),
        system.driver.state == State::Idle,
        system.possible(Event::Write { data, refused }),
        0 <= row < 176,
    ensures
        ({
            let after = system.after(Event::Write { data, refused });
            &&& system.driver.frame_buffer is Some
            &&& after.picture() is Some
            &&& row_pixels(after.picture()->0, row) == row_pixels(
                blitted(
                    system.driver.frame_buffer->0,
                    data.bytes.take(data.end - data.start),
                    system.driver.frame,
                ),
                row,
            )
        }),
{
    let source = data.bytes.take(data.end - data.start);
    assert(data.bytes.subrange(0, data.end - data.start) =~= source);
    let painted = blitted(system.driver.frame_buffer->0, source, system.driver.frame);
    assert(row_pixels(with_header(painted, 0, Mode::NoUpdate, 0), row) =~= row_pixels(
        painted,
        row,
    ));
}

/// While a command or a picture is on the bus, nothing but the end of the transfer or
/// turning off gets in its way.
proof fn event_leaves_transfer(system: System, event: Event)
    requires
        system.driver.state == State::AllClearing || system.driver.state == State::Writing,
        meanwhile(event),
    ensures
        system.after(event).driver.state == system.driver.state,
        system.after(event).driver.frame_buffer == system.driver.frame_buffer,
        system.after(event).bus == system.bus,
{
}

/// Whatever happens while a command or a picture is on the bus, short of the end of the
/// transfer and of turning off, leaves the transfer alone.
pub proof fn transfer_is_left_alone(system: System, events: Seq<Event>)
    requires
        system.driver.state == State::AllClearing || system.driver.state == State::Writing,
        forall|i: int| 0 <= i < events.len() ==> meanwhile(#[trigger] events[i]),
    ensures
        system.run(events).driver.state == system.driver.state,
        system.run(events).driver.frame_buffer == system.driver.frame_buffer,
        system.run(events).bus == system.bus,
    decreases events.len(),
{
    if events.len() > 0 {
        let before = events.drop_last();
        assert(forall|i: int| 0 <= i < before.len() ==> before[i] == events[i]);
        transfer_is_left_alone(system, before);
        assert(meanwhile(events[events.len() - 1]));
        event_leaves_transfer(system.run(before), events.last());
    }
}

/// Pixels reach the panel whatever happens while they are on their way: callbacks, alarms,
/// further writes, a new area. The panel gets all 176 lines headed, with the client's
/// pixels over the picture that was there, and the driver keeps that picture.
pub proof fn picture_reaches_panel_meanwhile(
    system: System,
    len: nat,
    data: SubSliceView,
    status: Result<usize, ErrorCode>,
    last_status: Result<usize, ErrorCode>,
    last_started: bool,
    first: Seq<Event>,
    then: Seq<Event>,
    row: int,
)
    requires
        system.inv(len),
        system.driver.state == State::Idle,
        system.possible(Event::Write { data, refused: None }),
        forall|i: int| 0 <= i < first.len() ==> meanwhile(#[trigger] first[i]),
        forall|i: int| 0 <= i < then.len() ==> meanwhile(#[trigger] then[i]),
        0 <= row < 176,
    ensures
        ({
            let picture = blitted(
                system.driver.frame_buffer->0,
                data.bytes.take(data.end - data.start),
                system.driver.frame,
            );
            let waiting = system.after(Event::Write { data, refused: None }).run(first);
            let sending = waiting.after(Event::TransferEnds { status, started: true }).run(then);
            let sent = sending.after(
                Event::TransferEnds { status: last_status, started: last_started },
            );
            &&& waiting.driver.state == State::AllClearing
            &&& waiting.bus is Some
            &&& waiting.bus->0.active() == header_bytes(Mode::NoUpdate, 0)
            &&& sending.driver.state == State::Writing
            &&& sending.bus is Some
            &&& sending.bus->0.start == 0
            &&& sending.bus->0.end == len
            &&& sending.bus->0.bytes.len() == len
            &&& sending.bus->0.bytes[90 * row] == 0x90
            &&& sending.bus->0.bytes[90 * row + 1] == row + 1
            &&& row_pixels(sending.bus->0.bytes, row) == row_pixels(picture, row)
            &&& sent.driver.state == State::Idle
            &&& sent.driver.frame_buffer is Some
            &&& row_pixels(sent.driver.frame_buffer->0, row) == row_pixels(picture, row)
        }),
{
    let source = data.bytes.take(data.end - data.start);
    assert(data.bytes.subrange(0, data.end - data.start) =~= source);
    let picture = blitted(system.driver.frame_buffer->0, source, system.driver.frame);
    let accepted = system.after(Event::Write { data, refused: None });
    let waiting = accepted.run(first);
    let turned = waiting.after(Event::TransferEnds { status, started: true });
    let sending = turned.run(then);
    picture_reaches_panel(system, len, data, status, last_status, last_started);
    transfer_is_left_alone(accepted, first);
    let at_once = accepted.after(Event::TransferEnds { status, started: true });
    assert(turned.driver.state == State::Writing);
    assert(turned.bus == at_once.bus);
    transfer_is_left_alone(turned, then);
    let bytes = sending.bus->0.bytes;
    assert(sending.bus->0.active() =~= bytes);
    assert(bytes == with_all_headers(picture));
    assert(line_headed(bytes, row));
    initialize_byte_by_byte(picture, row, 15840);
    initialize_keeps_pixels(picture, row);
    initialize_keeps_pixels(bytes, row);
}

} // verus!
