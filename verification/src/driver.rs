//! The driver for the LPM013M126.

use crate::frame_buffer::FrameBuffer;
use crate::frame_buffer::WriteFrame;
use crate::frame_buffer::BUF_LEN;
use crate::header::CommandHeader;
use crate::header::Mode;
use crate::hil::ErrorCode;
use crate::hil::ScreenPixelFormat;
use crate::hil::ScreenRotation;
use crate::model::lone_command;
use crate::model::pins_low;
use crate::model::registrations;
use crate::model::DriverView;
use crate::model::State;
use crate::sub_slice::SubSlice;
use crate::work::refused;
use crate::work::Action;
use crate::work::Completion;
use crate::work::Delay;
use crate::work::Delivery;
use crate::work::Next;
use crate::work::NextView;
use crate::work::Reply;
use crate::work::ReplyView;
use crate::work::Sent;
use crate::work::Step;
use crate::work::StepView;
use crate::work::WriteComplete;
use vstd::prelude::*;
use vstd::slice::slice_subrange;

verus! {

/// Why a driver could not be made.
#[derive(Debug, Clone, Copy, PartialEq, Eq, Structural)]
pub enum InitError {
    BufferTooSmall,
}

/// The driver's memory and decisions.
///
/// The bus, the pins, the alarm and the client belong to the caller, who turns
/// what they report into calls of these methods and carries out what the methods
/// ask for.
#[derive(Debug)]
pub struct Lpm013m126 {
    state: State,
    frame: WriteFrame,
    /// Holds the pending call parameter
    write_complete_pending_call: Option<Result<(), ErrorCode>>,
    /// Clients may update arbitrary rectangles.
    /// The display supports only updating entire rows,
    /// so edges need to be cached.
    frame_buffer: Option<FrameBuffer>,
    /// Buffer for incoming pixel data, coming from the client.
    /// It's not submitted directly anywhere.
    buffer: Option<Vec<u8>>,
    /// Whether there is a client to call
    client: bool,
}

/// The bytes of a frame buffer, if there is one.
pub open spec fn frame_bytes(frame_buffer: Option<FrameBuffer>) -> Option<Seq<u8>> {
    match frame_buffer {
        Some(frame_buffer) => Some(frame_buffer@),
        None => None,
    }
}

/// The bytes of a pixel buffer, if there is one.
pub open spec fn pixel_bytes(buffer: Option<Vec<u8>>) -> Option<Seq<u8>> {
    match buffer {
        Some(buffer) => Some(buffer@),
        None => None,
    }
}

impl View for Lpm013m126 {
    type V = DriverView;

    closed spec fn view(&self) -> DriverView {
        DriverView {
            state: self.state,
            frame: self.frame,
            pending: self.write_complete_pending_call,
            frame_buffer: frame_bytes(self.frame_buffer),
            buffer: pixel_bytes(self.buffer),
            client: self.client,
        }
    }
}

/// Turns a frame buffer into a transfer of nothing but a command: the command
/// takes the place of the first line's header.
fn command_transfer(mut frame_buffer: FrameBuffer, mode: Mode) -> (data: SubSlice)
    requires
        crate::frame_buffer::has_line(frame_buffer@.len(), 0),
    ensures
        data@ == lone_command(frame_buffer@, mode),
{
    frame_buffer.set_header(0, &CommandHeader { mode, gate_line: 0 });
    let mut data = frame_buffer.into_sub_slice();
    data.slice(0, 2);
    data
}

impl Lpm013m126 {
    /// Makes a driver around a frame buffer, which has to be large enough for the
    /// whole screen.
    pub fn new(frame_buffer: Vec<u8>) -> (result: Result<Lpm013m126, InitError>)
        ensures
            result is Ok <==> frame_buffer@.len() >= BUF_LEN,
            result matches Ok(driver) ==> driver@ == DriverView::initial(frame_buffer@),
            result matches Err(error) ==> error == InitError::BufferTooSmall,
    {
        if frame_buffer.len() < BUF_LEN {
            Err(InitError::BufferTooSmall)
        } else {
            Ok(
                Lpm013m126 {
                    state: State::Uninitialized,
                    frame: WriteFrame { row: 0, column: 0, width: 176, height: 176 },
                    write_complete_pending_call: None,
                    frame_buffer: Some(FrameBuffer::new(SubSlice::new(frame_buffer))),
                    buffer: None,
                    client: false,
                },
            )
        }
    }

    /// Returns the state that the driver is in.
    pub fn state(&self) -> (state: State)
        ensures
            state == self@.state,
    {
        self.state
    }

    /// Returns the area that the next pixels go to.
    pub fn frame(&self) -> (frame: WriteFrame)
        ensures
            frame == self@.frame,
    {
        self.frame
    }

    /// Set up internal data structures.
    /// Does not touch the hardware.
    /// Idempotent.
    pub fn setup(&mut self) -> (reply: Reply)
        ensures
            (final(self)@, reply@) == old(self)@.setup(),
    {
        match self.state {
            State::Uninitialized => {
                let mut actions: Vec<Action> = Vec::new();
                actions.push(Action::RegisterReady);
                actions.push(Action::RegisterCommandComplete);
                actions.push(Action::RegisterWriteComplete);
                assert(actions@ =~= registrations());
                self.state = State::Off;
                Reply { actions, result: Ok(()) }
            },
            _ => Reply { actions: Vec::new(), result: Err(ErrorCode::ALREADY) },
        }
    }

    fn initialize(&mut self) -> (step: Step)
        requires
            old(self)@.can_power_on(),
        ensures
            if old(self)@.state == State::Off || old(self)@.state == State::Bug {
                (final(self)@, step@) == old(self)@.power_on()
            } else {
                &&& final(self)@ == old(self)@
                &&& step@ == StepView {
                    actions: seq![],
                    next: NextView::Return(Err(ErrorCode::ALREADY)),
                }
            },
    {
        match self.state {
            State::Off | State::Bug => {
                // Even a pin that can drive an output may not be configured as
                // one at the moment, so that is done at runtime.
                let mut actions: Vec<Action> = Vec::new();
                actions.push(Action::ExtcominMakeOutput);
                actions.push(Action::ExtcominClear);
                actions.push(Action::DispMakeOutput);
                actions.push(Action::DispClear);
                assert(actions@ =~= pins_low());
                match self.frame_buffer.take() {
                    None => Step { actions, next: Next::Return(Err(ErrorCode::NOMEM)) },
                    Some(frame_buffer) => {
                        // Cheating a little:
                        // the frame buffer does not yet contain pixels,
                        // so use its beginning to send the clear command.
                        let data = command_transfer(frame_buffer, Mode::AllClear);
                        Step { actions, next: Next::SpiWrite(data) }
                    },
                }
            },
            _ => Step { actions: Vec::new(), next: Next::Return(Err(ErrorCode::ALREADY)) },
        }
    }

    fn uninitialize(&self) -> (step: Step)
        ensures
            step@ == (StepView {
                actions: seq![],
                next: if self@.state == State::Off {
                    NextView::Return(Err(ErrorCode::ALREADY))
                } else {
                    NextView::DisarmAlarm
                },
            }),
    {
        match self.state {
            State::Off => Step {
                actions: Vec::new(),
                next: Next::Return(Err(ErrorCode::ALREADY)),
            },
            // This stops the extcomin timer.
            _ => Step { actions: Vec::new(), next: Next::DisarmAlarm },
        }
    }

    /// Answers a power request.
    ///
    /// If the device is in the desired state by now,
    /// then a callback needs to be sent manually.
    fn power_reply(mut actions: Vec<Action>, result: Result<(), ErrorCode>) -> (reply: Reply)
        ensures
            reply@ == match result {
                Err(ErrorCode::ALREADY) => ReplyView {
                    actions: actions@.push(Action::ScheduleReady),
                    result: Ok(()),
                },
                _ => ReplyView { actions: actions@, result },
            },
    {
        match result {
            Err(ErrorCode::ALREADY) => {
                actions.push(Action::ScheduleReady);
                Reply { actions, result: Ok(()) }
            },
            _ => Reply { actions, result },
        }
    }

    /// Turns the display on or off.
    ///
    /// A write that this asks for is reported to `set_power_sent`, a disarmed
    /// alarm to `set_power_disarmed`.
    pub fn set_power(&mut self, enable: bool) -> (step: Step)
        requires
            enable ==> old(self)@.can_power_on(),
        ensures
            enable ==> (final(self)@, step@) == old(self)@.power_on(),
            !enable ==> (final(self)@, step@) == old(self)@.power_off(),
    {
        let step = if enable {
            self.initialize()
        } else {
            self.uninitialize()
        };
        let Step { actions, next } = step;
        match next {
            Next::Return(result) => {
                let reply = Self::power_reply(actions, result);
                assert(Seq::<Action>::empty().push(Action::ScheduleReady)
                    =~= seq![Action::ScheduleReady]);
                Step { actions: reply.actions, next: Next::Return(reply.result) }
            },
            next => Step { actions, next },
        }
    }
    /// Returns whether the driver can be asked to turn the display on: it has to
    /// find room for the clear command.
    pub fn accepts_power_on(&self) -> (ok: bool)
        ensures
            ok == self@.can_power_on(),
    {
        match (&self.state, &self.frame_buffer) {
            (State::Off | State::Bug, Some(frame_buffer)) => frame_buffer.len() >= 92,
            _ => true,
        }
    }

    /// Goes on with turning the display on, once the clear command was started or
    /// came back with an error.
    pub fn set_power_sent(&mut self, sent: Sent) -> (reply: Reply)
        ensures
            (final(self)@, reply@) == old(self)@.power_on_sent(refused(sent)),
    {
        match sent {
            Ok(()) => {
                self.state = State::InitializingPixelMemory;
                Self::power_reply(Vec::new(), Ok(()))
            },
            Err((error, data)) => {
                self.frame_buffer = Some(FrameBuffer::new(data));
                self.state = State::Bug;
                assert(Seq::<Action>::empty().push(Action::ScheduleReady)
                    =~= seq![Action::ScheduleReady]);
                Self::power_reply(Vec::new(), Err(error))
            },
        }
    }

    /// Goes on with turning the display off, once the alarm was disarmed or could
    /// not be.
    pub fn set_power_disarmed(&mut self, disarmed: Result<(), ErrorCode>) -> (reply: Reply)
        ensures
            (final(self)@, reply@) == old(self)@.power_off_disarmed(disarmed),
    {
        match disarmed {
            Ok(()) => {
                let mut actions: Vec<Action> = Vec::new();
                actions.push(Action::DispClear);
                self.state = State::Off;
                actions.push(Action::ScheduleReady);
                assert(actions@ =~= seq![Action::DispClear, Action::ScheduleReady]);
                Self::power_reply(actions, Ok(()))
            },
            Err(error) => {
                assert(Seq::<Action>::empty().push(Action::ScheduleReady)
                    =~= seq![Action::ScheduleReady]);
                Self::power_reply(Vec::new(), Err(error))
            },
        }
    }

    /// Notes the result for the write complete callback, which the returned action
    /// brings about.
    pub fn call_write_complete(&mut self, ret: Result<(), ErrorCode>) -> (action: Action)
        ensures
            (final(self)@, action) == old(self)@.call_write_complete(ret),
    {
        self.write_complete_pending_call = Some(ret);
        Action::ScheduleWriteComplete
    }

    /// Returns the action that has EXTCOMIN flipped in time.
    fn arm_alarm() -> (action: Action)
        ensures
            action == Action::SetAlarm(Delay::Millis(100)),
    {
        // Datasheet says 2Hz or more often flipping is required
        // for transmissive mode.
        Action::SetAlarm(Delay::Millis(100))
    }

    /// Returns the width and the height of the screen in pixels.
    pub fn get_resolution(&self) -> (resolution: (usize, usize))
        ensures
            resolution == (176usize, 176usize),
    {
        (176, 176)
    }

    pub fn get_pixel_format(&self) -> (format: ScreenPixelFormat)
        ensures
            format == ScreenPixelFormat::Mono,
    {
        ScreenPixelFormat::Mono
    }

    pub fn get_rotation(&self) -> (rotation: ScreenRotation)
        ensures
            rotation == ScreenRotation::Normal,
    {
        ScreenRotation::Normal
    }

    /// Chooses the area that the next pixels go to. It may lie off the screen in
    /// part or in whole; what does is not shown.
    pub fn set_write_frame(&mut self, x: usize, y: usize, width: usize, height: usize) -> (reply:
        Reply)
        ensures
            (final(self)@, reply@) == old(self)@.set_write_frame(
                x as int,
                y as int,
                width as int,
                height as int,
            ),
    {
        assert(x as u16 == x % 65536) by (bit_vector);
        assert(y as u16 == y % 65536) by (bit_vector);
        assert(width as u16 == width % 65536) by (bit_vector);
        assert(height as u16 == height % 65536) by (bit_vector);
        self.frame = WriteFrame {
            row: #[verifier::truncate] (y as u16),
            column: #[verifier::truncate] (x as u16),
            width: #[verifier::truncate] (width as u16),
            height: #[verifier::truncate] (height as u16),
        };
        let mut actions: Vec<Action> = Vec::new();
        actions.push(Action::ScheduleCommandComplete);
        assert(actions@ =~= seq![Action::ScheduleCommandComplete]);
        Reply { actions, result: Ok(()) }
    }

    /// Returns whether the driver can be handed pixels: unless it is going to refuse
    /// them, the chosen area has to be one that it can copy into.
    pub fn accepts_write(&self) -> (ok: bool)
        ensures
            ok == self@.can_write(),
    {
        match (&self.state, &self.frame_buffer) {
            (State::Idle, Some(frame_buffer)) => self.frame.is_blittable() && frame_buffer.len()
                >= 92,
            _ => true,
        }
    }

    /// Takes pixels for the chosen area, as many bytes as the window of `data`
    /// has.
    ///
    /// A write that this asks for is reported to `write_sent`.
    pub fn write(&mut self, data: SubSlice, _continue_write: bool) -> (step: Step)
        requires
            old(self)@.can_write(),
        ensures
            (final(self)@, step@) == old(self)@.write(data@),
    {
        let len: usize = data.len();
        let buffer: Vec<u8> = data.take();
        let refusal: ErrorCode = match self.state {
            State::Uninitialized | State::Off => ErrorCode::OFF,
            State::InitializingPixelMemory | State::InitializingRest => ErrorCode::BUSY,
            State::Idle => match self.frame_buffer.take() {
                None => ErrorCode::NOMEM,
                Some(mut frame_buffer) => {
                    let frame: WriteFrame = self.frame;
                    frame_buffer.blit(slice_subrange(buffer.as_slice(), 0, len), &frame);
                    self.buffer = Some(buffer);
                    let data = command_transfer(frame_buffer, Mode::NoUpdate);
                    return Step { actions: Vec::new(), next: Next::SpiWrite(data) };
                },
            },
            State::AllClearing | State::Writing => ErrorCode::BUSY,
            State::Bug => ErrorCode::FAIL,
        };
        self.buffer = Some(buffer);
        let mut actions: Vec<Action> = Vec::new();
        match self.state {
            State::Writing => {},
            _ => {
                let action: Action = self.call_write_complete(Err(refusal));
                actions.push(action);
                assert(actions@ =~= seq![Action::ScheduleWriteComplete]);
            },
        }
        Step { actions, next: Next::Return(Err(refusal)) }
    }

    /// Goes on with taking pixels, once the command that precedes them was started
    /// or came back with an error.
    pub fn write_sent(&mut self, sent: Sent) -> (reply: Reply)
        ensures
            (final(self)@, reply@) == old(self)@.write_sent(refused(sent)),
    {
        let result: Result<(), ErrorCode> = match sent {
            Ok(()) => {
                self.state = State::AllClearing;
                Ok(())
            },
            Err((error, data)) => {
                self.frame_buffer = Some(FrameBuffer::new(data));
                self.state = State::Idle;
                Err(error)
            },
        };
        let mut actions: Vec<Action> = Vec::new();
        let action: Action = self.call_write_complete(result);
        actions.push(action);
        assert(actions@ =~= seq![Action::ScheduleWriteComplete]);
        Reply { actions, result }
    }

    /// Notes that there is a client to call.
    pub fn set_client(&mut self)
        ensures
            final(self)@ == (DriverView { client: true, ..old(self)@ }),
    {
        self.client = true;
    }

    pub fn set_brightness(&self, _brightness: u16) -> (result: Result<(), ErrorCode>)
        ensures
            result == Err::<(), ErrorCode>(ErrorCode::NOSUPPORT),
    {
        Err(ErrorCode::NOSUPPORT)
    }

    pub fn set_invert(&self, _inverted: bool) -> (result: Result<(), ErrorCode>)
        ensures
            result == Err::<(), ErrorCode>(ErrorCode::NOSUPPORT),
    {
        Err(ErrorCode::NOSUPPORT)
    }

    /// Returns whether the driver can answer the alarm: a frame buffer that is to be
    /// initialized has to be large enough.
    pub fn accepts_alarm(&self) -> (ok: bool)
        ensures
            ok == self@.can_alarm(),
    {
        match (&self.state, &self.frame_buffer) {
            (State::InitializingRest, Some(frame_buffer)) => frame_buffer.len() >= BUF_LEN,
            _ => true,
        }
    }

    /// Answers the alarm, which is needed for init and to flip the EXTCOMIN pin at
    /// regular intervals.
    pub fn alarm(&mut self) -> (actions: Vec<Action>)
        requires
            old(self)@.can_alarm(),
        ensures
            (final(self)@, actions@) == old(self)@.alarm(),
    {
        let mut actions: Vec<Action> = Vec::new();
        match self.state {
            State::InitializingRest => {
                // Better flip it once too many than go out of spec
                // by stretching the flip period.
                actions.push(Action::ExtcominSet);
                actions.push(Action::DispSet);
                actions.push(Self::arm_alarm());
                assert(actions@ =~= seq![
                    Action::ExtcominSet,
                    Action::DispSet,
                    Action::SetAlarm(Delay::Millis(100)),
                ]);
                match self.frame_buffer.take() {
                    None => {
                        self.state = State::Bug;
                    },
                    Some(mut frame_buffer) => {
                        frame_buffer.initialize();
                        self.frame_buffer = Some(frame_buffer);
                        self.state = State::Idle;
                        if self.client {
                            actions.push(Action::ScreenIsReady);
                        }
                    },
                }
            },
            // The display may be on, so flips have to follow at regular intervals.
            State::Idle | State::AllClearing | State::Writing | State::Bug => {
                actions.push(Action::ExtcominToggle);
                actions.push(Self::arm_alarm());
                assert(actions@ =~= seq![
                    Action::ExtcominToggle,
                    Action::SetAlarm(Delay::Millis(100)),
                ]);
            },
            _ => {
                actions.push(Action::ExtcominToggle);
                assert(actions@ =~= seq![Action::ExtcominToggle]);
            },
        }
        actions
    }

    /// Returns whether the driver can take back a buffer from the bus: it has to be
    /// large enough for what follows.
    pub fn accepts_read_write_done(&self, write_buffer: &SubSlice) -> (ok: bool)
        ensures
            ok == self@.can_finish(write_buffer@.bytes),
    {
        match self.state {
            State::AllClearing => write_buffer.capacity() >= 92,
            State::Writing => write_buffer.capacity() >= BUF_LEN,
            _ => true,
        }
    }

    /// Answers the end of an SPI write, whose buffer comes back.
    pub fn read_write_done(
        &mut self,
        write_buffer: SubSlice,
        status: Result<usize, ErrorCode>,
    ) -> (completion: Completion)
        requires
            old(self)@.can_finish(write_buffer@.bytes),
        ensures
            (final(self)@, completion@) == old(self)@.read_write_done(write_buffer@.bytes, status),
    {
        let mut frame_buffer = FrameBuffer::new(write_buffer);
        match self.state {
            State::InitializingPixelMemory => {
                // Rather than initialize them separately, wait longer and do both
                // for 2 reasons:
                // 1. the upper limit of waiting is only specified for both,
                // 2. and state flipping code is annoying and bug-friendly.
                self.frame_buffer = Some(frame_buffer);
                self.state = State::InitializingRest;
                Completion::SetAlarm(Delay::Micros(150))
            },
            State::AllClearing => {
                frame_buffer.set_header(
                    0,
                    &CommandHeader { mode: Mode::Input4Bit, gate_line: 1 },
                );
                self.frame_buffer = None;
                self.state = State::Writing;
                Completion::SpiWrite(frame_buffer.into_sub_slice())
            },
            State::Writing => {
                frame_buffer.initialize();
                self.frame_buffer = Some(frame_buffer);
                self.state = State::Idle;
                // Device frame buffer is now up to date, return pixel buffer to client.
                if self.client {
                    match self.buffer.take() {
                        None => Completion::Nothing,
                        Some(pixels) => {
                            let result: Result<(), ErrorCode> = match status {
                                Ok(_) => Ok(()),
                                Err(error) => Err(error),
                            };
                            Completion::WriteComplete(
                                WriteComplete { data: SubSlice::new(pixels), result },
                            )
                        },
                    }
                } else {
                    Completion::Nothing
                }
            },
            // can't get more buggy than buggy
            _ => {
                self.frame_buffer = Some(frame_buffer);
                self.state = State::Bug;
                Completion::Nothing
            },
        }
    }

    /// Answers the ready callback.
    pub fn handle_ready_callback(&self) -> (action: Option<Action>)
        ensures
            action == if self@.client {
                Some(Action::ScreenIsReady)
            } else {
                None
            },
    {
        if self.client {
            Some(Action::ScreenIsReady)
        } else {
            None
        }
    }

    /// Answers the write complete callback.
    pub fn handle_write_complete_callback(&mut self) -> (delivery: Delivery)
        ensures
            (final(self)@, delivery@) == old(self)@.write_complete_callback(),
    {
        if !self.client {
            return Delivery::NoClient;
        }
        match self.write_complete_pending_call {
            None => Delivery::Nothing,
            Some(result) => match self.buffer.take() {
                None => Delivery::Nothing,
                Some(buffer) => Delivery::WriteComplete(
                    WriteComplete { data: SubSlice::new(buffer), result },
                ),
            },
        }
    }

    /// Finishes the write complete callback. Whatever result is pending by now,
    /// also one that the client brought about while it was being called, is
    /// dropped.
    pub fn write_complete_delivered(&mut self)
        ensures
            final(self)@ == old(self)@.write_complete_delivered(),
    {
        self.write_complete_pending_call = None;
    }

    /// Answers the command complete callback.
    pub fn handle_command_complete_callback(&self) -> (action: Option<Action>)
        ensures
            action == if self@.client {
                Some(Action::CommandComplete)
            } else {
                None
            },
    {
        // Thankfully, this is the only command that results in the callback,
        // so there's no danger that this will get attributed
        // to a command that's not finished yet.
        if self.client {
            Some(Action::CommandComplete)
        } else {
            None
        }
    }
}

} // verus!
