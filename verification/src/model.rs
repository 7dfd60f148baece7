//! The driver as a state machine over plain values.
//!
//! Each function takes the machine before an event and gives the machine after
//! it, together with the work that the event calls for.

use crate::frame_buffer::blitted;
use crate::frame_buffer::has_line;
use crate::frame_buffer::with_all_headers;
use crate::frame_buffer::with_header;
use crate::frame_buffer::WriteFrame;
use crate::frame_buffer::BUF_LEN;
use crate::header::Mode;
use crate::hil::ErrorCode;
use crate::sub_slice::SubSliceView;
use crate::work::Action;
use crate::work::CompletionView;
use crate::work::Delay;
use crate::work::DeliveryView;
use crate::work::NextView;
use crate::work::ReplyView;
use crate::work::StepView;
use crate::work::WriteCompleteView;
use vstd::prelude::*;

verus! {

/// Internal state of the driver.
/// Each state can lead to the next one in order of appearance.
#[derive(Debug, Copy, Clone, PartialEq, Eq, Structural)]
pub enum State {
    /// Data structures not ready, call `setup`
    Uninitialized,
    /// Display hardware is off, uninitialized.
    Off,
    InitializingPixelMemory,
    /// COM polarity and internal latch circuits
    InitializingRest,
    // Normal operation
    Idle,
    AllClearing,
    Writing,
    /// This driver is buggy. Turning off and on will try to recover it.
    Bug,
}

/// The driver's memory.
#[verifier::ext_equal]
pub struct DriverView {
    pub state: State,
    /// Where the client's pixels go
    pub frame: WriteFrame,
    /// The result that the write complete callback will report
    pub pending: Option<Result<(), ErrorCode>>,
    /// The bytes of the frame buffer, unless they are on the bus
    pub frame_buffer: Option<Seq<u8>>,
    /// The client's pixel buffer, until it is handed back
    pub buffer: Option<Seq<u8>>,
    /// Whether there is a client to call
    pub client: bool,
}

/// The outputs of a panel that is off.
pub open spec fn pins_low() -> Seq<Action> {
    seq![
        Action::ExtcominMakeOutput,
        Action::ExtcominClear,
        Action::DispMakeOutput,
        Action::DispClear,
    ]
}

/// The deferred calls, one for each callback.
pub open spec fn registrations() -> Seq<Action> {
    seq![
        Action::RegisterReady,
        Action::RegisterCommandComplete,
        Action::RegisterWriteComplete,
    ]
}

/// A frame buffer on its way to the bus, of which only the header of the first
/// line is to be sent.
pub open spec fn lone_command(data: Seq<u8>, mode: Mode) -> SubSliceView {
    SubSliceView { bytes: with_header(data, 0, mode, 0), start: 0, end: 2 }
}

impl DriverView {
    /// A fresh driver around a frame buffer.
    pub open spec fn initial(frame_buffer: Seq<u8>) -> DriverView {
        DriverView {
            state: State::Uninitialized,
            frame: WriteFrame { row: 0, column: 0, width: 176, height: 176 },
            pending: None,
            frame_buffer: Some(frame_buffer),
            buffer: None,
            client: false,
        }
    }

    /// The frame buffer, whenever the driver holds it, has room for all lines.
    pub open spec fn wf(self) -> bool {
        self.frame_buffer matches Some(data) ==> data.len() >= BUF_LEN
    }

    /// Setting up registers the deferred calls. It only works once.
    pub open spec fn setup(self) -> (DriverView, ReplyView) {
        if self.state == State::Uninitialized {
            (
                DriverView { state: State::Off, ..self },
                ReplyView { actions: registrations(), result: Ok(()) },
            )
        } else {
            (self, ReplyView { actions: seq![], result: Err(ErrorCode::ALREADY) })
        }
    }

    /// Whether turning the display on has a place for the clear command.
    pub open spec fn can_power_on(self) -> bool {
        (self.state == State::Off || self.state == State::Bug) && self.frame_buffer is Some
            ==> has_line(self.frame_buffer->0.len(), 0)
    }

    /// Turning the display on. The clear command borrows the beginning of the
    /// frame buffer, which does not hold pixels yet. A display that is on already
    /// only gets its client told so.
    pub open spec fn power_on(self) -> (DriverView, StepView) {
        match (self.state, self.frame_buffer) {
            (State::Off | State::Bug, Some(data)) => (
                DriverView { frame_buffer: None, ..self },
                StepView {
                    actions: pins_low(),
                    next: NextView::SpiWrite(lone_command(data, Mode::AllClear)),
                },
            ),
            (State::Off | State::Bug, None) => (
                self,
                StepView { actions: pins_low(), next: NextView::Return(Err(ErrorCode::NOMEM)) },
            ),
            _ => (
                self,
                StepView { actions: seq![Action::ScheduleReady], next: NextView::Return(Ok(())) },
            ),
        }
    }

    /// Turning the display off. Nothing happens before the alarm is disarmed. A
    /// display that is off already only gets its client told so.
    pub open spec fn power_off(self) -> (DriverView, StepView) {
        if self.state == State::Off {
            (
                self,
                StepView { actions: seq![Action::ScheduleReady], next: NextView::Return(Ok(())) },
            )
        } else {
            (self, StepView { actions: seq![], next: NextView::DisarmAlarm })
        }
    }

    /// The answer to a power request that ran into an error. To find the device
    /// in the desired state by now is no error, but then the client has to be told.
    pub open spec fn power_failure(error: ErrorCode) -> ReplyView {
        if error == ErrorCode::ALREADY {
            ReplyView { actions: seq![Action::ScheduleReady], result: Ok(()) }
        } else {
            ReplyView { actions: seq![], result: Err(error) }
        }
    }

    /// The clear command was started, or came back with an error.
    pub open spec fn power_on_sent(self, refused: Option<(ErrorCode, Seq<u8>)>) -> (
        DriverView,
        ReplyView,
    ) {
        match refused {
            None => (
                DriverView { state: State::InitializingPixelMemory, ..self },
                ReplyView { actions: seq![], result: Ok(()) },
            ),
            Some((error, data)) => (
                DriverView { state: State::Bug, frame_buffer: Some(data), ..self },
                Self::power_failure(error),
            ),
        }
    }

    /// The alarm was disarmed, or could not be.
    pub open spec fn power_off_disarmed(self, disarmed: Result<(), ErrorCode>) -> (
        DriverView,
        ReplyView,
    ) {
        match disarmed {
            Ok(()) => (
                DriverView { state: State::Off, ..self },
                ReplyView {
                    actions: seq![Action::DispClear, Action::ScheduleReady],
                    result: Ok(()),
                },
            ),
            Err(error) => (self, Self::power_failure(error)),
        }
    }

    /// Choosing the area for the pixels to come. Coordinates count modulo 65536.
    pub open spec fn set_write_frame(self, x: int, y: int, width: int, height: int) -> (
        DriverView,
        ReplyView,
    ) {
        (
            DriverView {
                frame: WriteFrame {
                    row: (y % 65536) as u16,
                    column: (x % 65536) as u16,
                    width: (width % 65536) as u16,
                    height: (height % 65536) as u16,
                },
                ..self
            },
            ReplyView { actions: seq![Action::ScheduleCommandComplete], result: Ok(()) },
        )
    }

    /// Why pixels cannot be taken now, if they cannot.
    pub open spec fn write_refusal(self) -> Option<ErrorCode> {
        match self.state {
            State::Uninitialized | State::Off => Some(ErrorCode::OFF),
            State::InitializingPixelMemory
            | State::InitializingRest
            | State::AllClearing
            | State::Writing => Some(ErrorCode::BUSY),
            State::Bug => Some(ErrorCode::FAIL),
            State::Idle => if self.frame_buffer is None {
                Some(ErrorCode::NOMEM)
            } else {
                None
            },
        }
    }

    /// Whether pixels that cannot be refused have a place to go.
    pub open spec fn can_write(self) -> bool {
        self.write_refusal() is None ==> self.frame.blittable() && has_line(
            self.frame_buffer->0.len(),
            0,
        )
    }

    /// The frame buffer after taking in as many bytes as the window has, counted
    /// from the beginning of the client's buffer.
    pub open spec fn painted(self, data: SubSliceView) -> Seq<u8> {
        blitted(
            self.frame_buffer->0,
            data.bytes.subrange(0, data.end - data.start),
            self.frame,
        )
    }

    /// Taking pixels from the client. The client's buffer is kept either way, and
    /// unless a write is under way the client is going to hear about it.
    pub open spec fn write(self, data: SubSliceView) -> (DriverView, StepView) {
        match self.write_refusal() {
            None => (
                DriverView { frame_buffer: None, buffer: Some(data.bytes), ..self },
                StepView {
                    actions: seq![],
                    next: NextView::SpiWrite(lone_command(self.painted(data), Mode::NoUpdate)),
                },
            ),
            Some(error) => if self.state == State::Writing {
                (
                    DriverView { buffer: Some(data.bytes), ..self },
                    StepView { actions: seq![], next: NextView::Return(Err(error)) },
                )
            } else {
                (
                    DriverView { buffer: Some(data.bytes), pending: Some(Err(error)), ..self },
                    StepView {
                        actions: seq![Action::ScheduleWriteComplete],
                        next: NextView::Return(Err(error)),
                    },
                )
            },
        }
    }

    /// The command that precedes the pixels was started, or came back with an
    /// error.
    pub open spec fn write_sent(self, refused: Option<(ErrorCode, Seq<u8>)>) -> (
        DriverView,
        ReplyView,
    ) {
        let result: Result<(), ErrorCode> = match refused {
            None => Ok(()),
            Some((error, _)) => Err(error),
        };
        let reply = ReplyView { actions: seq![Action::ScheduleWriteComplete], result };
        match refused {
            None => (
                DriverView { state: State::AllClearing, pending: Some(result), ..self },
                reply,
            ),
            Some((_, data)) => (
                DriverView {
                    state: State::Idle,
                    frame_buffer: Some(data),
                    pending: Some(result),
                    ..self
                },
                reply,
            ),
        }
    }

    /// Noting a result for the write complete callback, which is then going to come
    /// due. A result that was noted before is replaced.
    pub open spec fn call_write_complete(self, ret: Result<(), ErrorCode>) -> (
        DriverView,
        Action,
    ) {
        (DriverView { pending: Some(ret), ..self }, Action::ScheduleWriteComplete)
    }

    /// Whether the alarm finds the frame buffer large enough to be initialized.
    pub open spec fn can_alarm(self) -> bool {
        self.state == State::InitializingRest && self.frame_buffer is Some
            ==> self.frame_buffer->0.len() >= BUF_LEN
    }

    /// Whether the display may be on, so that EXTCOMIN has to keep flipping.
    pub open spec fn lit(self) -> bool {
        match self.state {
            State::Idle | State::AllClearing | State::Writing | State::Bug => true,
            _ => false,
        }
    }

    /// The alarm fired. At the end of the initialization it turns the display on;
    /// otherwise it flips EXTCOMIN, and as long as the display may be on it is set
    /// again for the next flip.
    pub open spec fn alarm(self) -> (DriverView, Seq<Action>) {
        let turn_on = seq![
            Action::ExtcominSet,
            Action::DispSet,
            Action::SetAlarm(Delay::Millis(100)),
        ];
        match (self.state, self.frame_buffer) {
            (State::InitializingRest, Some(data)) => (
                DriverView {
                    state: State::Idle,
                    frame_buffer: Some(with_all_headers(data)),
                    ..self
                },
                if self.client {
                    turn_on.push(Action::ScreenIsReady)
                } else {
                    turn_on
                },
            ),
            (State::InitializingRest, None) => (DriverView { state: State::Bug, ..self }, turn_on),
            _ => (
                self,
                if self.lit() {
                    seq![Action::ExtcominToggle, Action::SetAlarm(Delay::Millis(100))]
                } else {
                    seq![Action::ExtcominToggle]
                },
            ),
        }
    }

    /// Whether the buffer that comes back from the bus is large enough for what
    /// follows.
    pub open spec fn can_finish(self, data: Seq<u8>) -> bool {
        &&& self.state == State::AllClearing ==> has_line(data.len(), 0)
        &&& self.state == State::Writing ==> data.len() >= BUF_LEN
    }

    /// An SPI write ended, and the frame buffer is back.
    pub open spec fn read_write_done(self, data: Seq<u8>, status: Result<usize, ErrorCode>) -> (
        DriverView,
        CompletionView,
    ) {
        match self.state {
            State::InitializingPixelMemory => (
                DriverView {
                    state: State::InitializingRest,
                    frame_buffer: Some(data),
                    ..self
                },
                CompletionView::SetAlarm(Delay::Micros(150)),
            ),
            State::AllClearing => (
                DriverView { state: State::Writing, frame_buffer: None, ..self },
                CompletionView::SpiWrite(
                    SubSliceView::whole(with_header(data, 0, Mode::Input4Bit, 1)),
                ),
            ),
            State::Writing => {
                let idle = DriverView {
                    state: State::Idle,
                    frame_buffer: Some(with_all_headers(data)),
                    ..self
                };
                match self.buffer {
                    Some(pixels) if self.client => (
                        DriverView { buffer: None, ..idle },
                        CompletionView::WriteComplete(
                            WriteCompleteView {
                                data: SubSliceView::whole(pixels),
                                result: match status {
                                    Ok(_) => Ok(()),
                                    Err(error) => Err(error),
                                },
                            },
                        ),
                    ),
                    _ => (idle, CompletionView::Nothing),
                }
            },
            _ => (
                DriverView { state: State::Bug, frame_buffer: Some(data), ..self },
                CompletionView::Nothing,
            ),
        }
    }

    /// The write complete callback came due.
    pub open spec fn write_complete_callback(self) -> (DriverView, DeliveryView) {
        if !self.client {
            (self, DeliveryView::NoClient)
        } else {
            match (self.pending, self.buffer) {
                (Some(result), Some(pixels)) => (
                    DriverView { buffer: None, ..self },
                    DeliveryView::WriteComplete(
                        WriteCompleteView { data: SubSliceView::whole(pixels), result },
                    ),
                ),
                _ => (self, DeliveryView::Nothing),
            }
        }
    }

    /// The client has taken what the write complete callback had for it.
    pub open spec fn write_complete_delivered(self) -> DriverView {
        DriverView { pending: None, ..self }
    }
}

} // verus!
