//! What the driver asks its caller to do.

use crate::hil::ErrorCode;
use crate::sub_slice::SubSlice;
use crate::sub_slice::SubSliceView;
use vstd::prelude::*;

verus! {

/// How long to wait before the alarm fires, counted from now.
#[derive(Debug, Clone, Copy, PartialEq, Eq, Structural)]
pub enum Delay {
    Millis(u32),
    Micros(u32),
}

/// A piece of work whose outcome the driver does not need to know.
#[derive(Debug, Clone, Copy, PartialEq, Eq, Structural)]
pub enum Action {
    /// Configure the EXTCOMIN pin as an output
    ExtcominMakeOutput,
    /// Drive EXTCOMIN low
    ExtcominClear,
    /// Drive EXTCOMIN high
    ExtcominSet,
    /// Flip EXTCOMIN
    ExtcominToggle,
    /// Configure the DISP pin as an output
    DispMakeOutput,
    /// Drive DISP low
    DispClear,
    /// Drive DISP high
    DispSet,
    /// Set the alarm
    SetAlarm(Delay),
    /// Register the deferred call of `handle_ready_callback`
    RegisterReady,
    /// Register the deferred call of `handle_command_complete_callback`
    RegisterCommandComplete,
    /// Register the deferred call of `handle_write_complete_callback`
    RegisterWriteComplete,
    /// Have `handle_ready_callback` called later
    ScheduleReady,
    /// Have `handle_command_complete_callback` called later
    ScheduleCommandComplete,
    /// Have `handle_write_complete_callback` called later
    ScheduleWriteComplete,
    /// Tell the client that the screen is ready
    ScreenIsReady,
    /// Tell the client that its command succeeded
    CommandComplete,
}

/// What ends one round of work.
#[derive(Debug)]
pub enum Next {
    /// Answer the request.
    Return(Result<(), ErrorCode>),
    /// Start an SPI write of the window and report how that went.
    SpiWrite(SubSlice),
    /// Disarm the alarm and report how that went.
    DisarmAlarm,
}

pub enum NextView {
    Return(Result<(), ErrorCode>),
    SpiWrite(SubSliceView),
    DisarmAlarm,
}

impl View for Next {
    type V = NextView;

    open spec fn view(&self) -> NextView {
        match *self {
            Next::Return(result) => NextView::Return(result),
            Next::SpiWrite(data) => NextView::SpiWrite(data@),
            Next::DisarmAlarm => NextView::DisarmAlarm,
        }
    }
}

/// One round of work: the actions in their order, then what follows them.
#[derive(Debug)]
pub struct Step {
    pub actions: Vec<Action>,
    pub next: Next,
}

#[verifier::ext_equal]
pub struct StepView {
    pub actions: Seq<Action>,
    pub next: NextView,
}

impl View for Step {
    type V = StepView;

    open spec fn view(&self) -> StepView {
        StepView { actions: self.actions@, next: self.next@ }
    }
}

/// The last round of work of a request: the actions in their order, then the
/// answer.
#[derive(Debug)]
pub struct Reply {
    pub actions: Vec<Action>,
    pub result: Result<(), ErrorCode>,
}

#[verifier::ext_equal]
pub struct ReplyView {
    pub actions: Seq<Action>,
    pub result: Result<(), ErrorCode>,
}

impl View for Reply {
    type V = ReplyView;

    open spec fn view(&self) -> ReplyView {
        ReplyView { actions: self.actions@, result: self.result }
    }
}

/// A pixel buffer on its way back to the client, with what became of it.
#[derive(Debug)]
pub struct WriteComplete {
    pub data: SubSlice,
    pub result: Result<(), ErrorCode>,
}

#[verifier::ext_equal]
pub struct WriteCompleteView {
    pub data: SubSliceView,
    pub result: Result<(), ErrorCode>,
}

impl View for WriteComplete {
    type V = WriteCompleteView;

    open spec fn view(&self) -> WriteCompleteView {
        WriteCompleteView { data: self.data@, result: self.result }
    }
}

/// What to do when an SPI write has ended.
#[derive(Debug)]
pub enum Completion {
    Nothing,
    /// Set the alarm.
    SetAlarm(Delay),
    /// Start an SPI write of the window. If it cannot be started, the driver is
    /// not told, and the buffer is lost.
    SpiWrite(SubSlice),
    /// Hand the pixel buffer back to the client.
    WriteComplete(WriteComplete),
}

pub enum CompletionView {
    Nothing,
    SetAlarm(Delay),
    SpiWrite(SubSliceView),
    WriteComplete(WriteCompleteView),
}

impl View for Completion {
    type V = CompletionView;

    open spec fn view(&self) -> CompletionView {
        match *self {
            Completion::Nothing => CompletionView::Nothing,
            Completion::SetAlarm(delay) => CompletionView::SetAlarm(delay),
            Completion::SpiWrite(data) => CompletionView::SpiWrite(data@),
            Completion::WriteComplete(done) => CompletionView::WriteComplete(done@),
        }
    }
}

/// What to do when the write complete callback comes due.
#[derive(Debug)]
pub enum Delivery {
    /// There is no client, and nothing to do.
    NoClient,
    /// There is nothing to hand out. `write_complete_delivered` comes next.
    Nothing,
    /// Hand the pixel buffer back to the client. `write_complete_delivered` comes
    /// next, once the client returns.
    WriteComplete(WriteComplete),
}

pub enum DeliveryView {
    NoClient,
    Nothing,
    WriteComplete(WriteCompleteView),
}

impl View for Delivery {
    type V = DeliveryView;

    open spec fn view(&self) -> DeliveryView {
        match *self {
            Delivery::NoClient => DeliveryView::NoClient,
            Delivery::Nothing => DeliveryView::Nothing,
            Delivery::WriteComplete(done) => DeliveryView::WriteComplete(done@),
        }
    }
}

/// What comes of trying to start an SPI write: nothing if it was started, else
/// the error and the buffer, which comes back.
pub type Sent = Result<(), (ErrorCode, SubSlice)>;

/// The error and the bytes that came back, if the write was not started.
pub open spec fn refused(sent: Sent) -> Option<(ErrorCode, Seq<u8>)> {
    match sent {
        Ok(()) => None,
        Err((error, data)) => Some((error, data@.bytes)),
    }
}

} // verus!
