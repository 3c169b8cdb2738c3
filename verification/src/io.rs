//! Moving a transport stream from an input to an output, optionally through a descrambler.
//!
//! The transfer is a state machine. Whoever owns the input, the output and the descrambler
//! starts each poll with [`StreamTransfer::begin_poll`], performs the [`TransferAction`] it
//! gets back, and hands the outcome of that action to [`StreamTransfer::step`] as a
//! [`TransferEvent`], until an action ends the poll.
use std::sync::atomic::AtomicBool;
use std::sync::atomic::Ordering;
use std::sync::Arc;
use vstd::prelude::*;

pub mod laws;

verus! {

#[verifier::external_type_specification]
#[verifier::external_body]
pub struct ExIoError(std::io::Error);

/// Why a transfer ended.
#[derive(Debug, Clone, Copy, PartialEq, Eq, Structural)]
pub enum TransferStopReason {
    Completed,
    InputEof,
    Stopped,
}

/// What a finished transfer reports.
#[derive(Debug, Clone, Copy, PartialEq, Eq, Structural)]
pub struct TransferReport {
    pub written_bytes: u64,
    pub stop_reason: TransferStopReason,
}

/// The outcome of polling one I/O operation.
pub enum IoPoll<T> {
    /// The operation is not ready; it has arranged to wake the task.
    Pending,
    /// The operation completed with this value.
    Ready(T),
    /// The operation failed.
    Failed(std::io::Error),
}

/// Where a poll of the transfer stands.
#[derive(Debug, Clone, Copy, PartialEq, Eq, Structural)]
pub enum Phase {
    /// Between polls.
    Idle,
    /// Descrambling: waiting for input data.
    DecoderFillingInput,
    /// Descrambling: waiting for the descrambler to accept input data.
    DecoderWriting,
    /// Descrambling: waiting for the accepted input to be consumed.
    DecoderConsumingInput,
    /// Descrambling: waiting for the progress callback to be told the new count.
    DecoderReporting,
    /// Descrambling has stopped taking input: waiting for the descrambler to flush.
    DecoderFlushing,
    /// Draining the descrambler: waiting for its output.
    Draining,
    /// Draining: waiting for the output to accept descrambled data.
    DrainWriting,
    /// Draining: waiting for the written descrambled data to be consumed.
    DrainConsuming,
    /// Draining: waiting for the progress callback to be told the new count.
    DrainReporting,
    /// Draining is over: waiting for the output to flush.
    DrainFlushingOutput,
    /// Pass-through: waiting for input data.
    PassFillingInput,
    /// Pass-through: waiting for the output to accept input data.
    PassWriting,
    /// Pass-through: waiting for the written input to be consumed.
    PassConsuming,
    /// Pass-through: waiting for the progress callback to be told the new count.
    PassReporting,
    /// Pass-through reached the end of the input: waiting for the output to flush.
    PassFlushingOutput,
}

/// What the owner of the streams reports back after performing an action.
pub enum TransferEvent {
    /// A poll begins; `stop_requested` is the value read from the stop flag.
    PollStarted { stop_requested: bool },
    /// A fill of the input or of the descrambler output: `Ready(n)` for a buffer of `n` bytes.
    Filled(IoPoll<usize>),
    /// A write: `Ready(n)` when `n` bytes were accepted.
    Written(IoPoll<usize>),
    /// A flush.
    Flushed(IoPoll<()>),
    /// The requested bytes were consumed.
    Consumed,
    /// The progress callback was told the count.
    Reported,
}

/// How a transfer ends.
pub enum TransferOutcome {
    /// The transfer finished with this report.
    Done(TransferReport),
    /// A write accepted no bytes.
    WriteZero,
    /// An I/O operation failed with this error.
    Failed(std::io::Error),
}

/// What the owner of the streams must do next.
pub enum TransferAction {
    /// Fill the input buffer, then report `Filled`.
    FillInput,
    /// Write the input buffer to the descrambler, then report `Written`.
    WriteInputToDecoder,
    /// Flush the descrambler, then report `Flushed`.
    FlushDecoder,
    /// Fill the descrambler's output buffer, then report `Filled`.
    FillDecoder,
    /// Write the descrambler's output buffer to the output, then report `Written`.
    WriteDecoderToOutput,
    /// Write the input buffer to the output, then report `Written`.
    WriteInputToOutput,
    /// Flush the output, then report `Flushed`.
    FlushOutput,
    /// Consume this many bytes of the input buffer, then report `Consumed`.
    ConsumeInput(usize),
    /// Consume this many bytes of the descrambler's output buffer, then report `Consumed`.
    ConsumeDecoder(usize),
    /// Tell the progress callback this count of written bytes (see
    /// [`StreamTransfer::report_progress`]), then report `Reported`.
    ReportProgress(u64),
    /// Wake the task and end the poll as pending.
    WakeAndWait,
    /// End the poll as pending; the pending operation wakes the task.
    Wait,
    /// End the poll with this outcome.
    Finish(TransferOutcome),
}

/// Whether a descrambler was asked for, and how setting it up went.
pub enum DecoderSetup {
    /// No descrambler was asked for.
    Disabled,
    /// The descrambler is ready.
    Ready,
    /// Setting up the descrambler failed with this error.
    Failed(std::io::Error),
}

/// The state of a transfer as the contracts speak of it.
pub struct TransferModel {
    pub phase: Phase,
    pub written: u64,
    pub finalize_reason: Option<TransferStopReason>,
    pub has_decoder: bool,
    pub decoder_fallback: bool,
    pub decoder_disabled: bool,
    pub has_progress: bool,
    pub last_progress: u64,
}

/// The decisions of a transfer, without the streams themselves.
pub struct StreamTransfer<P> {
    phase: Phase,
    written: u64,
    finalize_reason: Option<TransferStopReason>,
    has_decoder: bool,
    decoder_fallback: bool,
    decoder_disabled: bool,
    last_progress: u64,
    progress_callback: Option<P>,
    stop_requested: Arc<AtomicBool>,
}

impl<P> View for StreamTransfer<P> {
    type V = TransferModel;

    closed spec fn view(&self) -> TransferModel {
        TransferModel {
            phase: self.phase,
            written: self.written,
            finalize_reason: self.finalize_reason,
            has_decoder: self.has_decoder,
            decoder_fallback: self.decoder_fallback,
            decoder_disabled: self.decoder_disabled,
            has_progress: self.progress_callback is Some,
            last_progress: self.last_progress,
        }
    }
}

/// The model with its phase replaced.
pub open spec fn at(m: TransferModel, phase: Phase) -> TransferModel {
    TransferModel { phase, ..m }
}

/// Whether the descrambler takes part in the transfer.
pub open spec fn decoding(m: TransferModel) -> bool {
    m.has_decoder && !m.decoder_disabled
}

/// The phases in which the descrambler is in use.
pub open spec fn is_decoder_phase(p: Phase) -> bool {
    p == Phase::DecoderFillingInput || p == Phase::DecoderWriting || p
        == Phase::DecoderConsumingInput || p == Phase::DecoderReporting || is_drain_phase(p)
}

/// The phases that come after the descrambler has stopped taking input.
pub open spec fn is_drain_phase(p: Phase) -> bool {
    p == Phase::DecoderFlushing || p == Phase::Draining || p == Phase::DrainWriting || p
        == Phase::DrainConsuming || p == Phase::DrainReporting || p == Phase::DrainFlushingOutput
}

/// The phases of pass-through.
pub open spec fn is_pass_phase(p: Phase) -> bool {
    p == Phase::PassFillingInput || p == Phase::PassWriting || p == Phase::PassConsuming || p
        == Phase::PassReporting || p == Phase::PassFlushingOutput
}

/// The phases that wait for written bytes to be consumed.
pub open spec fn is_consuming_phase(p: Phase) -> bool {
    p == Phase::DecoderConsumingInput || p == Phase::DrainConsuming || p == Phase::PassConsuming
}

/// The phases that wait for the progress callback to be told the count.
pub open spec fn is_reporting_phase(p: Phase) -> bool {
    p == Phase::DecoderReporting || p == Phase::DrainReporting || p == Phase::PassReporting
}

/// The invariant of every transfer.
pub open spec fn model_wf(m: TransferModel) -> bool {
    &&& m.decoder_disabled ==> m.has_decoder && m.decoder_fallback
    &&& m.last_progress <= m.written
    &&& m.finalize_reason != Some(TransferStopReason::Completed)
    &&& is_decoder_phase(m.phase) ==> decoding(m)
    &&& is_pass_phase(m.phase) ==> !decoding(m)
    &&& is_drain_phase(m.phase) ==> m.finalize_reason is Some
    &&& (m.phase == Phase::DecoderFillingInput || m.phase == Phase::DecoderWriting || m.phase
        == Phase::DecoderConsumingInput || m.phase == Phase::DecoderReporting)
        ==> m.finalize_reason is None
    &&& is_reporting_phase(m.phase) ==> m.has_progress && m.last_progress == m.written
        && m.written > 0
}

/// Whether the transfer expects this event now.
pub open spec fn accepts(m: TransferModel, ev: TransferEvent) -> bool {
    match ev {
        TransferEvent::PollStarted { .. } => m.phase == Phase::Idle,
        TransferEvent::Filled(_) => m.phase == Phase::DecoderFillingInput || m.phase
            == Phase::Draining || m.phase == Phase::PassFillingInput,
        TransferEvent::Written(w) => (m.phase == Phase::DecoderWriting || m.phase
            == Phase::DrainWriting || m.phase == Phase::PassWriting) && (w matches IoPoll::Ready(
            n,
        ) ==> m.written + n <= u64::MAX),
        TransferEvent::Flushed(_) => m.phase == Phase::DecoderFlushing || m.phase
            == Phase::DrainFlushingOutput || m.phase == Phase::PassFlushingOutput,
        TransferEvent::Consumed => is_consuming_phase(m.phase),
        TransferEvent::Reported => is_reporting_phase(m.phase),
    }
}

/// Progress is reported when a callback is set and the count has moved since the last report.
pub open spec fn notifies(m: TransferModel) -> bool {
    m.has_progress && m.last_progress != m.written
}

/// How a transfer goes on once written bytes are consumed and any progress is reported: a
/// drain reads the descrambler again; otherwise the poll ends, asking to be polled again.
pub open spec fn after_progress(m: TransferModel) -> (TransferModel, TransferAction) {
    if m.phase == Phase::DrainConsuming || m.phase == Phase::DrainReporting {
        (at(m, Phase::Draining), TransferAction::FillDecoder)
    } else {
        ending(m, TransferAction::WakeAndWait)
    }
}

/// The report of a finished transfer: the bytes counted so far and why it stopped, `default`
/// when no reason was recorded.
pub open spec fn report(m: TransferModel, default: TransferStopReason) -> TransferReport {
    TransferReport {
        written_bytes: m.written,
        stop_reason: match m.finalize_reason {
            Some(r) => r,
            None => default,
        },
    }
}

/// The pair of the next model and the action, for a poll that ends.
pub open spec fn ending(m: TransferModel, a: TransferAction) -> (TransferModel, TransferAction) {
    (at(m, Phase::Idle), a)
}

/// How a poll begins: a requested stop is recorded; a transfer that descrambles reads input
/// until a stop reason is recorded and then flushes the descrambler; otherwise it reads input.
pub open spec fn start_poll(m: TransferModel, stop_requested: bool) -> (
    TransferModel,
    TransferAction,
) {
    let fin = if stop_requested {
        Some(TransferStopReason::Stopped)
    } else {
        m.finalize_reason
    };
    let m1 = TransferModel { finalize_reason: fin, ..m };
    if decoding(m) {
        if fin is None {
            (at(m1, Phase::DecoderFillingInput), TransferAction::FillInput)
        } else {
            (at(m1, Phase::DecoderFlushing), TransferAction::FlushDecoder)
        }
    } else {
        (at(m1, Phase::PassFillingInput), TransferAction::FillInput)
    }
}

/// The transition of the transfer on an event it accepts.
pub open spec fn transition(m: TransferModel, ev: TransferEvent) -> (TransferModel, TransferAction) {
    match ev {
        TransferEvent::PollStarted { stop_requested } => start_poll(m, stop_requested),
        TransferEvent::Filled(p) => match p {
            IoPoll::Pending => if m.phase == Phase::Draining {
                (m, TransferAction::FillDecoder)
            } else {
                ending(m, TransferAction::Wait)
            },
            IoPoll::Failed(e) => ending(m, TransferAction::Finish(TransferOutcome::Failed(e))),
            IoPoll::Ready(n) => if m.phase == Phase::DecoderFillingInput {
                if n == 0 {
                    (
                        at(
                            TransferModel {
                                finalize_reason: Some(TransferStopReason::InputEof),
                                ..m
                            },
                            Phase::DecoderFlushing,
                        ),
                        TransferAction::FlushDecoder,
                    )
                } else {
                    (at(m, Phase::DecoderWriting), TransferAction::WriteInputToDecoder)
                }
            } else if m.phase == Phase::Draining {
                if n == 0 {
                    (at(m, Phase::DrainFlushingOutput), TransferAction::FlushOutput)
                } else {
                    (at(m, Phase::DrainWriting), TransferAction::WriteDecoderToOutput)
                }
            } else {
                if n == 0 {
                    (at(m, Phase::PassFlushingOutput), TransferAction::FlushOutput)
                } else {
                    (at(m, Phase::PassWriting), TransferAction::WriteInputToOutput)
                }
            },
        },
        TransferEvent::Written(p) => match p {
            IoPoll::Pending => ending(m, TransferAction::Wait),
            IoPoll::Failed(e) => if m.phase == Phase::DecoderWriting && m.decoder_fallback {
                ending(TransferModel { decoder_disabled: true, ..m }, TransferAction::WakeAndWait)
            } else {
                ending(m, TransferAction::Finish(TransferOutcome::Failed(e)))
            },
            IoPoll::Ready(n) => if n == 0 {
                ending(m, TransferAction::Finish(TransferOutcome::WriteZero))
            } else {
                let m1 = TransferModel { written: (m.written + n) as u64, ..m };
                if m.phase == Phase::DecoderWriting {
                    (at(m1, Phase::DecoderConsumingInput), TransferAction::ConsumeInput(n))
                } else if m.phase == Phase::DrainWriting {
                    (at(m1, Phase::DrainConsuming), TransferAction::ConsumeDecoder(n))
                } else {
                    (at(m1, Phase::PassConsuming), TransferAction::ConsumeInput(n))
                }
            },
        },
        TransferEvent::Flushed(p) => match p {
            IoPoll::Pending => ending(m, TransferAction::Wait),
            IoPoll::Failed(e) => ending(m, TransferAction::Finish(TransferOutcome::Failed(e))),
            IoPoll::Ready(_) => if m.phase == Phase::DecoderFlushing {
                (at(m, Phase::Draining), TransferAction::FillDecoder)
            } else if m.phase == Phase::DrainFlushingOutput {
                ending(
                    m,
                    TransferAction::Finish(
                        TransferOutcome::Done(report(m, TransferStopReason::Completed)),
                    ),
                )
            } else {
                ending(
                    m,
                    TransferAction::Finish(
                        TransferOutcome::Done(report(m, TransferStopReason::InputEof)),
                    ),
                )
            },
        },
        TransferEvent::Consumed => if notifies(m) {
            let m1 = TransferModel { last_progress: m.written, ..m };
            let p = if m.phase == Phase::DrainConsuming {
                Phase::DrainReporting
            } else if m.phase == Phase::DecoderConsumingInput {
                Phase::DecoderReporting
            } else {
                Phase::PassReporting
            };
            (at(m1, p), TransferAction::ReportProgress(m.written))
        } else {
            after_progress(m)
        },
        TransferEvent::Reported => after_progress(m),
    }
}

/// `std::io::Error::from(std::io::ErrorKind::WriteZero)`: the error of a write that accepted
/// no bytes. No clause states its kind: the kind has no model here.
#[verifier::external_body]
pub(crate) fn write_zero_error() -> std::io::Error {
    std::io::Error::from(std::io::ErrorKind::WriteZero)
}

/// The result of a transfer that ended with `outcome`: its report, the failure's error, or
/// the error of a write that accepted no bytes.
pub fn into_result(outcome: TransferOutcome) -> (r: std::io::Result<TransferReport>)
    ensures
        match outcome {
            TransferOutcome::Done(report) => r == Ok::<TransferReport, std::io::Error>(report),
            TransferOutcome::Failed(e) => r == Err::<TransferReport, std::io::Error>(e),
            TransferOutcome::WriteZero => r is Err,
        },
{
    match outcome {
        TransferOutcome::Done(report) => Ok(report),
        TransferOutcome::Failed(error) => Err(error),
        TransferOutcome::WriteZero => Err(write_zero_error()),
    }
}

impl<P: Fn(u64)> StreamTransfer<P> {
    /// The invariant: the model's, and a progress callback that accepts every count.
    pub closed spec fn wf(&self) -> bool {
        &&& model_wf(self@)
        &&& self.progress_callback matches Some(cb) ==> forall|n: u64|
            #[trigger] call_requires(cb, (n,))
    }

    /// The flag that a stop request raises.
    pub closed spec fn stop_flag(&self) -> Arc<AtomicBool> {
        self.stop_requested
    }

    /// The progress callback, if one is set.
    pub closed spec fn callback(&self) -> Option<P> {
        self.progress_callback
    }

    /// A well-formed transfer has a model that satisfies [`model_wf`], so the laws apply to it.
    pub proof fn lemma_wf_model(&self)
        requires
            self.wf(),
        ensures
            model_wf(self@),
            self@.has_progress == (self.callback() is Some),
    {
    }

    /// A transfer between polls, with nothing written. Without a descrambler it passes the
    /// input through; when setting up the descrambler failed, it passes through if
    /// `continue_on_decoder_error` is set and fails with the setup error otherwise.
    pub fn new(
        decoder: DecoderSetup,
        continue_on_decoder_error: bool,
        stop_requested: Arc<AtomicBool>,
    ) -> (r: std::io::Result<Self>)
        ensures
            match decoder {
                DecoderSetup::Failed(e) if !continue_on_decoder_error => r == Err::<Self, _>(e),
                _ => r matches Ok(t) && t.wf() && t@ == (TransferModel {
                    phase: Phase::Idle,
                    written: 0,
                    finalize_reason: None,
                    has_decoder: decoder is Ready,
                    decoder_fallback: continue_on_decoder_error,
                    decoder_disabled: false,
                    has_progress: false,
                    last_progress: 0,
                }) && t.stop_flag() == stop_requested && t.callback() is None,
            },
    {
        let has_decoder = match decoder {
            DecoderSetup::Disabled => false,
            DecoderSetup::Ready => true,
            DecoderSetup::Failed(error) => {
                if continue_on_decoder_error {
                    false
                } else {
                    return Err(error);
                }
            },
        };
        Ok(StreamTransfer {
            phase: Phase::Idle,
            written: 0,
            finalize_reason: None,
            has_decoder,
            decoder_fallback: continue_on_decoder_error,
            decoder_disabled: false,
            last_progress: 0,
            progress_callback: None,
            stop_requested,
        })
    }

    /// The same transfer, reporting each new count of written bytes to `callback`.
    pub fn with_progress_callback(self, callback: P) -> (r: Self)
        requires
            self.wf(),
            forall|n: u64| #[trigger] call_requires(callback, (n,)),
        ensures
            r.wf(),
            r@ == (TransferModel { has_progress: true, ..self@ }),
            r.stop_flag() == self.stop_flag(),
            r.callback() == Some(callback),
    {
        let mut t = self;
        t.progress_callback = Some(callback);
        t
    }

    /// Whether the transfer expects `ev` now (see [`accepts`]).
    pub fn accepts(&self, ev: &TransferEvent) -> (r: bool)
        ensures
            r == accepts(self@, *ev),
    {
        match ev {
            TransferEvent::PollStarted { .. } => matches!(self.phase, Phase::Idle),
            TransferEvent::Filled(_) => matches!(
                self.phase,
                Phase::DecoderFillingInput | Phase::Draining | Phase::PassFillingInput
            ),
            TransferEvent::Written(w) => {
                matches!(self.phase, Phase::DecoderWriting | Phase::DrainWriting | Phase::PassWriting)
                    && match w {
                    IoPoll::Ready(n) => self.written.checked_add(*n as u64).is_some(),
                    _ => true,
                }
            },
            TransferEvent::Flushed(_) => matches!(
                self.phase,
                Phase::DecoderFlushing | Phase::DrainFlushingOutput | Phase::PassFlushingOutput
            ),
            TransferEvent::Consumed => matches!(
                self.phase,
                Phase::DecoderConsumingInput | Phase::DrainConsuming | Phase::PassConsuming
            ),
            TransferEvent::Reported => matches!(
                self.phase,
                Phase::DecoderReporting | Phase::DrainReporting | Phase::PassReporting
            ),
        }
    }

    /// Tells the progress callback the count of written bytes, as a `ReportProgress` action
    /// asks.
    pub fn report_progress(&self)
        requires
            self.wf(),
            is_reporting_phase(self@.phase),
        ensures
            self.callback() matches Some(cb) && call_ensures(cb, (self@.written,), ()),
    {
        match &self.progress_callback {
            Some(callback) => callback(self.written),
            None => {},
        }
    }

    /// Begins a poll: reads the stop flag and moves on as `PollStarted` with the value read.
    /// What the flag holds depends on other threads, so the contract holds for either value.
    pub fn begin_poll(&mut self) -> (action: TransferAction)
        requires
            old(self).wf(),
            old(self)@.phase == Phase::Idle,
        ensures
            final(self).wf(),
            final(self).stop_flag() == old(self).stop_flag(),
            final(self).callback() == old(self).callback(),
            exists|stop_requested: bool|
                (final(self)@, action) == #[trigger] start_poll(old(self)@, stop_requested),
    {
        let stop_requested = self.stop_requested.load(Ordering::Relaxed);
        self.step(TransferEvent::PollStarted { stop_requested })
    }

    fn continue_after_progress(&mut self) -> (action: TransferAction)
        requires
            old(self).wf(),
            is_consuming_phase(old(self)@.phase) || is_reporting_phase(old(self)@.phase),
        ensures
            final(self).wf(),
            (final(self)@, action) == after_progress(old(self)@),
            final(self).stop_flag() == old(self).stop_flag(),
            final(self).callback() == old(self).callback(),
    {
        if matches!(self.phase, Phase::DrainConsuming | Phase::DrainReporting) {
            self.phase = Phase::Draining;
            TransferAction::FillDecoder
        } else {
            self.phase = Phase::Idle;
            TransferAction::WakeAndWait
        }
    }

    /// Moves the transfer on by one event and returns what must be done next.
    pub fn step(&mut self, ev: TransferEvent) -> (action: TransferAction)
        requires
            old(self).wf(),
            accepts(old(self)@, ev),
        ensures
            final(self).wf(),
            (final(self)@, action) == transition(old(self)@, ev),
            final(self).stop_flag() == old(self).stop_flag(),
            final(self).callback() == old(self).callback(),
    {
        match ev {
            TransferEvent::PollStarted { stop_requested } => {
                if stop_requested {
                    self.finalize_reason = Some(TransferStopReason::Stopped);
                }
                if self.has_decoder && !self.decoder_disabled {
                    if self.finalize_reason.is_none() {
                        self.phase = Phase::DecoderFillingInput;
                        TransferAction::FillInput
                    } else {
                        self.phase = Phase::DecoderFlushing;
                        TransferAction::FlushDecoder
                    }
                } else {
                    self.phase = Phase::PassFillingInput;
                    TransferAction::FillInput
                }
            },
            TransferEvent::Filled(p) => match p {
                IoPoll::Pending => {
                    if matches!(self.phase, Phase::Draining) {
                        TransferAction::FillDecoder
                    } else {
                        self.phase = Phase::Idle;
                        TransferAction::Wait
                    }
                },
                IoPoll::Failed(e) => {
                    self.phase = Phase::Idle;
                    TransferAction::Finish(TransferOutcome::Failed(e))
                },
                IoPoll::Ready(n) => {
                    if matches!(self.phase, Phase::DecoderFillingInput) {
                        if n == 0 {
                            self.finalize_reason = Some(TransferStopReason::InputEof);
                            self.phase = Phase::DecoderFlushing;
                            TransferAction::FlushDecoder
                        } else {
                            self.phase = Phase::DecoderWriting;
                            TransferAction::WriteInputToDecoder
                        }
                    } else if matches!(self.phase, Phase::Draining) {
                        if n == 0 {
                            self.phase = Phase::DrainFlushingOutput;
                            TransferAction::FlushOutput
                        } else {
                            self.phase = Phase::DrainWriting;
                            TransferAction::WriteDecoderToOutput
                        }
                    } else {
                        if n == 0 {
                            self.phase = Phase::PassFlushingOutput;
                            TransferAction::FlushOutput
                        } else {
                            self.phase = Phase::PassWriting;
                            TransferAction::WriteInputToOutput
                        }
                    }
                },
            },
            TransferEvent::Written(p) => match p {
                IoPoll::Pending => {
                    self.phase = Phase::Idle;
                    TransferAction::Wait
                },
                IoPoll::Failed(e) => {
                    if matches!(self.phase, Phase::DecoderWriting) && self.decoder_fallback {
                        self.decoder_disabled = true;
                        self.phase = Phase::Idle;
                        TransferAction::WakeAndWait
                    } else {
                        self.phase = Phase::Idle;
                        TransferAction::Finish(TransferOutcome::Failed(e))
                    }
                },
                IoPoll::Ready(n) => {
                    if n == 0 {
                        self.phase = Phase::Idle;
                        TransferAction::Finish(TransferOutcome::WriteZero)
                    } else {
                        self.written = self.written + n as u64;
                        if matches!(self.phase, Phase::DecoderWriting) {
                            self.phase = Phase::DecoderConsumingInput;
                            TransferAction::ConsumeInput(n)
                        } else if matches!(self.phase, Phase::DrainWriting) {
                            self.phase = Phase::DrainConsuming;
                            TransferAction::ConsumeDecoder(n)
                        } else {
                            self.phase = Phase::PassConsuming;
                            TransferAction::ConsumeInput(n)
                        }
                    }
                },
            },
            TransferEvent::Flushed(p) => match p {
                IoPoll::Pending => {
                    self.phase = Phase::Idle;
                    TransferAction::Wait
                },
                IoPoll::Failed(e) => {
                    self.phase = Phase::Idle;
                    TransferAction::Finish(TransferOutcome::Failed(e))
                },
                IoPoll::Ready(_) => {
                    if matches!(self.phase, Phase::DecoderFlushing) {
                        self.phase = Phase::Draining;
                        TransferAction::FillDecoder
                    } else {
                        let default = if matches!(self.phase, Phase::DrainFlushingOutput) {
                            TransferStopReason::Completed
                        } else {
                            TransferStopReason::InputEof
                        };
                        let stop_reason = match self.finalize_reason {
                            Some(r) => r,
                            None => default,
                        };
                        self.phase = Phase::Idle;
                        TransferAction::Finish(
                            TransferOutcome::Done(
                                TransferReport { written_bytes: self.written, stop_reason },
                            ),
                        )
                    }
                },
            },
            TransferEvent::Consumed => {
                if self.progress_callback.is_some() && self.last_progress != self.written {
                    self.last_progress = self.written;
                    self.phase = if matches!(self.phase, Phase::DrainConsuming) {
                        Phase::DrainReporting
                    } else if matches!(self.phase, Phase::DecoderConsumingInput) {
                        Phase::DecoderReporting
                    } else {
                        Phase::PassReporting
                    };
                    TransferAction::ReportProgress(self.written)
                } else {
                    self.continue_after_progress()
                }
            },
            TransferEvent::Reported => self.continue_after_progress(),
        }
    }
}

} // verus!
