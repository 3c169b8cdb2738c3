//! A recording: a transfer from a tuned input whose end is reported in its own terms.
use crate::io::{
    write_zero_error,
    accepts, is_reporting_phase, model_wf, start_poll, transition, DecoderSetup, Phase, StreamTransfer, TransferAction, TransferEvent, TransferModel,
    TransferOutcome, TransferReport, TransferStopReason,
};
use crate::io::laws::{lemma_callback_changes_only_reports, past_report, with_progress};
use crate::tuner::Voltage;
use std::sync::atomic::AtomicBool;
use std::sync::atomic::Ordering;
use std::sync::Arc;
use vstd::prelude::*;
use vstd::string::{to_string_from_display_ensures, StringExecFns};

verus! {

/// Why a recording failed.
#[derive(Debug)]
pub enum Error {
    /// An I/O operation failed.
    Io(std::io::Error),
    /// The channel named here is not one the tuner knows.
    InvalidChannel(String),
}

impl From<std::io::Error> for Error {
    fn from(value: std::io::Error) -> (r: Self) {
        Error::Io(value)
    }
}

impl vstd::std_specs::convert::FromSpecImpl<std::io::Error> for Error {
    open spec fn obeys_from_spec() -> bool {
        true
    }

    open spec fn from_spec(v: std::io::Error) -> Self {
        Error::Io(v)
    }
}

impl Error {
    /// The text of the error: the I/O error's own text, or `Invalid channel: ` and the channel.
    pub fn message(&self) -> (r: String)
        ensures
            self matches Error::Io(e) ==> to_string_from_display_ensures::<std::io::Error>(&e, r),
            self matches Error::InvalidChannel(v) ==> r@ == "Invalid channel: "@ + v@,
    {
        match self {
            Error::Io(error) => error.to_string(),
            Error::InvalidChannel(value) => {
                let mut text = "Invalid channel: ".to_owned();
                text.append(value.as_str());
                text
            },
        }
    }
}

/// What a recording is made with.
pub struct RecordingOptions<C, D> {
    /// The path of the tuner device.
    pub device: String,
    /// The channel to tune to.
    pub channel: C,
    /// The LNB supply voltage, if any.
    pub lnb: Option<Voltage>,
    /// The transport stream ID to select, if any.
    pub tsid: Option<u32>,
    /// The settings of the descrambler, if one is wanted.
    pub decoder: Option<D>,
    /// Whether a failing descrambler falls back to pass-through.
    pub continue_on_decoder_error: bool,
    /// The size of the input buffer, in bytes.
    pub input_buffer_size: usize,
}

impl<C, D> RecordingOptions<C, D> {
    /// Options for `channel` on `device`: no LNB supply, no transport stream ID, no descrambler,
    /// no fallback, and an input buffer of 200000 bytes.
    pub fn new(device: String, channel: C) -> (r: Self)
        ensures
            r.device == device,
            r.channel == channel,
            r.lnb is None,
            r.tsid is None,
            r.decoder is None,
            !r.continue_on_decoder_error,
            r.input_buffer_size == 200_000,
    {
        RecordingOptions {
            device,
            channel,
            lnb: None,
            tsid: None,
            decoder: None,
            continue_on_decoder_error: false,
            input_buffer_size: 200_000,
        }
    }
}

/// Why a recording ended.
#[derive(Debug, Clone, Copy, PartialEq, Eq, Structural)]
pub enum RecordingStopReason {
    Completed,
    InputEof,
    Stopped,
}

/// What a finished recording reports.
#[derive(Debug, Clone, Copy, PartialEq, Eq, Structural)]
pub struct RecordingReport {
    pub written_bytes: u64,
    pub stop_reason: RecordingStopReason,
}

/// The recording's name for a transfer's stop reason.
pub open spec fn recording_reason(r: TransferStopReason) -> RecordingStopReason {
    match r {
        TransferStopReason::Completed => RecordingStopReason::Completed,
        TransferStopReason::InputEof => RecordingStopReason::InputEof,
        TransferStopReason::Stopped => RecordingStopReason::Stopped,
    }
}

/// The recording's report for a transfer's report.
pub open spec fn recording_report(r: TransferReport) -> RecordingReport {
    RecordingReport {
        written_bytes: r.written_bytes,
        stop_reason: recording_reason(r.stop_reason),
    }
}

impl RecordingStopReason {
    /// The recording's name for a transfer's stop reason.
    pub fn from_transfer(r: TransferStopReason) -> (s: Self)
        ensures
            s == recording_reason(r),
    {
        match r {
            TransferStopReason::Completed => RecordingStopReason::Completed,
            TransferStopReason::InputEof => RecordingStopReason::InputEof,
            TransferStopReason::Stopped => RecordingStopReason::Stopped,
        }
    }
}

impl RecordingReport {
    /// The recording's report for a transfer's report: the same count, the same reason.
    pub fn from_transfer(r: TransferReport) -> (s: Self)
        ensures
            s == recording_report(r),
    {
        RecordingReport {
            written_bytes: r.written_bytes,
            stop_reason: RecordingStopReason::from_transfer(r.stop_reason),
        }
    }
}

/// `Arc::clone`: a second owner of the same flag.
#[verifier::external_body]
fn share_flag(flag: &Arc<AtomicBool>) -> (r: Arc<AtomicBool>)
    ensures
        r == *flag,
{
    Arc::clone(flag)
}

/// Stops a running recording from another thread.
pub struct RecordingHandle {
    stop_requested: Arc<AtomicBool>,
}

impl Clone for RecordingHandle {
    fn clone(&self) -> (r: Self)
        ensures
            r.stop_flag() == self.stop_flag(),
    {
        RecordingHandle { stop_requested: share_flag(&self.stop_requested) }
    }
}

impl RecordingHandle {
    /// The flag that this handle raises.
    pub closed spec fn stop_flag(&self) -> Arc<AtomicBool> {
        self.stop_requested
    }

    /// Asks the recording to stop: raises its stop flag, which the next poll reads.
    /// The flag is shared with other threads, so no clause states what it holds afterwards.
    pub fn stop(&self) {
        self.stop_requested.store(true, Ordering::Relaxed);
    }
}

/// A recording in progress.
pub struct Recording<P> {
    inner: StreamTransfer<P>,
}

impl<P> View for Recording<P> {
    type V = TransferModel;

    closed spec fn view(&self) -> TransferModel {
        self.inner@
    }
}

/// The result of a recording that ended with this transfer outcome: the transfer's report in
/// the recording's terms, or the I/O error.
pub open spec fn recording_result(o: TransferOutcome) -> Option<Result<RecordingReport, Error>> {
    match o {
        TransferOutcome::Done(r) => Some(Ok(recording_report(r))),
        TransferOutcome::Failed(e) => Some(Err(Error::Io(e))),
        TransferOutcome::WriteZero => None,
    }
}

/// The model of a transfer that has not started: between polls, nothing written, no stop
/// reason, no progress callback.
pub open spec fn initial_model(has_decoder: bool, decoder_fallback: bool) -> TransferModel {
    TransferModel {
        phase: Phase::Idle,
        written: 0,
        finalize_reason: None,
        has_decoder,
        decoder_fallback,
        decoder_disabled: false,
        has_progress: false,
        last_progress: 0,
    }
}

/// Whether `r` is what starting a recording gives once the device was opened with result
/// `opened`: the I/O error if opening failed; the descrambler's setup error if it failed and
/// falling back is not allowed; otherwise a handle and a new recording sharing one stop flag,
/// with the opened device handed back.
pub open spec fn started<P: Fn(u64), T>(
    opened: std::io::Result<(T, DecoderSetup)>,
    continue_on_decoder_error: bool,
    r: Result<(RecordingHandle, Recording<P>, T), Error>,
) -> bool {
    match opened {
        Err(e) => r == Err::<(RecordingHandle, Recording<P>, T), Error>(Error::Io(e)),
        Ok((t, setup)) => match setup {
            DecoderSetup::Failed(e) if !continue_on_decoder_error => r == Err::<
                (RecordingHandle, Recording<P>, T),
                Error,
            >(Error::Io(e)),
            _ => r matches Ok((handle, rec, t2)) && t2 == t && rec.wf() && rec@ == initial_model(
                setup is Ready,
                continue_on_decoder_error,
            ) && handle.stop_flag() == rec.stop_flag() && rec.callback() is None,
        },
    }
}

impl<P: Fn(u64)> Recording<P> {
    /// The invariant of the recording's transfer.
    pub closed spec fn wf(&self) -> bool {
        self.inner.wf()
    }

    /// The flag that stops the recording.
    pub closed spec fn stop_flag(&self) -> Arc<AtomicBool> {
        self.inner.stop_flag()
    }

    /// The progress callback of the recording's transfer, if one is set.
    pub closed spec fn callback(&self) -> Option<P> {
        self.inner.callback()
    }

    /// A well-formed recording has a model that satisfies [`model_wf`], so the laws apply to it.
    pub proof fn lemma_wf_model(&self)
        requires
            self.wf(),
        ensures
            model_wf(self@),
            self@.has_progress == (self.callback() is Some),
    {
        self.inner.lemma_wf_model();
    }

    /// Starts a recording: refuses a channel that the tuner does not know, with its raw name,
    /// without calling `open`; otherwise calls `open` once to open and tune the device and set
    /// up the descrambler, and fails with its I/O error if it fails. A descrambler that failed
    /// to set up fails the recording with its error unless falling back is allowed. The
    /// recording gets a fresh stop flag shared with the handle, and what `open` opened is
    /// handed back with it.
    pub fn start<T, F: FnOnce() -> std::io::Result<(T, DecoderSetup)>>(
        channel_is_undefined: bool,
        raw_channel_name: &str,
        continue_on_decoder_error: bool,
        open: F,
    ) -> (r: Result<(RecordingHandle, Self, T), Error>)
        requires
            !channel_is_undefined ==> call_requires(open, ()),
        ensures
            channel_is_undefined ==> (r matches Err(Error::InvalidChannel(name)) && name@
                == raw_channel_name@),
            !channel_is_undefined ==> exists|opened: std::io::Result<(T, DecoderSetup)>|
                #[trigger] call_ensures(open, (), opened) && started(
                    opened,
                    continue_on_decoder_error,
                    r,
                ),
    {
        if channel_is_undefined {
            return Err(Error::InvalidChannel(raw_channel_name.to_owned()));
        }
        match open() {
            Err(error) => Err(Error::Io(error)),
            Ok((opened, decoder)) => {
                let stop_requested = Arc::new(AtomicBool::new(false));
                let handle = RecordingHandle { stop_requested: share_flag(&stop_requested) };
                match StreamTransfer::new(decoder, continue_on_decoder_error, stop_requested) {
                    Ok(inner) => Ok((handle, Recording { inner }, opened)),
                    Err(error) => Err(Error::Io(error)),
                }
            },
        }
    }

    /// The same recording, reporting each new count of written bytes to `callback`.
    pub fn with_progress_callback(self, callback: P) -> (r: Self)
        requires
            self.wf(),
            forall|n: u64| #[trigger] call_requires(callback, (n,)),
        ensures
            r.wf(),
            r@ == (TransferModel { has_progress: true, ..self@ }),
            r.stop_flag() == self.stop_flag(),
            r.callback() == Some(callback),
    {
        Recording { inner: self.inner.with_progress_callback(callback) }
    }

    /// Begins a poll of the recording's transfer (see [`StreamTransfer::begin_poll`]).
    pub fn begin_poll(&mut self) -> (action: TransferAction)
        requires
            old(self).wf(),
            old(self)@.phase == Phase::Idle,
        ensures
            final(self).wf(),
            final(self).stop_flag() == old(self).stop_flag(),
            final(self).callback() == old(self).callback(),
            exists|stop_requested: bool|
                (final(self)@, action) == #[trigger] start_poll(old(self)@, stop_requested),
    {
        self.inner.begin_poll()
    }

    /// Moves the recording's transfer on by one event (see [`StreamTransfer::step`]).
    pub fn step(&mut self, ev: TransferEvent) -> (action: TransferAction)
        requires
            old(self).wf(),
            accepts(old(self)@, ev),
        ensures
            final(self).wf(),
            (final(self)@, action) == transition(old(self)@, ev),
            final(self).stop_flag() == old(self).stop_flag(),
            final(self).callback() == old(self).callback(),
    {
        self.inner.step(ev)
    }

    /// Tells the progress callback the count of written bytes, as a `ReportProgress` action
    /// asks (see [`StreamTransfer::report_progress`]).
    pub fn report_progress(&self)
        requires
            self.wf(),
            is_reporting_phase(self@.phase),
        ensures
            self.callback() matches Some(cb) && call_ensures(cb, (self@.written,), ()),
    {
        self.inner.report_progress()
    }

    /// Whether the recording's transfer expects `ev` now.
    pub fn accepts(&self, ev: &TransferEvent) -> (r: bool)
        ensures
            r == accepts(self@, *ev),
    {
        self.inner.accepts(ev)
    }
}

/// Refuses a channel that the tuner does not know, with its raw name.
pub fn check_channel(channel_is_undefined: bool, raw_channel_name: &str) -> (r: Result<
    (),
    Error,
>)
    ensures
        !channel_is_undefined ==> r is Ok,
        channel_is_undefined ==> (r matches Err(Error::InvalidChannel(name)) && name@
            == raw_channel_name@),
{
    if channel_is_undefined {
        return Err(Error::InvalidChannel(raw_channel_name.to_owned()));
    }
    Ok(())
}

/// The result of the recording once its transfer ends with `outcome`: the report in the
/// recording's terms, or the I/O error; a write that accepted nothing is an I/O error too.
pub fn recording_outcome(outcome: TransferOutcome) -> (r: Result<RecordingReport, Error>)
    ensures
        recording_result(outcome) matches Some(expected) ==> r == expected,
        outcome is WriteZero ==> r matches Err(Error::Io(_)),
{
    match outcome {
        TransferOutcome::Done(report) => Ok(RecordingReport::from_transfer(report)),
        TransferOutcome::Failed(error) => Err(Error::Io(error)),
        TransferOutcome::WriteZero => Err(Error::Io(write_zero_error())),
    }
}

/// Giving a recording a progress callback changes nothing but its reports: on every event the
/// recording with the callback does what the recording without it does, past any report it
/// asks for, and the two models differ only in the progress they track.
pub proof fn lemma_recording_callback_changes_only_reports<P: Fn(u64)>(
    r: Recording<P>,
    r2: Recording<P>,
    ev: TransferEvent,
)
    requires
        r.wf(),
        r2.wf(),
        r2@ == (TransferModel { has_progress: true, ..r@ }),
        accepts(r@, ev),
        !is_reporting_phase(r@.phase),
    ensures
        accepts(r2@, ev),
        past_report(transition(r2@, ev)).1 == past_report(transition(r@, ev)).1,
        past_report(transition(r2@, ev)).0 == with_progress(
            past_report(transition(r@, ev)).0,
            true,
            past_report(transition(r2@, ev)).0.last_progress,
        ),
{
    r.lemma_wf_model();
    r2.lemma_wf_model();
    assert(r2@ == with_progress(r@, true, r@.last_progress));
    lemma_callback_changes_only_reports(r@, ev, true, r@.last_progress);
}

/// A recording reports what its transfer reports: the same count of bytes, and the same
/// reason under the recording's name for it; distinct reasons keep distinct names.
pub proof fn lemma_report_carried_over(a: TransferReport, b: TransferReport)
    ensures
        recording_report(a).written_bytes == a.written_bytes,
        (recording_reason(a.stop_reason) == recording_reason(b.stop_reason)) <==> (a.stop_reason
            == b.stop_reason),
{
}

/// A recording that finishes reports the bytes counted so far, and never `Completed`: it
/// reports `Stopped` when a stop was requested and `InputEof` otherwise.
pub proof fn lemma_recording_end_reason(m: TransferModel, ev: TransferEvent)
    requires
        model_wf(m),
        accepts(m, ev),
    ensures
        transition(m, ev).1 matches TransferAction::Finish(outcome) ==> (recording_result(
            outcome,
        ) matches Some(Ok(r)) ==> {
            &&& r.written_bytes == m.written
            &&& r.stop_reason != RecordingStopReason::Completed
            &&& (r.stop_reason == RecordingStopReason::Stopped <==> m.finalize_reason == Some(
                TransferStopReason::Stopped,
            ))
        }),
{
    crate::io::laws::lemma_report_reflects_state(m, ev);
}

} // verus!
