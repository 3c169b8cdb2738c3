//! What holds of every transfer across its steps.
use super::{
    accepts, decoding, is_consuming_phase, is_decoder_phase, is_reporting_phase, model_wf, notifies,
    TransferReport, start_poll, transition, IoPoll, Phase,
    TransferAction, TransferEvent, TransferModel, TransferOutcome, TransferStopReason,
};
use vstd::prelude::*;

verus! {

/// The bytes that an event adds to the count: those a write accepted.
pub open spec fn accepted_bytes(ev: TransferEvent) -> nat {
    match ev {
        TransferEvent::Written(IoPoll::Ready(n)) => n as nat,
        _ => 0,
    }
}

/// The model after a sequence of events.
pub open spec fn run(m: TransferModel, evs: Seq<TransferEvent>) -> TransferModel
    decreases evs.len(),
{
    if evs.len() == 0 {
        m
    } else {
        run(transition(m, evs[0]).0, evs.drop_first())
    }
}

/// Whether every event of the sequence is accepted when it comes.
pub open spec fn run_accepted(m: TransferModel, evs: Seq<TransferEvent>) -> bool
    decreases evs.len(),
{
    evs.len() == 0 || (accepts(m, evs[0]) && run_accepted(
        transition(m, evs[0]).0,
        evs.drop_first(),
    ))
}

/// The bytes accepted by the writes of a sequence of events.
pub open spec fn bytes_in(evs: Seq<TransferEvent>) -> nat
    decreases evs.len(),
{
    if evs.len() == 0 {
        0
    } else {
        accepted_bytes(evs[0]) + bytes_in(evs.drop_first())
    }
}

/// Every step keeps the invariant of the transfer.
pub proof fn lemma_step_keeps_invariant(m: TransferModel, ev: TransferEvent)
    requires
        model_wf(m),
        accepts(m, ev),
    ensures
        model_wf(transition(m, ev).0),
{
}

/// A poll ends exactly when the transfer is back between polls: the actions that end a poll
/// (waiting, waking, finishing) leave it idle, and every other action leaves it inside the poll.
pub proof fn lemma_poll_ends_when_idle(m: TransferModel, ev: TransferEvent)
    requires
        model_wf(m),
        accepts(m, ev),
    ensures
        (transition(m, ev).0.phase == Phase::Idle) <==> (transition(m, ev).1 is Wait
            || transition(m, ev).1 is WakeAndWait || transition(m, ev).1 is Finish),
{
}

/// A step adds to the count of written bytes exactly what a write accepted, and nothing
/// otherwise.
pub proof fn lemma_step_counts_accepted_bytes(m: TransferModel, ev: TransferEvent)
    requires
        accepts(m, ev),
    ensures
        transition(m, ev).0.written == m.written + accepted_bytes(ev),
{
}

/// A finished transfer reports the bytes counted so far; its stop reason is never
/// `Completed`: it is `Stopped` when a stop was requested and `InputEof` otherwise.
pub proof fn lemma_report_reflects_state(m: TransferModel, ev: TransferEvent)
    requires
        model_wf(m),
        accepts(m, ev),
    ensures
        transition(m, ev).1 matches TransferAction::Finish(TransferOutcome::Done(r)) ==> {
            &&& r.written_bytes == m.written
            &&& r.stop_reason != TransferStopReason::Completed
            &&& (r.stop_reason == TransferStopReason::Stopped <==> m.finalize_reason == Some(
                TransferStopReason::Stopped,
            ))
        },
{
}

/// While descrambling, a transfer reports only once the descrambler has been flushed and
/// drained into the output, and the output flushed.
pub proof fn lemma_decoder_drained_before_report(m: TransferModel, ev: TransferEvent)
    requires
        model_wf(m),
        accepts(m, ev),
        is_decoder_phase(m.phase),
        transition(m, ev).1 is Finish,
        transition(m, ev).1->Finish_0 is Done,
    ensures
        m.phase == Phase::DrainFlushingOutput,
{
}

/// A poll that begins with a stop request records the stop; a descrambling transfer then
/// reads no more input and goes on to flush the descrambler.
pub proof fn lemma_stop_request_recorded(m: TransferModel)
    requires
        model_wf(m),
        m.phase == Phase::Idle,
    ensures
        start_poll(m, true).0.finalize_reason == Some(TransferStopReason::Stopped),
        decoding(m) ==> start_poll(m, true).1 is FlushDecoder,
{
}

/// Once a descrambling transfer has recorded a stop reason, it reads no more input.
pub proof fn lemma_no_input_after_stop(m: TransferModel, ev: TransferEvent)
    requires
        model_wf(m),
        accepts(m, ev),
        decoding(m),
        m.finalize_reason is Some,
    ensures
        !(transition(m, ev).1 is FillInput),
        !(transition(m, ev).1 is WriteInputToDecoder),
        !(transition(m, ev).1 is WriteInputToOutput),
        !(transition(m, ev).1 is ConsumeInput),
{
}

/// A recorded stop reason is never forgotten, and a recorded stop is never replaced.
pub proof fn lemma_stop_reason_kept(m: TransferModel, ev: TransferEvent)
    requires
        model_wf(m),
        accepts(m, ev),
    ensures
        m.finalize_reason is Some ==> transition(m, ev).0.finalize_reason is Some,
        m.finalize_reason == Some(TransferStopReason::Stopped) ==> transition(
            m,
            ev,
        ).0.finalize_reason == Some(TransferStopReason::Stopped),
{
}

/// The descrambler is switched off only when it fails a write while falling back is allowed,
/// and it stays off. Without fallback, a failed write ends the transfer with that failure.
pub proof fn lemma_fallback_only_when_allowed(m: TransferModel, ev: TransferEvent)
    requires
        model_wf(m),
        accepts(m, ev),
    ensures
        transition(m, ev).0.decoder_disabled == (m.decoder_disabled || (m.phase
            == Phase::DecoderWriting && m.decoder_fallback && ev matches TransferEvent::Written(
            IoPoll::Failed(_),
        ))),
        m.phase == Phase::DecoderWriting && !m.decoder_fallback ==> (ev matches TransferEvent::Written(
            IoPoll::Failed(e),
        ) ==> transition(m, ev).1 == TransferAction::Finish(TransferOutcome::Failed(e))),
{
}

/// A write that accepts no bytes ends the transfer with `WriteZero`.
pub proof fn lemma_zero_write_fails(m: TransferModel)
    requires
        accepts(m, TransferEvent::Written(IoPoll::Ready(0))),
    ensures
        transition(m, TransferEvent::Written(IoPoll::Ready(0))).1 == TransferAction::Finish(
            TransferOutcome::WriteZero,
        ),
{
}

/// Progress is reported by a `ReportProgress` action, and only when consumed bytes have moved
/// the count past the last count reported: the reported count is the count of written bytes,
/// above zero and above every count reported before.
pub proof fn lemma_progress_increases(m: TransferModel, ev: TransferEvent)
    requires
        model_wf(m),
        accepts(m, ev),
    ensures
        transition(m, ev).0.last_progress >= m.last_progress,
        transition(m, ev).0.last_progress != m.last_progress ==> (ev is Consumed && notifies(m)),
        (ev is Consumed && notifies(m)) ==> transition(m, ev).1 == TransferAction::ReportProgress(
            m.written,
        ),
        transition(m, ev).1 matches TransferAction::ReportProgress(n) ==> {
            &&& ev is Consumed
            &&& notifies(m)
            &&& n == m.written
            &&& n > m.last_progress
            &&& n > 0
            &&& transition(m, ev).0.last_progress == n
        },
{
}

/// Whether the last reported count is the count of written bytes, when a callback is set,
/// except while written bytes wait to be consumed.
pub open spec fn progress_caught_up(m: TransferModel) -> bool {
    m.has_progress ==> (m.last_progress == m.written || is_consuming_phase(m.phase))
}

/// A transfer whose reports have caught up with its count stays so.
pub proof fn lemma_progress_stays_caught_up(m: TransferModel, ev: TransferEvent)
    requires
        model_wf(m),
        accepts(m, ev),
        progress_caught_up(m),
    ensures
        progress_caught_up(transition(m, ev).0),
{
}

/// A transfer that is told of progress from its start has, when it finishes, last reported
/// the count it reports: no count was reported when it wrote nothing, and the last count
/// reported is the final one otherwise.
pub proof fn lemma_final_report_is_last_progress(m: TransferModel, ev: TransferEvent)
    requires
        model_wf(m),
        accepts(m, ev),
        progress_caught_up(m),
        m.has_progress,
    ensures
        transition(m, ev).1 matches TransferAction::Finish(TransferOutcome::Done(r)) ==>
            r.written_bytes == m.last_progress,
{
}

/// The model with the progress callback set or not and a given last reported count.
pub open spec fn with_progress(m: TransferModel, has: bool, last: u64) -> TransferModel {
    TransferModel { has_progress: has, last_progress: last, ..m }
}

/// A step's result, past the report it may ask for: when the action is `ReportProgress`, the
/// result of then reporting `Reported`.
pub open spec fn past_report(r: (TransferModel, TransferAction)) -> (TransferModel, TransferAction) {
    if r.1 is ReportProgress {
        transition(r.0, TransferEvent::Reported)
    } else {
        r
    }
}

/// Setting, replacing or leaving out a progress callback changes nothing but the reports:
/// every step does the same I/O and gives the same outcome, except that consuming bytes may
/// first ask for a report; past it, the transfer goes on as it does without one.
pub proof fn lemma_callback_changes_only_reports(
    m: TransferModel,
    ev: TransferEvent,
    has: bool,
    last: u64,
)
    requires
        model_wf(m),
        model_wf(with_progress(m, has, last)),
        accepts(m, ev),
        !is_reporting_phase(m.phase),
    ensures
        accepts(with_progress(m, has, last), ev),
        !(ev is Consumed) ==> {
            let (a, x) = transition(m, ev);
            let (b, y) = transition(with_progress(m, has, last), ev);
            &&& y == x
            &&& b == with_progress(a, has, last)
        },
        ev is Consumed ==> {
            let (a, x) = past_report(transition(m, ev));
            let (b, y) = past_report(transition(with_progress(m, has, last), ev));
            &&& y == x
            &&& b == with_progress(a, has, b.last_progress)
        },
{
}

/// Over any sequence of accepted events the invariant holds, the count of written bytes grows
/// by exactly the bytes the writes accepted, a recorded stop reason stays recorded, and a
/// switched-off descrambler stays off.
pub proof fn lemma_run(m: TransferModel, evs: Seq<TransferEvent>)
    requires
        model_wf(m),
        run_accepted(m, evs),
    ensures
        model_wf(run(m, evs)),
        run(m, evs).written == m.written + bytes_in(evs),
        m.finalize_reason is Some ==> run(m, evs).finalize_reason is Some,
        m.decoder_disabled ==> run(m, evs).decoder_disabled,
        run(m, evs).last_progress >= m.last_progress,
        progress_caught_up(m) ==> progress_caught_up(run(m, evs)),
    decreases evs.len(),
{
    if evs.len() > 0 {
        let m1 = transition(m, evs[0]).0;
        lemma_step_keeps_invariant(m, evs[0]);
        lemma_step_counts_accepted_bytes(m, evs[0]);
        lemma_stop_reason_kept(m, evs[0]);
        lemma_fallback_only_when_allowed(m, evs[0]);
        lemma_progress_increases(m, evs[0]);
        if progress_caught_up(m) {
            lemma_progress_stays_caught_up(m, evs[0]);
        }
        lemma_run(m1, evs.drop_first());
    }
}

} // verus!

verus! {

/// Whether the phase waits for the result of a write.
pub open spec fn is_writing_phase(p: Phase) -> bool {
    p == Phase::DecoderWriting || p == Phase::DrainWriting || p == Phase::PassWriting
}

/// A write result that fits the count is always accepted while a write is awaited: a write
/// of `n` bytes is refused exactly when the count of written bytes would pass `u64::MAX`.
pub proof fn lemma_write_accepted_unless_overflow(m: TransferModel, n: usize)
    requires
        is_writing_phase(m.phase),
    ensures
        accepts(m, TransferEvent::Written(IoPoll::Ready(n))) <==> m.written + n <= u64::MAX,
        accepts(m, TransferEvent::Written(IoPoll::Pending)),
{
}

/// A write that accepted `n > 0` bytes adds `n` to the count and asks to consume exactly those
/// `n` bytes from the buffer that was written: from the input when it was written to the
/// descrambler or passed through, from the descrambler when it was drained.
pub proof fn lemma_write_consumes_what_was_accepted(m: TransferModel, n: usize)
    requires
        model_wf(m),
        accepts(m, TransferEvent::Written(IoPoll::Ready(n))),
        n > 0,
    ensures
        ({
            let (m2, a) = transition(m, TransferEvent::Written(IoPoll::Ready(n)));
            &&& m2.written == m.written + n
            &&& m2.finalize_reason == m.finalize_reason
            &&& (m.phase == Phase::DecoderWriting || m.phase == Phase::PassWriting) ==> a
                == TransferAction::ConsumeInput(n)
            &&& m.phase == Phase::DrainWriting ==> a == TransferAction::ConsumeDecoder(n)
            &&& accepts(m2, TransferEvent::Consumed)
        }),
{
}

/// A fill that gives `n > 0` bytes asks to write that buffer where it goes: input to the
/// descrambler while descrambling input, input to the output in pass-through, descrambled
/// data to the output while draining. Nothing is counted yet.
pub proof fn lemma_fill_writes_the_buffer(m: TransferModel, n: usize)
    requires
        model_wf(m),
        accepts(m, TransferEvent::Filled(IoPoll::Ready(n))),
        n > 0,
    ensures
        ({
            let (m2, a) = transition(m, TransferEvent::Filled(IoPoll::Ready(n)));
            &&& m2.written == m.written
            &&& m2.finalize_reason == m.finalize_reason
            &&& m.phase == Phase::DecoderFillingInput ==> a == TransferAction::WriteInputToDecoder
            &&& m.phase == Phase::PassFillingInput ==> a == TransferAction::WriteInputToOutput
            &&& m.phase == Phase::Draining ==> a == TransferAction::WriteDecoderToOutput
            &&& accepts(m2, TransferEvent::Written(IoPoll::Pending))
        }),
{
}

/// An empty fill means the end of the data: the end of the input while descrambling records
/// `InputEof` and flushes the descrambler; the end of the input in pass-through, or of the
/// descrambled data while draining, flushes the output.
pub proof fn lemma_empty_fill_flushes(m: TransferModel)
    requires
        model_wf(m),
        accepts(m, TransferEvent::Filled(IoPoll::Ready(0))),
    ensures
        ({
            let (m2, a) = transition(m, TransferEvent::Filled(IoPoll::Ready(0)));
            &&& m2.written == m.written
            &&& m.phase == Phase::DecoderFillingInput ==> (a == TransferAction::FlushDecoder
                && m2.finalize_reason == Some(TransferStopReason::InputEof))
            &&& m.phase != Phase::DecoderFillingInput ==> (a == TransferAction::FlushOutput
                && m2.finalize_reason == m.finalize_reason)
        }),
{
}

/// A failed operation ends the transfer with its error, and the poll with it; the one
/// exception is a failed write to the descrambler when falling back is allowed.
pub proof fn lemma_failure_ends_transfer(m: TransferModel, ev: TransferEvent)
    requires
        model_wf(m),
        accepts(m, ev),
        !(m.phase == Phase::DecoderWriting && m.decoder_fallback),
    ensures
        ev matches TransferEvent::Filled(IoPoll::Failed(e)) ==> transition(m, ev) == (
            TransferModel { phase: Phase::Idle, ..m },
            TransferAction::Finish(TransferOutcome::Failed(e)),
        ),
        ev matches TransferEvent::Written(IoPoll::Failed(e)) ==> transition(m, ev) == (
            TransferModel { phase: Phase::Idle, ..m },
            TransferAction::Finish(TransferOutcome::Failed(e)),
        ),
        ev matches TransferEvent::Flushed(IoPoll::Failed(e)) ==> transition(m, ev) == (
            TransferModel { phase: Phase::Idle, ..m },
            TransferAction::Finish(TransferOutcome::Failed(e)),
        ),
{
}

/// A pending operation ends the poll to wait for its wake-up, changing nothing else; only a
/// pending read of the descrambler while draining is tried again at once.
pub proof fn lemma_pending_waits(m: TransferModel, ev: TransferEvent)
    requires
        model_wf(m),
        accepts(m, ev),
        ev is Filled || ev is Written || ev is Flushed,
        ev matches TransferEvent::Filled(p) ==> p is Pending,
        ev matches TransferEvent::Written(p) ==> p is Pending,
        ev matches TransferEvent::Flushed(p) ==> p is Pending,
    ensures
        m.phase == Phase::Draining ==> transition(m, ev) == (m, TransferAction::FillDecoder),
        m.phase != Phase::Draining ==> transition(m, ev) == (
            TransferModel { phase: Phase::Idle, ..m },
            TransferAction::Wait,
        ),
{
}

/// A completed flush of the descrambler starts draining it; a completed flush of the output
/// finishes the transfer with the count of written bytes, reporting `Stopped` if a stop was
/// recorded and `InputEof` otherwise.
pub proof fn lemma_flush_completes(m: TransferModel)
    requires
        model_wf(m),
        accepts(m, TransferEvent::Flushed(IoPoll::Ready(()))),
    ensures
        ({
            let (m2, a) = transition(m, TransferEvent::Flushed(IoPoll::Ready(())));
            &&& m.phase == Phase::DecoderFlushing ==> (a == TransferAction::FillDecoder
                && m2.phase == Phase::Draining && m2.written == m.written)
            &&& m.phase != Phase::DecoderFlushing ==> a == TransferAction::Finish(
                TransferOutcome::Done(
                    TransferReport {
                        written_bytes: m.written,
                        stop_reason: if m.finalize_reason == Some(TransferStopReason::Stopped) {
                            TransferStopReason::Stopped
                        } else {
                            TransferStopReason::InputEof
                        },
                    },
                ),
            )
        }),
{
}

/// How a poll starts, whatever was written before: a stop read from the flag is recorded as
/// `Stopped`; a descrambling transfer with a recorded stop reason flushes the descrambler and
/// otherwise reads input; a transfer that does not descramble reads input. Nothing is counted.
pub proof fn lemma_start_poll_cases(m: TransferModel, stop_requested: bool)
    requires
        model_wf(m),
        m.phase == Phase::Idle,
    ensures
        ({
            let (m2, a) = transition(m, TransferEvent::PollStarted { stop_requested });
            &&& m2.written == m.written
            &&& stop_requested ==> m2.finalize_reason == Some(TransferStopReason::Stopped)
            &&& !stop_requested ==> m2.finalize_reason == m.finalize_reason
            &&& (decoding(m) && (stop_requested || m.finalize_reason is Some)) ==> a
                == TransferAction::FlushDecoder
            &&& (decoding(m) && !stop_requested && m.finalize_reason is None) ==> a
                == TransferAction::FillInput
            &&& !decoding(m) ==> a == TransferAction::FillInput
        }),
{
}

/// Once the consumed bytes are reported, or need no report, a drain reads the descrambler
/// again and any other poll ends asking to be polled again.
pub proof fn lemma_after_consuming(m: TransferModel, ev: TransferEvent)
    requires
        model_wf(m),
        accepts(m, ev),
        ev is Reported || (ev is Consumed && !notifies(m)),
    ensures
        (m.phase == Phase::DrainConsuming || m.phase == Phase::DrainReporting) ==> transition(
            m,
            ev,
        ).1 == TransferAction::FillDecoder,
        !(m.phase == Phase::DrainConsuming || m.phase == Phase::DrainReporting) ==> transition(
            m,
            ev,
        ).1 == TransferAction::WakeAndWait,
        transition(m, ev).0.written == m.written,
{
}

} // verus!
