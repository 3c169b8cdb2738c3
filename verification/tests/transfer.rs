use recisdb::io::{
    DecoderSetup, IoPoll, StreamTransfer, TransferAction, TransferEvent, TransferOutcome,
    TransferReport, TransferStopReason,
};
use std::cell::RefCell;
use std::rc::Rc;
use std::sync::atomic::{AtomicBool, Ordering};
use std::sync::Arc;

type Callback = Box<dyn Fn(u64)>;

fn flag() -> Arc<AtomicBool> {
    Arc::new(AtomicBool::new(false))
}

fn transfer(setup: DecoderSetup, fallback: bool) -> StreamTransfer<Callback> {
    match StreamTransfer::new(setup, fallback, flag()) {
        Ok(t) => t,
        Err(_) => panic!("the transfer should start"),
    }
}

fn done(action: TransferAction) -> TransferReport {
    match action {
        TransferAction::Finish(TransferOutcome::Done(report)) => report,
        _ => panic!("expected a finished transfer"),
    }
}

#[test]
fn pass_through_copies_until_input_ends() {
    let mut t = transfer(DecoderSetup::Disabled, false);
    assert!(matches!(t.step(TransferEvent::PollStarted { stop_requested: false }), TransferAction::FillInput));
    assert!(matches!(t.step(TransferEvent::Filled(IoPoll::Ready(100))), TransferAction::WriteInputToOutput));
    assert!(matches!(t.step(TransferEvent::Written(IoPoll::Ready(60))), TransferAction::ConsumeInput(60)));
    assert!(matches!(t.step(TransferEvent::Consumed), TransferAction::WakeAndWait));
    assert!(matches!(t.begin_poll(), TransferAction::FillInput));
    assert!(matches!(t.step(TransferEvent::Filled(IoPoll::Ready(40))), TransferAction::WriteInputToOutput));
    assert!(matches!(t.step(TransferEvent::Written(IoPoll::Ready(40))), TransferAction::ConsumeInput(40)));
    assert!(matches!(t.step(TransferEvent::Consumed), TransferAction::WakeAndWait));
    assert!(matches!(t.begin_poll(), TransferAction::FillInput));
    assert!(matches!(t.step(TransferEvent::Filled(IoPoll::Ready(0))), TransferAction::FlushOutput));
    let report = done(t.step(TransferEvent::Flushed(IoPoll::Ready(()))));
    assert_eq!(report, TransferReport { written_bytes: 100, stop_reason: TransferStopReason::InputEof });
}

#[test]
fn pass_through_keeps_reading_after_stop_and_reports_stopped() {
    let mut t = transfer(DecoderSetup::Disabled, false);
    assert!(matches!(t.step(TransferEvent::PollStarted { stop_requested: true }), TransferAction::FillInput));
    assert!(matches!(t.step(TransferEvent::Filled(IoPoll::Ready(0))), TransferAction::FlushOutput));
    let report = done(t.step(TransferEvent::Flushed(IoPoll::Ready(()))));
    assert_eq!(report, TransferReport { written_bytes: 0, stop_reason: TransferStopReason::Stopped });
}

#[test]
fn pending_operations_end_the_poll() {
    let mut t = transfer(DecoderSetup::Disabled, false);
    assert!(matches!(t.begin_poll(), TransferAction::FillInput));
    assert!(matches!(t.step(TransferEvent::Filled(IoPoll::Pending)), TransferAction::Wait));
    assert!(matches!(t.begin_poll(), TransferAction::FillInput));
    assert!(matches!(t.step(TransferEvent::Filled(IoPoll::Ready(5))), TransferAction::WriteInputToOutput));
    assert!(matches!(t.step(TransferEvent::Written(IoPoll::Pending)), TransferAction::Wait));
}

#[test]
fn descrambling_counts_input_and_output_bytes() {
    let mut t = transfer(DecoderSetup::Ready, false);
    assert!(matches!(t.begin_poll(), TransferAction::FillInput));
    assert!(matches!(t.step(TransferEvent::Filled(IoPoll::Ready(188))), TransferAction::WriteInputToDecoder));
    assert!(matches!(t.step(TransferEvent::Written(IoPoll::Ready(188))), TransferAction::ConsumeInput(188)));
    assert!(matches!(t.step(TransferEvent::Consumed), TransferAction::WakeAndWait));
    assert!(matches!(t.begin_poll(), TransferAction::FillInput));
    assert!(matches!(t.step(TransferEvent::Filled(IoPoll::Ready(0))), TransferAction::FlushDecoder));
    assert!(matches!(t.step(TransferEvent::Flushed(IoPoll::Ready(()))), TransferAction::FillDecoder));
    assert!(matches!(t.step(TransferEvent::Filled(IoPoll::Pending)), TransferAction::FillDecoder));
    assert!(matches!(t.step(TransferEvent::Filled(IoPoll::Ready(188))), TransferAction::WriteDecoderToOutput));
    assert!(matches!(t.step(TransferEvent::Written(IoPoll::Ready(100))), TransferAction::ConsumeDecoder(100)));
    assert!(matches!(t.step(TransferEvent::Consumed), TransferAction::FillDecoder));
    assert!(matches!(t.step(TransferEvent::Filled(IoPoll::Ready(88))), TransferAction::WriteDecoderToOutput));
    assert!(matches!(t.step(TransferEvent::Written(IoPoll::Ready(88))), TransferAction::ConsumeDecoder(88)));
    assert!(matches!(t.step(TransferEvent::Consumed), TransferAction::FillDecoder));
    assert!(matches!(t.step(TransferEvent::Filled(IoPoll::Ready(0))), TransferAction::FlushOutput));
    let report = done(t.step(TransferEvent::Flushed(IoPoll::Ready(()))));
    assert_eq!(report, TransferReport { written_bytes: 376, stop_reason: TransferStopReason::InputEof });
}

#[test]
fn stop_request_drains_the_descrambler_without_reading_input() {
    let stop = flag();
    let mut t: StreamTransfer<Callback> = match StreamTransfer::new(DecoderSetup::Ready, false, Arc::clone(&stop)) {
        Ok(t) => t,
        Err(_) => panic!("the transfer should start"),
    };
    stop.store(true, Ordering::Relaxed);
    assert!(matches!(t.begin_poll(), TransferAction::FlushDecoder));
    assert!(matches!(t.step(TransferEvent::Flushed(IoPoll::Ready(()))), TransferAction::FillDecoder));
    assert!(matches!(t.step(TransferEvent::Filled(IoPoll::Ready(0))), TransferAction::FlushOutput));
    let report = done(t.step(TransferEvent::Flushed(IoPoll::Ready(()))));
    assert_eq!(report, TransferReport { written_bytes: 0, stop_reason: TransferStopReason::Stopped });
}

#[test]
fn descrambler_failure_falls_back_when_allowed() {
    let mut t = transfer(DecoderSetup::Ready, true);
    assert!(matches!(t.begin_poll(), TransferAction::FillInput));
    assert!(matches!(t.step(TransferEvent::Filled(IoPoll::Ready(10))), TransferAction::WriteInputToDecoder));
    let e = std::io::Error::new(std::io::ErrorKind::Other, "card");
    assert!(matches!(t.step(TransferEvent::Written(IoPoll::Failed(e))), TransferAction::WakeAndWait));
    assert!(matches!(t.begin_poll(), TransferAction::FillInput));
    assert!(matches!(t.step(TransferEvent::Filled(IoPoll::Ready(10))), TransferAction::WriteInputToOutput));
}

#[test]
fn descrambler_failure_ends_the_transfer_without_fallback() {
    let mut t = transfer(DecoderSetup::Ready, false);
    t.begin_poll();
    t.step(TransferEvent::Filled(IoPoll::Ready(10)));
    let e = std::io::Error::new(std::io::ErrorKind::Other, "card");
    match t.step(TransferEvent::Written(IoPoll::Failed(e))) {
        TransferAction::Finish(TransferOutcome::Failed(e)) => assert_eq!(e.to_string(), "card"),
        _ => panic!("expected the failure"),
    }
}

#[test]
fn zero_byte_write_is_write_zero() {
    let mut t = transfer(DecoderSetup::Disabled, false);
    t.begin_poll();
    t.step(TransferEvent::Filled(IoPoll::Ready(10)));
    let action = t.step(TransferEvent::Written(IoPoll::Ready(0)));
    assert!(matches!(action, TransferAction::Finish(TransferOutcome::WriteZero)));
    match action {
        TransferAction::Finish(outcome) => match recisdb::io::into_result(outcome) {
            Err(e) => assert_eq!(e.kind(), std::io::ErrorKind::WriteZero),
            Ok(_) => panic!("expected an error"),
        },
        _ => unreachable!(),
    }
}

#[test]
fn failed_fill_ends_the_transfer() {
    let mut t = transfer(DecoderSetup::Disabled, false);
    t.begin_poll();
    let e = std::io::Error::new(std::io::ErrorKind::BrokenPipe, "gone");
    match t.step(TransferEvent::Filled(IoPoll::Failed(e))) {
        TransferAction::Finish(TransferOutcome::Failed(e)) => assert_eq!(e.kind(), std::io::ErrorKind::BrokenPipe),
        _ => panic!("expected the failure"),
    }
}

#[test]
fn progress_is_reported_only_when_it_moves() {
    let seen: Rc<RefCell<Vec<u64>>> = Rc::new(RefCell::new(Vec::new()));
    let sink = Rc::clone(&seen);
    let callback: Callback = Box::new(move |n| sink.borrow_mut().push(n));
    let mut t = transfer(DecoderSetup::Disabled, false).with_progress_callback(callback);
    for len in [7usize, 5] {
        t.begin_poll();
        t.step(TransferEvent::Filled(IoPoll::Ready(len)));
        t.step(TransferEvent::Written(IoPoll::Ready(len)));
        match t.step(TransferEvent::Consumed) {
            TransferAction::ReportProgress(n) => {
                t.report_progress();
                assert_eq!(*seen.borrow().last().unwrap(), n);
            }
            _ => panic!("expected a progress report"),
        }
        assert!(matches!(t.step(TransferEvent::Reported), TransferAction::WakeAndWait));
    }
    assert_eq!(*seen.borrow(), vec![7, 12]);
    t.begin_poll();
    t.step(TransferEvent::Filled(IoPoll::Ready(0)));
    let report = done(t.step(TransferEvent::Flushed(IoPoll::Ready(()))));
    assert_eq!(report.written_bytes, 12);
}

#[test]
fn no_report_without_a_callback() {
    let mut t = transfer(DecoderSetup::Disabled, false);
    t.begin_poll();
    t.step(TransferEvent::Filled(IoPoll::Ready(3)));
    t.step(TransferEvent::Written(IoPoll::Ready(3)));
    assert!(matches!(t.step(TransferEvent::Consumed), TransferAction::WakeAndWait));
}

#[test]
fn draining_reports_and_reads_on() {
    let seen: Rc<RefCell<Vec<u64>>> = Rc::new(RefCell::new(Vec::new()));
    let sink = Rc::clone(&seen);
    let mut t = transfer(DecoderSetup::Ready, false)
        .with_progress_callback(Box::new(move |n| sink.borrow_mut().push(n)) as Callback);
    t.step(TransferEvent::PollStarted { stop_requested: true });
    t.step(TransferEvent::Flushed(IoPoll::Ready(())));
    t.step(TransferEvent::Filled(IoPoll::Ready(5)));
    t.step(TransferEvent::Written(IoPoll::Ready(5)));
    assert!(matches!(t.step(TransferEvent::Consumed), TransferAction::ReportProgress(5)));
    t.report_progress();
    assert!(matches!(t.step(TransferEvent::Reported), TransferAction::FillDecoder));
    assert_eq!(*seen.borrow(), vec![5]);
}

#[test]
fn accepts_only_the_expected_event() {
    let mut t = transfer(DecoderSetup::Disabled, false);
    assert!(t.accepts(&TransferEvent::PollStarted { stop_requested: false }));
    assert!(!t.accepts(&TransferEvent::Consumed));
    t.begin_poll();
    assert!(t.accepts(&TransferEvent::Filled(IoPoll::Pending)));
    assert!(!t.accepts(&TransferEvent::Written(IoPoll::Ready(1))));
}

#[test]
fn setup_failure_is_reported_without_fallback() {
    let e = std::io::Error::new(std::io::ErrorKind::Other, "no card reader");
    match StreamTransfer::<Callback>::new(DecoderSetup::Failed(e), false, flag()) {
        Err(e) => assert_eq!(e.to_string(), "no card reader"),
        Ok(_) => panic!("expected the setup error"),
    }
    let e = std::io::Error::new(std::io::ErrorKind::Other, "no card reader");
    match StreamTransfer::<Callback>::new(DecoderSetup::Failed(e), true, flag()) {
        Ok(mut t) => {
            assert!(matches!(t.begin_poll(), TransferAction::FillInput));
            assert!(matches!(t.step(TransferEvent::Filled(IoPoll::Ready(1))), TransferAction::WriteInputToOutput));
        }
        Err(_) => panic!("expected a pass-through transfer"),
    }
}

#[test]
fn a_recorded_stop_is_kept_across_polls() {
    let mut t = transfer(DecoderSetup::Disabled, false);
    assert!(matches!(t.step(TransferEvent::PollStarted { stop_requested: true }), TransferAction::FillInput));
    t.step(TransferEvent::Filled(IoPoll::Ready(3)));
    t.step(TransferEvent::Written(IoPoll::Ready(3)));
    assert!(matches!(t.step(TransferEvent::Consumed), TransferAction::WakeAndWait));
    assert!(matches!(t.step(TransferEvent::PollStarted { stop_requested: false }), TransferAction::FillInput));
    t.step(TransferEvent::Filled(IoPoll::Ready(0)));
    let report = done(t.step(TransferEvent::Flushed(IoPoll::Ready(()))));
    assert_eq!(report, TransferReport { written_bytes: 3, stop_reason: TransferStopReason::Stopped });
}

#[test]
fn end_of_input_while_descrambling_drains_before_reporting() {
    let mut t = transfer(DecoderSetup::Ready, true);
    t.begin_poll();
    assert!(matches!(t.step(TransferEvent::Filled(IoPoll::Ready(0))), TransferAction::FlushDecoder));
    assert!(matches!(t.step(TransferEvent::Flushed(IoPoll::Pending)), TransferAction::Wait));
    assert!(matches!(t.begin_poll(), TransferAction::FlushDecoder));
    assert!(matches!(t.step(TransferEvent::Flushed(IoPoll::Ready(()))), TransferAction::FillDecoder));
    assert!(matches!(t.step(TransferEvent::Filled(IoPoll::Ready(0))), TransferAction::FlushOutput));
    let report = done(t.step(TransferEvent::Flushed(IoPoll::Ready(()))));
    assert_eq!(report, TransferReport { written_bytes: 0, stop_reason: TransferStopReason::InputEof });
}

#[test]
fn a_new_progress_callback_replaces_the_old_one() {
    let first: Rc<RefCell<Vec<u64>>> = Rc::new(RefCell::new(Vec::new()));
    let second: Rc<RefCell<Vec<u64>>> = Rc::new(RefCell::new(Vec::new()));
    let (a, b) = (Rc::clone(&first), Rc::clone(&second));
    let t = transfer(DecoderSetup::Disabled, false)
        .with_progress_callback(Box::new(move |n| a.borrow_mut().push(n)) as Callback);
    let mut t = t.with_progress_callback(Box::new(move |n| b.borrow_mut().push(n)) as Callback);
    t.begin_poll();
    t.step(TransferEvent::Filled(IoPoll::Ready(9)));
    t.step(TransferEvent::Written(IoPoll::Ready(9)));
    assert!(matches!(t.step(TransferEvent::Consumed), TransferAction::ReportProgress(9)));
    t.report_progress();
    assert!(first.borrow().is_empty());
    assert_eq!(*second.borrow(), vec![9]);
}
