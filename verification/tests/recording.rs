use std::sync::{Arc, Mutex};
use recisdb::io::{DecoderSetup, IoPoll, TransferAction, TransferEvent, TransferOutcome, TransferReport, TransferStopReason};
use recisdb::recording::{check_channel, recording_outcome};
use recisdb::{Error, Recording, RecordingOptions, RecordingReport, RecordingStopReason};

type Callback = Box<dyn Fn(u64)>;

#[test]
fn stopping_through_the_handle_stops_the_recording() {
    let (handle, mut rec, ()) = match Recording::<Callback>::start(false, "T27", false, || Ok(((), DecoderSetup::Ready))) {
        Ok(started) => started,
        Err(_) => panic!("the recording should start"),
    };
    let other = handle.clone();
    other.stop();
    assert!(matches!(rec.begin_poll(), TransferAction::FlushDecoder));
    rec.step(TransferEvent::Flushed(IoPoll::Ready(())));
    rec.step(TransferEvent::Filled(IoPoll::Ready(0)));
    match rec.step(TransferEvent::Flushed(IoPoll::Ready(()))) {
        TransferAction::Finish(outcome) => {
            let report = recording_outcome(outcome);
            assert!(matches!(report, Ok(RecordingReport { written_bytes: 0, stop_reason: RecordingStopReason::Stopped })));
        }
        _ => panic!("expected the end of the recording"),
    }
}

#[test]
fn recording_reports_in_its_own_terms() {
    let r = recording_outcome(TransferOutcome::Done(TransferReport {
        written_bytes: 42,
        stop_reason: TransferStopReason::InputEof,
    }));
    assert!(matches!(r, Ok(RecordingReport { written_bytes: 42, stop_reason: RecordingStopReason::InputEof })));
    let r = recording_outcome(TransferOutcome::WriteZero);
    match r {
        Err(Error::Io(e)) => assert_eq!(e.kind(), std::io::ErrorKind::WriteZero),
        _ => panic!("expected an I/O error"),
    }
    assert_eq!(RecordingStopReason::from_transfer(TransferStopReason::Completed), RecordingStopReason::Completed);
    assert_eq!(RecordingStopReason::from_transfer(TransferStopReason::Stopped), RecordingStopReason::Stopped);
}

#[test]
fn invalid_channel_is_refused_by_name() {
    match check_channel(true, "T99") {
        Err(e) => assert_eq!(e.message(), "Invalid channel: T99"),
        Ok(()) => panic!("expected the channel to be refused"),
    }
    assert!(check_channel(false, "T27").is_ok());
}

#[test]
fn failing_descrambler_setup_fails_the_recording() {
    let e = std::io::Error::new(std::io::ErrorKind::Other, "no reader");
    match Recording::<Callback>::start(false, "T27", false, move || Ok(((), DecoderSetup::Failed(e)))) {
        Err(Error::Io(e)) => assert_eq!(e.to_string(), "no reader"),
        _ => panic!("expected the setup error"),
    }
    let e = std::io::Error::new(std::io::ErrorKind::Other, "no reader");
    assert!(Recording::<Callback>::start(false, "T27", true, move || Ok(((), DecoderSetup::Failed(e)))).is_ok());
}

#[test]
fn options_have_their_defaults() {
    let o: RecordingOptions<&str, ()> = RecordingOptions::new("/dev/px4video0".to_string(), "T27");
    assert_eq!(o.device, "/dev/px4video0");
    assert_eq!(o.channel, "T27");
    assert!(o.lnb.is_none() && o.tsid.is_none() && o.decoder.is_none());
    assert!(!o.continue_on_decoder_error);
    assert_eq!(o.input_buffer_size, 200_000);
}

#[test]
fn io_errors_convert() {
    let e: Error = std::io::Error::new(std::io::ErrorKind::Other, "x").into();
    assert!(matches!(e, Error::Io(_)));
    assert_eq!(e.message(), "x");
}

#[test]
fn recording_tells_its_callback_the_written_count() {
    let seen = Arc::new(Mutex::new(Vec::new()));
    let sink = Arc::clone(&seen);
    let (_handle, rec, ()) = match Recording::<Callback>::start(false, "T27", false, || Ok(((), DecoderSetup::Disabled))) {
        Ok(started) => started,
        Err(_) => panic!("the recording should start"),
    };
    let mut rec = rec.with_progress_callback(Box::new(move |n| sink.lock().unwrap().push(n)));
    rec.begin_poll();
    rec.step(TransferEvent::Filled(IoPoll::Ready(4)));
    rec.step(TransferEvent::Written(IoPoll::Ready(4)));
    assert!(matches!(rec.step(TransferEvent::Consumed), TransferAction::ReportProgress(4)));
    assert!(seen.lock().unwrap().is_empty());
    rec.report_progress();
    assert!(matches!(rec.step(TransferEvent::Reported), TransferAction::WakeAndWait));
    assert_eq!(*seen.lock().unwrap(), vec![4]);
}

#[test]
fn io_error_text_is_its_display() {
    let e = Error::Io(std::io::Error::new(std::io::ErrorKind::NotFound, "no such tuner"));
    assert_eq!(e.message(), "no such tuner");
}

#[test]
fn undefined_channel_is_refused_before_the_device_is_opened() {
    let opened = std::cell::Cell::new(false);
    let r = Recording::<Callback>::start(true, "T99", false, || {
        opened.set(true);
        Ok(((), DecoderSetup::Disabled))
    });
    match r {
        Err(Error::InvalidChannel(name)) => assert_eq!(name, "T99"),
        _ => panic!("expected the channel to be refused"),
    }
    assert!(!opened.get());
}

#[test]
fn failing_to_open_the_device_fails_the_recording() {
    let r = Recording::<Callback>::start(false, "T27", true, || -> std::io::Result<((), DecoderSetup)> {
        Err(std::io::Error::new(std::io::ErrorKind::NotFound, "no device"))
    });
    match r {
        Err(Error::Io(e)) => assert_eq!(e.kind(), std::io::ErrorKind::NotFound),
        _ => panic!("expected the I/O error"),
    }
}

#[test]
fn opened_device_is_handed_back() {
    match Recording::<Callback>::start(false, "T27", false, || Ok((42u32, DecoderSetup::Disabled))) {
        Ok((_, _, device)) => assert_eq!(device, 42),
        Err(_) => panic!("the recording should start"),
    }
}
