//! Recording and stream-transfer logic for ISDB tuners.

pub mod commands;
pub mod io;
pub mod keys;
pub mod numbers;
pub mod recording;
pub mod tuner;

pub use io as stream;
pub use tuner::{Tunable, Voltage};
pub use recording::{
    Error, Recording, RecordingHandle, RecordingOptions, RecordingReport, RecordingStopReason,
};
pub use io::{StreamTransfer, TransferReport, TransferStopReason};
