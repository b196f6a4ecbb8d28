//! Bring-up and storage-session logic for writing one file to an SD card.
//!
//! The hardware work (clock tree, SPI bus, block device, FAT volume) is done
//! by the firmware around this library; the library decides what happens next.
pub mod board;
mod claim;
mod session;
mod timestamp;
pub mod trace;

pub use claim::{lemma_second_take_fails, take_outcome, PeripheralSlot};
pub use timestamp::{TimeSink, Timestamp};
pub use session::{
    failure_text, file_name, lemma_failure_texts_distinct, payload, Command, Event, Fault, Op,
    OpenMode, Report, Session, Step, PAYLOAD_LEN, VOLUME_INDEX,
};
