pub mod event;
pub mod sink;
pub mod writer;

pub use event::{ExposureEvent, EXPOSURE_SCHEMA_VERSION};
pub use sink::{EventSink, NoopEventSink};
pub use writer::{after_receive, next_writer_action, ReceiveResult, WriterAction, WriterConfig, WriterStep};
