//! Speech-to-text capture pipeline: a sample buffer shared with an audio
//! callback, the session state machine that sequences capture, conversion,
//! recognition and the typing indicator, the transcript policy, and the OSC
//! notifications sent to a remote chat box.
pub mod buffer;
pub mod config;
pub mod device;
pub mod error;
pub mod format;
pub mod notify;
pub mod session;
pub mod transcript;

pub use buffer::SampleBuffer;
pub use config::STTConfig;
pub use device::get_default_recording_device;
pub use error::SttError;
pub use format::{AudioFormat, SampleRepr};
pub use notify::{Notification, OscArg};
pub use session::{Action, Event, Phase, Session};
pub use transcript::{Transcript, WhisperProcessor};
