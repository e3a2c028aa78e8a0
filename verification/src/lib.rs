//! Decisions and encodings of an XY vector-drawing signal generator: the shape
//! catalogue, the `key = value` settings format, the packing of two 12-bit DAC
//! codes into one transfer word, the trigger-timer divider, and the
//! button/heartbeat control step, and the retry, size and fallback decisions of
//! reading the settings file from the SD card.

pub mod text;
pub mod shapes;
pub mod settings;
pub mod waveform;
pub mod timing;
pub mod control;
pub mod sdread;
