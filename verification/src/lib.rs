//! Configuration protocol for a DeathAdder 2013 gaming mouse.
//!
//! The library owns the protocol logic: the fixed 91-byte command buffer
//! layout, the opcode tables that translate settings (resolution, polling
//! frequency, LED state) into command tuples, the bounded-retry discipline
//! that tolerates the device's unreliable acknowledgement, and the small
//! matching rules used when selecting the device and reading arguments.
//! The surrounding application performs the actual HID ioctl exchanges and
//! device enumeration and feeds their outcomes back into the library.

pub mod command;
pub mod driver;
pub mod settings;
pub mod words;

pub use command::Command;
pub use settings::Freq;
pub use settings::Led;
