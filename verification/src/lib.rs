//! Raw MIDI devices of ALSA: the decisions that the rawmidi layer takes around
//! each call into `libasound`, written as verified Rust.
//!
//! Every call into the C library is made by the caller, through a closure that
//! each method receives; the methods here decide what is handed to that call
//! and what becomes of what it returns.

pub mod error;
pub mod enums;
pub mod iter;
pub mod params;
pub mod info;
pub mod device;
pub mod object;

pub use error::{Error, from_code, from_size, check_unit, unsupported, invalid_str, from_const, INVALID_STRING};
pub use enums::{Direction, ReadMode, Clock, stream_of, direction_of, STREAM_INPUT, STREAM_OUTPUT, NONBLOCK};
pub use iter::{Iter, IterView, Step, Found};
pub use params::{Params, Status};
pub use info::Info;
pub use device::{Rawmidi, IO, Timestamp, PollFlags};
