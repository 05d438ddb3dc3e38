//! Client-side core for the wire protocol of a portable radar and camera
//! golf launch monitor: field codecs, framing, typed messages and the
//! decisions of the bring-up and post-shot sequences.

pub mod addr;
pub mod bytes;
pub mod codec;
pub mod conn;
pub mod error;
pub mod frame;
pub mod protocol;
pub mod seq;
pub mod text;

pub use addr::BusAddr;
pub use conn::{ConnError, Envelope};
pub use error::WireError;
pub use frame::{FrameSplitter, RawFrame};
pub use protocol::{Command, Message};
