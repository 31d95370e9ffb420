//! A sans-I/O engine for the PJLink projector control protocol.
//!
//! The crate holds everything about the protocol that can be computed from
//! plain values: the authentication handshake, command framing, response
//! parsing, the mapping between wire values and typed device state, and the
//! error taxonomy. Opening sockets and moving bytes is left to the caller.
//!
//! An operation of [`PjlinkDevice`] is a function from the replies received
//! so far to a [`Step`]: either a command to exchange over a fresh
//! connection, or the result. For each exchange the caller connects to
//! [`PjlinkDevice::address`], reads the greeting, writes the line that
//! [`PjlinkDevice::send_command`] frames, reads the reply and turns it into
//! text with [`response_text`].
//!
//! Every function is specified over a mathematical model of its arguments
//! and verified against that specification. Two contracts are trusted
//! instead: that of the call into the `md5` crate, in [`auth`], and that of
//! the lossy UTF-8 decoding of the standard library, in [`response`].

pub mod auth;
pub mod command;
pub mod device;
pub mod error;
pub mod response;
pub mod status;
pub mod text;

pub use auth::{command_line, digest, negotiate, parse_greeting, to_hex, Greeting};
pub use command::{encode_command, CommandType};
pub use device::{PjlinkDevice, Step};
pub use error::{pjlink_error, DeviceError, PjlinkError, ProtocolError};
pub use response::{encode_reply, parse_response, response_text, PjlinkResponse};
pub use status::{AvMute, ErrorStatus, ErrorType, InputType, Lamp, PowerStatus};
