//! The error taxonomy: protocol violations, missing credentials, and errors
//! that the device itself reports.

use vstd::prelude::*;

use crate::text::same_text;

verus! {

/// Ways in which a peer can break the protocol.
#[derive(Clone, Copy, Debug, PartialEq, Eq, Structural)]
pub enum ProtocolError {
    /// The greeting is too short or carries an unknown authentication flag:
    /// the peer is not a PJLink device.
    MalformedGreeting,
    /// The class token of a framed reply is not in the class table.
    UnknownClass,
    /// The reply belongs to another class than the command that was sent.
    UnexpectedClass,
    /// A value lies outside the encoding of its class.
    InvalidValue,
}

/// What the device means by an error code.
#[derive(Clone, Copy, Debug, PartialEq, Eq, Structural)]
pub enum DeviceError {
    /// `ERR1`: the device does not know the command.
    UndefinedCommand,
    /// `ERR2`: the parameter is out of range.
    InvalidParameter,
    /// `ERR3`: the command cannot be served right now.
    TemporarilyUnavailable,
    /// `ERR4`: the projector or display has failed.
    DeviceFailure,
    /// `ERRA`: the password was refused.
    AuthorizationError,
    /// Any other code.
    Unrecognized,
}

/// Why an operation did not yield a value.
#[derive(Debug, PartialEq, Eq)]
pub enum PjlinkError {
    /// The peer did not follow the protocol.
    Protocol(ProtocolError),
    /// The device asks for authentication and no password is configured.
    Auth,
    /// The device answered with an error code; `code` is that code as received.
    Device { kind: DeviceError, code: String },
}

/// Mathematical model of a [`PjlinkError`].
pub enum PjlinkErrorView {
    Protocol(ProtocolError),
    Auth,
    Device { kind: DeviceError, code: Seq<char> },
}

impl View for PjlinkError {
    type V = PjlinkErrorView;

    open spec fn view(&self) -> PjlinkErrorView {
        match self {
            PjlinkError::Protocol(e) => PjlinkErrorView::Protocol(*e),
            PjlinkError::Auth => PjlinkErrorView::Auth,
            PjlinkError::Device { kind, code } => PjlinkErrorView::Device {
                kind: *kind,
                code: code@,
            },
        }
    }
}

/// Model of a fallible result: the view of the value, or the view of the error.
pub open spec fn outcome<T: View>(r: Result<T, PjlinkError>) -> Result<T::V, PjlinkErrorView> {
    match r {
        Ok(value) => Ok(value@),
        Err(e) => Err(e@),
    }
}

/// The protocol error `kind`, as a model value.
pub open spec fn protocol_error(kind: ProtocolError) -> PjlinkErrorView {
    PjlinkErrorView::Protocol(kind)
}

/// The classification table of device error codes.
pub open spec fn spec_pjlink_error(code: Seq<char>) -> DeviceError {
    if code == "ERR1"@ {
        DeviceError::UndefinedCommand
    } else if code == "ERR2"@ {
        DeviceError::InvalidParameter
    } else if code == "ERR3"@ {
        DeviceError::TemporarilyUnavailable
    } else if code == "ERR4"@ {
        DeviceError::DeviceFailure
    } else if code == "ERRA"@ {
        DeviceError::AuthorizationError
    } else {
        DeviceError::Unrecognized
    }
}

/// Classifies a device error code. The five codes of the protocol map to
/// their kinds; every other text is an unrecognized code.
pub fn pjlink_error(code: &str) -> (kind: DeviceError)
    ensures
        kind == spec_pjlink_error(code@),
{
    if same_text(code, "ERR1") {
        DeviceError::UndefinedCommand
    } else if same_text(code, "ERR2") {
        DeviceError::InvalidParameter
    } else if same_text(code, "ERR3") {
        DeviceError::TemporarilyUnavailable
    } else if same_text(code, "ERR4") {
        DeviceError::DeviceFailure
    } else if same_text(code, "ERRA") {
        DeviceError::AuthorizationError
    } else {
        DeviceError::Unrecognized
    }
}

/// Each of the five codes of the protocol has a kind of its own, and no other
/// text shares a kind with one of them.
pub proof fn lemma_error_kinds_distinct(code: Seq<char>, other: Seq<char>)
    requires
        spec_pjlink_error(code) == spec_pjlink_error(other),
        spec_pjlink_error(code) != DeviceError::Unrecognized,
    ensures
        code == other,
{
    reveal_strlit("ERR1");
    reveal_strlit("ERR2");
    reveal_strlit("ERR3");
    reveal_strlit("ERR4");
    reveal_strlit("ERRA");
}

/// The five codes of the protocol and their kinds.
pub proof fn lemma_error_table()
    ensures
        spec_pjlink_error("ERR1"@) == DeviceError::UndefinedCommand,
        spec_pjlink_error("ERR2"@) == DeviceError::InvalidParameter,
        spec_pjlink_error("ERR3"@) == DeviceError::TemporarilyUnavailable,
        spec_pjlink_error("ERR4"@) == DeviceError::DeviceFailure,
        spec_pjlink_error("ERRA"@) == DeviceError::AuthorizationError,
{
    reveal_strlit("ERR1");
    reveal_strlit("ERR2");
    reveal_strlit("ERR3");
    reveal_strlit("ERR4");
    reveal_strlit("ERRA");
    assert("ERR1"@[3] == '1');
    assert("ERR2"@[3] == '2');
    assert("ERR3"@[3] == '3');
    assert("ERR4"@[3] == '4');
    assert("ERRA"@[3] == 'A');
}

} // verus!
