use vstd::prelude::*;

verus! {

/// The transport-level failure carried by an I/O-kind error: a timeout, a
/// connection closed by the peer, or an operating-system error identified by
/// its errno value.
#[derive(Clone, Copy, Debug, PartialEq, Eq, Structural)]
pub enum IoError {
    TimedOut,
    ConnectionAborted,
    Os(i32),
}

/// The closed set of protocol-level error codes with which the daemon rejects
/// a command. `Unknown` stands for any numeric sub-code outside the listed
/// set.
#[derive(Clone, Copy, Debug, PartialEq, Eq, Structural)]
pub enum ServerError {
    Unknown,
    NotListed,
    Arguments,
    Password,
    Permissions,
    UnknownCmd,
    NoExist,
    PlaylistMax,
    System,
    PlaylistLoad,
    UpdateAlready,
    PlayerSync,
    Exists,
}

/// The closed taxonomy of recoverable errors this library reports: an I/O
/// failure, invalid arguments, a resolver failure, a malformed response, or a
/// protocol-level rejection by the daemon.
#[derive(Clone, Copy, Debug, PartialEq, Eq, Structural)]
pub enum MpdErrorKind {
    Io(IoError),
    Arguments,
    UnknownHost,
    Malformed,
    Server(ServerError),
}

/// An error kind paired with the human-readable message that the native
/// library reported at the moment of failure.
#[derive(Debug)]
pub struct MpdError {
    pub kind: MpdErrorKind,
    pub errmsg: String,
}

impl MpdError {
    pub fn new(kind: MpdErrorKind, errmsg: String) -> (r: MpdError)
        ensures
            r.kind == kind,
            r.errmsg@ == errmsg@,
    {
        MpdError { kind, errmsg }
    }

    pub fn kind(&self) -> (r: &MpdErrorKind)
        ensures
            *r == self.kind,
    {
        &self.kind
    }

    pub fn errormsg(&self) -> (r: &str)
        ensures
            r@ == self.errmsg@,
    {
        self.errmsg.as_str()
    }
}

/// The protocol number of each daemon error code, as the wire protocol
/// defines them.
pub open spec fn spec_server_code(e: ServerError) -> i32 {
    match e {
        ServerError::Unknown => -1i32,
        ServerError::NotListed => 1,
        ServerError::Arguments => 2,
        ServerError::Password => 3,
        ServerError::Permissions => 4,
        ServerError::UnknownCmd => 5,
        ServerError::NoExist => 50,
        ServerError::PlaylistMax => 51,
        ServerError::System => 52,
        ServerError::PlaylistLoad => 53,
        ServerError::UpdateAlready => 54,
        ServerError::PlayerSync => 55,
        ServerError::Exists => 56,
    }
}

/// Classification of a numeric daemon sub-code: the lookup table from the
/// number the native library reports to the enumerated code, defaulting to
/// `Unknown` for any number outside the listed set.
pub open spec fn spec_server_error(code: i32) -> ServerError {
    if code == 1 {
        ServerError::NotListed
    } else if code == 2 {
        ServerError::Arguments
    } else if code == 3 {
        ServerError::Password
    } else if code == 4 {
        ServerError::Permissions
    } else if code == 5 {
        ServerError::UnknownCmd
    } else if code == 50 {
        ServerError::NoExist
    } else if code == 51 {
        ServerError::PlaylistMax
    } else if code == 52 {
        ServerError::System
    } else if code == 53 {
        ServerError::PlaylistLoad
    } else if code == 54 {
        ServerError::UpdateAlready
    } else if code == 55 {
        ServerError::PlayerSync
    } else if code == 56 {
        ServerError::Exists
    } else {
        ServerError::Unknown
    }
}

impl ServerError {
    /// The protocol number of this error code.
    pub fn code(&self) -> (r: i32)
        ensures
            r == spec_server_code(*self),
    {
        match self {
            ServerError::Unknown => -1,
            ServerError::NotListed => 1,
            ServerError::Arguments => 2,
            ServerError::Password => 3,
            ServerError::Permissions => 4,
            ServerError::UnknownCmd => 5,
            ServerError::NoExist => 50,
            ServerError::PlaylistMax => 51,
            ServerError::System => 52,
            ServerError::PlaylistLoad => 53,
            ServerError::UpdateAlready => 54,
            ServerError::PlayerSync => 55,
            ServerError::Exists => 56,
        }
    }
}

/// Maps the numeric sub-code of a daemon rejection to its enumerated error
/// code; numbers outside the listed set classify as `Unknown`.
pub fn server_error_from_code(code: i32) -> (r: ServerError)
    ensures
        r == spec_server_error(code),
{
    if code == 1 {
        ServerError::NotListed
    } else if code == 2 {
        ServerError::Arguments
    } else if code == 3 {
        ServerError::Password
    } else if code == 4 {
        ServerError::Permissions
    } else if code == 5 {
        ServerError::UnknownCmd
    } else if code == 50 {
        ServerError::NoExist
    } else if code == 51 {
        ServerError::PlaylistMax
    } else if code == 52 {
        ServerError::System
    } else if code == 53 {
        ServerError::PlaylistLoad
    } else if code == 54 {
        ServerError::UpdateAlready
    } else if code == 55 {
        ServerError::PlayerSync
    } else if code == 56 {
        ServerError::Exists
    } else {
        ServerError::Unknown
    }
}

/// Every enumerated daemon error code classifies back to itself from its own
/// protocol number: the lookup table and the numbering agree.
pub proof fn lemma_server_code_round_trip(e: ServerError)
    ensures
        spec_server_error(spec_server_code(e)) == e,
{
}

} // verus!
