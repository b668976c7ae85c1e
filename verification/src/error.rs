//! The ways in which a protocol ends without success.

use vstd::prelude::*;

verus! {

/// The category under which a failure is reported.
#[derive(Clone, Copy, Debug, PartialEq, Eq, Structural)]
pub enum ErrorKind {
    InvalidInput,
    PermissionDenied,
    Other,
}

/// Why a protocol stopped.
#[derive(Clone, Copy, Debug, PartialEq, Eq, Structural)]
pub enum Error {
    /// A system call failed and left this error code behind.
    Os { code: i32 },
    /// The directory of the listener is not owned by the effective user, is no
    /// directory, or is writable by group or other.
    ParentNotSecure,
    /// The listener's own entry has the wrong owner, type or mode.
    EntryNotVerified,
    /// The path of the named pipe has a NUL in it.
    PipePathContainsNul,
    /// The server of the named pipe does not run as LocalSystem.
    NotLocalSystem,
}

impl Error {
    /// The category of a failure decided here, `None` for one that the system
    /// reported: its category is a matter of the code.
    pub open spec fn spec_kind(self) -> Option<ErrorKind> {
        match self {
            Error::Os { .. } => None,
            Error::PipePathContainsNul => Some(ErrorKind::InvalidInput),
            Error::ParentNotSecure | Error::EntryNotVerified | Error::NotLocalSystem => Some(
                ErrorKind::PermissionDenied,
            ),
        }
    }

    /// The text that goes with a failure decided here.
    pub open spec fn spec_message(self) -> Option<Seq<char>> {
        match self {
            Error::Os { .. } => None,
            Error::ParentNotSecure => Some(
                "listener parent must be owned by the effective user and not writable by group or other"@,
            ),
            Error::EntryNotVerified => Some("listener entry owner, type, or mode verification failed"@),
            Error::PipePathContainsNul => Some("named-pipe path contains NUL"@),
            Error::NotLocalSystem => Some("Windows named-pipe server is not LocalSystem"@),
        }
    }

    pub fn kind(&self) -> (kind: Option<ErrorKind>)
        ensures
            kind == self.spec_kind(),
    {
        match self {
            Error::Os { .. } => None,
            Error::PipePathContainsNul => Some(ErrorKind::InvalidInput),
            Error::ParentNotSecure => Some(ErrorKind::PermissionDenied),
            Error::EntryNotVerified => Some(ErrorKind::PermissionDenied),
            Error::NotLocalSystem => Some(ErrorKind::PermissionDenied),
        }
    }

    pub fn message(&self) -> (message: Option<&'static str>)
        ensures
            message is Some <==> self.spec_message() is Some,
            message is Some ==> message->0@ == self.spec_message()->0,
    {
        match self {
            Error::Os { .. } => None,
            Error::ParentNotSecure => Some(
                "listener parent must be owned by the effective user and not writable by group or other",
            ),
            Error::EntryNotVerified => Some("listener entry owner, type, or mode verification failed"),
            Error::PipePathContainsNul => Some("named-pipe path contains NUL"),
            Error::NotLocalSystem => Some("Windows named-pipe server is not LocalSystem"),
        }
    }
}

/// Every failure that is decided here is told with its own category and its own text; one
/// that the system reported is told by its code alone, whatever the code is.
pub proof fn law_errors_are_told(code: i32)
    ensures
        (Error::Os { code }).spec_kind() is None,
        (Error::Os { code }).spec_message() is None,
        Error::ParentNotSecure.spec_kind() == Some(ErrorKind::PermissionDenied),
        Error::EntryNotVerified.spec_kind() == Some(ErrorKind::PermissionDenied),
        Error::NotLocalSystem.spec_kind() == Some(ErrorKind::PermissionDenied),
        Error::PipePathContainsNul.spec_kind() == Some(ErrorKind::InvalidInput),
        Error::ParentNotSecure.spec_message()
            == Some(
            "listener parent must be owned by the effective user and not writable by group or other"@,
        ),
        Error::EntryNotVerified.spec_message() == Some(
            "listener entry owner, type, or mode verification failed"@,
        ),
        Error::NotLocalSystem.spec_message() == Some(
            "Windows named-pipe server is not LocalSystem"@,
        ),
        Error::PipePathContainsNul.spec_message() == Some("named-pipe path contains NUL"@),
{
}

} // verus!
