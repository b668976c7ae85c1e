//! The first half of the listener protocols: to open the directory of a listening
//! socket and find it secure. The calls and replies are those of both halves.

use std::path::Path;
use vstd::prelude::*;

use crate::error::Error;
use crate::host::{host_flags, HostFlags};
use crate::paths::{
    file_name_bytes, parent_bytes, split_listener_path, split_path, ListenerPath, PathError,
    PathHalves,
};
use crate::status::{secure_directory, FileStatus};
use crate::text::is_c_string;

verus! {

/// The system call that a listener run waits for, with its arguments. Paths and names
/// end in their only NUL.
#[derive(Debug)]
pub enum ListenerRequest<'a> {
    /// `open(path, flags)`.
    Open { path: &'a [u8], flags: libc::c_int },
    /// `fstat(fd)`.
    Inspect { fd: libc::c_int },
    /// `geteuid()`.
    Identify,
    /// `fchmodat(fd, name, mode, flags)`.
    ChangeMode {
        fd: libc::c_int,
        name: &'a [u8],
        mode: libc::mode_t,
        flags: libc::c_int,
    },
    /// `fstatat(fd, name, flags)`.
    InspectEntry { fd: libc::c_int, name: &'a [u8], flags: libc::c_int },
    /// `close(fd)`.
    Close { fd: libc::c_int },
}

/// What a `ListenerRequest` asks for.
pub enum ListenerCall {
    Open { path: Seq<u8>, flags: libc::c_int },
    Inspect { fd: libc::c_int },
    Identify,
    ChangeMode { fd: libc::c_int, name: Seq<u8>, mode: libc::mode_t, flags: libc::c_int },
    InspectEntry { fd: libc::c_int, name: Seq<u8>, flags: libc::c_int },
    Close { fd: libc::c_int },
}

impl ListenerCall {
    /// The path or name of the call, if it takes one, has its only NUL at its end.
    pub open spec fn takes_c_strings(self) -> bool {
        match self {
            ListenerCall::Open { path, .. } => is_c_string(path),
            ListenerCall::ChangeMode { name, .. } => is_c_string(name),
            ListenerCall::InspectEntry { name, .. } => is_c_string(name),
            _ => true,
        }
    }
}

impl<'a> View for ListenerRequest<'a> {
    type V = ListenerCall;

    open spec fn view(&self) -> ListenerCall {
        match *self {
            ListenerRequest::Open { path, flags } => ListenerCall::Open { path: path@, flags },
            ListenerRequest::Inspect { fd } => ListenerCall::Inspect { fd },
            ListenerRequest::Identify => ListenerCall::Identify,
            ListenerRequest::ChangeMode { fd, name, mode, flags } => ListenerCall::ChangeMode {
                fd,
                name: name@,
                mode,
                flags,
            },
            ListenerRequest::InspectEntry { fd, name, flags } => ListenerCall::InspectEntry {
                fd,
                name: name@,
                flags,
            },
            ListenerRequest::Close { fd } => ListenerCall::Close { fd },
        }
    }
}

/// What a system call came back with. `code` is the error code that it left behind,
/// which counts only where the call failed.
#[derive(Clone, Copy, Debug, PartialEq, Eq, Structural)]
pub enum ListenerReply {
    /// `open` returned `fd`.
    Opened { fd: libc::c_int, code: i32 },
    /// `fstat` or `fstatat` returned `result` and filled in `status`.
    Inspected { result: libc::c_int, code: i32, status: FileStatus },
    /// `geteuid` returned `user`.
    Identified { user: libc::uid_t },
    /// `fchmodat` returned `result`.
    Changed { result: libc::c_int, code: i32 },
    /// `close` returned; whatever it returned, the descriptor is gone.
    Closed,
}

/// A directory that was found secure, open as `fd`, and the NUL-terminated name of
/// the listener in it.
#[derive(Debug)]
pub struct SecureParent {
    fd: libc::c_int,
    name: Vec<u8>,
}

/// What a `SecureParent` holds.
pub struct FoundParent {
    pub fd: libc::c_int,
    pub name: Seq<u8>,
}

impl View for SecureParent {
    type V = FoundParent;

    closed spec fn view(&self) -> FoundParent {
        FoundParent { fd: self.fd, name: self.name@ }
    }
}

/// A run that opens the directory of a listener and finds it secure. A directory that it
/// refuses is closed before it ends.
#[derive(Debug)]
pub struct ParentRun {
    phase: ParentPhase,
}

#[derive(Debug)]
enum ParentPhase {
    Open { path: ListenerPath, host: HostFlags },
    Inspect { fd: libc::c_int, name: Vec<u8> },
    Identify { fd: libc::c_int, name: Vec<u8>, status: FileStatus },
    Close { fd: libc::c_int, error: Error },
}

/// Where a `ParentRun` stands.
pub enum ParentState {
    /// The directory is to be opened.
    Open { path: PathHalves, host: HostFlags },
    /// The directory is open, its status is to be read.
    Inspect { fd: libc::c_int, name: Seq<u8> },
    /// The status has been read, the effective user is to be told.
    Identify { fd: libc::c_int, name: Seq<u8>, status: FileStatus },
    /// The directory is refused with `error` and is to be closed.
    Close { fd: libc::c_int, error: Error },
}

/// How far a reply brings a `ParentRun`.
pub enum ParentProgress {
    Waiting(ParentState),
    Done(Result<FoundParent, Error>),
}

impl ParentState {
    /// The call that this state waits for.
    pub open spec fn call(self) -> ListenerCall {
        match self {
            ParentState::Open { path, host } => ListenerCall::Open {
                path: path.parent,
                flags: host.open_bits(),
            },
            ParentState::Inspect { fd, .. } => ListenerCall::Inspect { fd },
            ParentState::Identify { .. } => ListenerCall::Identify,
            ParentState::Close { fd, .. } => ListenerCall::Close { fd },
        }
    }

    /// What `reply` makes of this state. A reply to another call than the one it waits
    /// for changes nothing.
    pub open spec fn after(self, reply: ListenerReply) -> ParentProgress {
        match (self, reply) {
            (ParentState::Open { path, .. }, ListenerReply::Opened { fd, code }) => if fd < 0 {
                ParentProgress::Done(Err(Error::Os { code }))
            } else {
                ParentProgress::Waiting(ParentState::Inspect { fd, name: path.name })
            },
            (
                ParentState::Inspect { fd, name },
                ListenerReply::Inspected { result, code, status },
            ) => if result != 0 {
                ParentProgress::Waiting(ParentState::Close { fd, error: Error::Os { code } })
            } else {
                ParentProgress::Waiting(ParentState::Identify { fd, name, status })
            },
            (
                ParentState::Identify { fd, name, status },
                ListenerReply::Identified { user },
            ) => if secure_directory(status, user) {
                ParentProgress::Done(Ok(FoundParent { fd, name }))
            } else {
                ParentProgress::Waiting(ParentState::Close { fd, error: Error::ParentNotSecure })
            },
            (ParentState::Close { error, .. }, ListenerReply::Closed) => ParentProgress::Done(
                Err(error),
            ),
            _ => ParentProgress::Waiting(self),
        }
    }
}

impl View for ParentRun {
    type V = ParentState;

    closed spec fn view(&self) -> ParentState {
        match self.phase {
            ParentPhase::Open { path, host } => ParentState::Open { path: path@, host },
            ParentPhase::Inspect { fd, name } => ParentState::Inspect { fd, name: name@ },
            ParentPhase::Identify { fd, name, status } => ParentState::Identify {
                fd,
                name: name@,
                status,
            },
            ParentPhase::Close { fd, error } => ParentState::Close { fd, error },
        }
    }
}

/// A `ParentRun` after a reply.
#[derive(Debug)]
pub enum ParentStep {
    /// It waits for the next reply.
    Waiting(ParentRun),
    /// It is over.
    Done(Result<SecureParent, Error>),
}

impl View for ParentStep {
    type V = ParentProgress;

    open spec fn view(&self) -> ParentProgress {
        match *self {
            ParentStep::Waiting(run) => ParentProgress::Waiting(run@),
            ParentStep::Done(Ok(parent)) => ParentProgress::Done(Ok(parent@)),
            ParentStep::Done(Err(error)) => ParentProgress::Done(Err(error)),
        }
    }
}

impl ParentRun {
    #[verifier::type_invariant]
    spec fn terminated(self) -> bool {
        match self.phase {
            ParentPhase::Inspect { name, .. } => is_c_string(name@),
            ParentPhase::Identify { name, .. } => is_c_string(name@),
            _ => true,
        }
    }

    /// The run for the listener at `path`, on a host with the flag bits `host`.
    pub fn new(path: ListenerPath, host: HostFlags) -> (run: ParentRun)
        ensures
            run@ == (ParentState::Open { path: path@, host }),
    {
        ParentRun { phase: ParentPhase::Open { path, host } }
    }

    /// The call that the run waits for.
    pub fn request(&self) -> (request: ListenerRequest<'_>)
        ensures
            request@ == self@.call(),
            request@.takes_c_strings(),
    {
        match &self.phase {
            ParentPhase::Open { path, host } => ListenerRequest::Open {
                path: path.parent(),
                flags: host.read_only | host.directory | host.no_follow | host.close_on_exec,
            },
            ParentPhase::Inspect { fd, .. } => ListenerRequest::Inspect { fd: *fd },
            ParentPhase::Identify { .. } => ListenerRequest::Identify,
            ParentPhase::Close { fd, .. } => ListenerRequest::Close { fd: *fd },
        }
    }

    /// The run after `reply`.
    pub fn step(self, reply: ListenerReply) -> (step: ParentStep)
        ensures
            step@ == self@.after(reply),
    {
        proof {
            use_type_invariant(&self);
        }
        match (self.phase, reply) {
            (ParentPhase::Open { path, .. }, ListenerReply::Opened { fd, code }) => if fd < 0 {
                ParentStep::Done(Err(Error::Os { code }))
            } else {
                let phase = ParentPhase::Inspect { fd, name: path.into_name() };
                ParentStep::Waiting(ParentRun { phase })
            },
            (
                ParentPhase::Inspect { fd, name },
                ListenerReply::Inspected { result, code, status },
            ) => if result != 0 {
                let phase = ParentPhase::Close { fd, error: Error::Os { code } };
                ParentStep::Waiting(ParentRun { phase })
            } else {
                let phase = ParentPhase::Identify { fd, name, status };
                ParentStep::Waiting(ParentRun { phase })
            },
            (
                ParentPhase::Identify { fd, name, status },
                ListenerReply::Identified { user },
            ) => if status.is_secure_directory(user) {
                ParentStep::Done(Ok(SecureParent { fd, name }))
            } else {
                let phase = ParentPhase::Close { fd, error: Error::ParentNotSecure };
                ParentStep::Waiting(ParentRun { phase })
            },
            (ParentPhase::Close { error, .. }, ListenerReply::Closed) => ParentStep::Done(
                Err(error),
            ),
            (phase, _) => ParentStep::Waiting(ParentRun { phase }),
        }
    }
}

impl SecureParent {
    #[verifier::type_invariant]
    spec fn terminated(self) -> bool {
        is_c_string(self.name@)
    }

    /// The open directory.
    pub fn fd(&self) -> (fd: libc::c_int)
        ensures
            fd == self@.fd,
    {
        self.fd
    }

    /// The NUL-terminated name of the listener in the directory.
    pub fn name(&self) -> (name: &[u8])
        ensures
            name@ == self@.name,
            is_c_string(name@),
    {
        proof {
            use_type_invariant(self);
        }
        self.name.as_slice()
    }
}

/// The run that opens the directory of the listener at `path` and finds it secure, on
/// this host. Which bits the flags of the host are is not stated.
pub fn open_secure_parent(path: &Path) -> (r: Result<ParentRun, PathError>)
    ensures
        match split_path(parent_bytes(path), file_name_bytes(path)) {
            Ok(halves) => {
                &&& r matches Ok(run)
                &&& run@ matches ParentState::Open { path: opened, host }
                &&& opened == halves
                &&& host.are_flags()
            },
            Err(problem) => r matches Err(error) && error@ == problem,
        },
{
    match split_listener_path(path) {
        Ok(path) => Ok(ParentRun::new(path, host_flags())),
        Err(error) => Err(error),
    }
}

} // verus!
