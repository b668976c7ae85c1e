//! The listener protocols: to find the directory of a listening socket secure, and to
//! give the bound socket an exact mode there.

use std::path::Path;
use vstd::prelude::*;

use crate::error::Error;
use crate::host::{host_flags, HostFlags, AT_SYMLINK_NOFOLLOW_ANY};
use crate::parent::{
    FoundParent, ListenerCall, ListenerReply, ListenerRequest, ParentProgress, ParentRun,
    ParentState, ParentStep, SecureParent,
};
use crate::paths::{
    file_name_bytes, parent_bytes, split_listener_path, split_path, ListenerPath, PathError,
    PathHalves,
};
use crate::status::{verified_socket, FileStatus};

verus! {

/// A run of one of the listener protocols. The directory that it opens is closed before
/// it ends, however it ends.
#[derive(Debug)]
pub struct ListenerRun {
    phase: ListenerPhase,
}

#[derive(Debug)]
enum ListenerPhase {
    Validate { run: ParentRun },
    Secure { run: ParentRun, host: HostFlags, mode: libc::mode_t },
    ChangeMode { parent: SecureParent, host: HostFlags, mode: libc::mode_t },
    InspectEntry { parent: SecureParent, host: HostFlags, mode: libc::mode_t },
    IdentifyEntry { fd: libc::c_int, status: FileStatus, mode: libc::mode_t },
    Close { fd: libc::c_int, outcome: Result<(), Error> },
}

/// Where a `ListenerRun` stands.
pub enum ListenerState {
    /// The directory is being checked, and nothing comes after that.
    Validate { check: ParentState },
    /// The directory is being checked before the entry in it gets `mode`.
    Secure { check: ParentState, host: HostFlags, mode: libc::mode_t },
    /// The directory is secure, the entry is to get `mode`.
    ChangeMode { parent: FoundParent, host: HostFlags, mode: libc::mode_t },
    /// The mode has been changed, the status of the entry is to be read.
    InspectEntry { parent: FoundParent, host: HostFlags, mode: libc::mode_t },
    /// The status of the entry has been read, the effective user is to be told.
    IdentifyEntry { fd: libc::c_int, status: FileStatus, mode: libc::mode_t },
    /// The outcome is decided, the directory is to be closed.
    Close { fd: libc::c_int, outcome: Result<(), Error> },
}

/// How far the replies so far have brought a run.
pub enum ListenerProgress {
    Waiting(ListenerState),
    Done(Result<(), Error>),
}

impl ListenerState {
    /// The call that this state waits for.
    pub open spec fn call(self) -> ListenerCall {
        match self {
            ListenerState::Validate { check } => check.call(),
            ListenerState::Secure { check, .. } => check.call(),
            ListenerState::ChangeMode { parent, host, mode } => ListenerCall::ChangeMode {
                fd: parent.fd,
                name: parent.name,
                mode,
                flags: host.change_bits(),
            },
            ListenerState::InspectEntry { parent, host, .. } => ListenerCall::InspectEntry {
                fd: parent.fd,
                name: parent.name,
                flags: host.at_no_follow,
            },
            ListenerState::IdentifyEntry { .. } => ListenerCall::Identify,
            ListenerState::Close { fd, .. } => ListenerCall::Close { fd },
        }
    }

    /// What `reply` makes of this state. A reply to another call than the one it waits
    /// for changes nothing.
    pub open spec fn after(self, reply: ListenerReply) -> ListenerProgress {
        match self {
            ListenerState::Validate { check } => match check.after(reply) {
                ParentProgress::Waiting(check) => ListenerProgress::Waiting(
                    ListenerState::Validate { check },
                ),
                ParentProgress::Done(Ok(parent)) => ListenerProgress::Waiting(
                    ListenerState::Close { fd: parent.fd, outcome: Ok(()) },
                ),
                ParentProgress::Done(Err(error)) => ListenerProgress::Done(Err(error)),
            },
            ListenerState::Secure { check, host, mode } => match check.after(reply) {
                ParentProgress::Waiting(check) => ListenerProgress::Waiting(
                    ListenerState::Secure { check, host, mode },
                ),
                ParentProgress::Done(Ok(parent)) => ListenerProgress::Waiting(
                    ListenerState::ChangeMode { parent, host, mode },
                ),
                ParentProgress::Done(Err(error)) => ListenerProgress::Done(Err(error)),
            },
            ListenerState::ChangeMode { parent, host, mode } => match reply {
                ListenerReply::Changed { result, code } => if result != 0 {
                    let outcome = Err(Error::Os { code });
                    ListenerProgress::Waiting(ListenerState::Close { fd: parent.fd, outcome })
                } else {
                    ListenerProgress::Waiting(ListenerState::InspectEntry { parent, host, mode })
                },
                _ => ListenerProgress::Waiting(self),
            },
            ListenerState::InspectEntry { parent, mode, .. } => match reply {
                ListenerReply::Inspected { result, code, status } => if result != 0 {
                    let outcome = Err(Error::Os { code });
                    ListenerProgress::Waiting(ListenerState::Close { fd: parent.fd, outcome })
                } else {
                    ListenerProgress::Waiting(
                        ListenerState::IdentifyEntry { fd: parent.fd, status, mode },
                    )
                },
                _ => ListenerProgress::Waiting(self),
            },
            ListenerState::IdentifyEntry { fd, status, mode } => match reply {
                ListenerReply::Identified { user } => {
                    let outcome = if verified_socket(status, user, mode) {
                        Ok(())
                    } else {
                        Err(Error::EntryNotVerified)
                    };
                    ListenerProgress::Waiting(ListenerState::Close { fd, outcome })
                },
                _ => ListenerProgress::Waiting(self),
            },
            ListenerState::Close { outcome, .. } => match reply {
                ListenerReply::Closed => ListenerProgress::Done(outcome),
                _ => ListenerProgress::Waiting(self),
            },
        }
    }
}

impl View for ListenerRun {
    type V = ListenerState;

    closed spec fn view(&self) -> ListenerState {
        match self.phase {
            ListenerPhase::Validate { run } => ListenerState::Validate { check: run@ },
            ListenerPhase::Secure { run, host, mode } => ListenerState::Secure {
                check: run@,
                host,
                mode,
            },
            ListenerPhase::ChangeMode { parent, host, mode } => ListenerState::ChangeMode {
                parent: parent@,
                host,
                mode,
            },
            ListenerPhase::InspectEntry { parent, host, mode } => ListenerState::InspectEntry {
                parent: parent@,
                host,
                mode,
            },
            ListenerPhase::IdentifyEntry { fd, status, mode } => ListenerState::IdentifyEntry {
                fd,
                status,
                mode,
            },
            ListenerPhase::Close { fd, outcome } => ListenerState::Close { fd, outcome },
        }
    }
}

/// A `ListenerRun` after a reply.
#[derive(Debug)]
pub enum ListenerStep {
    /// It waits for the next reply.
    Waiting(ListenerRun),
    /// It is over.
    Done(Result<(), Error>),
}

impl View for ListenerStep {
    type V = ListenerProgress;

    open spec fn view(&self) -> ListenerProgress {
        match *self {
            ListenerStep::Waiting(run) => ListenerProgress::Waiting(run@),
            ListenerStep::Done(outcome) => ListenerProgress::Done(outcome),
        }
    }
}

/// Where the check of a listener's directory begins.
pub open spec fn validation(path: PathHalves, host: HostFlags) -> ListenerState {
    ListenerState::Validate { check: ParentState::Open { path, host } }
}

/// Where the change of a bound socket's mode begins.
pub open spec fn mode_change(
    path: PathHalves,
    host: HostFlags,
    mode: libc::mode_t,
) -> ListenerState {
    ListenerState::Secure { check: ParentState::Open { path, host }, host, mode }
}

impl ListenerRun {
    /// The run that checks the directory of the listener at `path`, on a host with the
    /// flag bits `host`.
    pub fn validation(path: ListenerPath, host: HostFlags) -> (run: ListenerRun)
        ensures
            run@ == validation(path@, host),
    {
        ListenerRun { phase: ListenerPhase::Validate { run: ParentRun::new(path, host) } }
    }

    /// The run that gives the socket bound at `path` the permissions of `mode`, on a
    /// host with the flag bits `host`.
    pub fn mode_change(path: ListenerPath, host: HostFlags, mode: libc::mode_t) -> (run:
        ListenerRun)
        ensures
            run@ == mode_change(path@, host, mode),
    {
        let run = ParentRun::new(path, host);
        ListenerRun { phase: ListenerPhase::Secure { run, host, mode } }
    }

    /// The call that the run waits for.
    pub fn request(&self) -> (request: ListenerRequest<'_>)
        ensures
            request@ == self@.call(),
            request@.takes_c_strings(),
    {
        match &self.phase {
            ListenerPhase::Validate { run } => run.request(),
            ListenerPhase::Secure { run, .. } => run.request(),
            ListenerPhase::ChangeMode { parent, host, mode } => ListenerRequest::ChangeMode {
                fd: parent.fd(),
                name: parent.name(),
                mode: *mode,
                flags: host.at_no_follow | AT_SYMLINK_NOFOLLOW_ANY,
            },
            ListenerPhase::InspectEntry { parent, host, .. } => ListenerRequest::InspectEntry {
                fd: parent.fd(),
                name: parent.name(),
                flags: host.at_no_follow,
            },
            ListenerPhase::IdentifyEntry { .. } => ListenerRequest::Identify,
            ListenerPhase::Close { fd, .. } => ListenerRequest::Close { fd: *fd },
        }
    }

    /// The run after `reply`.
    pub fn step(self, reply: ListenerReply) -> (step: ListenerStep)
        ensures
            step@ == self@.after(reply),
    {
        match self.phase {
            ListenerPhase::Validate { run } => match run.step(reply) {
                ParentStep::Waiting(run) => ListenerStep::Waiting(
                    ListenerRun { phase: ListenerPhase::Validate { run } },
                ),
                ParentStep::Done(Ok(parent)) => {
                    let phase = ListenerPhase::Close { fd: parent.fd(), outcome: Ok(()) };
                    ListenerStep::Waiting(ListenerRun { phase })
                },
                ParentStep::Done(Err(error)) => ListenerStep::Done(Err(error)),
            },
            ListenerPhase::Secure { run, host, mode } => match run.step(reply) {
                ParentStep::Waiting(run) => ListenerStep::Waiting(
                    ListenerRun { phase: ListenerPhase::Secure { run, host, mode } },
                ),
                ParentStep::Done(Ok(parent)) => ListenerStep::Waiting(
                    ListenerRun { phase: ListenerPhase::ChangeMode { parent, host, mode } },
                ),
                ParentStep::Done(Err(error)) => ListenerStep::Done(Err(error)),
            },
            ListenerPhase::ChangeMode { parent, host, mode } => match reply {
                ListenerReply::Changed { result, code } => if result != 0 {
                    let outcome = Err(Error::Os { code });
                    let phase = ListenerPhase::Close { fd: parent.fd(), outcome };
                    ListenerStep::Waiting(ListenerRun { phase })
                } else {
                    let phase = ListenerPhase::InspectEntry { parent, host, mode };
                    ListenerStep::Waiting(ListenerRun { phase })
                },
                _ => ListenerStep::Waiting(
                    ListenerRun { phase: ListenerPhase::ChangeMode { parent, host, mode } },
                ),
            },
            ListenerPhase::InspectEntry { parent, host, mode } => match reply {
                ListenerReply::Inspected { result, code, status } => if result != 0 {
                    let outcome = Err(Error::Os { code });
                    let phase = ListenerPhase::Close { fd: parent.fd(), outcome };
                    ListenerStep::Waiting(ListenerRun { phase })
                } else {
                    let phase = ListenerPhase::IdentifyEntry { fd: parent.fd(), status, mode };
                    ListenerStep::Waiting(ListenerRun { phase })
                },
                _ => ListenerStep::Waiting(
                    ListenerRun { phase: ListenerPhase::InspectEntry { parent, host, mode } },
                ),
            },
            ListenerPhase::IdentifyEntry { fd, status, mode } => match reply {
                ListenerReply::Identified { user } => {
                    let outcome = if status.is_verified_socket(user, mode) {
                        Ok(())
                    } else {
                        Err(Error::EntryNotVerified)
                    };
                    let phase = ListenerPhase::Close { fd, outcome };
                    ListenerStep::Waiting(ListenerRun { phase })
                },
                _ => ListenerStep::Waiting(
                    ListenerRun { phase: ListenerPhase::IdentifyEntry { fd, status, mode } },
                ),
            },
            ListenerPhase::Close { fd, outcome } => match reply {
                ListenerReply::Closed => ListenerStep::Done(outcome),
                _ => ListenerStep::Waiting(
                    ListenerRun { phase: ListenerPhase::Close { fd, outcome } },
                ),
            },
        }
    }
}

/// The run that checks the directory of the listener at `path`, on this host. Which
/// bits the flags of the host are is not stated.
pub fn validate_listener_parent(path: &Path) -> (r: Result<ListenerRun, PathError>)
    ensures
        match split_path(parent_bytes(path), file_name_bytes(path)) {
            Ok(halves) => {
                &&& r matches Ok(run)
                &&& run@ matches ListenerState::Validate { check: ParentState::Open { host, .. } }
                &&& run@ == validation(halves, host)
                &&& host.are_flags()
            },
            Err(problem) => r matches Err(error) && error@ == problem,
        },
{
    match split_listener_path(path) {
        Ok(path) => Ok(ListenerRun::validation(path, host_flags())),
        Err(error) => Err(error),
    }
}

/// The run that gives the socket bound at `path` the permissions of `mode`, on this
/// host. Which bits the flags of the host are is not stated.
pub fn apply_bound_socket_mode(path: &Path, mode: libc::mode_t) -> (r: Result<
    ListenerRun,
    PathError,
>)
    ensures
        match split_path(parent_bytes(path), file_name_bytes(path)) {
            Ok(halves) => {
                &&& r matches Ok(run)
                &&& run@ matches ListenerState::Secure { host, .. }
                &&& run@ == mode_change(halves, host, mode)
                &&& host.are_flags()
            },
            Err(problem) => r matches Err(error) && error@ == problem,
        },
{
    match split_listener_path(path) {
        Ok(path) => Ok(ListenerRun::mode_change(path, host_flags(), mode)),
        Err(error) => Err(error),
    }
}

} // verus!
