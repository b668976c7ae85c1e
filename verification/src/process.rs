//! The protocol that finds out whether a process runs as LocalSystem.

use vstd::prelude::*;

use crate::error::Error;
use crate::win32::{
    process_query_limited_information, security_max_sid_size, token_query, token_user,
    win_local_system_sid,
};

verus! {

/// The system call that a process run waits for, with its arguments. Handles are taken
/// as numbers.
#[derive(Clone, Copy, Debug, PartialEq, Eq, Structural)]
pub enum ProcessCall {
    /// `OpenProcess(access, inherit, process_id)`.
    OpenProcess { access: u32, inherit: i32, process_id: u32 },
    /// `OpenProcessToken(process, access)`.
    OpenToken { process: isize, access: u32 },
    /// `GetTokenInformation(token, class)` without a buffer, for the size of the answer.
    MeasureUser { token: isize, class: i32 },
    /// `GetTokenInformation(token, class)` into a buffer of `size` bytes.
    ReadUser { token: isize, class: i32, size: u32 },
    /// `CreateWellKnownSid(kind)` into a buffer of `size` bytes.
    BuildSid { kind: i32, size: u32 },
    /// `EqualSid` of the user that was read and the identity that was built.
    CompareSids,
    /// `CloseHandle(handle)`.
    Close { handle: isize },
}

/// What a system call came back with. `code` is the error code that it left behind,
/// which counts only where the call failed.
#[derive(Clone, Copy, Debug, PartialEq, Eq, Structural)]
pub enum ProcessReply {
    /// `OpenProcess` returned `process`.
    Process { process: isize, code: i32 },
    /// `OpenProcessToken` returned `result` and filled in `token`.
    Token { result: i32, token: isize, code: i32 },
    /// `GetTokenInformation` told that the answer takes `size` bytes.
    Measured { size: u32, code: i32 },
    /// `GetTokenInformation` returned `result`.
    UserRead { result: i32, code: i32 },
    /// `CreateWellKnownSid` returned `result`.
    SidBuilt { result: i32, code: i32 },
    /// `EqualSid` returned `result`.
    Compared { result: i32 },
    /// `CloseHandle` returned; whatever it returned, the handle is gone.
    Closed,
}

/// Where a `ProcessRun` stands.
#[derive(Clone, Copy, Debug)]
pub enum ProcessState {
    /// The process is to be opened.
    OpenProcess { process_id: u32 },
    /// The process is open, its token is to be opened.
    OpenToken { process: isize },
    /// The token is open, the size of its user is to be told.
    MeasureUser { process: isize, token: isize },
    /// The size is known, the user is to be read.
    ReadUser { process: isize, token: isize, size: u32 },
    /// The user has been read, the identity of LocalSystem is to be built.
    BuildSid { process: isize, token: isize },
    /// The two identities are to be compared.
    CompareSids { process: isize, token: isize },
    /// The outcome is decided, the token is to be closed.
    CloseToken { process: isize, token: isize, outcome: Result<(), Error> },
    /// The outcome is decided, the process is to be closed.
    CloseProcess { process: isize, outcome: Result<(), Error> },
}

/// How far the replies so far have brought a `ProcessRun`.
pub enum ProcessProgress {
    Waiting(ProcessState),
    Done(Result<(), Error>),
}

impl ProcessState {
    /// The call that this state waits for.
    pub open spec fn call(self) -> ProcessCall {
        match self {
            ProcessState::OpenProcess { process_id } => ProcessCall::OpenProcess {
                access: 0x1000,
                inherit: 0,
                process_id,
            },
            ProcessState::OpenToken { process } => ProcessCall::OpenToken { process, access: 8 },
            ProcessState::MeasureUser { token, .. } => ProcessCall::MeasureUser {
                token,
                class: 1,
            },
            ProcessState::ReadUser { token, size, .. } => ProcessCall::ReadUser {
                token,
                class: 1,
                size,
            },
            ProcessState::BuildSid { .. } => ProcessCall::BuildSid { kind: 22, size: 68 },
            ProcessState::CompareSids { .. } => ProcessCall::CompareSids,
            ProcessState::CloseToken { token, .. } => ProcessCall::Close { handle: token },
            ProcessState::CloseProcess { process, .. } => ProcessCall::Close { handle: process },
        }
    }

    /// What `reply` makes of this state. A reply to another call than the one it waits
    /// for changes nothing.
    pub open spec fn after(self, reply: ProcessReply) -> ProcessProgress {
        match (self, reply) {
            (
                ProcessState::OpenProcess { .. },
                ProcessReply::Process { process, code },
            ) => if process == 0 {
                ProcessProgress::Done(Err(Error::Os { code }))
            } else {
                ProcessProgress::Waiting(ProcessState::OpenToken { process })
            },
            (
                ProcessState::OpenToken { process },
                ProcessReply::Token { result, token, code },
            ) => if result == 0 {
                let outcome = Err(Error::Os { code });
                ProcessProgress::Waiting(ProcessState::CloseProcess { process, outcome })
            } else {
                ProcessProgress::Waiting(ProcessState::MeasureUser { process, token })
            },
            (
                ProcessState::MeasureUser { process, token },
                ProcessReply::Measured { size, code },
            ) => if size == 0 {
                let outcome = Err(Error::Os { code });
                ProcessProgress::Waiting(ProcessState::CloseToken { process, token, outcome })
            } else {
                ProcessProgress::Waiting(ProcessState::ReadUser { process, token, size })
            },
            (
                ProcessState::ReadUser { process, token, .. },
                ProcessReply::UserRead { result, code },
            ) => if result == 0 {
                let outcome = Err(Error::Os { code });
                ProcessProgress::Waiting(ProcessState::CloseToken { process, token, outcome })
            } else {
                ProcessProgress::Waiting(ProcessState::BuildSid { process, token })
            },
            (
                ProcessState::BuildSid { process, token },
                ProcessReply::SidBuilt { result, code },
            ) => if result == 0 {
                let outcome = Err(Error::Os { code });
                ProcessProgress::Waiting(ProcessState::CloseToken { process, token, outcome })
            } else {
                ProcessProgress::Waiting(ProcessState::CompareSids { process, token })
            },
            (ProcessState::CompareSids { process, token }, ProcessReply::Compared { result }) => {
                let outcome = if result == 0 {
                    Err(Error::NotLocalSystem)
                } else {
                    Ok(())
                };
                ProcessProgress::Waiting(ProcessState::CloseToken { process, token, outcome })
            },
            (
                ProcessState::CloseToken { process, outcome, .. },
                ProcessReply::Closed,
            ) => ProcessProgress::Waiting(ProcessState::CloseProcess { process, outcome }),
            (
                ProcessState::CloseProcess { outcome, .. },
                ProcessReply::Closed,
            ) => ProcessProgress::Done(outcome),
            _ => ProcessProgress::Waiting(self),
        }
    }
}

/// A run that finds out whether a process runs as LocalSystem. The handles that it opens
/// are closed before it ends, however it ends.
#[derive(Debug)]
pub struct ProcessRun {
    state: ProcessState,
}

impl View for ProcessRun {
    type V = ProcessState;

    closed spec fn view(&self) -> ProcessState {
        self.state
    }
}

/// A `ProcessRun` after a reply.
#[derive(Debug)]
pub enum ProcessStep {
    /// It waits for the next reply.
    Waiting(ProcessRun),
    /// It is over.
    Done(Result<(), Error>),
}

impl View for ProcessStep {
    type V = ProcessProgress;

    open spec fn view(&self) -> ProcessProgress {
        match *self {
            ProcessStep::Waiting(run) => ProcessProgress::Waiting(run@),
            ProcessStep::Done(outcome) => ProcessProgress::Done(outcome),
        }
    }
}

impl ProcessRun {
    /// The call that the run waits for.
    pub fn request(&self) -> (call: ProcessCall)
        ensures
            call == self@.call(),
    {
        match self.state {
            ProcessState::OpenProcess { process_id } => ProcessCall::OpenProcess {
                access: process_query_limited_information(),
                inherit: 0,
                process_id,
            },
            ProcessState::OpenToken { process } => ProcessCall::OpenToken {
                process,
                access: token_query(),
            },
            ProcessState::MeasureUser { token, .. } => ProcessCall::MeasureUser {
                token,
                class: token_user(),
            },
            ProcessState::ReadUser { token, size, .. } => ProcessCall::ReadUser {
                token,
                class: token_user(),
                size,
            },
            ProcessState::BuildSid { .. } => ProcessCall::BuildSid {
                kind: win_local_system_sid(),
                size: security_max_sid_size(),
            },
            ProcessState::CompareSids { .. } => ProcessCall::CompareSids,
            ProcessState::CloseToken { token, .. } => ProcessCall::Close { handle: token },
            ProcessState::CloseProcess { process, .. } => ProcessCall::Close { handle: process },
        }
    }

    /// The run after `reply`.
    pub fn step(self, reply: ProcessReply) -> (step: ProcessStep)
        ensures
            step@ == self@.after(reply),
    {
        let state = match (self.state, reply) {
            (ProcessState::OpenProcess { .. }, ProcessReply::Process { process, code }) => {
                if process == 0 {
                    return ProcessStep::Done(Err(Error::Os { code }));
                }
                ProcessState::OpenToken { process }
            },
            (
                ProcessState::OpenToken { process },
                ProcessReply::Token { result, token, code },
            ) => if result == 0 {
                ProcessState::CloseProcess { process, outcome: Err(Error::Os { code }) }
            } else {
                ProcessState::MeasureUser { process, token }
            },
            (
                ProcessState::MeasureUser { process, token },
                ProcessReply::Measured { size, code },
            ) => if size == 0 {
                ProcessState::CloseToken { process, token, outcome: Err(Error::Os { code }) }
            } else {
                ProcessState::ReadUser { process, token, size }
            },
            (
                ProcessState::ReadUser { process, token, .. },
                ProcessReply::UserRead { result, code },
            ) => if result == 0 {
                ProcessState::CloseToken { process, token, outcome: Err(Error::Os { code }) }
            } else {
                ProcessState::BuildSid { process, token }
            },
            (
                ProcessState::BuildSid { process, token },
                ProcessReply::SidBuilt { result, code },
            ) => if result == 0 {
                ProcessState::CloseToken { process, token, outcome: Err(Error::Os { code }) }
            } else {
                ProcessState::CompareSids { process, token }
            },
            (
                ProcessState::CompareSids { process, token },
                ProcessReply::Compared { result },
            ) => if result == 0 {
                ProcessState::CloseToken { process, token, outcome: Err(Error::NotLocalSystem) }
            } else {
                ProcessState::CloseToken { process, token, outcome: Ok(()) }
            },
            (
                ProcessState::CloseToken { process, outcome, .. },
                ProcessReply::Closed,
            ) => ProcessState::CloseProcess { process, outcome },
            (ProcessState::CloseProcess { outcome, .. }, ProcessReply::Closed) => {
                return ProcessStep::Done(outcome);
            },
            (state, _) => state,
        };
        ProcessStep::Waiting(ProcessRun { state })
    }
}

/// The run that finds out whether the process `process_id` runs as LocalSystem.
pub fn verify_process_is_local_system(process_id: u32) -> (run: ProcessRun)
    ensures
        run@ == (ProcessState::OpenProcess { process_id }),
{
    ProcessRun { state: ProcessState::OpenProcess { process_id } }
}

} // verus!
