//! The protocol that verifies the server at the other end of a named pipe.

use vstd::prelude::*;

use crate::error::Error;
use crate::process::{
    verify_process_is_local_system, ProcessCall, ProcessProgress, ProcessReply, ProcessRun,
    ProcessState, ProcessStep,
};

verus! {

/// Who judges the process of a pipe's server.
#[derive(Clone, Copy, Debug, PartialEq, Eq, Structural)]
pub enum Verifier {
    /// The process has to run as LocalSystem.
    LocalSystem,
    /// The caller is asked.
    Caller,
}

/// What a server run waits for.
#[derive(Clone, Copy, Debug, PartialEq, Eq, Structural)]
pub enum ServerCall {
    /// `GetNamedPipeServerProcessId(pipe)`.
    FindProcess { pipe: isize },
    /// A call on the server's process.
    Process(ProcessCall),
    /// The caller's judgement of the process.
    Judge { process_id: u32 },
}

/// What a server run is told. `E` is the error of the caller's judgement.
#[derive(Debug)]
pub enum ServerReply<E> {
    /// `GetNamedPipeServerProcessId` returned `result` and filled in `process_id`;
    /// `code` is the error code that it left behind.
    Found { result: i32, process_id: u32, code: i32 },
    /// A call on the server's process came back.
    Process(ProcessReply),
    /// The caller judged the process.
    Judged(Result<(), E>),
}

/// Why there is no connection to a verified server.
#[derive(Debug)]
pub enum ConnectError<E> {
    /// A call failed, or what it told was refused.
    Refused(Error),
    /// The caller refused the server.
    Judged(E),
}

/// Where a `ServerRun` stands.
pub enum ServerState {
    /// The process of the server is to be found.
    FindProcess { pipe: isize, verifier: Verifier },
    /// It is being found out whether the process runs as LocalSystem.
    Process { check: ProcessState },
    /// The caller is to judge the process.
    Judge { process_id: u32 },
}

/// How far the replies so far have brought a `ServerRun`.
pub enum ServerProgress<E> {
    Waiting(ServerState),
    Done(Result<(), ConnectError<E>>),
}

impl ServerState {
    /// What this state waits for.
    pub open spec fn call(self) -> ServerCall {
        match self {
            ServerState::FindProcess { pipe, .. } => ServerCall::FindProcess { pipe },
            ServerState::Process { check } => ServerCall::Process(check.call()),
            ServerState::Judge { process_id } => ServerCall::Judge { process_id },
        }
    }

    /// What `reply` makes of this state. A reply to something else than what it waits
    /// for changes nothing.
    pub open spec fn after<E>(self, reply: ServerReply<E>) -> ServerProgress<E> {
        match (self, reply) {
            (
                ServerState::FindProcess { verifier, .. },
                ServerReply::Found { result, process_id, code },
            ) => if result == 0 || process_id == 0 {
                ServerProgress::Done(Err(ConnectError::Refused(Error::Os { code })))
            } else {
                match verifier {
                    Verifier::LocalSystem => ServerProgress::Waiting(
                        ServerState::Process { check: ProcessState::OpenProcess { process_id } },
                    ),
                    Verifier::Caller => ServerProgress::Waiting(ServerState::Judge { process_id }),
                }
            },
            (ServerState::Process { check }, ServerReply::Process(reply)) => match check.after(
                reply,
            ) {
                ProcessProgress::Waiting(check) => ServerProgress::Waiting(
                    ServerState::Process { check },
                ),
                ProcessProgress::Done(Ok(_)) => ServerProgress::Done(Ok(())),
                ProcessProgress::Done(Err(error)) => ServerProgress::Done(
                    Err(ConnectError::Refused(error)),
                ),
            },
            (ServerState::Judge { .. }, ServerReply::Judged(judgement)) => match judgement {
                Ok(_) => ServerProgress::Done(Ok(())),
                Err(error) => ServerProgress::Done(Err(ConnectError::Judged(error))),
            },
            _ => ServerProgress::Waiting(self),
        }
    }
}

/// A run that verifies the server of a named pipe.
#[derive(Debug)]
pub struct ServerRun {
    phase: ServerPhase,
}

#[derive(Debug)]
enum ServerPhase {
    FindProcess { pipe: isize, verifier: Verifier },
    Process { run: ProcessRun },
    Judge { process_id: u32 },
}

impl View for ServerRun {
    type V = ServerState;

    closed spec fn view(&self) -> ServerState {
        match self.phase {
            ServerPhase::FindProcess { pipe, verifier } => ServerState::FindProcess {
                pipe,
                verifier,
            },
            ServerPhase::Process { run } => ServerState::Process { check: run@ },
            ServerPhase::Judge { process_id } => ServerState::Judge { process_id },
        }
    }
}

/// A `ServerRun` after a reply.
#[derive(Debug)]
pub enum ServerStep<E> {
    /// It waits for the next reply.
    Waiting(ServerRun),
    /// It is over.
    Done(Result<(), ConnectError<E>>),
}

impl<E> View for ServerStep<E> {
    type V = ServerProgress<E>;

    open spec fn view(&self) -> ServerProgress<E> {
        match *self {
            ServerStep::Waiting(run) => ServerProgress::Waiting(run@),
            ServerStep::Done(outcome) => ServerProgress::Done(outcome),
        }
    }
}

impl ServerRun {
    /// What the run waits for.
    pub fn request(&self) -> (call: ServerCall)
        ensures
            call == self@.call(),
    {
        match &self.phase {
            ServerPhase::FindProcess { pipe, .. } => ServerCall::FindProcess { pipe: *pipe },
            ServerPhase::Process { run } => ServerCall::Process(run.request()),
            ServerPhase::Judge { process_id } => ServerCall::Judge { process_id: *process_id },
        }
    }

    /// The run after `reply`.
    pub fn step<E>(self, reply: ServerReply<E>) -> (step: ServerStep<E>)
        ensures
            step@ == self@.after(reply),
    {
        match (self.phase, reply) {
            (
                ServerPhase::FindProcess { verifier, .. },
                ServerReply::Found { result, process_id, code },
            ) => if result == 0 || process_id == 0 {
                ServerStep::Done(Err(ConnectError::Refused(Error::Os { code })))
            } else {
                let phase = match verifier {
                    Verifier::LocalSystem => ServerPhase::Process {
                        run: verify_process_is_local_system(process_id),
                    },
                    Verifier::Caller => ServerPhase::Judge { process_id },
                };
                ServerStep::Waiting(ServerRun { phase })
            },
            (ServerPhase::Process { run }, ServerReply::Process(reply)) => match run.step(reply) {
                ProcessStep::Waiting(run) => ServerStep::Waiting(
                    ServerRun { phase: ServerPhase::Process { run } },
                ),
                ProcessStep::Done(Ok(_)) => ServerStep::Done(Ok(())),
                ProcessStep::Done(Err(error)) => ServerStep::Done(
                    Err(ConnectError::Refused(error)),
                ),
            },
            (ServerPhase::Judge { .. }, ServerReply::Judged(judgement)) => match judgement {
                Ok(_) => ServerStep::Done(Ok(())),
                Err(error) => ServerStep::Done(Err(ConnectError::Judged(error))),
            },
            (phase, _) => ServerStep::Waiting(ServerRun { phase }),
        }
    }
}

/// The run that has `verifier` judge the server at the other end of `pipe`.
pub fn verify_pipe_server(pipe: isize, verifier: Verifier) -> (run: ServerRun)
    ensures
        run@ == (ServerState::FindProcess { pipe, verifier }),
{
    ServerRun { phase: ServerPhase::FindProcess { pipe, verifier } }
}

} // verus!
