//! The protocol that connects to a named pipe whose server has been verified.

use vstd::prelude::*;

use crate::error::Error;
use crate::server::{
    verify_pipe_server, ConnectError, ServerCall, ServerProgress, ServerReply, ServerRun,
    ServerState, ServerStep, Verifier,
};
use crate::text::{is_wide_string, wide_string};
use crate::win32::{
    file_flag_overlapped, file_share_read, file_share_write, invalid_handle_value, open_existing,
    FILE_READ_DATA, FILE_WRITE_DATA,
};

verus! {

/// What a connection run waits for. The path ends in its only NUL.
#[derive(Debug)]
pub enum PipeRequest<'a> {
    /// `CreateFileW(path, access, share, disposition, flags)`.
    Open { path: &'a [u16], access: u32, share: u32, disposition: u32, flags: u32 },
    /// What the verification of the server waits for.
    Server(ServerCall),
    /// `CloseHandle(pipe)`.
    Close { pipe: isize },
}

/// What a `PipeRequest` asks for.
pub enum PipeCall {
    Open { path: Seq<u16>, access: u32, share: u32, disposition: u32, flags: u32 },
    Server(ServerCall),
    Close { pipe: isize },
}

impl<'a> View for PipeRequest<'a> {
    type V = PipeCall;

    open spec fn view(&self) -> PipeCall {
        match *self {
            PipeRequest::Open { path, access, share, disposition, flags } => PipeCall::Open {
                path: path@,
                access,
                share,
                disposition,
                flags,
            },
            PipeRequest::Server(call) => PipeCall::Server(call),
            PipeRequest::Close { pipe } => PipeCall::Close { pipe },
        }
    }
}

/// What a connection run is told. `E` is the error of the caller's judgement.
#[derive(Debug)]
pub enum PipeReply<E> {
    /// `CreateFileW` returned `pipe`; `code` is the error code that it left behind.
    Opened { pipe: isize, code: i32 },
    /// What the verification of the server is told.
    Server(ServerReply<E>),
    /// `CloseHandle` returned; whatever it returned, the handle is gone.
    Closed,
}

/// Where a `PipeRun` stands.
pub enum PipeState<E> {
    /// The pipe is to be opened.
    Open { path: Seq<u16>, verifier: Verifier },
    /// The pipe is open, its server is being verified.
    Verify { pipe: isize, server: ServerState },
    /// The server is refused with `error`, the pipe is to be closed.
    Close { pipe: isize, error: ConnectError<E> },
}

/// How far the replies so far have brought a `PipeRun`: in the end, to the handle of a
/// pipe whose server has been verified.
pub enum PipeProgress<E> {
    Waiting(PipeState<E>),
    Done(Result<isize, ConnectError<E>>),
}

impl<E> PipeState<E> {
    /// What this state waits for. The pipe is opened to be read and written, shared
    /// likewise, only where it exists, and for asynchronous use.
    pub open spec fn call(self) -> PipeCall {
        match self {
            PipeState::Open { path, .. } => PipeCall::Open {
                path,
                access: FILE_READ_DATA | FILE_WRITE_DATA,
                share: 3,
                disposition: 3,
                flags: 0x4000_0000,
            },
            PipeState::Verify { server, .. } => PipeCall::Server(server.call()),
            PipeState::Close { pipe, .. } => PipeCall::Close { pipe },
        }
    }

    /// What `reply` makes of this state. A reply to something else than what it waits
    /// for changes nothing.
    pub open spec fn after(self, reply: PipeReply<E>) -> PipeProgress<E> {
        match (self, reply) {
            (PipeState::Open { verifier, .. }, PipeReply::Opened { pipe, code }) => if pipe == -1 {
                PipeProgress::Done(Err(ConnectError::Refused(Error::Os { code })))
            } else {
                let server = ServerState::FindProcess { pipe, verifier };
                PipeProgress::Waiting(PipeState::Verify { pipe, server })
            },
            (PipeState::Verify { pipe, server }, PipeReply::Server(reply)) => match server.after(
                reply,
            ) {
                ServerProgress::Waiting(server) => PipeProgress::Waiting(
                    PipeState::Verify { pipe, server },
                ),
                ServerProgress::Done(Ok(_)) => PipeProgress::Done(Ok(pipe)),
                ServerProgress::Done(Err(error)) => PipeProgress::Waiting(
                    PipeState::Close { pipe, error },
                ),
            },
            (PipeState::Close { error, .. }, PipeReply::Closed) => PipeProgress::Done(Err(error)),
            _ => PipeProgress::Waiting(self),
        }
    }
}

/// A run that connects to a named pipe whose server is verified. A pipe whose server is
/// refused is closed before it ends. `E` is the error of the caller's judgement.
#[derive(Debug)]
pub struct PipeRun<E> {
    phase: PipePhase<E>,
}

#[derive(Debug)]
enum PipePhase<E> {
    Open { path: Vec<u16>, verifier: Verifier },
    Verify { pipe: isize, run: ServerRun },
    Close { pipe: isize, error: ConnectError<E> },
}

impl<E> View for PipeRun<E> {
    type V = PipeState<E>;

    closed spec fn view(&self) -> PipeState<E> {
        match self.phase {
            PipePhase::Open { path, verifier } => PipeState::Open { path: path@, verifier },
            PipePhase::Verify { pipe, run } => PipeState::Verify { pipe, server: run@ },
            PipePhase::Close { pipe, error } => PipeState::Close { pipe, error },
        }
    }
}

/// A `PipeRun` after a reply.
#[derive(Debug)]
pub enum PipeStep<E> {
    /// It waits for the next reply.
    Waiting(PipeRun<E>),
    /// It is over.
    Done(Result<isize, ConnectError<E>>),
}

impl<E> View for PipeStep<E> {
    type V = PipeProgress<E>;

    open spec fn view(&self) -> PipeProgress<E> {
        match *self {
            PipeStep::Waiting(run) => PipeProgress::Waiting(run@),
            PipeStep::Done(outcome) => PipeProgress::Done(outcome),
        }
    }
}

impl<E> PipeRun<E> {
    #[verifier::type_invariant]
    spec fn terminated(self) -> bool {
        match self.phase {
            PipePhase::Open { path, .. } => is_wide_string(path@),
            _ => true,
        }
    }

    /// What the run waits for.
    pub fn request(&self) -> (request: PipeRequest<'_>)
        ensures
            request@ == self@.call(),
            request@ matches PipeCall::Open { path, .. } ==> is_wide_string(path),
    {
        proof {
            use_type_invariant(self);
        }
        match &self.phase {
            PipePhase::Open { path, .. } => {
                assert(1u32 | 2u32 == 3u32) by (bit_vector);
                PipeRequest::Open {
                    path: path.as_slice(),
                    access: FILE_READ_DATA | FILE_WRITE_DATA,
                    share: file_share_read() | file_share_write(),
                    disposition: open_existing(),
                    flags: file_flag_overlapped(),
                }
            },
            PipePhase::Verify { run, .. } => PipeRequest::Server(run.request()),
            PipePhase::Close { pipe, .. } => PipeRequest::Close { pipe: *pipe },
        }
    }

    /// The run after `reply`.
    pub fn step(self, reply: PipeReply<E>) -> (step: PipeStep<E>)
        ensures
            step@ == self@.after(reply),
    {
        proof {
            use_type_invariant(&self);
        }
        match (self.phase, reply) {
            (
                PipePhase::Open { verifier, .. },
                PipeReply::Opened { pipe, code },
            ) => if pipe == invalid_handle_value() {
                PipeStep::Done(Err(ConnectError::Refused(Error::Os { code })))
            } else {
                let run = verify_pipe_server(pipe, verifier);
                PipeStep::Waiting(PipeRun { phase: PipePhase::Verify { pipe, run } })
            },
            (PipePhase::Verify { pipe, run }, PipeReply::Server(reply)) => match run.step(reply) {
                ServerStep::Waiting(run) => PipeStep::Waiting(
                    PipeRun { phase: PipePhase::Verify { pipe, run } },
                ),
                ServerStep::Done(Ok(_)) => PipeStep::Done(Ok(pipe)),
                ServerStep::Done(Err(error)) => PipeStep::Waiting(
                    PipeRun { phase: PipePhase::Close { pipe, error } },
                ),
            },
            (PipePhase::Close { error, .. }, PipeReply::Closed) => PipeStep::Done(Err(error)),
            (phase, _) => PipeStep::Waiting(PipeRun { phase }),
        }
    }
}

/// The run that connects to the named pipe at `path`, given without a NUL at its end,
/// once `verifier` has accepted its server.
pub fn connect_verified_server<E>(path: Vec<u16>, verifier: Verifier) -> (r: Result<
    PipeRun<E>,
    Error,
>)
    ensures
        if path@.contains(0) {
            r matches Err(error) && error == Error::PipePathContainsNul
        } else {
            r matches Ok(run) && run@ == (PipeState::<E>::Open { path: path@.push(0), verifier })
        },
{
    match wide_string(path) {
        None => Err(Error::PipePathContainsNul),
        Some(path) => Ok(PipeRun { phase: PipePhase::Open { path, verifier } }),
    }
}

/// The run that connects to the named pipe at `path`, given without a NUL at its end,
/// once its server is found to run as LocalSystem.
pub fn connect_local_system_server<E>(path: Vec<u16>) -> (r: Result<PipeRun<E>, Error>)
    ensures
        if path@.contains(0) {
            r matches Err(error) && error == Error::PipePathContainsNul
        } else {
            r matches Ok(run) && run@ == (PipeState::<E>::Open {
                path: path@.push(0),
                verifier: Verifier::LocalSystem,
            })
        },
{
    connect_verified_server(path, Verifier::LocalSystem)
}

} // verus!
