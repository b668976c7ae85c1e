//! What holds of whole runs of the pipe protocols.

use vstd::multiset::Multiset;
use vstd::prelude::*;

use crate::error::Error;
use crate::pipe::{
    PipeCall, PipeProgress, PipeReply, PipeRequest, PipeRun, PipeState, PipeStep,
};
use crate::process::{
    ProcessCall, ProcessProgress, ProcessReply, ProcessRun, ProcessState, ProcessStep,
};
use crate::server::{
    ConnectError, ServerCall, ServerProgress, ServerReply, ServerRun, ServerState, ServerStep,
    Verifier,
};
use crate::text::is_wide_string;

verus! {

/// Where a run that has come to `progress` is after one more reply.
pub open spec fn resume<E>(progress: PipeProgress<E>, reply: PipeReply<E>) -> PipeProgress<E> {
    match progress {
        PipeProgress::Waiting(state) => state.after(reply),
        PipeProgress::Done(_) => progress,
    }
}

/// Where a run from `start` is after `replies`, in their order.
pub open spec fn pipe_run<E>(start: PipeState<E>, replies: Seq<PipeReply<E>>) -> PipeProgress<E>
    decreases replies.len(),
{
    if replies.len() == 0 {
        PipeProgress::Waiting(start)
    } else {
        resume(pipe_run(start, replies.drop_last()), replies.last())
    }
}

/// Where a run that asks after a process is after `replies`, in their order.
pub open spec fn process_run(start: ProcessState, replies: Seq<ProcessReply>) -> ProcessProgress
    decreases replies.len(),
{
    if replies.len() == 0 {
        ProcessProgress::Waiting(start)
    } else {
        match process_run(start, replies.drop_last()) {
            ProcessProgress::Waiting(state) => state.after(replies.last()),
            done => done,
        }
    }
}

/// What the system says of a process.
pub struct ProcessAnswers {
    pub process: isize,
    pub process_code: i32,
    pub token_result: i32,
    pub token: isize,
    pub token_code: i32,
    pub size: u32,
    pub size_code: i32,
    pub user_result: i32,
    pub user_code: i32,
    pub sid_result: i32,
    pub sid_code: i32,
    pub equal: i32,
}

impl ProcessAnswers {
    /// The answers as replies, in the order of the calls, and two handles closed.
    pub open spec fn replies(self) -> Seq<ProcessReply> {
        seq![
            ProcessReply::Process { process: self.process, code: self.process_code },
            ProcessReply::Token {
                result: self.token_result,
                token: self.token,
                code: self.token_code,
            },
            ProcessReply::Measured { size: self.size, code: self.size_code },
            ProcessReply::UserRead { result: self.user_result, code: self.user_code },
            ProcessReply::SidBuilt { result: self.sid_result, code: self.sid_code },
            ProcessReply::Compared { result: self.equal },
            ProcessReply::Closed,
            ProcessReply::Closed,
        ]
    }

    /// What is to come of a process of which the system says this.
    pub open spec fn outcome(self) -> Result<(), Error> {
        if self.process == 0 {
            Err(Error::Os { code: self.process_code })
        } else if self.token_result == 0 {
            Err(Error::Os { code: self.token_code })
        } else if self.size == 0 {
            Err(Error::Os { code: self.size_code })
        } else if self.user_result == 0 {
            Err(Error::Os { code: self.user_code })
        } else if self.sid_result == 0 {
            Err(Error::Os { code: self.sid_code })
        } else if self.equal == 0 {
            Err(Error::NotLocalSystem)
        } else {
            Ok(())
        }
    }
}

/// What the system says of a pipe and of the process of its server.
pub struct PipeAnswers {
    pub pipe: isize,
    pub pipe_code: i32,
    pub found_result: i32,
    pub process_id: u32,
    pub found_code: i32,
}

impl PipeAnswers {
    /// The answers as replies, in the order of the calls.
    pub open spec fn replies<E>(self) -> Seq<PipeReply<E>> {
        seq![
            PipeReply::Opened { pipe: self.pipe, code: self.pipe_code },
            PipeReply::Server(
                ServerReply::Found {
                    result: self.found_result,
                    process_id: self.process_id,
                    code: self.found_code,
                },
            ),
        ]
    }

    /// What is to come of a pipe of which the system says this, up to the judgement of
    /// its server.
    pub open spec fn outcome(self) -> Result<(), Error> {
        if self.pipe == -1 {
            Err(Error::Os { code: self.pipe_code })
        } else if self.found_result == 0 || self.process_id == 0 {
            Err(Error::Os { code: self.found_code })
        } else {
            Ok(())
        }
    }
}

/// Replies on a process as replies on a pipe.
pub open spec fn on_pipe<E>(replies: Seq<ProcessReply>) -> Seq<PipeReply<E>> {
    replies.map_values(|reply: ProcessReply| PipeReply::<E>::Server(ServerReply::Process(reply)))
}

/// What is to come of a connection whose server has to run as LocalSystem.
pub open spec fn local_system_outcome<E>(pipe: PipeAnswers, process: ProcessAnswers) -> Result<
    isize,
    ConnectError<E>,
> {
    match pipe.outcome() {
        Err(error) => Err(ConnectError::Refused(error)),
        Ok(_) => match process.outcome() {
            Err(error) => Err(ConnectError::Refused(error)),
            Ok(_) => Ok(pipe.pipe),
        },
    }
}

/// What is to come of a connection whose server the caller judges.
pub open spec fn judged_outcome<E>(pipe: PipeAnswers, judgement: Result<(), E>) -> Result<
    isize,
    ConnectError<E>,
> {
    match pipe.outcome() {
        Err(error) => Err(ConnectError::Refused(error)),
        Ok(_) => match judgement {
            Err(error) => Err(ConnectError::Judged(error)),
            Ok(_) => Ok(pipe.pipe),
        },
    }
}

proof fn lemma_process_push(start: ProcessState, replies: Seq<ProcessReply>, reply: ProcessReply)
    ensures
        process_run(start, replies.push(reply)) == (match process_run(start, replies) {
            ProcessProgress::Waiting(state) => state.after(reply),
            done => done,
        }),
{
    assert(replies.push(reply).drop_last() == replies);
}

/// A process passes exactly where it, its token and its user could be read, the identity
/// of LocalSystem could be built, and the two are equal; otherwise the first thing amiss
/// is reported.
pub proof fn law_process_outcome(process_id: u32, process: ProcessAnswers)
    ensures
        process_run(ProcessState::OpenProcess { process_id }, process.replies())
            == ProcessProgress::Done(process.outcome()),
{
    let start = ProcessState::OpenProcess { process_id };
    let r = process.replies();
    let s1 = Seq::<ProcessReply>::empty().push(r[0]);
    let s2 = s1.push(r[1]);
    let s3 = s2.push(r[2]);
    let s4 = s3.push(r[3]);
    let s5 = s4.push(r[4]);
    let s6 = s5.push(r[5]);
    let s7 = s6.push(r[6]);
    lemma_process_push(start, seq![], r[0]);
    lemma_process_push(start, s1, r[1]);
    lemma_process_push(start, s2, r[2]);
    lemma_process_push(start, s3, r[3]);
    lemma_process_push(start, s4, r[4]);
    lemma_process_push(start, s5, r[5]);
    lemma_process_push(start, s6, r[6]);
    lemma_process_push(start, s7, r[7]);
    assert(r == s7.push(r[7]));
}

proof fn lemma_pipe_push<E>(start: PipeState<E>, replies: Seq<PipeReply<E>>, reply: PipeReply<E>)
    ensures
        pipe_run(start, replies.push(reply)) == resume(pipe_run(start, replies), reply),
{
    assert(replies.push(reply).drop_last() == replies);
}

proof fn lemma_pipe_answers<E>(start: PipeState<E>, pipe: PipeAnswers)
    ensures
        pipe_run::<E>(start, pipe.replies()) == resume(
            resume(PipeProgress::Waiting(start), pipe.replies::<E>()[0]),
            pipe.replies::<E>()[1],
        ),
{
    let r = pipe.replies::<E>();
    lemma_pipe_push(start, seq![], r[0]);
    lemma_pipe_push(start, seq![].push(r[0]), r[1]);
    assert(r == Seq::<PipeReply<E>>::empty().push(r[0]).push(r[1]));
}

/// A run that has ended, or that has only to close its pipe, takes nothing more from a
/// reply on a process.
proof fn lemma_refusal_stays<E>(
    start: PipeState<E>,
    replies: Seq<PipeReply<E>>,
    more: Seq<ProcessReply>,
)
    requires
        pipe_run(start, replies) is Done || (pipe_run(start, replies)
            matches PipeProgress::Waiting(state) && state is Close),
    ensures
        pipe_run(start, replies + on_pipe(more)) == pipe_run(start, replies),
    decreases more.len(),
{
    let all = replies + on_pipe::<E>(more);
    if more.len() == 0 {
        assert(all == replies);
    } else {
        lemma_refusal_stays(start, replies, more.drop_last());
        assert(all.drop_last() == replies + on_pipe::<E>(more.drop_last()));
        assert(all.last() == PipeReply::<E>::Server(ServerReply::Process(more.last())));
    }
}

/// Replies on the server's process bring a connection as far as they bring the run that
/// asks after the process.
proof fn lemma_process_on_pipe<E>(
    start: PipeState<E>,
    first: Seq<PipeReply<E>>,
    pipe: isize,
    process_id: u32,
    replies: Seq<ProcessReply>,
)
    requires
        pipe_run(start, first) == PipeProgress::<E>::Waiting(
            PipeState::Verify {
                pipe,
                server: ServerState::Process { check: ProcessState::OpenProcess { process_id } },
            },
        ),
    ensures
        pipe_run(start, first + on_pipe::<E>(replies)) == (match process_run(
            ProcessState::OpenProcess { process_id },
            replies,
        ) {
            ProcessProgress::Waiting(check) => PipeProgress::<E>::Waiting(
                PipeState::Verify { pipe, server: ServerState::Process { check } },
            ),
            ProcessProgress::Done(Ok(_)) => PipeProgress::<E>::Done(Ok(pipe)),
            ProcessProgress::Done(Err(error)) => PipeProgress::<E>::Waiting(
                PipeState::Close { pipe, error: ConnectError::Refused(error) },
            ),
        }),
    decreases replies.len(),
{
    if replies.len() == 0 {
        assert(first + on_pipe::<E>(replies) == first);
    } else {
        lemma_process_on_pipe(start, first, pipe, process_id, replies.drop_last());
        let all = first + on_pipe::<E>(replies);
        assert(all.drop_last() == first + on_pipe::<E>(replies.drop_last()));
        assert(all.last() == PipeReply::<E>::Server(ServerReply::Process(replies.last())));
    }
}

/// A connection whose server has to run as LocalSystem comes about exactly where the
/// pipe could be opened, its server's process could be found, and that process passes;
/// otherwise the first thing amiss is reported.
pub proof fn law_local_system_outcome<E>(
    path: Seq<u16>,
    pipe: PipeAnswers,
    process: ProcessAnswers,
)
    ensures
        pipe_run::<E>(
            PipeState::Open { path, verifier: Verifier::LocalSystem },
            (pipe.replies::<E>() + on_pipe(process.replies())).push(PipeReply::Closed),
        ) == PipeProgress::Done(local_system_outcome::<E>(pipe, process)),
{
    let start = PipeState::<E>::Open { path, verifier: Verifier::LocalSystem };
    let first = pipe.replies::<E>();
    lemma_pipe_answers::<E>(start, pipe);
    match pipe.outcome() {
        Ok(_) => {
            lemma_process_on_pipe(start, first, pipe.pipe, pipe.process_id, process.replies());
            law_process_outcome(pipe.process_id, process);
        },
        Err(_) => {
            lemma_refusal_stays(start, first, process.replies());
        },
    }
    lemma_pipe_push(start, first + on_pipe(process.replies()), PipeReply::Closed);
}

/// A connection whose server the caller judges comes about exactly where the pipe could
/// be opened, its server's process could be found, and the caller accepts it; what the
/// caller refuses with is reported as it is.
pub proof fn law_judged_outcome<E>(path: Seq<u16>, pipe: PipeAnswers, judgement: Result<(), E>)
    ensures
        pipe_run::<E>(
            PipeState::Open { path, verifier: Verifier::Caller },
            pipe.replies::<E>().push(PipeReply::Server(ServerReply::Judged(judgement))).push(
                PipeReply::Closed,
            ),
        ) == PipeProgress::Done(judged_outcome(pipe, judgement)),
{
    let start = PipeState::<E>::Open { path, verifier: Verifier::Caller };
    let judged = PipeReply::Server(ServerReply::Judged(judgement));
    lemma_pipe_answers::<E>(start, pipe);
    lemma_pipe_push(start, pipe.replies::<E>(), judged);
    lemma_pipe_push(start, pipe.replies::<E>().push(judged), PipeReply::Closed);
}

/// What is open after `reply` to `call` on a process, where `open` was open before it.
pub open spec fn open_after_process(
    open: Multiset<isize>,
    call: ProcessCall,
    reply: ProcessReply,
) -> Multiset<isize> {
    match (call, reply) {
        (ProcessCall::OpenProcess { .. }, ProcessReply::Process { process, .. }) => if process
            != 0 {
            open.insert(process)
        } else {
            open
        },
        (ProcessCall::OpenToken { .. }, ProcessReply::Token { result, token, .. }) => if result
            != 0 {
            open.insert(token)
        } else {
            open
        },
        (ProcessCall::Close { handle }, ProcessReply::Closed) => open.remove(handle),
        _ => open,
    }
}

/// What is open after `reply` to `call`, where `open` was open before it.
pub open spec fn open_after<E>(
    open: Multiset<isize>,
    call: PipeCall,
    reply: PipeReply<E>,
) -> Multiset<isize> {
    match (call, reply) {
        (PipeCall::Open { .. }, PipeReply::Opened { pipe, .. }) => if pipe != -1 {
            open.insert(pipe)
        } else {
            open
        },
        (
            PipeCall::Server(ServerCall::Process(call)),
            PipeReply::Server(ServerReply::Process(reply)),
        ) => open_after_process(open, call, reply),
        (PipeCall::Close { pipe }, PipeReply::Closed) => open.remove(pipe),
        _ => open,
    }
}

/// The handles that a run that asks after a process has opened and not closed after
/// `replies`.
pub open spec fn process_handles(start: ProcessState, replies: Seq<ProcessReply>) -> Multiset<isize>
    decreases replies.len(),
{
    if replies.len() == 0 {
        Multiset::empty()
    } else {
        let before = process_handles(start, replies.drop_last());
        match process_run(start, replies.drop_last()) {
            ProcessProgress::Waiting(state) => open_after_process(
                before,
                state.call(),
                replies.last(),
            ),
            ProcessProgress::Done(_) => before,
        }
    }
}

/// The handles that a connection has opened and not closed after `replies`.
pub open spec fn open_handles<E>(
    start: PipeState<E>,
    replies: Seq<PipeReply<E>>,
) -> Multiset<isize>
    decreases replies.len(),
{
    if replies.len() == 0 {
        Multiset::empty()
    } else {
        let before = open_handles(start, replies.drop_last());
        match pipe_run(start, replies.drop_last()) {
            PipeProgress::Waiting(state) => open_after(before, state.call(), replies.last()),
            PipeProgress::Done(_) => before,
        }
    }
}

/// What a state of the question after a process holds open besides `others`.
spec fn process_holds(others: Multiset<isize>, check: ProcessState) -> Multiset<isize> {
    match check {
        ProcessState::OpenProcess { .. } => others,
        ProcessState::OpenToken { process } => others.insert(process),
        ProcessState::MeasureUser { process, token } => others.insert(process).insert(token),
        ProcessState::ReadUser { process, token, .. } => others.insert(process).insert(token),
        ProcessState::BuildSid { process, token } => others.insert(process).insert(token),
        ProcessState::CompareSids { process, token } => others.insert(process).insert(token),
        ProcessState::CloseToken { process, token, .. } => others.insert(process).insert(token),
        ProcessState::CloseProcess { process, .. } => others.insert(process),
    }
}

proof fn lemma_insert_remove(open: Multiset<isize>, handle: isize)
    ensures
        open.insert(handle).remove(handle) == open,
{
    broadcast use vstd::multiset::group_multiset_axioms;

    assert(open.insert(handle).remove(handle) =~= open);
}

/// A reply brings what is open from what one state holds to what the next one does.
proof fn lemma_process_holds(others: Multiset<isize>, check: ProcessState, reply: ProcessReply)
    ensures
        open_after_process(process_holds(others, check), check.call(), reply) == (
        match check.after(reply) {
            ProcessProgress::Waiting(next) => process_holds(others, next),
            ProcessProgress::Done(_) => others,
        }),
{
    match check {
        ProcessState::CloseToken { process, token, .. } => {
            lemma_insert_remove(others.insert(process), token);
        },
        ProcessState::CloseProcess { process, .. } => {
            lemma_insert_remove(others, process);
        },
        _ => {},
    }
}

proof fn lemma_process_handles(process_id: u32, replies: Seq<ProcessReply>)
    ensures
        process_handles(ProcessState::OpenProcess { process_id }, replies) == (match process_run(
            ProcessState::OpenProcess { process_id },
            replies,
        ) {
            ProcessProgress::Waiting(check) => process_holds(Multiset::empty(), check),
            ProcessProgress::Done(_) => Multiset::empty(),
        }),
    decreases replies.len(),
{
    if replies.len() > 0 {
        lemma_process_handles(process_id, replies.drop_last());
        if let ProcessProgress::Waiting(check) = process_run(
            ProcessState::OpenProcess { process_id },
            replies.drop_last(),
        ) {
            lemma_process_holds(Multiset::empty(), check, replies.last());
        }
    }
}

/// Whatever the replies are, and in whatever order they come, a run that has found out
/// about a process, or has failed to, has closed the process and its token.
pub proof fn law_process_handles_are_closed(process_id: u32, replies: Seq<ProcessReply>)
    requires
        process_run(ProcessState::OpenProcess { process_id }, replies) is Done,
    ensures
        process_handles(ProcessState::OpenProcess { process_id }, replies) == Multiset::<
            isize,
        >::empty(),
{
    lemma_process_handles(process_id, replies);
}

spec fn pipe_holds<E>(progress: PipeProgress<E>) -> Multiset<isize> {
    match progress {
        PipeProgress::Waiting(PipeState::Open { .. }) => Multiset::empty(),
        PipeProgress::Waiting(PipeState::Verify { pipe, server }) => match server {
            ServerState::Process { check } => process_holds(Multiset::empty().insert(pipe), check),
            _ => Multiset::empty().insert(pipe),
        },
        PipeProgress::Waiting(PipeState::Close { pipe, .. }) => Multiset::empty().insert(pipe),
        PipeProgress::Done(Ok(pipe)) => Multiset::empty().insert(pipe),
        PipeProgress::Done(Err(_)) => Multiset::empty(),
    }
}

proof fn lemma_open_handles<E>(path: Seq<u16>, verifier: Verifier, replies: Seq<PipeReply<E>>)
    ensures
        open_handles(PipeState::<E>::Open { path, verifier }, replies) == pipe_holds(
            pipe_run(PipeState::Open { path, verifier }, replies),
        ),
    decreases replies.len(),
{
    let start = PipeState::<E>::Open { path, verifier };
    if replies.len() > 0 {
        lemma_open_handles(path, verifier, replies.drop_last());
        match pipe_run(start, replies.drop_last()) {
            PipeProgress::Waiting(
                PipeState::Verify { pipe, server: ServerState::Process { check } },
            ) => {
                if let PipeReply::Server(ServerReply::Process(told)) = replies.last() {
                    lemma_process_holds(Multiset::empty().insert(pipe), check, told);
                }
            },
            PipeProgress::Waiting(PipeState::Close { pipe, .. }) => {
                lemma_insert_remove(Multiset::empty(), pipe);
            },
            _ => {},
        }
    }
}

/// Whatever the replies are, and in whatever order they come, a connection that has
/// failed has closed every handle that it opened, and one that has come about has closed
/// all but the pipe that it hands out.
pub proof fn law_only_a_verified_pipe_stays_open<E>(
    path: Seq<u16>,
    verifier: Verifier,
    replies: Seq<PipeReply<E>>,
)
    ensures
        match pipe_run(PipeState::<E>::Open { path, verifier }, replies) {
            PipeProgress::Waiting(_) => true,
            PipeProgress::Done(Err(_)) => open_handles(
                PipeState::<E>::Open { path, verifier },
                replies,
            ) == Multiset::<isize>::empty(),
            PipeProgress::Done(Ok(pipe)) => open_handles(
                PipeState::<E>::Open { path, verifier },
                replies,
            ) == Multiset::<isize>::empty().insert(pipe),
        },
{
    lemma_open_handles(path, verifier, replies);
}

/// What the replies of a run can have shown of `pipe` and of the process `process_id`.
pub enum Milestone {
    /// The pipe was opened.
    PipeOpened { pipe: isize },
    /// The process is that of the pipe's server.
    ServerFound { pipe: isize, process_id: u32 },
    /// The process was opened.
    ProcessOpened { pipe: isize, process_id: u32 },
    /// Its token was opened.
    TokenOpened { pipe: isize, process_id: u32 },
    /// The size of its user was told.
    UserMeasured { pipe: isize, process_id: u32 },
    /// Its user was read.
    UserRead { pipe: isize, process_id: u32 },
    /// The identity of LocalSystem was built.
    SystemBuilt { pipe: isize, process_id: u32 },
    /// Its user is LocalSystem.
    SystemConfirmed { pipe: isize, process_id: u32 },
    /// The caller accepted the process.
    CallerAccepted { pipe: isize, process_id: u32 },
}

impl Milestone {
    /// What has to be shown first.
    pub open spec fn previous(self) -> Option<Milestone> {
        match self {
            Milestone::PipeOpened { .. } => None,
            Milestone::ServerFound { pipe, .. } => Some(Milestone::PipeOpened { pipe }),
            Milestone::ProcessOpened { pipe, process_id } => Some(
                Milestone::ServerFound { pipe, process_id },
            ),
            Milestone::TokenOpened { pipe, process_id } => Some(
                Milestone::ProcessOpened { pipe, process_id },
            ),
            Milestone::UserMeasured { pipe, process_id } => Some(
                Milestone::TokenOpened { pipe, process_id },
            ),
            Milestone::UserRead { pipe, process_id } => Some(
                Milestone::UserMeasured { pipe, process_id },
            ),
            Milestone::SystemBuilt { pipe, process_id } => Some(
                Milestone::UserRead { pipe, process_id },
            ),
            Milestone::SystemConfirmed { pipe, process_id } => Some(
                Milestone::SystemBuilt { pipe, process_id },
            ),
            Milestone::CallerAccepted { pipe, process_id } => Some(
                Milestone::ServerFound { pipe, process_id },
            ),
        }
    }

    /// How many milestones come first.
    pub open spec fn rank(self) -> nat {
        match self {
            Milestone::PipeOpened { .. } => 0,
            Milestone::ServerFound { .. } => 1,
            Milestone::ProcessOpened { .. } => 2,
            Milestone::TokenOpened { .. } => 3,
            Milestone::UserMeasured { .. } => 4,
            Milestone::UserRead { .. } => 5,
            Milestone::SystemBuilt { .. } => 6,
            Milestone::SystemConfirmed { .. } => 7,
            Milestone::CallerAccepted { .. } => 2,
        }
    }

    /// The milestone is what `reply` shows.
    pub open spec fn shown_by<E>(self, reply: PipeReply<E>) -> bool {
        match self {
            Milestone::PipeOpened { pipe } => {
                &&& pipe != -1
                &&& reply matches PipeReply::Opened { pipe: opened, .. }
                &&& opened == pipe
            },
            Milestone::ServerFound { process_id, .. } => {
                &&& process_id != 0
                &&& reply matches PipeReply::Server(
                    ServerReply::Found { result, process_id: found, .. },
                )
                &&& result != 0
                &&& found == process_id
            },
            Milestone::ProcessOpened { .. } => {
                &&& reply matches PipeReply::Server(
                    ServerReply::Process(ProcessReply::Process { process, .. }),
                )
                &&& process != 0
            },
            Milestone::TokenOpened { .. } => {
                &&& reply matches PipeReply::Server(
                    ServerReply::Process(ProcessReply::Token { result, .. }),
                )
                &&& result != 0
            },
            Milestone::UserMeasured { .. } => {
                &&& reply matches PipeReply::Server(
                    ServerReply::Process(ProcessReply::Measured { size, .. }),
                )
                &&& size != 0
            },
            Milestone::UserRead { .. } => {
                &&& reply matches PipeReply::Server(
                    ServerReply::Process(ProcessReply::UserRead { result, .. }),
                )
                &&& result != 0
            },
            Milestone::SystemBuilt { .. } => {
                &&& reply matches PipeReply::Server(
                    ServerReply::Process(ProcessReply::SidBuilt { result, .. }),
                )
                &&& result != 0
            },
            Milestone::SystemConfirmed { .. } => {
                &&& reply matches PipeReply::Server(
                    ServerReply::Process(ProcessReply::Compared { result }),
                )
                &&& result != 0
            },
            Milestone::CallerAccepted { .. } => {
                &&& reply matches PipeReply::Server(ServerReply::Judged(judgement))
                &&& judgement is Ok
            },
        }
    }

    /// One of `replies` shows the milestone, and those before it, each in its turn, have
    /// shown what has to be shown first.
    pub open spec fn reached<E>(self, replies: Seq<PipeReply<E>>) -> bool
        decreases self.rank(),
    {
        exists|i: int|
            #![trigger replies[i]]
            {
                &&& 0 <= i < replies.len()
                &&& self.shown_by(replies[i])
                &&& match self.previous() {
                    None => true,
                    Some(previous) => previous.rank() < self.rank() && previous.reached(
                        replies.take(i),
                    ),
                }
            }
    }
}

proof fn lemma_reached_stays<E>(
    milestone: Milestone,
    replies: Seq<PipeReply<E>>,
    reply: PipeReply<E>,
)
    requires
        milestone.reached(replies),
    ensures
        milestone.reached(replies.push(reply)),
{
    let i = choose|i: int|
        #![trigger replies[i]]
        {
            &&& 0 <= i < replies.len()
            &&& milestone.shown_by(replies[i])
            &&& match milestone.previous() {
                None => true,
                Some(previous) => previous.rank() < milestone.rank() && previous.reached(
                    replies.take(i),
                ),
            }
        };
    assert(replies.push(reply)[i] == replies[i]);
    assert(replies.push(reply).take(i) == replies.take(i));
}

proof fn lemma_next_milestone<E>(
    milestone: Milestone,
    replies: Seq<PipeReply<E>>,
    reply: PipeReply<E>,
)
    requires
        milestone.shown_by(reply),
        milestone.previous() matches Some(previous) ==> previous.reached(replies),
    ensures
        milestone.reached(replies.push(reply)),
{
    let all = replies.push(reply);
    let i = replies.len() as int;
    assert(all[i] == reply);
    assert(all.take(i) == replies);
}

/// What the replies so far have shown where the run that asks after a process stands at
/// `check`, where it has not failed.
spec fn process_milestone(check: ProcessState, pipe: isize, process_id: u32) -> Milestone {
    match check {
        ProcessState::OpenProcess { .. } => Milestone::ServerFound { pipe, process_id },
        ProcessState::OpenToken { .. } => Milestone::ProcessOpened { pipe, process_id },
        ProcessState::MeasureUser { .. } => Milestone::TokenOpened { pipe, process_id },
        ProcessState::ReadUser { .. } => Milestone::UserMeasured { pipe, process_id },
        ProcessState::BuildSid { .. } => Milestone::UserRead { pipe, process_id },
        ProcessState::CompareSids { .. } => Milestone::SystemBuilt { pipe, process_id },
        ProcessState::CloseToken { .. } => Milestone::SystemConfirmed { pipe, process_id },
        ProcessState::CloseProcess { .. } => Milestone::SystemConfirmed { pipe, process_id },
    }
}

spec fn has_failed(check: ProcessState) -> bool {
    match check {
        ProcessState::CloseToken { outcome, .. } => outcome is Err,
        ProcessState::CloseProcess { outcome, .. } => outcome is Err,
        _ => false,
    }
}

spec fn process_evidence<E>(
    check: ProcessState,
    pipe: isize,
    process_id: u32,
    replies: Seq<PipeReply<E>>,
) -> bool {
    &&& check matches ProcessState::OpenProcess { process_id: asked } ==> asked == process_id
    &&& !has_failed(check) ==> process_milestone(check, pipe, process_id).reached(replies)
}

/// The last milestone of a connection that `verifier` decides.
pub open spec fn last_milestone(verifier: Verifier, pipe: isize, process_id: u32) -> Milestone {
    match verifier {
        Verifier::LocalSystem => Milestone::SystemConfirmed { pipe, process_id },
        Verifier::Caller => Milestone::CallerAccepted { pipe, process_id },
    }
}

/// What the replies so far have shown in each state of a connection, of one process.
spec fn pipe_evidence<E>(
    path: Seq<u16>,
    verifier: Verifier,
    process_id: u32,
    replies: Seq<PipeReply<E>>,
    progress: PipeProgress<E>,
) -> bool {
    match progress {
        PipeProgress::Waiting(PipeState::Open { path: p, verifier: v }) => {
            &&& p == path
            &&& v == verifier
        },
        PipeProgress::Waiting(PipeState::Verify { pipe, server }) => match server {
            ServerState::FindProcess { pipe: q, verifier: v } => {
                &&& q == pipe
                &&& v == verifier
                &&& (Milestone::PipeOpened { pipe }).reached(replies)
            },
            ServerState::Process { check } => {
                &&& verifier is LocalSystem
                &&& process_evidence(check, pipe, process_id, replies)
            },
            ServerState::Judge { process_id: asked } => {
                &&& verifier is Caller
                &&& asked == process_id
                &&& (Milestone::ServerFound { pipe, process_id }).reached(replies)
            },
        },
        PipeProgress::Waiting(PipeState::Close { .. }) => true,
        PipeProgress::Done(Ok(pipe)) => last_milestone(verifier, pipe, process_id).reached(
            replies,
        ),
        PipeProgress::Done(Err(_)) => true,
    }
}

proof fn lemma_pipe_evidence<E>(
    path: Seq<u16>,
    verifier: Verifier,
    replies: Seq<PipeReply<E>>,
) -> (process_id: u32)
    ensures
        pipe_evidence(
            path,
            verifier,
            process_id,
            replies,
            pipe_run(PipeState::Open { path, verifier }, replies),
        ),
    decreases replies.len(),
{
    if replies.len() == 0 {
        0
    } else {
        let before = replies.drop_last();
        let reply = replies.last();
        let id = lemma_pipe_evidence(path, verifier, before);
        assert(before.push(reply) == replies);
        match pipe_run(PipeState::Open { path, verifier }, before) {
            PipeProgress::Waiting(PipeState::Open { .. }) => {
                if let PipeReply::Opened { pipe, .. } = reply {
                    if pipe != -1 {
                        lemma_next_milestone(Milestone::PipeOpened { pipe }, before, reply);
                    }
                }
                id
            },
            PipeProgress::Waiting(PipeState::Verify { pipe, server }) => match server {
                ServerState::FindProcess { .. } => {
                    lemma_reached_stays(Milestone::PipeOpened { pipe }, before, reply);
                    match reply {
                        PipeReply::Server(ServerReply::Found { result, process_id, .. }) => {
                            if result != 0 && process_id != 0 {
                                lemma_next_milestone(
                                    Milestone::ServerFound { pipe, process_id },
                                    before,
                                    reply,
                                );
                            }
                            process_id
                        },
                        _ => id,
                    }
                },
                ServerState::Process { check } => {
                    if !has_failed(check) {
                        let reached = process_milestone(check, pipe, id);
                        lemma_reached_stays(reached, before, reply);
                        if let PipeReply::Server(ServerReply::Process(told)) = reply {
                            if let ProcessProgress::Waiting(next) = check.after(told) {
                                let milestone = process_milestone(next, pipe, id);
                                if !has_failed(next) && milestone != reached {
                                    lemma_next_milestone(milestone, before, reply);
                                }
                            }
                        }
                    }
                    id
                },
                ServerState::Judge { .. } => {
                    lemma_reached_stays(
                        Milestone::ServerFound { pipe, process_id: id },
                        before,
                        reply,
                    );
                    if let PipeReply::Server(ServerReply::Judged(Ok(_))) = reply {
                        lemma_next_milestone(
                            Milestone::CallerAccepted { pipe, process_id: id },
                            before,
                            reply,
                        );
                    }
                    id
                },
            },
            PipeProgress::Done(Ok(pipe)) => {
                lemma_reached_stays(last_milestone(verifier, pipe, id), before, reply);
                id
            },
            PipeProgress::Waiting(PipeState::Close { .. }) => id,
            PipeProgress::Done(Err(_)) => id,
        }
    }
}

/// Whatever the replies are, and in whatever order they come, a run that wants
/// LocalSystem hands out a pipe only after that pipe was opened, the process of its
/// server was found, and that process was found, step by step, to run as LocalSystem.
pub proof fn law_connected_only_to_local_system<E>(
    path: Seq<u16>,
    replies: Seq<PipeReply<E>>,
    pipe: isize,
)
    requires
        pipe_run(PipeState::Open { path, verifier: Verifier::LocalSystem }, replies)
            == PipeProgress::<E>::Done(Ok(pipe)),
    ensures
        exists|process_id: u32|
            #[trigger] (Milestone::SystemConfirmed { pipe, process_id }).reached(replies),
{
    let id = lemma_pipe_evidence(path, Verifier::LocalSystem, replies);
    assert((Milestone::SystemConfirmed { pipe, process_id: id }).reached(replies));
}

/// Whatever the replies are, and in whatever order they come, a run that leaves the
/// judgement to the caller hands out a pipe only after that pipe was opened, the process
/// of its server was found, and the caller accepted it.
pub proof fn law_connected_only_to_accepted_server<E>(
    path: Seq<u16>,
    replies: Seq<PipeReply<E>>,
    pipe: isize,
)
    requires
        pipe_run(PipeState::Open { path, verifier: Verifier::Caller }, replies)
            == PipeProgress::<E>::Done(Ok(pipe)),
    ensures
        exists|process_id: u32|
            #[trigger] (Milestone::CallerAccepted { pipe, process_id }).reached(replies),
{
    let id = lemma_pipe_evidence(path, Verifier::Caller, replies);
    assert((Milestone::CallerAccepted { pipe, process_id: id }).reached(replies));
}

/// Whatever the replies are, the process that is opened, or that the caller is asked to
/// judge, is one that the system has named as that of the server of the opened pipe.
pub proof fn law_judged_process_is_the_servers<E>(
    path: Seq<u16>,
    verifier: Verifier,
    replies: Seq<PipeReply<E>>,
    state: PipeState<E>,
)
    requires
        pipe_run(PipeState::Open { path, verifier }, replies) == PipeProgress::<E>::Waiting(state),
    ensures
        match state.call() {
            PipeCall::Server(
                ServerCall::Process(ProcessCall::OpenProcess { process_id, .. }),
            ) => {
                &&& verifier is LocalSystem
                &&& (Milestone::ServerFound { pipe: state->Verify_pipe, process_id }).reached(replies)
            },
            PipeCall::Server(ServerCall::Judge { process_id }) => {
                &&& verifier is Caller
                &&& (Milestone::ServerFound { pipe: state->Verify_pipe, process_id }).reached(replies)
            },
            _ => true,
        },
{
    let id = lemma_pipe_evidence(path, verifier, replies);
}

/// `reply` is one to `call`.
pub open spec fn answers<E>(reply: PipeReply<E>, call: PipeCall) -> bool {
    match call {
        PipeCall::Open { .. } => reply is Opened,
        PipeCall::Close { .. } => reply is Closed,
        PipeCall::Server(ServerCall::FindProcess { .. }) => {
            &&& reply matches PipeReply::Server(told)
            &&& told is Found
        },
        PipeCall::Server(ServerCall::Judge { .. }) => {
            &&& reply matches PipeReply::Server(told)
            &&& told is Judged
        },
        PipeCall::Server(ServerCall::Process(call)) => {
            &&& reply matches PipeReply::Server(ServerReply::Process(told))
            &&& match call {
                ProcessCall::OpenProcess { .. } => told is Process,
                ProcessCall::OpenToken { .. } => told is Token,
                ProcessCall::MeasureUser { .. } => told is Measured,
                ProcessCall::ReadUser { .. } => told is UserRead,
                ProcessCall::BuildSid { .. } => told is SidBuilt,
                ProcessCall::CompareSids => told is Compared,
                ProcessCall::Close { .. } => told is Closed,
            }
        },
    }
}

/// How many replies a run in `state` can still take.
pub open spec fn replies_left<E>(state: PipeState<E>) -> nat {
    match state {
        PipeState::Open { .. } => 11,
        PipeState::Verify { server: ServerState::FindProcess { .. }, .. } => 10,
        PipeState::Verify { server: ServerState::Judge { .. }, .. } => 2,
        PipeState::Verify { server: ServerState::Process { check }, .. } => match check {
            ProcessState::OpenProcess { .. } => 9,
            ProcessState::OpenToken { .. } => 8,
            ProcessState::MeasureUser { .. } => 7,
            ProcessState::ReadUser { .. } => 6,
            ProcessState::BuildSid { .. } => 5,
            ProcessState::CompareSids { .. } => 4,
            ProcessState::CloseToken { .. } => 3,
            ProcessState::CloseProcess { .. } => 2,
        },
        PipeState::Close { .. } => 1,
    }
}

/// Every run comes to an end: a reply to what is waited for ends it or leaves fewer
/// replies to take, and any other reply changes nothing.
pub proof fn law_every_answer_counts<E>(state: PipeState<E>, reply: PipeReply<E>)
    ensures
        !answers(reply, state.call()) ==> state.after(reply) == PipeProgress::<E>::Waiting(state),
        answers(reply, state.call()) ==> match state.after(reply) {
            PipeProgress::Waiting(next) => replies_left(next) < replies_left(state),
            PipeProgress::Done(_) => true,
        },
{
}

/// What goes to the system as the path of a pipe is the path that was given, with its
/// only NUL at its end.
pub proof fn law_pipe_path_is_wide_string<E>(path: Seq<u16>, verifier: Verifier)
    requires
        !path.contains(0),
    ensures
        (PipeState::<E>::Open { path: path.push(0), verifier }).call() matches PipeCall::Open {
            path: opened,
            ..
        } && is_wide_string(opened) && opened.drop_last() == path,
{
    assert(path.push(0).drop_last() == path);
}

/// A connection that has come to `progress` waits for `call`.
pub open spec fn pipe_waits_for<E>(progress: PipeProgress<E>, call: PipeCall) -> bool {
    &&& progress matches PipeProgress::Waiting(state)
    &&& state.call() == call
}

/// The verification of a server that has come to `progress` waits for `call`.
pub open spec fn server_waits_for<E>(progress: ServerProgress<E>, call: ServerCall) -> bool {
    &&& progress matches ServerProgress::Waiting(state)
    &&& state.call() == call
}

/// A run that asks after a process and has come to `progress` waits for `call`.
pub open spec fn process_waits_for(progress: ProcessProgress, call: ProcessCall) -> bool {
    &&& progress matches ProcessProgress::Waiting(state)
    &&& state.call() == call
}

/// After `replies`, a run that asks after a process closes the token, then the process, and
/// ends with `outcome`.
pub open spec fn process_closes(
    start: ProcessState,
    replies: Seq<ProcessReply>,
    process: isize,
    token: isize,
    outcome: Result<(), Error>,
) -> bool {
    let one = replies.push(ProcessReply::Closed);
    let two = one.push(ProcessReply::Closed);
    &&& process_waits_for(process_run(start, replies), ProcessCall::Close { handle: token })
    &&& process_waits_for(process_run(start, one), ProcessCall::Close { handle: process })
    &&& process_run(start, two) == ProcessProgress::Done(outcome)
}

/// Whatever the path and whoever judges the server, the first call of a connection opens
/// the pipe at that path, terminated: with both the right to read and the right to write
/// its data and no other right, shared for both, only where the pipe exists, and for
/// asynchronous use.
pub proof fn law_pipe_is_opened_to_read_and_write<E>(path: Seq<u16>, verifier: Verifier)
    ensures
        pipe_waits_for(
            pipe_run(PipeState::<E>::Open { path: path.push(0), verifier }, seq![]),
            PipeCall::Open {
                path: path.push(0),
                access: 3,
                share: 3,
                disposition: 3,
                flags: 0x4000_0000,
            },
        ),
        3u32 & 1 == 1,
        3u32 & 2 == 2,
{
    assert(1u32 | 2u32 == 3u32 && 3u32 & 1 == 1 && 3u32 & 2 == 2) by (bit_vector);
}

/// The question after a process, call by call. The process is opened for limited queries,
/// under the number that was given and for no child to inherit. The token of that process
/// is opened to be queried, the size of its user is asked for, and the user is read into
/// exactly that many bytes. The identity of LocalSystem is built into as many bytes as an
/// identity can take, and the two are compared. Then the token is closed, and then the
/// process. A call that fails skips to the closing of what was opened, and is reported
/// with the code it left behind.
pub proof fn law_process_call_by_call(process_id: u32, a: ProcessAnswers)
    ensures
        ({
            let start = ProcessState::OpenProcess { process_id };
            let s0 = Seq::<ProcessReply>::empty();
            let s1 = s0.push(ProcessReply::Process { process: a.process, code: a.process_code });
            let s2 = s1.push(
                ProcessReply::Token { result: a.token_result, token: a.token, code: a.token_code },
            );
            let s3 = s2.push(ProcessReply::Measured { size: a.size, code: a.size_code });
            let s4 = s3.push(ProcessReply::UserRead { result: a.user_result, code: a.user_code });
            let s5 = s4.push(ProcessReply::SidBuilt { result: a.sid_result, code: a.sid_code });
            let s6 = s5.push(ProcessReply::Compared { result: a.equal });
            let opened = a.process != 0 && a.token_result != 0;
            let measured = opened && a.size != 0;
            let read = measured && a.user_result != 0;
            let built = read && a.sid_result != 0;
            &&& process_waits_for(
                process_run(start, s0),
                ProcessCall::OpenProcess { access: 0x1000, inherit: 0, process_id },
            )
            &&& a.process == 0 ==> process_run(start, s1) == ProcessProgress::Done(
                Err(Error::Os { code: a.process_code }),
            )
            &&& a.process != 0 ==> process_waits_for(
                process_run(start, s1),
                ProcessCall::OpenToken { process: a.process, access: 8 },
            )
            &&& a.process != 0 && a.token_result == 0 ==> {
                &&& process_waits_for(
                    process_run(start, s2),
                    ProcessCall::Close { handle: a.process },
                )
                &&& process_run(start, s2.push(ProcessReply::Closed)) == ProcessProgress::Done(
                    Err(Error::Os { code: a.token_code }),
                )
            }
            &&& opened ==> process_waits_for(
                process_run(start, s2),
                ProcessCall::MeasureUser { token: a.token, class: 1 },
            )
            &&& opened && a.size == 0 ==> process_closes(
                start,
                s3,
                a.process,
                a.token,
                Err(Error::Os { code: a.size_code }),
            )
            &&& measured ==> process_waits_for(
                process_run(start, s3),
                ProcessCall::ReadUser { token: a.token, class: 1, size: a.size },
            )
            &&& measured && a.user_result == 0 ==> process_closes(
                start,
                s4,
                a.process,
                a.token,
                Err(Error::Os { code: a.user_code }),
            )
            &&& read ==> process_waits_for(
                process_run(start, s4),
                ProcessCall::BuildSid { kind: 22, size: 68 },
            )
            &&& read && a.sid_result == 0 ==> process_closes(
                start,
                s5,
                a.process,
                a.token,
                Err(Error::Os { code: a.sid_code }),
            )
            &&& built ==> process_waits_for(process_run(start, s5), ProcessCall::CompareSids)
            &&& built && a.equal == 0 ==> process_closes(
                start,
                s6,
                a.process,
                a.token,
                Err(Error::NotLocalSystem),
            )
            &&& built && a.equal != 0 ==> process_closes(start, s6, a.process, a.token, Ok(()))
        }),
{
    let start = ProcessState::OpenProcess { process_id };
    let c = ProcessReply::Closed;
    let r1 = ProcessReply::Process { process: a.process, code: a.process_code };
    let r2 = ProcessReply::Token { result: a.token_result, token: a.token, code: a.token_code };
    let r3 = ProcessReply::Measured { size: a.size, code: a.size_code };
    let r4 = ProcessReply::UserRead { result: a.user_result, code: a.user_code };
    let r5 = ProcessReply::SidBuilt { result: a.sid_result, code: a.sid_code };
    let r6 = ProcessReply::Compared { result: a.equal };
    let s0 = Seq::<ProcessReply>::empty();
    let s1 = s0.push(r1);
    let s2 = s1.push(r2);
    let s3 = s2.push(r3);
    let s4 = s3.push(r4);
    let s5 = s4.push(r5);
    let s6 = s5.push(r6);
    lemma_process_push(start, s0, r1);
    lemma_process_push(start, s1, r2);
    lemma_process_push(start, s2, r3);
    lemma_process_push(start, s3, r4);
    lemma_process_push(start, s4, r5);
    lemma_process_push(start, s5, r6);
    lemma_process_push(start, s2, c);
    lemma_process_push(start, s3, c);
    lemma_process_push(start, s3.push(c), c);
    lemma_process_push(start, s4, c);
    lemma_process_push(start, s4.push(c), c);
    lemma_process_push(start, s5, c);
    lemma_process_push(start, s5.push(c), c);
    lemma_process_push(start, s6, c);
    lemma_process_push(start, s6.push(c), c);
}

/// Where the verification of a server is after `replies`, in their order.
pub open spec fn server_run<E>(start: ServerState, replies: Seq<ServerReply<E>>) -> ServerProgress<E>
    decreases replies.len(),
{
    if replies.len() == 0 {
        ServerProgress::Waiting(start)
    } else {
        match server_run(start, replies.drop_last()) {
            ServerProgress::Waiting(state) => state.after(replies.last()),
            done => done,
        }
    }
}

/// Replies on a process as replies on a server.
pub open spec fn on_server<E>(replies: Seq<ProcessReply>) -> Seq<ServerReply<E>> {
    replies.map_values(|reply: ProcessReply| ServerReply::<E>::Process(reply))
}

proof fn lemma_server_push<E>(
    start: ServerState,
    replies: Seq<ServerReply<E>>,
    reply: ServerReply<E>,
)
    ensures
        server_run(start, replies.push(reply)) == (match server_run(start, replies) {
            ServerProgress::Waiting(state) => state.after(reply),
            done => done,
        }),
{
    assert(replies.push(reply).drop_last() == replies);
}

/// The verification of a server asks for the process at the other end of the very pipe it
/// was given, and fails with the code of that call where the call fails or names no
/// process.
pub proof fn law_server_is_found<E>(
    pipe: isize,
    verifier: Verifier,
    result: i32,
    process_id: u32,
    code: i32,
)
    ensures
        server_waits_for(
            server_run::<E>(ServerState::FindProcess { pipe, verifier }, seq![]),
            ServerCall::FindProcess { pipe },
        ),
        result == 0 || process_id == 0 ==> server_run::<E>(
            ServerState::FindProcess { pipe, verifier },
            seq![ServerReply::Found { result, process_id, code }],
        ) == ServerProgress::Done(Err(ConnectError::<E>::Refused(Error::Os { code }))),
{
    lemma_server_push::<E>(
        ServerState::FindProcess { pipe, verifier },
        seq![],
        ServerReply::Found { result, process_id, code },
    );
}

/// A server that the caller judges: the caller is asked about the very process that was
/// found, and what the caller says is the outcome.
pub proof fn law_server_is_judged<E>(
    pipe: isize,
    result: i32,
    process_id: u32,
    code: i32,
    error: E,
)
    requires
        result != 0,
        process_id != 0,
    ensures
        ({
            let start = ServerState::FindProcess { pipe, verifier: Verifier::Caller };
            let found = seq![ServerReply::<E>::Found { result, process_id, code }];
            &&& server_waits_for(server_run(start, found), ServerCall::Judge { process_id })
            &&& server_run(start, found.push(ServerReply::Judged(Ok(()))))
                == ServerProgress::<E>::Done(Ok(()))
            &&& server_run(start, found.push(ServerReply::Judged(Err(error))))
                == ServerProgress::<E>::Done(Err(ConnectError::Judged(error)))
        }),
{
    let start = ServerState::FindProcess { pipe, verifier: Verifier::Caller };
    let found = seq![ServerReply::<E>::Found { result, process_id, code }];
    lemma_server_push(start, seq![], ServerReply::<E>::Found { result, process_id, code });
    lemma_server_push(start, found, ServerReply::Judged(Ok(())));
    lemma_server_push(start, found, ServerReply::Judged(Err(error)));
}

/// A server that has to run as LocalSystem: the question is asked after the very process
/// that was found, its calls are handed on as they are, and its outcome is the outcome.
pub proof fn law_server_is_questioned<E>(
    pipe: isize,
    result: i32,
    process_id: u32,
    code: i32,
    replies: Seq<ProcessReply>,
)
    requires
        result != 0,
        process_id != 0,
    ensures
        ({
            let start = ServerState::FindProcess { pipe, verifier: Verifier::LocalSystem };
            let found = seq![ServerReply::<E>::Found { result, process_id, code }];
            match process_run(ProcessState::OpenProcess { process_id }, replies) {
                ProcessProgress::Waiting(check) => server_waits_for(
                    server_run(start, found + on_server::<E>(replies)),
                    ServerCall::Process(check.call()),
                ),
                ProcessProgress::Done(Ok(_)) => server_run(start, found + on_server::<E>(replies))
                    == ServerProgress::<E>::Done(Ok(())),
                ProcessProgress::Done(Err(error)) => server_run(
                    start,
                    found + on_server::<E>(replies),
                ) == ServerProgress::<E>::Done(Err(ConnectError::Refused(error))),
            }
        }),
{
    lemma_process_on_server::<E>(pipe, result, process_id, code, replies);
}

proof fn lemma_process_on_server<E>(
    pipe: isize,
    result: i32,
    process_id: u32,
    code: i32,
    replies: Seq<ProcessReply>,
)
    requires
        result != 0,
        process_id != 0,
    ensures
        server_run(
            ServerState::FindProcess { pipe, verifier: Verifier::LocalSystem },
            seq![ServerReply::<E>::Found { result, process_id, code }] + on_server::<E>(replies),
        ) == (match process_run(ProcessState::OpenProcess { process_id }, replies) {
            ProcessProgress::Waiting(check) => ServerProgress::<E>::Waiting(
                ServerState::Process { check },
            ),
            ProcessProgress::Done(Ok(_)) => ServerProgress::<E>::Done(Ok(())),
            ProcessProgress::Done(Err(error)) => ServerProgress::<E>::Done(
                Err(ConnectError::Refused(error)),
            ),
        }),
    decreases replies.len(),
{
    let start = ServerState::FindProcess { pipe, verifier: Verifier::LocalSystem };
    let reply = ServerReply::<E>::Found { result, process_id, code };
    let all = seq![reply] + on_server::<E>(replies);
    if replies.len() == 0 {
        lemma_server_push(start, seq![], reply);
        assert(all == seq![reply]);
    } else {
        lemma_process_on_server::<E>(pipe, result, process_id, code, replies.drop_last());
        assert(all.drop_last() == seq![reply] + on_server::<E>(replies.drop_last()));
        assert(all.last() == ServerReply::<E>::Process(replies.last()));
    }
}

/// Replies on a server as replies on a pipe.
pub open spec fn server_on_pipe<E>(replies: Seq<ServerReply<E>>) -> Seq<PipeReply<E>> {
    replies.map_values(|reply: ServerReply<E>| PipeReply::<E>::Server(reply))
}

proof fn lemma_server_on_pipe<E>(
    path: Seq<u16>,
    verifier: Verifier,
    pipe: isize,
    code: i32,
    replies: Seq<ServerReply<E>>,
)
    requires
        pipe != -1,
    ensures
        pipe_run(
            PipeState::Open { path, verifier },
            seq![PipeReply::<E>::Opened { pipe, code }] + server_on_pipe(replies),
        ) == (match server_run(ServerState::FindProcess { pipe, verifier }, replies) {
            ServerProgress::Waiting(server) => PipeProgress::<E>::Waiting(
                PipeState::Verify { pipe, server },
            ),
            ServerProgress::Done(Ok(_)) => PipeProgress::<E>::Done(Ok(pipe)),
            ServerProgress::Done(Err(error)) => PipeProgress::<E>::Waiting(
                PipeState::Close { pipe, error },
            ),
        }),
    decreases replies.len(),
{
    let start = PipeState::<E>::Open { path, verifier };
    let reply = PipeReply::<E>::Opened { pipe, code };
    let all = seq![reply] + server_on_pipe(replies);
    if replies.len() == 0 {
        lemma_pipe_push(start, seq![], reply);
        assert(all == seq![reply]);
    } else {
        lemma_server_on_pipe(path, verifier, pipe, code, replies.drop_last());
        assert(all.drop_last() == seq![reply] + server_on_pipe(replies.drop_last()));
        assert(all.last() == PipeReply::<E>::Server(replies.last()));
    }
}

/// A pipe that cannot be opened is reported with the code of that call, and nothing more is
/// asked for. Once it is open, its server is verified through the very handle that was
/// told, and what the verification asks for is handed on as it is. A server that passes
/// has that same handle handed out, and one that does not has it closed, after which the
/// error of the verification is reported as it is.
pub proof fn law_connection_call_by_call<E>(
    path: Seq<u16>,
    verifier: Verifier,
    pipe: isize,
    code: i32,
    replies: Seq<ServerReply<E>>,
)
    ensures
        ({
            let start = PipeState::<E>::Open { path, verifier };
            let opened = seq![PipeReply::<E>::Opened { pipe, code }];
            let all = opened + server_on_pipe(replies);
            &&& pipe == -1 ==> pipe_run(start, opened) == PipeProgress::<E>::Done(
                Err(ConnectError::Refused(Error::Os { code })),
            )
            &&& pipe != -1 ==> pipe_waits_for(
                pipe_run(start, opened),
                PipeCall::Server(ServerCall::FindProcess { pipe }),
            )
            &&& pipe != -1 ==> match server_run(
                ServerState::FindProcess { pipe, verifier },
                replies,
            ) {
                ServerProgress::Waiting(server) => pipe_waits_for(
                    pipe_run(start, all),
                    PipeCall::Server(server.call()),
                ),
                ServerProgress::Done(Ok(_)) => pipe_run(start, all) == PipeProgress::<E>::Done(
                    Ok(pipe),
                ),
                ServerProgress::Done(Err(error)) => {
                    &&& pipe_waits_for(pipe_run(start, all), PipeCall::Close { pipe })
                    &&& pipe_run(start, all.push(PipeReply::Closed)) == PipeProgress::<E>::Done(
                        Err(error),
                    )
                },
            }
        }),
{
    let start = PipeState::<E>::Open { path, verifier };
    let reply = PipeReply::<E>::Opened { pipe, code };
    let all = seq![reply] + server_on_pipe(replies);
    lemma_pipe_push(start, seq![], reply);
    lemma_pipe_push(start, all, PipeReply::Closed);
    if pipe != -1 {
        lemma_server_on_pipe(path, verifier, pipe, code, replies);
    }
}

/// What a run that asks after a process has been told, in the replies to its own calls.
pub struct ProcessTold {
    /// The handle of the process.
    pub process: Option<isize>,
    /// The handle of its token.
    pub token: Option<isize>,
    /// The size of its user.
    pub size: Option<u32>,
}

/// What a connection has been told, in the replies to its own calls.
pub struct PipeTold {
    /// The handle of the pipe.
    pub pipe: Option<isize>,
    /// The number of the server's process.
    pub process_id: Option<u32>,
    /// What it has been told of that process.
    pub process: ProcessTold,
}

impl ProcessTold {
    /// Nothing.
    pub open spec fn nothing() -> ProcessTold {
        ProcessTold { process: None, token: None, size: None }
    }

    /// What is known once `call` is answered with `reply`. What was told before stays.
    pub open spec fn hears(self, call: ProcessCall, reply: ProcessReply) -> ProcessTold {
        match (call, reply) {
            (
                ProcessCall::OpenProcess { .. },
                ProcessReply::Process { process, .. },
            ) if self.process is None => ProcessTold { process: Some(process), ..self },
            (
                ProcessCall::OpenToken { .. },
                ProcessReply::Token { token, .. },
            ) if self.token is None => ProcessTold { token: Some(token), ..self },
            (
                ProcessCall::MeasureUser { .. },
                ProcessReply::Measured { size, .. },
            ) if self.size is None => ProcessTold { size: Some(size), ..self },
            _ => self,
        }
    }

    /// `call` names only the process `process_id`, the handles and the size that have
    /// been told, and none of them where it stands for nothing.
    pub open spec fn explains(self, call: ProcessCall, process_id: u32) -> bool {
        match call {
            ProcessCall::OpenProcess { access, inherit, process_id: asked } => {
                &&& access == 0x1000
                &&& inherit == 0
                &&& asked == process_id
            },
            ProcessCall::OpenToken { process, access } => {
                &&& access == 8
                &&& process != 0
                &&& self.process == Some(process)
            },
            ProcessCall::MeasureUser { token, class } => {
                &&& class == 1
                &&& self.token == Some(token)
            },
            ProcessCall::ReadUser { token, class, size } => {
                &&& class == 1
                &&& size != 0
                &&& self.token == Some(token)
                &&& self.size == Some(size)
            },
            ProcessCall::BuildSid { kind, size } => kind == 22 && size == 68,
            ProcessCall::CompareSids => true,
            ProcessCall::Close { handle } => self.token == Some(handle) || self.process == Some(
                handle,
            ),
        }
    }
}

/// What a run that asks after a process has been told after `replies`.
pub open spec fn process_told(start: ProcessState, replies: Seq<ProcessReply>) -> ProcessTold
    decreases replies.len(),
{
    if replies.len() == 0 {
        ProcessTold::nothing()
    } else {
        let before = process_told(start, replies.drop_last());
        match process_run(start, replies.drop_last()) {
            ProcessProgress::Waiting(state) => before.hears(state.call(), replies.last()),
            ProcessProgress::Done(_) => before,
        }
    }
}

/// What a connection has been told after `replies`.
pub open spec fn pipe_told<E>(start: PipeState<E>, replies: Seq<PipeReply<E>>) -> PipeTold
    decreases replies.len(),
{
    if replies.len() == 0 {
        PipeTold { pipe: None, process_id: None, process: ProcessTold::nothing() }
    } else {
        let before = pipe_told(start, replies.drop_last());
        match pipe_run(start, replies.drop_last()) {
            PipeProgress::Waiting(state) => match (state.call(), replies.last()) {
                (
                    PipeCall::Open { .. },
                    PipeReply::Opened { pipe, .. },
                ) if before.pipe is None => PipeTold { pipe: Some(pipe), ..before },
                (
                    PipeCall::Server(ServerCall::FindProcess { .. }),
                    PipeReply::Server(ServerReply::Found { process_id, .. }),
                ) if before.process_id is None => PipeTold {
                    process_id: Some(process_id),
                    ..before
                },
                (
                    PipeCall::Server(ServerCall::Process(call)),
                    PipeReply::Server(ServerReply::Process(reply)),
                ) => PipeTold { process: before.process.hears(call, reply), ..before },
                _ => before,
            },
            PipeProgress::Done(_) => before,
        }
    }
}

/// What has been told where the question after a process stands at `check`.
spec fn told_at(check: ProcessState, process_id: u32, told: ProcessTold) -> bool {
    match check {
        ProcessState::OpenProcess { process_id: asked } => {
            &&& asked == process_id
            &&& told == ProcessTold::nothing()
        },
        ProcessState::OpenToken { process } => {
            &&& process != 0
            &&& told == (ProcessTold { process: Some(process), token: None, size: None })
        },
        ProcessState::MeasureUser { process, token } => {
            &&& process != 0
            &&& told == (ProcessTold { process: Some(process), token: Some(token), size: None })
        },
        ProcessState::ReadUser { process, token, size } => {
            &&& process != 0
            &&& size != 0
            &&& told == (ProcessTold {
                process: Some(process),
                token: Some(token),
                size: Some(size),
            })
        },
        ProcessState::BuildSid { process, token } => {
            &&& told.process == Some(process)
            &&& told.token == Some(token)
        },
        ProcessState::CompareSids { process, token } => {
            &&& told.process == Some(process)
            &&& told.token == Some(token)
        },
        ProcessState::CloseToken { process, token, .. } => {
            &&& told.process == Some(process)
            &&& told.token == Some(token)
        },
        ProcessState::CloseProcess { process, .. } => told.process == Some(process),
    }
}

proof fn lemma_told_at(
    check: ProcessState,
    process_id: u32,
    told: ProcessTold,
    reply: ProcessReply,
)
    requires
        told_at(check, process_id, told),
    ensures
        told.explains(check.call(), process_id),
        check.after(reply) matches ProcessProgress::Waiting(next) ==> told_at(
            next,
            process_id,
            told.hears(check.call(), reply),
        ),
{
}

proof fn lemma_process_told(process_id: u32, replies: Seq<ProcessReply>)
    ensures
        process_run(ProcessState::OpenProcess { process_id }, replies)
            matches ProcessProgress::Waiting(check) ==> told_at(
            check,
            process_id,
            process_told(ProcessState::OpenProcess { process_id }, replies),
        ),
    decreases replies.len(),
{
    let start = ProcessState::OpenProcess { process_id };
    if replies.len() > 0 {
        lemma_process_told(process_id, replies.drop_last());
        if let ProcessProgress::Waiting(check) = process_run(start, replies.drop_last()) {
            lemma_told_at(
                check,
                process_id,
                process_told(start, replies.drop_last()),
                replies.last(),
            );
        }
    }
}

/// Whatever the replies are, and in whatever order they come, the question after a process
/// is asked about the process that was given and about what the replies told: the token
/// is that of the handle that was told, and the user is read from the token that was told
/// into exactly as many bytes as were told, which are not none. Only handles that were
/// told are closed.
pub proof fn law_process_calls_use_what_was_told(process_id: u32, replies: Seq<ProcessReply>)
    ensures
        process_run(ProcessState::OpenProcess { process_id }, replies)
            matches ProcessProgress::Waiting(state) ==> process_told(
            ProcessState::OpenProcess { process_id },
            replies,
        ).explains(state.call(), process_id),
{
    lemma_process_told(process_id, replies);
    if let ProcessProgress::Waiting(check) = process_run(
        ProcessState::OpenProcess { process_id },
        replies,
    ) {
        let told = process_told(ProcessState::OpenProcess { process_id }, replies);
        lemma_told_at(check, process_id, told, ProcessReply::Closed);
    }
}

/// What has been told where a connection has come to `progress`.
spec fn pipe_told_at<E>(
    path: Seq<u16>,
    verifier: Verifier,
    progress: PipeProgress<E>,
    told: PipeTold,
) -> bool {
    match progress {
        PipeProgress::Waiting(PipeState::Open { path: p, verifier: v }) => {
            &&& p == path
            &&& v == verifier
            &&& told == (PipeTold {
                pipe: None,
                process_id: None,
                process: ProcessTold::nothing(),
            })
        },
        PipeProgress::Waiting(PipeState::Verify { pipe, server }) => {
            &&& pipe != -1
            &&& told.pipe == Some(pipe)
            &&& match server {
                ServerState::FindProcess { pipe: asked, verifier: v } => {
                    &&& asked == pipe
                    &&& v == verifier
                    &&& told.process_id is None
                    &&& told.process == ProcessTold::nothing()
                },
                ServerState::Process { check } => {
                    &&& verifier is LocalSystem
                    &&& told.process_id matches Some(process_id)
                    &&& process_id != 0
                    &&& told_at(check, process_id, told.process)
                },
                ServerState::Judge { process_id } => {
                    &&& verifier is Caller
                    &&& process_id != 0
                    &&& told.process_id == Some(process_id)
                },
            }
        },
        PipeProgress::Waiting(PipeState::Close { pipe, .. }) => {
            &&& pipe != -1
            &&& told.pipe == Some(pipe)
        },
        PipeProgress::Done(Ok(pipe)) => {
            &&& pipe != -1
            &&& told.pipe == Some(pipe)
        },
        PipeProgress::Done(Err(_)) => true,
    }
}

proof fn lemma_pipe_told<E>(path: Seq<u16>, verifier: Verifier, replies: Seq<PipeReply<E>>)
    ensures
        pipe_told_at(
            path,
            verifier,
            pipe_run(PipeState::<E>::Open { path, verifier }, replies),
            pipe_told(PipeState::<E>::Open { path, verifier }, replies),
        ),
    decreases replies.len(),
{
    let start = PipeState::<E>::Open { path, verifier };
    if replies.len() > 0 {
        let before = replies.drop_last();
        lemma_pipe_told(path, verifier, before);
        if let PipeProgress::Waiting(
            PipeState::Verify { server: ServerState::Process { check }, .. },
        ) = pipe_run(start, before) {
            if let PipeReply::Server(ServerReply::Process(reply)) = replies.last() {
                let told = pipe_told(start, before);
                lemma_told_at(check, told.process_id->0, told.process, reply);
            }
        }
    }
}

/// Whatever the path, the verifier and the replies are, and in whatever order the replies
/// come, a connection asks only about what its replies told. The server is looked for
/// through the handle that the opening of the pipe told, and that same handle is the one
/// that is handed out or closed. The process that is judged or asked after is the one
/// that was told as that of the server, by whoever has to judge it.
pub proof fn law_connection_uses_what_was_told<E>(
    path: Seq<u16>,
    verifier: Verifier,
    replies: Seq<PipeReply<E>>,
)
    ensures
        ({
            let told = pipe_told(PipeState::<E>::Open { path, verifier }, replies);
            match pipe_run(PipeState::<E>::Open { path, verifier }, replies) {
                PipeProgress::Waiting(state) => match state.call() {
                    PipeCall::Open { path: opened, access, share, disposition, flags } => {
                        &&& opened == path
                        &&& access == 3
                        &&& share == 3
                        &&& disposition == 3
                        &&& flags == 0x4000_0000
                        &&& told.pipe is None
                    },
                    PipeCall::Server(ServerCall::FindProcess { pipe }) => {
                        &&& pipe != -1
                        &&& told.pipe == Some(pipe)
                    },
                    PipeCall::Server(ServerCall::Process(call)) => {
                        &&& verifier is LocalSystem
                        &&& told.process_id matches Some(process_id)
                        &&& process_id != 0
                        &&& told.process.explains(call, process_id)
                    },
                    PipeCall::Server(ServerCall::Judge { process_id }) => {
                        &&& verifier is Caller
                        &&& process_id != 0
                        &&& told.process_id == Some(process_id)
                    },
                    PipeCall::Close { pipe } => {
                        &&& pipe != -1
                        &&& told.pipe == Some(pipe)
                    },
                },
                PipeProgress::Done(Ok(pipe)) => {
                    &&& pipe != -1
                    &&& told.pipe == Some(pipe)
                },
                PipeProgress::Done(Err(_)) => true,
            }
        }),
{
    let start = PipeState::<E>::Open { path, verifier };
    assert(1u32 | 2u32 == 3u32) by (bit_vector);
    lemma_pipe_told(path, verifier, replies);
    if let PipeProgress::Waiting(
        PipeState::Verify { server: ServerState::Process { check }, .. },
    ) = pipe_run(start, replies) {
        let told = pipe_told(start, replies);
        lemma_told_at(check, told.process_id->0, told.process, ProcessReply::Closed);
    }
}

/// What was told of a pipe stays, whatever else is told.
pub proof fn law_what_was_told_stays<E>(
    path: Seq<u16>,
    verifier: Verifier,
    replies: Seq<PipeReply<E>>,
    reply: PipeReply<E>,
)
    ensures
        ({
            let before = pipe_told(PipeState::<E>::Open { path, verifier }, replies);
            let after = pipe_told(PipeState::<E>::Open { path, verifier }, replies.push(reply));
            &&& before.pipe is Some ==> after.pipe == before.pipe
            &&& before.process_id is Some ==> after.process_id == before.process_id
            &&& before.process.process is Some ==> after.process.process == before.process.process
            &&& before.process.token is Some ==> after.process.token == before.process.token
            &&& before.process.size is Some ==> after.process.size == before.process.size
        }),
{
    assert(replies.push(reply).drop_last() == replies);
}

/// A reply to another call than the one that the question after a process, or the
/// verification of a server, waits for changes nothing.
pub proof fn law_server_keeps_to_its_call<E>(
    process: ProcessState,
    told: ProcessReply,
    server: ServerState,
    reply: ServerReply<E>,
)
    ensures
        !answers(
            PipeReply::<E>::Server(ServerReply::Process(told)),
            PipeCall::Server(ServerCall::Process(process.call())),
        ) ==> process.after(told) == ProcessProgress::Waiting(process),
        !answers(PipeReply::Server(reply), PipeCall::Server(server.call())) ==> server.after(reply)
            == ServerProgress::<E>::Waiting(server),
{
}

/// What is said of a request is said of the very arguments that it hands out, and what is
/// said of a step, of the very run or outcome in it.
pub proof fn law_pipe_views<E>(
    path: &[u16],
    access: u32,
    share: u32,
    disposition: u32,
    flags: u32,
    call: ServerCall,
    pipe: isize,
    process: ProcessRun,
    asked: Result<(), Error>,
    server: ServerRun,
    verified: Result<(), ConnectError<E>>,
    run: PipeRun<E>,
    connected: Result<isize, ConnectError<E>>,
)
    ensures
        (PipeRequest::Open { path, access, share, disposition, flags })@ == (PipeCall::Open {
            path: path@,
            access,
            share,
            disposition,
            flags,
        }),
        PipeRequest::Server(call)@ == PipeCall::Server(call),
        (PipeRequest::Close { pipe })@ == (PipeCall::Close { pipe }),
        ProcessStep::Waiting(process)@ == ProcessProgress::Waiting(process@),
        ProcessStep::Done(asked)@ == ProcessProgress::Done(asked),
        ServerStep::<E>::Waiting(server)@ == ServerProgress::<E>::Waiting(server@),
        ServerStep::<E>::Done(verified)@ == ServerProgress::<E>::Done(verified),
        PipeStep::<E>::Waiting(run)@ == PipeProgress::<E>::Waiting(run@),
        PipeStep::<E>::Done(connected)@ == PipeProgress::<E>::Done(connected),
{
}

} // verus!
