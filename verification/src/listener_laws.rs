//! What holds of whole runs of the listener protocols.

use vstd::multiset::Multiset;
use vstd::prelude::*;

use crate::error::Error;
use crate::host::{HostFlags, AT_SYMLINK_NOFOLLOW_ANY};
use crate::listener::{
    mode_change, validation, ListenerProgress, ListenerRun, ListenerState, ListenerStep,
};
use crate::parent::{
    FoundParent, ListenerCall, ListenerReply, ListenerRequest, ParentProgress, ParentRun,
    ParentState, ParentStep, SecureParent,
};
use crate::paths::{split_path, PathHalves};
use crate::status::{
    law_secure_directory_in_numbers, law_verified_socket_in_numbers, secure_directory,
    verified_socket, FileStatus,
};
use crate::text::is_c_string;

verus! {

/// Where a run that has come to `progress` is after one more reply.
pub open spec fn resume(progress: ListenerProgress, reply: ListenerReply) -> ListenerProgress {
    match progress {
        ListenerProgress::Waiting(state) => state.after(reply),
        ListenerProgress::Done(_) => progress,
    }
}

/// Where a run from `start` is after `replies`, in their order.
pub open spec fn listener_run(
    start: ListenerState,
    replies: Seq<ListenerReply>,
) -> ListenerProgress
    decreases replies.len(),
{
    if replies.len() == 0 {
        ListenerProgress::Waiting(start)
    } else {
        resume(listener_run(start, replies.drop_last()), replies.last())
    }
}

/// What the system says of a listener's directory.
pub struct ParentAnswers {
    pub fd: libc::c_int,
    pub open_code: i32,
    pub result: libc::c_int,
    pub code: i32,
    pub status: FileStatus,
    pub user: libc::uid_t,
}

/// What the system says of a listener's entry.
pub struct EntryAnswers {
    pub change_result: libc::c_int,
    pub change_code: i32,
    pub result: libc::c_int,
    pub code: i32,
    pub status: FileStatus,
    pub user: libc::uid_t,
}

impl ParentAnswers {
    /// The answers as replies, in the order of the calls.
    pub open spec fn replies(self) -> Seq<ListenerReply> {
        seq![
            ListenerReply::Opened { fd: self.fd, code: self.open_code },
            ListenerReply::Inspected { result: self.result, code: self.code, status: self.status },
            ListenerReply::Identified { user: self.user },
        ]
    }

    /// What is to come of a directory of which the system says this.
    pub open spec fn outcome(self) -> Result<(), Error> {
        if self.fd < 0 {
            Err(Error::Os { code: self.open_code })
        } else if self.result != 0 {
            Err(Error::Os { code: self.code })
        } else if !secure_directory(self.status, self.user) {
            Err(Error::ParentNotSecure)
        } else {
            Ok(())
        }
    }
}

impl EntryAnswers {
    /// The answers as replies, in the order of the calls.
    pub open spec fn replies(self) -> Seq<ListenerReply> {
        seq![
            ListenerReply::Changed { result: self.change_result, code: self.change_code },
            ListenerReply::Inspected { result: self.result, code: self.code, status: self.status },
            ListenerReply::Identified { user: self.user },
        ]
    }

    /// What is to come of an entry in a secure directory of which the system says this
    /// when it is given `mode`.
    pub open spec fn outcome(self, mode: libc::mode_t) -> Result<(), Error> {
        if self.change_result != 0 {
            Err(Error::Os { code: self.change_code })
        } else if self.result != 0 {
            Err(Error::Os { code: self.code })
        } else if !verified_socket(self.status, self.user, mode) {
            Err(Error::EntryNotVerified)
        } else {
            Ok(())
        }
    }
}

/// What is to come of a mode change: a directory that is refused ends it, and otherwise
/// the entry decides.
pub open spec fn mode_change_outcome(
    parent: ParentAnswers,
    entry: EntryAnswers,
    mode: libc::mode_t,
) -> Result<(), Error> {
    match parent.outcome() {
        Ok(_) => entry.outcome(mode),
        Err(error) => Err(error),
    }
}

proof fn lemma_run_push(
    start: ListenerState,
    replies: Seq<ListenerReply>,
    reply: ListenerReply,
)
    ensures
        listener_run(start, replies.push(reply)) == resume(listener_run(start, replies), reply),
{
    assert(replies.push(reply).drop_last() == replies);
}

proof fn lemma_run_three(
    start: ListenerState,
    replies: Seq<ListenerReply>,
    a: ListenerReply,
    b: ListenerReply,
    c: ListenerReply,
)
    ensures
        listener_run(start, replies + seq![a, b, c]) == resume(
            resume(resume(listener_run(start, replies), a), b),
            c,
        ),
{
    lemma_run_push(start, replies, a);
    lemma_run_push(start, replies.push(a), b);
    lemma_run_push(start, replies.push(a).push(b), c);
    assert(replies + seq![a, b, c] == replies.push(a).push(b).push(c));
}

/// The check of a listener's directory succeeds exactly on a directory that could be
/// opened and read and that is secure, and otherwise reports the first thing amiss.
pub proof fn law_validation_outcome(path: PathHalves, host: HostFlags, parent: ParentAnswers)
    ensures
        listener_run(validation(path, host), parent.replies().push(ListenerReply::Closed))
            == ListenerProgress::Done(parent.outcome()),
{
    let start = validation(path, host);
    let r = parent.replies();
    lemma_run_three(start, seq![], r[0], r[1], r[2]);
    assert(seq![] + seq![r[0], r[1], r[2]] == r);
    lemma_run_push(start, r, ListenerReply::Closed);
}

/// The change of a bound socket's mode succeeds exactly where the directory is secure,
/// the change went through, and the entry then is a socket of the effective user with
/// exactly the permissions asked for; otherwise it reports the first thing amiss.
pub proof fn law_mode_change_outcome(
    path: PathHalves,
    host: HostFlags,
    mode: libc::mode_t,
    parent: ParentAnswers,
    entry: EntryAnswers,
)
    ensures
        listener_run(
            mode_change(path, host, mode),
            (parent.replies() + entry.replies()).push(ListenerReply::Closed),
        ) == ListenerProgress::Done(mode_change_outcome(parent, entry, mode)),
{
    let start = mode_change(path, host, mode);
    let p = parent.replies();
    let e = entry.replies();
    lemma_run_three(start, seq![], p[0], p[1], p[2]);
    assert(seq![] + seq![p[0], p[1], p[2]] == p);
    lemma_run_three(start, p, e[0], e[1], e[2]);
    lemma_run_push(start, p + e, ListenerReply::Closed);
}

/// Where a run that opens and checks a listener's directory is after `replies`.
pub open spec fn parent_run(start: ParentState, replies: Seq<ListenerReply>) -> ParentProgress
    decreases replies.len(),
{
    if replies.len() == 0 {
        ParentProgress::Waiting(start)
    } else {
        match parent_run(start, replies.drop_last()) {
            ParentProgress::Waiting(state) => state.after(replies.last()),
            done => done,
        }
    }
}

/// What is open after `reply` to `call`, where `open` was open before it.
pub open spec fn open_after(
    open: Multiset<libc::c_int>,
    call: ListenerCall,
    reply: ListenerReply,
) -> Multiset<libc::c_int> {
    match (call, reply) {
        (ListenerCall::Open { .. }, ListenerReply::Opened { fd, .. }) => if fd >= 0 {
            open.insert(fd)
        } else {
            open
        },
        (ListenerCall::Close { fd }, ListenerReply::Closed) => open.remove(fd),
        _ => open,
    }
}

/// The descriptors that a run from `start` has opened and not closed after `replies`.
pub open spec fn open_descriptors(
    start: ListenerState,
    replies: Seq<ListenerReply>,
) -> Multiset<libc::c_int>
    decreases replies.len(),
{
    if replies.len() == 0 {
        Multiset::empty()
    } else {
        let before = open_descriptors(start, replies.drop_last());
        match listener_run(start, replies.drop_last()) {
            ListenerProgress::Waiting(state) => open_after(before, state.call(), replies.last()),
            ListenerProgress::Done(_) => before,
        }
    }
}

/// The descriptors that a run that opens and checks a listener's directory has opened
/// and not closed after `replies`.
pub open spec fn parent_descriptors(
    start: ParentState,
    replies: Seq<ListenerReply>,
) -> Multiset<libc::c_int>
    decreases replies.len(),
{
    if replies.len() == 0 {
        Multiset::empty()
    } else {
        let before = parent_descriptors(start, replies.drop_last());
        match parent_run(start, replies.drop_last()) {
            ParentProgress::Waiting(state) => open_after(before, state.call(), replies.last()),
            ParentProgress::Done(_) => before,
        }
    }
}

/// What a state of the check of a directory holds open.
spec fn parent_holds(check: ParentState) -> Multiset<libc::c_int> {
    match check {
        ParentState::Open { .. } => Multiset::empty(),
        ParentState::Inspect { fd, .. } => Multiset::empty().insert(fd),
        ParentState::Identify { fd, .. } => Multiset::empty().insert(fd),
        ParentState::Close { fd, .. } => Multiset::empty().insert(fd),
    }
}

spec fn listener_holds(progress: ListenerProgress) -> Multiset<libc::c_int> {
    match progress {
        ListenerProgress::Waiting(ListenerState::Validate { check }) => parent_holds(check),
        ListenerProgress::Waiting(ListenerState::Secure { check, .. }) => parent_holds(check),
        ListenerProgress::Waiting(
            ListenerState::ChangeMode { parent, .. },
        ) => Multiset::empty().insert(parent.fd),
        ListenerProgress::Waiting(
            ListenerState::InspectEntry { parent, .. },
        ) => Multiset::empty().insert(parent.fd),
        ListenerProgress::Waiting(
            ListenerState::IdentifyEntry { fd, .. },
        ) => Multiset::empty().insert(fd),
        ListenerProgress::Waiting(ListenerState::Close { fd, .. }) => Multiset::empty().insert(fd),
        ListenerProgress::Done(_) => Multiset::empty(),
    }
}

proof fn lemma_insert_remove(fd: libc::c_int)
    ensures
        Multiset::<libc::c_int>::empty().insert(fd).remove(fd) == Multiset::<libc::c_int>::empty(),
{
    broadcast use vstd::multiset::group_multiset_axioms;

    assert(Multiset::<libc::c_int>::empty().insert(fd).remove(fd) =~= Multiset::<
        libc::c_int,
    >::empty());
}

proof fn lemma_open_descriptors(start: ListenerState, replies: Seq<ListenerReply>)
    requires
        listener_holds(ListenerProgress::Waiting(start)) == Multiset::<libc::c_int>::empty(),
    ensures
        open_descriptors(start, replies) == listener_holds(listener_run(start, replies)),
    decreases replies.len(),
{
    if replies.len() > 0 {
        lemma_open_descriptors(start, replies.drop_last());
        if let ListenerProgress::Waiting(state) = listener_run(start, replies.drop_last()) {
            if let ListenerCall::Close { fd } = state.call() {
                lemma_insert_remove(fd);
            }
        }
    }
}

/// Whatever the replies are, and in whatever order they come, a run of either protocol
/// that is over has closed the directory that it opened: no descriptor stays open, be
/// the outcome success or failure.
pub proof fn law_no_descriptor_stays_open(
    path: PathHalves,
    host: HostFlags,
    mode: libc::mode_t,
    replies: Seq<ListenerReply>,
)
    ensures
        listener_run(validation(path, host), replies) is Done ==> open_descriptors(
            validation(path, host),
            replies,
        ) == Multiset::<libc::c_int>::empty(),
        listener_run(mode_change(path, host, mode), replies) is Done ==> open_descriptors(
            mode_change(path, host, mode),
            replies,
        ) == Multiset::<libc::c_int>::empty(),
{
    lemma_open_descriptors(validation(path, host), replies);
    lemma_open_descriptors(mode_change(path, host, mode), replies);
}

/// Whatever the replies are, and in whatever order they come, a run that opens and checks
/// a directory leaves none open where it ends in an error, and where it succeeds, only
/// the one that it hands out.
pub proof fn law_only_a_secure_parent_stays_open(
    path: PathHalves,
    host: HostFlags,
    replies: Seq<ListenerReply>,
)
    ensures
        match parent_run(ParentState::Open { path, host }, replies) {
            ParentProgress::Waiting(state) => true,
            ParentProgress::Done(Err(_)) => parent_descriptors(
                ParentState::Open { path, host },
                replies,
            ) == Multiset::<libc::c_int>::empty(),
            ParentProgress::Done(Ok(found)) => parent_descriptors(
                ParentState::Open { path, host },
                replies,
            ) == Multiset::<libc::c_int>::empty().insert(found.fd),
        },
{
    lemma_parent_descriptors(ParentState::Open { path, host }, replies);
}

spec fn parent_progress_holds(progress: ParentProgress) -> Multiset<libc::c_int> {
    match progress {
        ParentProgress::Waiting(check) => parent_holds(check),
        ParentProgress::Done(Ok(found)) => Multiset::empty().insert(found.fd),
        ParentProgress::Done(Err(_)) => Multiset::empty(),
    }
}

proof fn lemma_parent_descriptors(start: ParentState, replies: Seq<ListenerReply>)
    requires
        start is Open,
    ensures
        parent_descriptors(start, replies) == parent_progress_holds(parent_run(start, replies)),
    decreases replies.len(),
{
    if replies.len() > 0 {
        lemma_parent_descriptors(start, replies.drop_last());
        if let ParentProgress::Waiting(ParentState::Close { fd, .. }) = parent_run(
            start,
            replies.drop_last(),
        ) {
            lemma_insert_remove(fd);
        }
    }
}

/// A directory is handed out as secure exactly where its check succeeds, together with
/// the descriptor under which it was opened and the name of the listener in it. The
/// error carries a code of the system exactly where the directory could not be opened or
/// its status could not be read, and then it is the code of that call.
pub proof fn law_secure_parent_outcome(path: PathHalves, host: HostFlags, parent: ParentAnswers)
    ensures
        parent_run(ParentState::Open { path, host }, parent.replies().push(ListenerReply::Closed))
            == ParentProgress::Done(
            match parent.outcome() {
                Ok(_) => Ok(FoundParent { fd: parent.fd, name: path.name }),
                Err(error) => Err(error),
            },
        ),
        parent.outcome() matches Err(Error::Os { code }) ==> {
            ||| parent.fd < 0 && code == parent.open_code
            ||| parent.fd >= 0 && parent.result != 0 && code == parent.code
        },
        parent.fd < 0 || parent.result != 0 ==> parent.outcome() matches Err(Error::Os { .. }),
{
    let r = parent.replies();
    let all = r.push(ListenerReply::Closed);
    assert(all.drop_last() == r);
    assert(r.drop_last().drop_last().drop_last() == Seq::<ListenerReply>::empty());
    assert(r.drop_last().drop_last().last() == r[0]);
    assert(r.drop_last().last() == r[1]);
    reveal_with_fuel(parent_run, 5);
}

/// Reply `i` opened the directory as `fd`.
pub open spec fn opened_at(replies: Seq<ListenerReply>, i: int, fd: libc::c_int) -> bool {
    &&& 0 <= i < replies.len()
    &&& fd >= 0
    &&& replies[i] is Opened
    &&& replies[i]->fd == fd
}

/// Reply `j` told a status.
pub open spec fn inspected_at(replies: Seq<ListenerReply>, j: int, status: FileStatus) -> bool {
    &&& 0 <= j < replies.len()
    &&& replies[j] is Inspected
    &&& replies[j]->Inspected_result == 0
    &&& replies[j]->status == status
}

/// Reply `k` told the effective user.
pub open spec fn identified_at(replies: Seq<ListenerReply>, k: int, user: libc::uid_t) -> bool {
    &&& 0 <= k < replies.len()
    &&& replies[k] is Identified
    &&& replies[k]->user == user
}

/// Reply `l` told that the mode was changed.
pub open spec fn changed_at(replies: Seq<ListenerReply>, l: int) -> bool {
    &&& 0 <= l < replies.len()
    &&& replies[l] is Changed
    &&& replies[l]->Changed_result == 0
}

/// The replies `i`, `j` and `k`, in this order, opened a directory as `fd`, told its
/// status and told the effective user, and by these it is secure.
pub open spec fn secured_at(
    replies: Seq<ListenerReply>,
    i: int,
    j: int,
    k: int,
    fd: libc::c_int,
) -> bool {
    &&& i < j < k
    &&& opened_at(replies, i, fd)
    &&& inspected_at(replies, j, replies[j]->status)
    &&& identified_at(replies, k, replies[k]->user)
    &&& secure_directory(replies[j]->status, replies[k]->user)
}

/// The replies `l`, `m` and `n`, in this order, told that the mode was changed, the
/// status of the entry and the effective user, and by these the entry is a socket of
/// the user with the permissions of `mode`.
pub open spec fn verified_at(
    replies: Seq<ListenerReply>,
    l: int,
    m: int,
    n: int,
    mode: libc::mode_t,
) -> bool {
    &&& l < m < n
    &&& changed_at(replies, l)
    &&& inspected_at(replies, m, replies[m]->status)
    &&& identified_at(replies, n, replies[n]->user)
    &&& verified_socket(replies[m]->status, replies[n]->user, mode)
}

/// One of the replies opened the directory as `fd`.
pub open spec fn was_opened(replies: Seq<ListenerReply>, fd: libc::c_int) -> bool {
    exists|i: int| opened_at(replies, i, fd)
}

spec fn was_inspected(replies: Seq<ListenerReply>, fd: libc::c_int, status: FileStatus) -> bool {
    exists|i: int, j: int|
        i < j && #[trigger] opened_at(replies, i, fd) && #[trigger] inspected_at(
            replies,
            j,
            status,
        )
}

/// The replies show that the directory opened as `fd` is secure.
pub open spec fn was_secured(replies: Seq<ListenerReply>, fd: libc::c_int) -> bool {
    exists|i: int, j: int, k: int| secured_at(replies, i, j, k, fd)
}

spec fn was_changed(replies: Seq<ListenerReply>, fd: libc::c_int) -> bool {
    exists|i: int, j: int, k: int, l: int|
        k < l && #[trigger] secured_at(replies, i, j, k, fd) && #[trigger] changed_at(replies, l)
}

spec fn was_entry_inspected(replies: Seq<ListenerReply>, status: FileStatus) -> bool {
    exists|fd: libc::c_int, i: int, j: int, k: int, l: int, m: int|
        k < l < m && #[trigger] secured_at(replies, i, j, k, fd) && #[trigger] changed_at(
            replies,
            l,
        ) && #[trigger] inspected_at(replies, m, status)
}

/// The replies show a directory to be secure, after that the mode changed, and after that
/// the entry to be a socket of the effective user with the permissions of `mode`.
pub open spec fn was_verified(replies: Seq<ListenerReply>, mode: libc::mode_t) -> bool {
    exists|fd: libc::c_int, i: int, j: int, k: int, l: int, m: int, n: int|
        k < l && #[trigger] secured_at(replies, i, j, k, fd) && #[trigger] verified_at(
            replies,
            l,
            m,
            n,
            mode,
        )
}

/// What the replies so far have shown in each state of the check of a directory.
spec fn parent_evidence(
    path: PathHalves,
    host: HostFlags,
    replies: Seq<ListenerReply>,
    check: ParentState,
) -> bool {
    match check {
        ParentState::Open { path: p, host: h } => p == path && h == host,
        ParentState::Inspect { fd, name } => name == path.name && was_opened(replies, fd),
        ParentState::Identify { fd, name, status } => name == path.name && was_inspected(
            replies,
            fd,
            status,
        ),
        ParentState::Close { .. } => true,
    }
}

proof fn lemma_shown_stays(replies: Seq<ListenerReply>, reply: ListenerReply)
    ensures
        forall|i: int, fd: libc::c_int|
            opened_at(replies, i, fd) ==> #[trigger] opened_at(replies.push(reply), i, fd),
        forall|j: int, status: FileStatus|
            inspected_at(replies, j, status) ==> #[trigger] inspected_at(
                replies.push(reply),
                j,
                status,
            ),
        forall|i: int, j: int, k: int, fd: libc::c_int|
            secured_at(replies, i, j, k, fd) ==> #[trigger] secured_at(
                replies.push(reply),
                i,
                j,
                k,
                fd,
            ),
        forall|l: int|
            changed_at(replies, l) ==> #[trigger] changed_at(replies.push(reply), l),
        forall|l: int, m: int, n: int, mode: libc::mode_t|
            verified_at(replies, l, m, n, mode) ==> #[trigger] verified_at(
                replies.push(reply),
                l,
                m,
                n,
                mode,
            ),
{
}

proof fn lemma_parent_evidence(
    path: PathHalves,
    host: HostFlags,
    before: Seq<ListenerReply>,
    check: ParentState,
    reply: ListenerReply,
)
    requires
        parent_evidence(path, host, before, check),
    ensures
        match check.after(reply) {
            ParentProgress::Waiting(next) => parent_evidence(
                path,
                host,
                before.push(reply),
                next,
            ),
            ParentProgress::Done(Ok(found)) => found.name == path.name && was_secured(
                before.push(reply),
                found.fd,
            ),
            ParentProgress::Done(Err(_)) => true,
        },
{
    let replies = before.push(reply);
    let last = before.len() as int;
    lemma_shown_stays(before, reply);
    assert(replies[last] == reply);
    match check {
        ParentState::Open { .. } => {
            if let ListenerReply::Opened { fd, .. } = reply {
                if fd >= 0 {
                    assert(opened_at(replies, last, fd));
                    assert(was_opened(replies, fd));
                }
            }
        },
        ParentState::Inspect { fd, .. } => {
            let i = choose|i: int| opened_at(before, i, fd);
            assert(opened_at(replies, i, fd));
            assert(was_opened(replies, fd));
            if let ListenerReply::Inspected { result, status, .. } = reply {
                if result == 0 {
                    assert(inspected_at(replies, last, status));
                    assert(was_inspected(replies, fd, status));
                }
            }
        },
        ParentState::Identify { fd, status, .. } => {
            let (i, j) = choose|i: int, j: int|
                i < j && #[trigger] opened_at(before, i, fd) && #[trigger] inspected_at(
                    before,
                    j,
                    status,
                );
            assert(opened_at(replies, i, fd));
            assert(inspected_at(replies, j, status));
            assert(was_inspected(replies, fd, status));
            if let ListenerReply::Identified { user } = reply {
                assert(identified_at(replies, last, user));
                if secure_directory(status, user) {
                    assert(secured_at(replies, i, j, last, fd));
                    assert(was_secured(replies, fd));
                }
            }
        },
        ParentState::Close { .. } => {},
    }
}

proof fn lemma_parent_run_evidence(
    path: PathHalves,
    host: HostFlags,
    replies: Seq<ListenerReply>,
)
    ensures
        match parent_run(ParentState::Open { path, host }, replies) {
            ParentProgress::Waiting(check) => parent_evidence(path, host, replies, check),
            ParentProgress::Done(Ok(found)) => found.name == path.name && was_secured(
                replies,
                found.fd,
            ),
            ParentProgress::Done(Err(_)) => true,
        },
    decreases replies.len(),
{
    if replies.len() > 0 {
        let before = replies.drop_last();
        let reply = replies.last();
        lemma_parent_run_evidence(path, host, before);
        assert(before.push(reply) == replies);
        match parent_run(ParentState::Open { path, host }, before) {
            ParentProgress::Waiting(check) => {
                lemma_parent_evidence(path, host, before, check, reply);
            },
            ParentProgress::Done(Ok(found)) => {
                lemma_secured_stays(before, reply, found.fd);
            },
            ParentProgress::Done(Err(_)) => {},
        }
    }
}

/// Whatever the replies are, and in whatever order they come, a directory is handed out
/// as secure only after it was opened and, by its status and the effective user, found
/// secure; it comes with the descriptor under which it was opened and with the listener's
/// own name.
pub proof fn law_handed_out_only_if_secure(
    path: PathHalves,
    host: HostFlags,
    replies: Seq<ListenerReply>,
    found: FoundParent,
)
    requires
        parent_run(ParentState::Open { path, host }, replies) == ParentProgress::Done(Ok(found)),
    ensures
        found.name == path.name,
        was_secured(replies, found.fd),
{
    lemma_parent_run_evidence(path, host, replies);
}

/// What the replies so far have shown in each state of a mode change.
spec fn mode_change_evidence(
    path: PathHalves,
    host: HostFlags,
    mode: libc::mode_t,
    replies: Seq<ListenerReply>,
    progress: ListenerProgress,
) -> bool {
    match progress {
        ListenerProgress::Waiting(ListenerState::Secure { check, host: h, mode: m }) => {
            &&& h == host
            &&& m == mode
            &&& parent_evidence(path, host, replies, check)
        },
        ListenerProgress::Waiting(ListenerState::ChangeMode { parent, host: h, mode: m }) => {
            &&& h == host
            &&& m == mode
            &&& parent.name == path.name
            &&& was_secured(replies, parent.fd)
        },
        ListenerProgress::Waiting(ListenerState::InspectEntry { parent, host: h, mode: m }) => {
            &&& h == host
            &&& m == mode
            &&& parent.name == path.name
            &&& was_changed(replies, parent.fd)
        },
        ListenerProgress::Waiting(ListenerState::IdentifyEntry { status, mode: m, .. }) => {
            &&& m == mode
            &&& was_entry_inspected(replies, status)
        },
        ListenerProgress::Waiting(ListenerState::Validate { .. }) => false,
        ListenerProgress::Waiting(ListenerState::Close { outcome, .. }) => outcome is Ok
            ==> was_verified(replies, mode),
        ListenerProgress::Done(outcome) => outcome is Ok ==> was_verified(replies, mode),
    }
}

proof fn lemma_evidence(
    path: PathHalves,
    host: HostFlags,
    mode: libc::mode_t,
    replies: Seq<ListenerReply>,
)
    ensures
        mode_change_evidence(
            path,
            host,
            mode,
            replies,
            listener_run(mode_change(path, host, mode), replies),
        ),
    decreases replies.len(),
{
    let start = mode_change(path, host, mode);
    if replies.len() > 0 {
        let before = replies.drop_last();
        let reply = replies.last();
        let last = replies.len() - 1;
        lemma_evidence(path, host, mode, before);
        lemma_shown_stays(before, reply);
        assert(before.push(reply) == replies);
        match listener_run(start, before) {
            ListenerProgress::Waiting(ListenerState::Secure { check, .. }) => {
                lemma_parent_evidence(path, host, before, check, reply);
            },
            ListenerProgress::Waiting(ListenerState::ChangeMode { parent, .. }) => {
                let (i, j, k) = choose|i: int, j: int, k: int|
                    secured_at(before, i, j, k, parent.fd);
                assert(secured_at(replies, i, j, k, parent.fd));
                assert(was_secured(replies, parent.fd));
                if let ListenerReply::Changed { result, .. } = reply {
                    if result == 0 {
                        assert(changed_at(replies, last));
                        assert(was_changed(replies, parent.fd));
                    }
                }
            },
            ListenerProgress::Waiting(ListenerState::InspectEntry { parent, .. }) => {
                let (i, j, k, l) = choose|i: int, j: int, k: int, l: int|
                    k < l && #[trigger] secured_at(before, i, j, k, parent.fd)
                        && #[trigger] changed_at(before, l);
                assert(secured_at(replies, i, j, k, parent.fd));
                assert(changed_at(replies, l));
                assert(was_changed(replies, parent.fd));
                if let ListenerReply::Inspected { result, status, .. } = reply {
                    if result == 0 {
                        assert(inspected_at(replies, last, status));
                        assert(was_entry_inspected(replies, status));
                    }
                }
            },
            ListenerProgress::Waiting(ListenerState::IdentifyEntry { status, .. }) => {
                let (fd, i, j, k, l, m) = choose|
                    fd: libc::c_int,
                    i: int,
                    j: int,
                    k: int,
                    l: int,
                    m: int,
                |
                    k < l < m && #[trigger] secured_at(before, i, j, k, fd)
                        && #[trigger] changed_at(before, l) && #[trigger] inspected_at(
                        before,
                        m,
                        status,
                    );
                assert(secured_at(replies, i, j, k, fd));
                assert(changed_at(replies, l));
                assert(inspected_at(replies, m, status));
                assert(was_entry_inspected(replies, status));
                if let ListenerReply::Identified { user } = reply {
                    assert(identified_at(replies, last, user));
                    if verified_socket(status, user, mode) {
                        assert(verified_at(replies, l, m, last, mode));
                        assert(was_verified(replies, mode));
                    }
                }
            },
            _ => {
                if was_verified(before, mode) {
                    let (fd, i, j, k, l, m, n) = choose|
                        fd: libc::c_int,
                        i: int,
                        j: int,
                        k: int,
                        l: int,
                        m: int,
                        n: int,
                    |
                        k < l && #[trigger] secured_at(before, i, j, k, fd)
                            && #[trigger] verified_at(before, l, m, n, mode);
                    assert(secured_at(replies, i, j, k, fd));
                    assert(verified_at(replies, l, m, n, mode));
                    assert(was_verified(replies, mode));
                }
            },
        }
    }
}

/// What the replies so far have shown in each state of the check of a directory alone.
spec fn validation_evidence(
    path: PathHalves,
    host: HostFlags,
    replies: Seq<ListenerReply>,
    progress: ListenerProgress,
) -> bool {
    match progress {
        ListenerProgress::Waiting(ListenerState::Validate { check }) => parent_evidence(
            path,
            host,
            replies,
            check,
        ),
        ListenerProgress::Waiting(ListenerState::Close { fd, outcome }) => {
            &&& outcome is Ok
            &&& was_secured(replies, fd)
        },
        ListenerProgress::Waiting(_) => false,
        ListenerProgress::Done(outcome) => outcome is Ok ==> found_secure(replies),
    }
}

/// The replies show that a directory that was opened is secure.
pub open spec fn found_secure(replies: Seq<ListenerReply>) -> bool {
    exists|fd: libc::c_int| was_secured(replies, fd)
}

proof fn lemma_secured_stays(replies: Seq<ListenerReply>, reply: ListenerReply, fd: libc::c_int)
    requires
        was_secured(replies, fd),
    ensures
        was_secured(replies.push(reply), fd),
{
    lemma_shown_stays(replies, reply);
    let (i, j, k) = choose|i: int, j: int, k: int| secured_at(replies, i, j, k, fd);
    assert(secured_at(replies.push(reply), i, j, k, fd));
}

proof fn lemma_validation_evidence(
    path: PathHalves,
    host: HostFlags,
    replies: Seq<ListenerReply>,
)
    ensures
        validation_evidence(
            path,
            host,
            replies,
            listener_run(validation(path, host), replies),
        ),
    decreases replies.len(),
{
    if replies.len() > 0 {
        let before = replies.drop_last();
        let reply = replies.last();
        lemma_validation_evidence(path, host, before);
        assert(before.push(reply) == replies);
        match listener_run(validation(path, host), before) {
            ListenerProgress::Waiting(ListenerState::Validate { check }) => {
                lemma_parent_evidence(path, host, before, check, reply);
            },
            ListenerProgress::Waiting(ListenerState::Close { fd, .. }) => {
                lemma_secured_stays(before, reply, fd);
                assert(found_secure(replies));
            },
            _ => {
                if found_secure(before) {
                    let fd = choose|fd: libc::c_int| was_secured(before, fd);
                    lemma_secured_stays(before, reply, fd);
                    assert(found_secure(replies));
                }
            },
        }
    }
}

/// Whatever the replies are, and in whatever order they come, the mode of an entry is
/// asked to be changed only in a directory that was opened and found secure before,
/// through the descriptor under which it was opened, under the listener's own name, and
/// to the mode asked for.
pub proof fn law_mode_changed_only_in_secure_parent(
    path: PathHalves,
    host: HostFlags,
    mode: libc::mode_t,
    replies: Seq<ListenerReply>,
    state: ListenerState,
)
    requires
        listener_run(mode_change(path, host, mode), replies) == ListenerProgress::Waiting(state),
        state.call() is ChangeMode,
    ensures
        state.call() matches ListenerCall::ChangeMode { fd, name, mode: asked, flags } && {
            &&& was_secured(replies, fd)
            &&& name == path.name
            &&& asked == mode
            &&& flags == host.change_bits()
        },
{
    lemma_evidence(path, host, mode, replies);
}

/// Whatever the replies are, and in whatever order they come, a mode change opens the
/// listener's own directory and reads the status of that directory; what it reads of the
/// entry, it reads under the listener's own name through the descriptor of a directory
/// that was opened and found secure before.
pub proof fn law_reads_go_through_the_opened_parent(
    path: PathHalves,
    host: HostFlags,
    mode: libc::mode_t,
    replies: Seq<ListenerReply>,
    state: ListenerState,
)
    requires
        listener_run(mode_change(path, host, mode), replies) == ListenerProgress::Waiting(state),
    ensures
        match state.call() {
            ListenerCall::Open { path: opened, flags } => {
                &&& opened == path.parent
                &&& flags == host.open_bits()
            },
            ListenerCall::Inspect { fd } => was_opened(replies, fd),
            ListenerCall::InspectEntry { fd, name, flags } => {
                &&& name == path.name
                &&& flags == host.at_no_follow
                &&& was_secured(replies, fd)
            },
            ListenerCall::Identify | ListenerCall::ChangeMode { .. } => true,
            ListenerCall::Close { .. } => true,
        },
{
    lemma_evidence(path, host, mode, replies);
    if let ListenerState::InspectEntry { parent, .. } = state {
        let (i, j, k, l) = choose|i: int, j: int, k: int, l: int|
            k < l && #[trigger] secured_at(replies, i, j, k, parent.fd) && #[trigger] changed_at(
                replies,
                l,
            );
        assert(secured_at(replies, i, j, k, parent.fd));
        assert(was_secured(replies, parent.fd));
    }
}

/// Whatever the replies are, and in whatever order they come, a mode change is reported
/// as done only after the directory was found secure, the change went through, and the
/// entry was then found to be a socket of the effective user with exactly the
/// permissions asked for.
pub proof fn law_success_only_after_verification(
    path: PathHalves,
    host: HostFlags,
    mode: libc::mode_t,
    replies: Seq<ListenerReply>,
)
    requires
        listener_run(mode_change(path, host, mode), replies) == ListenerProgress::Done(Ok(())),
    ensures
        was_verified(replies, mode),
{
    lemma_evidence(path, host, mode, replies);
}

/// Whatever the replies are, and in whatever order they come, a directory passes its
/// check only after it was opened and, by its status and the effective user, found
/// secure.
pub proof fn law_validated_only_if_secure(
    path: PathHalves,
    host: HostFlags,
    replies: Seq<ListenerReply>,
)
    requires
        listener_run(validation(path, host), replies) == ListenerProgress::Done(Ok(())),
    ensures
        found_secure(replies),
{
    lemma_validation_evidence(path, host, replies);
}

/// A state from which no mode is changed any more.
spec fn past_the_change(progress: ListenerProgress) -> bool {
    match progress {
        ListenerProgress::Waiting(state) => {
            ||| state is InspectEntry
            ||| state is IdentifyEntry
            ||| state is Close
        },
        ListenerProgress::Done(_) => true,
    }
}

/// A run asks for at most one mode change: once the call has come back, with whatever
/// result, no reply leads to a state that asks for it again.
pub proof fn law_at_most_one_mode_change(
    start: ListenerState,
    replies: Seq<ListenerReply>,
    state: ListenerState,
    reply: ListenerReply,
    more: Seq<ListenerReply>,
)
    requires
        listener_run(start, replies) == ListenerProgress::Waiting(state),
        state.call() is ChangeMode,
        reply is Changed,
    ensures
        listener_run(start, replies.push(reply) + more) matches ListenerProgress::Waiting(later)
            ==> !(later.call() is ChangeMode),
{
    lemma_past_the_change(start, replies, state, reply, more);
}

proof fn lemma_past_the_change(
    start: ListenerState,
    replies: Seq<ListenerReply>,
    state: ListenerState,
    reply: ListenerReply,
    more: Seq<ListenerReply>,
)
    requires
        listener_run(start, replies) == ListenerProgress::Waiting(state),
        state.call() is ChangeMode,
        reply is Changed,
    ensures
        past_the_change(listener_run(start, replies.push(reply) + more)),
    decreases more.len(),
{
    if more.len() == 0 {
        assert(replies.push(reply) + more == replies.push(reply));
        lemma_run_push(start, replies, reply);
    } else {
        lemma_past_the_change(start, replies, state, reply, more.drop_last());
        let all = replies.push(reply) + more;
        assert(all.drop_last() == replies.push(reply) + more.drop_last());
    }
}

/// A directory that its own check refuses also ends a mode change, with the same error
/// and before anything is changed: at most it is still to be closed.
pub proof fn law_refused_parent_ends_mode_change(
    path: PathHalves,
    host: HostFlags,
    mode: libc::mode_t,
    parent: ParentAnswers,
)
    requires
        parent.outcome() is Err,
    ensures
        listener_run(validation(path, host), parent.replies().push(ListenerReply::Closed))
            == ListenerProgress::Done(parent.outcome()),
        listener_run(mode_change(path, host, mode), parent.replies().push(ListenerReply::Closed))
            == ListenerProgress::Done(parent.outcome()),
        listener_run(mode_change(path, host, mode), parent.replies())
            matches ListenerProgress::Waiting(state) ==> state.call() == (ListenerCall::Close {
            fd: parent.fd,
        }),
{
    law_validation_outcome(path, host, parent);
    let start = mode_change(path, host, mode);
    let r = parent.replies();
    lemma_run_three(start, seq![], r[0], r[1], r[2]);
    assert(seq![] + seq![r[0], r[1], r[2]] == r);
    lemma_run_push(start, r, ListenerReply::Closed);
}

/// Whatever the replies are, the check of a directory asks only to open the listener's
/// directory, to read the status of what was opened, to name the effective user, and to
/// close: it changes nothing.
pub proof fn law_validation_changes_nothing(
    path: PathHalves,
    host: HostFlags,
    replies: Seq<ListenerReply>,
    state: ListenerState,
)
    requires
        listener_run(validation(path, host), replies) == ListenerProgress::Waiting(state),
    ensures
        match state.call() {
            ListenerCall::Open { path: opened, flags } => {
                &&& opened == path.parent
                &&& flags == host.open_bits()
            },
            ListenerCall::Inspect { fd } => was_opened(replies, fd),
            ListenerCall::Identify | ListenerCall::Close { .. } => true,
            ListenerCall::ChangeMode { .. } | ListenerCall::InspectEntry { .. } => false,
        },
{
    lemma_validation_evidence(path, host, replies);
}

/// Whatever the replies are, no call of a mode change follows a symbolic link: the flag
/// against it is among the flags of every call that names a file, and where the mode is
/// changed, so is the one against a link anywhere in the path. On a Unix none of these is
/// empty.
pub proof fn law_links_are_not_followed(
    path: PathHalves,
    host: HostFlags,
    mode: libc::mode_t,
    replies: Seq<ListenerReply>,
    state: ListenerState,
)
    requires
        listener_run(mode_change(path, host, mode), replies) == ListenerProgress::Waiting(state),
    ensures
        match state.call() {
            ListenerCall::Open { flags, .. } => flags & host.no_follow == host.no_follow,
            ListenerCall::ChangeMode { flags, .. } => {
                &&& flags & host.at_no_follow == host.at_no_follow
                &&& flags & AT_SYMLINK_NOFOLLOW_ANY == AT_SYMLINK_NOFOLLOW_ANY
            },
            ListenerCall::InspectEntry { flags, .. } => flags & host.at_no_follow
                == host.at_no_follow,
            ListenerCall::Inspect { .. } | ListenerCall::Identify => true,
            ListenerCall::Close { .. } => true,
        },
        host.are_flags() ==> host.no_follow != 0 && host.at_no_follow != 0,
{
    lemma_evidence(path, host, mode, replies);
    let (a, b, c, d, e) = (
        host.read_only,
        host.directory,
        host.no_follow,
        host.close_on_exec,
        host.at_no_follow,
    );
    assert((a | b | c | d) & c == c) by (bit_vector);
    assert((e | 0x0800i32) & e == e) by (bit_vector);
    assert((e | 0x0800i32) & 0x0800i32 == 0x0800i32) by (bit_vector);
    assert(e & e == e) by (bit_vector);
}

/// `reply` is one to `call`.
pub open spec fn answers(reply: ListenerReply, call: ListenerCall) -> bool {
    match call {
        ListenerCall::Open { .. } => reply is Opened,
        ListenerCall::Inspect { .. } => reply is Inspected,
        ListenerCall::Identify => reply is Identified,
        ListenerCall::ChangeMode { .. } => reply is Changed,
        ListenerCall::InspectEntry { .. } => reply is Inspected,
        ListenerCall::Close { .. } => reply is Closed,
    }
}

/// How many replies a run in `state` can still take.
pub open spec fn replies_left(state: ListenerState) -> nat {
    match state {
        ListenerState::Validate { check: ParentState::Open { .. } } => 4,
        ListenerState::Validate { check: ParentState::Inspect { .. } } => 3,
        ListenerState::Validate { check: ParentState::Identify { .. } } => 2,
        ListenerState::Validate { check: ParentState::Close { .. } } => 1,
        ListenerState::Secure { check: ParentState::Open { .. }, .. } => 7,
        ListenerState::Secure { check: ParentState::Inspect { .. }, .. } => 6,
        ListenerState::Secure { check: ParentState::Identify { .. }, .. } => 5,
        ListenerState::Secure { check: ParentState::Close { .. }, .. } => 1,
        ListenerState::ChangeMode { .. } => 4,
        ListenerState::InspectEntry { .. } => 3,
        ListenerState::IdentifyEntry { .. } => 2,
        ListenerState::Close { .. } => 1,
    }
}

/// Every run comes to an end: a reply to the call that is waited for ends it or leaves
/// fewer replies to take, and any other reply changes nothing.
pub proof fn law_every_answer_counts(state: ListenerState, reply: ListenerReply)
    ensures
        !answers(reply, state.call()) ==> state.after(reply) == ListenerProgress::Waiting(state),
        answers(reply, state.call()) ==> match state.after(reply) {
            ListenerProgress::Waiting(next) => replies_left(next) < replies_left(state),
            ListenerProgress::Done(_) => true,
        },
{
}

/// What goes to the system as the path of the directory and as the name in it is the
/// parent and the file name of the listener's path, each with its only NUL at its end.
pub proof fn law_halves_are_c_strings(parent: Option<Seq<u8>>, name: Option<Seq<u8>>)
    ensures
        split_path(parent, name) matches Ok(halves) ==> {
            &&& is_c_string(halves.parent)
            &&& is_c_string(halves.name)
            &&& parent == Some(halves.parent.drop_last())
            &&& name == Some(halves.name.drop_last())
        },
{
    if let Ok(halves) = split_path(parent, name) {
        assert(halves.parent.drop_last() == parent->0);
        assert(halves.name.drop_last() == name->0);
    }
}

/// A run that has come to `progress` waits for `call`.
pub open spec fn waits_for(progress: ListenerProgress, call: ListenerCall) -> bool {
    &&& progress matches ListenerProgress::Waiting(state)
    &&& state.call() == call
}

/// A run that opens and checks a directory and has come to `progress` waits for `call`.
pub open spec fn parent_waits_for(progress: ParentProgress, call: ListenerCall) -> bool {
    &&& progress matches ParentProgress::Waiting(state)
    &&& state.call() == call
}

/// The check of a directory, call by call: it opens the directory with the four flags of
/// the host, reads the status of what was opened, asks for the effective user, and closes
/// what was opened. A call that fails is reported with the code it left behind. The
/// directory passes where it is the user's, its type bits are those of a directory, and
/// neither group nor other may write to it; otherwise it is refused as not secure.
pub proof fn law_validation_call_by_call(
    path: PathHalves,
    host: HostFlags,
    fd: libc::c_int,
    open_code: i32,
    result: libc::c_int,
    code: i32,
    status: FileStatus,
    user: libc::uid_t,
)
    ensures
        ({
            let start = validation(path, host);
            let o = ListenerReply::Opened { fd, code: open_code };
            let i = ListenerReply::Inspected { result, code, status };
            let u = ListenerReply::Identified { user };
            let c = ListenerReply::Closed;
            &&& waits_for(
                listener_run(start, seq![]),
                ListenerCall::Open {
                    path: path.parent,
                    flags: host.read_only | host.directory | host.no_follow | host.close_on_exec,
                },
            )
            &&& fd < 0 ==> listener_run(start, seq![o]) == ListenerProgress::Done(
                Err(Error::Os { code: open_code }),
            )
            &&& fd >= 0 ==> waits_for(listener_run(start, seq![o]), ListenerCall::Inspect { fd })
            &&& fd >= 0 && result != 0 ==> {
                &&& waits_for(listener_run(start, seq![o, i]), ListenerCall::Close { fd })
                &&& listener_run(start, seq![o, i, c]) == ListenerProgress::Done(
                    Err(Error::Os { code }),
                )
            }
            &&& fd >= 0 && result == 0 ==> {
                &&& waits_for(listener_run(start, seq![o, i]), ListenerCall::Identify)
                &&& waits_for(listener_run(start, seq![o, i, u]), ListenerCall::Close { fd })
                &&& listener_run(start, seq![o, i, u, c]) == ListenerProgress::Done(
                    if status.uid == user && status.mode & 0o170000 == 0o040000 && status.mode
                        & 0o022 == 0 {
                        Ok(())
                    } else {
                        Err(Error::ParentNotSecure)
                    },
                )
            }
        }),
{
    let start = validation(path, host);
    let o = ListenerReply::Opened { fd, code: open_code };
    let i = ListenerReply::Inspected { result, code, status };
    let u = ListenerReply::Identified { user };
    law_secure_directory_in_numbers(status, user);
    let c = ListenerReply::Closed;
    lemma_run_push(start, seq![], o);
    lemma_run_push(start, seq![o], i);
    lemma_run_push(start, seq![o, i], c);
    lemma_run_push(start, seq![o, i], u);
    lemma_run_push(start, seq![o, i, u], c);
    assert(seq![o, i] == seq![o].push(i));
    assert(seq![o, i, c] == seq![o, i].push(c));
    assert(seq![o, i, u] == seq![o, i].push(u));
    assert(seq![o, i, u, c] == seq![o, i, u].push(c));
}

/// The change of a mode up to the change itself, call by call: the directory is opened and
/// checked as in its check alone, and where it is refused it is closed and nothing more
/// is asked for; where it is secure, the mode asked for, all of it, is given to the
/// listener's own name in the directory that was opened, with the two flags against
/// links.
pub proof fn law_parent_of_mode_change_call_by_call(
    path: PathHalves,
    host: HostFlags,
    mode: libc::mode_t,
    fd: libc::c_int,
    open_code: i32,
    result: libc::c_int,
    code: i32,
    status: FileStatus,
    user: libc::uid_t,
)
    ensures
        ({
            let start = mode_change(path, host, mode);
            let o = ListenerReply::Opened { fd, code: open_code };
            let i = ListenerReply::Inspected { result, code, status };
            let u = ListenerReply::Identified { user };
            let c = ListenerReply::Closed;
            let secure = status.uid == user && status.mode & 0o170000 == 0o040000 && status.mode
                & 0o022 == 0;
            &&& waits_for(
                listener_run(start, seq![]),
                ListenerCall::Open {
                    path: path.parent,
                    flags: host.read_only | host.directory | host.no_follow | host.close_on_exec,
                },
            )
            &&& fd < 0 ==> listener_run(start, seq![o]) == ListenerProgress::Done(
                Err(Error::Os { code: open_code }),
            )
            &&& fd >= 0 ==> waits_for(listener_run(start, seq![o]), ListenerCall::Inspect { fd })
            &&& fd >= 0 && result != 0 ==> {
                &&& waits_for(listener_run(start, seq![o, i]), ListenerCall::Close { fd })
                &&& listener_run(start, seq![o, i, c]) == ListenerProgress::Done(
                    Err(Error::Os { code }),
                )
            }
            &&& fd >= 0 && result == 0 ==> waits_for(
                listener_run(start, seq![o, i]),
                ListenerCall::Identify,
            )
            &&& fd >= 0 && result == 0 && !secure ==> {
                &&& waits_for(listener_run(start, seq![o, i, u]), ListenerCall::Close { fd })
                &&& listener_run(start, seq![o, i, u, c]) == ListenerProgress::Done(
                    Err(Error::ParentNotSecure),
                )
            }
            &&& fd >= 0 && result == 0 && secure ==> waits_for(
                listener_run(start, seq![o, i, u]),
                ListenerCall::ChangeMode {
                    fd,
                    name: path.name,
                    mode,
                    flags: host.at_no_follow | 0x0800,
                },
            )
        }),
{
    let start = mode_change(path, host, mode);
    let o = ListenerReply::Opened { fd, code: open_code };
    let i = ListenerReply::Inspected { result, code, status };
    let u = ListenerReply::Identified { user };
    law_secure_directory_in_numbers(status, user);
    let c = ListenerReply::Closed;
    lemma_run_push(start, seq![], o);
    lemma_run_push(start, seq![o], i);
    lemma_run_push(start, seq![o, i], c);
    lemma_run_push(start, seq![o, i], u);
    lemma_run_push(start, seq![o, i, u], c);
    assert(seq![o, i] == seq![o].push(i));
    assert(seq![o, i, c] == seq![o, i].push(c));
    assert(seq![o, i, u] == seq![o, i].push(u));
    assert(seq![o, i, u, c] == seq![o, i, u].push(c));
}

/// The change of a mode from the change on, call by call, wherever the run asks to change
/// the mode of `name` through `fd`: the status of that same entry is read without following
/// a link, the effective user is asked for, and the directory is closed. A call that fails
/// is reported with the code it left behind. The change is done where the entry is the
/// user's, its type bits are those of a socket and its permission bits are those asked for;
/// otherwise the entry is refused.
pub proof fn law_entry_of_mode_change_call_by_call(
    path: PathHalves,
    host: HostFlags,
    mode: libc::mode_t,
    fd: libc::c_int,
    directory: FileStatus,
    owner: libc::uid_t,
    open_code: i32,
    parent_code: i32,
    changed: libc::c_int,
    change_code: i32,
    result: libc::c_int,
    code: i32,
    status: FileStatus,
    user: libc::uid_t,
)
    requires
        fd >= 0,
        directory.uid == owner,
        directory.mode & 0o170000 == 0o040000,
        directory.mode & 0o022 == 0,
    ensures
        ({
            let start = mode_change(path, host, mode);
            let first = seq![
                ListenerReply::Opened { fd, code: open_code },
                ListenerReply::Inspected { result: 0, code: parent_code, status: directory },
                ListenerReply::Identified { user: owner },
            ];
            let h = ListenerReply::Changed { result: changed, code: change_code };
            let i = ListenerReply::Inspected { result, code, status };
            let u = ListenerReply::Identified { user };
            let c = ListenerReply::Closed;
            &&& changed != 0 ==> {
                &&& waits_for(listener_run(start, first.push(h)), ListenerCall::Close { fd })
                &&& listener_run(start, first.push(h).push(c)) == ListenerProgress::Done(
                    Err(Error::Os { code: change_code }),
                )
            }
            &&& changed == 0 ==> waits_for(
                listener_run(start, first.push(h)),
                ListenerCall::InspectEntry { fd, name: path.name, flags: host.at_no_follow },
            )
            &&& changed == 0 && result != 0 ==> {
                &&& waits_for(
                    listener_run(start, first.push(h).push(i)),
                    ListenerCall::Close { fd },
                )
                &&& listener_run(start, first.push(h).push(i).push(c)) == ListenerProgress::Done(
                    Err(Error::Os { code }),
                )
            }
            &&& changed == 0 && result == 0 ==> {
                &&& waits_for(
                    listener_run(start, first.push(h).push(i)),
                    ListenerCall::Identify,
                )
                &&& waits_for(
                    listener_run(start, first.push(h).push(i).push(u)),
                    ListenerCall::Close { fd },
                )
                &&& listener_run(start, first.push(h).push(i).push(u).push(c))
                    == ListenerProgress::Done(
                    if status.uid == user && status.mode & 0o170000 == 0o140000 && status.mode
                        & 0o777 == mode & 0o777 {
                        Ok(())
                    } else {
                        Err(Error::EntryNotVerified)
                    },
                )
            }
        }),
{
    let start = mode_change(path, host, mode);
    let first = seq![
        ListenerReply::Opened { fd, code: open_code },
        ListenerReply::Inspected { result: 0, code: parent_code, status: directory },
        ListenerReply::Identified { user: owner },
    ];
    let h = ListenerReply::Changed { result: changed, code: change_code };
    let i = ListenerReply::Inspected { result, code, status };
    let u = ListenerReply::Identified { user };
    law_secure_directory_in_numbers(directory, owner);
    law_verified_socket_in_numbers(status, user, mode);
    lemma_run_three(start, seq![], first[0], first[1], first[2]);
    assert(seq![] + seq![first[0], first[1], first[2]] == first);
    lemma_run_push(start, first, h);
    lemma_run_push(start, first.push(h), ListenerReply::Closed);
    lemma_run_push(start, first.push(h), i);
    lemma_run_push(start, first.push(h).push(i), ListenerReply::Closed);
    lemma_run_push(start, first.push(h).push(i), u);
    lemma_run_push(start, first.push(h).push(i).push(u), ListenerReply::Closed);
}

proof fn lemma_parent_push(start: ParentState, replies: Seq<ListenerReply>, reply: ListenerReply)
    ensures
        parent_run(start, replies.push(reply)) == (match parent_run(start, replies) {
            ParentProgress::Waiting(state) => state.after(reply),
            done => done,
        }),
{
    assert(replies.push(reply).drop_last() == replies);
}

/// The opening of a secure directory, call by call: as its check, but a directory that
/// passes is not closed but handed out, under the descriptor that was opened and with the
/// listener's own name.
pub proof fn law_secure_parent_call_by_call(
    path: PathHalves,
    host: HostFlags,
    fd: libc::c_int,
    open_code: i32,
    result: libc::c_int,
    code: i32,
    status: FileStatus,
    user: libc::uid_t,
)
    ensures
        ({
            let start = ParentState::Open { path, host };
            let o = ListenerReply::Opened { fd, code: open_code };
            let i = ListenerReply::Inspected { result, code, status };
            let u = ListenerReply::Identified { user };
            let c = ListenerReply::Closed;
            let secure = status.uid == user && status.mode & 0o170000 == 0o040000 && status.mode
                & 0o022 == 0;
            &&& parent_waits_for(
                parent_run(start, seq![]),
                ListenerCall::Open {
                    path: path.parent,
                    flags: host.read_only | host.directory | host.no_follow | host.close_on_exec,
                },
            )
            &&& fd < 0 ==> parent_run(start, seq![o]) == ParentProgress::Done(
                Err(Error::Os { code: open_code }),
            )
            &&& fd >= 0 ==> parent_waits_for(
                parent_run(start, seq![o]),
                ListenerCall::Inspect { fd },
            )
            &&& fd >= 0 && result != 0 ==> {
                &&& parent_waits_for(parent_run(start, seq![o, i]), ListenerCall::Close { fd })
                &&& parent_run(start, seq![o, i, c]) == ParentProgress::Done(
                    Err(Error::Os { code }),
                )
            }
            &&& fd >= 0 && result == 0 ==> parent_waits_for(
                parent_run(start, seq![o, i]),
                ListenerCall::Identify,
            )
            &&& fd >= 0 && result == 0 && !secure ==> {
                &&& parent_waits_for(parent_run(start, seq![o, i, u]), ListenerCall::Close { fd })
                &&& parent_run(start, seq![o, i, u, c]) == ParentProgress::Done(
                    Err(Error::ParentNotSecure),
                )
            }
            &&& fd >= 0 && result == 0 && secure ==> parent_run(start, seq![o, i, u])
                == ParentProgress::Done(Ok(FoundParent { fd, name: path.name }))
        }),
{
    let start = ParentState::Open { path, host };
    let o = ListenerReply::Opened { fd, code: open_code };
    let i = ListenerReply::Inspected { result, code, status };
    let u = ListenerReply::Identified { user };
    law_secure_directory_in_numbers(status, user);
    let c = ListenerReply::Closed;
    lemma_parent_push(start, seq![], o);
    lemma_parent_push(start, seq![o], i);
    lemma_parent_push(start, seq![o, i], c);
    lemma_parent_push(start, seq![o, i], u);
    lemma_parent_push(start, seq![o, i, u], c);
    assert(seq![o, i] == seq![o].push(i));
    assert(seq![o, i, c] == seq![o, i].push(c));
    assert(seq![o, i, u] == seq![o, i].push(u));
    assert(seq![o, i, u, c] == seq![o, i, u].push(c));
}

/// A reply to another call than the one that the opening of a directory waits for changes
/// nothing.
pub proof fn law_parent_keeps_to_its_call(state: ParentState, reply: ListenerReply)
    ensures
        !answers(reply, state.call()) ==> state.after(reply) == ParentProgress::Waiting(state),
{
}

/// What is said of a request is said of the very arguments that it hands out, and what is
/// said of a step, of the very run or outcome in it.
pub proof fn law_listener_views(
    text: &[u8],
    fd: libc::c_int,
    mode: libc::mode_t,
    flags: libc::c_int,
    parent: ParentRun,
    found: SecureParent,
    run: ListenerRun,
    error: Error,
    outcome: Result<(), Error>,
)
    ensures
        (ListenerRequest::Open { path: text, flags })@ == (ListenerCall::Open {
            path: text@,
            flags,
        }),
        (ListenerRequest::Inspect { fd })@ == (ListenerCall::Inspect { fd }),
        ListenerRequest::Identify@ == ListenerCall::Identify,
        (ListenerRequest::ChangeMode { fd, name: text, mode, flags })@
            == (ListenerCall::ChangeMode { fd, name: text@, mode, flags }),
        (ListenerRequest::InspectEntry { fd, name: text, flags })@
            == (ListenerCall::InspectEntry { fd, name: text@, flags }),
        (ListenerRequest::Close { fd })@ == (ListenerCall::Close { fd }),
        ParentStep::Waiting(parent)@ == ParentProgress::Waiting(parent@),
        ParentStep::Done(Ok(found))@ == ParentProgress::Done(Ok(found@)),
        ParentStep::Done(Err(error))@ == ParentProgress::Done(Err(error)),
        ListenerStep::Waiting(run)@ == ListenerProgress::Waiting(run@),
        ListenerStep::Done(outcome)@ == ListenerProgress::Done(outcome),
{
}

/// The text that a request hands out, be it a path or a name, ends in its only NUL.
pub proof fn law_requests_take_terminated_text(
    text: Seq<u8>,
    fd: libc::c_int,
    mode: libc::mode_t,
    flags: libc::c_int,
)
    ensures
        (ListenerCall::Open { path: text, flags }).takes_c_strings() <==> is_c_string(text),
        (ListenerCall::ChangeMode { fd, name: text, mode, flags }).takes_c_strings()
            <==> is_c_string(text),
        (ListenerCall::InspectEntry { fd, name: text, flags }).takes_c_strings() <==> is_c_string(
            text,
        ),
{
}

} // verus!
