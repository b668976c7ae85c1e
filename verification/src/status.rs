//! What the status of a file has to show before a listener trusts it.

use vstd::prelude::*;

use crate::host::{s_ifdir, s_ifmt, s_ifsock};

verus! {

/// The part of a file's status that is read: its owner and its mode.
#[derive(Clone, Copy, Debug, PartialEq, Eq, Structural)]
pub struct FileStatus {
    pub uid: libc::uid_t,
    pub mode: libc::mode_t,
}

/// The file-type bits of `mode`.
pub open spec fn file_type(mode: libc::mode_t) -> libc::mode_t {
    mode & 0o170000
}

pub open spec fn is_directory(mode: libc::mode_t) -> bool {
    file_type(mode) == 0o040000
}

pub open spec fn is_socket(mode: libc::mode_t) -> bool {
    file_type(mode) == 0o140000
}

/// Bit `i` of `mode`, counted from the lowest. Bits 0 to 8 are the permissions: of
/// each three, from the highest, to read, to write and to execute; the lowest three
/// are those of other, then come those of the group and those of the owner.
pub open spec fn mode_bit(mode: libc::mode_t, i: libc::mode_t) -> bool {
    (mode >> i) & 1 == 1
}

pub open spec fn group_writable(mode: libc::mode_t) -> bool {
    mode_bit(mode, 4)
}

pub open spec fn other_writable(mode: libc::mode_t) -> bool {
    mode_bit(mode, 1)
}

/// `a` and `b` grant the same permissions, whatever their other bits are.
pub open spec fn same_permissions(a: libc::mode_t, b: libc::mode_t) -> bool {
    forall|i: libc::mode_t| i < 9 ==> mode_bit(a, i) == mode_bit(b, i)
}

/// A directory of the user's own in which nobody else can put or replace an entry.
pub open spec fn secure_directory(status: FileStatus, user: libc::uid_t) -> bool {
    &&& status.uid == user
    &&& is_directory(status.mode)
    &&& !group_writable(status.mode)
    &&& !other_writable(status.mode)
}

/// A socket of the user's own with exactly the permissions of `mode`.
pub open spec fn verified_socket(
    status: FileStatus,
    user: libc::uid_t,
    mode: libc::mode_t,
) -> bool {
    &&& status.uid == user
    &&& is_socket(status.mode)
    &&& same_permissions(status.mode, mode)
}

proof fn lemma_write_mask(mode: libc::mode_t)
    ensures
        (mode & 0o022 != 0) <==> group_writable(mode) || other_writable(mode),
{
    assert((mode & 0o022 != 0) <==> ((mode >> 4) & 1 == 1 || (mode >> 1) & 1 == 1)) by (bit_vector);
}

proof fn lemma_permission_mask(a: libc::mode_t, b: libc::mode_t)
    ensures
        (a & 0o777 == b & 0o777) <==> same_permissions(a, b),
{
    if a & 0o777 == b & 0o777 {
        assert forall|i: libc::mode_t| i < 9 implies mode_bit(a, i) == mode_bit(b, i) by {
            assert((a >> i) & 1 == (b >> i) & 1) by (bit_vector)
                requires
                    a & 0o777 == b & 0o777,
                    i < 9,
            ;
        }
    }
    if same_permissions(a, b) {
        assert(mode_bit(a, 0) == mode_bit(b, 0));
        assert(mode_bit(a, 1) == mode_bit(b, 1));
        assert(mode_bit(a, 2) == mode_bit(b, 2));
        assert(mode_bit(a, 3) == mode_bit(b, 3));
        assert(mode_bit(a, 4) == mode_bit(b, 4));
        assert(mode_bit(a, 5) == mode_bit(b, 5));
        assert(mode_bit(a, 6) == mode_bit(b, 6));
        assert(mode_bit(a, 7) == mode_bit(b, 7));
        assert(mode_bit(a, 8) == mode_bit(b, 8));
        assert(a & 0o777 == b & 0o777) by (bit_vector)
            requires
                ((a >> 0) & 1 == 1) == ((b >> 0) & 1 == 1),
                ((a >> 1) & 1 == 1) == ((b >> 1) & 1 == 1),
                ((a >> 2) & 1 == 1) == ((b >> 2) & 1 == 1),
                ((a >> 3) & 1 == 1) == ((b >> 3) & 1 == 1),
                ((a >> 4) & 1 == 1) == ((b >> 4) & 1 == 1),
                ((a >> 5) & 1 == 1) == ((b >> 5) & 1 == 1),
                ((a >> 6) & 1 == 1) == ((b >> 6) & 1 == 1),
                ((a >> 7) & 1 == 1) == ((b >> 7) & 1 == 1),
                ((a >> 8) & 1 == 1) == ((b >> 8) & 1 == 1),
        ;
    }
}

impl FileStatus {
    /// Whether this is the status of a directory that `user` may trust.
    pub fn is_secure_directory(&self, user: libc::uid_t) -> (r: bool)
        ensures
            r == secure_directory(*self, user),
    {
        proof {
            lemma_write_mask(self.mode);
        }
        !(self.uid != user || self.mode & s_ifmt() != s_ifdir() || self.mode & 0o022 != 0)
    }

    /// Whether this is the status of a socket of `user` with the permissions of `mode`.
    pub fn is_verified_socket(&self, user: libc::uid_t, mode: libc::mode_t) -> (r: bool)
        ensures
            r == verified_socket(*self, user, mode),
    {
        proof {
            lemma_permission_mask(self.mode, mode);
        }
        !(self.uid != user || self.mode & s_ifmt() != s_ifsock() || self.mode & 0o777 != mode
            & 0o777)
    }
}

/// In numbers: a directory is secure exactly where its owner is the user, its type bits
/// are those of a directory and none of the write bits of group and other is set.
pub proof fn law_secure_directory_in_numbers(status: FileStatus, user: libc::uid_t)
    ensures
        secure_directory(status, user) <==> {
            &&& status.uid == user
            &&& status.mode & 0o170000 == 0o040000
            &&& status.mode & 0o022 == 0
        },
{
    lemma_write_mask(status.mode);
}

/// In numbers: an entry is verified exactly where its owner is the user, its type bits are
/// those of a socket and its nine permission bits are those of `mode`, whatever these and
/// the other bits are.
pub proof fn law_verified_socket_in_numbers(
    status: FileStatus,
    user: libc::uid_t,
    mode: libc::mode_t,
)
    ensures
        verified_socket(status, user, mode) <==> {
            &&& status.uid == user
            &&& status.mode & 0o170000 == 0o140000
            &&& status.mode & 0o777 == mode & 0o777
        },
{
    lemma_permission_mask(status.mode, mode);
}

} // verus!
