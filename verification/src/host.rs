//! What the listener protocol takes from the host: the flag bits of its system calls
//! and the file-type bits of a mode.

use vstd::prelude::*;

verus! {

/// Makes `fchmodat` refuse a path with a symbolic link anywhere in it.
pub const AT_SYMLINK_NOFOLLOW_ANY: libc::c_int = 0x0800;

/// The flag bits of the host that the listener protocol puts together. They differ
/// from one host to the next.
#[derive(Clone, Copy, Debug, PartialEq, Eq, Structural)]
pub struct HostFlags {
    /// Opens for reading.
    pub read_only: libc::c_int,
    /// Opens nothing but a directory.
    pub directory: libc::c_int,
    /// Opens no symbolic link.
    pub no_follow: libc::c_int,
    /// Closes the descriptor when another program is executed.
    pub close_on_exec: libc::c_int,
    /// Acts on a symbolic link itself.
    pub at_no_follow: libc::c_int,
}

impl HostFlags {
    /// The flags are these.
    pub open spec fn is_row(
        self,
        read_only: int,
        directory: int,
        no_follow: int,
        close_on_exec: int,
        at_no_follow: int,
    ) -> bool {
        &&& self.read_only == read_only
        &&& self.directory == directory
        &&& self.no_follow == no_follow
        &&& self.close_on_exec == close_on_exec
        &&& self.at_no_follow == at_no_follow
    }

    /// The flags are those of one Unix, all of the same.
    pub open spec fn are_flags(self) -> bool {
        // Linux and Android on x86, RISC-V, MIPS, s390x, LoongArch and C-SKY; Hexagon;
        // Emscripten; L4Re on x86-64; NuttX.
        ||| self.is_row(0, 0x1_0000, 0x2_0000, 0x8_0000, 0x100)
        // Linux and Android on Arm, PowerPC and m68k; L4Re on AArch64.
        ||| self.is_row(0, 0x4000, 0x8000, 0x8_0000, 0x100)
        // Linux on SPARC.
        ||| self.is_row(0, 0x1_0000, 0x2_0000, 0x40_0000, 0x100)
        // Apple's systems.
        ||| self.is_row(0, 0x10_0000, 0x100, 0x100_0000, 0x20)
        // FreeBSD.
        ||| self.is_row(0, 0x2_0000, 0x100, 0x10_0000, 0x200)
        // DragonFly BSD.
        ||| self.is_row(0, 0x800_0000, 0x100, 0x2_0000, 0x1)
        // NetBSD.
        ||| self.is_row(0, 0x20_0000, 0x100, 0x40_0000, 0x200)
        // OpenBSD.
        ||| self.is_row(0, 0x2_0000, 0x100, 0x1_0000, 0x2)
        // Solaris and illumos.
        ||| self.is_row(0, 0x100_0000, 0x2_0000, 0x80_0000, 0x1000)
        // AIX.
        ||| self.is_row(0, 0x8_0000, 0x100_0000, 0x80_0000, 0x1)
        // Haiku.
        ||| self.is_row(0, 0x20_0000, 0x8_0000, 0x40, 0x1)
        // Cygwin and RTEMS.
        ||| self.is_row(0, 0x20_0000, 0x10_0000, 0x4_0000, 0x2)
        // PlayStation Vita.
        ||| self.is_row(0, 0x20_0000, 0x10_0000, 0x8_0000, 0x2)
        // QNX Neutrino.
        ||| self.is_row(0, 0x10_0000, 0x1000, 0x2000, 0x2)
        // Fuchsia.
        ||| self.is_row(0, 0x8_0000, 0x80, 0x100, 0x100)
        // GNU Hurd.
        ||| self.is_row(1, 0x20_0000, 0x10_0000, 0x40_0000, 0x100)
        // Redox.
        ||| self.is_row(0x1_0000, 0x1000_0000, -0x8000_0000, 0x100_0000, 0x200)
    }

    /// The flags under which the directory of a listener is opened.
    pub open spec fn open_bits(self) -> libc::c_int {
        self.read_only | self.directory | self.no_follow | self.close_on_exec
    }

    /// The flags under which the mode of an entry is changed.
    pub open spec fn change_bits(self) -> libc::c_int {
        self.at_no_follow | AT_SYMLINK_NOFOLLOW_ANY
    }
}

/// `libc::O_RDONLY`, `libc::O_DIRECTORY`, `libc::O_NOFOLLOW`, `libc::O_CLOEXEC` and
/// `libc::AT_SYMLINK_NOFOLLOW`: together they are what libc has for one Unix. Which one
/// depends on the host and is not claimed.
#[verifier::external_body]
fn libc_flags() -> (host: HostFlags)
    ensures
        host.are_flags(),
{
    HostFlags {
        read_only: libc::O_RDONLY,
        directory: libc::O_DIRECTORY,
        no_follow: libc::O_NOFOLLOW,
        close_on_exec: libc::O_CLOEXEC,
        at_no_follow: libc::AT_SYMLINK_NOFOLLOW,
    }
}

/// The flag bits of this host: those of one Unix. Which one is not stated: it differs
/// between hosts.
pub(crate) fn host_flags() -> (host: HostFlags)
    ensures
        host.are_flags(),
{
    libc_flags()
}

/// `bits` is a flag: one bit is set in it, and no other.
pub open spec fn is_flag(bits: libc::c_int) -> bool {
    exists|i: u32| i < 32 && bits == #[trigger] (1i32 << i)
}

/// On every host each flag is one bit, and of those under which a directory is opened no
/// two are the same: put together, none of them is lost.
pub proof fn law_flags_are_distinct_bits(host: HostFlags)
    requires
        host.are_flags(),
    ensures
        is_flag(host.directory),
        is_flag(host.no_follow),
        is_flag(host.close_on_exec),
        is_flag(host.at_no_follow),
        host.directory != host.no_follow,
        host.directory != host.close_on_exec,
        host.no_follow != host.close_on_exec,
{
    assert(0x1i32 == 1i32 << 0u32 && 0x2i32 == 1i32 << 1u32 && 0x20i32 == 1i32 << 5u32 && 0x40i32
        == 1i32 << 6u32 && 0x80i32 == 1i32 << 7u32 && 0x100i32 == 1i32 << 8u32 && 0x200i32
        == 1i32 << 9u32) by (bit_vector);
    assert(0x1000i32 == 1i32 << 12u32 && 0x2000i32 == 1i32 << 13u32 && 0x4000i32 == 1i32 << 14u32
        && 0x8000i32 == 1i32 << 15u32 && 0x1_0000i32 == 1i32 << 16u32 && 0x2_0000i32
        == 1i32 << 17u32 && 0x4_0000i32 == 1i32 << 18u32 && 0x8_0000i32 == 1i32 << 19u32)
        by (bit_vector);
    assert(0x10_0000i32 == 1i32 << 20u32 && 0x20_0000i32 == 1i32 << 21u32 && 0x40_0000i32
        == 1i32 << 22u32 && 0x80_0000i32 == 1i32 << 23u32 && 0x100_0000i32 == 1i32 << 24u32
        && 0x800_0000i32 == 1i32 << 27u32 && 0x1000_0000i32 == 1i32 << 28u32 && -0x8000_0000i32
        == 1i32 << 31u32) by (bit_vector);
}

/// `libc::S_IFMT`, the bits of a mode that hold the file type: the same on every Unix.
#[verifier::external_body]
pub(crate) fn s_ifmt() -> (bits: libc::mode_t)
    ensures
        bits == 0o170000,
{
    libc::S_IFMT
}

/// `libc::S_IFDIR`, the file type of a directory: the same on every Unix.
#[verifier::external_body]
pub(crate) fn s_ifdir() -> (bits: libc::mode_t)
    ensures
        bits == 0o040000,
{
    libc::S_IFDIR
}

/// `libc::S_IFSOCK`, the file type of a socket: the same on every Unix.
#[verifier::external_body]
pub(crate) fn s_ifsock() -> (bits: libc::mode_t)
    ensures
        bits == 0o140000,
{
    libc::S_IFSOCK
}

/// The flags under which a directory is opened are its four and no other bit, and those
/// under which a mode is changed are its two and no other bit.
pub proof fn law_flags_are_put_together(host: HostFlags, bit: libc::c_int)
    ensures
        host.open_bits() & bit != 0 <==> {
            ||| host.read_only & bit != 0
            ||| host.directory & bit != 0
            ||| host.no_follow & bit != 0
            ||| host.close_on_exec & bit != 0
        },
        host.change_bits() & bit != 0 <==> {
            ||| host.at_no_follow & bit != 0
            ||| 0x0800i32 & bit != 0
        },
        AT_SYMLINK_NOFOLLOW_ANY == 0x0800,
{
    let (a, b, c, d, e) = (
        host.read_only,
        host.directory,
        host.no_follow,
        host.close_on_exec,
        host.at_no_follow,
    );
    assert((a | b | c | d) & bit != 0 <==> (a & bit != 0 || b & bit != 0 || c & bit != 0 || d & bit
        != 0)) by (bit_vector);
    assert((e | 0x0800i32) & bit != 0 <==> (e & bit != 0 || 0x0800i32 & bit != 0)) by (bit_vector);
}

} // verus!
