//! The constants of the Windows interface that the pipe protocols put into their calls
//! or hold a reply against.

use vstd::prelude::*;
use windows_sys::Win32::Foundation::INVALID_HANDLE_VALUE;
use windows_sys::Win32::Security::{
    TokenUser, WinLocalSystemSid, SECURITY_MAX_SID_SIZE, TOKEN_QUERY,
};
use windows_sys::Win32::Storage::FileSystem::{
    FILE_FLAG_OVERLAPPED, FILE_SHARE_READ, FILE_SHARE_WRITE, OPEN_EXISTING,
};
use windows_sys::Win32::System::Threading::PROCESS_QUERY_LIMITED_INFORMATION;

verus! {

/// The right to read from a pipe.
pub const FILE_READ_DATA: u32 = 0x0001;

/// The right to write to a pipe.
pub const FILE_WRITE_DATA: u32 = 0x0002;

/// `INVALID_HANDLE_VALUE`, the handle that a failed `CreateFileW` returns, as a number.
#[verifier::external_body]
pub(crate) fn invalid_handle_value() -> (handle: isize)
    ensures
        handle == -1,
{
    INVALID_HANDLE_VALUE as isize
}

/// `FILE_SHARE_READ`: others may open the file for reading.
#[verifier::external_body]
pub(crate) fn file_share_read() -> (bits: u32)
    ensures
        bits == 1,
{
    FILE_SHARE_READ
}

/// `FILE_SHARE_WRITE`: others may open the file for writing.
#[verifier::external_body]
pub(crate) fn file_share_write() -> (bits: u32)
    ensures
        bits == 2,
{
    FILE_SHARE_WRITE
}

/// `OPEN_EXISTING`: only what exists is opened.
#[verifier::external_body]
pub(crate) fn open_existing() -> (disposition: u32)
    ensures
        disposition == 3,
{
    OPEN_EXISTING
}

/// `FILE_FLAG_OVERLAPPED`: the handle is for asynchronous use.
#[verifier::external_body]
pub(crate) fn file_flag_overlapped() -> (bits: u32)
    ensures
        bits == 0x4000_0000,
{
    FILE_FLAG_OVERLAPPED
}

/// `PROCESS_QUERY_LIMITED_INFORMATION`: the right to ask after a process.
#[verifier::external_body]
pub(crate) fn process_query_limited_information() -> (access: u32)
    ensures
        access == 0x1000,
{
    PROCESS_QUERY_LIMITED_INFORMATION
}

/// `TOKEN_QUERY`: the right to ask after a token.
#[verifier::external_body]
pub(crate) fn token_query() -> (access: u32)
    ensures
        access == 8,
{
    TOKEN_QUERY
}

/// `TokenUser`: the question for the user of a token.
#[verifier::external_body]
pub(crate) fn token_user() -> (class: i32)
    ensures
        class == 1,
{
    TokenUser
}

/// `WinLocalSystemSid`: the well-known identity of LocalSystem.
#[verifier::external_body]
pub(crate) fn win_local_system_sid() -> (kind: i32)
    ensures
        kind == 22,
{
    WinLocalSystemSid
}

/// `SECURITY_MAX_SID_SIZE`: the most bytes that an identity takes.
#[verifier::external_body]
pub(crate) fn security_max_sid_size() -> (size: u32)
    ensures
        size == 68,
{
    SECURITY_MAX_SID_SIZE
}

} // verus!
