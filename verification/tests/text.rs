use ipc_guard::buffer::{word_buffer, word_count};
use ipc_guard::error::{Error, ErrorKind};
use ipc_guard::text::{c_string, find_nul, wide_string};

#[test]
fn first_nul() {
    assert_eq!(find_nul(b""), None);
    assert_eq!(find_nul(b"abc"), None);
    assert_eq!(find_nul(b"a\0b\0"), Some(1));
    assert_eq!(find_nul(b"\0"), Some(0));
}

#[test]
fn c_strings() {
    assert_eq!(c_string(b"".to_vec()), Ok(b"\0".to_vec()));
    assert_eq!(c_string(b"ab".to_vec()), Ok(b"ab\0".to_vec()));
    assert_eq!(c_string(b"ab\0".to_vec()), Err((2, b"ab\0".to_vec())));
}

#[test]
fn wide_strings() {
    assert_eq!(wide_string(vec![]), Some(vec![0]));
    assert_eq!(wide_string(vec![0x41, 0xd800]), Some(vec![0x41, 0xd800, 0]));
    assert_eq!(wide_string(vec![0x41, 0, 0x42]), None);
}

#[test]
fn word_counts() {
    let word = std::mem::size_of::<usize>() as u32;
    assert_eq!(word_count(0), 0);
    assert_eq!(word_count(1), 1);
    assert_eq!(word_count(word), 1);
    assert_eq!(word_count(word + 1), 2);
    assert_eq!(word_count(u32::MAX), (u32::MAX / word) as usize + 1);
    assert_eq!(word_count(68), 68usize.div_ceil(word as usize));
}

#[test]
fn word_buffers() {
    let word = std::mem::size_of::<usize>();
    assert_eq!(word_buffer(0), Vec::<usize>::new());
    assert_eq!(word_buffer(68), vec![0usize; 68usize.div_ceil(word)]);
}

#[test]
fn errors_of_the_system_have_no_text_here() {
    let error = Error::Os { code: 13 };
    assert_eq!(error.kind(), None);
    assert_eq!(error.message(), None);
    assert_eq!(Error::ParentNotSecure.kind(), Some(ErrorKind::PermissionDenied));
    assert_eq!(
        Error::ParentNotSecure.message(),
        Some("listener parent must be owned by the effective user and not writable by group or other")
    );
}
