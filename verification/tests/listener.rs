use std::path::Path;

use ipc_guard::error::{Error, ErrorKind};
use ipc_guard::host::{HostFlags, AT_SYMLINK_NOFOLLOW_ANY};
use ipc_guard::listener::{
    apply_bound_socket_mode, validate_listener_parent, ListenerRun, ListenerStep,
};
use ipc_guard::parent::{
    open_secure_parent, ListenerReply, ListenerRequest, ParentRun, ParentStep,
};
use ipc_guard::paths::{listener_path, split_listener_path, PathError};
use ipc_guard::status::FileStatus;

const DIRECTORY: u32 = 0o040000;
const REGULAR: u32 = 0o100000;
const LINK: u32 = 0o120000;
const SOCKET: u32 = 0o140000;

const EACCES: i32 = 13;
const ENOENT: i32 = 2;
const EOPNOTSUPP: i32 = 95;

/// A directory with one entry, and a record of what was asked of it.
struct Fixture {
    user: u32,
    open: (i32, i32),
    directory: FileStatus,
    directory_result: (i32, i32),
    entry: FileStatus,
    entry_result: (i32, i32),
    change_result: (i32, i32),
    target: u32,
    asked: Vec<String>,
}

impl Fixture {
    fn new(mode: u32) -> Fixture {
        Fixture {
            user: 1000,
            open: (7, 0),
            directory: FileStatus { uid: 1000, mode: DIRECTORY | mode },
            directory_result: (0, 0),
            entry: FileStatus { uid: 1000, mode: SOCKET | 0o755 },
            entry_result: (0, 0),
            change_result: (0, 0),
            target: 0o600,
            asked: vec![],
        }
    }

    fn reply(&mut self, request: ListenerRequest<'_>) -> ListenerReply {
        match request {
            ListenerRequest::Open { path, flags } => {
                assert_eq!(path, b"/run/app\0");
                assert_eq!(
                    flags,
                    libc::O_RDONLY | libc::O_DIRECTORY | libc::O_NOFOLLOW | libc::O_CLOEXEC
                );
                self.asked.push("open".to_string());
                ListenerReply::Opened { fd: self.open.0, code: self.open.1 }
            }
            ListenerRequest::Inspect { fd } => {
                assert_eq!(fd, self.open.0);
                self.asked.push("fstat".to_string());
                ListenerReply::Inspected {
                    result: self.directory_result.0,
                    code: self.directory_result.1,
                    status: self.directory,
                }
            }
            ListenerRequest::Identify => {
                self.asked.push("geteuid".to_string());
                ListenerReply::Identified { user: self.user }
            }
            ListenerRequest::ChangeMode { fd, name, mode, flags } => {
                assert_eq!(fd, self.open.0);
                assert_eq!(name, b"service.sock\0");
                assert_eq!(flags, libc::AT_SYMLINK_NOFOLLOW | 0x0800);
                self.asked.push("fchmodat".to_string());
                if self.entry.mode & 0o170000 == LINK {
                    if flags & libc::AT_SYMLINK_NOFOLLOW == 0 {
                        self.target = mode & 0o777;
                        return ListenerReply::Changed { result: 0, code: 0 };
                    }
                    return ListenerReply::Changed { result: -1, code: EOPNOTSUPP };
                }
                if self.change_result.0 == 0 {
                    self.entry.mode = (self.entry.mode & 0o170000) | (mode & 0o7777);
                }
                ListenerReply::Changed {
                    result: self.change_result.0,
                    code: self.change_result.1,
                }
            }
            ListenerRequest::InspectEntry { fd, name, flags } => {
                assert_eq!(fd, self.open.0);
                assert_eq!(name, b"service.sock\0");
                assert_eq!(flags, libc::AT_SYMLINK_NOFOLLOW);
                self.asked.push("fstatat".to_string());
                ListenerReply::Inspected {
                    result: self.entry_result.0,
                    code: self.entry_result.1,
                    status: self.entry,
                }
            }
            ListenerRequest::Close { fd } => {
                assert_eq!(fd, self.open.0);
                self.asked.push("close".to_string());
                ListenerReply::Closed
            }
        }
    }

    fn drive(&mut self, mut run: ListenerRun) -> Result<(), Error> {
        loop {
            let reply = self.reply(run.request());
            match run.step(reply) {
                ListenerStep::Waiting(next) => run = next,
                ListenerStep::Done(outcome) => return outcome,
            }
        }
    }

    fn apply(&mut self, mode: u32) -> Result<(), Error> {
        let run = apply_bound_socket_mode(Path::new("/run/app/service.sock"), mode).unwrap();
        self.drive(run)
    }

    fn validate(&mut self) -> Result<(), Error> {
        let run = validate_listener_parent(Path::new("/run/app/service.sock")).unwrap();
        self.drive(run)
    }
}

#[test]
fn applies_exact_mode_to_bound_socket() {
    let mut fixture = Fixture::new(0o700);

    assert_eq!(fixture.apply(0o666), Ok(()));

    assert_eq!(fixture.entry.mode & 0o777, 0o666);
    assert_eq!(
        fixture.asked,
        vec!["open", "fstat", "geteuid", "fchmodat", "fstatat", "geteuid", "close"]
    );
}

#[test]
fn rejects_writable_parent() {
    let mut fixture = Fixture::new(0o770);

    let error = fixture.apply(0o666).unwrap_err();

    assert_eq!(error.kind(), Some(ErrorKind::PermissionDenied));
    assert_eq!(error, Error::ParentNotSecure);
    assert_eq!(fixture.asked, vec!["open", "fstat", "geteuid", "close"]);
    assert_eq!(fixture.entry.mode & 0o777, 0o755);
}

#[test]
fn symlink_never_changes_target_mode() {
    let mut fixture = Fixture::new(0o700);
    fixture.entry = FileStatus { uid: 1000, mode: LINK | 0o777 };

    assert!(fixture.apply(0o666).is_err());
    assert_eq!(fixture.target, 0o600);
}

#[test]
fn each_write_bit_of_the_parent_is_refused() {
    for mode in [0o720, 0o702, 0o722, 0o777, 0o1777] {
        assert_eq!(Fixture::new(mode).validate(), Err(Error::ParentNotSecure));
        assert_eq!(Fixture::new(mode).apply(0o600), Err(Error::ParentNotSecure));
    }
    for mode in [0o700, 0o755, 0o500, 0o000, 0o1755, 0o7700] {
        assert_eq!(Fixture::new(mode).validate(), Ok(()));
        assert_eq!(Fixture::new(mode).apply(0o600), Ok(()));
    }
}

#[test]
fn parent_has_to_be_a_directory_of_the_effective_user() {
    let mut fixture = Fixture::new(0o700);
    fixture.directory.uid = 0;
    assert_eq!(fixture.validate(), Err(Error::ParentNotSecure));

    for kind in [REGULAR, LINK, SOCKET, 0] {
        let mut fixture = Fixture::new(0o700);
        fixture.directory.mode = kind | 0o700;
        assert_eq!(fixture.validate(), Err(Error::ParentNotSecure));
    }
}

#[test]
fn validation_changes_nothing() {
    let mut fixture = Fixture::new(0o700);
    assert_eq!(fixture.validate(), Ok(()));
    assert_eq!(fixture.asked, vec!["open", "fstat", "geteuid", "close"]);
    assert_eq!(fixture.entry.mode, SOCKET | 0o755);
}

#[test]
fn failed_calls_report_their_code() {
    let mut fixture = Fixture::new(0o700);
    fixture.open = (-1, ENOENT);
    assert_eq!(fixture.apply(0o600), Err(Error::Os { code: ENOENT }));
    assert_eq!(fixture.asked, vec!["open"]);

    let mut fixture = Fixture::new(0o700);
    fixture.directory_result = (-1, EACCES);
    assert_eq!(fixture.apply(0o600), Err(Error::Os { code: EACCES }));
    assert_eq!(fixture.asked, vec!["open", "fstat", "close"]);

    let mut fixture = Fixture::new(0o700);
    fixture.change_result = (-1, EACCES);
    assert_eq!(fixture.apply(0o600), Err(Error::Os { code: EACCES }));
    assert_eq!(
        fixture.asked,
        vec!["open", "fstat", "geteuid", "fchmodat", "close"]
    );

    let mut fixture = Fixture::new(0o700);
    fixture.entry_result = (-1, ENOENT);
    assert_eq!(fixture.apply(0o600), Err(Error::Os { code: ENOENT }));
    assert_eq!(
        fixture.asked,
        vec!["open", "fstat", "geteuid", "fchmodat", "fstatat", "close"]
    );
}

#[test]
fn descriptor_zero_is_a_descriptor() {
    let mut fixture = Fixture::new(0o700);
    fixture.open = (0, 0);
    assert_eq!(fixture.apply(0o600), Ok(()));
}

#[test]
fn entry_has_to_be_a_socket_of_the_effective_user() {
    let mut fixture = Fixture::new(0o700);
    fixture.entry.uid = 1001;
    let error = fixture.apply(0o600).unwrap_err();
    assert_eq!(error, Error::EntryNotVerified);
    assert_eq!(error.kind(), Some(ErrorKind::PermissionDenied));
    assert_eq!(
        error.message(),
        Some("listener entry owner, type, or mode verification failed")
    );

    for kind in [REGULAR, DIRECTORY] {
        let mut fixture = Fixture::new(0o700);
        fixture.entry.mode = kind | 0o600;
        assert_eq!(fixture.apply(0o600), Err(Error::EntryNotVerified));
    }
}

#[test]
fn only_the_permission_bits_of_the_mode_are_compared() {
    let status = FileStatus { uid: 5, mode: SOCKET | 0o1640 };
    assert!(status.is_verified_socket(5, 0o640));
    assert!(status.is_verified_socket(5, 0o4640));
    assert!(!status.is_verified_socket(5, 0o641));
    assert!(!status.is_verified_socket(6, 0o640));
    for bit in 0..9 {
        assert!(!status.is_verified_socket(5, 0o640 ^ (1 << bit)));
    }
}

#[test]
fn secure_directories() {
    let status = FileStatus { uid: 5, mode: DIRECTORY | 0o755 };
    assert!(status.is_secure_directory(5));
    assert!(!status.is_secure_directory(4));
    for (bit, secure) in [
        (0, true),
        (1, false),
        (2, true),
        (3, true),
        (4, false),
        (5, true),
        (6, true),
        (7, true),
        (8, true),
    ] {
        let status = FileStatus { uid: 5, mode: DIRECTORY | (1 << bit) };
        assert_eq!(status.is_secure_directory(5), secure);
    }
}

#[test]
fn changed_user_is_refused() {
    let run = apply_bound_socket_mode(Path::new("/run/app/service.sock"), 0o600).unwrap();
    let replies = [
        ListenerReply::Opened { fd: 4, code: 0 },
        ListenerReply::Inspected {
            result: 0,
            code: 0,
            status: FileStatus { uid: 9, mode: DIRECTORY | 0o700 },
        },
        ListenerReply::Identified { user: 9 },
        ListenerReply::Changed { result: 0, code: 0 },
        ListenerReply::Inspected {
            result: 0,
            code: 0,
            status: FileStatus { uid: 9, mode: SOCKET | 0o600 },
        },
        ListenerReply::Identified { user: 0 },
        ListenerReply::Closed,
    ];
    let mut run = Some(run);
    for (i, reply) in replies.into_iter().enumerate() {
        match run.take().unwrap().step(reply) {
            ListenerStep::Waiting(next) => {
                assert!(i < 6);
                run = Some(next);
            }
            ListenerStep::Done(outcome) => {
                assert_eq!(i, 6);
                assert_eq!(outcome, Err(Error::EntryNotVerified));
            }
        }
    }
    assert!(run.is_none());
}

#[test]
fn stray_replies_change_nothing() {
    let run = apply_bound_socket_mode(Path::new("/run/app/service.sock"), 0o600).unwrap();
    let run = match run.step(ListenerReply::Changed { result: 0, code: 0 }) {
        ListenerStep::Waiting(run) => run,
        ListenerStep::Done(_) => panic!("ended by a stray reply"),
    };
    assert!(matches!(run.request(), ListenerRequest::Open { .. }));
    let run = match run.step(ListenerReply::Identified { user: 1000 }) {
        ListenerStep::Waiting(run) => run,
        ListenerStep::Done(_) => panic!("ended by a stray reply"),
    };
    assert_eq!(Fixture::new(0o700).drive(run), Ok(()));
}

#[test]
fn flags_are_those_of_the_host() {
    let host = HostFlags {
        read_only: 0x1,
        directory: 0x10,
        no_follow: 0x20,
        close_on_exec: 0x40,
        at_no_follow: 0x2,
    };
    let path = listener_path(Some(b"d".to_vec()), Some(b"n".to_vec())).unwrap();
    let run = ListenerRun::mode_change(path, host, 0o620);
    assert!(matches!(
        run.request(),
        ListenerRequest::Open { path: b"d\0", flags: 0x71 }
    ));
    let mut run = run;
    for reply in [
        ListenerReply::Opened { fd: 3, code: 0 },
        ListenerReply::Inspected {
            result: 0,
            code: 0,
            status: FileStatus { uid: 1, mode: DIRECTORY | 0o700 },
        },
        ListenerReply::Identified { user: 1 },
    ] {
        run = match run.step(reply) {
            ListenerStep::Waiting(next) => next,
            ListenerStep::Done(_) => panic!("ended early"),
        };
    }
    assert!(matches!(
        run.request(),
        ListenerRequest::ChangeMode { fd: 3, name: b"n\0", mode: 0o620, flags: 0x802 }
    ));
    assert_eq!(AT_SYMLINK_NOFOLLOW_ANY, 0x800);

    let path = listener_path(Some(b"d".to_vec()), Some(b"n".to_vec())).unwrap();
    let run = ListenerRun::validation(path, host);
    assert!(matches!(
        run.request(),
        ListenerRequest::Open { path: b"d\0", flags: 0x71 }
    ));
}

#[test]
fn each_flag_of_this_host_is_asked_for() {
    let run = validate_listener_parent(Path::new("/run/app/service.sock")).unwrap();
    match run.request() {
        ListenerRequest::Open { flags, .. } => {
            assert_ne!(flags & libc::O_DIRECTORY, 0);
            assert_ne!(flags & libc::O_NOFOLLOW, 0);
            assert_ne!(flags & libc::O_CLOEXEC, 0);
            assert_eq!((flags & !libc::O_RDONLY).count_ones(), 3);
        }
        _ => panic!("opens nothing"),
    }
}

#[test]
fn secure_parent_is_the_opened_directory() {
    let mut run: ParentRun = open_secure_parent(Path::new("/run/app/service.sock")).unwrap();
    let mut fixture = Fixture::new(0o750);
    let parent = loop {
        let reply = fixture.reply(run.request());
        match run.step(reply) {
            ParentStep::Waiting(next) => run = next,
            ParentStep::Done(outcome) => {
                let parent = outcome.unwrap();
                break parent;
            }
        }
    };
    assert_eq!(fixture.asked, vec!["open", "fstat", "geteuid"]);
    assert_eq!(parent.fd(), 7);
    assert_eq!(parent.name(), b"service.sock\0");
}

#[test]
fn refused_parent_is_closed() {
    let mut run: ParentRun = open_secure_parent(Path::new("/run/app/service.sock")).unwrap();
    let mut fixture = Fixture::new(0o777);
    let error = loop {
        let reply = fixture.reply(run.request());
        match run.step(reply) {
            ParentStep::Waiting(next) => run = next,
            ParentStep::Done(outcome) => {
                let error = outcome.unwrap_err();
                break error;
            }
        }
    };
    assert_eq!(error, Error::ParentNotSecure);
    assert_eq!(fixture.asked, vec!["open", "fstat", "geteuid", "close"]);
}

#[test]
fn a_mode_is_changed_at_most_once() {
    let mut fixture = Fixture::new(0o700);
    let mut run = apply_bound_socket_mode(Path::new("/run/app/service.sock"), 0o600).unwrap();
    let mut changes = 0;
    loop {
        if matches!(run.request(), ListenerRequest::ChangeMode { .. }) {
            changes += 1;
        }
        let reply = fixture.reply(run.request());
        run = match run.step(reply) {
            ListenerStep::Waiting(next) => next,
            ListenerStep::Done(outcome) => {
                assert_eq!(outcome, Ok(()));
                break;
            }
        };
        if changes > 0 {
            run = match run.step(ListenerReply::Changed { result: 0, code: 0 }) {
                ListenerStep::Waiting(next) => next,
                ListenerStep::Done(_) => panic!("ended by a stray reply"),
            };
        }
    }
    assert_eq!(changes, 1);
}

#[test]
fn path_without_parent_or_name() {
    for path in ["/", ""] {
        let error = apply_bound_socket_mode(Path::new(path), 0o600).unwrap_err();
        assert!(matches!(error, PathError::NoParent));
        assert_eq!(error.kind(), ErrorKind::Other);
        assert_eq!(error.message(), Some("listener path has no parent"));
    }
    for path in ["/run/..", ".."] {
        let error = validate_listener_parent(Path::new(path)).unwrap_err();
        assert!(matches!(error, PathError::NoName));
        assert_eq!(error.kind(), ErrorKind::Other);
        assert_eq!(error.message(), Some("listener path has no name"));
    }
    assert!(matches!(listener_path(None, None), Err(PathError::NoParent)));
}

#[test]
fn path_halves() {
    for (path, parent, name) in [
        ("/run/app/service.sock", "/run/app\0", "service.sock\0"),
        ("service.sock", "\0", "service.sock\0"),
        ("/service.sock", "/\0", "service.sock\0"),
        ("a/b/", "a\0", "b\0"),
    ] {
        let halves = split_listener_path(Path::new(path)).unwrap();
        assert_eq!(halves.parent(), parent.as_bytes());
        assert_eq!(halves.name(), name.as_bytes());
    }
}

#[test]
fn path_with_interior_nul() {
    let error = open_secure_parent(Path::new("/r\0u\0n/s")).unwrap_err();
    assert_eq!(error.kind(), ErrorKind::InvalidInput);
    assert_eq!(error.message(), None);
    match error {
        PathError::InteriorNul { position, bytes } => {
            assert_eq!(position, 2);
            assert_eq!(bytes, b"/r\0u\0n");
        }
        _ => panic!("wrong error"),
    }
    match open_secure_parent(Path::new("/run/sock\0")).unwrap_err() {
        PathError::InteriorNul { position, bytes } => {
            assert_eq!(position, 4);
            assert_eq!(bytes, b"sock\0");
        }
        _ => panic!("wrong error"),
    }
    match split_listener_path(Path::new("/a\0b/\0")).unwrap_err() {
        PathError::InteriorNul { position, bytes } => {
            assert_eq!(position, 2);
            assert_eq!(bytes, b"/a\0b");
        }
        _ => panic!("wrong error"),
    }
}
