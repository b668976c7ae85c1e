use ipc_guard::error::{Error, ErrorKind};
use ipc_guard::pipe::{
    connect_local_system_server, connect_verified_server, PipeReply, PipeRequest, PipeRun,
    PipeStep,
};
use ipc_guard::process::{
    verify_process_is_local_system, ProcessCall, ProcessReply, ProcessRun, ProcessStep,
};
use ipc_guard::server::{
    verify_pipe_server, ConnectError, ServerCall, ServerReply, ServerStep, Verifier,
};
use windows_sys::Win32::Security::{
    TokenUser, WinLocalSystemSid, SECURITY_MAX_SID_SIZE, TOKEN_QUERY,
};
use windows_sys::Win32::Storage::FileSystem::{
    FILE_FLAG_OVERLAPPED, FILE_SHARE_READ, FILE_SHARE_WRITE, OPEN_EXISTING,
};
use windows_sys::Win32::System::Threading::PROCESS_QUERY_LIMITED_INFORMATION;

const PIPE: isize = 0x70;
const PROCESS: isize = 0x80;
const TOKEN: isize = 0x90;

/// A pipe, the process of its server, and a record of what was asked of them.
struct Fixture {
    pipe: (isize, i32),
    found: (i32, u32, i32),
    process: (isize, i32),
    token: (i32, i32),
    size: (u32, i32),
    user: (i32, i32),
    sid: (i32, i32),
    equal: i32,
    judgement: Result<(), String>,
    open: Vec<isize>,
    asked: Vec<&'static str>,
}

impl Fixture {
    fn new() -> Fixture {
        Fixture {
            pipe: (PIPE, 0),
            found: (1, 4242, 0),
            process: (PROCESS, 0),
            token: (1, 0),
            size: (44, 122),
            user: (1, 0),
            sid: (1, 0),
            equal: 1,
            judgement: Ok(()),
            open: vec![],
            asked: vec![],
        }
    }

    fn on_process(&mut self, call: ProcessCall) -> ProcessReply {
        match call {
            ProcessCall::OpenProcess { access, inherit, process_id } => {
                self.asked.push("OpenProcess");
                assert_eq!(access, PROCESS_QUERY_LIMITED_INFORMATION);
                assert_eq!(inherit, 0);
                assert_eq!(process_id, self.found.1);
                if self.process.0 != 0 {
                    self.open.push(self.process.0);
                }
                ProcessReply::Process { process: self.process.0, code: self.process.1 }
            }
            ProcessCall::OpenToken { process, access } => {
                self.asked.push("OpenProcessToken");
                assert_eq!(process, self.process.0);
                assert_eq!(access, TOKEN_QUERY);
                if self.token.0 != 0 {
                    self.open.push(TOKEN);
                }
                ProcessReply::Token { result: self.token.0, token: TOKEN, code: self.token.1 }
            }
            ProcessCall::MeasureUser { token, class } => {
                self.asked.push("GetTokenInformation size");
                assert_eq!(token, TOKEN);
                assert_eq!(class, TokenUser);
                ProcessReply::Measured { size: self.size.0, code: self.size.1 }
            }
            ProcessCall::ReadUser { token, class, size } => {
                self.asked.push("GetTokenInformation");
                assert_eq!(token, TOKEN);
                assert_eq!(class, TokenUser);
                assert_eq!(size, self.size.0);
                ProcessReply::UserRead { result: self.user.0, code: self.user.1 }
            }
            ProcessCall::BuildSid { kind, size } => {
                self.asked.push("CreateWellKnownSid");
                assert_eq!(kind, WinLocalSystemSid);
                assert_eq!(size, SECURITY_MAX_SID_SIZE);
                ProcessReply::SidBuilt { result: self.sid.0, code: self.sid.1 }
            }
            ProcessCall::CompareSids => {
                self.asked.push("EqualSid");
                ProcessReply::Compared { result: self.equal }
            }
            ProcessCall::Close { handle } => {
                self.asked.push("CloseHandle");
                let held = self.open.iter().position(|open| *open == handle);
                self.open.remove(held.unwrap());
                ProcessReply::Closed
            }
        }
    }

    fn on_server(&mut self, call: ServerCall) -> ServerReply<String> {
        match call {
            ServerCall::FindProcess { pipe } => {
                self.asked.push("GetNamedPipeServerProcessId");
                assert_eq!(pipe, self.pipe.0);
                ServerReply::Found {
                    result: self.found.0,
                    process_id: self.found.1,
                    code: self.found.2,
                }
            }
            ServerCall::Process(call) => ServerReply::Process(self.on_process(call)),
            ServerCall::Judge { process_id } => {
                self.asked.push("verifier");
                assert_eq!(process_id, self.found.1);
                ServerReply::Judged(self.judgement.clone())
            }
        }
    }

    fn reply(&mut self, request: PipeRequest<'_>) -> PipeReply<String> {
        match request {
            PipeRequest::Open { path, access, share, disposition, flags } => {
                self.asked.push("CreateFileW");
                assert_eq!(path, name("\\\\.\\pipe\\app\0").as_slice());
                assert_eq!(access, 3);
                assert_eq!(share, FILE_SHARE_READ | FILE_SHARE_WRITE);
                assert_eq!(disposition, OPEN_EXISTING);
                assert_eq!(flags, FILE_FLAG_OVERLAPPED);
                if self.pipe.0 != -1 {
                    self.open.push(self.pipe.0);
                }
                PipeReply::Opened { pipe: self.pipe.0, code: self.pipe.1 }
            }
            PipeRequest::Server(call) => PipeReply::Server(self.on_server(call)),
            PipeRequest::Close { pipe } => {
                self.asked.push("CloseHandle");
                let held = self.open.iter().position(|open| *open == pipe);
                self.open.remove(held.unwrap());
                PipeReply::Closed
            }
        }
    }

    fn drive(&mut self, mut run: PipeRun<String>) -> Result<isize, ConnectError<String>> {
        loop {
            let reply = self.reply(run.request());
            match run.step(reply) {
                PipeStep::Waiting(next) => run = next,
                PipeStep::Done(outcome) => {
                    match &outcome {
                        Ok(pipe) => assert_eq!(self.open, vec![*pipe]),
                        Err(_) => assert_eq!(self.open, Vec::<isize>::new()),
                    }
                    return outcome;
                }
            }
        }
    }

    fn drive_process(&mut self, mut run: ProcessRun) -> Result<(), Error> {
        loop {
            let reply = self.on_process(run.request());
            match run.step(reply) {
                ProcessStep::Waiting(next) => run = next,
                ProcessStep::Done(outcome) => {
                    assert_eq!(self.open, Vec::<isize>::new());
                    return outcome;
                }
            }
        }
    }

    fn connect_local_system(&mut self) -> Result<isize, ConnectError<String>> {
        let run = connect_local_system_server(name("\\\\.\\pipe\\app")).unwrap();
        self.drive(run)
    }

    fn connect_verified(&mut self) -> Result<isize, ConnectError<String>> {
        let run = connect_verified_server(name("\\\\.\\pipe\\app"), Verifier::Caller).unwrap();
        self.drive(run)
    }
}

fn name(text: &str) -> Vec<u16> {
    text.encode_utf16().collect()
}

fn refused(outcome: Result<isize, ConnectError<String>>) -> Error {
    match outcome {
        Err(ConnectError::Refused(error)) => error,
        _ => panic!("not refused"),
    }
}

#[test]
fn rejects_a_non_system_server_process() {
    let mut fixture = Fixture::new();
    fixture.equal = 0;
    let result = fixture.drive_process(verify_process_is_local_system(4242));
    assert!(matches!(
        result,
        Err(ref error) if error.kind() == Some(ErrorKind::PermissionDenied)
    ));
    assert_eq!(result, Err(Error::NotLocalSystem));
}

#[test]
fn accepts_a_system_server_process() {
    let mut fixture = Fixture::new();
    assert_eq!(
        fixture.drive_process(verify_process_is_local_system(4242)),
        Ok(())
    );
    assert_eq!(
        fixture.asked,
        vec![
            "OpenProcess",
            "OpenProcessToken",
            "GetTokenInformation size",
            "GetTokenInformation",
            "CreateWellKnownSid",
            "EqualSid",
            "CloseHandle",
            "CloseHandle"
        ]
    );
}

#[test]
fn connects_to_a_local_system_server() {
    let mut fixture = Fixture::new();
    assert!(matches!(fixture.connect_local_system(), Ok(PIPE)));
    assert_eq!(fixture.asked.len(), 10);
    assert_eq!(fixture.asked[0], "CreateFileW");
    assert_eq!(fixture.asked[1], "GetNamedPipeServerProcessId");
    assert_eq!(fixture.asked[7], "EqualSid");
}

#[test]
fn connects_to_no_other_server() {
    let mut fixture = Fixture::new();
    fixture.equal = 0;
    let error = refused(fixture.connect_local_system());
    assert_eq!(error, Error::NotLocalSystem);
    assert_eq!(
        error.message(),
        Some("Windows named-pipe server is not LocalSystem")
    );
}

#[test]
fn failed_process_calls_report_their_code() {
    let mut fixture = Fixture::new();
    fixture.process = (0, 5);
    assert_eq!(refused(fixture.connect_local_system()), Error::Os { code: 5 });
    assert_eq!(fixture.asked.len(), 4);

    let mut fixture = Fixture::new();
    fixture.token = (0, 6);
    assert_eq!(refused(fixture.connect_local_system()), Error::Os { code: 6 });
    assert_eq!(fixture.asked.len(), 6);

    let mut fixture = Fixture::new();
    fixture.size = (0, 7);
    assert_eq!(refused(fixture.connect_local_system()), Error::Os { code: 7 });
    assert_eq!(fixture.asked.len(), 8);

    let mut fixture = Fixture::new();
    fixture.user = (0, 8);
    assert_eq!(refused(fixture.connect_local_system()), Error::Os { code: 8 });
    assert_eq!(fixture.asked.len(), 9);

    let mut fixture = Fixture::new();
    fixture.sid = (0, 9);
    assert_eq!(refused(fixture.connect_local_system()), Error::Os { code: 9 });
    assert_eq!(fixture.asked.len(), 10);
}

#[test]
fn failed_pipe_calls_report_their_code() {
    let mut fixture = Fixture::new();
    fixture.pipe = (-1, 2);
    assert_eq!(refused(fixture.connect_local_system()), Error::Os { code: 2 });
    assert_eq!(fixture.asked, vec!["CreateFileW"]);

    for found in [(0, 4242, 31), (1, 0, 31), (0, 0, 31)] {
        let mut fixture = Fixture::new();
        fixture.found = found;
        assert_eq!(refused(fixture.connect_verified()), Error::Os { code: 31 });
        assert_eq!(
            fixture.asked,
            vec!["CreateFileW", "GetNamedPipeServerProcessId", "CloseHandle"]
        );
    }
}

#[test]
fn null_is_no_failed_pipe() {
    let mut fixture = Fixture::new();
    fixture.pipe = (0, 0);
    assert!(matches!(fixture.connect_verified(), Ok(0)));
}

#[test]
fn the_caller_decides_on_its_own() {
    let mut fixture = Fixture::new();
    fixture.equal = 0;
    assert!(matches!(fixture.connect_verified(), Ok(PIPE)));
    assert_eq!(
        fixture.asked,
        vec!["CreateFileW", "GetNamedPipeServerProcessId", "verifier"]
    );

    let mut fixture = Fixture::new();
    fixture.judgement = Err("not this one".to_string());
    match fixture.connect_verified() {
        Err(ConnectError::Judged(error)) => assert_eq!(error, "not this one"),
        _ => panic!("not judged"),
    }
}

#[test]
fn server_alone() {
    let mut fixture = Fixture::new();
    fixture.open.push(PIPE);
    let mut run = verify_pipe_server(PIPE, Verifier::LocalSystem);
    loop {
        let reply = fixture.on_server(run.request());
        match run.step(reply) {
            ServerStep::Waiting(next) => run = next,
            ServerStep::Done(outcome) => {
                assert!(outcome.is_ok());
                break;
            }
        }
    }
    assert_eq!(fixture.asked.len(), 9);
    assert_eq!(fixture.open, vec![PIPE]);
}

#[test]
fn pipe_path_with_nul() {
    for path in ["a\0b", "\0", "ab\0"] {
        let error = connect_local_system_server::<String>(name(path)).unwrap_err();
        assert_eq!(error, Error::PipePathContainsNul);
        assert_eq!(error.kind(), Some(ErrorKind::InvalidInput));
        assert_eq!(error.message(), Some("named-pipe path contains NUL"));
        assert!(connect_verified_server::<String>(name(path), Verifier::Caller).is_err());
    }
    assert!(connect_local_system_server::<String>(vec![]).is_ok());
}

#[test]
fn stray_pipe_replies_change_nothing() {
    let run = connect_local_system_server::<String>(name("\\\\.\\pipe\\app")).unwrap();
    let run = match run.step(PipeReply::Server(ServerReply::Process(
        ProcessReply::Compared { result: 1 },
    ))) {
        PipeStep::Waiting(run) => run,
        PipeStep::Done(_) => panic!("ended by a stray reply"),
    };
    let run = match run.step(PipeReply::Opened { pipe: PIPE, code: 0 }) {
        PipeStep::Waiting(run) => run,
        PipeStep::Done(_) => panic!("ended early"),
    };
    let run = match run.step(PipeReply::Server(ServerReply::Judged(Ok(())))) {
        PipeStep::Waiting(run) => run,
        PipeStep::Done(_) => panic!("ended by a stray reply"),
    };
    let mut fixture = Fixture::new();
    fixture.open.push(PIPE);
    assert!(matches!(fixture.drive(run), Ok(PIPE)));
    assert_eq!(fixture.asked.len(), 9);
}
