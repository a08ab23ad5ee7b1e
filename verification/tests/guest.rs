use nanocodex::command::{
    advance_command, command_fault_message, command_plan, execute_response, kill_result,
    process_group, BoundedOutput, CommandEvent, CommandFault, CommandOutcome, CommandProgress,
    CommandStep, Drain, GroupKill, Pipes, ProcessGroupGuard, StreamPlan, WaitOutcome,
};
use nanocodex::frame::{encode_frame, response_frame, FrameReader, FrameStep};
use nanocodex::guest_error::{VmGuestError, MAX_FRAME_BYTES};
use nanocodex::guest_files::{
    admit_control_read, advance_write, control_read_limit, finish_control_read, read_file_response,
    shutdown_response, write_file_response, write_plan, SyncOutcome, WriteProgress, WriteStep,
    MAX_CONTROL_FILE_BYTES,
};
use nanocodex::protocol::{
    CancelRequest, ExecuteRequest, ReadyRequest, SessionRequest, SessionResponse, ShutdownRequest,
};
use nanocodex::session::{
    dispatch, tool_response, Joined, Session, SessionAction, Work, MAX_IN_FLIGHT_REQUESTS,
};

fn execute(id: u64) -> SessionRequest {
    SessionRequest::Execute(ExecuteRequest {
        id,
        program: "/bin/sh".to_owned(),
        arguments: vec!["-c".to_owned(), "sleep 30 & wait".to_owned()],
        current_directory: "/".to_owned(),
        environment: Vec::new(),
        timeout_millis: 60_000,
        max_output_bytes: 8,
    })
}

fn start(session: &mut Session<&'static str>, id: u64, task: &'static str) {
    match session.take(execute(id)) {
        Ok(SessionAction::Start { id: started, .. }) => {
            assert_eq!(started, id);
            session.started(started, task);
        }
        _ => panic!("the request must start"),
    }
}

fn finished(id: u64) -> SessionResponse {
    SessionResponse::Execute(execute_response(id, Ok(CommandOutcome::TimedOut)))
}

#[test]
fn frames_are_lines_in_any_pieces() {
    let mut reader = FrameReader::new();
    assert!(matches!(
        reader.feed(b"{\"a\""),
        Ok(FrameStep::Partial { consumed: 4 })
    ));
    match reader.feed(b":1}\r\nrest") {
        Ok(FrameStep::Frame { consumed, frame }) => {
            assert_eq!(consumed, 5);
            assert_eq!(frame, b"{\"a\":1}");
        }
        _ => panic!("the frame is complete"),
    }
    match reader.feed(b"\n") {
        Ok(FrameStep::Frame { consumed, frame }) => {
            assert_eq!(consumed, 1);
            assert!(frame.is_empty());
        }
        _ => panic!("an empty line is a frame"),
    }
    assert!(matches!(reader.feed(b""), Ok(FrameStep::EndOfInput)));
    assert!(matches!(
        reader.feed(b"x"),
        Ok(FrameStep::Partial { consumed: 1 })
    ));
    assert!(matches!(reader.feed(b""), Err(VmGuestError::Closed)));
}

#[test]
fn frames_have_a_limit() {
    let mut reader = FrameReader::new();
    let largest = vec![b'a'; MAX_FRAME_BYTES];
    assert!(matches!(
        reader.feed(&largest),
        Ok(FrameStep::Partial { .. })
    ));
    assert!(matches!(
        reader.feed(b"b\n"),
        Err(VmGuestError::FrameTooLarge)
    ));
    match reader.feed(b"\n") {
        Ok(FrameStep::Frame { frame, .. }) => assert_eq!(frame.len(), MAX_FRAME_BYTES),
        _ => panic!("a frame of the largest size is read"),
    }
    let framed = response_frame(largest).unwrap();
    assert_eq!(framed.len(), MAX_FRAME_BYTES + 1);
    assert_eq!(framed.last(), Some(&b'\n'));
    assert!(matches!(
        response_frame(framed),
        Err(VmGuestError::FrameTooLarge)
    ));
}

#[test]
fn written_frames_are_read_back() {
    let framed = response_frame(b"{\"id\":1}".to_vec()).unwrap();
    match FrameReader::new().feed(&framed) {
        Ok(FrameStep::Frame { consumed, frame }) => {
            assert_eq!(consumed, framed.len());
            assert_eq!(frame, b"{\"id\":1}");
        }
        _ => panic!("the frame is complete"),
    }
}

#[test]
fn guest_errors_describe_themselves() {
    assert_eq!(
        VmGuestError::Io(std::io::Error::other("broken pipe")).message(),
        "VM tool console I/O failed: broken pipe"
    );
    let json = serde_json::from_str::<u8>("x").unwrap_err();
    assert!(VmGuestError::Json(json)
        .message()
        .starts_with("VM tool protocol JSON failed: expected value"));
    assert_eq!(
        VmGuestError::Closed.message(),
        "the VM tool console closed before a complete frame"
    );
    assert_eq!(
        VmGuestError::Task("panicked".to_owned()).message(),
        "guest tool execution task failed: panicked"
    );
    assert_eq!(
        VmGuestError::FrameTooLarge.message(),
        "VM tool protocol frame exceeded the 67108864-byte limit"
    );
    assert_eq!(
        VmGuestError::DuplicateRequestId(12).message(),
        "VM tool protocol reused active request ID 12"
    );
}

#[test]
fn requests_run_side_by_side_up_to_the_limit() {
    let mut session = Session::new();
    for id in 0..MAX_IN_FLIGHT_REQUESTS as u64 {
        assert!(session.reading());
        start(&mut session, id, "task");
    }
    assert!(!session.reading());
    assert!(session.joining());
    let response = session.join(Joined::Response(finished(3))).unwrap().unwrap();
    assert_eq!(response.id(), 3);
    assert!(session.reading());
    start(&mut session, 3, "again");
    assert!(!session.reading());
}

#[test]
fn responses_answer_requests_that_were_started() {
    let mut session = Session::new();
    start(&mut session, 5, "first");
    assert!(session.awaits(5));
    assert!(!session.awaits(9));
    let cancel = SessionRequest::Cancel(CancelRequest { id: 6, target_id: 5 });
    assert!(session.take(cancel).is_ok());
    start(&mut session, 5, "second");
    assert!(session.join(Joined::Aborted(5)).unwrap().is_none());
    assert!(session.awaits(5));
    let response = session.join(Joined::Response(finished(5))).unwrap().unwrap();
    assert_eq!(response.id(), 5);
    assert!(!session.awaits(5));
    assert!(!session.joining());
}

#[test]
fn encoded_frames_are_single_lines() {
    let text = serde_json::Value::String("one\ntwo\r".to_owned());
    let frame = encode_frame(&text).unwrap();
    assert_eq!(frame, b"\"one\\ntwo\\r\"\n");
    let mut reader = FrameReader::new();
    match reader.feed(&frame) {
        Ok(FrameStep::Frame { consumed, frame: read }) => {
            assert_eq!(consumed, frame.len());
            assert_eq!(read, frame[..frame.len() - 1]);
        }
        _ => panic!("a written frame is read back"),
    }
    assert!(matches!(reader.feed(b""), Ok(FrameStep::EndOfInput)));

    let long = serde_json::Value::String("x".repeat(MAX_FRAME_BYTES - 2));
    assert_eq!(encode_frame(&long).unwrap().len(), MAX_FRAME_BYTES + 1);
    let longer = serde_json::Value::String("x".repeat(MAX_FRAME_BYTES - 1));
    assert!(matches!(
        encode_frame(&longer),
        Err(VmGuestError::FrameTooLarge)
    ));
}

#[test]
fn active_identifiers_are_not_reused() {
    let mut session = Session::new();
    start(&mut session, 5, "first");
    assert!(matches!(
        session.take(execute(5)),
        Err(VmGuestError::DuplicateRequestId(5))
    ));
}

#[test]
fn a_shutdown_waits_for_aborted_work_and_then_answers() {
    let mut session = Session::new();
    start(&mut session, 0, "sleeping");
    let shutdown = SessionRequest::Shutdown(ShutdownRequest { id: 1 });
    assert_eq!(shutdown.id(), 1);
    assert!(matches!(session.take(shutdown), Ok(SessionAction::Stop)));
    assert!(!session.reading());
    assert!(session.running());
    assert!(session.awaits(0));
    assert!(session.join(Joined::Aborted(0)).unwrap().is_none());
    assert!(!session.awaits(0));
    assert!(!session.running());
    let request = session.finish().unwrap();
    let response = shutdown_response(request, SyncOutcome::Succeeded);
    assert_eq!(response.id, 1);
    assert_eq!(response.error, None);
}

#[test]
fn a_cancel_aborts_only_its_target() {
    let mut session = Session::new();
    start(&mut session, 0, "target");
    start(&mut session, 2, "bystander");
    let cancel = |id, target_id| SessionRequest::Cancel(CancelRequest { id, target_id });
    match session.take(cancel(1, 0)) {
        Ok(SessionAction::Acknowledge { abort, response }) => {
            assert_eq!(abort, Some("target"));
            assert_eq!(response.id(), 1);
            assert!(matches!(
                response,
                SessionResponse::Cancel(control) if control.error.is_none()
            ));
        }
        _ => panic!("a cancel is acknowledged"),
    }
    match session.take(cancel(3, 0)) {
        Ok(SessionAction::Acknowledge { abort, .. }) => assert_eq!(abort, None),
        _ => panic!("a cancel is acknowledged"),
    }
    match session.take(cancel(4, 2)) {
        Ok(SessionAction::Acknowledge { abort, .. }) => assert_eq!(abort, Some("bystander")),
        _ => panic!("a cancel is acknowledged"),
    }
}

#[test]
fn a_closed_input_ends_a_session_without_an_answer() {
    let mut session = Session::new();
    start(&mut session, 0, "sleeping");
    session.input_ended();
    assert!(session.running());
    assert!(session.awaits(0));
    assert!(session.join(Joined::Aborted(0)).unwrap().is_none());
    assert!(!session.awaits(0));
    assert!(!session.running());
    assert!(session.finish().is_none());
}

#[test]
fn failed_tasks_end_a_session() {
    let mut session = Session::new();
    start(&mut session, 0, "panics");
    start(&mut session, 1, "waits");
    assert!(matches!(
        session.join(Joined::Failed(0, "boom".to_owned())),
        Err(VmGuestError::Task(error)) if error == "boom"
    ));
    assert!(matches!(
        session.join(Joined::Nothing),
        Err(VmGuestError::Closed)
    ));
}

#[test]
fn requests_are_dispatched_by_their_kind() {
    let ready = SessionRequest::Ready(ReadyRequest { id: 9 });
    match dispatch(ready) {
        Work::Reply(SessionResponse::Ready(response)) => {
            assert_eq!(response.id, 9);
            assert_eq!(response.error, None);
        }
        _ => panic!("readiness is answered at once"),
    }
    assert!(matches!(dispatch(execute(1)), Work::Execute(request) if request.id == 1));
    match dispatch(SessionRequest::Shutdown(ShutdownRequest { id: 2 })) {
        Work::Reply(SessionResponse::Shutdown(response)) => assert_eq!(
            response.error.as_deref(),
            Some("shutdown cannot be dispatched as a concurrent request")
        ),
        _ => panic!("a shutdown is refused"),
    }
    let cancel = CancelRequest { id: 3, target_id: 0 };
    match dispatch(SessionRequest::Cancel(cancel)) {
        Work::Reply(SessionResponse::Cancel(response)) => assert_eq!(
            response.error.as_deref(),
            Some("cancel cannot be dispatched as a concurrent request")
        ),
        _ => panic!("a cancel is refused"),
    }
    match tool_response(4, Err("not encodable".to_owned())) {
        SessionResponse::Tool(response) => {
            assert_eq!(response.id, 4);
            assert_eq!(response.execution, None);
            assert_eq!(response.error.as_deref(), Some("not encodable"));
        }
        _ => panic!("a tool call has a tool response"),
    }
    match tool_response(4, Ok("{}".to_owned())) {
        SessionResponse::Tool(response) => assert_eq!(response.execution.as_deref(), Some("{}")),
        _ => panic!("a tool call has a tool response"),
    }
}

#[test]
fn control_reads_admit_regular_files_up_to_a_limit() {
    assert_eq!(
        admit_control_read(false, 0),
        Err("control reads require a regular file".to_owned())
    );
    assert_eq!(
        admit_control_read(true, MAX_CONTROL_FILE_BYTES as u64),
        Ok(MAX_CONTROL_FILE_BYTES)
    );
    assert_eq!(
        admit_control_read(true, 33_554_433),
        Err("file is 33554433 bytes, exceeding the 33554432-byte control limit".to_owned())
    );
    assert_eq!(control_read_limit(), 33_554_433);
    assert_eq!(
        finish_control_read(vec![0; MAX_CONTROL_FILE_BYTES + 1]),
        Err("file grew beyond the 33554432-byte control limit while reading".to_owned())
    );
    let contents = finish_control_read(vec![1, 2]).unwrap();
    let response = read_file_response(1, Ok(contents));
    assert_eq!(response.contents, Some(vec![1, 2]));
    assert_eq!(response.error, None);
    let response = read_file_response(1, admit_control_read(false, 0).map(|_| Vec::new()));
    assert!(response.contents.is_none());
    assert!(response
        .error
        .is_some_and(|error| error.contains("regular file")));
}

#[test]
fn writes_go_through_a_temporary_file_in_the_same_directory() {
    let plan = write_plan("/etc/app/config.toml", 7, 0o600).unwrap();
    assert_eq!(plan.directory.display(), "/etc/app");
    assert_eq!(
        plan.temporary.display(),
        "/etc/app/.config.toml.nanocodex-7.tmp"
    );
    assert_eq!(plan.target.display(), "/etc/app/config.toml");
    assert_eq!(plan.mode, 0o600);
    let relative = write_plan("notes.txt", 0, 0o644).unwrap();
    assert_eq!(relative.directory.display(), "");
    assert_eq!(relative.temporary.display(), ".notes.txt.nanocodex-0.tmp");
    assert_eq!(
        write_plan("/", 1, 0o644).err().as_deref(),
        Some("file path has no parent")
    );
    assert_eq!(
        write_plan("a/..", 1, 0o644).err().as_deref(),
        Some("file path has no name")
    );
}

#[test]
fn failed_writes_remove_their_temporary_file() {
    let run = |ends: [Result<(), &'static str>; 4]| {
        let mut step = WriteStep::CreateDirectory;
        let mut removed = false;
        loop {
            let end = match &step {
                WriteStep::CreateDirectory => ends[0],
                WriteStep::WriteTemporary => ends[1],
                WriteStep::Rename => ends[2],
                WriteStep::RemoveTemporary(_) => {
                    removed = true;
                    ends[3]
                }
            };
            match advance_write(step, end) {
                WriteProgress::Continue(next) => step = next,
                WriteProgress::Finished(result) => return (result, removed),
            }
        }
    };
    assert_eq!(run([Ok(()), Ok(()), Ok(()), Ok(())]), (Ok(()), false));
    assert_eq!(
        run([Err("mkdir"), Ok(()), Ok(()), Ok(())]),
        (Err("mkdir"), false)
    );
    assert_eq!(
        run([Ok(()), Err("write"), Ok(()), Err("remove")]),
        (Err("write"), true)
    );
    assert_eq!(
        run([Ok(()), Ok(()), Err("rename"), Ok(())]),
        (Err("rename"), true)
    );
    assert_eq!(
        write_file_response(3, Err("rename".to_owned())).error.as_deref(),
        Some("rename")
    );
    assert_eq!(write_file_response(3, Ok(())).error, None);
}

#[test]
fn shutdown_reports_what_synchronizing_came_to() {
    let request = ShutdownRequest { id: 4 };
    assert_eq!(
        shutdown_response(request, SyncOutcome::Exited("exit status: 1".to_owned()))
            .error
            .as_deref(),
        Some("sync exited with exit status: 1")
    );
    assert_eq!(
        shutdown_response(request, SyncOutcome::Failed("not found".to_owned()))
            .error
            .as_deref(),
        Some("not found")
    );
}

#[test]
fn output_is_kept_up_to_a_limit_shared_by_both_streams() {
    let mut stdout = BoundedOutput::new();
    let mut stderr = BoundedOutput::new();
    assert!(!stdout.accept(8, 0, b"bound"));
    assert!(!stderr.accept(8, 5, b"ed"));
    assert!(stdout.accept(8, 7, b"more"));
    assert!(!stdout.accept(8, 11, b"still more"));
    assert!(stderr.accept(8, 21, b"x"));
    assert_eq!(stdout.into_output(), b"boundm");
    assert_eq!(stderr.into_output(), b"ed");
}

fn drive(
    limit: usize,
    events: Vec<CommandEvent<String>>,
) -> (Result<CommandOutcome, CommandFault<String>>, bool) {
    let mut step = CommandStep::Spawn;
    for event in events {
        let progress = advance_command(limit, step, event);
        let releases = progress.releases_group();
        match progress {
            CommandProgress::Continue(next) => step = next,
            CommandProgress::Finished(result) => return (result, releases),
        }
    }
    panic!("the command has not ended");
}

fn spawned() -> CommandEvent<String> {
    CommandEvent::Spawned(Ok(Pipes {
        stdout: true,
        stderr: true,
    }))
}

fn drained(read: usize) -> CommandEvent<String> {
    CommandEvent::Drained(Drain::Ended {
        stdout: b"out".to_vec(),
        stderr: b"err".to_vec(),
        read,
    })
}

#[test]
fn a_command_that_exits_is_completed() {
    let exited = CommandEvent::Waited(Ok(WaitOutcome::Exited { code: Some(3) }));
    let (ended, releases) = drive(8, vec![spawned(), exited, drained(6)]);
    assert!(releases);
    let response = execute_response(1, ended.map_err(command_fault_message));
    assert_eq!(response.exit_code, Some(3));
    assert_eq!(response.stdout.as_deref(), Some(&b"out"[..]));
    assert_eq!(response.stderr.as_deref(), Some(&b"err"[..]));
    assert_eq!(response.error, None);

    let killed = CommandEvent::Waited(Ok(WaitOutcome::Exited { code: None }));
    let (ended, _) = drive(8, vec![spawned(), killed, drained(6)]);
    let response = execute_response(1, ended.map_err(command_fault_message));
    assert_eq!(response.exit_code, Some(1));

    let exited = CommandEvent::Waited(Ok(WaitOutcome::Exited { code: Some(0) }));
    let (ended, _) = drive(8, vec![spawned(), exited, drained(9)]);
    let response = execute_response(1, ended.map_err(command_fault_message));
    assert!(response.output_limit_exceeded);
    assert_eq!(response.stdout, None);
}

#[test]
fn a_command_past_its_deadline_is_killed_and_reaped() {
    let (ended, releases) = drive(
        8,
        vec![
            spawned(),
            CommandEvent::Waited(Ok(WaitOutcome::TimedOut)),
            CommandEvent::Tried(Ok(None)),
            CommandEvent::Killed(Ok(())),
            CommandEvent::Reaped(Ok(())),
            drained(0),
        ],
    );
    assert!(releases);
    let response = execute_response(1, ended.map_err(command_fault_message));
    assert!(response.timed_out);
    assert!(response.error.is_none());

    let (ended, _) = drive(
        8,
        vec![
            spawned(),
            CommandEvent::Waited(Ok(WaitOutcome::TimedOut)),
            CommandEvent::Tried(Ok(Some(Some(0)))),
            drained(0),
        ],
    );
    assert!(matches!(ended, Ok(CommandOutcome::Completed { .. })));
}

#[test]
fn too_much_output_ends_a_command() {
    let (ended, _) = drive(
        8,
        vec![
            spawned(),
            CommandEvent::Waited(Ok(WaitOutcome::OutputLimitExceeded)),
            CommandEvent::Tried(Ok(None)),
            CommandEvent::Killed(Ok(())),
            CommandEvent::Reaped(Ok(())),
            drained(9),
        ],
    );
    let response = execute_response(1, ended.map_err(command_fault_message));
    assert!(response.output_limit_exceeded);
    assert!(!response.timed_out);
    assert!(response.error.is_none());
    assert!(response.stdout.is_none());
    assert!(response.stderr.is_none());
}

#[test]
fn faults_leave_the_process_group_to_its_guard() {
    let message = |events| {
        let (ended, releases) = drive(8, events);
        assert!(!releases);
        execute_response(1, ended.map_err(command_fault_message))
            .error
            .unwrap()
    };
    let failed = || "failed".to_owned();
    let exited = || CommandEvent::Waited(Ok(WaitOutcome::Exited { code: Some(0) }));
    let late = || CommandEvent::Waited(Ok(WaitOutcome::TimedOut));
    assert_eq!(message(vec![CommandEvent::Spawned(Err(failed()))]), "failed");
    assert_eq!(
        message(vec![CommandEvent::Spawned(Ok(Pipes {
            stdout: false,
            stderr: true,
        }))]),
        "guest command stdout was not piped"
    );
    assert_eq!(
        message(vec![CommandEvent::Spawned(Ok(Pipes {
            stdout: true,
            stderr: false,
        }))]),
        "guest command stderr was not piped"
    );
    assert_eq!(
        message(vec![spawned(), CommandEvent::Waited(Err(failed()))]),
        "failed"
    );
    assert_eq!(
        message(vec![spawned(), late(), CommandEvent::Tried(Err(failed()))]),
        "failed"
    );
    assert_eq!(
        message(vec![
            spawned(),
            exited(),
            CommandEvent::Drained(Drain::Failed(failed())),
        ]),
        "failed"
    );
    assert_eq!(
        message(vec![
            spawned(),
            exited(),
            CommandEvent::Drained(Drain::TimedOut),
            CommandEvent::Killed(Err(failed())),
        ]),
        "guest command descendants kept output pipes open"
    );
}

#[test]
fn groups_are_killed_and_guarded() {
    assert_eq!(process_group(Some(42)), Some(42));
    assert_eq!(process_group(Some(u32::MAX)), None);
    assert_eq!(process_group(None), None);
    let mut guard = ProcessGroupGuard::new(Some(42));
    assert_eq!(guard.target(), Some(42));
    guard.disarm();
    assert_eq!(guard.target(), None);
    assert_eq!(kill_result(Err("child"), GroupKill::NoGroup), Err("child"));
    assert_eq!(kill_result(Err("child"), GroupKill::Delivered), Ok(()));
    assert_eq!(kill_result(Err("child"), GroupKill::Gone), Ok(()));
    assert_eq!(kill_result(Err("child"), GroupKill::NotPermitted), Ok(()));
    assert_eq!(
        kill_result(Ok(()), GroupKill::Failed("group")),
        Err("group")
    );
}

#[test]
fn output_within_the_limit_is_kept_whole() {
    let mut stdout = BoundedOutput::new();
    let mut stderr = BoundedOutput::new();
    assert!(!stdout.accept(9, 0, b"one"));
    assert!(!stderr.accept(9, 3, b"two"));
    assert!(!stdout.accept(9, 6, b"end"));
    let drained = CommandEvent::Drained(Drain::Ended {
        stdout: stdout.into_output(),
        stderr: stderr.into_output(),
        read: 9,
    });
    let exited = WaitOutcome::Exited { code: Some(0) };
    match advance_command::<String>(9, CommandStep::Drain(exited), drained) {
        CommandProgress::Finished(Ok(CommandOutcome::Completed { stdout, stderr, .. })) => {
            assert_eq!(stdout, b"oneend");
            assert_eq!(stderr, b"two");
        }
        _ => panic!("the command has completed"),
    }
}

#[test]
fn a_read_gives_back_what_was_written() {
    let mut files = std::collections::BTreeMap::<Vec<u8>, (Vec<u8>, u32)>::new();
    let contents = b"written".to_vec();
    let plan = write_plan("/guest/file", 7, 0o640).unwrap();
    let mut step = WriteStep::<String>::CreateDirectory;
    loop {
        match &step {
            WriteStep::WriteTemporary => {
                files.insert(
                    plan.temporary.as_bytes().to_vec(),
                    (contents.clone(), plan.mode),
                );
            }
            WriteStep::Rename => {
                let moved = files.remove(plan.temporary.as_bytes()).unwrap();
                files.insert(plan.target.as_bytes().to_vec(), moved);
            }
            _ => {}
        }
        match advance_write(step, Ok(())) {
            WriteProgress::Continue(next) => step = next,
            WriteProgress::Finished(ended) => {
                assert_eq!(ended, Ok(()));
                break;
            }
        }
    }
    assert_eq!(files.len(), 1);
    let (file, mode) = files.get(b"/guest/file".as_slice()).unwrap();
    assert_eq!(*mode, 0o640);
    let read = admit_control_read(true, file.len() as u64)
        .and_then(|_| finish_control_read(file.clone()));
    let response = read_file_response(8, read);
    assert_eq!(response.id, 8);
    assert_eq!(response.contents, Some(contents));
    assert_eq!(response.error, None);
}

#[test]
fn commands_start_in_a_world_of_their_own() {
    let plan = command_plan(ExecuteRequest {
        id: 3,
        program: "/bin/sh".to_owned(),
        arguments: vec!["-c".to_owned(), "env".to_owned()],
        current_directory: "/workspace".to_owned(),
        environment: vec![("NAME".to_owned(), "value".to_owned())],
        timeout_millis: 1500,
        max_output_bytes: 4096,
    });
    assert_eq!(plan.program, "/bin/sh");
    assert_eq!(plan.arguments, ["-c", "env"]);
    assert_eq!(plan.current_directory, "/workspace");
    assert!(!plan.inherits_environment);
    assert_eq!(
        plan.environment,
        [("NAME".to_owned(), "value".to_owned())]
    );
    assert_eq!(plan.stdin, StreamPlan::Null);
    assert_eq!(plan.stdout, StreamPlan::Piped);
    assert_eq!(plan.stderr, StreamPlan::Piped);
    assert!(plan.own_process_group);
    assert!(plan.kill_on_drop);
    assert_eq!(plan.timeout_millis, 1500);
    assert_eq!(plan.max_output_bytes, 4096);
}
