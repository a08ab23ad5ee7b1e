//! What running a command, and reading or writing a file, inside a guest come to.
use vstd::prelude::*;
use vstd::string::*;
use vstd::utf8::*;

use crate::command::{
    accepted, advance_command, command_advanced, command_expects, command_fault_message,
    command_plan, execute_response, kept, kill_result, law_command_ending, process_group,
    run_command, BoundedOutput, CommandEvent, CommandFault, CommandOutcome, CommandPlan,
    CommandProgress, CommandStep, CommandWorld, Drain, Ending, GroupKill, ProcessGroupGuard,
    WaitOutcome, DRAIN_MILLIS,
};
use crate::guest_files::{
    advance_write, control_read, path_file_name, path_parent, plan_write, read_file_response,
    run_write, shutdown_response, write_file_response, write_plan, write_plan_of, SyncOutcome,
    WritePlan, WriteProgress, WriteStep, WriteWorld,
};
use crate::path::path_join;
use crate::protocol::{
    ControlResponse, ExecuteRequest, ExecuteResponse, ReadFileResponse, ShutdownRequest,
};
use crate::text::{decimal, law_decimal_stands_for_its_number};

verus! {

/// Whether a child was started with both of its outputs piped.
pub open spec fn child_is_piped<S>(world: CommandWorld<S>) -> bool {
    world.spawned matches Ok(pipes) && pipes.stdout && pipes.stderr
}

/// Whether a child exited with the given code: it was seen to exit, or it turned
/// out to have exited when it was to be stopped.
pub open spec fn child_exited<S>(world: CommandWorld<S>, code: Option<i32>) -> bool {
    ||| world.waited == Ok::<WaitOutcome, S>(WaitOutcome::Exited { code })
    ||| {
        &&& world.waited is Ok && !(world.waited->Ok_0 is Exited)
        &&& world.tried == Ok::<Option<Option<i32>>, S>(Some(code))
    }
}

/// Whether a child that had not exited was stopped and is gone.
pub open spec fn child_was_stopped<S>(world: CommandWorld<S>) -> bool {
    &&& world.waited is Ok && !(world.waited->Ok_0 is Exited)
    &&& world.tried == Ok::<Option<Option<i32>>, S>(None)
    &&& world.killed is Ok
    &&& world.reaped is Ok
}

/// A command has completed exactly when its child exited, both streams came to
/// their end and together held no more than the limit; then it is reported with the
/// code that the child exited with and with what was drained.
pub proof fn law_completed_commands<S>(
    limit: usize,
    world: CommandWorld<S>,
    code: Option<i32>,
    stdout: Seq<u8>,
    stderr: Seq<u8>,
)
    ensures
        run_command(limit, CommandStep::Spawn, world, 7) == Some::<Ending<S>>(
            Ok(CommandOutcome::Completed { code, stdout, stderr }),
        ) <==> {
            &&& child_is_piped(world)
            &&& child_exited(world, code)
            &&& world.drained matches Drain::Ended { stdout: out, stderr: err, read } && out
                == stdout && err == stderr && read <= limit
        },
{
    law_command_ending(limit, world);
}

/// A command has timed out exactly when its deadline passed, its child was stopped
/// and both streams came to their end.
pub proof fn law_timed_out_commands<S>(limit: usize, world: CommandWorld<S>)
    ensures
        run_command(limit, CommandStep::Spawn, world, 7) == Some::<Ending<S>>(
            Ok(CommandOutcome::TimedOut),
        ) <==> {
            &&& child_is_piped(world)
            &&& world.waited == Ok::<WaitOutcome, S>(WaitOutcome::TimedOut)
            &&& child_was_stopped(world)
            &&& world.drained is Ended
        },
{
    law_command_ending(limit, world);
}

/// A command has written too much exactly when it exited after more than the limit
/// was read, or was stopped on a report of too much; both streams came to their end.
pub proof fn law_commands_that_wrote_too_much<S>(limit: usize, world: CommandWorld<S>)
    ensures
        run_command(limit, CommandStep::Spawn, world, 7) == Some::<Ending<S>>(
            Ok(CommandOutcome::OutputLimitExceeded),
        ) <==> child_is_piped(world) && (world.drained matches Drain::Ended { read, .. } && {
            ||| read > limit && exists|code: Option<i32>| #[trigger] child_exited(world, code)
            ||| child_was_stopped(world) && world.waited == Ok::<WaitOutcome, S>(
                WaitOutcome::OutputLimitExceeded,
            )
        }),
{
    law_command_ending(limit, world);
    match (world.waited, world.tried) {
        (Ok(WaitOutcome::Exited { code }), _) => {
            assert(child_exited(world, code));
        },
        (Ok(_), Ok(Some(code))) => {
            assert(child_exited(world, code));
        },
        _ => {},
    }
}

/// Every other command has failed, and says at what: a pipe is missing, its
/// descendants keep its streams open, or the host's error at the first operation
/// that failed.
pub proof fn law_failed_commands<S>(limit: usize, world: CommandWorld<S>)
    ensures
        ({
            let ended = run_command(limit, CommandStep::Spawn, world, 7);
            let settled = child_was_stopped(world) || exists|code: Option<i32>| #[trigger]
                child_exited(world, code);
            let stopping = world.waited is Ok && !(world.waited->Ok_0 is Exited);
            &&& ended is Some
            &&& world.spawned matches Err(error) ==> ended == Some::<Ending<S>>(
                Err(CommandFault::Host(error)),
            )
            &&& world.spawned matches Ok(pipes) ==> {
                &&& ended == Some::<Ending<S>>(Err(CommandFault::StdoutNotPiped)) <==> !pipes.stdout
                &&& ended == Some::<Ending<S>>(Err(CommandFault::StderrNotPiped)) <==> pipes.stdout
                    && !pipes.stderr
            }
            &&& child_is_piped(world) ==> {
                &&& world.waited matches Err(error) ==> ended == Some::<Ending<S>>(
                    Err(CommandFault::Host(error)),
                )
                &&& stopping ==> (world.tried matches Err(error) ==> ended == Some::<Ending<S>>(
                    Err(CommandFault::Host(error)),
                ))
                &&& stopping && world.tried == Ok::<Option<Option<i32>>, S>(None) ==> (world.killed
                    matches Err(error) ==> ended == Some::<Ending<S>>(
                    Err(CommandFault::Host(error)),
                ))
                &&& stopping && world.tried == Ok::<Option<Option<i32>>, S>(None) && world.killed
                    is Ok ==> (world.reaped matches Err(error) ==> ended == Some::<Ending<S>>(
                    Err(CommandFault::Host(error)),
                ))
                &&& settled ==> (world.drained matches Drain::Failed(error) ==> ended == Some::<
                    Ending<S>,
                >(Err(CommandFault::Host(error))))
                &&& settled && world.drained is TimedOut <==> ended == Some::<Ending<S>>(
                    Err(CommandFault::PipesKeptOpen),
                )
                &&& settled && world.drained is Ended ==> ended->0 is Ok
            }
        }),
{
    law_command_ending(limit, world);
    match (world.waited, world.tried) {
        (Ok(WaitOutcome::Exited { code }), _) => {
            assert(child_exited(world, code));
        },
        (Ok(_), Ok(Some(code))) => {
            assert(child_exited(world, code));
        },
        _ => {},
    }
}

/// Whether a command takes a step of some sort within the given number of events.
pub open spec fn takes_step<S>(
    limit: usize,
    step: CommandStep,
    world: CommandWorld<S>,
    sort: spec_fn(CommandStep) -> bool,
    events: nat,
) -> bool
    decreases events,
{
    events > 0 && (sort(step) || match command_advanced(limit, step, world.event(step)) {
        CommandProgress::Finished(_) => false,
        CommandProgress::Continue(next) => takes_step(
            limit,
            next,
            world,
            sort,
            (events - 1) as nat,
        ),
    })
}

/// A process group is killed exactly when its child is to be stopped and has not
/// exited; a killed child is waited for; and descendants that keep a stream open
/// are killed exactly when draining timed out.
pub proof fn law_commands_leave_no_processes<S>(limit: usize, world: CommandWorld<S>)
    ensures
        ({
            let stopping = child_is_piped(world) && world.waited is Ok && !(world.waited->Ok_0
                is Exited) && world.tried == Ok::<Option<Option<i32>>, S>(None);
            let settled = child_is_piped(world) && (child_was_stopped(world)
                || exists|code: Option<i32>| #[trigger] child_exited(world, code));
            &&& takes_step(limit, CommandStep::Spawn, world, |step| step is Kill, 7) <==> stopping
            &&& takes_step(limit, CommandStep::Spawn, world, |step| step is Reap, 7) <==> stopping
                && world.killed is Ok
            &&& takes_step(limit, CommandStep::Spawn, world, |step| step is Drain, 7) <==> settled
            &&& takes_step(limit, CommandStep::Spawn, world, |step| step is KillDescendants, 7)
                <==> settled && world.drained is TimedOut
        }),
{
    reveal_with_fuel(takes_step, 8);
    match (world.waited, world.tried) {
        (Ok(WaitOutcome::Exited { code }), _) => {
            assert(child_exited(world, code));
        },
        (Ok(_), Ok(Some(code))) => {
            assert(child_exited(world, code));
        },
        _ => {},
    }
}

/// A command is answered under its number. One that completed has the code of its
/// child, or 1 where the child has none, with both outputs and no error; any other
/// has neither code nor output, and says what became of it.
pub proof fn law_commands_are_answered(
    id: u64,
    ended: Result<CommandOutcome, String>,
    response: ExecuteResponse,
)
    requires
        call_ensures(execute_response, (id, ended), response),
    ensures
        response.id == id,
        ended matches Ok(CommandOutcome::Completed { code, stdout, stderr }) ==> {
            &&& response.exit_code == Some(
                if code is Some {
                    code->0
                } else {
                    1i32
                },
            )
            &&& response.stdout == Some(stdout)
            &&& response.stderr == Some(stderr)
        },
        !(ended is Ok && ended->Ok_0 is Completed) ==> response.exit_code is None
            && response.stdout is None && response.stderr is None,
        response.timed_out <==> ended is Ok && ended->Ok_0 is TimedOut,
        response.output_limit_exceeded <==> ended is Ok && ended->Ok_0 is OutputLimitExceeded,
        response.error is Some <==> ended is Err,
        ended matches Err(error) ==> response.error == Some(error),
{
}

/// A read is kept whole where it fits behind what was read before; otherwise as
/// much of its beginning is kept as fills the limit, and no byte beyond it.
pub proof fn law_reads_are_kept_up_to_the_limit(limit: nat, offset: nat, before: Seq<u8>, read: Seq<u8>)
    ensures
        ({
            let after = accepted(limit, offset, before, read);
            let room = after.len() - before.len();
            &&& 0 <= room <= read.len()
            &&& before.is_prefix_of(after)
            &&& after.skip(before.len() as int).is_prefix_of(read)
            &&& room < read.len() ==> offset + room >= limit
            &&& offset + room <= limit || room == 0
        }),
{
    let after = accepted(limit, offset, before, read);
    let room = kept(limit, offset, read.len()) as int;
    assert(before =~= after.subrange(0, before.len() as int));
    assert(after.skip(before.len() as int) =~= read.subrange(0, room));
}

/// A child leads the process group of its number, where a group can have that
/// number: up to 2147483647.
pub proof fn law_process_groups(child: Option<u32>, group: Option<i32>)
    requires
        call_ensures(process_group, (child,), group),
    ensures
        group is Some <==> child is Some && child->0 <= 2147483647,
        group matches Some(number) ==> number as int == child->0 as int,
{
}

/// A command without a group is killed exactly when its child is; with a group,
/// signalling the group decides, and a group that is gone or may not be signalled
/// counts as killed.
pub proof fn law_kills<S>(child: Result<(), S>, group: GroupKill<S>, killed: Result<(), S>)
    requires
        call_ensures(kill_result::<S>, (child, group), killed),
    ensures
        group is NoGroup ==> killed == child,
        group is Delivered || group is Gone || group is NotPermitted ==> killed is Ok,
        group matches GroupKill::Failed(error) ==> killed == Err::<(), S>(error),
{
}

/// A process group is released exactly when its command ended with an outcome.
pub proof fn law_groups_are_released<S>(progress: CommandProgress<S>, releases: bool)
    requires
        call_ensures(CommandProgress::<S>::releases_group, (&progress,), releases),
    ensures
        releases <==> progress is Finished && progress->Finished_0 is Ok,
{
}

/// A command is started as its request says and sees the request's environment
/// alone; it has nothing to read, both outputs are read, and it leads a group of its
/// own that dies with it.
pub proof fn law_commands_are_started_as_asked(request: ExecuteRequest, plan: CommandPlan)
    requires
        call_ensures(command_plan, (request,), plan),
    ensures
        plan.program == request.program,
        plan.arguments == request.arguments,
        plan.current_directory == request.current_directory,
        plan.environment == request.environment,
        plan.timeout_millis == request.timeout_millis,
        plan.max_output_bytes == request.max_output_bytes,
        !plan.inherits_environment && plan.own_process_group && plan.kill_on_drop,
        plan.stdin is Null && plan.stdout is Piped && plan.stderr is Piped,
{
}

/// The host's own errors speak for themselves; the faults of a command are each
/// described in words of their own.
pub proof fn law_command_faults_are_described(fault: CommandFault<String>, text: String)
    requires
        call_ensures(command_fault_message, (fault,), text),
    ensures
        fault matches CommandFault::Host(error) ==> text@ == error@,
        fault is StdoutNotPiped ==> text@ == "guest command stdout was not piped"@,
        fault is StderrNotPiped ==> text@ == "guest command stderr was not piped"@,
        fault is PipesKeptOpen ==> text@ == "guest command descendants kept output pipes open"@,
{
}

/// A control read succeeds exactly for a regular file that had at most 32 MiB when
/// it was opened and has no more when it is read, and gives all of it back. The
/// three ways to fail are told apart, in this order.
pub proof fn law_control_reads(is_file: bool, bytes: u64, contents: Seq<u8>)
    ensures
        control_read(is_file, bytes, contents) is Ok <==> is_file && bytes <= 33554432
            && contents.len() <= 33554432,
        control_read(is_file, bytes, contents) matches Ok(read) ==> read == contents,
        !is_file ==> control_read(is_file, bytes, contents) == Err::<Seq<u8>, Seq<char>>(
            "control reads require a regular file"@,
        ),
        is_file && bytes > 33554432 ==> control_read(is_file, bytes, contents) == Err::<
            Seq<u8>,
            Seq<char>,
        >(
            "file is "@ + decimal(bytes as nat) + " bytes, exceeding the "@ + decimal(33554432)
                + "-byte control limit"@,
        ),
        is_file && bytes <= 33554432 && contents.len() > 33554432 ==> control_read(
            is_file,
            bytes,
            contents,
        ) == Err::<Seq<u8>, Seq<char>>(
            "file grew beyond the "@ + decimal(33554432) + "-byte control limit while reading"@,
        ),
{
}

/// Deciding on a file when it is opened and when it was read comes to the same as
/// deciding on both at once.
pub proof fn law_control_reads_are_decided_in_two_steps(
    is_file: bool,
    bytes: u64,
    capacity: Result<usize, String>,
    limit: u64,
    contents: Vec<u8>,
    finished: Result<Vec<u8>, String>,
)
    requires
        call_ensures(crate::guest_files::admit_control_read, (is_file, bytes), capacity),
        call_ensures(crate::guest_files::control_read_limit, (), limit),
        call_ensures(crate::guest_files::finish_control_read, (contents,), finished),
    ensures
        capacity is Ok <==> is_file && bytes <= 33554432,
        capacity matches Ok(room) ==> room as int == bytes as int,
        limit as int == 33554432 + 1,
        finished is Ok <==> contents@.len() <= 33554432,
        finished matches Ok(read) ==> read@ == contents@,
        capacity matches Err(message) ==> control_read(is_file, bytes, contents@) == Err::<
            Seq<u8>,
            Seq<char>,
        >(message@),
        capacity is Ok ==> (finished matches Err(message) ==> control_read(
            is_file,
            bytes,
            contents@,
        ) == Err::<Seq<u8>, Seq<char>>(message@)),
{
}

/// A read is answered under its number, with the contents or with why there are
/// none, and a write with why it failed, if it did.
pub proof fn law_file_requests_are_answered(
    id: u64,
    read: Result<Vec<u8>, String>,
    contents: ReadFileResponse,
    written: Result<(), String>,
    control: ControlResponse,
)
    requires
        call_ensures(read_file_response, (id, read), contents),
        call_ensures(write_file_response, (id, written), control),
    ensures
        contents.id == id && control.id == id,
        read matches Ok(bytes) ==> contents.contents == Some(bytes) && contents.error is None,
        read matches Err(error) ==> contents.contents is None && contents.error == Some(error),
        written is Ok ==> control.error is None,
        written matches Err(error) ==> control.error == Some(error),
{
}

/// A shutdown is answered under its number: without an error exactly when the file
/// systems were synchronized.
pub proof fn law_shutdowns_are_answered(
    request: ShutdownRequest,
    outcome: SyncOutcome,
    response: ControlResponse,
)
    requires
        call_ensures(shutdown_response, (request, outcome), response),
    ensures
        response.id == request.id,
        response.error is None <==> outcome is Succeeded,
        outcome matches SyncOutcome::Exited(status) ==> response.error->0@ == "sync exited with "@
            + status@,
        outcome matches SyncOutcome::Failed(failure) ==> response.error->0@ == failure@,
{
}

/// A write becomes the file at its path, with its mode. The file that is written
/// first stands in the directory of that path, under a name of its own that starts
/// with a dot, holds the name of the file and tells requests apart.
pub proof fn law_writes_go_through_a_file_of_their_own(
    path: Seq<char>,
    parent: Option<Seq<char>>,
    name: Option<Seq<char>>,
    request: u64,
    mode: u32,
)
    ensures
        match write_plan_of(path, parent, name, request, mode) {
            Ok(plan) => {
                &&& parent is Some && name is Some
                &&& plan.target == encode_utf8(path)
                &&& plan.mode == mode
                &&& plan.directory == encode_utf8(parent->0)
                &&& plan.temporary == path_join(
                    plan.directory,
                    encode_utf8(
                        seq!['.'] + name->0 + ".nanocodex-"@ + decimal(request as nat) + ".tmp"@,
                    ),
                )
            },
            Err(message) => if parent is None {
                message == "file path has no parent"@
            } else {
                name is None && message == "file path has no name"@
            },
        },
{
    reveal_strlit(".");
    assert("."@ =~= seq!['.']);
}

/// Requests that write one file at the same time write through different files.
pub proof fn law_writes_are_told_apart(
    path: Seq<char>,
    parent: Seq<char>,
    name: Seq<char>,
    one: u64,
    other: u64,
    mode: u32,
)
    requires
        one != other,
    ensures
        write_plan_of(path, Some(parent), Some(name), one, mode)->Ok_0.temporary != write_plan_of(
            path,
            Some(parent),
            Some(name),
            other,
            mode,
        )->Ok_0.temporary,
{
    reveal_strlit(".");
    let text = |n: u64| "."@ + name + ".nanocodex-"@ + decimal(n as nat) + ".tmp"@;
    let before = "."@ + name + ".nanocodex-"@;
    let base = encode_utf8(parent);
    law_decimal_stands_for_its_number(one as nat);
    law_decimal_stands_for_its_number(other as nat);
    assert(text(one) != text(other)) by {
        if text(one) == text(other) {
            let one_part = text(one).subrange(
                before.len() as int,
                text(one).len() - ".tmp"@.len(),
            );
            let other_part = text(other).subrange(
                before.len() as int,
                text(other).len() - ".tmp"@.len(),
            );
            assert(one_part =~= decimal(one as nat));
            assert(other_part =~= decimal(other as nat));
        }
    }
    encode_utf8_decode_utf8(text(one));
    encode_utf8_decode_utf8(text(other));
    assert(encode_utf8(text(one)) != encode_utf8(text(other)));
    assert(text(one)[0] == '.' && text(other)[0] == '.');
    lemma_dot_is_no_slash(text(one));
    lemma_dot_is_no_slash(text(other));
    if path_join(base, encode_utf8(text(one))) == path_join(base, encode_utf8(text(other))) {
        crate::path::law_names_are_told_apart(
            base,
            encode_utf8(text(one)),
            encode_utf8(text(other)),
        );
    }
}

proof fn lemma_dot_is_no_slash(text: Seq<char>)
    requires
        text.len() > 0,
        text[0] == '.',
    ensures
        encode_utf8(text).len() > 0,
        encode_utf8(text)[0] != 47,
{
    assert('.' as u32 == 46);
    assert((46u32 & 0x7F) as u8 == 46) by (bit_vector);
    assert(encode_utf8(text)[0] == encode_scalar('.' as u32)[0]);
}

/// An atomic write makes the directory, writes the temporary file and moves it into
/// place, in this order, and succeeds exactly when all three do. It reports the
/// first of them that fails, takes none of those after it, and removes the
/// temporary file if it may exist.
pub proof fn law_atomic_writes<S>(world: WriteWorld<S>)
    ensures
        ({
            let (steps, ended) = run_write(WriteStep::CreateDirectory, world, 4);
            &&& steps.len() > 0 && steps[0] is CreateDirectory
            &&& match (world.created, world.written, world.renamed) {
                (Ok(_), Ok(_), Ok(_)) => {
                    &&& ended == Some(Ok::<(), S>(()))
                    &&& steps.len() == 3 && steps[1] is WriteTemporary && steps[2] is Rename
                },
                (Err(error), _, _) => ended == Some(Err::<(), S>(error)) && steps.len() == 1,
                (Ok(_), Err(error), _) => {
                    &&& ended == Some(Err::<(), S>(error))
                    &&& steps.len() == 3 && steps[1] is WriteTemporary && steps[2]
                        is RemoveTemporary
                },
                (Ok(_), Ok(_), Err(error)) => {
                    &&& ended == Some(Err::<(), S>(error))
                    &&& steps.len() == 4 && steps[1] is WriteTemporary && steps[2] is Rename
                        && steps[3] is RemoveTemporary
                },
            }
        }),
{
    reveal_with_fuel(run_write, 5);
}

/// A command goes on from what happened to it: a child whose outputs are both piped is
/// waited for; one that is seen to exit is drained, and one that is not is looked at
/// once more, killed and waited for, in this order.
pub proof fn law_commands_go_on<S>(
    limit: usize,
    step: CommandStep,
    event: CommandEvent<S>,
    progress: CommandProgress<S>,
)
    requires
        call_ensures(advance_command::<S>, (limit, step, event), progress),
        command_expects(step, event@),
    ensures
        progress@ == command_advanced(limit, step, event@),
        event matches CommandEvent::Spawned(Ok(pipes)) ==> {
            &&& pipes.stdout && pipes.stderr ==> progress == CommandProgress::<S>::Continue(
                CommandStep::Wait,
            )
            &&& !pipes.stdout ==> progress == CommandProgress::<S>::Finished(
                Err(CommandFault::StdoutNotPiped),
            )
            &&& pipes.stdout && !pipes.stderr ==> progress == CommandProgress::<S>::Finished(
                Err(CommandFault::StderrNotPiped),
            )
        },
        event matches CommandEvent::Waited(Ok(outcome)) ==> progress == CommandProgress::<
            S,
        >::Continue(
            if outcome is Exited {
                CommandStep::Drain(outcome)
            } else {
                CommandStep::TryWait(outcome)
            },
        ),
        event matches CommandEvent::Tried(Ok(Some(code))) ==> progress == CommandProgress::<
            S,
        >::Continue(CommandStep::Drain(WaitOutcome::Exited { code })),
        event matches CommandEvent::Tried(Ok(None)) ==> progress == CommandProgress::<S>::Continue(
            CommandStep::Kill(step->TryWait_0),
        ),
        event matches CommandEvent::Killed(Ok(_)) ==> progress == if step is KillDescendants {
            CommandProgress::<S>::Finished(Err(CommandFault::PipesKeptOpen))
        } else {
            CommandProgress::<S>::Continue(CommandStep::Reap(step->Kill_0))
        },
        event matches CommandEvent::Reaped(Ok(_)) ==> progress == CommandProgress::<S>::Continue(
            CommandStep::Drain(step->Reap_0),
        ),
{
}

/// The host's error at any step ends a command with that error, except that what
/// becomes of killing descendants no longer matters.
pub proof fn law_commands_fail<S>(
    limit: usize,
    step: CommandStep,
    event: CommandEvent<S>,
    progress: CommandProgress<S>,
    error: S,
)
    requires
        call_ensures(advance_command::<S>, (limit, step, event), progress),
        command_expects(step, event@),
        match event {
            CommandEvent::Spawned(Err(failure)) => failure == error,
            CommandEvent::Waited(Err(failure)) => failure == error,
            CommandEvent::Tried(Err(failure)) => failure == error,
            CommandEvent::Killed(Err(failure)) => failure == error,
            CommandEvent::Reaped(Err(failure)) => failure == error,
            CommandEvent::Drained(Drain::Failed(failure)) => failure == error,
            _ => false,
        },
    ensures
        progress == CommandProgress::<S>::Finished(
            Err(
                if step is KillDescendants {
                    CommandFault::PipesKeptOpen
                } else {
                    CommandFault::Host(error)
                },
            ),
        ),
{
}

/// A drained command ends with the bytes that were drained, as they are, and with the
/// code of its child, where the child exited within the limit; streams that do not end
/// within a second have the descendants killed.
pub proof fn law_commands_end<S>(
    limit: usize,
    outcome: WaitOutcome,
    drain: Drain<S>,
    progress: CommandProgress<S>,
)
    requires
        call_ensures(
            advance_command::<S>,
            (limit, CommandStep::Drain(outcome), CommandEvent::Drained(drain)),
            progress,
        ),
    ensures
        DRAIN_MILLIS == 1000,
        drain is TimedOut ==> progress == CommandProgress::<S>::Continue(
            CommandStep::KillDescendants,
        ),
        drain matches Drain::Ended { stdout, stderr, read } ==> {
            let ended = progress->Finished_0->Ok_0;
            &&& progress is Finished && progress->Finished_0 is Ok
            &&& ended is TimedOut <==> outcome is TimedOut
            &&& ended is OutputLimitExceeded <==> outcome is OutputLimitExceeded || outcome
                is Exited && read > limit
            &&& ended is Completed <==> outcome is Exited && read <= limit
            &&& ended is Completed ==> ended->code == outcome->code && ended->stdout@ == stdout@
                && ended->stderr@ == stderr@
        },
{
}

/// A guard kills the group that it was given until it lets it live.
pub proof fn law_guards_kill_their_group(
    group: Option<i32>,
    guard: ProcessGroupGuard,
    target: Option<i32>,
    later: &mut ProcessGroupGuard,
    done: (),
)
    requires
        call_ensures(ProcessGroupGuard::new, (group,), guard),
        call_ensures(ProcessGroupGuard::target, (&guard,), target),
        call_ensures(ProcessGroupGuard::disarm, (later,), done),
    ensures
        target == group,
        forall|left: Option<i32>|
            #[trigger] call_ensures(ProcessGroupGuard::target, (&*final(later),), left) ==> left
                is None,
{
}

/// A stream starts empty. It takes what was read behind what it has, up to the limit of
/// all streams together, reports exactly the first time that it must leave some out,
/// and gives back what it has.
pub proof fn law_streams_take_reads(
    start: BoundedOutput,
    stream: &mut BoundedOutput,
    limit: usize,
    offset: usize,
    read: &[u8],
    report: bool,
    output: Vec<u8>,
)
    requires
        call_ensures(BoundedOutput::new, (), start),
        call_ensures(BoundedOutput::accept, (stream, limit, offset, read), report),
        call_ensures(BoundedOutput::into_output, (*final(stream),), output),
    ensures
        start.output().len() == 0 && !start.reported(),
        output@ == final(stream).output(),
        offset + read@.len() <= limit ==> output@ == old(stream).output() + read@ && !report
            && final(stream).reported() == old(stream).reported(),
        offset + read@.len() > limit && offset <= limit ==> output@ == old(stream).output()
            + read@.take(limit - offset),
        read@.len() > 0 && offset > limit ==> output@ == old(stream).output(),
        offset + read@.len() > limit && read@.len() > 0 ==> final(stream).reported() && report
            == !old(stream).reported(),
{
    assert(read@.take(read@.len() as int) =~= read@);
    assert(old(stream).output() + read@.take(0) =~= old(stream).output());
}

/// A write is planned by the parent and the name of its path, and fails without one
/// of them.
pub proof fn law_writes_are_planned(
    path: &str,
    parent: Option<String>,
    name: Option<String>,
    request: u64,
    mode: u32,
    plan: Result<WritePlan, String>,
)
    requires
        call_ensures(plan_write, (path, parent, name, request, mode), plan),
    ensures
        plan is Ok <==> parent is Some && name is Some,
        parent is None ==> plan is Err && plan->Err_0@ == "file path has no parent"@,
        parent is Some && name is None ==> plan is Err && plan->Err_0@
            == "file path has no name"@,
        plan matches Ok(plan) ==> {
            &&& plan.directory@ == encode_utf8(parent->0@)
            &&& plan.target@ == encode_utf8(path@)
            &&& plan.mode == mode
            &&& plan.temporary@ == path_join(
                encode_utf8(parent->0@),
                encode_utf8(
                    seq!['.'] + name->0@ + ".nanocodex-"@ + decimal(request as nat) + ".tmp"@,
                ),
            )
        },
{
    reveal_strlit(".");
    assert("."@ =~= seq!['.']);
}

/// The parent and the name by which a write is planned are those of its own path.
pub proof fn law_writes_are_planned_by_their_paths(
    path: &str,
    request: u64,
    mode: u32,
    plan: Result<WritePlan, String>,
    parent: Option<String>,
    name: Option<String>,
    expected: Result<WritePlan, String>,
)
    requires
        call_ensures(write_plan, (path, request, mode), plan),
        call_ensures(plan_write, (path, parent, name, request, mode), expected),
        parent is Some <==> path_parent(path@) is Some,
        parent is Some ==> parent->0@ == path_parent(path@)->0,
        name is Some <==> path_file_name(path@) is Some,
        name is Some ==> name->0@ == path_file_name(path@)->0,
    ensures
        plan is Ok <==> expected is Ok,
        plan is Ok ==> plan->Ok_0.directory@ == expected->Ok_0.directory@
            && plan->Ok_0.temporary@ == expected->Ok_0.temporary@ && plan->Ok_0.target@
            == expected->Ok_0.target@ && plan->Ok_0.mode == expected->Ok_0.mode,
        plan is Err ==> plan->Err_0@ == expected->Err_0@,
{
}

/// A write goes on from a step that succeeded to the one after it, and ends after the
/// last. A step that failed ends it at once where nothing was written, and otherwise
/// has the temporary file removed; then the first error is reported.
pub proof fn law_writes_go_on<S>(
    step: WriteStep<S>,
    ended: Result<(), S>,
    progress: WriteProgress<S>,
)
    requires
        call_ensures(advance_write::<S>, (step, ended), progress),
    ensures
        ended is Ok && step is CreateDirectory ==> progress == WriteProgress::Continue(
            WriteStep::<S>::WriteTemporary,
        ),
        ended is Ok && step is WriteTemporary ==> progress == WriteProgress::Continue(
            WriteStep::<S>::Rename,
        ),
        ended is Ok && step is Rename ==> progress == WriteProgress::<S>::Finished(Ok(())),
        ended is Err && step is CreateDirectory ==> progress == WriteProgress::<S>::Finished(
            Err(ended->Err_0),
        ),
        ended is Err && (step is WriteTemporary || step is Rename) ==> progress
            == WriteProgress::Continue(WriteStep::<S>::RemoveTemporary(ended->Err_0)),
        step matches WriteStep::RemoveTemporary(error) ==> progress == WriteProgress::<
            S,
        >::Finished(Err(error)),
{
}

} // verus!
