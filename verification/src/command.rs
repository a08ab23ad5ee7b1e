//! Running one guest command: bounded output, a deadline, and no survivors.
use vstd::prelude::*;
use vstd::slice::*;
use vstd::string::*;

use crate::protocol::{ExecuteRequest, ExecuteResponse};

verus! {

/// Where a stream of a command leads.
#[derive(Clone, Copy, Debug, PartialEq, Eq, Structural)]
pub enum StreamPlan {
    /// Nowhere: there is nothing to read.
    Null,
    /// To the server, which reads it.
    Piped,
}

/// How a command is started.
#[derive(Debug)]
pub struct CommandPlan {
    pub program: String,
    pub arguments: Vec<String>,
    pub current_directory: String,
    /// Whether the command sees the server's own environment.
    pub inherits_environment: bool,
    /// What the command's environment holds beyond that, in order.
    pub environment: Vec<(String, String)>,
    pub stdin: StreamPlan,
    pub stdout: StreamPlan,
    pub stderr: StreamPlan,
    /// Whether the command leads a process group of its own.
    pub own_process_group: bool,
    /// Whether the command is killed when it is abandoned.
    pub kill_on_drop: bool,
    /// After how many milliseconds the command is stopped.
    pub timeout_millis: u64,
    /// How many bytes both output streams may hold together.
    pub max_output_bytes: usize,
}

/// Plans how a request's command is started: with the environment of the request
/// and no other, nothing to read, both outputs piped, and a process group of its
/// own, so that its descendants can be killed with it.
pub fn command_plan(request: ExecuteRequest) -> (plan: CommandPlan)
    ensures
        plan.program == request.program,
        plan.arguments == request.arguments,
        plan.current_directory == request.current_directory,
        !plan.inherits_environment,
        plan.environment == request.environment,
        plan.stdin == StreamPlan::Null,
        plan.stdout == StreamPlan::Piped,
        plan.stderr == StreamPlan::Piped,
        plan.own_process_group,
        plan.kill_on_drop,
        plan.timeout_millis == request.timeout_millis,
        plan.max_output_bytes == request.max_output_bytes,
{
    CommandPlan {
        program: request.program,
        arguments: request.arguments,
        current_directory: request.current_directory,
        inherits_environment: false,
        environment: request.environment,
        stdin: StreamPlan::Null,
        stdout: StreamPlan::Piped,
        stderr: StreamPlan::Piped,
        own_process_group: true,
        kill_on_drop: true,
        timeout_millis: request.timeout_millis,
        max_output_bytes: request.max_output_bytes,
    }
}

/// The process group of a child, when its identifier can name one.
pub fn process_group(child: Option<u32>) -> (group: Option<i32>)
    ensures
        group == match child {
            Some(id) if id <= i32::MAX => Some(id as i32),
            _ => None::<i32>,
        },
{
    match child {
        Some(id) => {
            if id <= i32::MAX as u32 {
                Some(id as i32)
            } else {
                None
            }
        },
        None => None,
    }
}

/// The process group to kill when a command is abandoned.
#[derive(Debug)]
pub struct ProcessGroupGuard {
    group: Option<i32>,
}

impl View for ProcessGroupGuard {
    type V = Option<i32>;

    closed spec fn view(&self) -> Option<i32> {
        self.group
    }
}

impl ProcessGroupGuard {
    /// Guards the given process group.
    pub fn new(group: Option<i32>) -> (guard: ProcessGroupGuard)
        ensures
            guard@ == group,
    {
        ProcessGroupGuard { group }
    }

    /// Lets the process group live.
    pub fn disarm(&mut self)
        ensures
            final(self)@ == None::<i32>,
    {
        self.group = None;
    }

    /// The process group that must be killed.
    pub fn target(&self) -> (group: Option<i32>)
        ensures
            group == self@,
    {
        self.group
    }
}

/// What signalling a process group came to.
#[derive(Debug)]
pub enum GroupKill<S> {
    /// The child has no process group that can be named.
    NoGroup,
    /// The signal was delivered.
    Delivered,
    /// The group no longer exists.
    Gone,
    /// The signal is not permitted.
    NotPermitted,
    /// Signalling failed for another reason.
    Failed(S),
}

/// Whether killing a command succeeded: without a group, killing the child
/// decides; a group that is gone or may not be signalled counts as killed.
pub fn kill_result<S>(child: Result<(), S>, group: GroupKill<S>) -> (killed: Result<(), S>)
    ensures
        killed == match group {
            GroupKill::NoGroup => child,
            GroupKill::Failed(error) => Err(error),
            _ => Ok(()),
        },
{
    match group {
        GroupKill::NoGroup => child,
        GroupKill::Failed(error) => Err(error),
        _ => Ok(()),
    }
}

/// How many bytes of a read are kept when `offset` bytes were read before it by
/// all streams of the command.
pub open spec fn kept(limit: nat, offset: nat, read: nat) -> nat {
    if offset + read <= limit {
        read
    } else if offset < limit {
        (limit - offset) as nat
    } else {
        0
    }
}

/// What a stream has kept after one more read.
pub open spec fn accepted(limit: nat, offset: nat, before: Seq<u8>, read: Seq<u8>) -> Seq<u8> {
    before + read.take(kept(limit, offset, read.len()) as int)
}

/// The retained output of one stream.
#[derive(Debug)]
pub struct BoundedOutput {
    output: Vec<u8>,
    reported: bool,
}

impl BoundedOutput {
    /// The bytes that were kept.
    pub closed spec fn output(&self) -> Seq<u8> {
        self.output@
    }

    /// Whether this stream has reported that the limit was exceeded.
    pub closed spec fn reported(&self) -> bool {
        self.reported
    }

    /// A stream of which nothing was read.
    pub fn new() -> (stream: BoundedOutput)
        ensures
            stream.output() == Seq::<u8>::empty(),
            !stream.reported(),
    {
        BoundedOutput { output: Vec::new(), reported: false }
    }

    /// Takes what was read. `offset` is what all streams had read before. The
    /// result tells whether the limit must be reported now.
    pub fn accept(&mut self, limit: usize, offset: usize, read: &[u8]) -> (report: bool)
        ensures
            ({
                let kept = kept(limit as nat, offset as nat, read@.len());
                &&& final(self).output() == accepted(
                    limit as nat,
                    offset as nat,
                    old(self).output(),
                    read@,
                )
                &&& report == (kept < read@.len() && !old(self).reported())
                &&& final(self).reported() == (old(self).reported() || kept < read@.len())
            }),
    {
        let room = limit.saturating_sub(offset);
        let allowed: usize = if room < read.len() {
            room
        } else {
            read.len()
        };
        self.output.extend_from_slice(slice_subrange(read, 0, allowed));
        assert(read@.subrange(0, allowed as int) =~= read@.take(allowed as int));
        if allowed < read.len() && !self.reported {
            self.reported = true;
            true
        } else {
            false
        }
    }

    /// The bytes that were kept.
    pub fn into_output(self) -> (output: Vec<u8>)
        ensures
            output@ == self.output(),
    {
        self.output
    }
}

/// The sum of some reads.
pub open spec fn total(reads: Seq<nat>) -> nat
    decreases reads.len(),
{
    if reads.len() == 0 {
        0
    } else {
        total(reads.drop_last()) + reads.last()
    }
}

/// How many bytes are kept of reads that follow one another, whichever stream
/// each belongs to.
pub open spec fn total_kept(limit: nat, reads: Seq<nat>) -> nat
    decreases reads.len(),
{
    if reads.len() == 0 {
        0
    } else {
        total_kept(limit, reads.drop_last()) + kept(
            limit,
            total(reads.drop_last()),
            reads.last(),
        )
    }
}

/// Whether some read was cut.
pub open spec fn some_cut(limit: nat, reads: Seq<nat>) -> bool
    decreases reads.len(),
{
    reads.len() > 0 && (some_cut(limit, reads.drop_last()) || kept(
        limit,
        total(reads.drop_last()),
        reads.last(),
    ) < reads.last())
}

/// All streams of a command together keep the first `limit` bytes that were
/// read and no more, and a read is cut exactly when more than that was read.
pub proof fn law_kept_output_is_bounded(limit: nat, reads: Seq<nat>)
    ensures
        total_kept(limit, reads) == if total(reads) <= limit {
            total(reads)
        } else {
            limit
        },
        some_cut(limit, reads) <==> total(reads) > limit,
    decreases reads.len(),
{
    if reads.len() > 0 {
        law_kept_output_is_bounded(limit, reads.drop_last());
    }
}

/// Why waiting for a command ended. `code` is the exit code, when it has one.
#[derive(Clone, Copy, Debug)]
pub enum WaitOutcome {
    Exited { code: Option<i32> },
    TimedOut,
    OutputLimitExceeded,
}

/// How a command ended.
#[derive(Debug)]
pub enum CommandOutcome<B = Vec<u8>> {
    Completed { code: Option<i32>, stdout: B, stderr: B },
    TimedOut,
    OutputLimitExceeded,
}

/// How long the output streams may stay open after the child has ended.
pub const DRAIN_MILLIS: u64 = 1000;

/// Which output streams of a new child are connected to the server.
#[derive(Clone, Copy, Debug, PartialEq, Eq, Structural)]
pub struct Pipes {
    pub stdout: bool,
    pub stderr: bool,
}

/// Why a command could not be run to its end.
#[derive(Debug)]
pub enum CommandFault<S> {
    /// The host operation failed.
    Host(S),
    /// The child's standard output is not connected.
    StdoutNotPiped,
    /// The child's standard error is not connected.
    StderrNotPiped,
    /// A descendant kept an output pipe open.
    PipesKeptOpen,
}

/// What a running command waits for.
#[derive(Clone, Copy, Debug)]
pub enum CommandStep {
    /// The new child.
    Spawn,
    /// The child's exit, the deadline, or a report of too much output.
    Wait,
    /// Whether the child has exited after all.
    TryWait(WaitOutcome),
    /// Killing the process group.
    Kill(WaitOutcome),
    /// The exit of the killed child.
    Reap(WaitOutcome),
    /// The end of both output streams.
    Drain(WaitOutcome),
    /// Killing the descendants that keep an output stream open.
    KillDescendants,
}

/// The end of the output streams.
#[derive(Debug)]
pub enum Drain<S, B = Vec<u8>> {
    /// Both streams ended; `read` bytes were read of them in all.
    Ended { stdout: B, stderr: B, read: usize },
    /// Reading a stream failed.
    Failed(S),
    /// A stream did not end in time.
    TimedOut,
}

/// What happened to a running command.
#[derive(Debug)]
pub enum CommandEvent<S, B = Vec<u8>> {
    Spawned(Result<Pipes, S>),
    Waited(Result<WaitOutcome, S>),
    Tried(Result<Option<Option<i32>>, S>),
    Killed(Result<(), S>),
    Reaped(Result<(), S>),
    Drained(Drain<S, B>),
}

impl<S> View for CommandEvent<S> {
    type V = CommandEvent<S, Seq<u8>>;

    open spec fn view(&self) -> CommandEvent<S, Seq<u8>> {
        match *self {
            CommandEvent::Spawned(spawned) => CommandEvent::Spawned(spawned),
            CommandEvent::Waited(waited) => CommandEvent::Waited(waited),
            CommandEvent::Tried(tried) => CommandEvent::Tried(tried),
            CommandEvent::Killed(killed) => CommandEvent::Killed(killed),
            CommandEvent::Reaped(reaped) => CommandEvent::Reaped(reaped),
            CommandEvent::Drained(Drain::Ended { stdout, stderr, read }) => CommandEvent::Drained(
                Drain::Ended { stdout: stdout@, stderr: stderr@, read },
            ),
            CommandEvent::Drained(Drain::Failed(error)) => CommandEvent::Drained(
                Drain::Failed(error),
            ),
            CommandEvent::Drained(Drain::TimedOut) => CommandEvent::Drained(Drain::TimedOut),
        }
    }
}

/// Where a command goes from a step.
#[derive(Debug)]
pub enum CommandProgress<S, B = Vec<u8>> {
    Continue(CommandStep),
    Finished(Result<CommandOutcome<B>, CommandFault<S>>),
}

impl<S> View for CommandProgress<S> {
    type V = CommandProgress<S, Seq<u8>>;

    open spec fn view(&self) -> CommandProgress<S, Seq<u8>> {
        match *self {
            CommandProgress::Continue(step) => CommandProgress::Continue(step),
            CommandProgress::Finished(Err(fault)) => CommandProgress::Finished(Err(fault)),
            CommandProgress::Finished(Ok(outcome)) => CommandProgress::Finished(
                Ok(
                    match outcome {
                        CommandOutcome::Completed { code, stdout, stderr } =>
                            CommandOutcome::Completed { code, stdout: stdout@, stderr: stderr@ },
                        CommandOutcome::TimedOut => CommandOutcome::TimedOut,
                        CommandOutcome::OutputLimitExceeded => CommandOutcome::OutputLimitExceeded,
                    },
                ),
            ),
        }
    }
}

impl<S> CommandProgress<S> {
    /// Whether the process group may live: only when the command has finished
    /// with an outcome. A command that ended in a fault leaves the group to its
    /// guard.
    pub fn releases_group(&self) -> (releases: bool)
        ensures
            releases == (self matches CommandProgress::Finished(Ok(_))),
    {
        match self {
            CommandProgress::Finished(Ok(_)) => true,
            _ => false,
        }
    }
}

/// Whether a step takes an event of this kind.
pub open spec fn command_expects<S>(
    step: CommandStep,
    event: CommandEvent<S, Seq<u8>>,
) -> bool {
    match step {
        CommandStep::Spawn => event is Spawned,
        CommandStep::Wait => event is Waited,
        CommandStep::TryWait(_) => event is Tried,
        CommandStep::Kill(_) | CommandStep::KillDescendants => event is Killed,
        CommandStep::Reap(_) => event is Reaped,
        CommandStep::Drain(_) => event is Drained,
    }
}

/// The outcome of a command whose streams ended: one that exited counts as
/// completed only when its output was within the limit.
pub open spec fn concluded(
    outcome: WaitOutcome,
    limit: usize,
    stdout: Seq<u8>,
    stderr: Seq<u8>,
    read: usize,
) -> CommandOutcome<Seq<u8>> {
    match outcome {
        WaitOutcome::Exited { code } => if read > limit {
            CommandOutcome::OutputLimitExceeded
        } else {
            CommandOutcome::Completed { code, stdout, stderr }
        },
        WaitOutcome::TimedOut => CommandOutcome::TimedOut,
        WaitOutcome::OutputLimitExceeded => CommandOutcome::OutputLimitExceeded,
    }
}

/// Where a command with the given output limit goes from a step.
pub open spec fn command_advanced<S>(
    limit: usize,
    step: CommandStep,
    event: CommandEvent<S, Seq<u8>>,
) -> CommandProgress<S, Seq<u8>> {
    match (step, event) {
        (CommandStep::Spawn, CommandEvent::Spawned(Ok(pipes))) => if !pipes.stdout {
            CommandProgress::Finished(Err(CommandFault::StdoutNotPiped))
        } else if !pipes.stderr {
            CommandProgress::Finished(Err(CommandFault::StderrNotPiped))
        } else {
            CommandProgress::Continue(CommandStep::Wait)
        },
        (CommandStep::Wait, CommandEvent::Waited(Ok(outcome))) => CommandProgress::Continue(
            if outcome is Exited {
                CommandStep::Drain(outcome)
            } else {
                CommandStep::TryWait(outcome)
            },
        ),
        (CommandStep::TryWait(outcome), CommandEvent::Tried(Ok(exited))) =>
            CommandProgress::Continue(
                match exited {
                    Some(code) => CommandStep::Drain(WaitOutcome::Exited { code }),
                    None => CommandStep::Kill(outcome),
                },
            ),
        (CommandStep::Kill(outcome), CommandEvent::Killed(Ok(_))) => CommandProgress::Continue(
            CommandStep::Reap(outcome),
        ),
        (CommandStep::Reap(outcome), CommandEvent::Reaped(Ok(_))) => CommandProgress::Continue(
            CommandStep::Drain(outcome),
        ),
        (
            CommandStep::Drain(outcome),
            CommandEvent::Drained(Drain::Ended { stdout, stderr, read }),
        ) => CommandProgress::Finished(Ok(concluded(outcome, limit, stdout, stderr, read))),
        (CommandStep::Drain(_), CommandEvent::Drained(Drain::TimedOut)) =>
            CommandProgress::Continue(CommandStep::KillDescendants),
        (CommandStep::KillDescendants, _) => CommandProgress::Finished(
            Err(CommandFault::PipesKeptOpen),
        ),
        (_, CommandEvent::Spawned(Err(error)))
        | (_, CommandEvent::Waited(Err(error)))
        | (_, CommandEvent::Tried(Err(error)))
        | (_, CommandEvent::Killed(Err(error)))
        | (_, CommandEvent::Reaped(Err(error)))
        | (_, CommandEvent::Drained(Drain::Failed(error))) => CommandProgress::Finished(
            Err(CommandFault::Host(error)),
        ),
        _ => CommandProgress::Continue(step),
    }
}

/// Takes what happened at a step of a command with the given output limit.
pub fn advance_command<S>(limit: usize, step: CommandStep, event: CommandEvent<S>) -> (progress:
    CommandProgress<S>)
    requires
        command_expects(step, event@),
    ensures
        progress@ == command_advanced(limit, step, event@),
{
    match (step, event) {
        (CommandStep::Spawn, CommandEvent::Spawned(Ok(pipes))) => {
            if !pipes.stdout {
                CommandProgress::Finished(Err(CommandFault::StdoutNotPiped))
            } else if !pipes.stderr {
                CommandProgress::Finished(Err(CommandFault::StderrNotPiped))
            } else {
                CommandProgress::Continue(CommandStep::Wait)
            }
        },
        (CommandStep::Wait, CommandEvent::Waited(Ok(outcome))) => match outcome {
            WaitOutcome::Exited { code } => CommandProgress::Continue(
                CommandStep::Drain(WaitOutcome::Exited { code }),
            ),
            _ => CommandProgress::Continue(CommandStep::TryWait(outcome)),
        },
        (CommandStep::TryWait(outcome), CommandEvent::Tried(Ok(exited))) => match exited {
            Some(code) => CommandProgress::Continue(
                CommandStep::Drain(WaitOutcome::Exited { code }),
            ),
            None => CommandProgress::Continue(CommandStep::Kill(outcome)),
        },
        (CommandStep::Kill(outcome), CommandEvent::Killed(Ok(_))) => CommandProgress::Continue(
            CommandStep::Reap(outcome),
        ),
        (CommandStep::Reap(outcome), CommandEvent::Reaped(Ok(_))) => CommandProgress::Continue(
            CommandStep::Drain(outcome),
        ),
        (
            CommandStep::Drain(outcome),
            CommandEvent::Drained(Drain::Ended { stdout, stderr, read }),
        ) => CommandProgress::Finished(
            Ok(
                match outcome {
                    WaitOutcome::Exited { code } => {
                        if read > limit {
                            CommandOutcome::OutputLimitExceeded
                        } else {
                            CommandOutcome::Completed { code, stdout, stderr }
                        }
                    },
                    WaitOutcome::TimedOut => CommandOutcome::TimedOut,
                    WaitOutcome::OutputLimitExceeded => CommandOutcome::OutputLimitExceeded,
                },
            ),
        ),
        (CommandStep::Drain(_), CommandEvent::Drained(Drain::TimedOut)) =>
            CommandProgress::Continue(CommandStep::KillDescendants),
        (CommandStep::KillDescendants, _) => CommandProgress::Finished(
            Err(CommandFault::PipesKeptOpen),
        ),
        (_, CommandEvent::Spawned(Err(error))) => CommandProgress::Finished(
            Err(CommandFault::Host(error)),
        ),
        (_, CommandEvent::Waited(Err(error))) => CommandProgress::Finished(
            Err(CommandFault::Host(error)),
        ),
        (_, CommandEvent::Tried(Err(error))) => CommandProgress::Finished(
            Err(CommandFault::Host(error)),
        ),
        (_, CommandEvent::Killed(Err(error))) => CommandProgress::Finished(
            Err(CommandFault::Host(error)),
        ),
        (_, CommandEvent::Reaped(Err(error))) => CommandProgress::Finished(
            Err(CommandFault::Host(error)),
        ),
        (_, CommandEvent::Drained(Drain::Failed(error))) => CommandProgress::Finished(
            Err(CommandFault::Host(error)),
        ),
        (step, _) => CommandProgress::Continue(step),
    }
}

/// The response to a command that ended, or could not be run. A command without
/// an exit code, such as one ended by a signal, counts as failed with code 1.
pub fn execute_response(id: u64, ended: Result<CommandOutcome, String>) -> (response:
    ExecuteResponse)
    ensures
        response == match ended {
            Ok(CommandOutcome::Completed { code, stdout, stderr }) => ExecuteResponse {
                id,
                exit_code: Some(
                    match code {
                        Some(code) => code,
                        None => 1,
                    },
                ),
                stdout: Some(stdout),
                stderr: Some(stderr),
                error: None,
                timed_out: false,
                output_limit_exceeded: false,
            },
            Ok(CommandOutcome::TimedOut) => ExecuteResponse {
                id,
                exit_code: None,
                stdout: None,
                stderr: None,
                error: None,
                timed_out: true,
                output_limit_exceeded: false,
            },
            Ok(CommandOutcome::OutputLimitExceeded) => ExecuteResponse {
                id,
                exit_code: None,
                stdout: None,
                stderr: None,
                error: None,
                timed_out: false,
                output_limit_exceeded: true,
            },
            Err(error) => ExecuteResponse {
                id,
                exit_code: None,
                stdout: None,
                stderr: None,
                error: Some(error),
                timed_out: false,
                output_limit_exceeded: false,
            },
        },
{
    let mut response = ExecuteResponse {
        id,
        exit_code: None,
        stdout: None,
        stderr: None,
        error: None,
        timed_out: false,
        output_limit_exceeded: false,
    };
    match ended {
        Ok(CommandOutcome::Completed { code, stdout, stderr }) => {
            response.exit_code = match code {
                Some(code) => Some(code),
                None => Some(1),
            };
            response.stdout = Some(stdout);
            response.stderr = Some(stderr);
        },
        Ok(CommandOutcome::TimedOut) => {
            response.timed_out = true;
        },
        Ok(CommandOutcome::OutputLimitExceeded) => {
            response.output_limit_exceeded = true;
        },
        Err(error) => {
            response.error = Some(error);
        },
    }
    response
}

/// Describes a fault, given the description of the host's own errors.
pub fn command_fault_message(fault: CommandFault<String>) -> (text: String)
    ensures
        text@ == match fault {
            CommandFault::Host(error) => error@,
            CommandFault::StdoutNotPiped => "guest command stdout was not piped"@,
            CommandFault::StderrNotPiped => "guest command stderr was not piped"@,
            CommandFault::PipesKeptOpen => "guest command descendants kept output pipes open"@,
        },
{
    match fault {
        CommandFault::Host(error) => error,
        CommandFault::StdoutNotPiped => "guest command stdout was not piped".to_owned(),
        CommandFault::StderrNotPiped => "guest command stderr was not piped".to_owned(),
        CommandFault::PipesKeptOpen =>
            "guest command descendants kept output pipes open".to_owned(),
    }
}

/// Everything that would happen to one command.
pub struct CommandWorld<S> {
    pub spawned: Result<Pipes, S>,
    pub waited: Result<WaitOutcome, S>,
    pub tried: Result<Option<Option<i32>>, S>,
    pub killed: Result<(), S>,
    pub reaped: Result<(), S>,
    pub drained: Drain<S, Seq<u8>>,
    pub descendants_killed: Result<(), S>,
}

/// How a command is known to end.
pub type Ending<S> = Result<CommandOutcome<Seq<u8>>, CommandFault<S>>;

impl<S> CommandWorld<S> {
    /// What happens at a step.
    pub open spec fn event(self, step: CommandStep) -> CommandEvent<S, Seq<u8>> {
        match step {
            CommandStep::Spawn => CommandEvent::Spawned(self.spawned),
            CommandStep::Wait => CommandEvent::Waited(self.waited),
            CommandStep::TryWait(_) => CommandEvent::Tried(self.tried),
            CommandStep::Kill(_) => CommandEvent::Killed(self.killed),
            CommandStep::Reap(_) => CommandEvent::Reaped(self.reaped),
            CommandStep::Drain(_) => CommandEvent::Drained(self.drained),
            CommandStep::KillDescendants => CommandEvent::Killed(self.descendants_killed),
        }
    }

    /// Why waiting ended: a child that turns out to have exited counts as
    /// exited, and any other child is killed and reaped.
    pub open spec fn settled(self) -> Result<WaitOutcome, S> {
        match (self.waited, self.tried, self.killed, self.reaped) {
            (Err(error), _, _, _) => Err(error),
            (Ok(WaitOutcome::Exited { code }), _, _, _) => Ok(WaitOutcome::Exited { code }),
            (_, Err(error), _, _) => Err(error),
            (_, Ok(Some(code)), _, _) => Ok(WaitOutcome::Exited { code }),
            (_, _, Err(error), _) => Err(error),
            (_, _, _, Err(error)) => Err(error),
            (Ok(outcome), _, _, _) => Ok(outcome),
        }
    }

    /// How the command ends.
    pub open spec fn ending(self, limit: usize) -> Ending<S> {
        match (self.spawned, self.settled(), self.drained) {
            (Err(error), _, _) => Err(CommandFault::Host(error)),
            (Ok(Pipes { stdout: false, .. }), _, _) => Err(CommandFault::StdoutNotPiped),
            (Ok(Pipes { stderr: false, .. }), _, _) => Err(CommandFault::StderrNotPiped),
            (_, Err(error), _) => Err(CommandFault::Host(error)),
            (_, _, Drain::Failed(error)) => Err(CommandFault::Host(error)),
            (_, _, Drain::TimedOut) => Err(CommandFault::PipesKeptOpen),
            (_, Ok(outcome), Drain::Ended { stdout, stderr, read }) => Ok(
                concluded(outcome, limit, stdout, stderr, read),
            ),
        }
    }
}

/// How a command has ended after at most `events` events; `None` when it goes on.
pub open spec fn run_command<S>(
    limit: usize,
    step: CommandStep,
    world: CommandWorld<S>,
    events: nat,
) -> Option<Ending<S>>
    decreases events,
{
    if events == 0 {
        None
    } else {
        match command_advanced(limit, step, world.event(step)) {
            CommandProgress::Finished(ending) => Some(ending),
            CommandProgress::Continue(step) => run_command(
                limit,
                step,
                world,
                (events - 1) as nat,
            ),
        }
    }
}

/// A command ends within seven events, as `ending` says, whatever happens to it.
pub proof fn law_command_ending<S>(limit: usize, world: CommandWorld<S>)
    ensures
        run_command(limit, CommandStep::Spawn, world, 7) == Some(world.ending(limit)),
{
    reveal_with_fuel(run_command, 8);
}

/// A command is reported as timed out only when it had not exited, its process
/// group was killed, and the child was reaped.
pub proof fn law_timeout_leaves_no_child<S>(limit: usize, world: CommandWorld<S>)
    requires
        world.ending(limit) == Ok::<CommandOutcome<Seq<u8>>, CommandFault<S>>(
            CommandOutcome::TimedOut,
        ),
    ensures
        world.waited == Ok::<WaitOutcome, S>(WaitOutcome::TimedOut),
        world.tried == Ok::<Option<Option<i32>>, S>(None),
        world.killed is Ok,
        world.reaped is Ok,
        world.drained is Ended,
{
}

/// One read of one of a command's two streams.
pub struct StreamRead {
    /// Whether it is a read of the standard error.
    pub stderr: bool,
    pub bytes: Seq<u8>,
}

/// The sizes of some reads.
pub open spec fn sizes(reads: Seq<StreamRead>) -> Seq<nat> {
    reads.map_values(|read: StreamRead| read.bytes.len())
}

/// What a stream keeps of reads that follow one another, of both streams: each
/// read is accepted with what was read before it as its offset.
pub open spec fn kept_output(limit: nat, reads: Seq<StreamRead>, stderr: bool) -> Seq<u8>
    decreases reads.len(),
{
    if reads.len() == 0 {
        Seq::empty()
    } else {
        let before = kept_output(limit, reads.drop_last(), stderr);
        if reads.last().stderr == stderr {
            accepted(limit, total(sizes(reads.drop_last())), before, reads.last().bytes)
        } else {
            before
        }
    }
}

/// What a command wrote to a stream.
pub open spec fn written(reads: Seq<StreamRead>, stderr: bool) -> Seq<u8>
    decreases reads.len(),
{
    if reads.len() == 0 {
        Seq::empty()
    } else {
        let before = written(reads.drop_last(), stderr);
        if reads.last().stderr == stderr {
            before + reads.last().bytes
        } else {
            before
        }
    }
}

/// What draining the streams gives after the given reads.
pub open spec fn drained_after<S>(limit: usize, reads: Seq<StreamRead>) -> Drain<S, Seq<u8>> {
    Drain::Ended {
        stdout: kept_output(limit as nat, reads, false),
        stderr: kept_output(limit as nat, reads, true),
        read: total(sizes(reads)) as usize,
    }
}

/// As long as both streams together stay within the limit, each keeps all that
/// the command wrote to it, however their reads alternate.
pub proof fn law_output_within_the_limit_is_kept(limit: nat, reads: Seq<StreamRead>, stderr: bool)
    requires
        total(sizes(reads)) <= limit,
    ensures
        kept_output(limit, reads, stderr) == written(reads, stderr),
    decreases reads.len(),
{
    if reads.len() > 0 {
        assert(sizes(reads).drop_last() =~= sizes(reads.drop_last()));
        law_output_within_the_limit_is_kept(limit, reads.drop_last(), stderr);
        let bytes = reads.last().bytes;
        assert(bytes.take(bytes.len() as int) =~= bytes);
    }
}

/// A command is reported as completed only when its output was within the limit,
/// and then with all that it wrote to each stream.
pub proof fn law_completed_output_is_whole<S>(
    limit: usize,
    world: CommandWorld<S>,
    reads: Seq<StreamRead>,
)
    requires
        total(sizes(reads)) <= usize::MAX,
        world.drained == drained_after::<S>(limit, reads),
        world.ending(limit) is Ok,
        world.ending(limit)->Ok_0 is Completed,
    ensures
        total(sizes(reads)) <= limit,
        world.ending(limit)->Ok_0->stdout == written(reads, false),
        world.ending(limit)->Ok_0->stderr == written(reads, true),
{
    law_output_within_the_limit_is_kept(limit as nat, reads, false);
    law_output_within_the_limit_is_kept(limit as nat, reads, true);
}

/// A command that exited and wrote more than the limit is reported as such, and
/// not as completed.
pub proof fn law_excess_output_is_reported<S>(
    limit: usize,
    world: CommandWorld<S>,
    reads: Seq<StreamRead>,
)
    requires
        limit < total(sizes(reads)) <= usize::MAX,
        world.drained == drained_after::<S>(limit, reads),
        world.ending(limit) is Ok,
        world.settled() matches Ok(outcome) && outcome is Exited,
    ensures
        world.ending(limit)->Ok_0 == CommandOutcome::<Seq<u8>>::OutputLimitExceeded,
{
}

} // verus!
