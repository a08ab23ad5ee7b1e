//! Which part of the program a command line goes to.
use vstd::prelude::*;
use vstd::string::*;

use crate::cli::{
    Cli, CliCommand, Eval, EvalCommand, EvalRun, Prepare, ResumeCommand, VmCommand,
};
use crate::path::HostPath;
use crate::vm_run::RunVm;

verus! {

/// A command that was sent to the wrong part of the program.
#[derive(Clone, Copy, Debug, PartialEq, Eq, Structural)]
pub enum DispatchError {
    /// Not one of the commands that take the process over.
    NotSynchronous,
    /// Not a raw VM command.
    NotRaw,
    /// A command that takes the process over came to the async runtime.
    NotAsynchronous,
}

impl DispatchError {
    /// Describes the error.
    pub fn message(self) -> (text: &'static str)
        ensures
            text@ == match self {
                DispatchError::NotSynchronous =>
                    "evaluation command is not a synchronous VM command"@,
                DispatchError::NotRaw => "invalid raw VM command"@,
                DispatchError::NotAsynchronous =>
                    "VM commands must be dispatched before starting the async runtime"@,
            },
    {
        match self {
            DispatchError::NotSynchronous => "evaluation command is not a synchronous VM command",
            DispatchError::NotRaw => "invalid raw VM command",
            DispatchError::NotAsynchronous =>
                "VM commands must be dispatched before starting the async runtime",
        }
    }
}

/// Work that takes the process over, outside of any async runtime.
#[derive(Clone, Copy, Debug)]
pub enum SynchronousVm<'a> {
    /// A raw VM.
    Raw(RunVm<'a>),
    /// A VM from the private configuration in this file.
    Private(&'a HostPath),
}

/// Work for the async runtime.
#[derive(Clone, Debug, PartialEq, Eq)]
pub enum EvalAction {
    /// Run attempts.
    Run(Box<EvalRun>),
    /// Prepare images.
    Prepare(Prepare),
    /// Show a task, as JSON or for people, in which case with its prompt or not.
    Task { directory: HostPath, json: bool, prompt: bool },
    /// Explain a job or trial.
    Inspect { path: HostPath, full: bool },
    /// Compare with the public archive.
    Compare { target: String },
    /// Remove disposable disks.
    Cleanup { path: HostPath, dry_run: bool },
}

/// Whether a command takes the process over.
pub open spec fn synchronous(command: EvalCommand) -> bool {
    match command {
        EvalCommand::Vm { command } => command is Run || command is RunConfig,
        _ => false,
    }
}

/// The work that a command is for the async runtime. Both spellings of
/// `prepare` are the same work.
pub open spec fn asynchronous(command: EvalCommand) -> Result<EvalAction, DispatchError> {
    match command {
        EvalCommand::Run(run) => Ok(EvalAction::Run(run)),
        EvalCommand::Prepare(prepare) => Ok(EvalAction::Prepare(prepare)),
        EvalCommand::Vm { command: VmCommand::Prepare { tasks, suites, cache, refresh } } => Ok(
            EvalAction::Prepare(Prepare { tasks, suites, cache, refresh }),
        ),
        EvalCommand::Task { directory, json, prompt } => Ok(
            EvalAction::Task { directory, json, prompt },
        ),
        EvalCommand::Inspect { path, full } => Ok(EvalAction::Inspect { path, full }),
        EvalCommand::Compare { target } => Ok(EvalAction::Compare { target }),
        EvalCommand::Cleanup { path, dry_run } => Ok(EvalAction::Cleanup { path, dry_run }),
        EvalCommand::Vm { command: _ } => Err(DispatchError::NotAsynchronous),
    }
}

/// Whether `input` is the raw VM that a command describes.
pub open spec fn raw_vm_is(input: RunVm, command: VmCommand) -> bool {
    match command {
        VmCommand::Run {
            root,
            ext4,
            cpus,
            memory_mib,
            network_socket,
            no_network,
            runtime_directory,
            writable_share,
            read_only_disk,
            writable_disk,
            environment,
            guest_command,
        } => {
            &&& *input.root == root
            &&& input.ext4 == ext4
            &&& input.cpus == cpus
            &&& input.memory_mib == memory_mib
            &&& input.network_socket == as_reference(network_socket)
            &&& input.no_network == no_network
            &&& input.runtime_directory == as_reference(runtime_directory)
            &&& *input.writable_shares == writable_share
            &&& *input.read_only_disks == read_only_disk
            &&& *input.writable_disks == writable_disk
            &&& *input.environment == environment
            &&& *input.guest_command == guest_command
        },
        _ => false,
    }
}

/// A path behind a reference, if there is one.
pub open spec fn as_reference(path: Option<HostPath>) -> Option<&'static HostPath> {
    match path {
        Some(path) => Some(&path),
        None => None,
    }
}

fn borrowed<'a>(path: &'a Option<HostPath>) -> (reference: Option<&'a HostPath>)
    ensures
        reference == as_reference(*path),
{
    match path {
        Some(path) => Some(path),
        None => None,
    }
}

/// The raw VM that a VM command describes.
pub fn run_raw_vm<'a>(command: &'a VmCommand) -> (input: Result<RunVm<'a>, DispatchError>)
    ensures
        match input {
            Ok(input) => raw_vm_is(input, *command),
            Err(error) => !(command is Run) && error == DispatchError::NotRaw,
        },
{
    match command {
        VmCommand::Run {
            root,
            ext4,
            cpus,
            memory_mib,
            network_socket,
            no_network,
            runtime_directory,
            writable_share,
            read_only_disk,
            writable_disk,
            environment,
            guest_command,
        } => Ok(
            RunVm {
                root,
                ext4: *ext4,
                cpus: *cpus,
                memory_mib: *memory_mib,
                network_socket: borrowed(network_socket),
                no_network: *no_network,
                runtime_directory: borrowed(runtime_directory),
                writable_shares: writable_share,
                read_only_disks: read_only_disk,
                writable_disks: writable_disk,
                environment,
                guest_command,
            },
        ),
        _ => Err(DispatchError::NotRaw),
    }
}

impl Eval {
    /// Whether this command must run before the async runtime starts.
    pub fn requires_synchronous_vm(&self) -> (requires_it: bool)
        ensures
            requires_it == synchronous(self.command),
    {
        match &self.command {
            EvalCommand::Vm { command } => match command {
                VmCommand::Run { .. } => true,
                VmCommand::RunConfig { .. } => true,
                VmCommand::Prepare { .. } => false,
            },
            _ => false,
        }
    }

    /// The work that takes the process over.
    pub fn run_synchronous_vm(&self) -> (work: Result<SynchronousVm<'_>, DispatchError>)
        ensures
            work is Ok <==> synchronous(self.command),
            match work {
                Ok(SynchronousVm::Raw(input)) => self.command matches EvalCommand::Vm { command }
                    && raw_vm_is(input, command),
                Ok(SynchronousVm::Private(file)) => self.command matches EvalCommand::Vm { command }
                    && command == (VmCommand::RunConfig { config: *file }),
                Err(error) => error == DispatchError::NotSynchronous,
            },
    {
        match &self.command {
            EvalCommand::Vm { command } => match command {
                VmCommand::RunConfig { config } => Ok(SynchronousVm::Private(config)),
                VmCommand::Prepare { .. } => Err(DispatchError::NotSynchronous),
                VmCommand::Run { .. } => match run_raw_vm(command) {
                    Ok(input) => Ok(SynchronousVm::Raw(input)),
                    Err(error) => Err(error),
                },
            },
            _ => Err(DispatchError::NotSynchronous),
        }
    }

    /// The work for the async runtime.
    pub fn run(self) -> (action: Result<EvalAction, DispatchError>)
        ensures
            action == asynchronous(self.command),
    {
        match self.command {
            EvalCommand::Run(run) => Ok(EvalAction::Run(run)),
            EvalCommand::Prepare(prepare) => Ok(EvalAction::Prepare(prepare)),
            EvalCommand::Task { directory, json, prompt } => Ok(
                EvalAction::Task { directory, json, prompt },
            ),
            EvalCommand::Inspect { path, full } => Ok(EvalAction::Inspect { path, full }),
            EvalCommand::Compare { target } => Ok(EvalAction::Compare { target }),
            EvalCommand::Cleanup { path, dry_run } => Ok(EvalAction::Cleanup { path, dry_run }),
            EvalCommand::Vm { command } => match command {
                VmCommand::Prepare { tasks, suites, cache, refresh } => Ok(
                    EvalAction::Prepare(Prepare { tasks, suites, cache, refresh }),
                ),
                _ => Err(DispatchError::NotAsynchronous),
            },
        }
    }
}

impl ResumeCommand {
    /// Describes that the thread could not be loaded.
    pub fn load_failure(&self) -> (text: String)
        ensures
            text@ == "failed to load Codex thread "@ + self.thread_id@,
    {
        String::from_str("failed to load Codex thread ").concat(self.thread_id.as_str())
    }
}

impl Cli {
    /// The command that must run before the async runtime starts, if this is one.
    pub open spec fn before_runtime(self) -> Option<Eval> {
        match self.command {
            Some(CliCommand::Eval(eval)) => if synchronous(eval.command) {
                Some(eval)
            } else {
                None
            },
            _ => None,
        }
    }

    /// The command that must run before the async runtime starts, if this is one.
    pub fn synchronous_vm(&self) -> (eval: Option<&Eval>)
        ensures
            match eval {
                Some(eval) => self.before_runtime() == Some(*eval),
                None => self.before_runtime() is None,
            },
    {
        match &self.command {
            Some(command) => match command {
                CliCommand::Eval(eval) => if eval.requires_synchronous_vm() {
                    Some(eval)
                } else {
                    None
                },
                _ => None,
            },
            None => None,
        }
    }

    /// Whether the agent that will run uses the Tempo provider.
    pub fn uses_tempo(&self) -> (uses: bool)
        ensures
            uses == match self.command {
                None => self.agent.provider_tempo,
                Some(CliCommand::Run(run)) => run.agent.provider_tempo,
                Some(CliCommand::Resume(resume)) => resume.agent.provider_tempo,
                _ => false,
            },
    {
        match &self.command {
            None => self.agent.uses_tempo(),
            Some(command) => match command {
                CliCommand::Run(run) => run.agent.uses_tempo(),
                CliCommand::Resume(resume) => resume.agent.uses_tempo(),
                _ => false,
            },
        }
    }

    /// Whether tracing is set up around an interactive session (`true`) or a
    /// headless one (`false`); commands without a session set up their own.
    pub fn session(&self) -> (interactive: Option<bool>)
        ensures
            interactive == match self.command {
                None => Some(true),
                Some(CliCommand::Resume(_)) => Some(true),
                Some(CliCommand::Run(_)) => Some(false),
                _ => None,
            },
    {
        match &self.command {
            None => Some(true),
            Some(command) => match command {
                CliCommand::Resume(_) => Some(true),
                CliCommand::Run(_) => Some(false),
                _ => None,
            },
        }
    }
}

/// A command runs in exactly one place: it takes the process over, or it is work
/// for the async runtime.
pub proof fn law_command_runs_in_one_place(command: EvalCommand)
    ensures
        synchronous(command) <==> asynchronous(command) is Err,
{
}

/// A raw VM that the command line accepted names a command to run, and states at
/// most one network policy.
pub proof fn law_accepted_raw_vm_is_runnable(command: VmCommand, input: RunVm)
    requires
        command.valid(),
        raw_vm_is(input, command),
    ensures
        input.guest_command@.len() > 0,
        !(input.network_socket is Some && input.no_network),
{
}

/// Both spellings of `prepare` are the same work.
pub proof fn law_prepare_has_two_spellings(prepare: Prepare)
    ensures
        asynchronous(EvalCommand::Prepare(prepare)) == asynchronous(
            EvalCommand::Vm {
                command: VmCommand::Prepare {
                    tasks: prepare.tasks,
                    suites: prepare.suites,
                    cache: prepare.cache,
                    refresh: prepare.refresh,
                },
            },
        ),
{
}

} // verus!
