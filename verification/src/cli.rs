//! The `nanocodex` command line: what it can say, and what follows from it.
use vstd::prelude::*;
use vstd::string::*;
use vstd::utf8::*;

use crate::cli_grammar::{
    cleanup_grammar, compare_grammar, eval_grammar, eval_run_grammar, inspect_grammar,
    lemma_eval_is_sound, lemma_root_is_sound, lemma_vm_is_sound, prepare_grammar, resume_grammar,
    root_command, root_grammar, run_grammar, task_grammar, vm_grammar, vm_prepare_grammar,
    vm_run_config_grammar, vm_run_grammar,
};
use crate::grammar::{
    at_odds, fits, flag_in, follows, found_at, has_opponent, lemma_chosen, lemma_known,
    lemma_required, levels, long_help_text, number_at, number_in, read_words, reading, render_help,
    subcommand_in, texts_at, texts_in, Level, UsageError,
};
use crate::observability::{first_of, format_named, LogFormatArg, TracingFlags};
use crate::path::HostPath;
use crate::text::{same_text, texts};
use crate::vm_args::{environment_of, share_of, GuestEnvironment, ReadOnlyDisk, WritableShare};

verus! {

/// How responses reach the agent.
#[derive(Clone, Copy, Debug, PartialEq, Eq, Structural)]
pub enum ResponsesTransport {
    WebSocket,
    Https,
}

/// What the command line says of the agent.
#[derive(Clone, Debug, PartialEq, Eq)]
pub struct AgentArgs {
    pub provider_openai: bool,
    pub provider_tempo: bool,
    pub wallet_store: Option<HostPath>,
    pub api_key: Option<String>,
    pub browser_cdp: Option<String>,
    pub browser_brave: Vec<String>,
    pub pricing_file: Option<HostPath>,
}

impl AgentArgs {
    /// Whether the Tempo provider was selected.
    pub fn uses_tempo(&self) -> (uses: bool)
        ensures
            uses == self.provider_tempo,
    {
        self.provider_tempo
    }

    /// How responses reach the agent: the Tempo provider serves HTTPS only.
    pub fn responses_transport(&self) -> (transport: ResponsesTransport)
        ensures
            transport == if self.provider_tempo {
                ResponsesTransport::Https
            } else {
                ResponsesTransport::WebSocket
            },
    {
        if self.uses_tempo() {
            ResponsesTransport::Https
        } else {
            ResponsesTransport::WebSocket
        }
    }

    /// Takes the pricing file from the environment where none was given.
    pub fn with_environment(self, pricing_file: Option<HostPath>) -> (agent: AgentArgs)
        ensures
            agent == (AgentArgs {
                pricing_file: first_of(self.pricing_file, pricing_file),
                ..self
            }),
    {
        match self.pricing_file {
            Some(file) => AgentArgs { pricing_file: Some(file), ..self },
            None => AgentArgs { pricing_file, ..self },
        }
    }
}

/// The whole command line.
#[derive(Clone, Debug, PartialEq, Eq)]
pub struct Cli {
    pub command: Option<CliCommand>,
    pub agent: AgentArgs,
    /// A prompt to submit as soon as the TUI opens.
    pub prompt: Option<String>,
}

/// A subcommand.
#[derive(Clone, Debug, PartialEq, Eq)]
pub enum CliCommand {
    /// Manage the subscription login.
    Auth,
    /// Inspect or purchase credits.
    Credits,
    /// Run and inspect durable agent evaluations.
    Eval(Eval),
    /// Run one prompt and stream JSONL events to stdout.
    Run(Box<RunCommand>),
    /// Resume a thread in the interactive TUI.
    Resume(Box<ResumeCommand>),
    /// Update this executable.
    Update,
}

/// One prompt to run.
#[derive(Clone, Debug, PartialEq, Eq)]
pub struct RunCommand {
    pub prompt: String,
    pub agent: AgentArgs,
}

/// A thread to resume.
#[derive(Clone, Debug, PartialEq, Eq)]
pub struct ResumeCommand {
    pub thread_id: String,
    pub agent: AgentArgs,
    /// A follow-on prompt to submit as soon as the TUI opens.
    pub prompt: Option<String>,
}

/// An evaluation command.
#[derive(Clone, Debug, PartialEq, Eq)]
pub struct Eval {
    pub command: EvalCommand,
}

/// What an evaluation command does.
#[derive(Clone, Debug, PartialEq, Eq)]
pub enum EvalCommand {
    /// Run fresh attempts and retain their outputs.
    Run(Box<EvalRun>),
    /// Prepare task VM images without running agents.
    Prepare(Prepare),
    /// Load, validate, and inspect a benchmark task directory.
    Task { directory: HostPath, json: bool, prompt: bool },
    /// Explain a retained job or trial.
    Inspect { path: HostPath, full: bool },
    /// Compare a task or retained job with the public archive.
    Compare { target: String },
    /// Remove disposable VM disks from completed retained trials.
    Cleanup { path: HostPath, dry_run: bool },
    /// Run one command in a microVM.
    Vm { command: VmCommand },
}

/// Attempts to run.
#[derive(Clone, Debug, PartialEq, Eq)]
pub struct EvalRun {
    pub tasks: Vec<HostPath>,
    pub suites: Vec<HostPath>,
    pub trials: Option<u16>,
    pub thinking: Option<String>,
    pub pricing_file: Option<HostPath>,
    /// Whether each attempt runs in a microVM.
    pub vm: bool,
    /// Whether a new job starts in place of resuming an incomplete one.
    pub new: bool,
    pub tracing: TracingFlags,
}

impl EvalRun {
    /// Takes the pricing file from the environment where none was given.
    pub fn with_environment(self, pricing_file: Option<HostPath>) -> (run: EvalRun)
        ensures
            run == (EvalRun { pricing_file: first_of(self.pricing_file, pricing_file), ..self }),
    {
        match self.pricing_file {
            Some(file) => EvalRun { pricing_file: Some(file), ..self },
            None => EvalRun { pricing_file, ..self },
        }
    }
}

/// Images to prepare.
#[derive(Clone, Debug, PartialEq, Eq)]
pub struct Prepare {
    pub tasks: Vec<HostPath>,
    pub suites: Vec<HostPath>,
    pub cache: HostPath,
    pub refresh: bool,
}

/// What a VM command does.
#[derive(Clone, Debug, PartialEq, Eq)]
pub enum VmCommand {
    /// Prepare task root disks without running agents.
    Prepare { tasks: Vec<HostPath>, suites: Vec<HostPath>, cache: HostPath, refresh: bool },
    /// Boot a root filesystem and run a command in it.
    Run {
        root: HostPath,
        ext4: bool,
        cpus: u8,
        memory_mib: u32,
        network_socket: Option<HostPath>,
        no_network: bool,
        runtime_directory: Option<HostPath>,
        writable_share: Vec<WritableShare>,
        read_only_disk: Vec<ReadOnlyDisk>,
        writable_disk: Vec<ReadOnlyDisk>,
        environment: Vec<GuestEnvironment>,
        guest_command: Vec<String>,
    },
    /// Enter a dedicated VMM process from a private serialized configuration.
    RunConfig { config: HostPath },
}

/// Whether `found` is the text that was found, if there was one.
pub open spec fn text_is(found: Option<String>, values: Seq<Seq<char>>) -> bool {
    match found {
        Some(text) => values.len() > 0 && text@ == values[0],
        None => values.len() == 0,
    }
}

/// Whether `found` is the path that was found, if there was one.
pub open spec fn path_is(found: Option<HostPath>, values: Seq<Seq<char>>) -> bool {
    match found {
        Some(path) => values.len() > 0 && path@ == encode_utf8(values[0]),
        None => values.len() == 0,
    }
}

/// Whether `found` are the paths that were found, in order.
pub open spec fn paths_are(found: Seq<HostPath>, values: Seq<Seq<char>>) -> bool {
    &&& found.len() == values.len()
    &&& forall|i: int| 0 <= i < found.len() ==> (#[trigger] found[i])@ == encode_utf8(values[i])
}

/// Whether `share` is the share that a text names.
pub open spec fn share_is(share: WritableShare, value: Seq<char>) -> bool {
    match share_of(value) {
        Ok((tag, directory)) => share.tag@ == tag && share.directory@ == encode_utf8(directory),
        Err(_) => false,
    }
}

/// Whether `disk` is the disk that a text names.
pub open spec fn disk_is(disk: ReadOnlyDisk, value: Seq<char>) -> bool {
    match share_of(value) {
        Ok((id, image)) => disk.id@ == id && disk.image@ == encode_utf8(image),
        Err(_) => false,
    }
}

/// Whether `entry` is the environment entry that a text gives.
pub open spec fn entry_is(entry: GuestEnvironment, text: Seq<char>) -> bool {
    match environment_of(text) {
        Ok((name, value)) => entry.name@ == name && entry.value@ == value,
        Err(_) => false,
    }
}

/// Whether `found` are the shares that were found, in order.
pub open spec fn shares_are(found: Seq<WritableShare>, values: Seq<Seq<char>>) -> bool {
    &&& found.len() == values.len()
    &&& forall|i: int| 0 <= i < found.len() ==> share_is(#[trigger] found[i], values[i])
}

/// Whether `found` are the disks that were found, in order.
pub open spec fn disks_are(found: Seq<ReadOnlyDisk>, values: Seq<Seq<char>>) -> bool {
    &&& found.len() == values.len()
    &&& forall|i: int| 0 <= i < found.len() ==> disk_is(#[trigger] found[i], values[i])
}

/// Whether `found` are the environment entries that were found, in order.
pub open spec fn entries_are(found: Seq<GuestEnvironment>, values: Seq<Seq<char>>) -> bool {
    &&& found.len() == values.len()
    &&& forall|i: int| 0 <= i < found.len() ==> entry_is(#[trigger] found[i], values[i])
}

/// Whether `agent` is what was found of the agent at a level.
pub open spec fn agent_is(agent: AgentArgs, level: Level) -> bool {
    &&& agent.provider_openai == level.flags.contains("provider.openai"@)
    &&& agent.provider_tempo == level.flags.contains("provider.tempo"@)
    &&& path_is(agent.wallet_store, texts_at(level, "provider.tempo.wallet-store"@))
    &&& text_is(agent.api_key, texts_at(level, "api-key"@))
    &&& text_is(agent.browser_cdp, texts_at(level, "browser-cdp"@))
    &&& texts(agent.browser_brave@) == texts_at(level, "browser-brave"@)
    &&& path_is(agent.pricing_file, texts_at(level, "pricing-file"@))
}

/// Whether `found` is the format of tracing output that was found, if there was one.
pub open spec fn format_is(found: Option<LogFormatArg>, values: Seq<Seq<char>>) -> bool {
    match found {
        Some(format) => values.len() > 0 && format_named(values[0]) == Some(format),
        None => values.len() == 0,
    }
}

/// Whether `tracing` is what was found of tracing at a level.
pub open spec fn tracing_is(tracing: TracingFlags, level: Level) -> bool {
    &&& text_is(tracing.log_filter, texts_at(level, "log-filter"@))
    &&& text_is(tracing.otel_filter, texts_at(level, "otel-filter"@))
    &&& format_is(tracing.log_format, texts_at(level, "log-format"@))
    &&& format_is(tracing.legacy_log_format, texts_at(level, "__legacy-nanoeval-log-format"@))
    &&& path_is(tracing.log_file, texts_at(level, "log-file"@))
    &&& path_is(tracing.legacy_log_file, texts_at(level, "__legacy-nanoeval-log-file"@))
    &&& text_is(tracing.otel_endpoint, texts_at(level, "otel-endpoint"@))
    &&& text_is(tracing.otel_environment, texts_at(level, "otel-environment"@))
}

/// Whether `cli` is what was found on a command line.
pub open spec fn cli_is(cli: Cli, found: Seq<Level>) -> bool {
    &&& agent_is(cli.agent, found[0])
    &&& text_is(cli.prompt, texts_at(found[0], "prompt"@))
    &&& match cli.command {
        None => found.len() == 1,
        Some(command) => found.len() > 1 && command_is(command, found.skip(1)),
    }
}

/// Whether `command` is the subcommand that was found.
pub open spec fn command_is(command: CliCommand, found: Seq<Level>) -> bool {
    let name = found[0].name;
    match command {
        CliCommand::Auth => name == "auth"@,
        CliCommand::Credits => name == "credits"@,
        CliCommand::Update => name == "update"@,
        CliCommand::Run(run) => {
            &&& name == "run"@
            &&& text_is(Some(run.prompt), texts_at(found[0], "prompt"@))
            &&& agent_is(run.agent, found[0])
        },
        CliCommand::Resume(resume) => {
            &&& name == "resume"@
            &&& text_is(Some(resume.thread_id), texts_at(found[0], "thread_id"@))
            &&& agent_is(resume.agent, found[0])
            &&& text_is(resume.prompt, texts_at(found[0], "prompt"@))
        },
        CliCommand::Eval(eval) => {
            &&& name == "eval"@
            &&& found.len() > 1
            &&& eval_is(eval.command, found.skip(1))
        },
    }
}

/// Whether `command` is the evaluation command that was found.
pub open spec fn eval_is(command: EvalCommand, found: Seq<Level>) -> bool {
    let level = found[0];
    match command {
        EvalCommand::Run(run) => {
            &&& level.name == "run"@
            &&& paths_are(run.tasks@, texts_at(level, "task"@))
            &&& paths_are(run.suites@, texts_at(level, "suite"@))
            &&& match run.trials {
                Some(trials) => number_at(level, "trials"@) == Some(trials as int),
                None => number_at(level, "trials"@) is None,
            }
            &&& text_is(run.thinking, texts_at(level, "thinking"@))
            &&& path_is(run.pricing_file, texts_at(level, "pricing-file"@))
            &&& run.vm == level.flags.contains("vm"@)
            &&& run.new == level.flags.contains("new"@)
            &&& tracing_is(run.tracing, level)
        },
        EvalCommand::Prepare(prepare) => {
            &&& level.name == "prepare"@
            &&& prepare_is(prepare.tasks, prepare.suites, prepare.cache, prepare.refresh, level)
        },
        EvalCommand::Task { directory, json, prompt } => {
            &&& level.name == "task"@
            &&& path_is(Some(directory), texts_at(level, "directory"@))
            &&& json == level.flags.contains("json"@)
            &&& prompt == level.flags.contains("prompt"@)
        },
        EvalCommand::Inspect { path, full } => {
            &&& level.name == "inspect"@
            &&& path_is(Some(path), texts_at(level, "path"@))
            &&& full == level.flags.contains("full"@)
        },
        EvalCommand::Compare { target } => {
            &&& level.name == "compare"@
            &&& text_is(Some(target), texts_at(level, "target"@))
        },
        EvalCommand::Cleanup { path, dry_run } => {
            &&& level.name == "cleanup"@
            &&& path_is(Some(path), texts_at(level, "path"@))
            &&& dry_run == level.flags.contains("dry-run"@)
        },
        EvalCommand::Vm { command } => {
            &&& level.name == "vm"@
            &&& found.len() > 1
            &&& vm_is(command, found[1])
        },
    }
}

/// Whether these are the images to prepare that were found.
pub open spec fn prepare_is(
    tasks: Vec<HostPath>,
    suites: Vec<HostPath>,
    cache: HostPath,
    refresh: bool,
    level: Level,
) -> bool {
    &&& paths_are(tasks@, texts_at(level, "task"@))
    &&& paths_are(suites@, texts_at(level, "suite"@))
    &&& path_is(Some(cache), texts_at(level, "cache"@))
    &&& refresh == level.flags.contains("refresh"@)
}

/// Whether `command` is the VM command that was found.
pub open spec fn vm_is(command: VmCommand, level: Level) -> bool {
    match command {
        VmCommand::Prepare { tasks, suites, cache, refresh } => {
            &&& level.name == "prepare"@
            &&& prepare_is(tasks, suites, cache, refresh, level)
        },
        VmCommand::RunConfig { config } => {
            &&& level.name == "run-config"@
            &&& path_is(Some(config), texts_at(level, "config"@))
        },
        VmCommand::Run {
            root,
            ext4,
            cpus,
            memory_mib,
            network_socket,
            no_network,
            runtime_directory,
            writable_share,
            read_only_disk,
            writable_disk,
            environment,
            guest_command,
        } => {
            &&& level.name == "run"@
            &&& path_is(Some(root), texts_at(level, "root"@))
            &&& ext4 == level.flags.contains("ext4"@)
            &&& number_at(level, "cpus"@) == Some(cpus as int)
            &&& number_at(level, "memory-mib"@) == Some(memory_mib as int)
            &&& path_is(network_socket, texts_at(level, "network-socket"@))
            &&& no_network == level.flags.contains("no-network"@)
            &&& path_is(runtime_directory, texts_at(level, "runtime-directory"@))
            &&& shares_are(writable_share@, texts_at(level, "writable-share"@))
            &&& disks_are(read_only_disk@, texts_at(level, "read-only-disk"@))
            &&& disks_are(writable_disk@, texts_at(level, "writable-disk"@))
            &&& entries_are(environment@, texts_at(level, "env"@))
            &&& texts(guest_command@) == texts_at(level, "guest_command"@)
        },
    }
}

fn read_text(matches: &clap::ArgMatches, name: &str) -> (found: Option<String>)
    ensures
        text_is(found, texts_at(levels(*matches)[0], name@)),
{
    let values = texts_in(matches, name);
    if values.len() == 0 {
        None
    } else {
        assert(texts(values@)[0] == values@[0]@);
        Some(values[0].clone())
    }
}

fn read_path(matches: &clap::ArgMatches, name: &str) -> (found: Option<HostPath>)
    ensures
        path_is(found, texts_at(levels(*matches)[0], name@)),
{
    match read_text(matches, name) {
        Some(text) => Some(HostPath::from_text(text.as_str())),
        None => None,
    }
}

fn read_required_text(matches: &clap::ArgMatches, name: &str) -> (found: String)
    requires
        texts_at(levels(*matches)[0], name@).len() > 0,
    ensures
        text_is(Some(found), texts_at(levels(*matches)[0], name@)),
{
    let values = texts_in(matches, name);
    assert(texts(values@)[0] == values@[0]@);
    values[0].clone()
}

fn read_required_path(matches: &clap::ArgMatches, name: &str) -> (found: HostPath)
    requires
        texts_at(levels(*matches)[0], name@).len() > 0,
    ensures
        path_is(Some(found), texts_at(levels(*matches)[0], name@)),
{
    HostPath::from_text(read_required_text(matches, name).as_str())
}

fn read_paths(matches: &clap::ArgMatches, name: &str) -> (found: Vec<HostPath>)
    ensures
        paths_are(found@, texts_at(levels(*matches)[0], name@)),
{
    let values = texts_in(matches, name);
    let mut found: Vec<HostPath> = Vec::new();
    let mut at: usize = 0;
    while at < values.len()
        invariant
            at <= values@.len(),
            found@.len() == at,
            forall|i: int| 0 <= i < at ==> (#[trigger] found@[i])@ == encode_utf8(values@[i]@),
        decreases values@.len() - at,
    {
        found.push(HostPath::from_text(values[at].as_str()));
        at += 1;
    }
    assert forall|i: int| 0 <= i < found@.len() implies (#[trigger] found@[i])@ == encode_utf8(
        texts(values@)[i],
    ) by {}
    found
}

fn read_shares(matches: &clap::ArgMatches, name: &str) -> (found: Vec<WritableShare>)
    requires
        forall|i: int|
            0 <= i < texts_at(levels(*matches)[0], name@).len() ==> share_of(
                #[trigger] texts_at(levels(*matches)[0], name@)[i],
            ) is Ok,
    ensures
        shares_are(found@, texts_at(levels(*matches)[0], name@)),
{
    let values = texts_in(matches, name);
    let ghost all = texts_at(levels(*matches)[0], name@);
    let mut found: Vec<WritableShare> = Vec::new();
    let mut at: usize = 0;
    while at < values.len()
        invariant
            at <= values@.len(),
            found@.len() == at,
            texts(values@) == all,
            forall|i: int| 0 <= i < all.len() ==> share_of(#[trigger] all[i]) is Ok,
            forall|i: int| 0 <= i < at ==> share_is(#[trigger] found@[i], all[i]),
        decreases values@.len() - at,
    {
        assert(all[at as int] == values@[at as int]@);
        if let Ok(share) = WritableShare::from_str(values[at].as_str()) {
            found.push(share);
        }
        at += 1;
    }
    found
}

fn read_disks(matches: &clap::ArgMatches, name: &str) -> (found: Vec<ReadOnlyDisk>)
    requires
        forall|i: int|
            0 <= i < texts_at(levels(*matches)[0], name@).len() ==> share_of(
                #[trigger] texts_at(levels(*matches)[0], name@)[i],
            ) is Ok,
    ensures
        disks_are(found@, texts_at(levels(*matches)[0], name@)),
{
    let values = texts_in(matches, name);
    let ghost all = texts_at(levels(*matches)[0], name@);
    let mut found: Vec<ReadOnlyDisk> = Vec::new();
    let mut at: usize = 0;
    while at < values.len()
        invariant
            at <= values@.len(),
            found@.len() == at,
            texts(values@) == all,
            forall|i: int| 0 <= i < all.len() ==> share_of(#[trigger] all[i]) is Ok,
            forall|i: int| 0 <= i < at ==> disk_is(#[trigger] found@[i], all[i]),
        decreases values@.len() - at,
    {
        assert(all[at as int] == values@[at as int]@);
        if let Ok(disk) = ReadOnlyDisk::from_str(values[at].as_str()) {
            found.push(disk);
        }
        at += 1;
    }
    found
}

fn read_entries(matches: &clap::ArgMatches, name: &str) -> (found: Vec<GuestEnvironment>)
    requires
        forall|i: int|
            0 <= i < texts_at(levels(*matches)[0], name@).len() ==> environment_of(
                #[trigger] texts_at(levels(*matches)[0], name@)[i],
            ) is Ok,
    ensures
        entries_are(found@, texts_at(levels(*matches)[0], name@)),
{
    let values = texts_in(matches, name);
    let ghost all = texts_at(levels(*matches)[0], name@);
    let mut found: Vec<GuestEnvironment> = Vec::new();
    let mut at: usize = 0;
    while at < values.len()
        invariant
            at <= values@.len(),
            found@.len() == at,
            texts(values@) == all,
            forall|i: int| 0 <= i < all.len() ==> environment_of(#[trigger] all[i]) is Ok,
            forall|i: int| 0 <= i < at ==> entry_is(#[trigger] found@[i], all[i]),
        decreases values@.len() - at,
    {
        assert(all[at as int] == values@[at as int]@);
        if let Ok(entry) = GuestEnvironment::from_str(values[at].as_str()) {
            found.push(entry);
        }
        at += 1;
    }
    found
}

fn read_agent(matches: &clap::ArgMatches) -> (agent: AgentArgs)
    ensures
        agent_is(agent, levels(*matches)[0]),
{
    AgentArgs {
        provider_openai: flag_in(matches, "provider.openai"),
        provider_tempo: flag_in(matches, "provider.tempo"),
        wallet_store: read_path(matches, "provider.tempo.wallet-store"),
        api_key: read_text(matches, "api-key"),
        browser_cdp: read_text(matches, "browser-cdp"),
        browser_brave: texts_in(matches, "browser-brave"),
        pricing_file: read_path(matches, "pricing-file"),
    }
}

impl AgentArgs {
    /// Whether at most one provider was selected.
    pub open spec fn valid(self) -> bool {
        !(self.provider_openai && self.provider_tempo)
    }

    /// Whether nothing was said of the agent.
    pub open spec fn blank(self) -> bool {
        &&& !self.provider_openai
        &&& !self.provider_tempo
        &&& self.wallet_store is None
        &&& self.api_key is None
        &&& self.browser_cdp is None
        &&& self.browser_brave@.len() == 0
        &&& self.pricing_file is None
    }
}

impl VmCommand {
    /// Whether a VM command has something to prepare, or states at most one
    /// network policy and something to run.
    pub open spec fn valid(self) -> bool {
        match self {
            VmCommand::Prepare { tasks, suites, .. } => tasks@.len() > 0 || suites@.len() > 0,
            VmCommand::Run { network_socket, no_network, guest_command, .. } => {
                &&& !(network_socket is Some && no_network)
                &&& guest_command@.len() > 0
            },
            VmCommand::RunConfig { config } => true,
        }
    }
}

impl EvalCommand {
    /// Whether an evaluation command has something to prepare, or asks for at
    /// most one way to show a task, or is a valid VM command.
    pub open spec fn valid(self) -> bool {
        match self {
            EvalCommand::Prepare(prepare) => prepare.tasks@.len() > 0 || prepare.suites@.len() > 0,
            EvalCommand::Task { json, prompt, .. } => !(json && prompt),
            EvalCommand::Vm { command } => command.valid(),
            _ => true,
        }
    }
}

impl Cli {
    /// Whether a command line says nothing that contradicts itself: one provider
    /// at most, nothing of the agent beside a subcommand, and a subcommand that
    /// is valid in itself.
    pub open spec fn valid(self) -> bool {
        &&& self.agent.valid()
        &&& self.command is Some ==> self.agent.blank() && self.prompt is None
        &&& match self.command {
            Some(CliCommand::Run(run)) => run.agent.valid(),
            Some(CliCommand::Resume(resume)) => resume.agent.valid(),
            Some(CliCommand::Eval(eval)) => eval.command.valid(),
            _ => true,
        }
    }
}

fn read_run(matches: &clap::ArgMatches) -> (run: RunCommand)
    requires
        follows(run_grammar(), levels(*matches)),
        levels(*matches)[0].name == "run"@,
    ensures
        command_is(CliCommand::Run(Box::new(run)), levels(*matches)),
        run.agent.valid(),
{
    let ghost grammar = run_grammar();
    proof {
        reveal_strlit("provider.tempo");
        reveal_strlit("prompt");
        assert(!has_opponent(grammar, grammar.arguments[0])) by {
            assert("provider.tempo"@.len() != "prompt"@.len());
        }
        lemma_required(grammar, levels(*matches), 0);
        assert(at_odds(grammar.arguments[1], grammar.arguments[2]));
    }
    RunCommand { prompt: read_required_text(matches, "prompt"), agent: read_agent(matches) }
}

fn read_resume(matches: &clap::ArgMatches) -> (resume: ResumeCommand)
    requires
        follows(resume_grammar(), levels(*matches)),
        levels(*matches)[0].name == "resume"@,
    ensures
        command_is(CliCommand::Resume(Box::new(resume)), levels(*matches)),
        resume.agent.valid(),
{
    let ghost grammar = resume_grammar();
    proof {
        reveal_strlit("provider.tempo");
        reveal_strlit("thread_id");
        assert(!has_opponent(grammar, grammar.arguments[0])) by {
            assert("provider.tempo"@.len() != "thread_id"@.len());
        }
        lemma_required(grammar, levels(*matches), 0);
        assert(at_odds(grammar.arguments[1], grammar.arguments[2]));
    }
    ResumeCommand {
        thread_id: read_required_text(matches, "thread_id"),
        agent: read_agent(matches),
        prompt: read_text(matches, "prompt"),
    }
}

fn read_format(matches: &clap::ArgMatches, name: &str) -> (found: Option<LogFormatArg>)
    requires
        texts_at(levels(*matches)[0], name@).len() > 0 ==> format_named(
            texts_at(levels(*matches)[0], name@)[0],
        ) is Some,
    ensures
        format_is(found, texts_at(levels(*matches)[0], name@)),
{
    match read_text(matches, name) {
        Some(text) => LogFormatArg::from_name(text.as_str()),
        None => None,
    }
}

fn read_eval_run(matches: &clap::ArgMatches) -> (run: EvalRun)
    requires
        follows(eval_run_grammar(), levels(*matches)),
        levels(*matches)[0].name == "run"@,
    ensures
        eval_is(EvalCommand::Run(Box::new(run)), levels(*matches)),
{
    proof {
        assert(fits(eval_run_grammar().arguments[2], levels(*matches)[0]));
        assert(fits(eval_run_grammar().arguments[9], levels(*matches)[0]));
        assert(fits(eval_run_grammar().arguments[10], levels(*matches)[0]));
    }
    EvalRun {
        tasks: read_paths(matches, "task"),
        suites: read_paths(matches, "suite"),
        trials: match number_in(matches, "trials") {
            Some(trials) => Some(trials as u16),
            None => None,
        },
        thinking: read_text(matches, "thinking"),
        pricing_file: read_path(matches, "pricing-file"),
        vm: flag_in(matches, "vm"),
        new: flag_in(matches, "new"),
        tracing: TracingFlags {
            log_filter: read_text(matches, "log-filter"),
            otel_filter: read_text(matches, "otel-filter"),
            log_format: read_format(matches, "log-format"),
            legacy_log_format: read_format(matches, "__legacy-nanoeval-log-format"),
            log_file: read_path(matches, "log-file"),
            legacy_log_file: read_path(matches, "__legacy-nanoeval-log-file"),
            otel_endpoint: read_text(matches, "otel-endpoint"),
            otel_environment: read_text(matches, "otel-environment"),
        },
    }
}

fn read_prepare(matches: &clap::ArgMatches) -> (prepare: Prepare)
    requires
        follows(prepare_grammar(), levels(*matches)) || follows(
            vm_prepare_grammar(),
            levels(*matches),
        ),
    ensures
        prepare_is(
            prepare.tasks,
            prepare.suites,
            prepare.cache,
            prepare.refresh,
            levels(*matches)[0],
        ),
        prepare.tasks@.len() > 0 || prepare.suites@.len() > 0,
{
    proof {
        let grammar = if follows(prepare_grammar(), levels(*matches)) {
            prepare_grammar()
        } else {
            vm_prepare_grammar()
        };
        assert(fits(grammar.arguments[0], levels(*matches)[0]));
        assert(fits(grammar.arguments[1], levels(*matches)[0]));
        assert(fits(grammar.arguments[2], levels(*matches)[0]));
    }
    Prepare {
        tasks: read_paths(matches, "task"),
        suites: read_paths(matches, "suite"),
        cache: read_required_path(matches, "cache"),
        refresh: flag_in(matches, "refresh"),
    }
}

fn read_task(matches: &clap::ArgMatches) -> (command: EvalCommand)
    requires
        follows(task_grammar(), levels(*matches)),
        levels(*matches)[0].name == "task"@,
    ensures
        eval_is(command, levels(*matches)),
        command.valid(),
{
    let ghost grammar = task_grammar();
    proof {
        reveal_strlit("json");
        reveal_strlit("directory");
        assert(!has_opponent(grammar, grammar.arguments[0])) by {
            assert("json"@.len() != "directory"@.len());
        }
        lemma_required(grammar, levels(*matches), 0);
        assert(at_odds(grammar.arguments[2], grammar.arguments[1]));
    }
    EvalCommand::Task {
        directory: read_required_path(matches, "directory"),
        json: flag_in(matches, "json"),
        prompt: flag_in(matches, "prompt"),
    }
}

fn read_inspect(matches: &clap::ArgMatches) -> (command: EvalCommand)
    requires
        follows(inspect_grammar(), levels(*matches)),
        levels(*matches)[0].name == "inspect"@,
    ensures
        eval_is(command, levels(*matches)),
        command.valid(),
{
    let ghost grammar = inspect_grammar();
    proof {
        assert(!has_opponent(grammar, grammar.arguments[0]));
        lemma_required(grammar, levels(*matches), 0);
    }
    EvalCommand::Inspect {
        path: read_required_path(matches, "path"),
        full: flag_in(matches, "full"),
    }
}

fn read_compare(matches: &clap::ArgMatches) -> (command: EvalCommand)
    requires
        follows(compare_grammar(), levels(*matches)),
        levels(*matches)[0].name == "compare"@,
    ensures
        eval_is(command, levels(*matches)),
        command.valid(),
{
    proof {
        lemma_required(compare_grammar(), levels(*matches), 0);
    }
    EvalCommand::Compare { target: read_required_text(matches, "target") }
}

fn read_cleanup(matches: &clap::ArgMatches) -> (command: EvalCommand)
    requires
        follows(cleanup_grammar(), levels(*matches)),
        levels(*matches)[0].name == "cleanup"@,
    ensures
        eval_is(command, levels(*matches)),
        command.valid(),
{
    proof {
        lemma_required(cleanup_grammar(), levels(*matches), 0);
    }
    EvalCommand::Cleanup {
        path: read_required_path(matches, "path"),
        dry_run: flag_in(matches, "dry-run"),
    }
}

fn read_vm_run(matches: &clap::ArgMatches) -> (command: VmCommand)
    requires
        follows(vm_run_grammar(), levels(*matches)),
        levels(*matches)[0].name == "run"@,
    ensures
        vm_is(command, levels(*matches)[0]),
        command.valid(),
{
    let ghost grammar = vm_run_grammar();
    proof {
        let level = levels(*matches)[0];
        reveal_strlit("no-network");
        reveal_strlit("root");
        reveal_strlit("guest_command");
        assert(!has_opponent(grammar, grammar.arguments[0])) by {
            assert("no-network"@.len() != "root"@.len());
        }
        lemma_required(grammar, levels(*matches), 0);
        assert(!has_opponent(grammar, grammar.arguments[11])) by {
            assert("no-network"@.len() != "guest_command"@.len());
        }
        lemma_required(grammar, levels(*matches), 11);
        assert(at_odds(grammar.arguments[4], grammar.arguments[5]));
        assert(fits(grammar.arguments[2], level));
        assert(fits(grammar.arguments[3], level));
        assert(fits(grammar.arguments[7], level));
        assert(fits(grammar.arguments[8], level));
        assert(fits(grammar.arguments[9], level));
        assert(fits(grammar.arguments[10], level));
    }
    let cpus: u8 = match number_in(matches, "cpus") {
        Some(number) => number as u8,
        None => 0,
    };
    let memory_mib: u32 = match number_in(matches, "memory-mib") {
        Some(number) => number as u32,
        None => 0,
    };
    VmCommand::Run {
        root: read_required_path(matches, "root"),
        ext4: flag_in(matches, "ext4"),
        cpus,
        memory_mib,
        network_socket: read_path(matches, "network-socket"),
        no_network: flag_in(matches, "no-network"),
        runtime_directory: read_path(matches, "runtime-directory"),
        writable_share: read_shares(matches, "writable-share"),
        read_only_disk: read_disks(matches, "read-only-disk"),
        writable_disk: read_disks(matches, "writable-disk"),
        environment: read_entries(matches, "env"),
        guest_command: texts_in(matches, "guest_command"),
    }
}

fn read_vm(matches: clap::ArgMatches) -> (command: VmCommand)
    requires
        follows(vm_grammar(), levels(matches)),
    ensures
        levels(matches).len() > 1,
        vm_is(command, levels(matches)[1]),
        command.valid(),
{
    let ghost grammar = vm_grammar();
    let ghost found = levels(matches);
    proof {
        lemma_vm_is_sound();
        let k = lemma_known(grammar, found);
        assert(found.skip(1)[0] == found[1]);
    }
    let (name, rest) = subcommand_in(matches).unwrap();
    if same_text(name.as_str(), "prepare") {
        proof {
            lemma_chosen(grammar, found, 0);
        }
        let prepare = read_prepare(&rest);
        VmCommand::Prepare {
            tasks: prepare.tasks,
            suites: prepare.suites,
            cache: prepare.cache,
            refresh: prepare.refresh,
        }
    } else if same_text(name.as_str(), "run") {
        proof {
            lemma_chosen(grammar, found, 1);
        }
        read_vm_run(&rest)
    } else {
        proof {
            lemma_chosen(grammar, found, 2);
            lemma_required(vm_run_config_grammar(), levels(rest), 0);
        }
        VmCommand::RunConfig { config: read_required_path(&rest, "config") }
    }
}

fn read_eval(matches: clap::ArgMatches) -> (command: EvalCommand)
    requires
        follows(eval_grammar(), levels(matches)),
    ensures
        levels(matches).len() > 1,
        eval_is(command, levels(matches).skip(1)),
        command.valid(),
{
    let ghost grammar = eval_grammar();
    let ghost found = levels(matches);
    proof {
        lemma_eval_is_sound();
        let k = lemma_known(grammar, found);
        assert(found.skip(1)[0] == found[1]);
    }
    let (name, rest) = subcommand_in(matches).unwrap();
    if same_text(name.as_str(), "run") {
        proof {
            lemma_chosen(grammar, found, 0);
        }
        EvalCommand::Run(Box::new(read_eval_run(&rest)))
    } else if same_text(name.as_str(), "prepare") {
        proof {
            lemma_chosen(grammar, found, 1);
        }
        EvalCommand::Prepare(read_prepare(&rest))
    } else if same_text(name.as_str(), "task") {
        proof {
            lemma_chosen(grammar, found, 2);
        }
        read_task(&rest)
    } else if same_text(name.as_str(), "inspect") {
        proof {
            lemma_chosen(grammar, found, 3);
        }
        read_inspect(&rest)
    } else if same_text(name.as_str(), "compare") {
        proof {
            lemma_chosen(grammar, found, 4);
        }
        read_compare(&rest)
    } else if same_text(name.as_str(), "cleanup") {
        proof {
            lemma_chosen(grammar, found, 5);
        }
        read_cleanup(&rest)
    } else {
        proof {
            lemma_chosen(grammar, found, 6);
        }
        let command = read_vm(rest);
        EvalCommand::Vm { command }
    }
}

fn read_command(matches: clap::ArgMatches, versions: (&'static str, &'static str)) -> (command:
    Option<CliCommand>)
    requires
        follows(root_grammar(versions), levels(matches)),
    ensures
        match command {
            None => levels(matches).len() == 1,
            Some(command) => {
                &&& levels(matches).len() > 1
                &&& command_is(command, levels(matches).skip(1))
                &&& match command {
                    CliCommand::Run(run) => run.agent.valid(),
                    CliCommand::Resume(resume) => resume.agent.valid(),
                    CliCommand::Eval(eval) => eval.command.valid(),
                    _ => true,
                }
            },
        },
{
    let ghost grammar = root_grammar(versions);
    let ghost found = levels(matches);
    let (name, rest) = match subcommand_in(matches) {
        None => {
            return None;
        },
        Some(chosen) => chosen,
    };
    proof {
        lemma_root_is_sound(versions);
        let k = lemma_known(grammar, found);
        assert(found.skip(1)[0] == found[1]);
    }
    let command = if same_text(name.as_str(), "auth") {
        CliCommand::Auth
    } else if same_text(name.as_str(), "credits") {
        CliCommand::Credits
    } else if same_text(name.as_str(), "eval") {
        proof {
            lemma_chosen(grammar, found, 2);
        }
        CliCommand::Eval(Eval { command: read_eval(rest) })
    } else if same_text(name.as_str(), "run") {
        proof {
            lemma_chosen(grammar, found, 3);
        }
        CliCommand::Run(Box::new(read_run(&rest)))
    } else if same_text(name.as_str(), "resume") {
        proof {
            lemma_chosen(grammar, found, 4);
        }
        CliCommand::Resume(Box::new(read_resume(&rest)))
    } else {
        CliCommand::Update
    };
    Some(command)
}

impl Cli {
    /// Takes what was found on a command line. `versions` are the short and the
    /// long version that the command line was read with.
    pub fn from_matches(
        matches: clap::ArgMatches,
        versions: (&'static str, &'static str),
    ) -> (cli: Cli)
        requires
            follows(root_grammar(versions), levels(matches)),
        ensures
            cli_is(cli, levels(matches)),
            cli.valid(),
    {
        let ghost grammar = root_grammar(versions);
        proof {
            let level = levels(matches)[0];
            assert(at_odds(grammar.arguments[0], grammar.arguments[1]));
            assert(levels(matches).len() > 1 ==> !found_at(level, grammar.arguments[0].name@));
            assert(levels(matches).len() > 1 ==> !found_at(level, grammar.arguments[1].name@));
            assert(levels(matches).len() > 1 ==> !found_at(level, grammar.arguments[2].name@));
            assert(levels(matches).len() > 1 ==> !found_at(level, grammar.arguments[3].name@));
            assert(levels(matches).len() > 1 ==> !found_at(level, grammar.arguments[4].name@));
            assert(levels(matches).len() > 1 ==> !found_at(level, grammar.arguments[5].name@));
            assert(levels(matches).len() > 1 ==> !found_at(level, grammar.arguments[6].name@));
            assert(levels(matches).len() > 1 ==> !found_at(level, grammar.arguments[7].name@));
        }
        let agent = read_agent(&matches);
        let prompt = read_text(&matches, "prompt");
        let command = read_command(matches, versions);
        assert(command is Some ==> texts(agent.browser_brave@).len() == 0);
        Cli { command, agent, prompt }
    }

    /// Reads a command line, the program's name first: what it says, or the
    /// error that `clap` finds in it. A command line that is accepted is valid.
    pub fn try_parse_from(
        words: Vec<String>,
        versions: (&'static str, &'static str),
    ) -> (parsed: Result<Cli, UsageError>)
        ensures
            match (parsed, reading(root_grammar(versions), texts(words@))) {
                (Ok(cli), Ok(found)) => cli_is(cli, found) && cli.valid(),
                (Err(error), Err(expected)) => error@ == expected,
                _ => false,
            },
    {
        proof {
            lemma_root_is_sound(versions);
        }
        match read_words(root_command(versions), words) {
            Ok(matches) => Ok(Cli::from_matches(matches, versions)),
            Err(error) => Err(error),
        }
    }

    /// The long help text of the command line.
    pub fn long_help(versions: (&'static str, &'static str)) -> (text: String)
        ensures
            text@ == long_help_text(root_grammar(versions)),
    {
        proof {
            lemma_root_is_sound(versions);
        }
        render_help(root_command(versions))
    }
}

} // verus!
