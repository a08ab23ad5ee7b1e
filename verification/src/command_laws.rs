//! Where a command line goes, and how its tracing is set up.
use vstd::prelude::*;
use vstd::string::*;

use crate::cli::{
    AgentArgs, Cli, CliCommand, Eval, EvalCommand, EvalRun, Prepare, ResponsesTransport,
    ResumeCommand, VmCommand,
};
use crate::dispatch::{run_raw_vm, DispatchError, EvalAction, SynchronousVm};
use crate::observability::{
    EnvironmentError, LogFormatArg, LogOutput, ObservabilityArgs, ObservabilityPlan,
    TracingEnvironment, TracingFlags,
};
use crate::path::HostPath;
use crate::vm_run::RunVm;

verus! {

/// A command of the async runtime is handed on with all that it says: every run,
/// preparation, inspection, comparison and cleanup, and both spellings of a
/// preparation as the same. A command that takes the process over is refused.
pub proof fn law_commands_are_handed_on(eval: Eval, action: Result<EvalAction, DispatchError>)
    requires
        call_ensures(Eval::run, (eval,), action),
    ensures
        eval.command matches EvalCommand::Run(run) ==> action == Ok::<EvalAction, DispatchError>(
            EvalAction::Run(run),
        ),
        eval.command matches EvalCommand::Prepare(prepare) ==> action == Ok::<
            EvalAction,
            DispatchError,
        >(EvalAction::Prepare(prepare)),
        eval.command matches EvalCommand::Task { directory, json, prompt } ==> action == Ok::<
            EvalAction,
            DispatchError,
        >(EvalAction::Task { directory, json, prompt }),
        eval.command matches EvalCommand::Inspect { path, full } ==> action == Ok::<
            EvalAction,
            DispatchError,
        >(EvalAction::Inspect { path, full }),
        eval.command matches EvalCommand::Compare { target } ==> action == Ok::<
            EvalAction,
            DispatchError,
        >(EvalAction::Compare { target }),
        eval.command matches EvalCommand::Cleanup { path, dry_run } ==> action == Ok::<
            EvalAction,
            DispatchError,
        >(EvalAction::Cleanup { path, dry_run }),
        eval.command matches EvalCommand::Vm { command } ==> match command {
            VmCommand::Prepare { tasks, suites, cache, refresh } => action == Ok::<
                EvalAction,
                DispatchError,
            >(EvalAction::Prepare(Prepare { tasks, suites, cache, refresh })),
            _ => action == Err::<EvalAction, DispatchError>(DispatchError::NotAsynchronous),
        },
{
}

/// A command takes the process over exactly when it runs a machine: by a raw
/// command, which is handed on as it was given, or by a private configuration,
/// whose file is handed on. No other command does.
pub proof fn law_machines_take_the_process_over<'a>(
    eval: &'a Eval,
    requires_it: bool,
    work: Result<SynchronousVm<'a>, DispatchError>,
)
    requires
        call_ensures(Eval::requires_synchronous_vm, (eval,), requires_it),
        call_ensures(Eval::run_synchronous_vm, (eval,), work),
    ensures
        requires_it <==> work is Ok,
        work matches Err(error) ==> error is NotSynchronous,
        match eval.command {
            EvalCommand::Vm { command } => {
                &&& command is Run ==> work is Ok && work->Ok_0 is Raw && is_machine_of(
                    work->Ok_0->Raw_0,
                    command,
                )
                &&& command is RunConfig ==> work is Ok && work->Ok_0 is Private
                    && *work->Ok_0->Private_0 == command->config
                &&& command is Prepare ==> !requires_it
            },
            _ => !requires_it,
        },
{
}

/// Whether a machine is what a raw VM command says.
pub open spec fn is_machine_of(input: RunVm, command: VmCommand) -> bool {
    &&& input.root@ == command->root@
    &&& input.ext4 == command->ext4
    &&& input.cpus == command->cpus
    &&& input.memory_mib == command->memory_mib
    &&& input.no_network == command->no_network
    &&& input.network_socket is Some <==> command->network_socket is Some
    &&& input.network_socket is Some ==> input.network_socket->0@
        == command->network_socket->0@
    &&& input.runtime_directory is Some <==> command->runtime_directory is Some
    &&& input.runtime_directory is Some ==> input.runtime_directory->0@
        == command->runtime_directory->0@
    &&& *input.writable_shares == command->writable_share
    &&& *input.read_only_disks == command->read_only_disk
    &&& *input.writable_disks == command->writable_disk
    &&& *input.environment == command->environment
    &&& *input.guest_command == command->guest_command
}

/// A raw VM command is handed on with all that it says.
pub proof fn law_raw_machines_are_handed_on<'a>(
    command: &'a VmCommand,
    input: Result<RunVm<'a>, DispatchError>,
)
    requires
        call_ensures(run_raw_vm, (command,), input),
    ensures
        input is Ok <==> command is Run,
        input matches Err(error) ==> error is NotRaw,
        input matches Ok(input) ==> is_machine_of(input, *command),
{
}

/// The command that must run before the async runtime is the evaluation that takes
/// the process over, and no other command.
pub proof fn law_what_runs_before_the_runtime(
    cli: Cli,
    first: Option<&Eval>,
    eval: Eval,
    requires_it: bool,
)
    requires
        call_ensures(Cli::synchronous_vm, (&cli,), first),
        cli.command == Some(CliCommand::Eval(eval)),
        call_ensures(Eval::requires_synchronous_vm, (&eval,), requires_it),
    ensures
        first is Some <==> requires_it,
        first matches Some(found) ==> *found == eval,
{
}

/// Without an evaluation nothing runs before the runtime.
pub proof fn law_sessions_wait_for_the_runtime(cli: Cli, first: Option<&Eval>)
    requires
        call_ensures(Cli::synchronous_vm, (&cli,), first),
        !(cli.command is Some && cli.command->0 is Eval),
    ensures
        first is None,
{
}

/// A session uses the Tempo provider when the agent of that session does: the
/// agent of a subcommand that has one, or that of the bare command. Other commands
/// use none. One prompt is run without people, the other sessions with them.
pub proof fn law_sessions_follow_their_agent(cli: Cli, uses: bool, interactive: Option<bool>)
    requires
        call_ensures(Cli::uses_tempo, (&cli,), uses),
        call_ensures(Cli::session, (&cli,), interactive),
    ensures
        cli.command is None ==> uses == cli.agent.provider_tempo && interactive == Some(true),
        cli.command is Some ==> (cli.command->0 matches CliCommand::Run(run) ==> uses
            == run.agent.provider_tempo && interactive == Some(false)),
        cli.command is Some ==> (cli.command->0 matches CliCommand::Resume(resume) ==> uses
            == resume.agent.provider_tempo && interactive == Some(true)),
        cli.command is Some && !(cli.command->0 is Run) && !(cli.command->0 is Resume) ==> !uses
            && interactive is None,
{
}

/// Responses reach an agent by HTTPS exactly where it uses the Tempo provider, and by
/// a web socket otherwise.
pub proof fn law_transports_follow_the_provider(
    agent: AgentArgs,
    uses: bool,
    transport: ResponsesTransport,
)
    requires
        call_ensures(AgentArgs::uses_tempo, (&agent,), uses),
        call_ensures(AgentArgs::responses_transport, (&agent,), transport),
    ensures
        uses <==> agent.provider_tempo,
        transport is Https <==> uses,
        transport is WebSocket <==> !uses,
{
}

/// A pricing file of the command line is kept; where there is none, that of the
/// environment is taken; nothing else changes.
pub proof fn law_pricing_of_the_command_line_comes_first(
    agent: AgentArgs,
    run: EvalRun,
    file: Option<HostPath>,
    settled: AgentArgs,
    prepared: EvalRun,
)
    requires
        call_ensures(AgentArgs::with_environment, (agent, file), settled),
        call_ensures(EvalRun::with_environment, (run, file), prepared),
    ensures
        agent.pricing_file is Some ==> settled == agent,
        agent.pricing_file is None ==> settled == (AgentArgs { pricing_file: file, ..agent }),
        run.pricing_file is Some ==> prepared == run,
        run.pricing_file is None ==> prepared == (EvalRun { pricing_file: file, ..run }),
{
}

/// A thread that cannot be loaded is named.
pub proof fn law_unloadable_threads_are_named(resume: ResumeCommand, text: String)
    requires
        call_ensures(ResumeCommand::load_failure, (&resume,), text),
    ensures
        text@ == "failed to load Codex thread "@ + resume.thread_id@,
{
}

/// A command in the wrong place is refused in words that say which place it was.
pub proof fn law_misplaced_commands_are_described(error: DispatchError, text: &'static str)
    requires
        call_ensures(DispatchError::message, (error,), text),
    ensures
        error is NotSynchronous ==> text@ == "evaluation command is not a synchronous VM command"@,
        error is NotRaw ==> text@ == "invalid raw VM command"@,
        error is NotAsynchronous ==> text@
            == "VM commands must be dispatched before starting the async runtime"@,
{
}

/// Tracing is written to the log file that was named, or else to the one that was
/// named in the former way, or else to the standard error; its format is chosen in
/// the same order, and is compact where none was named. The rest is taken over.
pub proof fn law_tracing_is_set_up_as_asked(asked: ObservabilityArgs, plan: ObservabilityPlan)
    requires
        call_ensures(ObservabilityArgs::install, (asked,), plan),
    ensures
        plan.service@ == "nanocodex-eval"@,
        plan.filter == asked.log_filter,
        plan.otel_filter == asked.otel_filter,
        plan.environment == asked.otel_environment,
        plan.otlp_endpoint == asked.otel_endpoint,
        asked.log_file matches Some(file) ==> plan.output == LogOutput::File(file),
        asked.log_file is None ==> (asked.legacy_log_file matches Some(file) ==> plan.output
            == LogOutput::File(file)),
        asked.log_file is None && asked.legacy_log_file is None ==> plan.output is Stderr,
        plan.format is Pretty <==> asked.log_format == Some(LogFormatArg::Pretty)
            || asked.log_format is None && asked.legacy_log_format == Some(LogFormatArg::Pretty),
        plan.format is Json <==> asked.log_format == Some(LogFormatArg::Json) || asked.log_format
            is None && asked.legacy_log_format == Some(LogFormatArg::Json),
        plan.format is Compact <==> asked.log_format == Some(LogFormatArg::Compact)
            || asked.log_format is None && (asked.legacy_log_format is None
            || asked.legacy_log_format == Some(LogFormatArg::Compact)),
{
}

/// Three names stand for formats, each for its own, and no other does.
pub proof fn law_formats_have_names(name: &str, format: Option<LogFormatArg>)
    requires
        call_ensures(LogFormatArg::from_name, (name,), format),
    ensures
        format == Some(LogFormatArg::Pretty) <==> name@ == "pretty"@,
        format == Some(LogFormatArg::Compact) <==> name@ == "compact"@,
        format == Some(LogFormatArg::Json) <==> name@ == "json"@,
{
    reveal_strlit("pretty");
    reveal_strlit("compact");
    reveal_strlit("json");
    assert("pretty"@.len() == 6 && "compact"@.len() == 7 && "json"@.len() == 4);
}

/// What the command line says of tracing is kept, whatever the environment says.
pub proof fn law_tracing_flags_come_first(
    flags: TracingFlags,
    environment: TracingEnvironment,
    gathered: Result<ObservabilityArgs, EnvironmentError>,
)
    requires
        call_ensures(ObservabilityArgs::gather, (flags, environment), gathered),
    ensures
        gathered matches Ok(found) ==> {
            &&& flags.log_filter matches Some(value) ==> found.log_filter@ == value@
            &&& flags.otel_filter matches Some(value) ==> found.otel_filter@ == value@
            &&& flags.log_format is Some ==> found.log_format == flags.log_format
            &&& flags.legacy_log_format is Some ==> found.legacy_log_format
                == flags.legacy_log_format
            &&& flags.log_file is Some ==> found.log_file == flags.log_file
            &&& flags.legacy_log_file is Some ==> found.legacy_log_file == flags.legacy_log_file
            &&& flags.otel_endpoint is Some ==> found.otel_endpoint == flags.otel_endpoint
            &&& flags.otel_environment matches Some(value) ==> found.otel_environment@ == value@
        },
        flags.log_filter is Some && flags.otel_filter is Some && flags.log_format is Some
            && flags.legacy_log_format is Some && flags.log_file is Some && flags.legacy_log_file
            is Some && flags.otel_endpoint is Some && flags.otel_environment is Some
            ==> gathered is Ok,
{
}

/// Where the command line says nothing, a variable of the environment is taken, or
/// the default where it is not set.
pub proof fn law_tracing_variables_come_second(
    flags: TracingFlags,
    environment: TracingEnvironment,
    gathered: Result<ObservabilityArgs, EnvironmentError>,
)
    requires
        call_ensures(ObservabilityArgs::gather, (flags, environment), gathered),
        gathered is Ok,
    ensures
        flags.log_filter is None && environment.log_filter is Some
            ==> gathered->Ok_0.log_filter@ == environment.log_filter->0@,
        flags.log_filter is None && environment.log_filter is None ==> gathered->Ok_0.log_filter@
            == "warn,nanocodex_eval=info,nanocodex_vm=info,nanocodex=info,nanocodex_service=info,nanocodex_tools=info,nanocodex_mcp=info"@,
        flags.otel_filter is None && environment.otel_filter is Some
            ==> gathered->Ok_0.otel_filter@ == environment.otel_filter->0@,
        flags.otel_filter is None && environment.otel_filter is None
            ==> gathered->Ok_0.otel_filter@
            == "warn,nanocodex_eval=info,nanocodex_vm=info,nanocodex=info,nanocodex_service=info,nanocodex_tools=info,nanocodex_mcp=info"@,
        flags.otel_environment is None && environment.otel_environment is Some
            ==> gathered->Ok_0.otel_environment@ == environment.otel_environment->0@,
        flags.otel_environment is None && environment.otel_environment is None
            ==> gathered->Ok_0.otel_environment@ == "development"@,
        flags.log_file is None ==> gathered->Ok_0.log_file == environment.log_file,
        flags.legacy_log_file is None ==> gathered->Ok_0.legacy_log_file
            == environment.legacy_log_file,
        flags.otel_endpoint is None ==> gathered->Ok_0.otel_endpoint == environment.otel_endpoint,
        flags.log_format is None ==> is_format_of(
            gathered->Ok_0.log_format,
            environment.log_format,
        ),
        flags.legacy_log_format is None ==> is_format_of(
            gathered->Ok_0.legacy_log_format,
            environment.legacy_log_format,
        ),
{
    reveal_strlit("pretty");
    reveal_strlit("compact");
    reveal_strlit("json");
    assert("pretty"@.len() == 6 && "compact"@.len() == 7 && "json"@.len() == 4);
}

/// A variable that is needed and holds nothing that its flag would take is refused,
/// by its name; nothing else is.
pub proof fn law_unfit_tracing_variables_are_refused(
    flags: TracingFlags,
    environment: TracingEnvironment,
    gathered: Result<ObservabilityArgs, EnvironmentError>,
)
    requires
        call_ensures(ObservabilityArgs::gather, (flags, environment), gathered),
    ensures
        gathered is Ok <==> {
            &&& flags.log_filter is None && environment.log_filter is Some
                ==> environment.log_filter->0@.len() > 0
            &&& flags.otel_filter is None && environment.otel_filter is Some
                ==> environment.otel_filter->0@.len() > 0
            &&& flags.otel_endpoint is None && environment.otel_endpoint is Some
                ==> environment.otel_endpoint->0@.len() > 0
            &&& flags.otel_environment is None && environment.otel_environment is Some
                ==> environment.otel_environment->0@.len() > 0
            &&& flags.log_file is None && environment.log_file is Some
                ==> environment.log_file->0@.len() > 0
            &&& flags.legacy_log_file is None && environment.legacy_log_file is Some
                ==> environment.legacy_log_file->0@.len() > 0
            &&& flags.log_format is None && environment.log_format is Some ==> is_format_name(
                environment.log_format->0@,
            )
            &&& flags.legacy_log_format is None && environment.legacy_log_format is Some
                ==> is_format_name(environment.legacy_log_format->0@)
        },
        gathered matches Err(error) ==> {
            ||| error.variable@ == "RUST_LOG"@ && flags.log_filter is None
                && environment.log_filter is Some && environment.log_filter->0@.len() == 0
            ||| error.variable@ == "OTEL_LEVEL"@ && flags.otel_filter is None
                && environment.otel_filter is Some && environment.otel_filter->0@.len() == 0
            ||| error.variable@ == "NANOCODEX_EVAL_LOG_FORMAT"@ && flags.log_format is None
                && environment.log_format is Some && !is_format_name(environment.log_format->0@)
            ||| error.variable@ == "NANOEVAL_LOG_FORMAT"@ && flags.legacy_log_format is None
                && environment.legacy_log_format is Some && !is_format_name(
                environment.legacy_log_format->0@,
            )
            ||| error.variable@ == "NANOCODEX_EVAL_LOG_FILE"@ && flags.log_file is None
                && environment.log_file is Some && environment.log_file->0@.len() == 0
            ||| error.variable@ == "NANOEVAL_LOG_FILE"@ && flags.legacy_log_file is None
                && environment.legacy_log_file is Some && environment.legacy_log_file->0@.len()
                == 0
            ||| error.variable@ == "OTEL_EXPORTER_OTLP_ENDPOINT"@ && flags.otel_endpoint is None
                && environment.otel_endpoint is Some && environment.otel_endpoint->0@.len() == 0
            ||| error.variable@ == "OTEL_DEPLOYMENT_ENVIRONMENT"@ && flags.otel_environment is None
                && environment.otel_environment is Some && environment.otel_environment->0@.len()
                == 0
        },
{
}

/// Of several unfit variables the first is refused: filters come before formats,
/// formats before files, and what is exported comes last.
pub proof fn law_first_unfit_tracing_variable_is_refused(
    flags: TracingFlags,
    environment: TracingEnvironment,
    gathered: Result<ObservabilityArgs, EnvironmentError>,
)
    requires
        call_ensures(ObservabilityArgs::gather, (flags, environment), gathered),
    ensures
        ({
            let refused = if gathered is Err {
                gathered->Err_0.variable@
            } else {
                Seq::empty()
            };
            let filter = is_unfit_text(flags.log_filter, environment.log_filter);
            let exported = is_unfit_text(flags.otel_filter, environment.otel_filter);
            let format = is_unfit_format(flags.log_format, environment.log_format);
            let former_format = is_unfit_format(
                flags.legacy_log_format,
                environment.legacy_log_format,
            );
            let file = is_unfit_path(flags.log_file, environment.log_file);
            let former_file = is_unfit_path(flags.legacy_log_file, environment.legacy_log_file);
            let endpoint = is_unfit_text(flags.otel_endpoint, environment.otel_endpoint);
            let place = is_unfit_text(flags.otel_environment, environment.otel_environment);
            let by_filter = filter || exported;
            let by_format = by_filter || format || former_format;
            let by_file = by_format || file || former_file;
            &&& filter ==> refused == "RUST_LOG"@
            &&& !filter && exported ==> refused == "OTEL_LEVEL"@
            &&& !by_filter && format ==> refused == "NANOCODEX_EVAL_LOG_FORMAT"@
            &&& !by_filter && !format && former_format ==> refused == "NANOEVAL_LOG_FORMAT"@
            &&& !by_format && file ==> refused == "NANOCODEX_EVAL_LOG_FILE"@
            &&& !by_format && !file && former_file ==> refused == "NANOEVAL_LOG_FILE"@
            &&& !by_file && endpoint ==> refused == "OTEL_EXPORTER_OTLP_ENDPOINT"@
            &&& !by_file && !endpoint && place ==> refused == "OTEL_DEPLOYMENT_ENVIRONMENT"@
            &&& gathered is Ok <==> !by_file && !endpoint && !place
        }),
{
}

/// Whether a variable stands in for a flag and holds no text.
pub open spec fn is_unfit_text(flag: Option<String>, variable: Option<String>) -> bool {
    flag is None && variable is Some && variable->0@.len() == 0
}

/// Whether a variable stands in for a flag and names no file.
pub open spec fn is_unfit_path(flag: Option<HostPath>, variable: Option<HostPath>) -> bool {
    flag is None && variable is Some && variable->0@.len() == 0
}

/// Whether a variable stands in for a flag and names no format.
pub open spec fn is_unfit_format(flag: Option<LogFormatArg>, variable: Option<String>) -> bool {
    flag is None && variable is Some && !is_format_name(variable->0@)
}

/// Whether a format is the one that a variable names, if the variable is set.
pub open spec fn is_format_of(format: Option<LogFormatArg>, variable: Option<String>) -> bool {
    &&& format == Some(LogFormatArg::Pretty) <==> variable is Some && variable->0@ == "pretty"@
    &&& format == Some(LogFormatArg::Compact) <==> variable is Some && variable->0@ == "compact"@
    &&& format == Some(LogFormatArg::Json) <==> variable is Some && variable->0@ == "json"@
}

/// Whether a text is the name of a format.
pub open spec fn is_format_name(text: Seq<char>) -> bool {
    text == "pretty"@ || text == "compact"@ || text == "json"@
}

/// A refused variable is named.
pub proof fn law_refused_variables_are_named(error: EnvironmentError, text: String)
    requires
        call_ensures(EnvironmentError::message, (&error,), text),
    ensures
        text@ == "invalid value in the environment variable "@ + error.variable@,
{
}

} // verus!
