//! What the command line takes, and what is read from it.
use vstd::prelude::*;
use vstd::string::*;
use vstd::utf8::*;

use crate::cli::{AgentArgs, Cli, CliCommand, EvalCommand, EvalRun, Prepare, VmCommand};
use crate::cli_grammar::{
    agent_rules, auth_grammar, cleanup_grammar, compare_grammar, credits_grammar, eval_grammar,
    eval_run_grammar, inspect_grammar, prepare_grammar, resume_grammar, root_grammar, run_grammar,
    task_grammar, update_grammar, vm_grammar, vm_prepare_grammar, vm_run_config_grammar,
    vm_run_grammar,
};
use crate::grammar::{
    levels, long_help_text, reading, ArgumentRule, Grammar, Kind, Level, UsageError,
};
use crate::observability::{LogFormatArg, TracingFlags};
use crate::path::HostPath;
use crate::text::{law_split_pair, texts};
use crate::vm_args::share_of;

verus! {

/// Whether a command line was read as `cli`, from what `clap` found on it.
pub open spec fn was_read(
    words: Vec<String>,
    versions: (&'static str, &'static str),
    cli: Cli,
    found: Seq<Level>,
) -> bool {
    &&& call_ensures(Cli::try_parse_from, (words, versions), Ok(cli))
    &&& reading(root_grammar(versions), texts(words@)) == Ok::<
        Seq<Level>,
        crate::grammar::UsageView,
    >(found)
}

/// Whether an argument has a value at a level.
pub open spec fn has_value(level: Level, name: Seq<char>) -> bool {
    level.texts.contains_key(name) && level.texts[name].len() > 0
}

/// Whether a text is the value of an argument, if it has one.
pub open spec fn text_given(text: Option<String>, level: Level, name: Seq<char>) -> bool {
    if has_value(level, name) {
        text is Some && text->0@ == level.texts[name][0]
    } else {
        text is None
    }
}

/// Whether a path is spelled by the value of an argument, if it has one.
pub open spec fn path_given(path: Option<HostPath>, level: Level, name: Seq<char>) -> bool {
    if has_value(level, name) {
        path is Some && path->0@ == encode_utf8(level.texts[name][0])
    } else {
        path is None
    }
}

/// Whether texts are the values of an argument, in order.
pub open spec fn texts_given(found: Seq<String>, level: Level, name: Seq<char>) -> bool {
    if has_value(level, name) {
        &&& found.len() == level.texts[name].len()
        &&& forall|i: int| 0 <= i < found.len() ==> (#[trigger] found[i])@ == level.texts[name][i]
    } else {
        found.len() == 0
    }
}

/// Whether paths are spelled by the values of an argument, in order.
pub open spec fn paths_given(found: Seq<HostPath>, level: Level, name: Seq<char>) -> bool {
    if has_value(level, name) {
        &&& found.len() == level.texts[name].len()
        &&& forall|i: int|
            0 <= i < found.len() ==> (#[trigger] found[i])@ == encode_utf8(level.texts[name][i])
    } else {
        found.len() == 0
    }
}

/// Whether a format is the one that the value of an argument names, if it has one.
pub open spec fn format_given(
    format: Option<LogFormatArg>,
    level: Level,
    name: Seq<char>,
) -> bool {
    if has_value(level, name) {
        &&& format is Some
        &&& format == Some(LogFormatArg::Pretty) <==> level.texts[name][0] == "pretty"@
        &&& format == Some(LogFormatArg::Compact) <==> level.texts[name][0] == "compact"@
        &&& format == Some(LogFormatArg::Json) <==> level.texts[name][0] == "json"@
    } else {
        format is None
    }
}

/// Whether a text is made of a name, an equals sign and what spells a path.
pub open spec fn spells(text: Seq<char>, name: Seq<char>, path: Seq<u8>, rest: Seq<char>) -> bool {
    text == name + seq!['='] + rest && path == encode_utf8(rest) && !name.contains('=')
}

/// Whether an agent is configured by what was given at a level.
pub open spec fn agent_given(agent: AgentArgs, level: Level) -> bool {
    &&& agent.provider_openai <==> level.flags.contains("provider.openai"@)
    &&& agent.provider_tempo <==> level.flags.contains("provider.tempo"@)
    &&& path_given(agent.wallet_store, level, "provider.tempo.wallet-store"@)
    &&& text_given(agent.api_key, level, "api-key"@)
    &&& text_given(agent.browser_cdp, level, "browser-cdp"@)
    &&& texts_given(agent.browser_brave@, level, "browser-brave"@)
    &&& path_given(agent.pricing_file, level, "pricing-file"@)
}

/// Whether tracing is set up by what was given at a level.
pub open spec fn tracing_given(tracing: TracingFlags, level: Level) -> bool {
    &&& text_given(tracing.log_filter, level, "log-filter"@)
    &&& text_given(tracing.otel_filter, level, "otel-filter"@)
    &&& format_given(tracing.log_format, level, "log-format"@)
    &&& format_given(tracing.legacy_log_format, level, "__legacy-nanoeval-log-format"@)
    &&& path_given(tracing.log_file, level, "log-file"@)
    &&& path_given(tracing.legacy_log_file, level, "__legacy-nanoeval-log-file"@)
    &&& text_given(tracing.otel_endpoint, level, "otel-endpoint"@)
    &&& text_given(tracing.otel_environment, level, "otel-environment"@)
}

/// Whether images are prepared by what was given at a level.
pub open spec fn prepare_given(prepare: Prepare, level: Level) -> bool {
    &&& paths_given(prepare.tasks@, level, "task"@)
    &&& paths_given(prepare.suites@, level, "suite"@)
    &&& path_given(Some(prepare.cache), level, "cache"@)
    &&& prepare.refresh <==> level.flags.contains("refresh"@)
}

proof fn lemma_lists(strings: Seq<String>, paths: Seq<HostPath>, level: Level, name: Seq<char>)
    ensures
        texts(strings) == crate::grammar::texts_at(level, name) ==> texts_given(
            strings,
            level,
            name,
        ),
        crate::cli::paths_are(paths, crate::grammar::texts_at(level, name)) ==> paths_given(
            paths,
            level,
            name,
        ),
{
    if texts(strings) == crate::grammar::texts_at(level, name) {
        assert(texts(strings).len() == strings.len());
        assert forall|i: int| 0 <= i < strings.len() implies (#[trigger] strings[i])@ == texts(
            strings,
        )[i] by {}
    }
}

proof fn lemma_formats(format: Option<LogFormatArg>, level: Level, name: Seq<char>)
    requires
        crate::cli::format_is(format, crate::grammar::texts_at(level, name)),
    ensures
        format_given(format, level, name),
{
    reveal_strlit("pretty");
    reveal_strlit("compact");
    reveal_strlit("json");
    assert("pretty"@.len() == 6 && "compact"@.len() == 7 && "json"@.len() == 4);
}

/// A command line is refused exactly when `clap` finds an error in it, and with that
/// error: its sort, its words and its exit code.
pub proof fn law_refused_command_lines(
    words: Vec<String>,
    versions: (&'static str, &'static str),
    parsed: Result<Cli, UsageError>,
    kind: &clap::error::ErrorKind,
)
    requires
        call_ensures(Cli::try_parse_from, (words, versions), parsed),
        parsed matches Err(error) ==> call_ensures(UsageError::kind, (&error,), kind),
    ensures
        parsed is Err <==> reading(root_grammar(versions), texts(words@)) is Err,
        parsed matches Err(error) ==> {
            let expected = reading(root_grammar(versions), texts(words@))->Err_0;
            &&& error.kind == expected.kind && *kind == expected.kind
            &&& error.message@ == expected.message
            &&& error.exit_code == expected.exit_code
        },
{
}

/// The help describes the whole command line, with the versions it was asked with.
pub proof fn law_help_describes_the_command_line(
    versions: (&'static str, &'static str),
    text: String,
)
    requires
        call_ensures(Cli::long_help, (versions,), text),
    ensures
        text@ == long_help_text(root_grammar(versions)),
        root_grammar(versions).versions == Some(versions),
{
}

/// What stands before a subcommand configures the agent of the bare command.
pub proof fn law_bare_commands_are_read(
    words: Vec<String>,
    versions: (&'static str, &'static str),
    cli: Cli,
    found: Seq<Level>,
)
    requires
        was_read(words, versions, cli, found),
    ensures
        agent_given(cli.agent, found[0]),
        text_given(cli.prompt, found[0], "prompt"@),
        cli.command is None <==> found.len() == 1,
        cli.command is Some <==> found.len() > 1,
{
    lemma_lists(cli.agent.browser_brave@, Seq::empty(), found[0], "browser-brave"@);
}

/// A command line that was read says nothing that contradicts itself. No two
/// providers are chosen, at any level; a subcommand stands by itself; there is
/// something to prepare and something to run; a task is shown in one way; and a
/// machine has one network or none.
pub proof fn law_accepted_command_lines_make_sense(
    words: Vec<String>,
    versions: (&'static str, &'static str),
    cli: Cli,
)
    requires
        call_ensures(Cli::try_parse_from, (words, versions), Ok(cli)),
    ensures
        !(cli.agent.provider_openai && cli.agent.provider_tempo),
        cli.command is Some ==> {
            &&& !cli.agent.provider_openai && !cli.agent.provider_tempo
            &&& cli.agent.wallet_store is None && cli.agent.api_key is None
            &&& cli.agent.browser_cdp is None && cli.agent.browser_brave@.len() == 0
            &&& cli.agent.pricing_file is None && cli.prompt is None
        },
        cli.command is Some ==> match cli.command->0 {
            CliCommand::Run(run) => !(run.agent.provider_openai && run.agent.provider_tempo),
            CliCommand::Resume(resume) => !(resume.agent.provider_openai
                && resume.agent.provider_tempo),
            CliCommand::Eval(eval) => match eval.command {
                EvalCommand::Prepare(prepare) => prepare.tasks@.len() > 0 || prepare.suites@.len()
                    > 0,
                EvalCommand::Task { directory, json, prompt } => !(json && prompt),
                EvalCommand::Vm { command } => {
                    &&& command is Prepare ==> command->Prepare_tasks@.len() > 0
                        || command->Prepare_suites@.len() > 0
                    &&& command is Run ==> !(command->network_socket is Some
                        && command->no_network) && command->guest_command@.len() > 0
                },
                _ => true,
            },
            _ => true,
        },
{
}

/// The subcommand that was named is the one that was read.
pub proof fn law_subcommands_go_by_their_names(
    words: Vec<String>,
    versions: (&'static str, &'static str),
    cli: Cli,
    found: Seq<Level>,
)
    requires
        was_read(words, versions, cli, found),
        found.len() > 1,
    ensures
        cli.command is Some,
        cli.command->0 is Auth <==> found[1].name == "auth"@,
        cli.command->0 is Credits <==> found[1].name == "credits"@,
        cli.command->0 is Update <==> found[1].name == "update"@,
        cli.command->0 is Run <==> found[1].name == "run"@,
        cli.command->0 is Resume <==> found[1].name == "resume"@,
        cli.command->0 is Eval <==> found[1].name == "eval"@,
{
    reveal_strlit("auth");
    reveal_strlit("credits");
    reveal_strlit("update");
    reveal_strlit("run");
    reveal_strlit("resume");
    reveal_strlit("eval");
    assert("auth"@[0] == 'a' && "credits"@[0] == 'c' && "update"@[0] == 'u' && "run"@[0] == 'r'
        && "resume"@[0] == 'r' && "eval"@[0] == 'e');
    assert("run"@.len() == 3 && "resume"@.len() == 6);
    assert(found.skip(1)[0] == found[1]);
}

/// A prompt to run, and a thread to resume, are read with their agents.
pub proof fn law_sessions_are_read(
    words: Vec<String>,
    versions: (&'static str, &'static str),
    cli: Cli,
    found: Seq<Level>,
)
    requires
        was_read(words, versions, cli, found),
        cli.command is Some,
    ensures
        cli.command->0 matches CliCommand::Run(run) ==> text_given(
            Some(run.prompt),
            found[1],
            "prompt"@,
        ) && agent_given(run.agent, found[1]),
        cli.command->0 matches CliCommand::Resume(resume) ==> text_given(
            Some(resume.thread_id),
            found[1],
            "thread_id"@,
        ) && text_given(resume.prompt, found[1], "prompt"@) && agent_given(
            resume.agent,
            found[1],
        ),
{
    assert(found.skip(1)[0] == found[1]);
    match cli.command->0 {
        CliCommand::Run(run) => {
            lemma_lists(run.agent.browser_brave@, Seq::empty(), found[1], "browser-brave"@);
        },
        CliCommand::Resume(resume) => {
            lemma_lists(resume.agent.browser_brave@, Seq::empty(), found[1], "browser-brave"@);
        },
        _ => {},
    }
}

/// The evaluation command that was named is the one that was read.
pub proof fn law_evaluations_go_by_their_names(
    words: Vec<String>,
    versions: (&'static str, &'static str),
    cli: Cli,
    found: Seq<Level>,
)
    requires
        was_read(words, versions, cli, found),
        cli.command is Some,
        cli.command->0 is Eval,
    ensures
        found.len() > 2,
        cli.command->0->Eval_0.command is Run <==> found[2].name == "run"@,
        cli.command->0->Eval_0.command is Prepare <==> found[2].name == "prepare"@,
        cli.command->0->Eval_0.command is Task <==> found[2].name == "task"@,
        cli.command->0->Eval_0.command is Inspect <==> found[2].name == "inspect"@,
        cli.command->0->Eval_0.command is Compare <==> found[2].name == "compare"@,
        cli.command->0->Eval_0.command is Cleanup <==> found[2].name == "cleanup"@,
        cli.command->0->Eval_0.command is Vm <==> found[2].name == "vm"@,
{
    reveal_strlit("run");
    reveal_strlit("prepare");
    reveal_strlit("task");
    reveal_strlit("inspect");
    reveal_strlit("compare");
    reveal_strlit("cleanup");
    reveal_strlit("vm");
    assert("run"@[0] == 'r' && "prepare"@[0] == 'p' && "task"@[0] == 't' && "inspect"@[0] == 'i'
        && "compare"@[0] == 'c' && "cleanup"@[0] == 'c' && "vm"@[0] == 'v');
    assert("compare"@[1] == 'o' && "cleanup"@[1] == 'l');
    assert(found.skip(1).skip(1)[0] == found[2]);
}

/// The attempts to run are read as they were given.
pub proof fn law_attempts_are_read(
    words: Vec<String>,
    versions: (&'static str, &'static str),
    cli: Cli,
    found: Seq<Level>,
    run: EvalRun,
)
    requires
        was_read(words, versions, cli, found),
        cli.command is Some,
        cli.command->0 is Eval,
        cli.command->0->Eval_0.command == EvalCommand::Run(Box::new(run)),
    ensures
        paths_given(run.tasks@, found[2], "task"@),
        paths_given(run.suites@, found[2], "suite"@),
        run.trials is Some <==> found[2].numbers.contains_key("trials"@),
        run.trials matches Some(trials) ==> trials == found[2].numbers["trials"@],
        text_given(run.thinking, found[2], "thinking"@),
        path_given(run.pricing_file, found[2], "pricing-file"@),
        run.vm <==> found[2].flags.contains("vm"@),
        run.new <==> found[2].flags.contains("new"@),
        tracing_given(run.tracing, found[2]),
{
    let level = found.skip(1).skip(1)[0];
    assert(level == found[2]);
    lemma_lists(Seq::empty(), run.tasks@, level, "task"@);
    lemma_lists(Seq::empty(), run.suites@, level, "suite"@);
    lemma_formats(run.tracing.log_format, level, "log-format"@);
    lemma_formats(run.tracing.legacy_log_format, level, "__legacy-nanoeval-log-format"@);
}

/// What else an evaluation command does is read as it was given.
pub proof fn law_evaluations_are_read(
    words: Vec<String>,
    versions: (&'static str, &'static str),
    cli: Cli,
    found: Seq<Level>,
)
    requires
        was_read(words, versions, cli, found),
        cli.command is Some,
        cli.command->0 is Eval,
    ensures
        cli.command->0->Eval_0.command matches EvalCommand::Prepare(prepare) ==> prepare_given(
            prepare,
            found[2],
        ),
        cli.command->0->Eval_0.command matches EvalCommand::Task { directory, json, prompt } ==> {
            &&& path_given(Some(directory), found[2], "directory"@)
            &&& json <==> found[2].flags.contains("json"@)
            &&& prompt <==> found[2].flags.contains("prompt"@)
        },
        cli.command->0->Eval_0.command matches EvalCommand::Inspect { path, full } ==> {
            &&& path_given(Some(path), found[2], "path"@)
            &&& full <==> found[2].flags.contains("full"@)
        },
        cli.command->0->Eval_0.command matches EvalCommand::Compare { target } ==> text_given(
            Some(target),
            found[2],
            "target"@,
        ),
        cli.command->0->Eval_0.command matches EvalCommand::Cleanup { path, dry_run } ==> {
            &&& path_given(Some(path), found[2], "path"@)
            &&& dry_run <==> found[2].flags.contains("dry-run"@)
        },
{
    let level = found.skip(1).skip(1)[0];
    assert(level == found[2]);
    if let EvalCommand::Prepare(prepare) = cli.command->0->Eval_0.command {
        lemma_lists(Seq::empty(), prepare.tasks@, level, "task"@);
        lemma_lists(Seq::empty(), prepare.suites@, level, "suite"@);
    }
}

/// The VM command that was named is the one that was read, as it was given.
pub proof fn law_vm_commands_are_read(
    words: Vec<String>,
    versions: (&'static str, &'static str),
    cli: Cli,
    found: Seq<Level>,
    command: VmCommand,
)
    requires
        was_read(words, versions, cli, found),
        cli.command is Some,
        cli.command->0 is Eval,
        cli.command->0->Eval_0.command == (EvalCommand::Vm { command }),
    ensures
        found.len() > 3,
        command is Prepare <==> found[3].name == "prepare"@,
        command is Run <==> found[3].name == "run"@,
        command is RunConfig <==> found[3].name == "run-config"@,
        command matches VmCommand::Prepare { tasks, suites, cache, refresh } ==> prepare_given(
            Prepare { tasks, suites, cache, refresh },
            found[3],
        ),
        command matches VmCommand::RunConfig { config } ==> path_given(
            Some(config),
            found[3],
            "config"@,
        ),
{
    let level = found.skip(1).skip(1)[1];
    assert(level == found[3]);
    reveal_strlit("prepare");
    reveal_strlit("run");
    reveal_strlit("run-config");
    assert("prepare"@.len() == 7 && "run"@.len() == 3 && "run-config"@.len() == 10);
    if let VmCommand::Prepare { tasks, suites, cache, refresh } = command {
        lemma_lists(Seq::empty(), tasks@, level, "task"@);
        lemma_lists(Seq::empty(), suites@, level, "suite"@);
    }
}

/// The machine to run is read as it was given.
pub proof fn law_machines_are_read(
    words: Vec<String>,
    versions: (&'static str, &'static str),
    cli: Cli,
    found: Seq<Level>,
    command: VmCommand,
)
    requires
        was_read(words, versions, cli, found),
        cli.command is Some,
        cli.command->0 is Eval,
        cli.command->0->Eval_0.command == (EvalCommand::Vm { command }),
        command is Run,
    ensures
        path_given(Some(command->root), found[3], "root"@),
        command->ext4 <==> found[3].flags.contains("ext4"@),
        found[3].numbers.contains_key("cpus"@) && command->cpus == found[3].numbers["cpus"@],
        found[3].numbers.contains_key("memory-mib"@) && command->memory_mib
            == found[3].numbers["memory-mib"@],
        path_given(command->network_socket, found[3], "network-socket"@),
        command->no_network <==> found[3].flags.contains("no-network"@),
        path_given(command->runtime_directory, found[3], "runtime-directory"@),
        texts_given(command->guest_command@, found[3], "guest_command"@),
{
    let level = found.skip(1).skip(1)[1];
    assert(level == found[3]);
    lemma_lists(command->guest_command@, Seq::empty(), level, "guest_command"@);
}

/// Each share, disk and entry of a machine is read from the value that spells it,
/// in order.
pub proof fn law_machine_pairs_are_read(
    words: Vec<String>,
    versions: (&'static str, &'static str),
    cli: Cli,
    found: Seq<Level>,
    command: VmCommand,
    i: int,
)
    requires
        was_read(words, versions, cli, found),
        cli.command is Some,
        cli.command->0 is Eval,
        cli.command->0->Eval_0.command == (EvalCommand::Vm { command }),
        command is Run,
        0 <= i,
    ensures
        !has_value(found[3], "writable-share"@) <==> command->writable_share@.len() == 0,
        !has_value(found[3], "read-only-disk"@) <==> command->read_only_disk@.len() == 0,
        !has_value(found[3], "writable-disk"@) <==> command->writable_disk@.len() == 0,
        !has_value(found[3], "env"@) <==> command->environment@.len() == 0,
        has_value(found[3], "writable-share"@) ==> command->writable_share@.len()
            == found[3].texts["writable-share"@].len(),
        has_value(found[3], "read-only-disk"@) ==> command->read_only_disk@.len()
            == found[3].texts["read-only-disk"@].len(),
        has_value(found[3], "writable-disk"@) ==> command->writable_disk@.len()
            == found[3].texts["writable-disk"@].len(),
        has_value(found[3], "env"@) ==> command->environment@.len()
            == found[3].texts["env"@].len(),
        i < command->writable_share@.len() ==> exists|rest: Seq<char>| #[trigger]
            spells(
                found[3].texts["writable-share"@][i],
                command->writable_share@[i].tag@,
                command->writable_share@[i].directory@,
                rest,
            ),
        i < command->read_only_disk@.len() ==> exists|rest: Seq<char>| #[trigger]
            spells(
                found[3].texts["read-only-disk"@][i],
                command->read_only_disk@[i].id@,
                command->read_only_disk@[i].image@,
                rest,
            ),
        i < command->writable_disk@.len() ==> exists|rest: Seq<char>| #[trigger]
            spells(
                found[3].texts["writable-disk"@][i],
                command->writable_disk@[i].id@,
                command->writable_disk@[i].image@,
                rest,
            ),
        i < command->environment@.len() ==> found[3].texts["env"@][i]
            == command->environment@[i].name@ + seq!['='] + command->environment@[i].value@
            && !command->environment@[i].name@.contains('='),
{
    let level = found.skip(1).skip(1)[1];
    assert(level == found[3]);
    if i < command->writable_share@.len() {
        let share = command->writable_share@[i];
        let text = level.texts["writable-share"@][i];
        assert(crate::cli::share_is(share, text));
        law_split_pair(text);
        assert(spells(text, share.tag@, share.directory@, share_of(text)->Ok_0.1));
    }
    if i < command->read_only_disk@.len() {
        let disk = command->read_only_disk@[i];
        let text = level.texts["read-only-disk"@][i];
        assert(crate::cli::disk_is(disk, text));
        law_split_pair(text);
        assert(spells(text, disk.id@, disk.image@, share_of(text)->Ok_0.1));
    }
    if i < command->writable_disk@.len() {
        let disk = command->writable_disk@[i];
        let text = level.texts["writable-disk"@][i];
        assert(crate::cli::disk_is(disk, text));
        law_split_pair(text);
        assert(spells(text, disk.id@, disk.image@, share_of(text)->Ok_0.1));
    }
    if i < command->environment@.len() {
        let entry = command->environment@[i];
        let text = level.texts["env"@][i];
        assert(crate::cli::entry_is(entry, text));
        law_split_pair(text);
    }
}

/// Whether an argument is an option, given by its name.
pub open spec fn is_option(rule: ArgumentRule, name: Seq<char>) -> bool {
    rule.name@ == name && rule.long is Some && rule.long->0@ == name
}

/// Whether an argument goes by its position.
pub open spec fn is_position(rule: ArgumentRule, name: Seq<char>) -> bool {
    rule.name@ == name && rule.long is None
}

/// Whether an argument may be left out, stands beside any other, has no default and
/// is shown.
pub open spec fn is_free(rule: ArgumentRule) -> bool {
    &&& !rule.required && !rule.hidden
    &&& rule.conflicts is None && rule.unless is None && rule.default is None
}

/// Whether an argument must be given, and stands beside any other.
pub open spec fn is_needed(rule: ArgumentRule) -> bool {
    &&& rule.required && !rule.hidden
    &&& rule.conflicts is None && rule.unless is None && rule.default is None
}

/// Whether a command has no subcommands, and nothing is special about it.
pub open spec fn is_plain(grammar: Grammar, name: Seq<char>) -> bool {
    &&& grammar.rule.name@ == name && grammar.versions is None && grammar.subcommands.len() == 0
    &&& !grammar.rule.exclusive && !grammar.rule.negates_requirements
    &&& !grammar.rule.subcommand_required
}


/// An agent takes a provider, of which there is one at most, and options that all may be
/// left out.
pub proof fn law_agent_arguments()
    ensures
        agent_rules().len() == 7,
        is_option(agent_rules()[0], "provider.openai"@),
        agent_rules()[0].kind is Flag,
        agent_rules()[0].conflicts == Some("provider.tempo"),
        is_free(ArgumentRule { conflicts: None, ..agent_rules()[0] }),
        is_option(agent_rules()[1], "provider.tempo"@),
        agent_rules()[1].kind is Flag,
        is_free(agent_rules()[1]),
        is_option(agent_rules()[2], "provider.tempo.wallet-store"@),
        agent_rules()[2].kind is NonEmpty,
        is_free(agent_rules()[2]),
        is_option(agent_rules()[3], "api-key"@),
        agent_rules()[3].kind is Text,
        is_free(agent_rules()[3]),
        is_option(agent_rules()[4], "browser-cdp"@),
        agent_rules()[4].kind is Text,
        is_free(agent_rules()[4]),
        is_option(agent_rules()[5], "browser-brave"@),
        agent_rules()[5].kind is TextList,
        is_free(agent_rules()[5]),
        is_option(agent_rules()[6], "pricing-file"@),
        agent_rules()[6].kind is NonEmpty,
        is_free(agent_rules()[6]),
{
}

/// The arguments of attempts may all be left out; there are at most as many trials as
/// a number of sixteen bits can say, and the former names of the log are not shown.
pub proof fn law_attempt_arguments()
    ensures
        is_plain(eval_run_grammar(), "run"@),
        eval_run_grammar().arguments.len() == 15,
        is_option(eval_run_grammar().arguments[0], "task"@),
        eval_run_grammar().arguments[0].kind is NonEmptyList,
        is_free(eval_run_grammar().arguments[0]),
        is_option(eval_run_grammar().arguments[1], "suite"@),
        eval_run_grammar().arguments[1].kind is NonEmptyList,
        is_free(eval_run_grammar().arguments[1]),
        is_option(eval_run_grammar().arguments[2], "trials"@),
        eval_run_grammar().arguments[2].kind == (Kind::Number { most: 65535 }),
        is_free(eval_run_grammar().arguments[2]),
        is_option(eval_run_grammar().arguments[3], "thinking"@),
        eval_run_grammar().arguments[3].kind is NonEmpty,
        is_free(eval_run_grammar().arguments[3]),
        is_option(eval_run_grammar().arguments[4], "pricing-file"@),
        eval_run_grammar().arguments[4].kind is NonEmpty,
        is_free(eval_run_grammar().arguments[4]),
        is_option(eval_run_grammar().arguments[5], "vm"@),
        eval_run_grammar().arguments[5].kind is Flag,
        is_free(eval_run_grammar().arguments[5]),
        is_option(eval_run_grammar().arguments[6], "new"@),
        eval_run_grammar().arguments[6].kind is Flag,
        is_free(eval_run_grammar().arguments[6]),
        is_option(eval_run_grammar().arguments[7], "log-filter"@),
        eval_run_grammar().arguments[7].kind is NonEmpty,
        is_free(eval_run_grammar().arguments[7]),
        is_option(eval_run_grammar().arguments[8], "otel-filter"@),
        eval_run_grammar().arguments[8].kind is NonEmpty,
        is_free(eval_run_grammar().arguments[8]),
        is_option(eval_run_grammar().arguments[9], "log-format"@),
        eval_run_grammar().arguments[9].kind == (Kind::Choice {
            first: "pretty",
            second: "compact",
            third: "json",
        }),
        is_free(eval_run_grammar().arguments[9]),
        is_option(eval_run_grammar().arguments[10], "__legacy-nanoeval-log-format"@),
        eval_run_grammar().arguments[10].kind == (Kind::Choice {
            first: "pretty",
            second: "compact",
            third: "json",
        }),
        eval_run_grammar().arguments[10].hidden,
        is_free(ArgumentRule { hidden: false, ..eval_run_grammar().arguments[10] }),
        is_option(eval_run_grammar().arguments[11], "log-file"@),
        eval_run_grammar().arguments[11].kind is NonEmpty,
        is_free(eval_run_grammar().arguments[11]),
        is_option(eval_run_grammar().arguments[12], "__legacy-nanoeval-log-file"@),
        eval_run_grammar().arguments[12].kind is NonEmpty,
        eval_run_grammar().arguments[12].hidden,
        is_free(ArgumentRule { hidden: false, ..eval_run_grammar().arguments[12] }),
        is_option(eval_run_grammar().arguments[13], "otel-endpoint"@),
        eval_run_grammar().arguments[13].kind is NonEmpty,
        is_free(eval_run_grammar().arguments[13]),
        is_option(eval_run_grammar().arguments[14], "otel-environment"@),
        eval_run_grammar().arguments[14].kind is NonEmpty,
        is_free(eval_run_grammar().arguments[14]),
{
}

/// A preparation needs a task or a suite, and has a cache by default.
pub proof fn law_preparation_arguments()
    ensures
        is_plain(prepare_grammar(), "prepare"@),
        prepare_grammar().arguments.len() == 4,
        is_option(prepare_grammar().arguments[0], "task"@),
        prepare_grammar().arguments[0].kind is NonEmptyList,
        prepare_grammar().arguments[0].unless == Some("suite"),
        is_free(ArgumentRule { unless: None, ..prepare_grammar().arguments[0] }),
        is_option(prepare_grammar().arguments[1], "suite"@),
        prepare_grammar().arguments[1].kind is NonEmptyList,
        prepare_grammar().arguments[1].unless == Some("task"),
        is_free(ArgumentRule { unless: None, ..prepare_grammar().arguments[1] }),
        is_option(prepare_grammar().arguments[2], "cache"@),
        prepare_grammar().arguments[2].kind is NonEmpty,
        prepare_grammar().arguments[2].default == Some(".cache/vm"),
        is_free(ArgumentRule { default: None, ..prepare_grammar().arguments[2] }),
        is_option(prepare_grammar().arguments[3], "refresh"@),
        prepare_grammar().arguments[3].kind is Flag,
        is_free(prepare_grammar().arguments[3]),
{
}

/// A task is shown from its directory, as JSON or with its prompt, and not as both.
pub proof fn law_task_arguments()
    ensures
        is_plain(task_grammar(), "task"@),
        task_grammar().arguments.len() == 3,
        is_position(task_grammar().arguments[0], "directory"@),
        task_grammar().arguments[0].kind is NonEmpty,
        is_needed(task_grammar().arguments[0]),
        is_option(task_grammar().arguments[1], "json"@),
        task_grammar().arguments[1].kind is Flag,
        is_free(task_grammar().arguments[1]),
        is_option(task_grammar().arguments[2], "prompt"@),
        task_grammar().arguments[2].kind is Flag,
        task_grammar().arguments[2].conflicts == Some("json"),
        is_free(ArgumentRule { conflicts: None, ..task_grammar().arguments[2] }),
{
}

/// An inspection needs a path.
pub proof fn law_inspection_arguments()
    ensures
        is_plain(inspect_grammar(), "inspect"@),
        inspect_grammar().arguments.len() == 2,
        is_position(inspect_grammar().arguments[0], "path"@),
        inspect_grammar().arguments[0].kind is NonEmpty,
        is_needed(inspect_grammar().arguments[0]),
        is_option(inspect_grammar().arguments[1], "full"@),
        inspect_grammar().arguments[1].kind is Flag,
        is_free(inspect_grammar().arguments[1]),
{
}

/// A comparison needs a target.
pub proof fn law_comparison_arguments()
    ensures
        is_plain(compare_grammar(), "compare"@),
        compare_grammar().arguments.len() == 1,
        is_position(compare_grammar().arguments[0], "target"@),
        compare_grammar().arguments[0].kind is NonEmpty,
        is_needed(compare_grammar().arguments[0]),
{
}

/// A cleanup needs a path.
pub proof fn law_cleanup_arguments()
    ensures
        is_plain(cleanup_grammar(), "cleanup"@),
        cleanup_grammar().arguments.len() == 2,
        is_position(cleanup_grammar().arguments[0], "path"@),
        cleanup_grammar().arguments[0].kind is NonEmpty,
        is_needed(cleanup_grammar().arguments[0]),
        is_option(cleanup_grammar().arguments[1], "dry-run"@),
        cleanup_grammar().arguments[1].kind is Flag,
        is_free(cleanup_grammar().arguments[1]),
{
}

/// A machine needs a root and a command. It has two processors and a gibibyte of memory
/// by default, and a network socket or no network.
pub proof fn law_machine_arguments()
    ensures
        is_plain(vm_run_grammar(), "run"@),
        vm_run_grammar().arguments.len() == 12,
        is_option(vm_run_grammar().arguments[0], "root"@),
        vm_run_grammar().arguments[0].kind is NonEmpty,
        is_needed(vm_run_grammar().arguments[0]),
        is_option(vm_run_grammar().arguments[1], "ext4"@),
        vm_run_grammar().arguments[1].kind is Flag,
        is_free(vm_run_grammar().arguments[1]),
        is_option(vm_run_grammar().arguments[2], "cpus"@),
        vm_run_grammar().arguments[2].kind == (Kind::Number { most: 255 }),
        vm_run_grammar().arguments[2].default == Some("2"),
        is_free(ArgumentRule { default: None, ..vm_run_grammar().arguments[2] }),
        is_option(vm_run_grammar().arguments[3], "memory-mib"@),
        vm_run_grammar().arguments[3].kind == (Kind::Number { most: 4294967295 }),
        vm_run_grammar().arguments[3].default == Some("1024"),
        is_free(ArgumentRule { default: None, ..vm_run_grammar().arguments[3] }),
        is_option(vm_run_grammar().arguments[4], "network-socket"@),
        vm_run_grammar().arguments[4].kind is NonEmpty,
        vm_run_grammar().arguments[4].conflicts == Some("no-network"),
        is_free(ArgumentRule { conflicts: None, ..vm_run_grammar().arguments[4] }),
        is_option(vm_run_grammar().arguments[5], "no-network"@),
        vm_run_grammar().arguments[5].kind is Flag,
        is_free(vm_run_grammar().arguments[5]),
        is_option(vm_run_grammar().arguments[6], "runtime-directory"@),
        vm_run_grammar().arguments[6].kind is NonEmpty,
        is_free(vm_run_grammar().arguments[6]),
        is_option(vm_run_grammar().arguments[7], "writable-share"@),
        vm_run_grammar().arguments[7].kind is Shares,
        is_free(vm_run_grammar().arguments[7]),
        is_option(vm_run_grammar().arguments[8], "read-only-disk"@),
        vm_run_grammar().arguments[8].kind is Shares,
        is_free(vm_run_grammar().arguments[8]),
        is_option(vm_run_grammar().arguments[9], "writable-disk"@),
        vm_run_grammar().arguments[9].kind is Shares,
        is_free(vm_run_grammar().arguments[9]),
        is_option(vm_run_grammar().arguments[10], "env"@),
        vm_run_grammar().arguments[10].kind is Entries,
        is_free(vm_run_grammar().arguments[10]),
        is_position(vm_run_grammar().arguments[11], "guest_command"@),
        vm_run_grammar().arguments[11].kind is Trailing,
        is_needed(vm_run_grammar().arguments[11]),
{
}

/// A machine from a private configuration needs its file.
pub proof fn law_private_machine_arguments()
    ensures
        is_plain(vm_run_config_grammar(), "run-config"@),
        vm_run_config_grammar().arguments.len() == 1,
        is_option(vm_run_config_grammar().arguments[0], "config"@),
        vm_run_config_grammar().arguments[0].kind is NonEmpty,
        is_needed(vm_run_config_grammar().arguments[0]),
{
}

/// The agent is configured alike wherever there is one. A prompt to run is needed and
/// goes by its position, and so is a thread to resume; a prompt is an option where the
/// TUI opens.
pub proof fn law_session_arguments(versions: (&'static str, &'static str))
    ensures
        is_plain(run_grammar(), "run"@),
        is_plain(resume_grammar(), "resume"@),
        run_grammar().arguments.len() == 8,
        run_grammar().arguments.skip(1) == agent_rules(),
        is_position(run_grammar().arguments[0], "prompt"@),
        run_grammar().arguments[0].kind is Text,
        is_needed(run_grammar().arguments[0]),
        resume_grammar().arguments.len() == 9,
        resume_grammar().arguments.subrange(1, 8) == agent_rules(),
        is_position(resume_grammar().arguments[0], "thread_id"@),
        resume_grammar().arguments[0].kind is NonEmpty,
        is_needed(resume_grammar().arguments[0]),
        is_option(resume_grammar().arguments[8], "prompt"@),
        resume_grammar().arguments[8].kind is NonEmpty,
        is_free(resume_grammar().arguments[8]),
        root_grammar(versions).arguments.len() == 8,
        root_grammar(versions).arguments.take(7) == agent_rules(),
        is_option(root_grammar(versions).arguments[7], "prompt"@),
        root_grammar(versions).arguments[7].kind is NonEmpty,
        is_free(root_grammar(versions).arguments[7]),
{
    assert(run_grammar().arguments.skip(1) =~= agent_rules());
    assert(resume_grammar().arguments.subrange(1, 8) =~= agent_rules());
    assert(root_grammar(versions).arguments.take(7) =~= agent_rules());
}

/// The bare command has six subcommands, which shut out its own arguments; an
/// evaluation and a VM command need one of theirs.
pub proof fn law_commands_have_subcommands(versions: (&'static str, &'static str))
    ensures
        root_grammar(versions).rule.name@ == "nanocodex"@,
        root_grammar(versions).rule.exclusive && root_grammar(versions).rule.negates_requirements,
        !root_grammar(versions).rule.subcommand_required,
        root_grammar(versions).subcommands == seq![
            auth_grammar(),
            credits_grammar(),
            eval_grammar(),
            run_grammar(),
            resume_grammar(),
            update_grammar(),
        ],
        is_plain(auth_grammar(), "auth"@) && auth_grammar().arguments.len() == 0,
        is_plain(credits_grammar(), "credits"@) && credits_grammar().arguments.len() == 0,
        is_plain(update_grammar(), "update"@) && update_grammar().arguments.len() == 0,
        eval_grammar().rule.name@ == "eval"@,
        eval_grammar().rule.exclusive && eval_grammar().rule.subcommand_required,
        !eval_grammar().rule.negates_requirements && eval_grammar().versions is None,
        eval_grammar().arguments.len() == 0,
        eval_grammar().subcommands == seq![
            eval_run_grammar(),
            prepare_grammar(),
            task_grammar(),
            inspect_grammar(),
            compare_grammar(),
            cleanup_grammar(),
            vm_grammar(),
        ],
        vm_grammar().rule.name@ == "vm"@,
        vm_grammar().rule.subcommand_required,
        !vm_grammar().rule.exclusive && !vm_grammar().rule.negates_requirements,
        vm_grammar().versions is None,
        vm_grammar().arguments.len() == 0,
        vm_grammar().subcommands == seq![
            vm_prepare_grammar(),
            vm_run_grammar(),
            vm_run_config_grammar(),
        ],
{
}

/// Both spellings of a preparation take the same arguments, up to their help.
pub proof fn law_preparations_are_spelled_alike(i: int)
    requires
        0 <= i < prepare_grammar().arguments.len(),
    ensures
        is_plain(vm_prepare_grammar(), "prepare"@),
        vm_prepare_grammar().arguments.len() == prepare_grammar().arguments.len(),
        (ArgumentRule { help: "", ..vm_prepare_grammar().arguments[i] }) == (ArgumentRule {
            help: "",
            ..prepare_grammar().arguments[i]
        }),
{
}

/// What was found on a command line is taken as it is when it is read.
pub proof fn law_found_command_lines_are_taken(
    words: Vec<String>,
    versions: (&'static str, &'static str),
    read: Cli,
    matches: clap::ArgMatches,
    taken: Cli,
)
    requires
        was_read(words, versions, read, levels(matches)),
        call_ensures(Cli::from_matches, (matches, versions), taken),
    ensures
        agent_given(taken.agent, levels(matches)[0]),
        text_given(taken.prompt, levels(matches)[0], "prompt"@),
        taken.agent.provider_openai == read.agent.provider_openai,
        taken.agent.provider_tempo == read.agent.provider_tempo,
        taken.command is None <==> read.command is None,
        taken.command is None <==> levels(matches).len() == 1,
        !(taken.agent.provider_openai && taken.agent.provider_tempo),
{
    law_bare_commands_are_read(words, versions, read, levels(matches));
    lemma_lists(taken.agent.browser_brave@, Seq::empty(), levels(matches)[0], "browser-brave"@);
}

} // verus!
