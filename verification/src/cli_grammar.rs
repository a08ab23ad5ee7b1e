//! The grammar of the `nanocodex` command line.
use vstd::prelude::*;

use crate::grammar::{
    add_argument, add_subcommand, add_versions, grammar_of, new_command, sound, sound_argument,
    ArgumentRule, CommandRule, Grammar, Kind,
};

verus! {

/// An argument that may be given or not.
#[verifier::allow_in_spec]
pub fn argument(
    name: &'static str,
    long: Option<&'static str>,
    kind: Kind,
    value_name: Option<&'static str>,
    help: &'static str,
) -> ArgumentRule
    returns
        (ArgumentRule {
            name,
            long,
            kind,
            value_name,
            help,
            required: false,
            conflicts: None,
            unless: None,
            default: None,
            hidden: false,
        }),
{
    ArgumentRule {
        name,
        long,
        kind,
        value_name,
        help,
        required: false,
        conflicts: None,
        unless: None,
        default: None,
        hidden: false,
    }
}

/// One of the formats of tracing output.
#[verifier::allow_in_spec]
pub fn formats() -> Kind
    returns
        (Kind::Choice { first: "pretty", second: "compact", third: "json" }),
{
    Kind::Choice { first: "pretty", second: "compact", third: "json" }
}

/// An argument that must be given.
#[verifier::allow_in_spec]
pub fn required(rule: ArgumentRule) -> ArgumentRule
    returns
        (ArgumentRule { required: true, ..rule }),
{
    ArgumentRule { required: true, ..rule }
}

/// An argument that shuts out `other`.
#[verifier::allow_in_spec]
pub fn conflicting(rule: ArgumentRule, other: &'static str) -> ArgumentRule
    returns
        (ArgumentRule { conflicts: Some(other), ..rule }),
{
    ArgumentRule { conflicts: Some(other), ..rule }
}

/// An argument that must be given where `other` is not.
#[verifier::allow_in_spec]
pub fn unless(rule: ArgumentRule, other: &'static str) -> ArgumentRule
    returns
        (ArgumentRule { unless: Some(other), ..rule }),
{
    ArgumentRule { unless: Some(other), ..rule }
}

/// An argument with a value where none is given.
#[verifier::allow_in_spec]
pub fn defaulting(rule: ArgumentRule, value: &'static str) -> ArgumentRule
    returns
        (ArgumentRule { default: Some(value), ..rule }),
{
    ArgumentRule { default: Some(value), ..rule }
}

/// An argument that the help texts pass over.
#[verifier::allow_in_spec]
pub fn hidden(rule: ArgumentRule) -> ArgumentRule
    returns
        (ArgumentRule { hidden: true, ..rule }),
{
    ArgumentRule { hidden: true, ..rule }
}

/// A flag.
#[verifier::allow_in_spec]
pub fn flag(name: &'static str, help: &'static str) -> ArgumentRule
    returns
        argument(name, Some(name), Kind::Flag, None, help),
{
    argument(name, Some(name), Kind::Flag, None, help)
}

/// An option that takes one text that is not empty.
#[verifier::allow_in_spec]
pub fn option(name: &'static str, value: &'static str, help: &'static str) -> ArgumentRule
    returns
        argument(name, Some(name), Kind::NonEmpty, Some(value), help),
{
    argument(name, Some(name), Kind::NonEmpty, Some(value), help)
}

/// An option that takes a text that is not empty each time it is given.
#[verifier::allow_in_spec]
pub fn options(name: &'static str, value: &'static str, help: &'static str) -> ArgumentRule
    returns
        argument(name, Some(name), Kind::NonEmptyList, Some(value), help),
{
    argument(name, Some(name), Kind::NonEmptyList, Some(value), help)
}

/// An option that takes one text.
#[verifier::allow_in_spec]
pub fn text_option(name: &'static str, value: &'static str, help: &'static str) -> ArgumentRule
    returns
        argument(name, Some(name), Kind::Text, Some(value), help),
{
    argument(name, Some(name), Kind::Text, Some(value), help)
}

/// An option that takes a text each time it is given.
#[verifier::allow_in_spec]
pub fn text_options(name: &'static str, value: &'static str, help: &'static str) -> ArgumentRule
    returns
        argument(name, Some(name), Kind::TextList, Some(value), help),
{
    argument(name, Some(name), Kind::TextList, Some(value), help)
}

/// An option that takes a tag and a directory each time it is given.
#[verifier::allow_in_spec]
pub fn shares(name: &'static str, value: &'static str, help: &'static str) -> ArgumentRule
    returns
        argument(name, Some(name), Kind::Shares, Some(value), help),
{
    argument(name, Some(name), Kind::Shares, Some(value), help)
}

/// An option that takes a name and a value each time it is given.
#[verifier::allow_in_spec]
pub fn entries(name: &'static str, value: &'static str, help: &'static str) -> ArgumentRule
    returns
        argument(name, Some(name), Kind::Entries, Some(value), help),
{
    argument(name, Some(name), Kind::Entries, Some(value), help)
}

/// An option that takes a number from zero up to `most`.
#[verifier::allow_in_spec]
pub fn number(
    name: &'static str,
    most: i64,
    value: &'static str,
    help: &'static str,
) -> ArgumentRule
    returns
        argument(name, Some(name), Kind::Number { most }, Some(value), help),
{
    argument(name, Some(name), Kind::Number { most }, Some(value), help)
}

/// An option that takes a format of tracing output.
#[verifier::allow_in_spec]
pub fn format_option(name: &'static str, value: &'static str, help: &'static str) -> ArgumentRule
    returns
        argument(name, Some(name), formats(), Some(value), help),
{
    argument(name, Some(name), formats(), Some(value), help)
}

/// A required argument that goes by its position and is not empty.
#[verifier::allow_in_spec]
pub fn position(name: &'static str, value: &'static str, help: &'static str) -> ArgumentRule
    returns
        required(argument(name, None, Kind::NonEmpty, Some(value), help)),
{
    required(argument(name, None, Kind::NonEmpty, Some(value), help))
}

/// A required argument that goes by its position.
#[verifier::allow_in_spec]
pub fn text_position(name: &'static str, value: &'static str, help: &'static str) -> ArgumentRule
    returns
        required(argument(name, None, Kind::Text, Some(value), help)),
{
    required(argument(name, None, Kind::Text, Some(value), help))
}

/// The rest of the command line, which must not be empty.
#[verifier::allow_in_spec]
pub fn trailing(name: &'static str, value: &'static str, help: &'static str) -> ArgumentRule
    returns
        required(argument(name, None, Kind::Trailing, Some(value), help)),
{
    required(argument(name, None, Kind::Trailing, Some(value), help))
}

/// A command.
#[verifier::allow_in_spec]
pub fn command_rule(
    name: &'static str,
    about: &'static str,
    exclusive: bool,
    negates_requirements: bool,
    subcommand_required: bool,
) -> CommandRule
    returns
        (CommandRule { name, about, exclusive, negates_requirements, subcommand_required }),
{
    CommandRule { name, about, exclusive, negates_requirements, subcommand_required }
}

/// The arguments that configure an agent.
pub open spec fn agent_rules() -> Seq<ArgumentRule> {
    seq![
        conflicting(flag("provider.openai", "Use the OpenAI provider"), "provider.tempo"),
        flag("provider.tempo", "Use the Tempo provider"),
        option("provider.tempo.wallet-store", "FILE", "Wallet file of the Tempo provider"),
        text_option("api-key", "KEY", "API key of the OpenAI provider"),
        text_option("browser-cdp", "URL", "Remote browser to drive"),
        text_options(
            "browser-brave",
            "ORIGIN",
            "Origin whose Brave cookies the remote browser receives",
        ),
        option("pricing-file", "FILE", "Pricing snapshot that costs are estimated by"),
    ]
}

fn add_agent(command: clap::Command) -> (built: clap::Command)
    ensures
        grammar_of(built) == (Grammar {
            arguments: grammar_of(command).arguments + agent_rules(),
            ..grammar_of(command)
        }),
{
    let ghost before = grammar_of(command).arguments;
    let command = add_argument(
        command,
        conflicting(flag("provider.openai", "Use the OpenAI provider"), "provider.tempo"),
    );
    let command = add_argument(
        command,
        flag("provider.tempo", "Use the Tempo provider"),
    );
    let command = add_argument(
        command,
        option("provider.tempo.wallet-store", "FILE", "Wallet file of the Tempo provider"),
    );
    let command = add_argument(
        command,
        text_option("api-key", "KEY", "API key of the OpenAI provider"),
    );
    let command = add_argument(
        command,
        text_option("browser-cdp", "URL", "Remote browser to drive"),
    );
    let command = add_argument(
        command,
        text_options(
            "browser-brave",
            "ORIGIN",
            "Origin whose Brave cookies the remote browser receives",
        ),
    );
    let command = add_argument(
        command,
        option("pricing-file", "FILE", "Pricing snapshot that costs are estimated by"),
    );
    assert(grammar_of(command).arguments =~= before + agent_rules());
    command
}

/// The arguments that say which images to prepare, and where.
pub open spec fn image_rules() -> Seq<ArgumentRule> {
    seq![
        unless(
            options(
                "task",
                "DIRECTORY",
                "Terminal-Bench task directory. Repeat to prepare several environments",
            ),
            "suite",
        ),
        unless(
            options(
                "suite",
                "DIRECTORY",
                "Terminal-Bench suite directory whose immediate task children should prepare",
            ),
            "task",
        ),
        defaulting(option("cache", "CACHE", "Content-addressed VM cache directory"), ".cache/vm"),
    ]
}

fn add_image_rules(command: clap::Command) -> (built: clap::Command)
    ensures
        grammar_of(built) == (Grammar {
            arguments: grammar_of(command).arguments + image_rules(),
            ..grammar_of(command)
        }),
{
    let ghost before = grammar_of(command).arguments;
    let command = add_argument(
        command,
        unless(
            options(
                "task",
                "DIRECTORY",
                "Terminal-Bench task directory. Repeat to prepare several environments",
            ),
            "suite",
        ),
    );
    let command = add_argument(
        command,
        unless(
            options(
                "suite",
                "DIRECTORY",
                "Terminal-Bench suite directory whose immediate task children should prepare",
            ),
            "task",
        ),
    );
    let command = add_argument(
        command,
        defaulting(option("cache", "CACHE", "Content-addressed VM cache directory"), ".cache/vm"),
    );
    assert(grammar_of(command).arguments =~= before + image_rules());
    command
}

/// The grammar of `auth`.
pub open spec fn auth_grammar() -> Grammar {
    Grammar {
        rule: command_rule("auth", "Manage `ChatGPT` subscription login", false, false, false),
        versions: None,
        arguments: Seq::empty(),
        subcommands: Seq::empty(),
    }
}

fn auth_command() -> (command: clap::Command)
    ensures
        grammar_of(command) == auth_grammar(),
{
    let command = new_command(
        command_rule("auth", "Manage `ChatGPT` subscription login", false, false, false),
    );
    command
}

proof fn lemma_auth_is_sound()
    ensures
        sound(auth_grammar()),
{
}

/// The grammar of `credits`.
pub open spec fn credits_grammar() -> Grammar {
    Grammar {
        rule: command_rule(
            "credits",
            "Inspect or purchase Nanocodex NANOUSD credits",
            false,
            false,
            false,
        ),
        versions: None,
        arguments: Seq::empty(),
        subcommands: Seq::empty(),
    }
}

fn credits_command() -> (command: clap::Command)
    ensures
        grammar_of(command) == credits_grammar(),
{
    let command = new_command(
        command_rule(
            "credits",
            "Inspect or purchase Nanocodex NANOUSD credits",
            false,
            false,
            false,
        ),
    );
    command
}

proof fn lemma_credits_is_sound()
    ensures
        sound(credits_grammar()),
{
}

/// The grammar of `update`.
pub open spec fn update_grammar() -> Grammar {
    Grammar {
        rule: command_rule(
            "update",
            "Update this executable from a GitHub release channel",
            false,
            false,
            false,
        ),
        versions: None,
        arguments: Seq::empty(),
        subcommands: Seq::empty(),
    }
}

fn update_command() -> (command: clap::Command)
    ensures
        grammar_of(command) == update_grammar(),
{
    let command = new_command(
        command_rule(
            "update",
            "Update this executable from a GitHub release channel",
            false,
            false,
            false,
        ),
    );
    command
}

proof fn lemma_update_is_sound()
    ensures
        sound(update_grammar()),
{
}

/// The grammar of `run`.
pub open spec fn run_grammar() -> Grammar {
    Grammar {
        rule: command_rule(
            "run",
            "Run one prompt and stream JSONL events to stdout",
            false,
            false,
            false,
        ),
        versions: None,
        arguments: seq![
            text_position("prompt", "PROMPT", "Prompt to run"),
        ] + agent_rules(),
        subcommands: Seq::empty(),
    }
}

fn run_command() -> (command: clap::Command)
    ensures
        grammar_of(command) == run_grammar(),
{
    let command = new_command(
        command_rule(
            "run",
            "Run one prompt and stream JSONL events to stdout",
            false,
            false,
            false,
        ),
    );
    let command = add_argument(
        command,
        text_position("prompt", "PROMPT", "Prompt to run"),
    );
    let command = add_agent(command);
    assert(grammar_of(command).arguments =~= run_grammar().arguments);
    command
}

proof fn lemma_run_is_sound()
    ensures
        sound(run_grammar()),
{
    reveal_strlit("prompt");
    reveal_strlit("provider.openai");
    reveal_strlit("provider.tempo");
    reveal_strlit("provider.tempo.wallet-store");
    reveal_strlit("api-key");
    reveal_strlit("browser-cdp");
    reveal_strlit("browser-brave");
    reveal_strlit("pricing-file");
    reveal_strlit("help");
    reveal_strlit("version");
    let grammar = run_grammar();
    assert("help"@[0] == 'h' && "version"@[0] == 'v');
    assert(grammar.arguments.len() == 8);
    assert(grammar.arguments[0].name@ == "prompt"@);
    assert(grammar.arguments[1].name@ == "provider.openai"@);
    assert(grammar.arguments[2].name@ == "provider.tempo"@);
    assert(grammar.arguments[3].name@ == "provider.tempo.wallet-store"@);
    assert(grammar.arguments[4].name@ == "api-key"@);
    assert(grammar.arguments[5].name@ == "browser-cdp"@);
    assert(grammar.arguments[6].name@ == "browser-brave"@);
    assert(grammar.arguments[7].name@ == "pricing-file"@);
    assert(sound_argument(grammar, 0));
    assert(sound_argument(grammar, 1));
    assert(sound_argument(grammar, 2));
    assert(sound_argument(grammar, 3));
    assert(sound_argument(grammar, 4));
    assert(sound_argument(grammar, 5));
    assert(sound_argument(grammar, 6));
    assert(sound_argument(grammar, 7));
}

/// The grammar of `resume`.
pub open spec fn resume_grammar() -> Grammar {
    Grammar {
        rule: command_rule(
            "resume",
            "Resume a Codex or Nanocodex thread in the interactive TUI",
            false,
            false,
            false,
        ),
        versions: None,
        arguments: seq![
            position("thread_id", "THREAD_ID", "Codex thread UUID to resume"),
        ] + agent_rules() + seq![
            option(
                "prompt",
                "PROMPT",
                "Submit an initial follow-on prompt immediately after the TUI opens",
            ),
        ],
        subcommands: Seq::empty(),
    }
}

fn resume_command() -> (command: clap::Command)
    ensures
        grammar_of(command) == resume_grammar(),
{
    let command = new_command(
        command_rule(
            "resume",
            "Resume a Codex or Nanocodex thread in the interactive TUI",
            false,
            false,
            false,
        ),
    );
    let command = add_argument(
        command,
        position("thread_id", "THREAD_ID", "Codex thread UUID to resume"),
    );
    let command = add_agent(command);
    let command = add_argument(
        command,
        option(
            "prompt",
            "PROMPT",
            "Submit an initial follow-on prompt immediately after the TUI opens",
        ),
    );
    assert(grammar_of(command).arguments =~= resume_grammar().arguments);
    command
}

proof fn lemma_resume_is_sound()
    ensures
        sound(resume_grammar()),
{
    reveal_strlit("thread_id");
    reveal_strlit("provider.openai");
    reveal_strlit("provider.tempo");
    reveal_strlit("provider.tempo.wallet-store");
    reveal_strlit("api-key");
    reveal_strlit("browser-cdp");
    reveal_strlit("browser-brave");
    reveal_strlit("pricing-file");
    reveal_strlit("prompt");
    reveal_strlit("help");
    reveal_strlit("version");
    let grammar = resume_grammar();
    assert("help"@[0] == 'h' && "version"@[0] == 'v');
    assert(grammar.arguments.len() == 9);
    assert(grammar.arguments[0].name@ == "thread_id"@);
    assert(grammar.arguments[1].name@ == "provider.openai"@);
    assert(grammar.arguments[2].name@ == "provider.tempo"@);
    assert(grammar.arguments[3].name@ == "provider.tempo.wallet-store"@);
    assert(grammar.arguments[4].name@ == "api-key"@);
    assert(grammar.arguments[5].name@ == "browser-cdp"@);
    assert(grammar.arguments[6].name@ == "browser-brave"@);
    assert(grammar.arguments[7].name@ == "pricing-file"@);
    assert(grammar.arguments[8].name@ == "prompt"@);
    assert(sound_argument(grammar, 0));
    assert(sound_argument(grammar, 1));
    assert(sound_argument(grammar, 2));
    assert(sound_argument(grammar, 3));
    assert(sound_argument(grammar, 4));
    assert(sound_argument(grammar, 5));
    assert(sound_argument(grammar, 6));
    assert(sound_argument(grammar, 7));
    assert(sound_argument(grammar, 8));
}

/// The grammar of `run` under `eval`.
pub open spec fn eval_run_grammar() -> Grammar {
    Grammar {
        rule: command_rule(
            "run",
            "Run fresh Nanocodex attempts and retain Harbor-compatible outputs",
            false,
            false,
            false,
        ),
        versions: None,
        arguments: seq![
            options("task", "DIRECTORY", "Task directory. Repeat to attempt several tasks"),
            options(
                "suite",
                "DIRECTORY",
                "Suite directory whose immediate task children are attempted",
            ),
            number("trials", 65535, "TRIALS", "Number of attempts of each task"),
            option("thinking", "EFFORT", "Reasoning effort of the agent"),
            option("pricing-file", "FILE", "Pricing snapshot that costs are estimated by"),
            flag("vm", "Run each attempt in a microVM"),
            flag("new", "Start a new job in place of resuming an incomplete one"),
            option(
                "log-filter",
                "LOG_FILTER",
                "Tracing filter directive. Defaults to Evaluator and Nanocodex lifecycle spans at info",
            ),
            option(
                "otel-filter",
                "OTEL_FILTER",
                "Tracing filter applied only to exported OpenTelemetry spans",
            ),
            format_option("log-format", "LOG_FORMAT", "Local tracing output format"),
            hidden(
                format_option(
                    "__legacy-nanoeval-log-format",
                    "LEGACY_LOG_FORMAT",
                    "Local tracing output format",
                ),
            ),
            option(
                "log-file",
                "LOG_FILE",
                "Append local tracing output to this file instead of stderr",
            ),
            hidden(
                option(
                    "__legacy-nanoeval-log-file",
                    "LEGACY_LOG_FILE",
                    "Append local tracing output to this file instead of stderr",
                ),
            ),
            option("otel-endpoint", "OTEL_ENDPOINT", "Export spans through OTLP/HTTP protobuf"),
            option(
                "otel-environment",
                "OTEL_ENVIRONMENT",
                "Deployment environment attached to exported spans",
            ),
        ],
        subcommands: Seq::empty(),
    }
}

fn eval_run_command() -> (command: clap::Command)
    ensures
        grammar_of(command) == eval_run_grammar(),
{
    let command = new_command(
        command_rule(
            "run",
            "Run fresh Nanocodex attempts and retain Harbor-compatible outputs",
            false,
            false,
            false,
        ),
    );
    let command = add_argument(
        command,
        options("task", "DIRECTORY", "Task directory. Repeat to attempt several tasks"),
    );
    let command = add_argument(
        command,
        options(
            "suite",
            "DIRECTORY",
            "Suite directory whose immediate task children are attempted",
        ),
    );
    let command = add_argument(
        command,
        number("trials", 65535, "TRIALS", "Number of attempts of each task"),
    );
    let command = add_argument(
        command,
        option("thinking", "EFFORT", "Reasoning effort of the agent"),
    );
    let command = add_argument(
        command,
        option("pricing-file", "FILE", "Pricing snapshot that costs are estimated by"),
    );
    let command = add_argument(
        command,
        flag("vm", "Run each attempt in a microVM"),
    );
    let command = add_argument(
        command,
        flag("new", "Start a new job in place of resuming an incomplete one"),
    );
    let command = add_argument(
        command,
        option(
            "log-filter",
            "LOG_FILTER",
            "Tracing filter directive. Defaults to Evaluator and Nanocodex lifecycle spans at info",
        ),
    );
    let command = add_argument(
        command,
        option(
            "otel-filter",
            "OTEL_FILTER",
            "Tracing filter applied only to exported OpenTelemetry spans",
        ),
    );
    let command = add_argument(
        command,
        format_option("log-format", "LOG_FORMAT", "Local tracing output format"),
    );
    let command = add_argument(
        command,
        hidden(
            format_option(
                "__legacy-nanoeval-log-format",
                "LEGACY_LOG_FORMAT",
                "Local tracing output format",
            ),
        ),
    );
    let command = add_argument(
        command,
        option(
            "log-file",
            "LOG_FILE",
            "Append local tracing output to this file instead of stderr",
        ),
    );
    let command = add_argument(
        command,
        hidden(
            option(
                "__legacy-nanoeval-log-file",
                "LEGACY_LOG_FILE",
                "Append local tracing output to this file instead of stderr",
            ),
        ),
    );
    let command = add_argument(
        command,
        option("otel-endpoint", "OTEL_ENDPOINT", "Export spans through OTLP/HTTP protobuf"),
    );
    let command = add_argument(
        command,
        option(
            "otel-environment",
            "OTEL_ENVIRONMENT",
            "Deployment environment attached to exported spans",
        ),
    );
    assert(grammar_of(command).arguments =~= eval_run_grammar().arguments);
    command
}

proof fn lemma_eval_run_is_sound()
    ensures
        sound(eval_run_grammar()),
{
    reveal_strlit("task");
    reveal_strlit("suite");
    reveal_strlit("trials");
    reveal_strlit("thinking");
    reveal_strlit("pricing-file");
    reveal_strlit("vm");
    reveal_strlit("new");
    reveal_strlit("log-filter");
    reveal_strlit("otel-filter");
    reveal_strlit("log-format");
    reveal_strlit("__legacy-nanoeval-log-format");
    reveal_strlit("log-file");
    reveal_strlit("__legacy-nanoeval-log-file");
    reveal_strlit("otel-endpoint");
    reveal_strlit("otel-environment");
    reveal_strlit("help");
    reveal_strlit("version");
    let grammar = eval_run_grammar();
    assert("help"@[0] == 'h' && "version"@[0] == 'v');
    assert(grammar.arguments.len() == 15);
    assert(grammar.arguments[0].name@ == "task"@);
    assert(grammar.arguments[1].name@ == "suite"@);
    assert(grammar.arguments[2].name@ == "trials"@);
    assert(grammar.arguments[3].name@ == "thinking"@);
    assert(grammar.arguments[4].name@ == "pricing-file"@);
    assert(grammar.arguments[5].name@ == "vm"@);
    assert(grammar.arguments[6].name@ == "new"@);
    assert(grammar.arguments[7].name@ == "log-filter"@);
    assert(grammar.arguments[8].name@ == "otel-filter"@);
    assert(grammar.arguments[9].name@ == "log-format"@);
    assert(grammar.arguments[10].name@ == "__legacy-nanoeval-log-format"@);
    assert(grammar.arguments[11].name@ == "log-file"@);
    assert(grammar.arguments[12].name@ == "__legacy-nanoeval-log-file"@);
    assert(grammar.arguments[13].name@ == "otel-endpoint"@);
    assert(grammar.arguments[14].name@ == "otel-environment"@);
    assert("thinking"@[0] == 't');
    assert("log-filter"@[5] == 'i');
    assert("log-format"@[5] == 'o');
    assert("log-file"@[0] == 'l');
    assert(sound_argument(grammar, 0));
    assert(sound_argument(grammar, 1));
    assert(sound_argument(grammar, 2));
    assert(sound_argument(grammar, 3));
    assert(sound_argument(grammar, 4));
    assert(sound_argument(grammar, 5));
    assert(sound_argument(grammar, 6));
    assert(sound_argument(grammar, 7));
    assert(sound_argument(grammar, 8));
    assert(sound_argument(grammar, 9));
    assert(sound_argument(grammar, 10));
    assert(sound_argument(grammar, 11));
    assert(sound_argument(grammar, 12));
    assert(sound_argument(grammar, 13));
    assert(sound_argument(grammar, 14));
}

/// The grammar of `prepare`.
pub open spec fn prepare_grammar() -> Grammar {
    Grammar {
        rule: command_rule(
            "prepare",
            "Prepare task VM images without running agents",
            false,
            false,
            false,
        ),
        versions: None,
        arguments: image_rules() + seq![
            flag("refresh", "Resolve image references at the registry even when locally cached"),
        ],
        subcommands: Seq::empty(),
    }
}

fn prepare_command() -> (command: clap::Command)
    ensures
        grammar_of(command) == prepare_grammar(),
{
    let command = new_command(
        command_rule(
            "prepare",
            "Prepare task VM images without running agents",
            false,
            false,
            false,
        ),
    );
    let command = add_image_rules(command);
    let command = add_argument(
        command,
        flag("refresh", "Resolve image references at the registry even when locally cached"),
    );
    assert(grammar_of(command).arguments =~= prepare_grammar().arguments);
    command
}

proof fn lemma_prepare_is_sound()
    ensures
        sound(prepare_grammar()),
{
    reveal_strlit("task");
    reveal_strlit("suite");
    reveal_strlit("cache");
    reveal_strlit("refresh");
    reveal_strlit("help");
    reveal_strlit("version");
    let grammar = prepare_grammar();
    assert("help"@[0] == 'h' && "version"@[0] == 'v');
    assert(grammar.arguments.len() == 4);
    assert(grammar.arguments[0].name@ == "task"@);
    assert(grammar.arguments[1].name@ == "suite"@);
    assert(grammar.arguments[2].name@ == "cache"@);
    assert(grammar.arguments[3].name@ == "refresh"@);
    assert("suite"@[0] == 's');
    assert("cache"@[0] == 'c');
    assert(sound_argument(grammar, 0));
    assert(sound_argument(grammar, 1));
    assert(sound_argument(grammar, 2));
    assert(sound_argument(grammar, 3));
}

/// The grammar of `task`.
pub open spec fn task_grammar() -> Grammar {
    Grammar {
        rule: command_rule(
            "task",
            "Load, validate, and inspect a benchmark task directory",
            false,
            false,
            false,
        ),
        versions: None,
        arguments: seq![
            position(
                "directory",
                "DIRECTORY",
                "Directory containing task.toml, instruction.md, and tests/test.sh",
            ),
            flag("json", "Emit the complete loaded task as JSON"),
            conflicting(
                flag("prompt", "Include the complete prompt in human-readable output"),
                "json",
            ),
        ],
        subcommands: Seq::empty(),
    }
}

fn task_command() -> (command: clap::Command)
    ensures
        grammar_of(command) == task_grammar(),
{
    let command = new_command(
        command_rule(
            "task",
            "Load, validate, and inspect a benchmark task directory",
            false,
            false,
            false,
        ),
    );
    let command = add_argument(
        command,
        position(
            "directory",
            "DIRECTORY",
            "Directory containing task.toml, instruction.md, and tests/test.sh",
        ),
    );
    let command = add_argument(
        command,
        flag("json", "Emit the complete loaded task as JSON"),
    );
    let command = add_argument(
        command,
        conflicting(
            flag("prompt", "Include the complete prompt in human-readable output"),
            "json",
        ),
    );
    assert(grammar_of(command).arguments =~= task_grammar().arguments);
    command
}

proof fn lemma_task_is_sound()
    ensures
        sound(task_grammar()),
{
    reveal_strlit("directory");
    reveal_strlit("json");
    reveal_strlit("prompt");
    reveal_strlit("help");
    reveal_strlit("version");
    let grammar = task_grammar();
    assert("help"@[0] == 'h' && "version"@[0] == 'v');
    assert(grammar.arguments.len() == 3);
    assert(grammar.arguments[0].name@ == "directory"@);
    assert(grammar.arguments[1].name@ == "json"@);
    assert(grammar.arguments[2].name@ == "prompt"@);
    assert(sound_argument(grammar, 0));
    assert(sound_argument(grammar, 1));
    assert(sound_argument(grammar, 2));
}

/// The grammar of `inspect`.
pub open spec fn inspect_grammar() -> Grammar {
    Grammar {
        rule: command_rule(
            "inspect",
            "Explain a retained Harbor job or trial and surface exact failure evidence",
            false,
            false,
            false,
        ),
        versions: None,
        arguments: seq![
            position("path", "PATH", "Retained job or trial"),
            flag("full", "Show the complete evidence"),
        ],
        subcommands: Seq::empty(),
    }
}

fn inspect_command() -> (command: clap::Command)
    ensures
        grammar_of(command) == inspect_grammar(),
{
    let command = new_command(
        command_rule(
            "inspect",
            "Explain a retained Harbor job or trial and surface exact failure evidence",
            false,
            false,
            false,
        ),
    );
    let command = add_argument(
        command,
        position("path", "PATH", "Retained job or trial"),
    );
    let command = add_argument(
        command,
        flag("full", "Show the complete evidence"),
    );
    assert(grammar_of(command).arguments =~= inspect_grammar().arguments);
    command
}

proof fn lemma_inspect_is_sound()
    ensures
        sound(inspect_grammar()),
{
    reveal_strlit("path");
    reveal_strlit("full");
    reveal_strlit("help");
    reveal_strlit("version");
    let grammar = inspect_grammar();
    assert("help"@[0] == 'h' && "version"@[0] == 'v');
    assert(grammar.arguments.len() == 2);
    assert(grammar.arguments[0].name@ == "path"@);
    assert(grammar.arguments[1].name@ == "full"@);
    assert("path"@[0] == 'p');
    assert("full"@[0] == 'f');
    assert(sound_argument(grammar, 0));
    assert(sound_argument(grammar, 1));
}

/// The grammar of `compare`.
pub open spec fn compare_grammar() -> Grammar {
    Grammar {
        rule: command_rule(
            "compare",
            "Compare a task or retained job with Harbor's public archive",
            false,
            false,
            false,
        ),
        versions: None,
        arguments: seq![
            position("target", "TARGET", "Task or retained job"),
        ],
        subcommands: Seq::empty(),
    }
}

fn compare_command() -> (command: clap::Command)
    ensures
        grammar_of(command) == compare_grammar(),
{
    let command = new_command(
        command_rule(
            "compare",
            "Compare a task or retained job with Harbor's public archive",
            false,
            false,
            false,
        ),
    );
    let command = add_argument(
        command,
        position("target", "TARGET", "Task or retained job"),
    );
    command
}

proof fn lemma_compare_is_sound()
    ensures
        sound(compare_grammar()),
{
    reveal_strlit("target");
    reveal_strlit("help");
    reveal_strlit("version");
    let grammar = compare_grammar();
    assert("help"@[0] == 'h' && "version"@[0] == 'v');
}

/// The grammar of `cleanup`.
pub open spec fn cleanup_grammar() -> Grammar {
    Grammar {
        rule: command_rule(
            "cleanup",
            "Remove disposable VM disks from completed retained trials",
            false,
            false,
            false,
        ),
        versions: None,
        arguments: seq![
            position("path", "PATH", "Directory of retained jobs"),
            flag("dry-run", "Report what would be removed and remove nothing"),
        ],
        subcommands: Seq::empty(),
    }
}

fn cleanup_command() -> (command: clap::Command)
    ensures
        grammar_of(command) == cleanup_grammar(),
{
    let command = new_command(
        command_rule(
            "cleanup",
            "Remove disposable VM disks from completed retained trials",
            false,
            false,
            false,
        ),
    );
    let command = add_argument(
        command,
        position("path", "PATH", "Directory of retained jobs"),
    );
    let command = add_argument(
        command,
        flag("dry-run", "Report what would be removed and remove nothing"),
    );
    assert(grammar_of(command).arguments =~= cleanup_grammar().arguments);
    command
}

proof fn lemma_cleanup_is_sound()
    ensures
        sound(cleanup_grammar()),
{
    reveal_strlit("path");
    reveal_strlit("dry-run");
    reveal_strlit("help");
    reveal_strlit("version");
    let grammar = cleanup_grammar();
    assert("help"@[0] == 'h' && "version"@[0] == 'v');
    assert(grammar.arguments.len() == 2);
    assert(grammar.arguments[0].name@ == "path"@);
    assert(grammar.arguments[1].name@ == "dry-run"@);
    assert(sound_argument(grammar, 0));
    assert(sound_argument(grammar, 1));
}

/// The grammar of `prepare` under `vm`.
pub open spec fn vm_prepare_grammar() -> Grammar {
    Grammar {
        rule: command_rule(
            "prepare",
            "Prepare one or more tasks' Linux/ARM64 root disks without running agents",
            false,
            false,
            false,
        ),
        versions: None,
        arguments: image_rules() + seq![
            flag(
                "refresh",
                "Resolve the image reference at the registry even when locally cached",
            ),
        ],
        subcommands: Seq::empty(),
    }
}

fn vm_prepare_command() -> (command: clap::Command)
    ensures
        grammar_of(command) == vm_prepare_grammar(),
{
    let command = new_command(
        command_rule(
            "prepare",
            "Prepare one or more tasks' Linux/ARM64 root disks without running agents",
            false,
            false,
            false,
        ),
    );
    let command = add_image_rules(command);
    let command = add_argument(
        command,
        flag("refresh", "Resolve the image reference at the registry even when locally cached"),
    );
    assert(grammar_of(command).arguments =~= vm_prepare_grammar().arguments);
    command
}

proof fn lemma_vm_prepare_is_sound()
    ensures
        sound(vm_prepare_grammar()),
{
    reveal_strlit("task");
    reveal_strlit("suite");
    reveal_strlit("cache");
    reveal_strlit("refresh");
    reveal_strlit("help");
    reveal_strlit("version");
    let grammar = vm_prepare_grammar();
    assert("help"@[0] == 'h' && "version"@[0] == 'v');
    assert(grammar.arguments.len() == 4);
    assert(grammar.arguments[0].name@ == "task"@);
    assert(grammar.arguments[1].name@ == "suite"@);
    assert(grammar.arguments[2].name@ == "cache"@);
    assert(grammar.arguments[3].name@ == "refresh"@);
    assert("suite"@[0] == 's');
    assert("cache"@[0] == 'c');
    assert(sound_argument(grammar, 0));
    assert(sound_argument(grammar, 1));
    assert(sound_argument(grammar, 2));
    assert(sound_argument(grammar, 3));
}

/// The grammar of `run` under `vm`.
pub open spec fn vm_run_grammar() -> Grammar {
    Grammar {
        rule: command_rule(
            "run",
            "Boot a root filesystem and replace Evaluator with the guest command",
            false,
            false,
            false,
        ),
        versions: None,
        arguments: seq![
            required(
                option("root", "ROOT", "Linux root filesystem directory exposed to the guest"),
            ),
            flag(
                "ext4",
                "Treat `--root` as a raw ext4 block image instead of a virtiofs directory",
            ),
            defaulting(number("cpus", 255, "CPUS", "Number of virtual CPUs"), "2"),
            defaulting(
                number("memory-mib", 4294967295, "MEMORY_MIB", "Guest memory in MiB"),
                "1024",
            ),
            conflicting(
                option(
                    "network-socket",
                    "SOCKET",
                    "Gvproxy unixgram socket used for an isolated virtio-net interface",
                ),
                "no-network",
            ),
            flag("no-network", "Do not attach a guest network device"),
            option(
                "runtime-directory",
                "DIRECTORY",
                "Read-only directory containing the guest tool runtime",
            ),
            shares(
                "writable-share",
                "TAG=DIRECTORY",
                "Writable host directory exposed as TAG through virtiofs",
            ),
            shares(
                "read-only-disk",
                "ID=IMAGE",
                "Immutable block image attached as ID after the root disk",
            ),
            shares(
                "writable-disk",
                "ID=IMAGE",
                "Private writable block image attached as ID after the root disk",
            ),
            entries(
                "env",
                "NAME=VALUE",
                "Environment entry inherited by the guest's initial process",
            ),
            trailing(
                "guest_command",
                "GUEST_COMMAND",
                "Executable and arguments to run inside the guest",
            ),
        ],
        subcommands: Seq::empty(),
    }
}

fn vm_run_command() -> (command: clap::Command)
    ensures
        grammar_of(command) == vm_run_grammar(),
{
    let command = new_command(
        command_rule(
            "run",
            "Boot a root filesystem and replace Evaluator with the guest command",
            false,
            false,
            false,
        ),
    );
    let command = add_argument(
        command,
        required(option("root", "ROOT", "Linux root filesystem directory exposed to the guest")),
    );
    let command = add_argument(
        command,
        flag("ext4", "Treat `--root` as a raw ext4 block image instead of a virtiofs directory"),
    );
    let command = add_argument(
        command,
        defaulting(number("cpus", 255, "CPUS", "Number of virtual CPUs"), "2"),
    );
    let command = add_argument(
        command,
        defaulting(number("memory-mib", 4294967295, "MEMORY_MIB", "Guest memory in MiB"), "1024"),
    );
    let command = add_argument(
        command,
        conflicting(
            option(
                "network-socket",
                "SOCKET",
                "Gvproxy unixgram socket used for an isolated virtio-net interface",
            ),
            "no-network",
        ),
    );
    let command = add_argument(
        command,
        flag("no-network", "Do not attach a guest network device"),
    );
    let command = add_argument(
        command,
        option(
            "runtime-directory",
            "DIRECTORY",
            "Read-only directory containing the guest tool runtime",
        ),
    );
    let command = add_argument(
        command,
        shares(
            "writable-share",
            "TAG=DIRECTORY",
            "Writable host directory exposed as TAG through virtiofs",
        ),
    );
    let command = add_argument(
        command,
        shares(
            "read-only-disk",
            "ID=IMAGE",
            "Immutable block image attached as ID after the root disk",
        ),
    );
    let command = add_argument(
        command,
        shares(
            "writable-disk",
            "ID=IMAGE",
            "Private writable block image attached as ID after the root disk",
        ),
    );
    let command = add_argument(
        command,
        entries("env", "NAME=VALUE", "Environment entry inherited by the guest's initial process"),
    );
    let command = add_argument(
        command,
        trailing(
            "guest_command",
            "GUEST_COMMAND",
            "Executable and arguments to run inside the guest",
        ),
    );
    assert(grammar_of(command).arguments =~= vm_run_grammar().arguments);
    command
}

proof fn lemma_vm_run_is_sound()
    ensures
        sound(vm_run_grammar()),
{
    reveal_strlit("root");
    reveal_strlit("ext4");
    reveal_strlit("cpus");
    reveal_strlit("memory-mib");
    reveal_strlit("network-socket");
    reveal_strlit("no-network");
    reveal_strlit("runtime-directory");
    reveal_strlit("writable-share");
    reveal_strlit("read-only-disk");
    reveal_strlit("writable-disk");
    reveal_strlit("env");
    reveal_strlit("guest_command");
    reveal_strlit("help");
    reveal_strlit("version");
    let grammar = vm_run_grammar();
    assert("help"@[0] == 'h' && "version"@[0] == 'v');
    assert(grammar.arguments.len() == 12);
    assert(grammar.arguments[0].name@ == "root"@);
    assert(grammar.arguments[1].name@ == "ext4"@);
    assert(grammar.arguments[2].name@ == "cpus"@);
    assert(grammar.arguments[3].name@ == "memory-mib"@);
    assert(grammar.arguments[4].name@ == "network-socket"@);
    assert(grammar.arguments[5].name@ == "no-network"@);
    assert(grammar.arguments[6].name@ == "runtime-directory"@);
    assert(grammar.arguments[7].name@ == "writable-share"@);
    assert(grammar.arguments[8].name@ == "read-only-disk"@);
    assert(grammar.arguments[9].name@ == "writable-disk"@);
    assert(grammar.arguments[10].name@ == "env"@);
    assert(grammar.arguments[11].name@ == "guest_command"@);
    assert("root"@[0] == 'r');
    assert("ext4"@[0] == 'e');
    assert("cpus"@[0] == 'c');
    assert("memory-mib"@[0] == 'm');
    assert("network-socket"@[0] == 'n');
    assert("no-network"@[0] == 'n');
    assert("writable-share"@[0] == 'w');
    assert("read-only-disk"@[0] == 'r');
    assert("writable-disk"@[0] == 'w');
    assert("guest_command"@[0] == 'g');
    assert(sound_argument(grammar, 0));
    assert(sound_argument(grammar, 1));
    assert(sound_argument(grammar, 2));
    assert(sound_argument(grammar, 3));
    assert(sound_argument(grammar, 4));
    assert(sound_argument(grammar, 5));
    assert(sound_argument(grammar, 6));
    assert(sound_argument(grammar, 7));
    assert(sound_argument(grammar, 8));
    assert(sound_argument(grammar, 9));
    assert(sound_argument(grammar, 10));
    assert(sound_argument(grammar, 11));
}

/// The grammar of `run-config` under `vm`.
pub open spec fn vm_run_config_grammar() -> Grammar {
    Grammar {
        rule: command_rule(
            "run-config",
            "Enter a dedicated VMM process from a private serialized configuration",
            false,
            false,
            false,
        ),
        versions: None,
        arguments: seq![
            required(option("config", "CONFIG", "")),
        ],
        subcommands: Seq::empty(),
    }
}

fn vm_run_config_command() -> (command: clap::Command)
    ensures
        grammar_of(command) == vm_run_config_grammar(),
{
    let command = new_command(
        command_rule(
            "run-config",
            "Enter a dedicated VMM process from a private serialized configuration",
            false,
            false,
            false,
        ),
    );
    let command = add_argument(
        command,
        required(option("config", "CONFIG", "")),
    );
    command
}

proof fn lemma_vm_run_config_is_sound()
    ensures
        sound(vm_run_config_grammar()),
{
    reveal_strlit("config");
    reveal_strlit("help");
    reveal_strlit("version");
    let grammar = vm_run_config_grammar();
    assert("help"@[0] == 'h' && "version"@[0] == 'v');
}

/// The grammar of `vm`.
pub open spec fn vm_grammar() -> Grammar {
    Grammar {
        rule: command_rule("vm", "Run one command in a libkrun microVM", false, false, true),
        versions: None,
        arguments: Seq::empty(),
        subcommands: seq![vm_prepare_grammar(), vm_run_grammar(), vm_run_config_grammar()],
    }
}

fn vm_command() -> (command: clap::Command)
    ensures
        grammar_of(command) == vm_grammar(),
{
    let command = new_command(
        command_rule("vm", "Run one command in a libkrun microVM", false, false, true),
    );
    let command = add_subcommand(command, vm_prepare_command());
    let command = add_subcommand(command, vm_run_command());
    let command = add_subcommand(command, vm_run_config_command());
    assert(grammar_of(command).subcommands =~= vm_grammar().subcommands);
    command
}

pub(crate) proof fn lemma_vm_is_sound()
    ensures
        sound(vm_grammar()),
{
    reveal_strlit("prepare");
    reveal_strlit("run");
    reveal_strlit("run-config");
    reveal_strlit("help");
    lemma_vm_prepare_is_sound();
    lemma_vm_run_is_sound();
    lemma_vm_run_config_is_sound();
    let grammar = vm_grammar();
    assert("help"@[0] == 'h');
    assert("prepare"@.len() == 7 && "prepare"@[0] == 'p' && "prepare"@[1] == 'r');
    assert("run"@.len() == 3 && "run"@[0] == 'r' && "run"@[1] == 'u');
    assert("run-config"@.len() == 10 && "run-config"@[0] == 'r' && "run-config"@[1] == 'u');
    assert(grammar.subcommands[0] == vm_prepare_grammar());
    assert(grammar.subcommands[1] == vm_run_grammar());
    assert(grammar.subcommands[2] == vm_run_config_grammar());
}

/// The grammar of `eval`.
pub open spec fn eval_grammar() -> Grammar {
    Grammar {
        rule: command_rule("eval", "Run and inspect durable agent evaluations", true, false, true),
        versions: None,
        arguments: Seq::empty(),
        subcommands: seq![
            eval_run_grammar(),
            prepare_grammar(),
            task_grammar(),
            inspect_grammar(),
            compare_grammar(),
            cleanup_grammar(),
            vm_grammar(),
        ],
    }
}

fn eval_command() -> (command: clap::Command)
    ensures
        grammar_of(command) == eval_grammar(),
{
    let command = new_command(
        command_rule("eval", "Run and inspect durable agent evaluations", true, false, true),
    );
    let command = add_subcommand(command, eval_run_command());
    let command = add_subcommand(command, prepare_command());
    let command = add_subcommand(command, task_command());
    let command = add_subcommand(command, inspect_command());
    let command = add_subcommand(command, compare_command());
    let command = add_subcommand(command, cleanup_command());
    let command = add_subcommand(command, vm_command());
    assert(grammar_of(command).subcommands =~= eval_grammar().subcommands);
    command
}

pub(crate) proof fn lemma_eval_is_sound()
    ensures
        sound(eval_grammar()),
{
    reveal_strlit("run");
    reveal_strlit("prepare");
    reveal_strlit("task");
    reveal_strlit("inspect");
    reveal_strlit("compare");
    reveal_strlit("cleanup");
    reveal_strlit("vm");
    reveal_strlit("help");
    lemma_eval_run_is_sound();
    lemma_prepare_is_sound();
    lemma_task_is_sound();
    lemma_inspect_is_sound();
    lemma_compare_is_sound();
    lemma_cleanup_is_sound();
    lemma_vm_is_sound();
    let grammar = eval_grammar();
    assert("help"@[0] == 'h');
    assert("run"@.len() == 3 && "run"@[0] == 'r' && "run"@[1] == 'u');
    assert("prepare"@.len() == 7 && "prepare"@[0] == 'p' && "prepare"@[1] == 'r');
    assert("task"@.len() == 4 && "task"@[0] == 't' && "task"@[1] == 'a');
    assert("inspect"@.len() == 7 && "inspect"@[0] == 'i' && "inspect"@[1] == 'n');
    assert("compare"@.len() == 7 && "compare"@[0] == 'c' && "compare"@[1] == 'o');
    assert("cleanup"@.len() == 7 && "cleanup"@[0] == 'c' && "cleanup"@[1] == 'l');
    assert("vm"@.len() == 2 && "vm"@[0] == 'v' && "vm"@[1] == 'm');
    assert(grammar.subcommands[0] == eval_run_grammar());
    assert(grammar.subcommands[1] == prepare_grammar());
    assert(grammar.subcommands[2] == task_grammar());
    assert(grammar.subcommands[3] == inspect_grammar());
    assert(grammar.subcommands[4] == compare_grammar());
    assert(grammar.subcommands[5] == cleanup_grammar());
    assert(grammar.subcommands[6] == vm_grammar());
}

/// The grammar of `nanocodex`.
pub open spec fn root_grammar(versions: (&'static str, &'static str)) -> Grammar {
    Grammar {
        rule: command_rule(
            "nanocodex",
            "An interactive coding agent and headless JSONL runner",
            true,
            true,
            false,
        ),
        versions: Some(versions),
        arguments: agent_rules() + seq![
            option("prompt", "PROMPT", "Submit an initial prompt immediately after the TUI opens"),
        ],
        subcommands: seq![
            auth_grammar(),
            credits_grammar(),
            eval_grammar(),
            run_grammar(),
            resume_grammar(),
            update_grammar(),
        ],
    }
}

/// Builds the whole grammar.
pub(crate) fn root_command(versions: (&'static str, &'static str)) -> (command: clap::Command)
    ensures
        grammar_of(command) == root_grammar(versions),
{
    let command = new_command(
        command_rule(
            "nanocodex",
            "An interactive coding agent and headless JSONL runner",
            true,
            true,
            false,
        ),
    );
    let command = add_versions(command, versions.0, versions.1);
    let command = add_agent(command);
    let command = add_argument(
        command,
        option("prompt", "PROMPT", "Submit an initial prompt immediately after the TUI opens"),
    );
    let command = add_subcommand(command, auth_command());
    let command = add_subcommand(command, credits_command());
    let command = add_subcommand(command, eval_command());
    let command = add_subcommand(command, run_command());
    let command = add_subcommand(command, resume_command());
    let command = add_subcommand(command, update_command());
    assert(grammar_of(command).arguments =~= root_grammar(versions).arguments);
    assert(grammar_of(command).subcommands =~= root_grammar(versions).subcommands);
    command
}

/// The whole grammar can be read by.
pub(crate) proof fn lemma_root_is_sound(versions: (&'static str, &'static str))
    ensures
        sound(root_grammar(versions)),
{
    reveal_strlit("provider.openai");
    reveal_strlit("provider.tempo");
    reveal_strlit("provider.tempo.wallet-store");
    reveal_strlit("api-key");
    reveal_strlit("browser-cdp");
    reveal_strlit("browser-brave");
    reveal_strlit("pricing-file");
    reveal_strlit("prompt");
    reveal_strlit("auth");
    reveal_strlit("credits");
    reveal_strlit("eval");
    reveal_strlit("run");
    reveal_strlit("resume");
    reveal_strlit("update");
    reveal_strlit("help");
    reveal_strlit("version");
    lemma_auth_is_sound();
    lemma_credits_is_sound();
    lemma_eval_is_sound();
    lemma_run_is_sound();
    lemma_resume_is_sound();
    lemma_update_is_sound();
    let grammar = root_grammar(versions);
    assert("help"@[0] == 'h' && "version"@[0] == 'v');
    assert(grammar.arguments.len() == 8);
    assert(grammar.arguments[0].name@ == "provider.openai"@);
    assert(grammar.arguments[1].name@ == "provider.tempo"@);
    assert(grammar.arguments[2].name@ == "provider.tempo.wallet-store"@);
    assert(grammar.arguments[3].name@ == "api-key"@);
    assert(grammar.arguments[4].name@ == "browser-cdp"@);
    assert(grammar.arguments[5].name@ == "browser-brave"@);
    assert(grammar.arguments[6].name@ == "pricing-file"@);
    assert(grammar.arguments[7].name@ == "prompt"@);
    assert(sound_argument(grammar, 0));
    assert(sound_argument(grammar, 1));
    assert(sound_argument(grammar, 2));
    assert(sound_argument(grammar, 3));
    assert(sound_argument(grammar, 4));
    assert(sound_argument(grammar, 5));
    assert(sound_argument(grammar, 6));
    assert(sound_argument(grammar, 7));
    assert("auth"@.len() == 4 && "auth"@[0] == 'a' && "auth"@[1] == 'u');
    assert("credits"@.len() == 7 && "credits"@[0] == 'c' && "credits"@[1] == 'r');
    assert("eval"@.len() == 4 && "eval"@[0] == 'e' && "eval"@[1] == 'v');
    assert("run"@.len() == 3 && "run"@[0] == 'r' && "run"@[1] == 'u');
    assert("resume"@.len() == 6 && "resume"@[0] == 'r' && "resume"@[1] == 'e');
    assert("update"@.len() == 6 && "update"@[0] == 'u' && "update"@[1] == 'p');
    assert(grammar.subcommands[0] == auth_grammar());
    assert(grammar.subcommands[1] == credits_grammar());
    assert(grammar.subcommands[2] == eval_grammar());
    assert(grammar.subcommands[3] == run_grammar());
    assert(grammar.subcommands[4] == resume_grammar());
    assert(grammar.subcommands[5] == update_grammar());
}

} // verus!
