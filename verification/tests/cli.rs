use nanocodex::cli::{Cli, CliCommand, Eval, EvalCommand, Prepare, ResponsesTransport, VmCommand};
use nanocodex::dispatch::{DispatchError, EvalAction, SynchronousVm};
use nanocodex::grammar::UsageError;
use nanocodex::observability::{LogFormatArg, TracingFlags};
use nanocodex::path::HostPath;
use nanocodex::vm_run::{run_vm, BlockDevice, Network, RootDisk, SharedDirectory};

const VERSIONS: (&str, &str) = ("1.2.3", "1.2.3 (abcdef)");

fn parse(words: &[&str]) -> Result<Cli, UsageError> {
    let words = words.iter().map(|word| (*word).to_owned()).collect();
    Cli::try_parse_from(words, VERSIONS)
}

fn path(text: &str) -> HostPath {
    HostPath::from_text(text)
}

fn eval_command(words: &[&str]) -> Eval {
    match parse(words).unwrap().command {
        Some(CliCommand::Eval(eval)) => eval,
        other => panic!("expected an evaluation command, got {other:?}"),
    }
}

#[test]
fn prepare_accepts_repeated_tasks_in_input_order() {
    let cli = parse(&[
        "nanocodex",
        "eval",
        "prepare",
        "--task",
        "tasks/first",
        "--task",
        "tasks/second",
    ])
    .unwrap();
    let Some(CliCommand::Eval(Eval {
        command: EvalCommand::Prepare(Prepare { tasks, .. }),
    })) = cli.command
    else {
        panic!("expected vm prepare command");
    };

    assert_eq!(tasks, [path("tasks/first"), path("tasks/second")]);
}

#[test]
fn prepare_accepts_a_complete_suite() {
    let cli = parse(&[
        "nanocodex",
        "eval",
        "vm",
        "prepare",
        "--suite",
        "terminal-bench-2-1",
    ])
    .unwrap();
    let Some(CliCommand::Eval(Eval {
        command:
            EvalCommand::Vm {
                command: VmCommand::Prepare { suites, .. },
            },
    })) = cli.command
    else {
        panic!("expected vm prepare command");
    };

    assert_eq!(suites, [path("terminal-bench-2-1")]);
}

#[test]
fn vm_run_accepts_an_explicit_no_network_policy() {
    let cli = parse(&[
        "nanocodex",
        "eval",
        "vm",
        "run",
        "--root",
        "/tmp/rootfs.ext4",
        "--ext4",
        "--no-network",
        "/bin/true",
    ])
    .unwrap();
    let Some(CliCommand::Eval(Eval {
        command:
            EvalCommand::Vm {
                command: VmCommand::Run { no_network, .. },
            },
    })) = cli.command
    else {
        panic!("expected vm run command");
    };

    assert!(no_network);
}

#[test]
fn vm_run_rejects_conflicting_network_policies() {
    let parsed = parse(&[
        "nanocodex",
        "eval",
        "vm",
        "run",
        "--root",
        "/tmp/rootfs.ext4",
        "--network-socket",
        "/tmp/gvproxy.sock",
        "--no-network",
        "/bin/true",
    ]);

    assert!(parsed.is_err());
}

#[test]
fn complete_eval_surface_is_nested_under_nanocodex() {
    for arguments in [
        vec![
            "nanocodex",
            "eval",
            "run",
            "--task",
            "tasks/write-greeting",
            "--pricing-file",
            "pricing.json",
        ],
        vec![
            "nanocodex",
            "eval",
            "task",
            "tasks/write-greeting",
            "--json",
        ],
        vec!["nanocodex", "eval", "inspect", ".nanocodex/evals/job"],
        vec![
            "nanocodex",
            "eval",
            "compare",
            "terminal-bench/configure-git-webserver",
        ],
        vec![
            "nanocodex",
            "eval",
            "cleanup",
            ".nanocodex/evals",
            "--dry-run",
        ],
    ] {
        parse(&arguments).expect("supported eval command must parse");
    }

    let help = Cli::long_help(VERSIONS);
    assert!(help.contains("eval"));
}

#[test]
fn tempo_flag_selects_the_tui_transport() {
    let cli = parse(&[
        "nanocodex",
        "--provider.tempo",
        "--provider.tempo.wallet-store",
        "/tmp/tempo-wallet.json",
    ])
    .unwrap();

    assert!(cli.command.is_none());
    assert!(cli.agent.uses_tempo());
    assert_eq!(cli.agent.responses_transport(), ResponsesTransport::Https);
}

#[test]
fn tempo_flag_selects_the_one_shot_transport() {
    let cli = parse(&[
        "nanocodex",
        "run",
        "reply with ok",
        "--provider.tempo",
        "--provider.tempo.wallet-store",
        "/tmp/tempo-wallet.json",
    ])
    .unwrap();

    let Some(CliCommand::Run(command)) = cli.command else {
        unreachable!();
    };
    assert!(command.agent.uses_tempo());
    assert_eq!(
        command.agent.responses_transport(),
        ResponsesTransport::Https
    );
}

#[test]
fn openai_provider_is_explicitly_selectable() {
    let cli = parse(&["nanocodex", "--provider.openai", "--api-key", "test-key"]).unwrap();

    assert!(!cli.agent.uses_tempo());
    assert_eq!(
        cli.agent.responses_transport(),
        ResponsesTransport::WebSocket
    );
}

#[test]
fn raw_vm_is_dispatched_before_tokio_starts() {
    let cli = parse(&[
        "nanocodex",
        "eval",
        "vm",
        "run",
        "--root",
        "/tmp/rootfs.ext4",
        "--ext4",
        "--no-network",
        "/bin/true",
    ])
    .unwrap();

    assert!(cli.synchronous_vm().is_some());
    let Some(CliCommand::Eval(command)) = cli.command else {
        unreachable!();
    };
    assert!(command.requires_synchronous_vm());
}

#[test]
fn ordinary_eval_stays_on_the_async_runtime() {
    let cli = parse(&["nanocodex", "eval", "task", "/tmp/frontier-task"]).unwrap();

    assert!(cli.synchronous_vm().is_none());
    let Some(CliCommand::Eval(command)) = cli.command else {
        unreachable!();
    };
    assert!(!command.requires_synchronous_vm());
}

#[test]
fn eval_does_not_accept_unimplemented_provider_flags() {
    let Err(error) = parse(&[
        "nanocodex",
        "eval",
        "task",
        "/tmp/frontier-task",
        "--provider.tempo",
    ]) else {
        panic!("eval unexpectedly accepted an unimplemented provider flag");
    };

    assert_eq!(*error.kind(), clap::error::ErrorKind::UnknownArgument);
}

#[test]
fn remote_browser_accepts_brave_cookie_origins() {
    let cli = parse(&[
        "nanocodex",
        "run",
        "inspect the deployment",
        "--browser-cdp",
        "ws://127.0.0.1:9222",
        "--browser-brave",
        "https://console.example.com",
        "--browser-brave",
        "https://company.okta.example",
    ])
    .unwrap();

    assert!(matches!(cli.command, Some(CliCommand::Run(_))));
    let Some(CliCommand::Run(command)) = cli.command else {
        unreachable!();
    };
    assert_eq!(command.prompt, "inspect the deployment");
    assert_eq!(
        command.agent.browser_cdp.as_deref(),
        Some("ws://127.0.0.1:9222")
    );
    assert_eq!(
        command.agent.browser_brave,
        [
            "https://console.example.com",
            "https://company.okta.example"
        ]
    );
}

#[test]
fn provider_selection_is_exclusive() {
    let error = parse(&["nanocodex", "--provider.openai", "--provider.tempo"])
        .err()
        .unwrap();

    assert_eq!(*error.kind(), clap::error::ErrorKind::ArgumentConflict);
}

#[test]
fn resume_accepts_a_thread_id_and_agent_configuration() {
    let cli = parse(&[
        "nanocodex",
        "resume",
        "019c0d31-c308-7d91-bff4-5dca82d15ac6",
        "--provider.openai",
        "--api-key",
        "test-key",
        "--prompt",
        "continue",
    ])
    .unwrap();

    let Some(CliCommand::Resume(command)) = cli.command else {
        panic!("resume command was not parsed");
    };
    assert_eq!(command.thread_id, "019c0d31-c308-7d91-bff4-5dca82d15ac6");
    assert_eq!(command.prompt.as_deref(), Some("continue"));
    assert!(!command.agent.uses_tempo());
    assert_eq!(
        command.load_failure(),
        "failed to load Codex thread 019c0d31-c308-7d91-bff4-5dca82d15ac6"
    );
}

#[test]
fn errors_carry_their_kind_text_and_exit_code() {
    let missing = parse(&["nanocodex", "resume"]).err().unwrap();
    assert_eq!(
        *missing.kind(),
        clap::error::ErrorKind::MissingRequiredArgument
    );
    assert_eq!(missing.exit_code, 2);
    assert!(missing.message.contains("THREAD_ID"));

    let empty = parse(&["nanocodex", "--prompt", ""]).err().unwrap();
    assert_eq!(*empty.kind(), clap::error::ErrorKind::InvalidValue);

    let share = parse(&[
        "nanocodex",
        "eval",
        "vm",
        "run",
        "--root",
        "/r",
        "--writable-share",
        "bad tag=/tmp",
        "/bin/true",
    ])
    .err()
    .unwrap();
    assert_eq!(*share.kind(), clap::error::ErrorKind::ValueValidation);
    assert!(share
        .message
        .contains("writable share tag must contain only ASCII letters, digits, '-' or '_'"));

    let entry = parse(&[
        "nanocodex", "eval", "vm", "run", "--root", "/r", "--env", "1A=b", "/bin/true",
    ])
    .err()
    .unwrap();
    assert_eq!(*entry.kind(), clap::error::ErrorKind::ValueValidation);
    assert!(entry
        .message
        .contains("guest environment name must be a shell identifier"));

    let number = parse(&[
        "nanocodex",
        "eval",
        "vm",
        "run",
        "--root",
        "/r",
        "--cpus",
        "256",
        "/bin/true",
    ])
    .err()
    .unwrap();
    assert_eq!(*number.kind(), clap::error::ErrorKind::ValueValidation);

    let bare = parse(&["nanocodex", "eval"]).err().unwrap();
    assert_eq!(
        *bare.kind(),
        clap::error::ErrorKind::DisplayHelpOnMissingArgumentOrSubcommand
    );

    let nothing = parse(&["nanocodex", "eval", "prepare"]).err().unwrap();
    assert_eq!(
        *nothing.kind(),
        clap::error::ErrorKind::MissingRequiredArgument
    );

    let both = parse(&["nanocodex", "eval", "task", "/t", "--json", "--prompt"])
        .err()
        .unwrap();
    assert_eq!(*both.kind(), clap::error::ErrorKind::ArgumentConflict);

    let beside = parse(&["nanocodex", "--api-key", "k", "update"]).err().unwrap();
    assert_eq!(beside.exit_code, 2);

    let version = parse(&["nanocodex", "--version"]).err().unwrap();
    assert_eq!(*version.kind(), clap::error::ErrorKind::DisplayVersion);
    assert_eq!(version.exit_code, 0);
    assert!(version.message.contains("1.2.3 (abcdef)"));
}

#[test]
fn plain_commands_have_no_session() {
    for (word, command) in [
        ("auth", CliCommand::Auth),
        ("credits", CliCommand::Credits),
        ("update", CliCommand::Update),
    ] {
        let cli = parse(&["nanocodex", word]).unwrap();
        assert_eq!(cli.command, Some(command));
        assert!(!cli.uses_tempo());
        assert_eq!(cli.session(), None);
    }
}

#[test]
fn sessions_are_interactive_except_for_one_prompt() {
    let tui = parse(&["nanocodex", "--prompt", "hello", "--provider.tempo"]).unwrap();
    assert_eq!(tui.prompt.as_deref(), Some("hello"));
    assert_eq!(tui.session(), Some(true));
    assert!(tui.uses_tempo());

    let run = parse(&["nanocodex", "run", "hello"]).unwrap();
    assert_eq!(run.session(), Some(false));
    assert!(!run.uses_tempo());

    let resume = parse(&["nanocodex", "resume", "id", "--provider.tempo"]).unwrap();
    assert_eq!(resume.session(), Some(true));
    assert!(resume.uses_tempo());
}

#[test]
fn evaluation_flags_reach_their_commands() {
    let eval = eval_command(&[
        "nanocodex",
        "eval",
        "run",
        "--task",
        "tasks/write-greeting",
        "--trials",
        "5",
        "--thinking",
        "medium",
    ]);
    let Ok(EvalAction::Run(run)) = eval.run() else {
        panic!("expected a run");
    };
    assert_eq!(run.tasks, [path("tasks/write-greeting")]);
    assert!(run.suites.is_empty());
    assert_eq!(run.trials, Some(5));
    assert_eq!(run.thinking.as_deref(), Some("medium"));
    assert_eq!(run.pricing_file, None);

    let cleanup = eval_command(&[
        "nanocodex",
        "eval",
        "cleanup",
        ".nanocodex/evals",
        "--dry-run",
    ]);
    assert_eq!(
        cleanup.run(),
        Ok(EvalAction::Cleanup {
            path: path(".nanocodex/evals"),
            dry_run: true,
        })
    );

    let inspect = eval_command(&["nanocodex", "eval", "inspect", "job"]);
    assert_eq!(
        inspect.run(),
        Ok(EvalAction::Inspect { path: path("job"), full: false })
    );
    let inspect = eval_command(&["nanocodex", "eval", "inspect", "job", "--full"]);
    assert_eq!(
        inspect.run(),
        Ok(EvalAction::Inspect { path: path("job"), full: true })
    );

    let compare = eval_command(&["nanocodex", "eval", "compare", "a/b"]);
    assert_eq!(
        compare.run(),
        Ok(EvalAction::Compare {
            target: "a/b".to_owned()
        })
    );

    let task = eval_command(&["nanocodex", "eval", "task", "/t", "--prompt"]);
    assert_eq!(
        task.run(),
        Ok(EvalAction::Task {
            directory: path("/t"),
            json: false,
            prompt: true,
        })
    );
}

#[test]
fn evaluation_runs_take_their_mode_and_their_tracing() {
    let run_of = |words: &[&str]| match eval_command(words).run() {
        Ok(EvalAction::Run(run)) => *run,
        _ => panic!("expected a run"),
    };
    let plain = run_of(&["nanocodex", "eval", "run", "--task", "t"]);
    assert!(!plain.vm);
    assert!(!plain.new);
    assert_eq!(plain.tracing.log_filter, None);
    assert_eq!(plain.tracing.log_format, None);

    let run = run_of(&[
        "nanocodex",
        "eval",
        "run",
        "--vm",
        "--new",
        "--log-filter",
        "debug",
        "--otel-filter",
        "info",
        "--log-format",
        "json",
        "--__legacy-nanoeval-log-format",
        "pretty",
        "--log-file",
        "/new.log",
        "--__legacy-nanoeval-log-file",
        "/old.log",
        "--otel-endpoint",
        "http://collector",
        "--otel-environment",
        "production",
    ]);
    assert!(run.vm);
    assert!(run.new);
    assert_eq!(
        run.tracing,
        TracingFlags {
            log_filter: Some("debug".to_owned()),
            otel_filter: Some("info".to_owned()),
            log_format: Some(LogFormatArg::Json),
            legacy_log_format: Some(LogFormatArg::Pretty),
            log_file: Some(path("/new.log")),
            legacy_log_file: Some(path("/old.log")),
            otel_endpoint: Some("http://collector".to_owned()),
            otel_environment: Some("production".to_owned()),
        }
    );

    for words in [
        &["nanocodex", "eval", "run", "--log-format", "yaml"],
        &["nanocodex", "eval", "run", "--log-filter", ""],
    ] {
        let error = parse(words).err().unwrap();
        assert_eq!(*error.kind(), clap::error::ErrorKind::InvalidValue);
    }
}

#[test]
fn pricing_comes_from_the_command_line_or_the_environment() {
    let environment = || Some(path("environment.json"));
    let cli = parse(&["nanocodex", "--pricing-file", "pricing.json"]).unwrap();
    assert_eq!(cli.agent.pricing_file, Some(path("pricing.json")));
    let agent = cli.agent.clone().with_environment(environment());
    assert_eq!(agent, cli.agent);

    let cli = parse(&["nanocodex", "run", "reply", "--pricing-file", "pricing.json"]).unwrap();
    match cli.command {
        Some(CliCommand::Run(run)) => {
            assert_eq!(run.agent.pricing_file, Some(path("pricing.json")));
        }
        _ => panic!("expected a run"),
    }

    let cli = parse(&["nanocodex", "--provider.tempo"]).unwrap();
    assert_eq!(cli.agent.pricing_file, None);
    let agent = cli.agent.with_environment(environment());
    assert_eq!(agent.pricing_file, environment());
    assert!(agent.uses_tempo());

    let eval = eval_command(&["nanocodex", "eval", "run", "--trials", "2"]);
    let Ok(EvalAction::Run(run)) = eval.run() else {
        panic!("expected a run");
    };
    assert_eq!(run.clone().with_environment(None).pricing_file, None);
    let run = run.with_environment(environment());
    assert_eq!(run.pricing_file, environment());
    assert_eq!(run.trials, Some(2));
}

#[test]
fn help_texts_end_without_a_period_and_pass_over_former_names() {
    let help = parse(&["nanocodex", "eval", "run", "--help"]).err().unwrap();
    assert_eq!(*help.kind(), clap::error::ErrorKind::DisplayHelp);
    assert_eq!(help.exit_code, 0);
    assert!(help
        .message
        .starts_with("Run fresh Nanocodex attempts and retain Harbor-compatible outputs\n"));
    assert!(help.message.contains("--log-format"));
    assert!(help
        .message
        .contains("Deployment environment attached to exported spans\n"));
    assert!(!help.message.contains("legacy"));

    let private = parse(&["nanocodex", "eval", "vm", "run-config", "--help"])
        .err()
        .unwrap();
    assert!(private
        .message
        .lines()
        .any(|line| line.trim() == "--config <CONFIG>"));

    let root = Cli::long_help(("1.0.0", "1.0.0"));
    assert!(root.contains("Manage `ChatGPT` subscription login\n"));
    assert!(!root.contains("login."));
}

#[test]
fn both_spellings_of_prepare_are_the_same_work() {
    let long = eval_command(&["nanocodex", "eval", "vm", "prepare", "--task", "t", "--refresh"]);
    let short = eval_command(&["nanocodex", "eval", "prepare", "--task", "t", "--refresh"]);
    let expected = EvalAction::Prepare(Prepare {
        tasks: vec![path("t")],
        suites: Vec::new(),
        cache: path(".cache/vm"),
        refresh: true,
    });
    assert!(!long.requires_synchronous_vm());
    assert_eq!(long.run(), Ok(expected.clone()));
    assert_eq!(short.run(), Ok(expected));
}

#[test]
fn commands_sent_to_the_wrong_place_are_refused() {
    let task = eval_command(&["nanocodex", "eval", "task", "/t"]);
    assert_eq!(
        task.run_synchronous_vm().err(),
        Some(DispatchError::NotSynchronous)
    );
    let prepare = eval_command(&["nanocodex", "eval", "vm", "prepare", "--task", "t"]);
    assert_eq!(
        prepare.run_synchronous_vm().err(),
        Some(DispatchError::NotSynchronous)
    );
    assert_eq!(
        DispatchError::NotSynchronous.message(),
        "evaluation command is not a synchronous VM command"
    );

    let config = eval_command(&[
        "nanocodex",
        "eval",
        "vm",
        "run-config",
        "--config",
        "/tmp/vm.json",
    ]);
    match config.run_synchronous_vm() {
        Ok(SynchronousVm::Private(file)) => assert_eq!(*file, path("/tmp/vm.json")),
        other => panic!("expected a private VM, got {other:?}"),
    }
    assert!(config.requires_synchronous_vm());
    assert_eq!(config.run().err(), Some(DispatchError::NotAsynchronous));
    assert_eq!(
        DispatchError::NotAsynchronous.message(),
        "VM commands must be dispatched before starting the async runtime"
    );

    let raw = VmCommand::RunConfig {
        config: path("/tmp/vm.json"),
    };
    assert_eq!(
        nanocodex::dispatch::run_raw_vm(&raw).err(),
        Some(DispatchError::NotRaw)
    );
    assert_eq!(DispatchError::NotRaw.message(), "invalid raw VM command");
}

#[test]
fn a_raw_vm_command_line_describes_its_machine() {
    let eval = eval_command(&[
        "nanocodex",
        "eval",
        "vm",
        "run",
        "--root",
        "/tmp/rootfs.ext4",
        "--ext4",
        "--cpus",
        "4",
        "--network-socket",
        "/tmp/gvproxy.sock",
        "--runtime-directory",
        "/opt/tools",
        "--writable-share",
        "cache=/tmp/cache",
        "--read-only-disk",
        "runtime=/tmp/runtime.ext4",
        "--writable-disk",
        "scratch=/tmp/a=b.ext4",
        "--env",
        "PATH=/bin:/usr/bin",
        "--env",
        "EMPTY=",
        "/bin/sh",
        "-c",
        "--root is not mine",
    ]);
    let Ok(SynchronousVm::Raw(input)) = eval.run_synchronous_vm() else {
        panic!("expected a raw VM");
    };
    let (config, command) = run_vm(input).unwrap();
    assert_eq!(config.root, RootDisk::Ext4(path("/tmp/rootfs.ext4")));
    assert_eq!(config.cpus, 4);
    assert_eq!(config.memory_mib, 1024);
    assert_eq!(
        config.network,
        Some(Network::Gvproxy(path("/tmp/gvproxy.sock")))
    );
    assert_eq!(
        config.shared_directories,
        [
            SharedDirectory {
                tag: "nanocodex-tools".to_owned(),
                directory: path("/opt/tools"),
                writable: false,
            },
            SharedDirectory {
                tag: "cache".to_owned(),
                directory: path("/tmp/cache"),
                writable: true,
            },
        ]
    );
    assert_eq!(
        config.block_devices,
        [
            BlockDevice {
                id: "runtime".to_owned(),
                image: path("/tmp/runtime.ext4"),
                writable: false,
            },
            BlockDevice {
                id: "scratch".to_owned(),
                image: path("/tmp/a=b.ext4"),
                writable: true,
            },
        ]
    );
    assert_eq!(command.program, "/bin/sh");
    assert_eq!(command.arguments, ["-c", "--root is not mine"]);
    let entries: Vec<(&str, &str)> = command
        .environment
        .iter()
        .map(|entry| (entry.name.as_str(), entry.value.as_str()))
        .collect();
    assert_eq!(entries, [("PATH", "/bin:/usr/bin"), ("EMPTY", "")]);
}

#[test]
fn machines_have_defaults() {
    let eval = eval_command(&[
        "nanocodex", "eval", "vm", "run", "--root", "/srv/root", "/bin/true",
    ]);
    let Ok(SynchronousVm::Raw(input)) = eval.run_synchronous_vm() else {
        panic!("expected a raw VM");
    };
    let (config, command) = run_vm(input).unwrap();
    assert_eq!(config.root, RootDisk::Directory(path("/srv/root")));
    assert_eq!(config.cpus, 2);
    assert_eq!(config.memory_mib, 1024);
    assert_eq!(config.network, None);
    assert!(config.shared_directories.is_empty());
    assert!(config.block_devices.is_empty());
    assert!(command.arguments.is_empty());

    let empty = Vec::new();
    let mut bare = input;
    bare.guest_command = &empty;
    bare.no_network = true;
    let error = run_vm(bare).err().unwrap();
    assert_eq!(error.message(), "guest command must not be empty");

    let mut disabled = input;
    disabled.no_network = true;
    assert_eq!(run_vm(disabled).unwrap().0.network, Some(Network::Disabled));
}
