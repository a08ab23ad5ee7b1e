use std::collections::BTreeMap;
use std::sync::Arc;

use nanocodex::event::{EvalEvent, EvalEventKind, EvalEventStream, EvalEventStreamError, EvalEvents};
use nanocodex::path::HostPath;
use nanocodex::result::{
    AgentId, AgentMetadata, AgentResult, AgentStatus, DoubleBits, EvalArtifacts, EvalFailure,
    EvalFailureKind, EvalResult, EvalStatus, EvalTiming, PhaseTiming, SweepAttemptResult,
    SweepResults, Timestamp, UsageTotals, VerifierResult,
};
use nanocodex::task::{Resources, Task, Timeout, Verifier, VerifierEnvironmentMode};
use tokio::sync::broadcast;

fn block_on<F: std::future::Future>(future: F) -> F::Output {
    tokio::runtime::Builder::new_current_thread()
        .build()
        .unwrap()
        .block_on(future)
}

fn receive(
    stream: &mut EvalEventStream,
) -> Result<Option<Arc<EvalEvent>>, EvalEventStreamError> {
    EvalEventStream::recv(block_on(stream.receiver().recv()))
}

fn event(sequence: u64) -> EvalEvent {
    EvalEvent {
        run_id: uuid::Uuid::nil(),
        attempt_id: uuid::Uuid::nil(),
        task_name: "task".to_owned(),
        trial_name: "task__attempt".to_owned(),
        sequence,
        kind: EvalEventKind::VerifierStarted,
    }
}

#[test]
fn subscriptions_receive_the_same_event_independently() {
    let (sender, _) = broadcast::channel(4);
    let events = EvalEvents::new(sender.clone());
    let mut first = events.subscribe();
    let mut second = events.subscribe();
    let event = Arc::new(event(1));

    sender.send(Arc::clone(&event)).unwrap();

    let first = receive(&mut first).unwrap().unwrap();
    let second = receive(&mut second).unwrap().unwrap();
    assert!(Arc::ptr_eq(&first, &event));
    assert!(Arc::ptr_eq(&second, &event));
}

#[test]
fn lag_is_reported_instead_of_silently_skipping_events() {
    let (sender, _) = broadcast::channel(1);
    let events = EvalEvents::new(sender.clone());
    let mut subscriber = events.subscribe();

    sender.send(Arc::new(event(1))).unwrap();
    sender.send(Arc::new(event(2))).unwrap();

    assert!(matches!(
        receive(&mut subscriber),
        Err(EvalEventStreamError::Lagged { missed: 1 })
    ));
    assert_eq!(receive(&mut subscriber).unwrap().unwrap().sequence, 2);
}

#[test]
fn a_closed_run_ends_every_subscription() {
    let (sender, _) = broadcast::channel(4);
    let events = EvalEvents::new(sender.clone());
    let copy = events.clone();
    let mut stream = copy.subscribe();
    sender.send(Arc::new(event(7))).unwrap();
    drop(sender);
    drop(events);
    drop(copy);

    assert_eq!(receive(&mut stream).unwrap().unwrap().sequence, 7);
    assert_eq!(receive(&mut stream), Ok(None));
}

#[test]
fn lag_says_how_many_events_were_missed() {
    assert_eq!(
        EvalEventStreamError::Lagged { missed: 120 }.message(),
        "event subscriber fell behind and missed 120 events"
    );
}

#[test]
fn failures_have_exception_classes() {
    let classes = [
        (EvalFailureKind::AgentSafetyRefusal, "AgentSafetyRefusalError"),
        (EvalFailureKind::AgentAuthentication, "AgentAuthenticationError"),
        (EvalFailureKind::AgentTimeout, "AgentTimeoutError"),
        (EvalFailureKind::VerifierTimeout, "VerifierTimeoutError"),
        (EvalFailureKind::Agent, "AgentError"),
        (EvalFailureKind::Verifier, "VerifierError"),
        (EvalFailureKind::Environment, "EnvironmentError"),
        (EvalFailureKind::Internal, "NanocodexEvalError"),
    ];
    for (kind, class) in classes {
        assert_eq!(kind.harbor_exception_type(), class);
    }
}

fn task(name: &str) -> Task {
    let timeout = Timeout {
        seconds: 60,
        nanoseconds: 0,
    };
    Task {
        name: name.to_owned(),
        description: String::new(),
        root: HostPath::from_text("/tasks"),
        environment_directory: HostPath::from_text("/tasks/environment"),
        prompt: String::new(),
        image: String::new(),
        agent_timeout: timeout,
        verifier: Verifier {
            script: HostPath::from_text("/tasks/tests/test.sh"),
            timeout,
            environment: BTreeMap::new(),
            environment_mode: VerifierEnvironmentMode::Separate,
            collect: Vec::new(),
        },
        artifacts: Vec::new(),
        resources: Resources {
            cpus: 1,
            memory_mb: 1,
            storage_mb: 1,
            gpus: 0,
        },
        network: String::new(),
        environment: BTreeMap::new(),
        requires_compose: false,
    }
}

fn artifacts() -> EvalArtifacts {
    EvalArtifacts {
        directory: HostPath::from_text("/a"),
        workspace: HostPath::from_text("/a/w"),
        verifier_output: HostPath::from_text("/a/v"),
    }
}

const NOW: Timestamp = Timestamp {
    seconds: 1,
    nanoseconds: 2,
};

fn result(name: &str) -> EvalResult {
    let phase = PhaseTiming {
        started_at: NOW,
        finished_at: NOW,
    };
    let metadata = AgentMetadata {
        status: AgentStatus::Completed,
        model: "m".to_owned(),
        effort: "e".to_owned(),
        transport: "t".to_owned(),
        orchestration: "o".to_owned(),
        duration_ms: 0,
        duration_ns: 0,
        model_calls: 0,
        steers: 0,
        compactions: 0,
        tool_calls: 0,
        connection_attempts: 0,
        websocket_reconnects: 0,
        response_attempts: 0,
        response_retries: 0,
        connection_duration_ns: 0,
        retry_backoff_duration_ns: 0,
        model_duration_ns: 0,
        warmup_duration_ns: 0,
        tool_work_duration_ns: 0,
        tool_wall_duration_ns: 0,
        usage: UsageTotals::default(),
        warmup_usage: UsageTotals::default(),
        last_response_id: None,
        cost_usd: None,
        cost_status: "unpriced".to_owned(),
    };
    EvalResult {
        attempt_id: uuid::Uuid::nil(),
        task_name: name.to_owned(),
        trial_name: format!("{name}__trial"),
        status: EvalStatus::Passed,
        agent: AgentResult {
            final_message: "done".to_owned(),
            model: "m".to_owned(),
            effort: "e".to_owned(),
            model_calls: 1,
            tool_calls: 2,
            usage: UsageTotals::default(),
            cost_usd: None,
            metadata,
        },
        verifier: VerifierResult {
            exit_code: 0,
            rewards: BTreeMap::from([(
                "reward".to_owned(),
                DoubleBits {
                    bits: 1.0_f64.to_bits(),
                },
            )]),
        },
        timing: EvalTiming {
            started_at: NOW,
            finished_at: NOW,
            environment_setup: phase.clone(),
            agent_setup: phase.clone(),
            agent_execution: phase.clone(),
            verifier: phase,
        },
        artifacts: artifacts(),
        task: task(name),
    }
}

#[test]
fn usage_starts_at_nothing() {
    let usage = UsageTotals::default();
    assert_eq!(usage.input_tokens, 0);
    assert_eq!(usage.total_tokens, 0);
    assert_eq!(usage.reasoning_output_tokens, 0);
}

#[test]
fn results_know_their_task() {
    assert_eq!(*result("a").task(), task("a"));
    let failure = EvalFailure {
        attempt_id: uuid::Uuid::nil(),
        task_name: "b".to_owned(),
        trial_name: "b__trial".to_owned(),
        kind: EvalFailureKind::Agent,
        message: "m".to_owned(),
        traceback: "t".to_owned(),
        model: "m".to_owned(),
        effort: "e".to_owned(),
        started_at: NOW,
        occurred_at: NOW,
        artifacts: artifacts(),
        task: task("b"),
    };
    assert_eq!(*failure.task(), task("b"));
}

#[test]
fn sweeps_keep_their_order() {
    let attempt = |name: &str, trial: u16| {
        let agent = AgentId {
            name: "agent".to_owned(),
        };
        SweepAttemptResult::new(agent, trial, result(name))
    };
    let sweep = SweepResults::new(
        vec![attempt("first", 1), attempt("second", 1), attempt("second", 2)],
        4,
    );
    assert_eq!(sweep.skipped(), 4);
    assert_eq!(sweep.attempts().len(), 3);
    assert_eq!(sweep.attempts()[1].task_name(), "second");
    assert_eq!(sweep.attempts()[2].trial(), 2);
    assert_eq!(sweep.attempts()[0].agent().name, "agent");
    assert_eq!(*sweep.attempts()[0].result(), result("first"));
    assert_eq!(sweep.attempts()[0].clone().into_result(), result("first"));
    let names: Vec<String> = sweep
        .into_results()
        .into_iter()
        .map(|result| result.task_name)
        .collect();
    assert_eq!(names, ["first", "second", "second"]);
}
