//! Results of evaluation attempts.
use std::collections::BTreeMap;
use vstd::prelude::*;

use crate::path::HostPath;
use crate::task::Task;

verus! {

/// The identifier type of `uuid`, carried as it is.
#[verifier::external_type_specification]
#[verifier::external_body]
pub struct ExUuid(uuid::Uuid);

/// `Uuid::clone` returns the same identifier: the type is `Copy`, and its
/// `Clone` is derived.
pub assume_specification[ <uuid::Uuid as Clone>::clone ](id: &uuid::Uuid) -> (copy: uuid::Uuid)
    ensures
        copy == *id,
;

/// Terminal score classification for one attempt.
#[derive(Clone, Copy, Debug, PartialEq, Eq, Structural)]
pub enum EvalStatus {
    /// Every verifier reward was positive.
    Passed,
    /// At least one verifier reward was zero or negative.
    Failed,
}

/// Stable classification for an attempt that could not produce a score.
#[derive(Clone, Copy, Debug, PartialEq, Eq, Structural)]
pub enum EvalFailureKind {
    /// The model provider rejected the attempt for a safety policy.
    AgentSafetyRefusal,
    /// Agent authentication failed.
    AgentAuthentication,
    /// Agent execution exceeded the task deadline.
    AgentTimeout,
    /// Verifier execution exceeded its deadline.
    VerifierTimeout,
    /// Agent setup or execution failed.
    Agent,
    /// Verifier setup or execution failed.
    Verifier,
    /// Attempt workspace or environment setup failed.
    Environment,
    /// The evaluation runtime violated an internal invariant.
    Internal,
}

/// A moment in UTC: whole seconds since the Unix epoch, and nanoseconds past
/// that second.
#[derive(Clone, Copy, Debug, PartialEq, Eq, Structural)]
pub struct Timestamp {
    pub seconds: i64,
    pub nanoseconds: u32,
}

/// A floating-point number, as the bits of its IEEE 754 double encoding.
#[derive(Clone, Copy, Debug, PartialEq, Eq, Structural)]
pub struct DoubleBits {
    pub bits: u64,
}

/// Identity of an agent recipe, chosen by the caller.
#[derive(Clone, Debug, PartialEq, Eq)]
pub struct AgentId {
    pub name: String,
}

/// Typed terminal output for an errored or refused attempt.
#[derive(Clone, Debug, PartialEq, Eq)]
pub struct EvalFailure {
    /// Identity shared with the attempt's agent session.
    pub attempt_id: uuid::Uuid,
    /// Stable task name from the task manifest.
    pub task_name: String,
    /// Filesystem-safe unique trial name.
    pub trial_name: String,
    /// Stable failure classification.
    pub kind: EvalFailureKind,
    /// Human-readable error message.
    pub message: String,
    /// Complete formatted error chain.
    pub traceback: String,
    /// Model selected for the failed attempt.
    pub model: String,
    /// Reasoning effort selected for the failed attempt.
    pub effort: String,
    /// Time at which the attempt began.
    pub started_at: Timestamp,
    /// Time at which the failure was classified.
    pub occurred_at: Timestamp,
    /// Retained attempt artifact paths.
    pub artifacts: EvalArtifacts,
    /// Task that was attempted.
    pub task: Task,
}

/// Typed result of an attempt.
#[derive(Clone, Debug, PartialEq, Eq)]
pub struct EvalResult {
    /// Identity shared with the attempt's agent session.
    pub attempt_id: uuid::Uuid,
    /// Stable task name from the task manifest.
    pub task_name: String,
    /// Filesystem-safe unique trial name.
    pub trial_name: String,
    /// Verifier-derived pass/fail classification.
    pub status: EvalStatus,
    /// Typed terminal agent output and usage.
    pub agent: AgentResult,
    /// Verifier exit code and component rewards.
    pub verifier: VerifierResult,
    /// Attempt phase timestamps.
    pub timing: EvalTiming,
    /// Retained attempt artifact paths.
    pub artifacts: EvalArtifacts,
    /// Task that was attempted.
    pub task: Task,
}

/// Terminal agent output and aggregate runtime metadata.
#[derive(Clone, Debug, PartialEq, Eq)]
pub struct AgentResult {
    /// Final assistant message.
    pub final_message: String,
    /// Model that produced the terminal result.
    pub model: String,
    /// Reasoning effort used by the agent.
    pub effort: String,
    /// Logical model-call count.
    pub model_calls: u32,
    /// Tool-call count.
    pub tool_calls: u32,
    /// Aggregate provider usage, excluding warmup.
    pub usage: UsageTotals,
    /// Estimated aggregate USD cost when pricing was configured.
    pub cost_usd: Option<DoubleBits>,
    /// Complete typed terminal event metadata.
    pub metadata: AgentMetadata,
}

/// Typed metadata emitted by the agent's terminal event.
#[derive(Clone, Debug, PartialEq, Eq)]
pub struct AgentMetadata {
    /// Agent lifecycle terminal status.
    pub status: AgentStatus,
    /// Selected model.
    pub model: String,
    /// Selected reasoning effort.
    pub effort: String,
    /// Responses transport spelling.
    pub transport: String,
    /// Agent orchestration spelling.
    pub orchestration: String,
    /// Millisecond duration retained for JSONL compatibility.
    pub duration_ms: u64,
    /// Exact measured duration in nanoseconds.
    pub duration_ns: u64,
    /// Logical model calls.
    pub model_calls: u32,
    /// Steering messages accepted during the attempt.
    pub steers: u32,
    /// Context compactions completed during the attempt.
    pub compactions: u32,
    /// Tool calls executed during the attempt.
    pub tool_calls: u32,
    /// Responses connection attempts.
    pub connection_attempts: u32,
    /// Successful WebSocket replacements.
    pub websocket_reconnects: u32,
    /// Complete Responses transport attempts.
    pub response_attempts: u32,
    /// Retried Responses attempts.
    pub response_retries: u32,
    /// Time spent connecting to the Responses API.
    pub connection_duration_ns: u64,
    /// Time spent in owned retry backoff.
    pub retry_backoff_duration_ns: u64,
    /// Time spent waiting on model calls.
    pub model_duration_ns: u64,
    /// Time spent priming the prompt cache.
    pub warmup_duration_ns: u64,
    /// Sum of actual tool execution time.
    pub tool_work_duration_ns: u64,
    /// Tool wall time including overlap and scheduling.
    pub tool_wall_duration_ns: u64,
    /// Aggregate provider usage for task execution.
    pub usage: UsageTotals,
    /// Provider usage consumed by cache warmup.
    pub warmup_usage: UsageTotals,
    /// Last response identifier, which is read but never written out.
    pub last_response_id: Option<String>,
    /// Estimated USD cost when a pricing snapshot was configured.
    pub cost_usd: Option<DoubleBits>,
    /// Stable explanation of whether cost is available.
    pub cost_status: String,
}

/// Terminal state reported by the agent lifecycle.
#[derive(Clone, Copy, Debug, PartialEq, Eq, Structural)]
pub enum AgentStatus {
    /// The agent completed normally.
    Completed,
    /// The agent failed.
    Failed,
    /// The attempt was cancelled.
    Cancelled,
}

/// Aggregate provider token usage.
#[derive(Clone, Debug, PartialEq, Eq, Structural)]
pub struct UsageTotals {
    /// Total input tokens.
    pub input_tokens: u64,
    /// Input tokens served from provider cache.
    pub cached_input_tokens: u64,
    /// Provider-reported cache-write input tokens.
    pub cache_write_input_tokens: u64,
    /// Total output tokens.
    pub output_tokens: u64,
    /// Provider-reported reasoning output tokens.
    pub reasoning_output_tokens: u64,
    /// Total input plus output tokens.
    pub total_tokens: u64,
}

impl Default for UsageTotals {
    /// No usage at all.
    fn default() -> (usage: UsageTotals)
        ensures
            usage == (UsageTotals {
                input_tokens: 0,
                cached_input_tokens: 0,
                cache_write_input_tokens: 0,
                output_tokens: 0,
                reasoning_output_tokens: 0,
                total_tokens: 0,
            }),
    {
        UsageTotals {
            input_tokens: 0,
            cached_input_tokens: 0,
            cache_write_input_tokens: 0,
            output_tokens: 0,
            reasoning_output_tokens: 0,
            total_tokens: 0,
        }
    }
}

/// Terminal output from the task verifier.
#[derive(Clone, Debug, PartialEq, Eq)]
pub struct VerifierResult {
    /// Process exit code.
    pub exit_code: i32,
    /// Named verifier rewards in deterministic key order.
    pub rewards: BTreeMap<String, DoubleBits>,
}

/// Wall-clock boundaries for each attempt phase.
#[derive(Clone, Debug, PartialEq, Eq, Structural)]
pub struct EvalTiming {
    /// Time at which attempt setup began.
    pub started_at: Timestamp,
    /// Time at which the terminal result became durable.
    pub finished_at: Timestamp,
    /// Disposable environment preparation interval.
    pub environment_setup: PhaseTiming,
    /// Agent construction interval.
    pub agent_setup: PhaseTiming,
    /// Agent execution interval.
    pub agent_execution: PhaseTiming,
    /// Verifier execution interval.
    pub verifier: PhaseTiming,
}

/// UTC start and finish timestamps for one attempt phase.
#[derive(Clone, Debug, PartialEq, Eq, Structural)]
pub struct PhaseTiming {
    /// Phase start.
    pub started_at: Timestamp,
    /// Phase finish.
    pub finished_at: Timestamp,
}

/// Durable paths retained for an attempt.
#[derive(Clone, Debug, PartialEq, Eq)]
pub struct EvalArtifacts {
    /// Attempt root containing all retained files.
    pub directory: HostPath,
    /// Disposable workspace presented to the agent.
    pub workspace: HostPath,
    /// Captured verifier output file.
    pub verifier_output: HostPath,
}

impl EvalFailureKind {
    /// Harbor's exception class for this terminal failure.
    pub fn harbor_exception_type(self) -> (class: &'static str)
        ensures
            class@ == match self {
                EvalFailureKind::AgentSafetyRefusal => "AgentSafetyRefusalError"@,
                EvalFailureKind::AgentAuthentication => "AgentAuthenticationError"@,
                EvalFailureKind::AgentTimeout => "AgentTimeoutError"@,
                EvalFailureKind::VerifierTimeout => "VerifierTimeoutError"@,
                EvalFailureKind::Agent => "AgentError"@,
                EvalFailureKind::Verifier => "VerifierError"@,
                EvalFailureKind::Environment => "EnvironmentError"@,
                EvalFailureKind::Internal => "NanocodexEvalError"@,
            },
    {
        match self {
            EvalFailureKind::AgentSafetyRefusal => "AgentSafetyRefusalError",
            EvalFailureKind::AgentAuthentication => "AgentAuthenticationError",
            EvalFailureKind::AgentTimeout => "AgentTimeoutError",
            EvalFailureKind::VerifierTimeout => "VerifierTimeoutError",
            EvalFailureKind::Agent => "AgentError",
            EvalFailureKind::Verifier => "VerifierError",
            EvalFailureKind::Environment => "EnvironmentError",
            EvalFailureKind::Internal => "NanocodexEvalError",
        }
    }
}

impl EvalResult {
    /// The immutable task definition used by this attempt.
    pub fn task(&self) -> (task: &Task)
        ensures
            *task == self.task,
    {
        &self.task
    }
}

impl EvalFailure {
    /// The immutable task definition used by this attempt.
    pub fn task(&self) -> (task: &Task)
        ensures
            *task == self.task,
    {
        &self.task
    }
}

/// One self-identifying result of a sweep.
#[derive(Clone, Debug, PartialEq, Eq)]
pub struct SweepAttemptResult {
    agent: AgentId,
    trial: u16,
    result: EvalResult,
}

/// What a sweep's result says: which agent, which trial, and what came out.
pub struct AttemptView {
    pub agent: AgentId,
    pub trial: u16,
    pub result: EvalResult,
}

impl View for SweepAttemptResult {
    type V = AttemptView;

    closed spec fn view(&self) -> AttemptView {
        AttemptView { agent: self.agent, trial: self.trial, result: self.result }
    }
}

impl SweepAttemptResult {
    /// The result of one trial of one agent.
    pub fn new(agent: AgentId, trial: u16, result: EvalResult) -> (attempt: SweepAttemptResult)
        ensures
            attempt@ == (AttemptView { agent, trial, result }),
    {
        SweepAttemptResult { agent, trial, result }
    }

    /// Returns the task name for this coordinate.
    pub fn task_name(&self) -> (name: &str)
        ensures
            name@ == self@.result.task_name@,
    {
        self.result.task_name.as_str()
    }

    /// Returns the caller-defined agent recipe identity.
    pub fn agent(&self) -> (agent: &AgentId)
        ensures
            *agent == self@.agent,
    {
        &self.agent
    }

    /// Returns the one-based trial number.
    pub fn trial(&self) -> (trial: u16)
        ensures
            trial == self@.trial,
    {
        self.trial
    }

    /// Returns the typed attempt result.
    pub fn result(&self) -> (result: &EvalResult)
        ensures
            *result == self@.result,
    {
        &self.result
    }

    /// Consumes the coordinate wrapper and returns its attempt result.
    pub fn into_result(self) -> (result: EvalResult)
        ensures
            result == self@.result,
    {
        self.result
    }
}

/// Results from an advanced task-by-agent-by-trial sweep.
#[derive(Clone, Debug, PartialEq, Eq)]
pub struct SweepResults {
    attempts: Vec<SweepAttemptResult>,
    skipped: usize,
}

/// What a sweep's results say: the attempts in order, and how many were skipped.
pub struct SweepView {
    pub attempts: Seq<SweepAttemptResult>,
    pub skipped: usize,
}

impl View for SweepResults {
    type V = SweepView;

    closed spec fn view(&self) -> SweepView {
        SweepView { attempts: self.attempts@, skipped: self.skipped }
    }
}

/// The results of the attempts, in the order of the attempts.
pub open spec fn bare_results(attempts: Seq<SweepAttemptResult>) -> Seq<EvalResult> {
    attempts.map_values(|attempt: SweepAttemptResult| attempt@.result)
}

impl SweepResults {
    /// The results of a sweep that skipped `skipped` completed attempts.
    pub fn new(attempts: Vec<SweepAttemptResult>, skipped: usize) -> (sweep: SweepResults)
        ensures
            sweep@ == (SweepView { attempts: attempts@, skipped }),
    {
        SweepResults { attempts, skipped }
    }

    /// Returns attempts in the order in which they were given.
    pub fn attempts(&self) -> (attempts: &[SweepAttemptResult])
        ensures
            attempts@ == self@.attempts,
    {
        self.attempts.as_slice()
    }

    /// Returns the number of already-completed attempts skipped while resuming.
    pub fn skipped(&self) -> (skipped: usize)
        ensures
            skipped == self@.skipped,
    {
        self.skipped
    }

    /// Consumes the sweep and discards its coordinate wrappers: every attempt
    /// gives one result, in the same order.
    pub fn into_results(self) -> (results: Vec<EvalResult>)
        ensures
            results@ == bare_results(self@.attempts),
    {
        let mut rest = self.attempts;
        let mut reversed: Vec<EvalResult> = Vec::new();
        let ghost all = rest@;
        while rest.len() > 0
            invariant
                rest@.len() + reversed@.len() == all.len(),
                rest@ == all.take(rest@.len() as int),
                forall|i: int|
                    0 <= i < reversed@.len() ==> #[trigger] reversed@[i] == all[all.len() - 1 - i]@.result,
            decreases rest@.len(),
        {
            if let Some(attempt) = rest.pop() {
                reversed.push(attempt.into_result());
            }
        }
        let mut results: Vec<EvalResult> = Vec::new();
        while reversed.len() > 0
            invariant
                results@.len() + reversed@.len() == all.len(),
                forall|i: int|
                    0 <= i < reversed@.len() ==> #[trigger] reversed@[i] == all[all.len() - 1 - i]@.result,
                forall|i: int|
                    0 <= i < results@.len() ==> #[trigger] results@[i] == all[i]@.result,
            decreases reversed@.len(),
        {
            if let Some(result) = reversed.pop() {
                results.push(result);
            }
        }
        assert(results@ =~= bare_results(all));
        results
    }
}

} // verus!
