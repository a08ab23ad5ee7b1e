//! What the results and events of evaluations say.
use std::sync::Arc;
use vstd::prelude::*;
use vstd::string::*;

use crate::event::{
    listening_channel, sending_channel, EvalEvent, EvalEventStream, EvalEventStreamError,
    EvalEvents,
};
use crate::result::{
    AgentId, EvalFailure, EvalFailureKind, EvalResult, SweepAttemptResult, SweepResults,
    UsageTotals,
};
use crate::task::Task;
use crate::text::decimal;

verus! {

/// A result of a sweep says which agent, which trial and what came out, as it was
/// told, and goes by the name of its task.
pub proof fn law_attempts_say_what_they_were_told(
    agent: AgentId,
    trial: u16,
    result: EvalResult,
    attempt: SweepAttemptResult,
    told_agent: &AgentId,
    told_trial: u16,
    told_result: &EvalResult,
    name: &str,
    bare: EvalResult,
)
    requires
        call_ensures(SweepAttemptResult::new, (agent, trial, result), attempt),
        call_ensures(SweepAttemptResult::agent, (&attempt,), told_agent),
        call_ensures(SweepAttemptResult::trial, (&attempt,), told_trial),
        call_ensures(SweepAttemptResult::result, (&attempt,), told_result),
        call_ensures(SweepAttemptResult::task_name, (&attempt,), name),
        call_ensures(SweepAttemptResult::into_result, (attempt,), bare),
    ensures
        *told_agent == agent,
        told_trial == trial,
        *told_result == result,
        name@ == result.task_name@,
        bare == result,
{
}

/// The results of a sweep hold every attempt, in order, and how many were skipped;
/// taken out of it, there is one result for each attempt, in the same order.
pub proof fn law_sweeps_keep_their_attempts(
    attempts: Vec<SweepAttemptResult>,
    skipped: usize,
    sweep: SweepResults,
    held: &[SweepAttemptResult],
    told: usize,
    results: Vec<EvalResult>,
)
    requires
        call_ensures(SweepResults::new, (attempts, skipped), sweep),
        call_ensures(SweepResults::attempts, (&sweep,), held),
        call_ensures(SweepResults::skipped, (&sweep,), told),
        call_ensures(SweepResults::into_results, (sweep,), results),
    ensures
        held@ == attempts@,
        told == skipped,
        results@.len() == attempts@.len(),
        forall|i: int, result: EvalResult|
            0 <= i < attempts@.len() && call_ensures(
                SweepAttemptResult::into_result,
                (#[trigger] attempts@[i],),
                result,
            ) ==> #[trigger] same_result(results@[i], result),
{
}

/// Whether two results are the same.
pub open spec fn same_result(one: EvalResult, other: EvalResult) -> bool {
    one == other
}

/// A result and a failure keep the task that was attempted.
pub proof fn law_results_keep_their_task(
    result: EvalResult,
    failure: EvalFailure,
    of_result: &Task,
    of_failure: &Task,
)
    requires
        call_ensures(EvalResult::task, (&result,), of_result),
        call_ensures(EvalFailure::task, (&failure,), of_failure),
    ensures
        *of_result == result.task,
        *of_failure == failure.task,
{
}

/// Each sort of failure has an exception class of its own.
pub proof fn law_failures_have_their_class(kind: EvalFailureKind, class: &'static str)
    requires
        call_ensures(EvalFailureKind::harbor_exception_type, (kind,), class),
    ensures
        kind is AgentSafetyRefusal ==> class@ == "AgentSafetyRefusalError"@,
        kind is AgentAuthentication ==> class@ == "AgentAuthenticationError"@,
        kind is AgentTimeout ==> class@ == "AgentTimeoutError"@,
        kind is VerifierTimeout ==> class@ == "VerifierTimeoutError"@,
        kind is Agent ==> class@ == "AgentError"@,
        kind is Verifier ==> class@ == "VerifierError"@,
        kind is Environment ==> class@ == "EnvironmentError"@,
        kind is Internal ==> class@ == "NanocodexEvalError"@,
{
}

/// Nothing was used where nothing is said of usage.
pub proof fn law_no_usage_is_no_tokens(usage: UsageTotals)
    requires
        call_ensures(<UsageTotals as Default>::default, (), usage),
    ensures
        usage.input_tokens == 0 && usage.cached_input_tokens == 0 && usage.cache_write_input_tokens
            == 0 && usage.output_tokens == 0 && usage.reasoning_output_tokens == 0
            && usage.total_tokens == 0,
{
}

/// A subscriber gets the event that was received, as it is; learns of the end of
/// the run as such; and learns exactly how many events it missed, in words too.
pub proof fn law_subscribers_miss_nothing_silently(
    received: Result<Arc<EvalEvent>, tokio::sync::broadcast::error::RecvError>,
    next: Result<Option<Arc<EvalEvent>>, EvalEventStreamError>,
    text: String,
)
    requires
        call_ensures(EvalEventStream::recv, (received,), next),
        next matches Err(error) ==> call_ensures(EvalEventStreamError::message, (&error,), text),
    ensures
        received matches Ok(event) ==> next == Ok::<
            Option<Arc<EvalEvent>>,
            EvalEventStreamError,
        >(Some(event)),
        received matches Err(tokio::sync::broadcast::error::RecvError::Closed) ==> next == Ok::<
            Option<Arc<EvalEvent>>,
            EvalEventStreamError,
        >(None),
        received matches Err(tokio::sync::broadcast::error::RecvError::Lagged(missed)) ==> next
            == Err::<Option<Arc<EvalEvent>>, EvalEventStreamError>(
            EvalEventStreamError::Lagged { missed },
        ) && text@ == "event subscriber fell behind and missed "@ + decimal(missed as nat)
            + " events"@,
{
}

/// Every subscription of one source, and of a copy of it, listens to the channel that
/// the source was made from, and is waited on by its own receiver.
pub proof fn law_subscriptions_share_a_channel(
    sender: tokio::sync::broadcast::Sender<Arc<EvalEvent>>,
    events: EvalEvents,
    copy: EvalEvents,
    stream: EvalEventStream,
    other: EvalEventStream,
)
    requires
        call_ensures(EvalEvents::new, (sender,), events),
        call_ensures(<EvalEvents as Clone>::clone, (&events,), copy),
        call_ensures(EvalEvents::subscribe, (&events,), stream),
        call_ensures(EvalEvents::subscribe, (&copy,), other),
    ensures
        listening_channel(stream.subscription()) == sending_channel(sender),
        listening_channel(other.subscription()) == sending_channel(sender),
{
}

/// A subscription is waited on by its own receiver, and has what is left of it.
pub proof fn law_subscriptions_are_waited_on(
    stream: &mut EvalEventStream,
    receiver: &mut tokio::sync::broadcast::Receiver<Arc<EvalEvent>>,
)
    requires
        call_ensures(EvalEventStream::receiver, (stream,), receiver),
    ensures
        *old(receiver) == old(stream).subscription(),
        final(stream).subscription() == *final(receiver),
{
}

} // verus!
