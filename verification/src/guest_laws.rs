//! What the guest tool server does with frames and requests.
use vstd::multiset::*;
use vstd::prelude::*;
use vstd::string::*;

use crate::frame::{
    encode_frame, first_frame, json_text, response_frame, FrameFault, FrameReader, FrameStep,
    Reading,
};
use crate::guest_error::{shows, VmGuestError};
use crate::protocol::{CancelRequest, SessionRequest, SessionResponse, ShutdownRequest};
use crate::session::{
    after, allowed, dispatch, fresh, taken, tool_response, Joined, Session, SessionAction,
    SessionEvent, SessionView, Work,
};
use crate::text::{decimal, lemma_first_index};

verus! {

broadcast use group_multiset_axioms;

/// Whether an input is a line without a newline in it, a newline and a rest, and a
/// frame is that line without one carriage return at its end.
pub open spec fn starts_with_line(
    input: Seq<u8>,
    line: Seq<u8>,
    frame: Seq<u8>,
    rest: Seq<u8>,
) -> bool {
    &&& input == line + seq![10u8] + rest
    &&& !line.contains(10)
    &&& line.len() <= 67108864
    &&& frame == line && !(line.len() > 0 && line.last() == 13) || line == frame.push(13)
}

/// An input ends between frames exactly when it is empty. A frame is the line that
/// the input starts with, without one carriage return at its end, and the rest
/// follows its newline. A line that does not end is a fault, and so is one of more
/// than 64 MiB.
pub proof fn law_frames_are_lines(input: Seq<u8>) -> (line: Seq<u8>)
    ensures
        first_frame(input) is EndOfInput <==> input.len() == 0,
        first_frame(input) matches Reading::Frame { frame, rest } ==> starts_with_line(
            input,
            line,
            frame,
            rest,
        ),
        first_frame(input) == Reading::Fault(FrameFault::Closed) <==> 0 < input.len() <= 67108864
            && !input.contains(10),
        first_frame(input) == Reading::Fault(FrameFault::TooLarge) <==> input.len() > 67108864
            && forall|i: int| 0 <= i <= 67108864 ==> #[trigger] input[i] != 10,
{
    lemma_first_index(input, 10u8);
    let at = crate::text::first_index(input, 10u8);
    let line = input.take(at);
    if at < input.len() {
        let rest = input.skip(at + 1);
        assert(input =~= line + seq![10u8] + rest);
        assert(!line.contains(10u8));
        if line.len() > 0 && line.last() == 13 {
            assert(line =~= line.drop_last().push(13));
        }
        assert(input[at] == 10);
    }
    line
}

/// A carriage return before the newline is not part of a frame.
pub proof fn law_carriage_return_is_dropped(encoded: Seq<u8>, rest: Seq<u8>)
    requires
        encoded.len() < 67108864,
        !encoded.contains(10),
    ensures
        first_frame(encoded + seq![13u8, 10u8] + rest) == (Reading::Frame { frame: encoded, rest }),
{
    let input = encoded + seq![13u8, 10u8] + rest;
    assert forall|i: int| 0 <= i <= encoded.len() implies input[i] != 10 by {
        if i < encoded.len() {
            assert(input[i] == encoded[i]);
        }
    }
    crate::text::lemma_first_index_unique(input, 10u8, encoded.len() as int + 1);
    assert(input.take(encoded.len() as int + 1) =~= encoded.push(13));
    assert(encoded.push(13).drop_last() =~= encoded);
    assert(input.skip(encoded.len() as int + 2) =~= rest);
}

/// A response is written as its encoding and a newline, exactly when the encoding
/// has at most 64 MiB.
pub proof fn law_responses_are_written_as_lines(
    encoded: Vec<u8>,
    framed: Result<Vec<u8>, VmGuestError>,
    value: &serde_json::Value,
    written: Result<Vec<u8>, VmGuestError>,
)
    requires
        call_ensures(response_frame, (encoded,), framed),
        call_ensures(encode_frame, (value,), written),
    ensures
        framed is Ok <==> encoded@.len() <= 67108864,
        framed matches Ok(frame) ==> frame@ == encoded@ + seq![10u8],
        framed matches Err(error) ==> error is FrameTooLarge,
        written is Ok <==> json_text(*value).len() <= 67108864,
        written matches Ok(frame) ==> frame@ == json_text(*value) + seq![10u8],
        written matches Err(error) ==> error is FrameTooLarge,
{
    assert(encoded@.push(10u8) =~= encoded@ + seq![10u8]);
    assert(json_text(*value).push(10u8) =~= json_text(*value) + seq![10u8]);
}

/// The number that the host sent along with a request.
pub open spec fn sent_number(request: SessionRequest) -> u64 {
    match request {
        SessionRequest::Ready(ready) => ready.id,
        SessionRequest::Tool(tool) => tool.id,
        SessionRequest::WriteFile(write) => write.id,
        SessionRequest::ReadFile(read) => read.id,
        SessionRequest::Execute(execute) => execute.id,
        SessionRequest::Cancel(cancel) => cancel.id,
        SessionRequest::Shutdown(shutdown) => shutdown.id,
    }
}

/// A request goes by the number that the host sent along with it, whatever it asks
/// for, and a response by the number that is sent back.
pub proof fn law_requests_go_by_their_numbers(
    request: SessionRequest,
    id: u64,
    response: SessionResponse,
    answered: u64,
)
    requires
        call_ensures(SessionRequest::id, (&request,), id),
        call_ensures(SessionResponse::id, (&response,), answered),
    ensures
        id == request.identifier(),
        answered == response.identifier(),
        request matches SessionRequest::Ready(sent) ==> id == sent.id,
        request matches SessionRequest::Tool(sent) ==> id == sent.id,
        request matches SessionRequest::WriteFile(sent) ==> id == sent.id,
        request matches SessionRequest::ReadFile(sent) ==> id == sent.id,
        request matches SessionRequest::Execute(sent) ==> id == sent.id,
        request matches SessionRequest::Cancel(sent) ==> id == sent.id,
        request matches SessionRequest::Shutdown(sent) ==> id == sent.id,
        response matches SessionResponse::Ready(sent) ==> answered == sent.id,
        response matches SessionResponse::Tool(sent) ==> answered == sent.id,
        response matches SessionResponse::WriteFile(sent) ==> answered == sent.id,
        response matches SessionResponse::ReadFile(sent) ==> answered == sent.id,
        response matches SessionResponse::Execute(sent) ==> answered == sent.id,
        response matches SessionResponse::Cancel(sent) ==> answered == sent.id,
        response matches SessionResponse::Shutdown(sent) ==> answered == sent.id,
{
}

/// A request to run something is started, as it is and under its number, exactly
/// when no request of that number is active; otherwise the session ends with an
/// error that names the number.
pub proof fn law_requests_are_started_under_their_numbers<T>(
    session: SessionView<T>,
    request: SessionRequest,
)
    requires
        !(request is Cancel),
        !(request is Shutdown),
    ensures
        if session.active.contains_key(sent_number(request)) {
            taken(session, request) == Err::<SessionAction<T>, VmGuestError>(
                VmGuestError::DuplicateRequestId(sent_number(request)),
            )
        } else {
            taken(session, request) == Ok::<SessionAction<T>, VmGuestError>(
                SessionAction::Start { id: sent_number(request), request },
            )
        },
{
}

/// A request to cancel is acknowledged under its own number, without an error, and
/// aborts the task that runs under the number it names, if one does. A request to
/// shut down stops the session.
pub proof fn law_control_requests_are_answered<T>(
    session: SessionView<T>,
    cancel: CancelRequest,
    shutdown: ShutdownRequest,
)
    ensures
        match taken(session, SessionRequest::Cancel(cancel)) {
            Ok(SessionAction::Acknowledge { abort, response: SessionResponse::Cancel(control) }) => {
                &&& control.id == cancel.id
                &&& control.error is None
                &&& abort is Some <==> session.active.contains_key(cancel.target_id)
                &&& abort matches Some(task) ==> task == session.active[cancel.target_id]
            },
            _ => false,
        },
        taken(session, SessionRequest::Shutdown(shutdown)) == Ok::<SessionAction<T>, VmGuestError>(
            SessionAction::Stop,
        ),
{
}

/// Requests with different numbers run side by side: once one has started, the
/// other can still be started, each can be cancelled by its number, and neither
/// number can be used again before its request has ended.
pub proof fn law_requests_run_side_by_side<T>(
    session: SessionView<T>,
    one: SessionRequest,
    first: T,
    other: SessionRequest,
    again: SessionRequest,
    cancel: CancelRequest,
)
    requires
        !(one is Cancel) && !(one is Shutdown),
        !(other is Cancel) && !(other is Shutdown),
        !(again is Cancel) && !(again is Shutdown),
        sent_number(one) != sent_number(other),
        sent_number(again) == sent_number(one),
        !session.active.contains_key(sent_number(one)),
        !session.active.contains_key(sent_number(other)),
    ensures
        ({
            let took = after(session, SessionEvent::Took(one));
            let running = after(took, SessionEvent::Started(sent_number(one), first));
            &&& took.starting == Some(sent_number(one))
            &&& taken(running, other) == Ok::<SessionAction<T>, VmGuestError>(
                SessionAction::Start { id: sent_number(other), request: other },
            )
            &&& taken(running, again) == Err::<SessionAction<T>, VmGuestError>(
                VmGuestError::DuplicateRequestId(sent_number(one)),
            )
            &&& cancel.target_id == sent_number(one) ==> (taken(
                running,
                SessionRequest::Cancel(cancel),
            ) matches Ok(SessionAction::Acknowledge { abort, .. }) && abort == Some(first))
            &&& taken(after(running, SessionEvent::Completed(sent_number(one))), again) == Ok::<
                SessionAction<T>,
                VmGuestError,
            >(SessionAction::Start { id: sent_number(one), request: again })
        }),
{
}

/// A session starts empty and reads. It reads as long as it accepts and fewer than
/// 64 requests are under way, and goes on as long as it accepts or any is.
pub proof fn law_sessions_read_and_run<T>(session: SessionView<T>)
    ensures
        session.reading() <==> session.accepting && session.pending.len() < 64,
        session.running() <==> session.accepting || session.pending.len() > 0,
        fresh::<T>().reading(),
        fresh::<T>().active == Map::<u64, T>::empty(),
        fresh::<T>().pending.len() == 0,
        fresh::<T>().shutdown is None,
        fresh::<T>().starting is None,
{
}

/// What an event changes, and that it changes nothing else.
pub proof fn law_events_change_a_session<T>(session: SessionView<T>, id: u64, task: T, other: u64)
    ensures
        ({
            let started = after(session, SessionEvent::Started(id, task));
            &&& started.active.contains_key(id) && started.active[id] == task
            &&& other != id ==> started.active.contains_key(other) == session.active.contains_key(
                other,
            )
            &&& other != id && session.active.contains_key(other) ==> started.active[other]
                == session.active[other]
            &&& started.pending.count(id) == session.pending.count(id) + 1
            &&& other != id ==> started.pending.count(other) == session.pending.count(other)
            &&& started.pending.len() == session.pending.len() + 1
            &&& started.starting is None
            &&& started.accepting == session.accepting
            &&& started.shutdown == session.shutdown
        }),
        session.pending.count(id) > 0 ==> {
            let completed = after(session, SessionEvent::<T>::Completed(id));
            let aborted = after(session, SessionEvent::<T>::Aborted(id));
            &&& !completed.active.contains_key(id)
            &&& other != id ==> completed.active.contains_key(other)
                == session.active.contains_key(other)
            &&& other != id && session.active.contains_key(other) ==> completed.active[other]
                == session.active[other]
            &&& aborted.active == session.active
            &&& completed.pending == aborted.pending
            &&& completed.pending.count(id) == session.pending.count(id) - 1
            &&& other != id ==> completed.pending.count(other) == session.pending.count(other)
            &&& completed.pending.len() == session.pending.len() - 1
            &&& completed.accepting == session.accepting && aborted.accepting == session.accepting
            &&& completed.shutdown == session.shutdown && aborted.shutdown == session.shutdown
            &&& completed.starting == session.starting && aborted.starting == session.starting
        },
{
}

/// The end of the input and a request to shut down stop the reading, and neither
/// touches what is under way; from a shutdown on nothing can be cancelled, and the
/// request is kept to be answered at the end.
pub proof fn law_sessions_stop<T>(session: SessionView<T>, request: ShutdownRequest)
    ensures
        ({
            let ended = after(session, SessionEvent::<T>::Ended);
            let stopped = after(
                session,
                SessionEvent::<T>::Took(SessionRequest::Shutdown(request)),
            );
            &&& !ended.reading() && !stopped.reading()
            &&& ended.pending == session.pending && stopped.pending == session.pending
            &&& ended.active == session.active
            &&& forall|id: u64| !(#[trigger] stopped.active.contains_key(id))
            &&& ended.shutdown == session.shutdown
            &&& stopped.shutdown == Some(request)
        }),
{
}

/// A driver may take what is read and close the input only while the session
/// reads and nothing is about to start; it may start only what it was told to
/// start; and it may join only what was started.
pub proof fn law_drivers_keep_to_the_session<T>(
    session: SessionView<T>,
    request: SessionRequest,
    id: u64,
    task: T,
)
    ensures
        allowed(session, SessionEvent::Took(request)) <==> session.accepting
            && session.pending.len() < 64 && session.starting is None,
        allowed(session, SessionEvent::Started(id, task)) <==> session.accepting
            && session.pending.len() < 64 && session.starting == Some(id),
        allowed(session, SessionEvent::<T>::Completed(id)) <==> session.pending.count(id) > 0,
        allowed(session, SessionEvent::<T>::Aborted(id)) <==> session.pending.count(id) > 0,
        allowed(session, SessionEvent::<T>::Ended) <==> allowed(
            session,
            SessionEvent::Took(request),
        ),
{
}

/// A started request is the work that it asks for, as it was sent; a question
/// whether the guest is ready is answered at once, under its number and without an
/// error; and the two requests that never start are refused under theirs.
pub proof fn law_work_is_what_was_asked_for(request: SessionRequest, work: Work)
    requires
        call_ensures(dispatch, (request,), work),
    ensures
        request matches SessionRequest::Tool(asked) ==> work == Work::Tool(asked),
        request matches SessionRequest::WriteFile(asked) ==> work == Work::WriteFile(asked),
        request matches SessionRequest::ReadFile(asked) ==> work == Work::ReadFile(asked),
        request matches SessionRequest::Execute(asked) ==> work == Work::Execute(asked),
        request matches SessionRequest::Ready(asked) ==> work
            matches Work::Reply(SessionResponse::Ready(reply)) && reply.id == asked.id
            && reply.error is None,
        request matches SessionRequest::Cancel(asked) ==> work
            matches Work::Reply(SessionResponse::Cancel(reply)) && reply.id == asked.id
            && reply.error is Some && reply.error->0@
            == "cancel cannot be dispatched as a concurrent request"@,
        request matches SessionRequest::Shutdown(asked) ==> work
            matches Work::Reply(SessionResponse::Shutdown(reply)) && reply.id == asked.id
            && reply.error is Some && reply.error->0@
            == "shutdown cannot be dispatched as a concurrent request"@,
{
}

/// A tool call is answered under its number, with what the tool gave or with why
/// it could not be encoded, and never with both.
pub proof fn law_tool_calls_are_answered(
    id: u64,
    execution: Result<String, String>,
    response: SessionResponse,
)
    requires
        call_ensures(tool_response, (id, execution), response),
    ensures
        response matches SessionResponse::Tool(answer) && {
            &&& answer.id == id
            &&& match execution {
                Ok(given) => answer.execution == Some(given) && answer.error is None,
                Err(reason) => answer.execution is None && answer.error == Some(reason),
            }
        },
{
}

/// What ended the server is told in words that begin with the sort of failure and
/// go on with its details.
pub proof fn law_server_failures_are_described(failure: VmGuestError, text: String)
    requires
        call_ensures(VmGuestError::message, (&failure,), text),
    ensures
        failure matches VmGuestError::Io(error) ==> shows(
            text@,
            "VM tool console I/O failed: "@,
            error,
        ),
        failure matches VmGuestError::Json(error) ==> shows(
            text@,
            "VM tool protocol JSON failed: "@,
            error,
        ),
        failure is Closed ==> text@ == "the VM tool console closed before a complete frame"@,
        failure matches VmGuestError::Task(error) ==> text@ == "guest tool execution task failed: "@
            + error@,
        failure is FrameTooLarge ==> text@ == "VM tool protocol frame exceeded the "@ + decimal(
            67108864,
        ) + "-byte limit"@,
        failure matches VmGuestError::DuplicateRequestId(id) ==> text@
            == "VM tool protocol reused active request ID "@ + decimal(id as nat),
{
}

/// What an outside error is shown by stands whole behind the words of the sort.
pub proof fn law_shown_errors_are_whole<E: core::fmt::Display>(
    text: Seq<char>,
    prefix: Seq<char>,
    error: E,
)
    ensures
        shows(text, prefix, error) <==> exists|detail: String|
            #[trigger] to_string_from_display_ensures::<E>(&error, detail) && text.len()
                == prefix.len() + detail@.len() && text.take(prefix.len() as int) == prefix
                && text.skip(prefix.len() as int) == detail@,
{
    if shows(text, prefix, error) {
        let detail = choose|detail: String|
            #[trigger] to_string_from_display_ensures::<E>(&error, detail) && text == prefix
                + detail@;
        assert(text.take(prefix.len() as int) =~= prefix);
        assert(text.skip(prefix.len() as int) =~= detail@);
    }
    if exists|detail: String|
        #[trigger] to_string_from_display_ensures::<E>(&error, detail) && text.len() == prefix.len()
            + detail@.len() && text.take(prefix.len() as int) == prefix && text.skip(
            prefix.len() as int,
        ) == detail@ {
        let detail = choose|detail: String|
            #[trigger] to_string_from_display_ensures::<E>(&error, detail) && text.len()
                == prefix.len() + detail@.len() && text.take(prefix.len() as int) == prefix
                && text.skip(prefix.len() as int) == detail@;
        assert(text =~= prefix + detail@);
    }
}

/// A reader starts without a frame. No bytes mean the end of the input: it is in
/// order between frames and a fault in the middle of one. Other bytes are taken up to
/// and with the first newline, which completes a frame without one carriage return at
/// its end, or are all kept where there is none; what would grow beyond 64 MiB is
/// refused.
pub proof fn law_readers_take_bytes(
    fresh: FrameReader,
    reader: &mut FrameReader,
    available: &[u8],
    step: Result<FrameStep, VmGuestError>,
)
    requires
        call_ensures(FrameReader::new, (), fresh),
        call_ensures(FrameReader::feed, (reader, available), step),
    ensures
        fresh@.len() == 0,
        available@.len() == 0 ==> {
            &&& final(reader)@ == old(reader)@
            &&& old(reader)@.len() == 0 ==> step is Ok && step->Ok_0 is EndOfInput
            &&& old(reader)@.len() > 0 ==> step is Err && step->Err_0 is Closed
        },
        available@.len() > 0 ==> {
            &&& step is Err <==> {
                &&& old(reader)@.len() + available@.len() > 67108864
                &&& forall|i: int|
                    0 <= i < available@.len() && old(reader)@.len() + i <= 67108864
                        ==> #[trigger] available@[i] != 10
            }
            &&& step is Err ==> step->Err_0 is FrameTooLarge && final(reader)@ == old(reader)@
            &&& step is Ok && !available@.contains(10) <==> step is Ok && step->Ok_0 is Partial
            &&& step matches Ok(FrameStep::Partial { consumed }) ==> consumed == available@.len()
                && final(reader)@ == old(reader)@ + available@
            &&& step matches Ok(FrameStep::Frame { consumed, frame }) ==> {
                let line = old(reader)@ + available@.take(consumed - 1);
                &&& 0 < consumed <= available@.len()
                &&& available@[consumed - 1] == 10
                &&& forall|i: int| 0 <= i < consumed - 1 ==> #[trigger] available@[i] != 10
                &&& frame@ == line && !(line.len() > 0 && line.last() == 13) || line
                    == frame@.push(13)
                &&& final(reader)@.len() == 0
            }
            &&& step is Ok ==> !(step->Ok_0 is EndOfInput)
        },
{
    lemma_first_index(available@, 10u8);
    let at = crate::text::first_index(available@, 10u8);
    let line = old(reader)@ + available@.take(at);
    if line.len() > 0 && line.last() == 13 {
        assert(line =~= line.drop_last().push(13));
    }
    if at < available@.len() {
        assert(available@[at] == 10);
        assert(available@.contains(10u8));
    } else {
        assert(!available@.contains(10u8));
    }
}

/// A session tells what it is at: whether it goes on, reads and can join anything, and
/// whether a number is waited for; at the end it gives the request to shut down back.
pub proof fn law_sessions_tell_what_they_are_at<T>(
    session: Session<T>,
    start: Session<T>,
    running: bool,
    reading: bool,
    joining: bool,
    id: u64,
    awaits: bool,
    request: Option<ShutdownRequest>,
)
    requires
        call_ensures(Session::<T>::new, (), start),
        call_ensures(Session::<T>::running, (&session,), running),
        call_ensures(Session::<T>::reading, (&session,), reading),
        call_ensures(Session::<T>::joining, (&session,), joining),
        call_ensures(Session::<T>::awaits, (&session, id), awaits),
        call_ensures(Session::<T>::finish, (session,), request),
    ensures
        start@.accepting && start@.shutdown is None && start@.starting is None,
        start@.active == Map::<u64, T>::empty() && start@.pending == Multiset::<u64>::empty(),
        running <==> session@.accepting || session@.pending.len() > 0,
        reading <==> session@.accepting && session@.pending.len() < 64,
        joining <==> session@.pending.len() > 0,
        awaits <==> session@.pending.count(id) > 0,
        request == session@.shutdown,
{
}

/// A request that is read changes the session, and is answered, as is said of taking
/// requests; the end of the input and a started request change it as those events do.
pub proof fn law_sessions_take_requests<T>(
    session: &mut Session<T>,
    request: SessionRequest,
    action: Result<SessionAction<T>, VmGuestError>,
)
    requires
        call_ensures(Session::<T>::take, (session, request), action),
    ensures
        action == taken(old(session)@, request),
        final(session)@ == after(old(session)@, SessionEvent::Took(request)),
        request matches SessionRequest::Cancel(cancel) ==> final(session)@ == (SessionView {
            active: old(session)@.active.remove(cancel.target_id),
            ..old(session)@
        }),
        request matches SessionRequest::Shutdown(shutdown) ==> {
            &&& final(session)@.shutdown == Some(shutdown) && !final(session)@.accepting
            &&& final(session)@.pending == old(session)@.pending
            &&& final(session)@.active == Map::<u64, T>::empty()
        },
        !(request is Cancel) && !(request is Shutdown) ==> final(session)@ == (SessionView {
            starting: if old(session)@.active.contains_key(sent_number(request)) {
                None
            } else {
                Some(sent_number(request))
            },
            ..old(session)@
        }),
{
}

/// The end of the input stops the reading and changes nothing else.
pub proof fn law_sessions_see_the_end_of_the_input<T>(session: &mut Session<T>, done: ())
    requires
        call_ensures(Session::<T>::input_ended, (session,), done),
    ensures
        final(session)@ == (SessionView { accepting: false, ..old(session)@ }),
{
}

/// A started request is active under its number and waited for.
pub proof fn law_sessions_start_requests<T>(
    session: &mut Session<T>,
    id: u64,
    task: T,
    done: (),
)
    requires
        call_ensures(Session::<T>::started, (session, id, task), done),
    ensures
        final(session)@ == (SessionView {
            active: old(session)@.active.insert(id, task),
            starting: None,
            pending: old(session)@.pending.insert(id),
            ..old(session)@
        }),
{
}

/// A response is passed on as it is and ends its request; an aborted request ends
/// without one; one that failed to run ends the session with its reason; and so does
/// a wait that found nothing, as a closed input.
pub proof fn law_sessions_join_requests<T>(
    session: &mut Session<T>,
    joined: Joined,
    response: Result<Option<SessionResponse>, VmGuestError>,
)
    requires
        call_ensures(Session::<T>::join, (session, joined), response),
    ensures
        joined matches Joined::Response(given) ==> {
            &&& response == Ok::<Option<SessionResponse>, VmGuestError>(Some(given))
            &&& final(session)@ == (SessionView {
                active: old(session)@.active.remove(given.identifier()),
                pending: old(session)@.pending.remove(given.identifier()),
                ..old(session)@
            })
        },
        joined matches Joined::Aborted(id) ==> {
            &&& response == Ok::<Option<SessionResponse>, VmGuestError>(None)
            &&& final(session)@ == (SessionView {
                pending: old(session)@.pending.remove(id),
                ..old(session)@
            })
        },
        joined matches Joined::Failed(id, error) ==> {
            &&& response == Err::<Option<SessionResponse>, VmGuestError>(VmGuestError::Task(error))
            &&& final(session)@ == (SessionView {
                pending: old(session)@.pending.remove(id),
                ..old(session)@
            })
        },
        joined is Nothing ==> {
            &&& response == Err::<Option<SessionResponse>, VmGuestError>(VmGuestError::Closed)
            &&& final(session)@ == old(session)@
        },
{
}

} // verus!
