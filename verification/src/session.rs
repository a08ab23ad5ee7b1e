//! The guest tool server: which requests run, and what ends them.
//!
//! A [`Session`] decides; its driver reads frames, runs the work and writes the
//! responses. `T` is the driver's handle of a running request.
use std::collections::HashMap;

use vstd::multiset::*;
use vstd::prelude::*;
use vstd::std_specs::hash::*;
use vstd::string::*;

use crate::guest_error::VmGuestError;
use crate::protocol::{
    CancelRequest, ControlResponse, ExecuteRequest, ReadFileRequest, SessionRequest, SessionResponse,
    ShutdownRequest, ToolRequest, ToolResponse, WriteFileRequest,
};

verus! {

broadcast use {group_hash_axioms, group_multiset_axioms};

/// How many requests run at the same time at most.
pub const MAX_IN_FLIGHT_REQUESTS: usize = 64;

/// What a session has under way.
#[verifier::ext_equal]
pub struct SessionView<T> {
    /// Whether more requests are read.
    pub accepting: bool,
    /// The request to shut down, once there was one.
    pub shutdown: Option<ShutdownRequest>,
    /// The handles of the requests that can still be cancelled.
    pub active: Map<u64, T>,
    /// The identifier of a request that the driver is about to start.
    pub starting: Option<u64>,
    /// The identifiers of the requests that were started and not yet joined.
    pub pending: Multiset<u64>,
}

impl<T> SessionView<T> {
    /// How many requests were started and not yet joined.
    pub open spec fn in_flight(self) -> nat {
        self.pending.len()
    }

    /// Whether there is anything left to wait for.
    pub open spec fn running(self) -> bool {
        self.accepting || self.in_flight() > 0
    }

    /// Whether another frame may be read.
    pub open spec fn reading(self) -> bool {
        self.accepting && self.in_flight() < MAX_IN_FLIGHT_REQUESTS
    }

    /// The session when the host has closed the input.
    pub open spec fn ended(self) -> SessionView<T> {
        SessionView { accepting: false, ..self }
    }

    /// The session when it was asked to shut down.
    pub open spec fn stopped(self, request: ShutdownRequest) -> SessionView<T> {
        SessionView {
            accepting: false,
            shutdown: Some(request),
            active: Map::empty(),
            ..self
        }
    }

    /// The session without the handle of the given request.
    pub open spec fn forgetting(self, id: u64) -> SessionView<T> {
        SessionView { active: self.active.remove(id), ..self }
    }

    /// The session when the given request is to be started, unless its identifier
    /// is in use.
    pub open spec fn admitting(self, id: u64) -> SessionView<T> {
        SessionView {
            starting: if self.active.contains_key(id) {
                None
            } else {
                Some(id)
            },
            ..self
        }
    }

    /// The session after one more request was started.
    pub open spec fn with(self, id: u64, task: T) -> SessionView<T> {
        SessionView {
            active: self.active.insert(id, task),
            starting: None,
            pending: self.pending.insert(id),
            ..self
        }
    }

    /// The session after one request was joined.
    pub open spec fn joined(self, id: u64) -> SessionView<T> {
        SessionView { pending: self.pending.remove(id), ..self }
    }
}

/// The state of the guest tool server.
#[verifier::reject_recursive_types(T)]
pub struct Session<T> {
    accepting: bool,
    shutdown: Option<ShutdownRequest>,
    active: HashMap<u64, T>,
    starting: Option<u64>,
    pending: Vec<u64>,
}

/// What the driver does with a request.
pub enum SessionAction<T> {
    /// Cancel all tools, abort every request, and read no more.
    Stop,
    /// Abort the task, if there is one, and write the response.
    Acknowledge { abort: Option<T>, response: SessionResponse },
    /// Start the request and hand its handle to [`Session::started`].
    Start { id: u64, request: SessionRequest },
}

/// What became of a started request.
#[derive(Debug)]
pub enum Joined {
    /// It ended with a response.
    Response(SessionResponse),
    /// The request with this identifier was aborted.
    Aborted(u64),
    /// The request with this identifier failed to run at all.
    Failed(u64, String),
    /// Nothing was waited for.
    Nothing,
}

/// Something that happens to a session.
pub enum SessionEvent<T> {
    /// The host closed the input.
    Ended,
    /// A request was read.
    Took(SessionRequest),
    /// A request was started.
    Started(u64, T),
    /// A request was joined with its response.
    Completed(u64),
    /// A request was joined after it was aborted.
    Aborted(u64),
}

/// Whether the driver lets an event happen.
pub open spec fn allowed<T>(session: SessionView<T>, event: SessionEvent<T>) -> bool {
    match event {
        SessionEvent::Ended | SessionEvent::Took(_) => session.reading() && session.starting is None,
        SessionEvent::Started(id, _) => session.reading() && session.starting == Some(id),
        SessionEvent::Completed(id) | SessionEvent::Aborted(id) => session.pending.contains(id),
    }
}

/// The session after an event.
pub open spec fn after<T>(session: SessionView<T>, event: SessionEvent<T>) -> SessionView<T> {
    match event {
        SessionEvent::Ended => session.ended(),
        SessionEvent::Took(SessionRequest::Shutdown(request)) => session.stopped(request),
        SessionEvent::Took(SessionRequest::Cancel(request)) => session.forgetting(
            request.target_id,
        ),
        SessionEvent::Took(request) => session.admitting(request.identifier()),
        SessionEvent::Started(id, task) => session.with(id, task),
        SessionEvent::Completed(id) => session.joined(id).forgetting(id),
        SessionEvent::Aborted(id) => session.joined(id),
    }
}

/// What the driver does with a request.
pub open spec fn taken<T>(session: SessionView<T>, request: SessionRequest) -> Result<
    SessionAction<T>,
    VmGuestError,
> {
    match request {
        SessionRequest::Shutdown(_) => Ok(SessionAction::Stop),
        SessionRequest::Cancel(cancel) => Ok(
            SessionAction::Acknowledge {
                abort: if session.active.contains_key(cancel.target_id) {
                    Some(session.active[cancel.target_id])
                } else {
                    None
                },
                response: SessionResponse::Cancel(ControlResponse { id: cancel.id, error: None }),
            },
        ),
        _ => if session.active.contains_key(request.identifier()) {
            Err(VmGuestError::DuplicateRequestId(request.identifier()))
        } else {
            Ok(SessionAction::Start { id: request.identifier(), request })
        },
    }
}

impl<T> View for Session<T> {
    type V = SessionView<T>;

    closed spec fn view(&self) -> SessionView<T> {
        SessionView {
            accepting: self.accepting,
            shutdown: self.shutdown,
            active: self.active@,
            starting: self.starting,
            pending: self.pending@.to_multiset(),
        }
    }
}

impl<T> Session<T> {
    /// A session that has read nothing.
    pub fn new() -> (session: Session<T>)
        ensures
            session@ == fresh::<T>(),
    {
        let session = Session {
            accepting: true,
            shutdown: None,
            active: HashMap::new(),
            starting: None,
            pending: Vec::new(),
        };
        proof {
            session.pending@.to_multiset_ensures();
            assert(session@.pending =~= Multiset::empty());
        }
        session
    }

    /// Whether there is anything left to wait for.
    pub fn running(&self) -> (running: bool)
        ensures
            running == self@.running(),
    {
        proof {
            self.pending@.to_multiset_ensures();
        }
        self.accepting || self.pending.len() > 0
    }

    /// Whether another frame may be read.
    pub fn reading(&self) -> (reading: bool)
        ensures
            reading == self@.reading(),
    {
        proof {
            self.pending@.to_multiset_ensures();
        }
        self.accepting && self.pending.len() < MAX_IN_FLIGHT_REQUESTS
    }

    /// Whether a request can be joined.
    pub fn joining(&self) -> (joining: bool)
        ensures
            joining == (self@.in_flight() > 0),
    {
        proof {
            self.pending@.to_multiset_ensures();
        }
        self.pending.len() > 0
    }

    /// Whether a request with the given identifier was started and not yet joined.
    pub fn awaits(&self, id: u64) -> (awaits: bool)
        ensures
            awaits == self@.pending.contains(id),
    {
        proof {
            self.pending@.to_multiset_ensures();
        }
        self.place(id).is_some()
    }

    /// Where a request with the given identifier stands among those to be joined.
    fn place(&self, id: u64) -> (place: Option<usize>)
        ensures
            match place {
                Some(at) => at < self.pending@.len() && self.pending@[at as int] == id,
                None => !self.pending@.contains(id),
            },
    {
        let mut at: usize = 0;
        while at < self.pending.len()
            invariant
                at <= self.pending@.len(),
                forall|i: int| 0 <= i < at ==> self.pending@[i] != id,
            decreases self.pending@.len() - at,
        {
            if self.pending[at] == id {
                return Some(at);
            }
            at += 1;
        }
        None
    }

    /// Takes a request out of those to be joined.
    fn settle(&mut self, id: u64)
        requires
            old(self)@.pending.contains(id),
        ensures
            final(self)@ == old(self)@.joined(id),
    {
        proof {
            self.pending@.to_multiset_ensures();
        }
        if let Some(at) = self.place(id) {
            let _ = self.pending.remove(at);
        }
        assert(self@ =~= old(self)@.joined(id));
    }

    /// The host closed the input: the driver aborts every request.
    pub fn input_ended(&mut self)
        ensures
            final(self)@ == after(old(self)@, SessionEvent::Ended),
    {
        self.accepting = false;
    }

    /// Takes a request that was read.
    pub fn take(&mut self, request: SessionRequest) -> (action: Result<
        SessionAction<T>,
        VmGuestError,
    >)
        ensures
            final(self)@ == after(old(self)@, SessionEvent::Took(request)),
            action == taken(old(self)@, request),
    {
        match request {
            SessionRequest::Shutdown(shutdown) => {
                self.accepting = false;
                self.shutdown = Some(shutdown);
                self.active.clear();
                Ok(SessionAction::Stop)
            },
            SessionRequest::Cancel(cancel) => {
                let abort = self.active.remove(&cancel.target_id);
                assert(self.active@ =~= old(self)@.active.remove(cancel.target_id));
                Ok(
                    SessionAction::Acknowledge {
                        abort,
                        response: SessionResponse::Cancel(
                            ControlResponse { id: cancel.id, error: None },
                        ),
                    },
                )
            },
            request => {
                let id = request.id();
                if self.active.contains_key(&id) {
                    self.starting = None;
                    Err(VmGuestError::DuplicateRequestId(id))
                } else {
                    self.starting = Some(id);
                    Ok(SessionAction::Start { id, request })
                }
            },
        }
    }

    /// The driver has started a request; `task` is its handle.
    pub fn started(&mut self, id: u64, task: T)
        requires
            old(self)@.reading(),
            old(self)@.starting == Some(id),
        ensures
            final(self)@ == after(old(self)@, SessionEvent::Started(id, task)),
    {
        proof {
            self.pending@.to_multiset_ensures();
        }
        self.starting = None;
        self.active.insert(id, task);
        self.pending.push(id);
        assert(self@ =~= old(self)@.with(id, task));
    }

    /// Takes what became of a started request: a response is to be written, an
    /// aborted request has none, and a request that failed to run at all ends
    /// the session, as does a wait that finds nothing.
    pub fn join(&mut self, joined: Joined) -> (response: Result<
        Option<SessionResponse>,
        VmGuestError,
    >)
        requires
            match joined {
                Joined::Response(given) => old(self)@.pending.contains(given.identifier()),
                Joined::Aborted(id) | Joined::Failed(id, _) => old(self)@.pending.contains(id),
                Joined::Nothing => true,
            },
        ensures
            match joined {
                Joined::Response(given) => {
                    &&& final(self)@ == after(
                        old(self)@,
                        SessionEvent::Completed(given.identifier()),
                    )
                    &&& response == Ok::<Option<SessionResponse>, VmGuestError>(Some(given))
                },
                Joined::Aborted(id) => {
                    &&& final(self)@ == after(old(self)@, SessionEvent::Aborted(id))
                    &&& response == Ok::<Option<SessionResponse>, VmGuestError>(None)
                },
                Joined::Failed(id, error) => {
                    &&& final(self)@ == after(old(self)@, SessionEvent::Aborted(id))
                    &&& response == Err::<Option<SessionResponse>, VmGuestError>(
                        VmGuestError::Task(error),
                    )
                },
                Joined::Nothing => {
                    &&& final(self)@ == old(self)@
                    &&& response == Err::<Option<SessionResponse>, VmGuestError>(
                        VmGuestError::Closed,
                    )
                },
            },
    {
        match joined {
            Joined::Response(response) => {
                let id = response.id();
                self.settle(id);
                let _ = self.active.remove(&id);
                assert(self.active@ =~= old(self)@.active.remove(id));
                Ok(Some(response))
            },
            Joined::Aborted(id) => {
                self.settle(id);
                Ok(None)
            },
            Joined::Failed(id, error) => {
                self.settle(id);
                Err(VmGuestError::Task(error))
            },
            Joined::Nothing => Err(VmGuestError::Closed),
        }
    }

    /// The request to answer when nothing is left to wait for.
    pub fn finish(self) -> (shutdown: Option<ShutdownRequest>)
        ensures
            shutdown == self@.shutdown,
    {
        self.shutdown
    }
}

/// What one request of the host comes to, without the cancel and shutdown requests
/// that a session answers itself.
pub enum Work {
    /// The response is known at once.
    Reply(SessionResponse),
    /// Run a tool.
    Tool(ToolRequest),
    /// Write a file.
    WriteFile(WriteFileRequest),
    /// Read a file.
    ReadFile(ReadFileRequest),
    /// Run a command.
    Execute(ExecuteRequest),
}

/// Whether a response is a control response for the given request, with the given error.
pub open spec fn controls(response: ControlResponse, id: u64, error: Option<Seq<char>>) -> bool {
    &&& response.id == id
    &&& match (response.error, error) {
        (None, None) => true,
        (Some(given), Some(error)) => given@ == error,
        _ => false,
    }
}

/// What a started request asks for.
pub fn dispatch(request: SessionRequest) -> (work: Work)
    ensures
        match (request, work) {
            (
                SessionRequest::Ready(ready),
                Work::Reply(SessionResponse::Ready(response)),
            ) => controls(response, ready.id, None),
            (SessionRequest::Tool(asked), Work::Tool(given)) => asked == given,
            (SessionRequest::WriteFile(asked), Work::WriteFile(given)) => asked == given,
            (SessionRequest::ReadFile(asked), Work::ReadFile(given)) => asked == given,
            (SessionRequest::Execute(asked), Work::Execute(given)) => asked == given,
            (
                SessionRequest::Cancel(cancel),
                Work::Reply(SessionResponse::Cancel(response)),
            ) => controls(
                response,
                cancel.id,
                Some("cancel cannot be dispatched as a concurrent request"@),
            ),
            (
                SessionRequest::Shutdown(shutdown),
                Work::Reply(SessionResponse::Shutdown(response)),
            ) => controls(
                response,
                shutdown.id,
                Some("shutdown cannot be dispatched as a concurrent request"@),
            ),
            _ => false,
        },
{
    match request {
        SessionRequest::Ready(request) => Work::Reply(
            SessionResponse::Ready(ControlResponse { id: request.id, error: None }),
        ),
        SessionRequest::Tool(request) => Work::Tool(request),
        SessionRequest::WriteFile(request) => Work::WriteFile(request),
        SessionRequest::ReadFile(request) => Work::ReadFile(request),
        SessionRequest::Execute(request) => Work::Execute(request),
        SessionRequest::Cancel(request) => Work::Reply(
            SessionResponse::Cancel(
                ControlResponse {
                    id: request.id,
                    error: Some("cancel cannot be dispatched as a concurrent request".to_owned()),
                },
            ),
        ),
        SessionRequest::Shutdown(request) => Work::Reply(
            SessionResponse::Shutdown(
                ControlResponse {
                    id: request.id,
                    error: Some("shutdown cannot be dispatched as a concurrent request".to_owned()),
                },
            ),
        ),
    }
}

/// Answers a tool call with what the tool gave, or with why it could not be encoded.
pub fn tool_response(id: u64, execution: Result<String, String>) -> (response: SessionResponse)
    ensures
        response == SessionResponse::Tool(
            match execution {
                Ok(execution) => ToolResponse { id, execution: Some(execution), error: None },
                Err(error) => ToolResponse { id, execution: None, error: Some(error) },
            },
        ),
{
    SessionResponse::Tool(
        match execution {
            Ok(execution) => ToolResponse::completed(id, execution),
            Err(error) => ToolResponse::failed(id, error),
        },
    )
}

/// A session that has read nothing.
pub open spec fn fresh<T>() -> SessionView<T> {
    SessionView {
        accepting: true,
        shutdown: None,
        active: Map::empty(),
        starting: None,
        pending: Multiset::empty(),
    }
}

/// Whether a history can happen, and the session it leads to.
pub open spec fn history<T>(events: Seq<SessionEvent<T>>) -> Option<SessionView<T>>
    decreases events.len(),
{
    if events.len() == 0 {
        Some(fresh())
    } else {
        match history(events.drop_last()) {
            Some(session) if allowed(session, events.last()) => Some(
                after(session, events.last()),
            ),
            _ => None,
        }
    }
}

/// How many requests a history has started.
pub open spec fn count_started<T>(events: Seq<SessionEvent<T>>) -> nat
    decreases events.len(),
{
    if events.len() == 0 {
        0
    } else {
        count_started(events.drop_last()) + if events.last() is Started {
            1nat
        } else {
            0nat
        }
    }
}

/// How many requests a history has joined.
pub open spec fn count_joined<T>(events: Seq<SessionEvent<T>>) -> nat
    decreases events.len(),
{
    if events.len() == 0 {
        0
    } else {
        count_joined(events.drop_last()) + if events.last() is Completed || events.last()
            is Aborted {
            1nat
        } else {
            0nat
        }
    }
}

/// The last request to shut down in a history.
pub open spec fn shutdown_in<T>(events: Seq<SessionEvent<T>>) -> Option<ShutdownRequest>
    decreases events.len(),
{
    if events.len() == 0 {
        None
    } else {
        match events.last() {
            SessionEvent::Took(SessionRequest::Shutdown(request)) => Some(request),
            _ => shutdown_in(events.drop_last()),
        }
    }
}

/// In every state of a session: the number of requests under way is bounded and
/// is the number started less the number joined; a request to shut down is kept,
/// and from then on nothing is read and nothing can be cancelled any more.
pub proof fn law_session_stays_bounded<T>(events: Seq<SessionEvent<T>>)
    ensures
        history(events) matches Some(session) ==> {
            &&& session.in_flight() <= MAX_IN_FLIGHT_REQUESTS
            &&& session.in_flight() + count_joined(events) == count_started(events)
            &&& session.shutdown == shutdown_in(events)
            &&& session.shutdown is Some ==> !session.accepting && session.active
                == Map::<u64, T>::empty()
        },
    decreases events.len(),
{
    if events.len() > 0 {
        law_session_stays_bounded(events.drop_last());
        match history(events.drop_last()) {
            Some(session) => {
                if session.active == Map::<u64, T>::empty() {
                    assert(forall|id: u64| #[trigger]
                        session.active.remove(id) =~= Map::<u64, T>::empty());
                }
            },
            None => {},
        }
    }
}

/// When nothing is left to wait for, every started request was joined: a shutdown
/// is answered only after all work has ended.
pub proof fn law_session_ends_with_nothing_in_flight<T>(events: Seq<SessionEvent<T>>)
    requires
        history(events) is Some,
        !history(events)->0.running(),
    ensures
        count_started(events) == count_joined(events),
        history(events)->0.shutdown == shutdown_in(events),
{
    law_session_stays_bounded(events);
}

/// Cancelling one request leaves every other request as it was.
pub proof fn law_cancel_touches_only_its_target<T>(
    session: SessionView<T>,
    cancel: CancelRequest,
    other: u64,
)
    requires
        other != cancel.target_id,
    ensures
        ({
            let cancelled = after(session, SessionEvent::Took(SessionRequest::Cancel(cancel)));
            &&& cancelled.active.contains_key(other) == session.active.contains_key(other)
            &&& session.active.contains_key(other) ==> cancelled.active[other]
                == session.active[other]
            &&& !cancelled.active.contains_key(cancel.target_id)
            &&& cancelled.pending == session.pending
            &&& cancelled.accepting == session.accepting
            &&& cancelled.shutdown == session.shutdown
        }),
{
}

/// How many events of a history are of the given sort.
pub open spec fn count_of<T>(events: Seq<SessionEvent<T>>, sort: spec_fn(SessionEvent<T>) -> bool) -> nat
    decreases events.len(),
{
    if events.len() == 0 {
        0
    } else {
        count_of(events.drop_last(), sort) + if sort(events.last()) {
            1nat
        } else {
            0nat
        }
    }
}

/// Whether a request is one that the driver starts.
pub open spec fn is_work(request: SessionRequest) -> bool {
    !(request is Cancel) && !(request is Shutdown)
}

/// The reading of a request with the given identifier that the driver starts.
pub open spec fn asks<T>(id: u64) -> spec_fn(SessionEvent<T>) -> bool {
    |event: SessionEvent<T>|
        match event {
            SessionEvent::Took(request) => is_work(request) && request.identifier() == id,
            _ => false,
        }
}

/// The start of a request with the given identifier.
pub open spec fn starts<T>(id: u64) -> spec_fn(SessionEvent<T>) -> bool {
    |event: SessionEvent<T>|
        match event {
            SessionEvent::Started(started, _) => started == id,
            _ => false,
        }
}

/// The end of a request with the given identifier by its response.
pub open spec fn answers<T>(id: u64) -> spec_fn(SessionEvent<T>) -> bool {
    |event: SessionEvent<T>| event == SessionEvent::<T>::Completed(id)
}

/// The end of a request with the given identifier by an abort.
pub open spec fn aborts<T>(id: u64) -> spec_fn(SessionEvent<T>) -> bool {
    |event: SessionEvent<T>| event == SessionEvent::<T>::Aborted(id)
}

/// Every start belongs to a request that was read, and every started request is
/// pending until it is joined, once: of the requests with one identifier no more
/// are answered than were read.
pub proof fn law_requests_are_answered_at_most_once<T>(events: Seq<SessionEvent<T>>, id: u64)
    ensures
        history(events) matches Some(session) ==> {
            &&& count_of(events, answers(id)) + count_of(events, aborts(id))
                + session.pending.count(id) == count_of(events, starts(id))
            &&& count_of(events, starts(id)) + if session.starting == Some(id) {
                1nat
            } else {
                0nat
            } <= count_of(events, asks(id))
        },
    decreases events.len(),
{
    if events.len() > 0 {
        law_requests_are_answered_at_most_once(events.drop_last(), id);
    }
}

/// The beginnings of a history that can happen can happen, and so can the next event.
proof fn lemma_beginning<T>(events: Seq<SessionEvent<T>>, k: int)
    requires
        history(events) is Some,
        0 <= k < events.len(),
    ensures
        history(events.take(k)) is Some,
        allowed(history(events.take(k))->0, events[k]),
    decreases events.len(),
{
    if k == events.len() - 1 {
        assert(events.take(k) =~= events.drop_last());
    } else {
        lemma_beginning(events.drop_last(), k);
        assert(events.take(k) =~= events.drop_last().take(k));
    }
}

/// An event of a sort that is counted stands in the history.
proof fn lemma_counted<T>(events: Seq<SessionEvent<T>>, sort: spec_fn(SessionEvent<T>) -> bool) -> (at:
    int)
    requires
        count_of(events, sort) > 0,
    ensures
        0 <= at < events.len(),
        sort(events[at]),
    decreases events.len(),
{
    if sort(events.last()) {
        events.len() - 1
    } else {
        lemma_counted(events.drop_last(), sort)
    }
}

/// The identifier of the response that the driver writes at an event.
pub open spec fn answer_at<T>(event: SessionEvent<T>) -> Option<u64> {
    match event {
        SessionEvent::Completed(id) => Some(id),
        SessionEvent::Took(SessionRequest::Cancel(cancel)) => Some(cancel.id),
        _ => None,
    }
}

/// Every response carries the identifier of a request that was read before: the
/// response of a request that was started, that of the request itself; the
/// acknowledgement of a cancellation, that of the request to cancel.
pub proof fn law_every_answer_was_asked_for<T>(events: Seq<SessionEvent<T>>, k: int) -> (asked: int)
    requires
        history(events) is Some,
        0 <= k < events.len(),
        answer_at(events[k]) is Some,
    ensures
        0 <= asked <= k,
        events[asked] matches SessionEvent::Took(request) && request.identifier() == answer_at(
            events[k],
        )->0 && (events[k] is Completed ==> is_work(request) && asked < k),
{
    match events[k] {
        SessionEvent::Completed(id) => {
            let before = events.take(k);
            lemma_beginning(events, k);
            law_requests_are_answered_at_most_once(before, id);
            lemma_counted(before, asks(id))
        },
        _ => k,
    }
}

} // verus!
