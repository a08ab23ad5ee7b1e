//! Messages between the host and the guest tool server.
use vstd::prelude::*;
use vstd::string::*;

verus! {

/// Asks whether the guest serves requests.
#[derive(Clone, Debug)]
pub struct ReadyRequest {
    pub id: u64,
}

/// Where a tool call comes from.
#[derive(Clone, Debug)]
pub struct ToolCallContext {
    pub model: String,
    pub session_id: String,
    pub call_id: String,
    pub output_token_budget: Option<u64>,
}

/// Runs one tool; `input` is the tool's own encoding of its input.
#[derive(Clone, Debug)]
pub struct ToolRequest {
    pub id: u64,
    pub tool: String,
    pub input: String,
    pub context: ToolCallContext,
}

/// Writes a whole file.
#[derive(Clone, Debug)]
pub struct WriteFileRequest {
    pub id: u64,
    pub path: String,
    pub contents: Vec<u8>,
    pub mode: u32,
}

/// Reads a whole file.
#[derive(Clone, Debug)]
pub struct ReadFileRequest {
    pub id: u64,
    pub path: String,
}

/// Runs one command.
#[derive(Clone, Debug)]
pub struct ExecuteRequest {
    pub id: u64,
    pub program: String,
    pub arguments: Vec<String>,
    pub current_directory: String,
    pub environment: Vec<(String, String)>,
    pub timeout_millis: u64,
    pub max_output_bytes: usize,
}

/// Cancels an active request.
#[derive(Clone, Copy, Debug)]
pub struct CancelRequest {
    pub id: u64,
    pub target_id: u64,
}

/// Ends the session.
#[derive(Clone, Copy, Debug)]
pub struct ShutdownRequest {
    pub id: u64,
}

/// One request of the host.
#[derive(Clone, Debug)]
pub enum SessionRequest {
    Ready(ReadyRequest),
    Tool(ToolRequest),
    WriteFile(WriteFileRequest),
    ReadFile(ReadFileRequest),
    Execute(ExecuteRequest),
    Cancel(CancelRequest),
    Shutdown(ShutdownRequest),
}

/// Acknowledges a request, or says why it failed.
#[derive(Clone, Debug)]
pub struct ControlResponse {
    pub id: u64,
    pub error: Option<String>,
}

/// What a tool gave, in the tool's own encoding, or why it gave nothing.
#[derive(Clone, Debug)]
pub struct ToolResponse {
    pub id: u64,
    pub execution: Option<String>,
    pub error: Option<String>,
}

/// The contents of a file, or why they could not be read.
#[derive(Clone, Debug)]
pub struct ReadFileResponse {
    pub id: u64,
    pub contents: Option<Vec<u8>>,
    pub error: Option<String>,
}

/// How a command ended.
#[derive(Clone, Debug)]
pub struct ExecuteResponse {
    pub id: u64,
    pub exit_code: Option<i32>,
    pub stdout: Option<Vec<u8>>,
    pub stderr: Option<Vec<u8>>,
    pub error: Option<String>,
    pub timed_out: bool,
    pub output_limit_exceeded: bool,
}

/// One response of the guest.
#[derive(Clone, Debug)]
pub enum SessionResponse {
    Ready(ControlResponse),
    Tool(ToolResponse),
    WriteFile(ControlResponse),
    ReadFile(ReadFileResponse),
    Execute(ExecuteResponse),
    Cancel(ControlResponse),
    Shutdown(ControlResponse),
}

impl SessionRequest {
    /// The identifier that the host gave this request.
    pub open spec fn identifier(&self) -> u64 {
        match *self {
            SessionRequest::Ready(request) => request.id,
            SessionRequest::Tool(request) => request.id,
            SessionRequest::WriteFile(request) => request.id,
            SessionRequest::ReadFile(request) => request.id,
            SessionRequest::Execute(request) => request.id,
            SessionRequest::Cancel(request) => request.id,
            SessionRequest::Shutdown(request) => request.id,
        }
    }

    /// The identifier that the host gave this request.
    pub fn id(&self) -> (id: u64)
        ensures
            id == self.identifier(),
    {
        match self {
            SessionRequest::Ready(request) => request.id,
            SessionRequest::Tool(request) => request.id,
            SessionRequest::WriteFile(request) => request.id,
            SessionRequest::ReadFile(request) => request.id,
            SessionRequest::Execute(request) => request.id,
            SessionRequest::Cancel(request) => request.id,
            SessionRequest::Shutdown(request) => request.id,
        }
    }
}

impl SessionResponse {
    /// The identifier of the request that this answers.
    pub open spec fn identifier(&self) -> u64 {
        match *self {
            SessionResponse::Ready(response) => response.id,
            SessionResponse::Tool(response) => response.id,
            SessionResponse::WriteFile(response) => response.id,
            SessionResponse::ReadFile(response) => response.id,
            SessionResponse::Execute(response) => response.id,
            SessionResponse::Cancel(response) => response.id,
            SessionResponse::Shutdown(response) => response.id,
        }
    }

    /// The identifier of the request that this answers.
    pub fn id(&self) -> (id: u64)
        ensures
            id == self.identifier(),
    {
        match self {
            SessionResponse::Ready(response) => response.id,
            SessionResponse::Tool(response) => response.id,
            SessionResponse::WriteFile(response) => response.id,
            SessionResponse::ReadFile(response) => response.id,
            SessionResponse::Execute(response) => response.id,
            SessionResponse::Cancel(response) => response.id,
            SessionResponse::Shutdown(response) => response.id,
        }
    }
}

impl ToolResponse {
    /// The response to a tool call that ran.
    pub fn completed(id: u64, execution: String) -> (response: ToolResponse)
        ensures
            response == (ToolResponse { id, execution: Some(execution), error: None }),
    {
        ToolResponse { id, execution: Some(execution), error: None }
    }

    /// The response to a tool call whose result could not be encoded.
    pub fn failed(id: u64, error: String) -> (response: ToolResponse)
        ensures
            response == (ToolResponse { id, execution: None, error: Some(error) }),
    {
        ToolResponse { id, execution: None, error: Some(error) }
    }
}

} // verus!
