//! Failures of the guest tool server.
use vstd::prelude::*;
use vstd::string::*;

use crate::text::{decimal, decimal_text};

verus! {

/// The host's I/O error, carried as it is.
#[verifier::external_type_specification]
#[verifier::external_body]
pub struct ExIoError(std::io::Error);

/// The error of `serde_json`, carried as it is.
#[verifier::external_type_specification]
#[verifier::external_body]
pub struct ExJsonError(serde_json::Error);

/// Largest protocol frame, without its newline.
pub const MAX_FRAME_BYTES: usize = 67108864;

/// Failure while serving VM tool requests inside the guest.
#[derive(Debug)]
pub enum VmGuestError {
    /// Guest console I/O failed.
    Io(std::io::Error),
    /// A protocol frame was not valid JSON.
    Json(serde_json::Error),
    /// The host closed the console in the middle of a frame.
    Closed,
    /// A concurrently executed guest request task failed.
    Task(String),
    /// An inbound or outbound protocol frame exceeded the fixed limit.
    FrameTooLarge,
    /// The host reused an identifier while its earlier request was active.
    DuplicateRequestId(u64),
}

/// Whether `text` is `prefix` and, behind it, a text that the error shows itself by.
pub open spec fn shows<E: core::fmt::Display>(text: Seq<char>, prefix: Seq<char>, error: E) -> bool {
    exists|detail: String|
        #[trigger] to_string_from_display_ensures::<E>(&error, detail) && text == prefix + detail@
}

impl VmGuestError {
    /// Describes the failure. How an outside error shows itself is that error's
    /// own affair: the text holds it as it is.
    pub fn message(&self) -> (text: String)
        ensures
            match *self {
                VmGuestError::Io(error) => shows(text@, "VM tool console I/O failed: "@, error),
                VmGuestError::Json(error) => shows(text@, "VM tool protocol JSON failed: "@, error),
                VmGuestError::Closed => text@
                    == "the VM tool console closed before a complete frame"@,
                VmGuestError::Task(error) => text@ == "guest tool execution task failed: "@
                    + error@,
                VmGuestError::FrameTooLarge => text@ == "VM tool protocol frame exceeded the "@
                    + decimal(MAX_FRAME_BYTES as nat) + "-byte limit"@,
                VmGuestError::DuplicateRequestId(id) => text@
                    == "VM tool protocol reused active request ID "@ + decimal(id as nat),
            },
    {
        match self {
            VmGuestError::Io(error) => {
                let detail = error.to_string();
                String::from_str("VM tool console I/O failed: ").concat(detail.as_str())
            },
            VmGuestError::Json(error) => {
                let detail = error.to_string();
                String::from_str("VM tool protocol JSON failed: ").concat(detail.as_str())
            },
            VmGuestError::Closed => String::from_str(
                "the VM tool console closed before a complete frame",
            ),
            VmGuestError::Task(error) => String::from_str(
                "guest tool execution task failed: ",
            ).concat(error.as_str()),
            VmGuestError::FrameTooLarge => String::from_str(
                "VM tool protocol frame exceeded the ",
            ).concat(decimal_text(MAX_FRAME_BYTES as u64).as_str()).concat("-byte limit"),
            VmGuestError::DuplicateRequestId(id) => String::from_str(
                "VM tool protocol reused active request ID ",
            ).concat(decimal_text(*id).as_str()),
        }
    }
}

} // verus!
