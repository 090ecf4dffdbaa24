//! Errors of the PDP engine.

use crate::text::{concat2, decimal, u64_to_decimal};
use vstd::prelude::*;

verus! {

/// Everything that can go wrong while configuring, running or querying the
/// PDP process. Errors that come from outside libraries carry their message.
#[derive(Debug)]
pub enum PDPError {
    Io(String),
    ProcessNotRunning,
    Http(String),
    UrlParse(String),
    PythonBinaryNotFound(String),
    PDPDirNotFound(String),
    ShutdownTriggered,
    HealthCheckTimeout(String),
    ProcessManagement(String),
    RequestFailed(String),
    ResponseError(u16, String),
    DeserializationError(String),
    Other(String),
    Reqwest(String),
}

/// The message an error displays.
pub open spec fn pdp_error_text(e: PDPError) -> Seq<char> {
    match e {
        PDPError::Io(m) => "I/O error: "@ + m@,
        PDPError::ProcessNotRunning => "Process not running"@,
        PDPError::Http(m) => "HTTP error: "@ + m@,
        PDPError::UrlParse(m) => "URL parse error: "@ + m@,
        PDPError::PythonBinaryNotFound(m) => "Python binary not found: "@ + m@,
        PDPError::PDPDirNotFound(m) => "PDP directory not found or invalid: "@ + m@,
        PDPError::ShutdownTriggered => "Operation cancelled due to shutdown"@,
        PDPError::HealthCheckTimeout(m) => "Health check timed out: "@ + m@,
        PDPError::ProcessManagement(m) => "Process management error: "@ + m@,
        PDPError::RequestFailed(m) => "Failed to send request: "@ + m@,
        PDPError::ResponseError(code, m) => "Response error (status "@ + decimal(code as nat)
            + "): "@ + m@,
        PDPError::DeserializationError(m) => "Failed to deserialize response: "@ + m@,
        PDPError::Other(m) => "Other error: "@ + m@,
        PDPError::Reqwest(m) => "Reqwest error: "@ + m@,
    }
}

impl PDPError {
    /// The message of the error, as its `Display` renders it.
    pub fn to_string(&self) -> (s: String)
        ensures
            s@ == pdp_error_text(*self),
    {
        match self {
            PDPError::Io(m) => concat2("I/O error: ", m.as_str()),
            PDPError::ProcessNotRunning => "Process not running".to_owned(),
            PDPError::Http(m) => concat2("HTTP error: ", m.as_str()),
            PDPError::UrlParse(m) => concat2("URL parse error: ", m.as_str()),
            PDPError::PythonBinaryNotFound(m) => concat2("Python binary not found: ", m.as_str()),
            PDPError::PDPDirNotFound(m) => concat2(
                "PDP directory not found or invalid: ",
                m.as_str(),
            ),
            PDPError::ShutdownTriggered => "Operation cancelled due to shutdown".to_owned(),
            PDPError::HealthCheckTimeout(m) => concat2("Health check timed out: ", m.as_str()),
            PDPError::ProcessManagement(m) => concat2("Process management error: ", m.as_str()),
            PDPError::RequestFailed(m) => concat2("Failed to send request: ", m.as_str()),
            PDPError::ResponseError(code, m) => {
                let s = concat2("Response error (status ", u64_to_decimal(*code as u64).as_str());
                let s = s.concat("): ");
                s.concat(m.as_str())
            },
            PDPError::DeserializationError(m) => concat2(
                "Failed to deserialize response: ",
                m.as_str(),
            ),
            PDPError::Other(m) => concat2("Other error: ", m.as_str()),
            PDPError::Reqwest(m) => concat2("Reqwest error: ", m.as_str()),
        }
    }
}

} // verus!
