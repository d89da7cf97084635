use vstd::prelude::*;

verus! {

/// A terminal failure of one transcription session.
///
/// Every failure of the session is reported to the caller as one of
/// these variants; none of the library's verified functions panic.
#[derive(Debug, Clone, PartialEq, Eq)]
pub enum AsrError {
    /// The credential was empty; no connection was attempted.
    ConfigurationError,
    /// The audio buffer was empty; no connection was attempted.
    InputError,
    /// Every connection attempt failed; carries the last underlying error.
    ConnectionError(String),
    /// Serializing or sending a control or audio message failed.
    ProtocolSendError(String),
    /// The server reported the task as failed, with its message.
    RemoteTaskFailure(String),
    /// Reading from the socket failed.
    TransportError(String),
    /// The session ended with no terminal event and no accumulated text.
    EmptyResultError,
}

/// The human-readable rendering of each error, as `message` returns it.
pub open spec fn spec_error_message(e: AsrError) -> Seq<char> {
    match e {
        AsrError::ConfigurationError => "DashScope API key is not configured"@,
        AsrError::InputError => "Audio data is empty"@,
        AsrError::ConnectionError(detail) => detail@,
        AsrError::ProtocolSendError(detail) => detail@,
        AsrError::RemoteTaskFailure(detail) => "Recognition failed: "@ + detail@,
        AsrError::TransportError(detail) => "WebSocket error: "@ + detail@,
        AsrError::EmptyResultError => "No recognition result was produced"@,
    }
}

impl AsrError {
    /// The one human-readable string that the caller sees for this error.
    pub fn message(&self) -> (m: String)
        ensures
            m@ == spec_error_message(*self),
    {
        match self {
            AsrError::ConfigurationError => String::from_str("DashScope API key is not configured"),
            AsrError::InputError => String::from_str("Audio data is empty"),
            AsrError::ConnectionError(detail) => detail.clone(),
            AsrError::ProtocolSendError(detail) => detail.clone(),
            AsrError::RemoteTaskFailure(detail) => String::from_str("Recognition failed: ").concat(
                detail.as_str(),
            ),
            AsrError::TransportError(detail) => String::from_str("WebSocket error: ").concat(
                detail.as_str(),
            ),
            AsrError::EmptyResultError => String::from_str("No recognition result was produced"),
        }
    }
}

} // verus!
