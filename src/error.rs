use vstd::prelude::*;

verus! {

/// Why a bridge operation failed.
///
/// Capability absence and "nothing found" conditions are not errors: they are
/// reported as empty or default results by the operations themselves.
#[derive(Debug, Clone, PartialEq, Eq)]
pub enum BridgeError {
    /// A native asynchronous operation did not complete within the poll budget.
    Timeout,
    /// A native asynchronous operation reported an error state.
    AsyncFailed,
    /// No media transport session is active.
    NoActiveSession,
    /// No audio session belongs to the given process id.
    SessionNotFound(u32),
    /// No listed notification has the given id.
    NotificationNotFound(u32),
    /// Notification access has not been granted.
    AccessDenied,
    /// The owning application of a notification has no model identifier.
    MissingAppId,
    /// A caller-supplied value lies outside its documented range.
    InvalidArgument,
    /// Neither brightness tier accepted the request.
    BrightnessUnsupported,
    /// Both application launch attempts failed; holds the last launcher code.
    ActivationFailed(i64),
    /// An underlying platform call failed; holds its message.
    NativeFailure(String),
}

} // verus!
