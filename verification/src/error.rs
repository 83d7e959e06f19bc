//! The error surface of the engine.

use vstd::prelude::*;

verus! {

/// An error raised while building a notifier or delivering a notification.
///
/// `ConfigError` marks a construction-time mismatch between a trigger's
/// declared channel type and the adapter being built; it is never retried.
/// `NotifyFailed` marks a call-time failure (parsing, signing or transport),
/// optionally carrying the underlying cause as text.
#[derive(Debug)]
pub enum NotificationError {
    ConfigError { message: String },
    NotifyFailed { message: String, cause: Option<String> },
}

impl NotificationError {
    /// Builds a construction-time configuration error.
    pub fn config_error(message: String) -> (e: Self)
        ensures
            e == (NotificationError::ConfigError { message }),
    {
        NotificationError::ConfigError { message }
    }

    /// Builds a call-time delivery error.
    pub fn notify_failed(message: String, cause: Option<String>) -> (e: Self)
        ensures
            e == (NotificationError::NotifyFailed { message, cause }),
    {
        NotificationError::NotifyFailed { message, cause }
    }

    /// The human-readable message of either variant.
    pub fn message(&self) -> (m: &String)
        ensures
            m == match self {
                NotificationError::ConfigError { message } => message,
                NotificationError::NotifyFailed { message, .. } => message,
            },
    {
        match self {
            NotificationError::ConfigError { message } => message,
            NotificationError::NotifyFailed { message, .. } => message,
        }
    }
}

} // verus!
