use vstd::prelude::*;
use vstd::string::*;

verus! {

/// Failures of an evaluation run and of the process around it.
#[derive(Debug, PartialEq, Eq)]
pub enum AppError {
    /// The market-data request failed, or its body could not be decoded.
    ReqwestError(String),
    /// The upstream answer held no chart entries.
    NoDataAvailable,
    /// Fewer than two hundred closing prices were present.
    InsufficientData,
    /// The recurring trigger could not be set up.
    SchedulerError(String),
    /// The execution mode named in the configuration is not known.
    UnsupportedExecutionMode,
    /// The recipient identifier is not a signed 64-bit decimal number.
    InvalidChatId,
    /// A supervised task ended abnormally.
    TaskPanicked,
    /// The notification channel could not deliver a message.
    TeloxideRequestError(String),
}

/// The description of each failure.
pub open spec fn message_of(e: AppError) -> Seq<char> {
    match e {
        AppError::ReqwestError(cause) => "Reqwest error: "@ + cause@,
        AppError::NoDataAvailable => "No data available in the API response"@,
        AppError::InsufficientData => "Insufficient data to calculate SMA200"@,
        AppError::SchedulerError(cause) => "Scheduler error: "@ + cause@,
        AppError::UnsupportedExecutionMode => "Unsupported value for EXECUTION_MODE"@,
        AppError::InvalidChatId => "Failed to parse environment variable TELOXIDE_CHAT_ID as i64"@,
        AppError::TaskPanicked => "Task panicked"@,
        AppError::TeloxideRequestError(cause) => "Teloxide request error: "@ + cause@,
    }
}

impl AppError {
    /// The human-readable description of the failure, with its cause.
    pub fn message(&self) -> (r: String)
        ensures
            r@ == message_of(*self),
    {
        match self {
            AppError::ReqwestError(cause) => {
                let mut out = String::from_str("Reqwest error: ");
                out.append(cause.as_str());
                out
            },
            AppError::NoDataAvailable => String::from_str("No data available in the API response"),
            AppError::InsufficientData => String::from_str("Insufficient data to calculate SMA200"),
            AppError::SchedulerError(cause) => {
                let mut out = String::from_str("Scheduler error: ");
                out.append(cause.as_str());
                out
            },
            AppError::UnsupportedExecutionMode => String::from_str(
                "Unsupported value for EXECUTION_MODE",
            ),
            AppError::InvalidChatId => String::from_str(
                "Failed to parse environment variable TELOXIDE_CHAT_ID as i64",
            ),
            AppError::TaskPanicked => String::from_str("Task panicked"),
            AppError::TeloxideRequestError(cause) => {
                let mut out = String::from_str("Teloxide request error: ");
                out.append(cause.as_str());
                out
            },
        }
    }
}

} // verus!
