use sma_tracker::command::{Command, CommandAction};
use sma_tracker::config::{parse_chat_id, parse_execution_mode, Config, ExecutionMode};
use sma_tracker::supervision::{process_outcome, TaskExit};
use sma_tracker::errors::AppError;
use sma_tracker::market::{chart_url, DEFAULT_API_URL, SP500_SYMBOL, WINDOW_DAYS};

#[test]
fn chart_url_for_index() {
    assert_eq!(
        chart_url("https://query1.finance.yahoo.com", SP500_SYMBOL, WINDOW_DAYS),
        "https://query1.finance.yahoo.com/v8/finance/chart/%5EGSPC?interval=1d&range=200d"
    );
    assert_eq!(chart_url("http://h", "X", 7), "http://h/v8/finance/chart/X?interval=1d&range=7d");
}

#[test]
fn execution_modes() {
    assert_eq!(parse_execution_mode(None), Ok(ExecutionMode::Once));
    assert_eq!(parse_execution_mode(Some("once".to_string())), Ok(ExecutionMode::Once));
    assert_eq!(parse_execution_mode(Some("server".to_string())), Ok(ExecutionMode::Server));
    assert_eq!(
        parse_execution_mode(Some("Server".to_string())),
        Err(AppError::UnsupportedExecutionMode)
    );
    assert_eq!(parse_execution_mode(Some("".to_string())), Err(AppError::UnsupportedExecutionMode));
}

#[test]
fn config_defaults_and_overrides() {
    let c = Config::from_values(None, None, None).unwrap();
    assert_eq!(c.mode, ExecutionMode::Once);
    assert_eq!(c.api_url, DEFAULT_API_URL);
    assert_eq!(c.cron_schedule, "0 */1 * * * 1-5");
    let c = Config::from_values(
        Some("server".to_string()),
        Some("http://localhost:1234".to_string()),
        Some("0 0 18 * * *".to_string()),
    )
    .unwrap();
    assert_eq!(c.mode, ExecutionMode::Server);
    assert_eq!(c.api_url, "http://localhost:1234");
    assert_eq!(c.cron_schedule, "0 0 18 * * *");
    assert!(matches!(
        Config::from_values(Some("daily".to_string()), None, None),
        Err(AppError::UnsupportedExecutionMode)
    ));
}

#[test]
fn commands() {
    assert_eq!(Command::Help.to_text(), "Help");
    assert_eq!(Command::Fetch.to_text(), "Fetch");
    assert_eq!(Command::Help.action(), CommandAction::ShowHelp);
    assert_eq!(Command::Fetch.action(), CommandAction::RunEvaluation);
}

#[test]
fn error_messages() {
    assert_eq!(AppError::NoDataAvailable.message(), "No data available in the API response");
    assert_eq!(AppError::InsufficientData.message(), "Insufficient data to calculate SMA200");
    assert_eq!(AppError::ReqwestError("boom".to_string()).message(), "Reqwest error: boom");
    assert_eq!(AppError::SchedulerError("x".to_string()).message(), "Scheduler error: x");
    assert_eq!(
        AppError::UnsupportedExecutionMode.message(),
        "Unsupported value for EXECUTION_MODE"
    );
    assert_eq!(AppError::TaskPanicked.message(), "Task panicked");
    assert_eq!(
        AppError::TeloxideRequestError("y".to_string()).message(),
        "Teloxide request error: y"
    );
}

#[test]
fn chat_ids() {
    assert_eq!(parse_chat_id("123456789"), Ok(123456789));
    assert_eq!(parse_chat_id("-1001234567890"), Ok(-1001234567890));
    assert_eq!(parse_chat_id("+42"), Ok(42));
    assert_eq!(parse_chat_id("0"), Ok(0));
    assert_eq!(parse_chat_id("9223372036854775807"), Ok(i64::MAX));
    assert_eq!(parse_chat_id("-9223372036854775808"), Ok(i64::MIN));
    assert_eq!(parse_chat_id("9223372036854775808"), Err(AppError::InvalidChatId));
    assert_eq!(parse_chat_id("-9223372036854775809"), Err(AppError::InvalidChatId));
    assert_eq!(parse_chat_id(""), Err(AppError::InvalidChatId));
    assert_eq!(parse_chat_id("-"), Err(AppError::InvalidChatId));
    assert_eq!(parse_chat_id("12a"), Err(AppError::InvalidChatId));
    assert_eq!(parse_chat_id(" 12"), Err(AppError::InvalidChatId));
    assert_eq!(parse_chat_id("99999999999999999999x"), Err(AppError::InvalidChatId));
    assert_eq!(
        AppError::InvalidChatId.message(),
        "Failed to parse environment variable TELOXIDE_CHAT_ID as i64"
    );
}

#[test]
fn supervised_outcomes() {
    assert_eq!(process_outcome(TaskExit::Stopped), Ok(()));
    assert_eq!(process_outcome(TaskExit::Panicked), Err(AppError::TaskPanicked));
    assert_eq!(
        process_outcome(TaskExit::Failed(AppError::SchedulerError("bad cron".to_string()))),
        Err(AppError::SchedulerError("bad cron".to_string()))
    );
}
