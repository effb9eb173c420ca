use notch_farm::status::{ArgumentStatus, ArgumentStatusParseError};

#[test]
fn as_str_names_each_status() {
    assert_eq!(ArgumentStatus::InProgress.as_str(), "InProgress");
    assert_eq!(ArgumentStatus::NotchTaken.as_str(), "NotchTaken");
}

#[test]
fn from_str_reads_each_status_name() {
    assert_eq!(ArgumentStatus::from_str("InProgress"), Ok(ArgumentStatus::InProgress));
    assert_eq!(ArgumentStatus::from_str("NotchTaken"), Ok(ArgumentStatus::NotchTaken));
}

#[test]
fn from_str_refuses_other_text() {
    assert_eq!(ArgumentStatus::from_str(""), Err(ArgumentStatusParseError));
    assert_eq!(ArgumentStatus::from_str("inprogress"), Err(ArgumentStatusParseError));
    assert_eq!(ArgumentStatus::from_str("InProgress "), Err(ArgumentStatusParseError));
    assert_eq!(ArgumentStatus::from_str("Notch Taken"), Err(ArgumentStatusParseError));
}

#[test]
fn parse_through_from_str_trait() {
    let parsed: Result<ArgumentStatus, ArgumentStatusParseError> = "NotchTaken".parse();
    assert_eq!(parsed, Ok(ArgumentStatus::NotchTaken));
    let refused: Result<ArgumentStatus, ArgumentStatusParseError> = "Open".parse();
    assert_eq!(refused, Err(ArgumentStatusParseError));
}

#[test]
fn status_text_round_trip() {
    for status in [ArgumentStatus::InProgress, ArgumentStatus::NotchTaken] {
        assert_eq!(ArgumentStatus::from_str(status.as_str()), Ok(status));
    }
}

#[test]
fn parse_error_message() {
    assert_eq!(
        ArgumentStatusParseError.to_string(),
        "Failed to deserialize ArgumentStatus from string"
    );
}
