//! The status of an argument and its text form, which is how it is stored.

use vstd::prelude::*;

verus! {

/// Where an argument stands: still open, or settled because one side took
/// the notch.
#[derive(Clone, Copy, Debug, PartialEq, Eq, Structural)]
pub enum ArgumentStatus {
    InProgress,
    NotchTaken,
}

/// The error for a stored status text that names no [`ArgumentStatus`].
#[derive(Clone, Copy, Debug, PartialEq, Eq, Structural)]
pub struct ArgumentStatusParseError;

/// The text under which a status is stored.
pub open spec fn status_text(status: ArgumentStatus) -> Seq<char> {
    match status {
        ArgumentStatus::InProgress => "InProgress"@,
        ArgumentStatus::NotchTaken => "NotchTaken"@,
    }
}

/// What reading a stored status text gives: the status whose text it is, or
/// the parse error.
pub open spec fn parse_status(text: Seq<char>) -> Result<ArgumentStatus, ArgumentStatusParseError> {
    if text == "InProgress"@ {
        Ok(ArgumentStatus::InProgress)
    } else if text == "NotchTaken"@ {
        Ok(ArgumentStatus::NotchTaken)
    } else {
        Err(ArgumentStatusParseError)
    }
}

impl ArgumentStatus {
    /// The text under which this status is stored.
    pub fn as_str(&self) -> (text: &'static str)
        ensures
            text@ == status_text(*self),
    {
        match self {
            ArgumentStatus::InProgress => "InProgress",
            ArgumentStatus::NotchTaken => "NotchTaken",
        }
    }

    /// Reads a stored status text; any text but the two status names is
    /// refused.
    pub fn from_str(s: &str) -> (result: Result<ArgumentStatus, ArgumentStatusParseError>)
        ensures
            result == parse_status(s@),
    {
        let text = s.to_owned();
        if text == "InProgress".to_owned() {
            Ok(ArgumentStatus::InProgress)
        } else if text == "NotchTaken".to_owned() {
            Ok(ArgumentStatus::NotchTaken)
        } else {
            Err(ArgumentStatusParseError)
        }
    }
}

impl std::str::FromStr for ArgumentStatus {
    type Err = ArgumentStatusParseError;

    /// Reads a stored status text, as [`ArgumentStatus::from_str`] does.
    fn from_str(s: &str) -> (result: Result<ArgumentStatus, ArgumentStatusParseError>)
        ensures
            result == parse_status(s@),
    {
        ArgumentStatus::from_str(s)
    }
}

impl ArgumentStatusParseError {
    /// The message that describes this error.
    pub fn to_string(&self) -> (message: String)
        ensures
            message@ == "Failed to deserialize ArgumentStatus from string"@,
    {
        "Failed to deserialize ArgumentStatus from string".to_owned()
    }
}

/// A status survives being stored as its text and read back.
pub proof fn lemma_status_text_round_trip(status: ArgumentStatus)
    ensures
        parse_status(status_text(status)) == Ok::<ArgumentStatus, ArgumentStatusParseError>(status),
{
    reveal_strlit("InProgress");
    reveal_strlit("NotchTaken");
    assert("InProgress"@[0] != "NotchTaken"@[0]);
}

/// A text that reads as a status is exactly that status's stored text.
pub proof fn lemma_parsed_text_is_status_text(text: Seq<char>)
    ensures
        parse_status(text) matches Ok(status) ==> status_text(status) == text,
{
}

} // verus!
