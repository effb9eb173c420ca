//! The arguments that the bot keeps, as stored and as used, and the values
//! that its commands hand to the database.

use vstd::prelude::*;
pub use crate::status::{ArgumentStatus, ArgumentStatusParseError};
use crate::status::{parse_status, status_text};

verus! {

/// An argument as a row of the `arguments` table holds it: the status is
/// still text.
#[derive(Clone, Debug, PartialEq, Eq)]
pub struct DBArgument {
    pub argument_id: i64,
    pub guild_id: i64,
    pub argument_starter_id: i64,
    pub dissenter_id: i64,
    pub description: String,
    pub status: String,
    pub notch_taker_id: Option<i64>,
}

/// An internet argument between the member who started it and the member
/// who disagreed, in one Discord server.
#[derive(Clone, Debug, PartialEq, Eq)]
pub struct Argument {
    pub argument_id: i64,
    pub guild_id: i64,
    pub argument_starter_id: i64,
    pub dissenter_id: i64,
    pub description: String,
    pub status: ArgumentStatus,
    pub notch_taker_id: Option<i64>,
}

/// What a stored row reads as: the same fields, with the status text read;
/// the parse error when the text names no status.
pub open spec fn argument_from_row(item: DBArgument) -> Result<Argument, ArgumentStatusParseError> {
    match parse_status(item.status@) {
        Ok(status) => Ok(
            Argument {
                argument_id: item.argument_id,
                guild_id: item.guild_id,
                argument_starter_id: item.argument_starter_id,
                dissenter_id: item.dissenter_id,
                description: item.description,
                status: status,
                notch_taker_id: item.notch_taker_id,
            },
        ),
        Err(e) => Err(e),
    }
}

impl Argument {
    /// Reads a stored row.
    pub fn from_db(item: DBArgument) -> (result: Result<Argument, ArgumentStatusParseError>)
        ensures
            result == argument_from_row(item),
    {
        let status_result = ArgumentStatus::from_str(item.status.as_str());
        match status_result {
            Ok(status) => Ok(
                Argument {
                    argument_id: item.argument_id,
                    guild_id: item.guild_id,
                    argument_starter_id: item.argument_starter_id,
                    dissenter_id: item.dissenter_id,
                    description: item.description,
                    status: status,
                    notch_taker_id: item.notch_taker_id,
                },
            ),
            Err(e) => Err(e),
        }
    }
}

/// A stored row whose status text is that of a status reads back as that
/// status, with every other field as stored: what was written is what is
/// read.
pub proof fn lemma_stored_row_reads_back(item: DBArgument, status: ArgumentStatus)
    requires
        item.status@ == status_text(status),
    ensures
        argument_from_row(item) == Ok::<Argument, ArgumentStatusParseError>(
            Argument {
                argument_id: item.argument_id,
                guild_id: item.guild_id,
                argument_starter_id: item.argument_starter_id,
                dissenter_id: item.dissenter_id,
                description: item.description,
                status: status,
                notch_taker_id: item.notch_taker_id,
            },
        ),
{
    crate::status::lemma_status_text_round_trip(status);
}

/// What the `argument` command asks to store: the Discord server and the two
/// members by their ids, and what the argument is about.
#[derive(Clone, Debug, PartialEq, Eq)]
pub struct CreateArgumentParams {
    pub guild_id: u64,
    pub argument_starter_id: u64,
    pub dissenter_id: u64,
    pub description: String,
}

/// The values of a new row of the `arguments` table.
#[derive(Clone, Debug, PartialEq, Eq)]
pub struct NewArgumentRow {
    pub guild_id: i64,
    pub argument_starter_id: i64,
    pub dissenter_id: i64,
    pub description: String,
    pub status: String,
}

impl CreateArgumentParams {
    /// The row that stores a new argument: the ids as the database's signed
    /// integers (the same bits), and the status of an open argument.
    pub fn into_row(self) -> (row: NewArgumentRow)
        ensures
            row.guild_id == self.guild_id as i64,
            row.argument_starter_id == self.argument_starter_id as i64,
            row.dissenter_id == self.dissenter_id as i64,
            row.description == self.description,
            row.status@ == status_text(ArgumentStatus::InProgress),
    {
        NewArgumentRow {
            guild_id: self.guild_id as i64,
            argument_starter_id: self.argument_starter_id as i64,
            dissenter_id: self.dissenter_id as i64,
            description: self.description,
            status: ArgumentStatus::InProgress.as_str().to_owned(),
        }
    }
}

/// Who takes the notch of which argument.
#[derive(Clone, Debug, PartialEq, Eq)]
pub struct UpdateNotchTakerParams {
    pub argument_id: i64,
    pub notch_taker: u64,
}

/// The values that settle a stored argument.
#[derive(Clone, Debug, PartialEq, Eq)]
pub struct NotchTakerUpdate {
    pub argument_id: i64,
    pub notch_taker_id: i64,
    pub status: String,
}

impl UpdateNotchTakerParams {
    /// The update that records the notch taker and marks the argument
    /// settled.
    pub fn into_update(self) -> (update: NotchTakerUpdate)
        ensures
            update.argument_id == self.argument_id,
            update.notch_taker_id == self.notch_taker as i64,
            update.status@ == status_text(ArgumentStatus::NotchTaken),
    {
        NotchTakerUpdate {
            argument_id: self.argument_id,
            notch_taker_id: self.notch_taker as i64,
            status: ArgumentStatus::NotchTaken.as_str().to_owned(),
        }
    }
}

} // verus!
