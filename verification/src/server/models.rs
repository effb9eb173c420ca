//! The arguments that the server keeps, as stored and as served, and the
//! bodies of its requests.

use vstd::prelude::*;
pub use crate::status::{ArgumentStatus, ArgumentStatusParseError};
use crate::status::{parse_status, status_text};

verus! {

/// An argument as a row of the server's `arguments` table holds it: the
/// status is still text.
#[derive(Clone, Debug, PartialEq, Eq)]
pub struct DBArgument {
    pub argument_id: i64,
    pub group_id: i64,
    pub argument_starter: i64,
    pub dissenter: i64,
    pub description: String,
    pub status: String,
    pub notch_taker: Option<i64>,
}

/// An internet argument within a group, as the server serves it.
#[derive(Clone, Debug, PartialEq, Eq)]
pub struct Argument {
    pub argument_id: i64,
    pub group_id: i64,
    pub argument_starter: i64,
    pub dissenter: i64,
    pub description: String,
    pub status: ArgumentStatus,
    pub notch_taker: Option<i64>,
}

/// What a stored row reads as: the same fields, with the status text read;
/// the parse error when the text names no status.
pub open spec fn argument_from_row(item: DBArgument) -> Result<Argument, ArgumentStatusParseError> {
    match parse_status(item.status@) {
        Ok(status) => Ok(
            Argument {
                argument_id: item.argument_id,
                group_id: item.group_id,
                argument_starter: item.argument_starter,
                dissenter: item.dissenter,
                description: item.description,
                status: status,
                notch_taker: item.notch_taker,
            },
        ),
        Err(e) => Err(e),
    }
}

/// A stored row whose status text is that of a status reads back as that
/// status, with every other field as stored: what was written is what is
/// read.
pub proof fn lemma_stored_row_reads_back(item: DBArgument, status: ArgumentStatus)
    requires
        item.status@ == status_text(status),
    ensures
        argument_from_row(item) == Ok::<Argument, ArgumentStatusParseError>(
            Argument {
                argument_id: item.argument_id,
                group_id: item.group_id,
                argument_starter: item.argument_starter,
                dissenter: item.dissenter,
                description: item.description,
                status: status,
                notch_taker: item.notch_taker,
            },
        ),
{
    crate::status::lemma_status_text_round_trip(status);
}

/// Whether every row's status reads.
pub open spec fn all_rows_read(rows: Seq<DBArgument>) -> bool {
    forall|i: int| 0 <= i < rows.len() ==> (#[trigger] argument_from_row(rows[i])) is Ok
}

impl Argument {
    /// Reads a stored row.
    pub fn from_db(item: DBArgument) -> (result: Result<Argument, ArgumentStatusParseError>)
        ensures
            result == argument_from_row(item),
    {
        let status_result = ArgumentStatus::from_str(item.status.as_str());
        match status_result {
            Ok(status) => Ok(
                Argument {
                    argument_id: item.argument_id,
                    group_id: item.group_id,
                    argument_starter: item.argument_starter,
                    dissenter: item.dissenter,
                    description: item.description,
                    status: status,
                    notch_taker: item.notch_taker,
                },
            ),
            Err(e) => Err(e),
        }
    }
}

/// Reads every row, in order; fails on the first row whose status does not
/// read.
pub fn arguments_from_db(rows: Vec<DBArgument>) -> (result: Result<Vec<Argument>, ArgumentStatusParseError>)
    ensures
        result is Ok <==> all_rows_read(rows@),
        result matches Ok(arguments) ==> arguments@.len() == rows@.len() && forall|i: int|
            0 <= i < rows@.len() ==> argument_from_row(rows@[i]) == Ok::<Argument, ArgumentStatusParseError>(
                #[trigger] arguments@[i],
            ),
{
    let ghost original = rows@;
    let mut rest = rows;
    let mut arguments: Vec<Argument> = Vec::new();
    while rest.len() > 0
        invariant
            original == rows@,
            arguments@.len() + rest@.len() == original.len(),
            rest@ == original.skip(arguments@.len() as int),
            forall|i: int|
                0 <= i < arguments@.len() ==> argument_from_row(original[i]) == Ok::<
                    Argument,
                    ArgumentStatusParseError,
                >(#[trigger] arguments@[i]),
        decreases rest@.len(),
    {
        let row = rest.remove(0);
        assert(row == original[arguments@.len() as int]);
        match Argument::from_db(row) {
            Ok(a) => {
                arguments.push(a);
            },
            Err(e) => {
                assert(!(argument_from_row(original[arguments@.len() as int]) is Ok));
                return Err(e);
            },
        }
    }
    assert forall|i: int| 0 <= i < original.len() implies (#[trigger] argument_from_row(original[i])) is Ok by {
        assert(argument_from_row(original[i]) == Ok::<Argument, ArgumentStatusParseError>(arguments@[i]));
    }
    Ok(arguments)
}

/// The body of `POST /arguments`.
#[derive(Clone, Debug, PartialEq, Eq)]
pub struct CreateArgumentRequest {
    pub group_id: i64,
    pub argument_starter: i64,
    pub dissenter: i64,
    pub description: String,
}

/// The values of a new row of the server's `arguments` table.
#[derive(Clone, Debug, PartialEq, Eq)]
pub struct NewArgumentRow {
    pub group_id: i64,
    pub argument_starter: i64,
    pub dissenter: i64,
    pub description: String,
    pub status: String,
}

impl CreateArgumentRequest {
    /// The row that stores the requested argument, open.
    pub fn into_row(self) -> (row: NewArgumentRow)
        ensures
            row.group_id == self.group_id,
            row.argument_starter == self.argument_starter,
            row.dissenter == self.dissenter,
            row.description == self.description,
            row.status@ == status_text(ArgumentStatus::InProgress),
    {
        NewArgumentRow {
            group_id: self.group_id,
            argument_starter: self.argument_starter,
            dissenter: self.dissenter,
            description: self.description,
            status: ArgumentStatus::InProgress.as_str().to_owned(),
        }
    }
}

/// The query of `GET /arguments`: the group whose arguments to list.
#[derive(Clone, Debug, PartialEq, Eq)]
pub struct GetArgumentsParams {
    pub group_id: i64,
}

/// The body of `PUT /arguments/{argument_id}/notch-taker`: who takes the
/// notch.
#[derive(Clone, Debug, PartialEq, Eq)]
pub struct UpdateNotchTakerRequest {
    pub notch_taker: i64,
}

} // verus!
