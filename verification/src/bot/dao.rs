//! What the bot makes of the database's answers.

use vstd::prelude::*;
use crate::bot::models::{Argument, DBArgument, argument_from_row};
use crate::status::{ArgumentStatus, ArgumentStatusParseError, status_text};

verus! {

/// Why a lookup gave no argument: the database failed, or the stored status
/// could not be read.
#[derive(Clone, Debug, PartialEq, Eq)]
pub enum DaoError<E> {
    Database(E),
    Parse(ArgumentStatusParseError),
}

/// The argument that a single-row answer of the database reads as.
pub open spec fn row_response_result<E>(db_response: Result<DBArgument, E>) -> Result<Argument, DaoError<E>> {
    match db_response {
        Ok(row) => match argument_from_row(row) {
            Ok(a) => Ok(a),
            Err(e) => Err(DaoError::Parse(e)),
        },
        Err(e) => Err(DaoError::Database(e)),
    }
}

/// Whether every row's status reads.
pub open spec fn all_rows_read(rows: Seq<DBArgument>) -> bool {
    forall|i: int| 0 <= i < rows.len() ==> (#[trigger] argument_from_row(rows[i])) is Ok
}

/// The filter of a listing query: the Discord server, as the database's
/// signed integer, and the status text to match.
#[derive(Clone, Debug, PartialEq, Eq)]
pub struct ArgumentsQuery {
    pub guild_id: i64,
    pub status: String,
}

/// The filter that lists the arguments of a server in the given status.
pub fn arguments_query(guild_id: u64, status: ArgumentStatus) -> (query: ArgumentsQuery)
    ensures
        query.guild_id == guild_id as i64,
        query.status@ == status_text(status),
{
    ArgumentsQuery { guild_id: guild_id as i64, status: status.as_str().to_owned() }
}

/// The argument that a stored row holds, with its status text read as
/// `status`: every field as stored.
pub open spec fn stored_argument(row: DBArgument, status: ArgumentStatus) -> Argument {
    Argument {
        argument_id: row.argument_id,
        guild_id: row.guild_id,
        argument_starter_id: row.argument_starter_id,
        dissenter_id: row.dissenter_id,
        description: row.description,
        status: status,
        notch_taker_id: row.notch_taker_id,
    }
}

/// A single-row answer whose status reads gives the argument with every
/// field as stored, its notch taker included.
pub proof fn lemma_single_row_read_keeps_fields<E>(row: DBArgument, status: ArgumentStatus)
    requires
        row.status@ == status_text(status),
    ensures
        row_response_result::<E>(Ok(row)) == Ok::<Argument, DaoError<E>>(
            (Argument {
                argument_id: row.argument_id,
                guild_id: row.guild_id,
                argument_starter_id: row.argument_starter_id,
                dissenter_id: row.dissenter_id,
                description: row.description,
                status: status,
                notch_taker_id: row.notch_taker_id,
            }),
        ),
{
    crate::bot::models::lemma_stored_row_reads_back(row, status);
}

/// A failed database call is reported as the database's error, unchanged;
/// a row whose status does not read is reported as the parse error.
pub proof fn lemma_single_row_read_errors<E>(e: E, row: DBArgument)
    ensures
        row_response_result::<E>(Err(e)) == Err::<Argument, DaoError<E>>(DaoError::Database(e)),
        crate::status::parse_status(row.status@) is Err ==> row_response_result::<E>(Ok(row)) == Err::<
            Argument,
            DaoError<E>,
        >(DaoError::Parse(ArgumentStatusParseError)),
{
}

/// Turns a single-row answer into an argument.
pub fn db_response_to_argument<E>(db_response: Result<DBArgument, E>) -> (result: Result<Argument, DaoError<E>>)
    ensures
        result == row_response_result(db_response),
        forall|status: ArgumentStatus|
            #![trigger status_text(status)]
            db_response matches Ok(row) ==> (row.status@ == status_text(status) ==> result == Ok::<
                Argument,
                DaoError<E>,
            >(stored_argument(row, status))),
{
    proof {
        if db_response is Ok {
            let row = db_response->Ok_0;
            assert forall|status: ArgumentStatus|
                #![trigger status_text(status)]
                row.status@ == status_text(status) implies row_response_result(db_response) == Ok::<
                    Argument,
                    DaoError<E>,
                >(stored_argument(row, status)) by {
                lemma_single_row_read_keeps_fields::<E>(row, status);
            }
        }
    }
    match db_response {
        Ok(db_argument) => match Argument::from_db(db_argument) {
            Ok(a) => Ok(a),
            Err(e) => Err(DaoError::Parse(e)),
        },
        Err(e) => Err(DaoError::Database(e)),
    }
}

/// Reads every row, in order; fails on the first row whose status does not
/// read.
pub fn arguments_from_db(rows: Vec<DBArgument>) -> (result: Result<Vec<Argument>, ArgumentStatusParseError>)
    ensures
        result is Ok <==> all_rows_read(rows@),
        result matches Ok(arguments) ==> arguments@.len() == rows@.len() && forall|i: int|
            0 <= i < rows@.len() ==> argument_from_row(rows@[i]) == Ok::<Argument, ArgumentStatusParseError>(
                #[trigger] arguments@[i],
            ),
{
    let ghost original = rows@;
    let mut rest = rows;
    let mut arguments: Vec<Argument> = Vec::new();
    while rest.len() > 0
        invariant
            original == rows@,
            arguments@.len() + rest@.len() == original.len(),
            rest@ == original.skip(arguments@.len() as int),
            forall|i: int|
                0 <= i < arguments@.len() ==> argument_from_row(original[i]) == Ok::<
                    Argument,
                    ArgumentStatusParseError,
                >(#[trigger] arguments@[i]),
        decreases rest@.len(),
    {
        let row = rest.remove(0);
        assert(row == original[arguments@.len() as int]);
        match Argument::from_db(row) {
            Ok(a) => {
                arguments.push(a);
            },
            Err(e) => {
                assert(!(argument_from_row(original[arguments@.len() as int]) is Ok));
                return Err(e);
            },
        }
    }
    assert forall|i: int| 0 <= i < original.len() implies (#[trigger] argument_from_row(original[i])) is Ok by {
        assert(argument_from_row(original[i]) == Ok::<Argument, ArgumentStatusParseError>(arguments@[i]));
    }
    Ok(arguments)
}

/// Turns a many-row answer into the arguments it holds.
pub fn db_response_to_arguments<E>(db_response: Result<Vec<DBArgument>, E>) -> (result: Result<Vec<Argument>, DaoError<E>>)
    ensures
        match db_response {
            Err(e) => result == Err::<Vec<Argument>, DaoError<E>>(DaoError::Database(e)),
            Ok(rows) => {
                &&& result is Ok <==> all_rows_read(rows@)
                &&& !all_rows_read(rows@) ==> result == Err::<Vec<Argument>, DaoError<E>>(DaoError::Parse(ArgumentStatusParseError))
                &&& result matches Ok(arguments) ==> arguments@.len() == rows@.len() && forall|i: int|
                    0 <= i < rows@.len() ==> argument_from_row(rows@[i]) == Ok::<Argument, ArgumentStatusParseError>(
                        #[trigger] arguments@[i],
                    )
            },
        },
{
    match db_response {
        Ok(db_arguments) => match arguments_from_db(db_arguments) {
            Ok(arguments) => Ok(arguments),
            Err(e) => Err(DaoError::Parse(e)),
        },
        Err(e) => Err(DaoError::Database(e)),
    }
}

} // verus!
