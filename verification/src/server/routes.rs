//! What the server answers. Talking to the database and writing the HTTP
//! response is left to the caller; which status and which body is decided
//! here.

use vstd::prelude::*;
use crate::server::models::{
    Argument, DBArgument, UpdateNotchTakerRequest, all_rows_read, argument_from_row, arguments_from_db,
};
use crate::status::{ArgumentStatus, ArgumentStatusParseError, status_text};

verus! {

/// HTTP 200.
pub const OK: u16 = 200;

/// HTTP 201.
pub const CREATED: u16 = 201;

/// HTTP 400.
pub const BAD_REQUEST: u16 = 400;

/// HTTP 500.
pub const INTERNAL_SERVER_ERROR: u16 = 500;

/// A response: a status with a JSON body, or a bare status.
#[derive(Clone, Debug, PartialEq, Eq)]
pub enum HttpReply<T> {
    Json { status: u16, body: T },
    Empty { status: u16 },
}

/// Why looking an argument up gave none: the database failed, or the stored
/// status could not be read.
#[derive(Clone, Debug, PartialEq, Eq)]
pub enum LookupError<E> {
    Database(E),
    Parse(ArgumentStatusParseError),
}

/// The response for a single-row answer of the database.
pub open spec fn row_reply<E>(result: Result<DBArgument, E>, happy_status: u16) -> HttpReply<Argument> {
    match result {
        Ok(row) => match argument_from_row(row) {
            Ok(argument) => HttpReply::Json { status: happy_status, body: argument },
            Err(_) => HttpReply::Empty { status: INTERNAL_SERVER_ERROR },
        },
        Err(_) => HttpReply::Empty { status: INTERNAL_SERVER_ERROR },
    }
}

/// Answers with the argument that the database returned, under the given
/// status, or with 500 when the database failed or the row does not read.
pub fn db_to_responder<E>(result: Result<DBArgument, E>, happy_status: u16) -> (reply: HttpReply<Argument>)
    ensures
        reply == row_reply(result, happy_status),
{
    match result {
        Ok(db_argument) => match Argument::from_db(db_argument) {
            Ok(argument) => HttpReply::Json { status: happy_status, body: argument },
            Err(_) => HttpReply::Empty { status: INTERNAL_SERVER_ERROR },
        },
        Err(_) => HttpReply::Empty { status: INTERNAL_SERVER_ERROR },
    }
}

/// The answer to `GET /arguments`: every argument of the group under 201,
/// or 500 when the database failed or a row does not read.
pub fn arguments_reply<E>(db_response: Result<Vec<DBArgument>, E>) -> (reply: HttpReply<Vec<Argument>>)
    ensures
        match db_response {
            Err(_) => reply == HttpReply::<Vec<Argument>>::Empty { status: INTERNAL_SERVER_ERROR },
            Ok(rows) => if all_rows_read(rows@) {
                reply matches HttpReply::Json { status, body } && status == CREATED && body@.len() == rows@.len()
                    && forall|i: int|
                    0 <= i < rows@.len() ==> argument_from_row(rows@[i]) == Ok::<
                        Argument,
                        ArgumentStatusParseError,
                    >(#[trigger] body@[i])
            } else {
                reply == HttpReply::<Vec<Argument>>::Empty { status: INTERNAL_SERVER_ERROR }
            },
        },
{
    match db_response {
        Ok(db_arguments) => match arguments_from_db(db_arguments) {
            Ok(arguments) => HttpReply::Json { status: CREATED, body: arguments },
            Err(_) => HttpReply::Empty { status: INTERNAL_SERVER_ERROR },
        },
        Err(_) => HttpReply::Empty { status: INTERNAL_SERVER_ERROR },
    }
}

/// The argument that a lookup by id reads as.
pub open spec fn lookup_result<E>(db_response: Result<DBArgument, E>) -> Result<Argument, LookupError<E>> {
    match db_response {
        Ok(row) => match argument_from_row(row) {
            Ok(a) => Ok(a),
            Err(e) => Err(LookupError::Parse(e)),
        },
        Err(e) => Err(LookupError::Database(e)),
    }
}

/// The argument that a stored row holds, with its status text read as
/// `status`: every field as stored.
pub open spec fn stored_argument(row: DBArgument, status: ArgumentStatus) -> Argument {
    Argument {
        argument_id: row.argument_id,
        group_id: row.group_id,
        argument_starter: row.argument_starter,
        dissenter: row.dissenter,
        description: row.description,
        status: status,
        notch_taker: row.notch_taker,
    }
}

/// A looked-up row whose status reads gives the argument with every field
/// as stored, its notch taker included; a failed lookup gives the
/// database's error.
pub proof fn lemma_lookup_reads_stored_row<E>(row: DBArgument, status: ArgumentStatus)
    requires
        row.status@ == status_text(status),
    ensures
        lookup_result::<E>(Ok(row)) == Ok::<Argument, LookupError<E>>(
            (Argument {
                argument_id: row.argument_id,
                group_id: row.group_id,
                argument_starter: row.argument_starter,
                dissenter: row.dissenter,
                description: row.description,
                status: status,
                notch_taker: row.notch_taker,
            }),
        ),
{
    crate::server::models::lemma_stored_row_reads_back(row, status);
}

/// A failed lookup gives the database's error unchanged.
pub proof fn lemma_lookup_failure_is_database_error<E>(e: E)
    ensures
        lookup_result::<E>(Err(e)) == Err::<Argument, LookupError<E>>(LookupError::Database(e)),
{
}

/// A stored row whose status reads is served under the given status with
/// every field as stored.
pub proof fn lemma_row_reply_serves_stored_row<E>(row: DBArgument, status: ArgumentStatus, happy_status: u16)
    requires
        row.status@ == status_text(status),
    ensures
        row_reply::<E>(Ok(row), happy_status) == (HttpReply::Json {
            status: happy_status,
            body: (Argument {
                argument_id: row.argument_id,
                group_id: row.group_id,
                argument_starter: row.argument_starter,
                dissenter: row.dissenter,
                description: row.description,
                status: status,
                notch_taker: row.notch_taker,
            }),
        }),
{
    crate::server::models::lemma_stored_row_reads_back(row, status);
}

/// The notch of an argument can be granted only while nobody took it, and
/// then exactly to its starter or its dissenter.
pub proof fn lemma_notch_granted_exactly_to_parties(argument: Argument, notch_taker: i64)
    ensures
        argument.notch_taker is Some ==> !may_take_notch(argument, notch_taker),
        argument.notch_taker is None ==> (may_take_notch(argument, notch_taker) <==> (notch_taker
            == argument.argument_starter || notch_taker == argument.dissenter)),
{
}

/// Reads the answer to a lookup by id.
pub fn internal_get_argument<E>(db_response: Result<DBArgument, E>) -> (result: Result<Argument, LookupError<E>>)
    ensures
        result == lookup_result(db_response),
        forall|status: ArgumentStatus|
            #![trigger status_text(status)]
            db_response matches Ok(row) ==> (row.status@ == status_text(status) ==> result == Ok::<
                Argument,
                LookupError<E>,
            >(stored_argument(row, status))),
{
    proof {
        if db_response is Ok {
            let row = db_response->Ok_0;
            assert forall|status: ArgumentStatus|
                #![trigger status_text(status)]
                row.status@ == status_text(status) implies lookup_result(db_response) == Ok::<
                    Argument,
                    LookupError<E>,
                >(stored_argument(row, status)) by {
                lemma_lookup_reads_stored_row::<E>(row, status);
            }
        }
    }
    match db_response {
        Ok(db_argument) => match Argument::from_db(db_argument) {
            Ok(a) => Ok(a),
            Err(e) => Err(LookupError::Parse(e)),
        },
        Err(e) => Err(LookupError::Database(e)),
    }
}

/// The answer to `GET /arguments/{argument_id}`: the argument under 200, or
/// 500 when it could not be looked up.
pub fn argument_reply<E>(lookup: Result<Argument, E>) -> (reply: HttpReply<Argument>)
    ensures
        match lookup {
            Ok(argument) => reply == HttpReply::Json { status: OK, body: argument },
            Err(_) => reply == HttpReply::<Argument>::Empty { status: INTERNAL_SERVER_ERROR },
        },
{
    match lookup {
        Ok(argument) => HttpReply::Json { status: OK, body: argument },
        Err(_) => HttpReply::Empty { status: INTERNAL_SERVER_ERROR },
    }
}

/// The values that settle a stored argument.
#[derive(Clone, Debug, PartialEq, Eq)]
pub struct NotchTakerUpdate {
    pub argument_id: i64,
    pub notch_taker: i64,
    pub status: String,
}

/// What `PUT /arguments/{argument_id}/notch-taker` does: answer at once, or
/// store the update and answer with the stored argument.
#[derive(Clone, Debug, PartialEq, Eq)]
pub enum NotchTakerPlan {
    Respond(HttpReply<Argument>),
    Update(NotchTakerUpdate),
}

/// Whether the requested member may take the argument's notch: nobody took
/// it yet, and the member is one of the two parties.
pub open spec fn may_take_notch(argument: Argument, notch_taker: i64) -> bool {
    argument.notch_taker is None && (notch_taker == argument.argument_starter || notch_taker == argument.dissenter)
}

/// Decides `PUT /arguments/{argument_id}/notch-taker`, given the looked-up
/// argument: 500 when the lookup failed, the update when the request may be
/// granted, 400 otherwise.
pub fn plan_notch_taker_update<E>(
    argument_id: i64,
    lookup: Result<Argument, E>,
    request: &UpdateNotchTakerRequest,
) -> (plan: NotchTakerPlan)
    ensures
        match lookup {
            Err(_) => plan == NotchTakerPlan::Respond(HttpReply::Empty { status: INTERNAL_SERVER_ERROR }),
            Ok(argument) => if may_take_notch(argument, request.notch_taker) {
                plan matches NotchTakerPlan::Update(update) && update.argument_id == argument_id
                    && update.notch_taker == request.notch_taker && update.status@ == status_text(
                    ArgumentStatus::NotchTaken,
                )
            } else {
                plan == NotchTakerPlan::Respond(HttpReply::Empty { status: BAD_REQUEST })
            },
        },
        lookup matches Ok(argument) && argument.notch_taker is None && (request.notch_taker
            == argument.argument_starter || request.notch_taker == argument.dissenter) ==> (plan is Update),
        lookup matches Ok(argument) && request.notch_taker != argument.argument_starter && request.notch_taker
            != argument.dissenter ==> plan == NotchTakerPlan::Respond(HttpReply::Empty { status: BAD_REQUEST }),
        lookup matches Ok(argument) && argument.notch_taker is Some ==> plan == NotchTakerPlan::Respond(
            HttpReply::Empty { status: BAD_REQUEST },
        ),
        plan matches NotchTakerPlan::Update(update) ==> (lookup matches Ok(argument) && (update.notch_taker
            == argument.argument_starter || update.notch_taker == argument.dissenter)),
{
    match lookup {
        Err(_) => NotchTakerPlan::Respond(HttpReply::Empty { status: INTERNAL_SERVER_ERROR }),
        Ok(argument) => {
            let argument_not_taken = argument.notch_taker.is_none();
            let valid_notch_taker = request.notch_taker == argument.argument_starter || request.notch_taker
                == argument.dissenter;
            if argument_not_taken && valid_notch_taker {
                NotchTakerPlan::Update(
                    NotchTakerUpdate {
                        argument_id,
                        notch_taker: request.notch_taker,
                        status: ArgumentStatus::NotchTaken.as_str().to_owned(),
                    },
                )
            } else {
                NotchTakerPlan::Respond(HttpReply::Empty { status: BAD_REQUEST })
            }
        },
    }
}

} // verus!
