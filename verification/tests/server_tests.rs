use notch_farm::server::models::{
    arguments_from_db, Argument, CreateArgumentRequest, DBArgument, GetArgumentsParams,
    UpdateNotchTakerRequest,
};
use notch_farm::server::routes::{
    argument_reply, arguments_reply, db_to_responder, internal_get_argument, plan_notch_taker_update,
    HttpReply, LookupError, NotchTakerPlan, BAD_REQUEST, CREATED, INTERNAL_SERVER_ERROR, OK,
};
use notch_farm::status::{ArgumentStatus, ArgumentStatusParseError};

fn row(id: i64, status: &str, taker: Option<i64>) -> DBArgument {
    DBArgument {
        argument_id: id,
        group_id: 77,
        argument_starter: 1,
        dissenter: 2,
        description: "cats or dogs".to_string(),
        status: status.to_string(),
        notch_taker: taker,
    }
}

fn argument(taker: Option<i64>) -> Argument {
    Argument::from_db(row(9, if taker.is_some() { "NotchTaken" } else { "InProgress" }, taker)).unwrap()
}

#[test]
fn status_codes() {
    assert_eq!((OK, CREATED, BAD_REQUEST, INTERNAL_SERVER_ERROR), (200, 201, 400, 500));
}

#[test]
fn server_from_db() {
    let a = Argument::from_db(row(3, "InProgress", None)).unwrap();
    assert_eq!(a.argument_id, 3);
    assert_eq!(a.group_id, 77);
    assert_eq!(a.argument_starter, 1);
    assert_eq!(a.dissenter, 2);
    assert_eq!(a.description, "cats or dogs");
    assert_eq!(a.status, ArgumentStatus::InProgress);
    assert_eq!(a.notch_taker, None);
    assert_eq!(Argument::from_db(row(3, "?", None)), Err(ArgumentStatusParseError));
}

#[test]
fn server_arguments_from_db() {
    let rows = vec![row(1, "InProgress", None), row(2, "NotchTaken", Some(2))];
    let arguments = arguments_from_db(rows).unwrap();
    assert_eq!(arguments[0].argument_id, 1);
    assert_eq!(arguments[1].notch_taker, Some(2));
    assert_eq!(arguments_from_db(vec![row(1, "no", None)]), Err(ArgumentStatusParseError));
}

#[test]
fn create_request_row() {
    let request = CreateArgumentRequest {
        group_id: 77,
        argument_starter: 1,
        dissenter: 2,
        description: "tea".to_string(),
    };
    let new_row = request.into_row();
    assert_eq!(new_row.group_id, 77);
    assert_eq!(new_row.argument_starter, 1);
    assert_eq!(new_row.dissenter, 2);
    assert_eq!(new_row.description, "tea");
    assert_eq!(new_row.status, "InProgress");
    let params = GetArgumentsParams { group_id: 77 };
    assert_eq!(params.group_id, 77);
}

#[test]
fn responder_for_created_row() {
    let ok: Result<DBArgument, ()> = Ok(row(1, "InProgress", None));
    assert_eq!(
        db_to_responder(ok, CREATED),
        HttpReply::Json { status: 201, body: argument_with_id(1) }
    );
    let failed: Result<DBArgument, ()> = Err(());
    assert_eq!(db_to_responder(failed, CREATED), HttpReply::Empty { status: 500 });
    let bad: Result<DBArgument, ()> = Ok(row(1, "x", None));
    assert_eq!(db_to_responder(bad, OK), HttpReply::Empty { status: 500 });
}

fn argument_with_id(id: i64) -> Argument {
    Argument::from_db(row(id, "InProgress", None)).unwrap()
}

#[test]
fn list_reply() {
    let ok: Result<Vec<DBArgument>, ()> = Ok(vec![row(1, "InProgress", None), row(2, "InProgress", None)]);
    match arguments_reply(ok) {
        HttpReply::Json { status, body } => {
            assert_eq!(status, 201);
            assert_eq!(body, vec![argument_with_id(1), argument_with_id(2)]);
        }
        other => panic!("unexpected {:?}", other),
    }
    let failed: Result<Vec<DBArgument>, ()> = Err(());
    assert_eq!(arguments_reply(failed), HttpReply::Empty { status: 500 });
    let bad: Result<Vec<DBArgument>, ()> = Ok(vec![row(1, "InProgress", None), row(2, "?", None)]);
    assert_eq!(arguments_reply(bad), HttpReply::Empty { status: 500 });
}

#[test]
fn lookup_and_reply() {
    let found: Result<DBArgument, &str> = Ok(row(4, "InProgress", None));
    let lookup = internal_get_argument(found);
    assert_eq!(lookup, Ok(argument_with_id(4)));
    assert_eq!(argument_reply(lookup), HttpReply::Json { status: 200, body: argument_with_id(4) });

    let missing: Result<DBArgument, &str> = Err("row not found");
    let lookup = internal_get_argument(missing);
    assert_eq!(lookup, Err(LookupError::Database("row not found")));
    assert_eq!(argument_reply(lookup), HttpReply::Empty { status: 500 });

    let bad: Result<DBArgument, &str> = Ok(row(4, "?", None));
    assert_eq!(internal_get_argument(bad), Err(LookupError::Parse(ArgumentStatusParseError)));
}

#[test]
fn notch_taker_update_granted() {
    for taker in [1, 2] {
        let plan = plan_notch_taker_update::<()>(9, Ok(argument(None)), &UpdateNotchTakerRequest { notch_taker: taker });
        match plan {
            NotchTakerPlan::Update(update) => {
                assert_eq!(update.argument_id, 9);
                assert_eq!(update.notch_taker, taker);
                assert_eq!(update.status, "NotchTaken");
            }
            other => panic!("unexpected {:?}", other),
        }
    }
}

#[test]
fn notch_taker_update_refused() {
    let outsider = plan_notch_taker_update::<()>(9, Ok(argument(None)), &UpdateNotchTakerRequest { notch_taker: 3 });
    assert_eq!(outsider, NotchTakerPlan::Respond(HttpReply::Empty { status: 400 }));
    let settled = plan_notch_taker_update::<()>(9, Ok(argument(Some(2))), &UpdateNotchTakerRequest { notch_taker: 1 });
    assert_eq!(settled, NotchTakerPlan::Respond(HttpReply::Empty { status: 400 }));
    let failed = plan_notch_taker_update::<()>(9, Err(()), &UpdateNotchTakerRequest { notch_taker: 1 });
    assert_eq!(failed, NotchTakerPlan::Respond(HttpReply::Empty { status: 500 }));
}
