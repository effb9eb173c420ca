use notch_farm::bot::commands::{
    argument_created_reply, arguments_message, check_argument_command, leaderboard_message,
    plan_take_your_notch, unsigned_abs, ArgumentListing, TakeNotchAction, FAILED_TO_CREATE_ARGUMENT,
    FAILED_TO_GET_ARGUMENT, HELP_MESSAGE, MISSING_DISSENTER, MISSING_GUILD_ID,
    NOTCH_ALREADY_TAKEN, NOT_PART_OF_ARGUMENT,
};
use notch_farm::bot::dao::{
    arguments_from_db, arguments_query, db_response_to_argument, db_response_to_arguments, DaoError,
};
use notch_farm::bot::leaderboard::leaderboard_stats;
use notch_farm::bot::models::{
    Argument, CreateArgumentParams, DBArgument, UpdateNotchTakerParams,
};
use notch_farm::status::{ArgumentStatus, ArgumentStatusParseError};

fn row(id: i64, status: &str, taker: Option<i64>) -> DBArgument {
    DBArgument {
        argument_id: id,
        guild_id: 900,
        argument_starter_id: 11,
        dissenter_id: 22,
        description: format!("argument {}", id),
        status: status.to_string(),
        notch_taker_id: taker,
    }
}

fn argument(id: i64, starter: i64, dissenter: i64, taker: Option<i64>) -> Argument {
    Argument {
        argument_id: id,
        guild_id: 900,
        argument_starter_id: starter,
        dissenter_id: dissenter,
        description: "pineapple on pizza".to_string(),
        status: if taker.is_some() { ArgumentStatus::NotchTaken } else { ArgumentStatus::InProgress },
        notch_taker_id: taker,
    }
}

#[test]
fn from_db_copies_fields_and_reads_status() {
    let a = Argument::from_db(row(5, "NotchTaken", Some(22))).unwrap();
    assert_eq!(a.argument_id, 5);
    assert_eq!(a.guild_id, 900);
    assert_eq!(a.argument_starter_id, 11);
    assert_eq!(a.dissenter_id, 22);
    assert_eq!(a.description, "argument 5");
    assert_eq!(a.status, ArgumentStatus::NotchTaken);
    assert_eq!(a.notch_taker_id, Some(22));
}

#[test]
fn from_db_refuses_unknown_status() {
    assert_eq!(Argument::from_db(row(5, "Closed", None)), Err(ArgumentStatusParseError));
}

#[test]
fn stored_row_reads_back() {
    let params = CreateArgumentParams {
        guild_id: 900,
        argument_starter_id: 11,
        dissenter_id: 22,
        description: "tabs or spaces".to_string(),
    };
    let new_row = params.into_row();
    let stored = DBArgument {
        argument_id: 1,
        guild_id: new_row.guild_id,
        argument_starter_id: new_row.argument_starter_id,
        dissenter_id: new_row.dissenter_id,
        description: new_row.description,
        status: new_row.status,
        notch_taker_id: None,
    };
    let read = Argument::from_db(stored).unwrap();
    assert_eq!(read.status, ArgumentStatus::InProgress);
    assert_eq!(read.guild_id, 900);
    assert_eq!(read.argument_starter_id, 11);
    assert_eq!(read.dissenter_id, 22);
    assert_eq!(read.description, "tabs or spaces");
}

#[test]
fn into_row_keeps_id_bits() {
    let params = CreateArgumentParams {
        guild_id: u64::MAX,
        argument_starter_id: 1 << 63,
        dissenter_id: 3,
        description: String::new(),
    };
    let new_row = params.into_row();
    assert_eq!(new_row.guild_id, -1);
    assert_eq!(new_row.argument_starter_id, i64::MIN);
    assert_eq!(new_row.dissenter_id, 3);
    assert_eq!(new_row.status, "InProgress");
}

#[test]
fn into_update_marks_notch_taken() {
    let update = UpdateNotchTakerParams { argument_id: 8, notch_taker: 22 }.into_update();
    assert_eq!(update.argument_id, 8);
    assert_eq!(update.notch_taker_id, 22);
    assert_eq!(update.status, "NotchTaken");
}

#[test]
fn query_for_open_and_taken_arguments() {
    let open = arguments_query(900, ArgumentStatus::InProgress);
    assert_eq!(open.guild_id, 900);
    assert_eq!(open.status, "InProgress");
    let taken = arguments_query(u64::MAX, ArgumentStatus::NotchTaken);
    assert_eq!(taken.guild_id, -1);
    assert_eq!(taken.status, "NotchTaken");
}

#[test]
fn db_response_to_argument_cases() {
    let ok: Result<DBArgument, &str> = Ok(row(3, "InProgress", None));
    let a = db_response_to_argument(ok).unwrap();
    assert_eq!(a.argument_id, 3);
    assert_eq!(a.status, ArgumentStatus::InProgress);

    let failed: Result<DBArgument, &str> = Err("no such row");
    assert_eq!(db_response_to_argument(failed), Err(DaoError::Database("no such row")));

    let bad: Result<DBArgument, &str> = Ok(row(3, "Unknown", None));
    assert_eq!(db_response_to_argument(bad), Err(DaoError::Parse(ArgumentStatusParseError)));
}

#[test]
fn arguments_from_db_keeps_order() {
    let rows = vec![row(1, "InProgress", None), row(2, "NotchTaken", Some(11)), row(3, "InProgress", None)];
    let arguments = arguments_from_db(rows).unwrap();
    let ids: Vec<i64> = arguments.iter().map(|a| a.argument_id).collect();
    assert_eq!(ids, vec![1, 2, 3]);
    assert_eq!(arguments[1].status, ArgumentStatus::NotchTaken);
    assert!(arguments_from_db(Vec::new()).unwrap().is_empty());
}

#[test]
fn arguments_from_db_fails_on_any_bad_row() {
    let rows = vec![row(1, "InProgress", None), row(2, "bogus", None), row(3, "InProgress", None)];
    assert_eq!(arguments_from_db(rows), Err(ArgumentStatusParseError));
}

#[test]
fn db_response_to_arguments_cases() {
    let failed: Result<Vec<DBArgument>, u8> = Err(7);
    assert_eq!(db_response_to_arguments(failed), Err(DaoError::Database(7)));
    let bad: Result<Vec<DBArgument>, u8> = Ok(vec![row(1, "x", None)]);
    assert_eq!(db_response_to_arguments(bad), Err(DaoError::Parse(ArgumentStatusParseError)));
    let good: Result<Vec<DBArgument>, u8> = Ok(vec![row(4, "InProgress", None)]);
    assert_eq!(db_response_to_arguments(good).unwrap().len(), 1);
}

#[test]
fn help_message_text() {
    assert_eq!(
        HELP_MESSAGE,
        "\nCommands\n`argument @user1 \"description\"` - Starts an internet argument between you and the mentioned user\n`arguments` - Shows all open internet arguments\n`take-your-notch {argument_id}` - gives the notch to the opposing party\n`leaderboard` - Shows ordered list of user notch counts\n"
    );
}

#[test]
fn argument_command_needs_one_mention() {
    assert_eq!(check_argument_command(0, Some(900)), Err(MISSING_DISSENTER));
    assert_eq!(check_argument_command(2, Some(900)), Err(MISSING_DISSENTER));
    assert_eq!(check_argument_command(2, None), Err(MISSING_DISSENTER));
    assert_eq!(
        MISSING_DISSENTER,
        "You can't earn a notch without mentioning someone to argue with"
    );
}

#[test]
fn argument_command_needs_a_server() {
    assert_eq!(check_argument_command(1, None), Err(MISSING_GUILD_ID));
    assert_eq!(MISSING_GUILD_ID, "notch-bot only works in discord servers");
    assert_eq!(check_argument_command(1, Some(900)), Ok(900));
}

#[test]
fn argument_created_replies() {
    assert_eq!(argument_created_reply(Some(42)), "argument created with id: 42");
    assert_eq!(argument_created_reply(Some(-3)), "argument created with id: -3");
    assert_eq!(argument_created_reply(None), "Failed to create argument");
    assert_eq!(FAILED_TO_CREATE_ARGUMENT, "Failed to create argument");
}

#[test]
fn take_your_notch_when_lookup_failed() {
    assert_eq!(
        plan_take_your_notch(11, 5, None),
        TakeNotchAction::Reply(FAILED_TO_GET_ARGUMENT)
    );
    assert_eq!(FAILED_TO_GET_ARGUMENT, "Failed to find the argument");
}

#[test]
fn take_your_notch_when_already_taken() {
    let a = argument(5, 11, 22, Some(22));
    assert_eq!(plan_take_your_notch(11, 5, Some(&a)), TakeNotchAction::Reply(NOTCH_ALREADY_TAKEN));
    assert_eq!(NOTCH_ALREADY_TAKEN, "Notch for this argument already taken");
}

#[test]
fn take_your_notch_by_outsider() {
    let a = argument(5, 11, 22, None);
    assert_eq!(plan_take_your_notch(33, 5, Some(&a)), TakeNotchAction::Reply(NOT_PART_OF_ARGUMENT));
    assert_eq!(
        NOT_PART_OF_ARGUMENT,
        "You can only give notches if you're part of the argument"
    );
}

#[test]
fn take_your_notch_by_starter_goes_to_dissenter() {
    let a = argument(5, 11, 22, None);
    match plan_take_your_notch(11, 5, Some(&a)) {
        TakeNotchAction::Award { update, confirmation } => {
            assert_eq!(update, UpdateNotchTakerParams { argument_id: 5, notch_taker: 22 });
            assert_eq!(confirmation, "<@11> has given the notch to <@22>");
        }
        other => panic!("unexpected {:?}", other),
    }
}

#[test]
fn take_your_notch_by_dissenter_goes_to_starter() {
    let a = argument(6, 11, 22, None);
    match plan_take_your_notch(22, 6, Some(&a)) {
        TakeNotchAction::Award { update, confirmation } => {
            assert_eq!(update, UpdateNotchTakerParams { argument_id: 6, notch_taker: 11 });
            assert_eq!(confirmation, "<@22> has given the notch to <@11>");
        }
        other => panic!("unexpected {:?}", other),
    }
}

#[test]
fn take_your_notch_with_self_argument() {
    // An argument with oneself: the starter is checked first and gets the notch.
    let a = argument(7, 11, 11, None);
    match plan_take_your_notch(11, 7, Some(&a)) {
        TakeNotchAction::Award { update, .. } => assert_eq!(update.notch_taker, 11),
        other => panic!("unexpected {:?}", other),
    }
}

#[test]
fn take_your_notch_compares_unsigned_ids() {
    let a = argument(8, -1, 22, None);
    match plan_take_your_notch(u64::MAX, 8, Some(&a)) {
        TakeNotchAction::Award { update, confirmation } => {
            assert_eq!(update.notch_taker, 22);
            assert_eq!(confirmation, "<@18446744073709551615> has given the notch to <@22>");
        }
        other => panic!("unexpected {:?}", other),
    }
}

#[test]
fn unsigned_abs_values() {
    assert_eq!(unsigned_abs(5), 5);
    assert_eq!(unsigned_abs(-5), 5);
    assert_eq!(unsigned_abs(0), 0);
    assert_eq!(unsigned_abs(i64::MIN), 9223372036854775808);
}

#[test]
fn arguments_message_text() {
    let listings = vec![
        ArgumentListing {
            argument_id: 1,
            starter_name: "alice".to_string(),
            dissenter_name: "bob".to_string(),
            description: "vim or emacs".to_string(),
        },
        ArgumentListing {
            argument_id: 2,
            starter_name: "carol".to_string(),
            dissenter_name: "dave".to_string(),
            description: "gif".to_string(),
        },
    ];
    assert_eq!(
        arguments_message(&listings),
        "**Arguments:**\nArgument id: 1 between alice and bob about\n```\nvim or emacs\n```Argument id: 2 between carol and dave about\n```\ngif\n```"
    );
    assert_eq!(arguments_message(&Vec::new()), "**Arguments:**\n");
}

#[test]
fn leaderboard_counts_and_orders() {
    let taken = vec![
        argument(1, 11, 22, Some(22)),
        argument(2, 11, 33, Some(11)),
        argument(3, 22, 33, Some(22)),
        argument(4, 33, 22, Some(22)),
        argument(5, 11, 33, Some(33)),
        argument(6, 11, 33, None),
        argument(7, 44, 33, Some(11)),
    ];
    let stats = leaderboard_stats(taken);
    assert_eq!(stats.len(), 3);
    assert_eq!(stats[0], (22, 3));
    assert_eq!(stats[1], (11, 2));
    assert_eq!(stats[2], (33, 1));
}

#[test]
fn leaderboard_ties_and_empty() {
    assert!(leaderboard_stats(Vec::new()).is_empty());
    assert!(leaderboard_stats(vec![argument(1, 11, 22, None)]).is_empty());
    let stats = leaderboard_stats(vec![argument(1, 11, 22, Some(11)), argument(2, 11, 22, Some(22))]);
    assert_eq!(stats.len(), 2);
    let mut ids: Vec<i64> = stats.iter().map(|s| s.0).collect();
    ids.sort();
    assert_eq!(ids, vec![11, 22]);
    assert!(stats.iter().all(|s| s.1 == 1));
}

#[test]
fn leaderboard_message_text() {
    let rows = vec![("alice".to_string(), 3usize), ("bob".to_string(), 10usize)];
    assert_eq!(leaderboard_message(&rows), "Notch Leaderboard\nalice : 3\nbob : 10\n");
    assert_eq!(leaderboard_message(&Vec::new()), "Notch Leaderboard\n");
}

#[test]
fn leaderboard_sorts_many_takers() {
    let mut taken = Vec::new();
    let mut next_id = 0;
    for taker in 1..=6i64 {
        for _ in 0..taker {
            next_id += 1;
            taken.push(argument(next_id, 100, 200, Some(taker * 10)));
        }
    }
    let stats = leaderboard_stats(taken);
    assert_eq!(stats, vec![(60, 6), (50, 5), (40, 4), (30, 3), (20, 2), (10, 1)]);
}
