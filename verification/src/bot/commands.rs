//! The decisions and replies of the bot's `notch` commands. Reading the
//! command, asking Discord for user names and talking to the database is
//! left to the caller; what to do and what to say is decided here.

use vstd::prelude::*;
use crate::bot::models::{Argument, UpdateNotchTakerParams};
use crate::text::{decimal, i64_to_decimal, mention_user, push_decimal, signed_decimal, user_mention};

verus! {

/// The reply to `notch help` (and to a bare `notch`).
pub const HELP_MESSAGE: &'static str = "
Commands
`argument @user1 \"description\"` - Starts an internet argument between you and the mentioned user
`arguments` - Shows all open internet arguments
`take-your-notch {argument_id}` - gives the notch to the opposing party
`leaderboard` - Shows ordered list of user notch counts
";

/// The reply when `argument` does not mention exactly one member.
pub const MISSING_DISSENTER: &'static str = "You can't earn a notch without mentioning someone to argue with";

/// The reply when `argument` is used outside a Discord server.
pub const MISSING_GUILD_ID: &'static str = "notch-bot only works in discord servers";

/// The reply when the argument to settle cannot be found.
pub const FAILED_TO_GET_ARGUMENT: &'static str = "Failed to find the argument";

/// The reply when someone outside the argument tries to give its notch away.
pub const NOT_PART_OF_ARGUMENT: &'static str = "You can only give notches if you're part of the argument";

/// The reply when the argument's notch was already taken.
pub const NOTCH_ALREADY_TAKEN: &'static str = "Notch for this argument already taken";

/// The reply when storing a new argument failed.
pub const FAILED_TO_CREATE_ARGUMENT: &'static str = "Failed to create argument";

/// The reply when the open arguments could not be read.
pub const FAILED_TO_PARSE_ARGUMENTS: &'static str = "Failed to parse arguments";

/// The reply when the settled arguments could not be read.
pub const FAILED_TO_GET_TAKEN_ARGUMENTS: &'static str = "Failed to get taken arguments";

/// The magnitude of a signed integer, which always fits the unsigned type.
pub open spec fn magnitude(i: int) -> int {
    if i < 0 {
        -i
    } else {
        i
    }
}

/// The magnitude of `n`, as `i64::unsigned_abs` gives it.
pub fn unsigned_abs(n: i64) -> (m: u64)
    ensures
        m as int == magnitude(n as int),
{
    if n == i64::MIN {
        9223372036854775808u64
    } else if n < 0 {
        (-n) as u64
    } else {
        n as u64
    }
}

/// The first step of `argument`: the Discord server to record the argument
/// in, or the reply that refuses the command. Exactly one member must be
/// mentioned, and the command must come from a server.
pub fn check_argument_command(mention_count: usize, guild_id: Option<u64>) -> (result: Result<u64, &'static str>)
    ensures
        mention_count != 1 ==> (result matches Err(reply) && reply@ == MISSING_DISSENTER@),
        mention_count == 1 && guild_id is None ==> (result matches Err(reply) && reply@ == MISSING_GUILD_ID@),
        mention_count == 1 && guild_id is Some ==> result == Ok::<u64, &'static str>(guild_id->0),
{
    if mention_count != 1 {
        return Err(MISSING_DISSENTER);
    }
    match guild_id {
        None => Err(MISSING_GUILD_ID),
        Some(id) => Ok(id),
    }
}

/// The text that confirms a new argument.
pub open spec fn created_text(argument_id: i64) -> Seq<char> {
    "argument created with id: "@ + signed_decimal(argument_id as int)
}

/// The last step of `argument`: the reply once storing the argument
/// succeeded (with the new argument's id) or failed.
pub fn argument_created_reply(created_id: Option<i64>) -> (reply: String)
    ensures
        created_id matches Some(id) ==> reply@ == created_text(id),
        created_id matches Some(id) ==> reply@ == "argument created with id: "@ + signed_decimal(id as int),
        created_id is None ==> reply@ == FAILED_TO_CREATE_ARGUMENT@,
{
    match created_id {
        Some(id) => {
            let mut reply = "argument created with id: ".to_owned();
            let digits = i64_to_decimal(id);
            reply.append(digits.as_str());
            reply
        },
        None => FAILED_TO_CREATE_ARGUMENT.to_owned(),
    }
}

/// What `take-your-notch` does: reply and stop, or record the notch taker
/// and then confirm.
#[derive(Clone, Debug, PartialEq, Eq)]
pub enum TakeNotchAction {
    Reply(&'static str),
    Award { update: UpdateNotchTakerParams, confirmation: String },
}

/// Who gets the notch when `giver` gives it away: the other party of the
/// argument, or nobody when the giver is not a party. The starter is checked
/// first. Ids are compared as Discord's unsigned ids.
pub open spec fn notch_recipient(giver: u64, argument: Argument) -> Option<u64> {
    if giver == argument.argument_starter_id as u64 {
        Some(argument.dissenter_id as u64)
    } else if giver == argument.dissenter_id as u64 {
        Some(argument.argument_starter_id as u64)
    } else {
        None
    }
}

/// The confirmation that `giver` gave the notch to `taker`.
pub open spec fn confirmation_text(giver: u64, taker: u64) -> Seq<char> {
    user_mention(giver) + " has given the notch to "@ + user_mention(taker)
}

/// Decides `take-your-notch {argument_id}` sent by `giver_id`, given the
/// argument that the lookup found (`None` when it failed). A settled argument
/// is left alone; a party gives the notch to the other party; anyone else is
/// refused.
pub fn plan_take_your_notch(giver_id: u64, argument_id: i64, lookup: Option<&Argument>) -> (action: TakeNotchAction)
    ensures
        lookup is None ==> (action matches TakeNotchAction::Reply(reply) && reply@ == FAILED_TO_GET_ARGUMENT@),
        lookup matches Some(argument) ==> {
            if argument.notch_taker_id is Some {
                (action matches TakeNotchAction::Reply(reply) && reply@ == NOTCH_ALREADY_TAKEN@)
            } else {
                match notch_recipient(giver_id, *argument) {
                    None => (action matches TakeNotchAction::Reply(reply) && reply@ == NOT_PART_OF_ARGUMENT@),
                    Some(taker) => (action matches TakeNotchAction::Award { update, confirmation } && update.argument_id
                        == argument_id && update.notch_taker == taker && confirmation@ == confirmation_text(
                        giver_id,
                        taker,
                    )),
                }
            }
        },
        lookup matches Some(argument) ==> (argument.notch_taker_id is None && giver_id
            != argument.argument_starter_id as u64 && giver_id != argument.dissenter_id as u64 ==> (action matches TakeNotchAction::Reply(
            reply,
        ) && reply@ == NOT_PART_OF_ARGUMENT@)),
        action matches TakeNotchAction::Award { update, confirmation } ==> confirmation@ == user_mention(giver_id)
            + " has given the notch to "@ + user_mention(update.notch_taker),
        action matches TakeNotchAction::Award { update, .. } ==> (lookup matches Some(argument) && ((giver_id
            == argument.argument_starter_id as u64 && update.notch_taker == argument.dissenter_id as u64) || (giver_id
            == argument.dissenter_id as u64 && giver_id != argument.argument_starter_id as u64 && update.notch_taker
            == argument.argument_starter_id as u64))),
{
    match lookup {
        None => TakeNotchAction::Reply(FAILED_TO_GET_ARGUMENT),
        Some(argument) => {
            if argument.notch_taker_id.is_some() {
                return TakeNotchAction::Reply(NOTCH_ALREADY_TAKEN);
            }
            let taker: Option<u64> = if giver_id == argument.argument_starter_id as u64 {
                Some(argument.dissenter_id as u64)
            } else if giver_id == argument.dissenter_id as u64 {
                Some(argument.argument_starter_id as u64)
            } else {
                None
            };
            match taker {
                None => TakeNotchAction::Reply(NOT_PART_OF_ARGUMENT),
                Some(id) => {
                    let mut confirmation = mention_user(giver_id);
                    confirmation.append(" has given the notch to ");
                    let taker_mention = mention_user(id);
                    confirmation.append(taker_mention.as_str());
                    TakeNotchAction::Award {
                        update: UpdateNotchTakerParams { argument_id, notch_taker: id },
                        confirmation,
                    }
                },
            }
        },
    }
}

/// Only a party gives the notch away, and it goes to the other party: the
/// starter's notch goes to the dissenter, the dissenter's to the starter, and
/// anyone else gives nothing.
pub proof fn lemma_notch_goes_to_other_party(giver: u64, argument: Argument)
    ensures
        giver != argument.argument_starter_id as u64 && giver != argument.dissenter_id as u64 ==> notch_recipient(
            giver,
            argument,
        ) is None,
        giver == argument.argument_starter_id as u64 ==> notch_recipient(giver, argument) == Some(
            argument.dissenter_id as u64,
        ),
        giver == argument.dissenter_id as u64 && giver != argument.argument_starter_id as u64 ==> notch_recipient(
            giver,
            argument,
        ) == Some(argument.argument_starter_id as u64),
{
}

/// A party to an argument who gives the notch away never receives it, as
/// long as the argument is between two different members.
pub proof fn lemma_giver_never_receives(giver: u64, argument: Argument)
    requires
        argument.argument_starter_id != argument.dissenter_id,
    ensures
        notch_recipient(giver, argument) matches Some(taker) ==> taker != giver,
        (giver == argument.argument_starter_id as u64 || giver == argument.dissenter_id as u64) ==> notch_recipient(
            giver,
            argument,
        ) is Some,
{
    let starter = argument.argument_starter_id;
    let dissenter = argument.dissenter_id;
    assert(starter != dissenter ==> starter as u64 != dissenter as u64) by (bit_vector);
}

/// One open argument as `arguments` lists it, with the names of its two
/// parties.
#[derive(Clone, Debug, PartialEq, Eq)]
pub struct ArgumentListing {
    pub argument_id: i64,
    pub starter_name: String,
    pub dissenter_name: String,
    pub description: String,
}

/// The lines that list one argument: its id, the two parties, and the
/// description in a code block.
pub open spec fn listing_text(listing: ArgumentListing) -> Seq<char> {
    "Argument id: "@ + signed_decimal(listing.argument_id as int) + " between "@ + listing.starter_name@ + " and "@
        + listing.dissenter_name@ + " about\n"@ + "```\n"@ + listing.description@ + "\n```"@
}

/// The listings one after another.
pub open spec fn listings_text(listings: Seq<ArgumentListing>) -> Seq<char>
    decreases listings.len(),
{
    if listings.len() == 0 {
        Seq::empty()
    } else {
        listings_text(listings.drop_last()) + listing_text(listings.last())
    }
}

/// One more listing adds its text at the end: every listing appears, in
/// order.
pub proof fn lemma_listings_text_push(listings: Seq<ArgumentListing>, listing: ArgumentListing)
    ensures
        listings_text(listings.push(listing)) == listings_text(listings) + listing_text(listing),
{
    assert(listings.push(listing).drop_last() =~= listings);
}

/// The listings of two parts one after the other are the text of the first
/// part followed by that of the second.
pub proof fn lemma_listings_text_concat(first: Seq<ArgumentListing>, second: Seq<ArgumentListing>)
    ensures
        listings_text(first + second) == listings_text(first) + listings_text(second),
    decreases second.len(),
{
    if second.len() == 0 {
        assert(first + second =~= first);
    } else {
        lemma_listings_text_concat(first, second.drop_last());
        assert((first + second).drop_last() =~= first + second.drop_last());
    }
}

/// The reply to `arguments`: a bold title line and every listing.
pub open spec fn arguments_text(listings: Seq<ArgumentListing>) -> Seq<char> {
    "**Arguments:**\n"@ + listings_text(listings)
}

fn push_listing(out: &mut String, listing: &ArgumentListing)
    ensures
        final(out)@ == old(out)@ + listing_text(*listing),
{
    out.append("Argument id: ");
    let id = i64_to_decimal(listing.argument_id);
    out.append(id.as_str());
    out.append(" between ");
    out.append(listing.starter_name.as_str());
    out.append(" and ");
    out.append(listing.dissenter_name.as_str());
    out.append(" about\n");
    out.append("```\n");
    out.append(listing.description.as_str());
    out.append("\n```");
}

/// The reply to `arguments` for the given listings, in order.
pub fn arguments_message(listings: &Vec<ArgumentListing>) -> (message: String)
    ensures
        message@ == arguments_text(listings@),
{
    let mut message = "**Arguments:**\n".to_owned();
    let mut i: usize = 0;
    while i < listings.len()
        invariant
            i <= listings@.len(),
            message@ == "**Arguments:**\n"@ + listings_text(listings@.take(i as int)),
        decreases listings@.len() - i,
    {
        push_listing(&mut message, &listings[i]);
        assert(listings@.take(i + 1).drop_last() == listings@.take(i as int));
        i = i + 1;
    }
    assert(listings@.take(listings@.len() as int) == listings@);
    message
}

/// One line of the leaderboard: the member's name and notch count.
pub open spec fn leaderboard_row_text(row: (String, usize)) -> Seq<char> {
    row.0@ + " : "@ + decimal(row.1 as nat) + "\n"@
}

/// The leaderboard lines one after another.
pub open spec fn leaderboard_rows_text(rows: Seq<(String, usize)>) -> Seq<char>
    decreases rows.len(),
{
    if rows.len() == 0 {
        Seq::empty()
    } else {
        leaderboard_rows_text(rows.drop_last()) + leaderboard_row_text(rows.last())
    }
}

/// One more row adds its line at the end: every row appears, in order.
pub proof fn lemma_leaderboard_rows_text_push(rows: Seq<(String, usize)>, row: (String, usize))
    ensures
        leaderboard_rows_text(rows.push(row)) == leaderboard_rows_text(rows) + leaderboard_row_text(row),
{
    assert(rows.push(row).drop_last() =~= rows);
}

/// The reply to `leaderboard`: a title line and the rows in order.
pub fn leaderboard_message(rows: &Vec<(String, usize)>) -> (message: String)
    ensures
        message@ == "Notch Leaderboard\n"@ + leaderboard_rows_text(rows@),
{
    let mut message = "Notch Leaderboard\n".to_owned();
    let mut i: usize = 0;
    while i < rows.len()
        invariant
            i <= rows@.len(),
            message@ == "Notch Leaderboard\n"@ + leaderboard_rows_text(rows@.take(i as int)),
        decreases rows@.len() - i,
    {
        message.append(rows[i].0.as_str());
        message.append(" : ");
        push_decimal(&mut message, rows[i].1 as u64);
        message.append("\n");
        assert(rows@.take(i + 1).drop_last() == rows@.take(i as int));
        i = i + 1;
    }
    assert(rows@.take(rows@.len() as int) == rows@);
    message
}

} // verus!
