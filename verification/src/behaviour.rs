//! What a caller of the oracle may rely on.
//!
//! Each law here is about calls of the contract functions themselves: it takes
//! what a call was given, what it answered and the host before and after it, and
//! says how these are related. It does so in terms of what the host holds alone:
//! the stored values with their keys and fields, the published events with their
//! topics, and the calls of other contracts.
use crate::contract::OracleContract;
use crate::host::{
    fresh_ttl, instance_entries, made_calls, max_ttl, persistent_entries, persistent_ttls,
    published_events, strkey, text, Call, Event, EventData, Field,
};
use crate::types::{Error, MatchResult, ResultEntry};
use soroban_sdk::{Address, Env};
use vstd::prelude::*;

verus! {

/// Law: every function can be called in every state and with all arguments,
/// except that the first admin is only set where there is none.
pub proof fn law_every_request_is_admitted(
    env: &mut Env,
    reader: &Env,
    address: Address,
    approver: &Address,
    match_id: u64,
    game_id: soroban_sdk::String,
    result: MatchResult,
    found: bool,
)
    ensures
        !instance_entries(*old(env)).contains_key("Admin"@) ==> call_requires(
            OracleContract::initialize,
            (env, address),
        ),
        call_requires(OracleContract::try_initialize, (env, address)),
        call_requires(OracleContract::current_admin, (reader,)),
        call_requires(
            OracleContract::submit_result,
            (env, approver, match_id, game_id, result, address),
        ),
        call_requires(OracleContract::record_result, (env, match_id, game_id, result, found)),
        call_requires(OracleContract::get_result, (reader, match_id)),
        call_requires(OracleContract::has_result, (reader, match_id)),
        call_requires(OracleContract::has_result_admin, (reader, approver, match_id)),
        call_requires(OracleContract::update_admin, (env, approver, address)),
{
}

/// Law: the first admin is only set where there is none. Setting it stores its
/// address and publishes one event with the topics `oracle` and `init` and that
/// address, be it that of an account or of a contract. Nothing else changes.
pub proof fn law_initialize_stores_and_announces_the_admin(env: &mut Env, admin: Address)
    requires
        call_ensures(OracleContract::initialize, (env, admin), ()),
    ensures
        !instance_entries(*old(env)).contains_key("Admin"@),
        instance_entries(*final(env)) == instance_entries(*old(env)).insert(
            "Admin"@,
            Some(strkey(admin)),
        ),
        published_events(*final(env)) == published_events(*old(env)).push(
            Event {
                topics: seq!["oracle"@, "init"@],
                data: EventData::Address(strkey(admin)),
            },
        ),
        persistent_entries(*final(env)) == persistent_entries(*old(env)),
        persistent_ttls(*final(env)) == persistent_ttls(*old(env)),
        made_calls(*final(env)) == made_calls(*old(env)),
        fresh_ttl(*final(env)) == fresh_ttl(*old(env)),
        max_ttl(*final(env)) == max_ttl(*old(env)),
{
}

/// Law: an attempt to set the first admin succeeds exactly where nothing is kept
/// as the admin. It then stores the admin and announces it with the topics
/// `oracle` and `init`; otherwise nothing changes.
pub proof fn law_try_initialize_acts_once(env: &mut Env, admin: Address, done: bool)
    requires
        call_ensures(OracleContract::try_initialize, (env, admin), done),
    ensures
        done <==> !instance_entries(*old(env)).contains_key("Admin"@),
        done ==> {
            &&& instance_entries(*final(env)) == instance_entries(*old(env)).insert(
                "Admin"@,
                Some(strkey(admin)),
            )
            &&& published_events(*final(env)) == published_events(*old(env)).push(
                Event {
                    topics: seq!["oracle"@, "init"@],
                    data: EventData::Address(strkey(admin)),
                },
            )
        },
        !done ==> {
            &&& instance_entries(*final(env)) == instance_entries(*old(env))
            &&& published_events(*final(env)) == published_events(*old(env))
        },
        persistent_entries(*final(env)) == persistent_entries(*old(env)),
        persistent_ttls(*final(env)) == persistent_ttls(*old(env)),
        made_calls(*final(env)) == made_calls(*old(env)),
        fresh_ttl(*final(env)) == fresh_ttl(*old(env)),
        max_ttl(*final(env)) == max_ttl(*old(env)),
{
}

/// Law: once an admin has been set, no second attempt succeeds, and asking for
/// the admin gives the first one.
pub proof fn law_second_initialization_fails(
    env: &mut Env,
    admin: Address,
    done: bool,
    later: &mut Env,
    other: Address,
    done_again: bool,
    reader: &Env,
    answer: Result<Address, Error>,
)
    requires
        call_ensures(OracleContract::try_initialize, (env, admin), done),
        *old(later) == *final(env),
        call_ensures(OracleContract::try_initialize, (later, other), done_again),
        *reader == *final(later),
        call_ensures(OracleContract::current_admin, (reader,), answer),
    ensures
        !done_again,
        done ==> (answer matches Ok(a) && strkey(a) == strkey(admin)),
{
}

/// Law: asking for the admin gives the address that is kept as such, and
/// `Unauthorized` exactly where no address is.
pub proof fn law_current_admin_is_the_stored_address(
    env: &Env,
    answer: Result<Address, Error>,
    address: Seq<u8>,
)
    requires
        call_ensures(OracleContract::current_admin, (env,), answer),
    ensures
        (answer matches Ok(a) && strkey(a) == address) <==> instance_entries(*env).contains_pair(
            "Admin"@,
            Some(address),
        ),
        answer matches Err(e) ==> e == Error::Unauthorized,
{
}

/// Law: what a submission is answered. It is `Unauthorized` exactly where the
/// approver is not kept as the admin. Of an approved submission it is
/// `MatchNotFound` exactly where `escrow` is not the address of a contract, which
/// starts with the letter C, or the call of that contract failed; otherwise it is
/// `AlreadySubmitted` exactly where something is kept for the match, and `Ok`
/// where nothing is.
pub proof fn law_submission_is_answered_by_the_first_obstacle(
    env: &mut Env,
    approver: &Address,
    match_id: u64,
    game_id: soroban_sdk::String,
    result: MatchResult,
    escrow: Address,
    answer: Result<(), Error>,
)
    requires
        call_ensures(
            OracleContract::submit_result,
            (env, approver, match_id, game_id, result, escrow),
            answer,
        ),
    ensures
        answer == Err::<(), Error>(Error::Unauthorized) <==> !instance_entries(
            *old(env),
        ).contains_pair("Admin"@, Some(strkey(*approver))),
        answer == Err::<(), Error>(Error::MatchNotFound) <==> {
            &&& instance_entries(*old(env)).contains_pair("Admin"@, Some(strkey(*approver)))
            &&& {
                ||| strkey(escrow).len() == 0
                ||| strkey(escrow)[0] != 67u8
                ||| !made_calls(*final(env)).last().succeeded
            }
        },
        answer == Err::<(), Error>(Error::AlreadySubmitted) <==> {
            &&& instance_entries(*old(env)).contains_pair("Admin"@, Some(strkey(*approver)))
            &&& strkey(escrow).len() > 0
            &&& strkey(escrow)[0] == 67u8
            &&& made_calls(*final(env)).last().succeeded
            &&& persistent_entries(*old(env)).contains_key(("Result"@, match_id))
        },
        answer == Ok::<(), Error>(()) <==> {
            &&& instance_entries(*old(env)).contains_pair("Admin"@, Some(strkey(*approver)))
            &&& strkey(escrow).len() > 0
            &&& strkey(escrow)[0] == 67u8
            &&& made_calls(*final(env)).last().succeeded
            &&& !persistent_entries(*old(env)).contains_key(("Result"@, match_id))
        },
{
}

/// Law: an approved submission with the address of a contract asks that contract
/// once, by its function `get_match`, for the very match that is submitted. Where
/// that call fails, the answer is `MatchNotFound` and nothing is kept for the
/// match that was not kept before. No other submission asks anyone.
pub proof fn law_submission_asks_the_escrow_for_its_match(
    env: &mut Env,
    approver: &Address,
    match_id: u64,
    game_id: soroban_sdk::String,
    result: MatchResult,
    escrow: Address,
    answer: Result<(), Error>,
)
    requires
        call_ensures(
            OracleContract::submit_result,
            (env, approver, match_id, game_id, result, escrow),
            answer,
        ),
    ensures
        ({
            let asks = {
                &&& instance_entries(*old(env)).contains_pair("Admin"@, Some(strkey(*approver)))
                &&& strkey(escrow).len() > 0
                &&& strkey(escrow)[0] == 67u8
            };
            let found = made_calls(*final(env)).last().succeeded;
            &&& asks ==> made_calls(*final(env)) == made_calls(*old(env)).push(
                Call {
                    contract: strkey(escrow),
                    function: "get_match"@,
                    argument: match_id,
                    succeeded: found,
                },
            )
            &&& asks && !found ==> {
                &&& answer == Err::<(), Error>(Error::MatchNotFound)
                &&& persistent_entries(*final(env)) == persistent_entries(*old(env))
            }
            &&& !asks ==> made_calls(*final(env)) == made_calls(*old(env))
        }),
{
}

/// Law: two submissions that the same contract was asked about were asked about
/// with the same argument only where they are for the same match.
pub proof fn law_different_matches_are_asked_for_differently(
    env: &mut Env,
    approver: &Address,
    match_id: u64,
    game_id: soroban_sdk::String,
    result: MatchResult,
    escrow: Address,
    answer: Result<(), Error>,
    other_env: &mut Env,
    other_approver: &Address,
    other_id: u64,
    other_game_id: soroban_sdk::String,
    other_result: MatchResult,
    other_escrow: Address,
    other_answer: Result<(), Error>,
)
    requires
        call_ensures(
            OracleContract::submit_result,
            (env, approver, match_id, game_id, result, escrow),
            answer,
        ),
        call_ensures(
            OracleContract::submit_result,
            (other_env, other_approver, other_id, other_game_id, other_result, other_escrow),
            other_answer,
        ),
        answer is Ok,
        other_answer is Ok,
        made_calls(*final(env)).last() == made_calls(*final(other_env)).last(),
    ensures
        match_id == other_id,
        strkey(escrow) == strkey(other_escrow),
{
}

/// Law: an accepted submission stores, under the key of the match, the id of the
/// game and the name of the result, and publishes one event with the topics
/// `oracle` and `result` that carries the match and the name of the result. All
/// other stored values, and the admin, stay as they are.
pub proof fn law_accepted_submission_stores_and_announces_the_result(
    env: &mut Env,
    approver: &Address,
    match_id: u64,
    game_id: soroban_sdk::String,
    result: MatchResult,
    escrow: Address,
    answer: Result<(), Error>,
)
    requires
        call_ensures(
            OracleContract::submit_result,
            (env, approver, match_id, game_id, result, escrow),
            answer,
        ),
        answer is Ok,
    ensures
        ({
            let name = match result {
                MatchResult::Player1Wins => "Player1Wins"@,
                MatchResult::Player2Wins => "Player2Wins"@,
                MatchResult::Draw => "Draw"@,
            };
            &&& persistent_entries(*final(env)) == persistent_entries(*old(env)).insert(
                ("Result"@, match_id),
                Some(
                    map!["game_id"@ => Field::Text(text(game_id)), "result"@ => Field::Tag(name)],
                ),
            )
            &&& published_events(*final(env)) == published_events(*old(env)).push(
                Event {
                    topics: seq!["oracle"@, "result"@],
                    data: EventData::Outcome(match_id, name),
                },
            )
        }),
        instance_entries(*final(env)) == instance_entries(*old(env)),
        fresh_ttl(*final(env)) == fresh_ttl(*old(env)),
        max_ttl(*final(env)) == max_ttl(*old(env)),
{
}

/// Law: the result of an accepted submission lives for 518400 ledgers, or for as
/// long as the network allows where that is less, or for as long as a fresh value
/// does where that is more. How long all other values live stays as it is.
pub proof fn law_accepted_result_lives_long_enough(
    env: &mut Env,
    approver: &Address,
    match_id: u64,
    game_id: soroban_sdk::String,
    result: MatchResult,
    escrow: Address,
    answer: Result<(), Error>,
)
    requires
        call_ensures(
            OracleContract::submit_result,
            (env, approver, match_id, game_id, result, escrow),
            answer,
        ),
        answer is Ok,
    ensures
        ({
            let fresh = fresh_ttl(*old(env));
            let most = max_ttl(*old(env));
            let wanted: u32 = if most < 518_400u32 {
                most
            } else {
                518_400u32
            };
            persistent_ttls(*final(env)) == persistent_ttls(*old(env)).insert(
                ("Result"@, match_id),
                if fresh < wanted {
                    wanted
                } else {
                    fresh
                },
            )
        }),
{
}

/// Law: a refused submission stores nothing, prolongs nothing and publishes
/// nothing.
pub proof fn law_refused_submission_leaves_no_trace(
    env: &mut Env,
    approver: &Address,
    match_id: u64,
    game_id: soroban_sdk::String,
    result: MatchResult,
    escrow: Address,
    answer: Result<(), Error>,
)
    requires
        call_ensures(
            OracleContract::submit_result,
            (env, approver, match_id, game_id, result, escrow),
            answer,
        ),
        answer is Err,
    ensures
        instance_entries(*final(env)) == instance_entries(*old(env)),
        persistent_entries(*final(env)) == persistent_entries(*old(env)),
        persistent_ttls(*final(env)) == persistent_ttls(*old(env)),
        published_events(*final(env)) == published_events(*old(env)),
        fresh_ttl(*final(env)) == fresh_ttl(*old(env)),
        max_ttl(*final(env)) == max_ttl(*old(env)),
{
}

/// Law: after an accepted submission the match has a result, for everyone who asks
/// and for the admin, and reading it gives the id of the game and the result that
/// were submitted.
pub proof fn law_accepted_submission_can_be_read(
    env: &mut Env,
    approver: &Address,
    match_id: u64,
    game_id: soroban_sdk::String,
    result: MatchResult,
    escrow: Address,
    answer: Result<(), Error>,
    reader: &Env,
    read: Result<ResultEntry, Error>,
    has: bool,
    has_for_admin: Result<bool, Error>,
)
    requires
        call_ensures(
            OracleContract::submit_result,
            (env, approver, match_id, game_id, result, escrow),
            answer,
        ),
        answer is Ok,
        *reader == *final(env),
        call_ensures(OracleContract::get_result, (reader, match_id), read),
        call_ensures(OracleContract::has_result, (reader, match_id), has),
        call_ensures(
            OracleContract::has_result_admin,
            (reader, approver, match_id),
            has_for_admin,
        ),
    ensures
        read matches Ok(entry) && entry.result == result && text(entry.game_id) == text(game_id),
        has,
        has_for_admin == Ok::<bool, Error>(true),
{
    lemma_distinct_texts();
}

/// Law: the result that an accepted submission announces is the one that can be
/// read for the announced match.
pub proof fn law_announced_result_is_the_one_read(
    env: &mut Env,
    approver: &Address,
    match_id: u64,
    game_id: soroban_sdk::String,
    result: MatchResult,
    escrow: Address,
    answer: Result<(), Error>,
    reader: &Env,
    announced_id: u64,
    announced_name: Seq<char>,
    read: Result<ResultEntry, Error>,
)
    requires
        call_ensures(
            OracleContract::submit_result,
            (env, approver, match_id, game_id, result, escrow),
            answer,
        ),
        answer is Ok,
        published_events(*final(env)).last().data == EventData::Outcome(
            announced_id,
            announced_name,
        ),
        *reader == *final(env),
        call_ensures(OracleContract::get_result, (reader, announced_id), read),
    ensures
        announced_id == match_id,
        match read {
            Ok(entry) => match entry.result {
                MatchResult::Player1Wins => announced_name == "Player1Wins"@,
                MatchResult::Player2Wins => announced_name == "Player2Wins"@,
                MatchResult::Draw => announced_name == "Draw"@,
            },
            Err(_) => false,
        },
{
    lemma_distinct_texts();
}

/// Law: two accepted submissions publish the same event only where they are for
/// the same match and the same result.
pub proof fn law_events_tell_submissions_apart(
    env: &mut Env,
    approver: &Address,
    match_id: u64,
    game_id: soroban_sdk::String,
    result: MatchResult,
    escrow: Address,
    answer: Result<(), Error>,
    other_env: &mut Env,
    other_approver: &Address,
    other_id: u64,
    other_game_id: soroban_sdk::String,
    other_result: MatchResult,
    other_escrow: Address,
    other_answer: Result<(), Error>,
)
    requires
        call_ensures(
            OracleContract::submit_result,
            (env, approver, match_id, game_id, result, escrow),
            answer,
        ),
        call_ensures(
            OracleContract::submit_result,
            (other_env, other_approver, other_id, other_game_id, other_result, other_escrow),
            other_answer,
        ),
        answer is Ok,
        other_answer is Ok,
        published_events(*final(env)).last() == published_events(*final(other_env)).last(),
    ensures
        match_id == other_id,
        result == other_result,
{
    lemma_distinct_texts();
}

/// Law: whatever a submission is answered, what can be read of every other match,
/// and who the admin is, stays as it was.
pub proof fn law_submission_leaves_other_matches_alone(
    env: &mut Env,
    approver: &Address,
    match_id: u64,
    game_id: soroban_sdk::String,
    result: MatchResult,
    escrow: Address,
    answer: Result<(), Error>,
    before: &Env,
    after: &Env,
    other_id: u64,
    read_before: Result<ResultEntry, Error>,
    read_after: Result<ResultEntry, Error>,
    has_before: bool,
    has_after: bool,
    admin_before: Result<Address, Error>,
    admin_after: Result<Address, Error>,
)
    requires
        *before == *old(env),
        *after == *final(env),
        call_ensures(
            OracleContract::submit_result,
            (env, approver, match_id, game_id, result, escrow),
            answer,
        ),
        other_id != match_id,
        call_ensures(OracleContract::get_result, (before, other_id), read_before),
        call_ensures(OracleContract::get_result, (after, other_id), read_after),
        call_ensures(OracleContract::has_result, (before, other_id), has_before),
        call_ensures(OracleContract::has_result, (after, other_id), has_after),
        call_ensures(OracleContract::current_admin, (before,), admin_before),
        call_ensures(OracleContract::current_admin, (after,), admin_after),
    ensures
        has_after == has_before,
        match (read_before, read_after) {
            (Ok(b), Ok(a)) => a.result == b.result && text(a.game_id) == text(b.game_id),
            (Err(b), Err(a)) => a == b,
            _ => false,
        },
        match (admin_before, admin_after) {
            (Ok(b), Ok(a)) => strkey(a) == strkey(b),
            (Err(b), Err(a)) => a == b,
            _ => false,
        },
{
}

/// Law: after an accepted submission every further one for the match is refused,
/// whoever approves it and whatever it says, and what can be read of the match
/// stays what the first one said.
pub proof fn law_first_accepted_submission_stands(
    env: &mut Env,
    approver: &Address,
    match_id: u64,
    game_id: soroban_sdk::String,
    result: MatchResult,
    escrow: Address,
    answer: Result<(), Error>,
    later: &mut Env,
    later_approver: &Address,
    later_game_id: soroban_sdk::String,
    later_result: MatchResult,
    later_escrow: Address,
    later_answer: Result<(), Error>,
    reader: &Env,
    read: Result<ResultEntry, Error>,
)
    requires
        call_ensures(
            OracleContract::submit_result,
            (env, approver, match_id, game_id, result, escrow),
            answer,
        ),
        answer is Ok,
        *old(later) == *final(env),
        call_ensures(
            OracleContract::submit_result,
            (later, later_approver, match_id, later_game_id, later_result, later_escrow),
            later_answer,
        ),
        *reader == *final(later),
        call_ensures(OracleContract::get_result, (reader, match_id), read),
    ensures
        later_answer is Err,
        read matches Ok(entry) && entry.result == result && text(entry.game_id) == text(game_id),
{
    lemma_distinct_texts();
}

/// Law: recording a result that the escrow contract has answered for. It is
/// refused exactly where the match was not found or something is kept for it, and
/// then changes nothing; otherwise it stores the result under the key of the match,
/// keeps it alive and announces it with the topics `oracle` and `result`. It asks
/// nobody and leaves the admin as it is.
pub proof fn law_record_result_follows_the_answer(
    env: &mut Env,
    match_id: u64,
    game_id: soroban_sdk::String,
    result: MatchResult,
    found: bool,
    answer: Result<(), Error>,
)
    requires
        call_ensures(
            OracleContract::record_result,
            (env, match_id, game_id, result, found),
            answer,
        ),
    ensures
        answer == Err::<(), Error>(Error::MatchNotFound) <==> !found,
        answer == Err::<(), Error>(Error::AlreadySubmitted) <==> found && persistent_entries(
            *old(env),
        ).contains_key(("Result"@, match_id)),
        answer is Err <==> answer == Err::<(), Error>(Error::MatchNotFound) || answer == Err::<
            (),
            Error,
        >(Error::AlreadySubmitted),
        answer is Err ==> {
            &&& persistent_entries(*final(env)) == persistent_entries(*old(env))
            &&& persistent_ttls(*final(env)) == persistent_ttls(*old(env))
            &&& published_events(*final(env)) == published_events(*old(env))
        },
        answer is Ok ==> {
            let name = match result {
                MatchResult::Player1Wins => "Player1Wins"@,
                MatchResult::Player2Wins => "Player2Wins"@,
                MatchResult::Draw => "Draw"@,
            };
            let fresh = fresh_ttl(*old(env));
            let most = max_ttl(*old(env));
            let wanted: u32 = if most < 518_400u32 {
                most
            } else {
                518_400u32
            };
            &&& persistent_entries(*final(env)) == persistent_entries(*old(env)).insert(
                ("Result"@, match_id),
                Some(
                    map!["game_id"@ => Field::Text(text(game_id)), "result"@ => Field::Tag(name)],
                ),
            )
            &&& persistent_ttls(*final(env)) == persistent_ttls(*old(env)).insert(
                ("Result"@, match_id),
                if fresh < wanted {
                    wanted
                } else {
                    fresh
                },
            )
            &&& published_events(*final(env)) == published_events(*old(env)).push(
                Event {
                    topics: seq!["oracle"@, "result"@],
                    data: EventData::Outcome(match_id, name),
                },
            )
        },
        instance_entries(*final(env)) == instance_entries(*old(env)),
        made_calls(*final(env)) == made_calls(*old(env)),
        fresh_ttl(*final(env)) == fresh_ttl(*old(env)),
        max_ttl(*final(env)) == max_ttl(*old(env)),
{
}

/// Law: a submission that asks the escrow contract goes on as recording the result
/// does with what that contract answered.
pub proof fn law_submission_goes_on_as_record_result(
    env: &mut Env,
    approver: &Address,
    match_id: u64,
    game_id: soroban_sdk::String,
    result: MatchResult,
    escrow: Address,
    answer: Result<(), Error>,
    recorder: &mut Env,
    found: bool,
    record_answer: Result<(), Error>,
)
    requires
        call_ensures(
            OracleContract::submit_result,
            (env, approver, match_id, game_id, result, escrow),
            answer,
        ),
        instance_entries(*old(env)).contains_pair("Admin"@, Some(strkey(*approver))),
        strkey(escrow).len() > 0,
        strkey(escrow)[0] == 67u8,
        found == made_calls(*final(env)).last().succeeded,
        *old(recorder) == *old(env),
        call_ensures(
            OracleContract::record_result,
            (recorder, match_id, game_id, result, found),
            record_answer,
        ),
    ensures
        answer == record_answer,
        persistent_entries(*final(env)) == persistent_entries(*final(recorder)),
        persistent_ttls(*final(env)) == persistent_ttls(*final(recorder)),
        published_events(*final(env)) == published_events(*final(recorder)),
{
}

/// Law: reading a result gives what is kept under the key of the match: the text of
/// its field `game_id`, and the result that its field `result` names. It is answered
/// `ResultNotFound` exactly where no such fields are kept there, or another name.
pub proof fn law_get_result_reads_the_fields_of_its_match(
    env: &Env,
    match_id: u64,
    answer: Result<ResultEntry, Error>,
    game_id: Seq<u8>,
    result: MatchResult,
)
    requires
        call_ensures(OracleContract::get_result, (env, match_id), answer),
    ensures
        (answer matches Ok(entry) && text(entry.game_id) == game_id && entry.result == result)
            <==> {
            &&& persistent_entries(*env).contains_key(("Result"@, match_id))
            &&& persistent_entries(*env)[("Result"@, match_id)] matches Some(fields)
            &&& fields.contains_pair("game_id"@, Field::Text(game_id))
            &&& fields.contains_pair(
                "result"@,
                Field::Tag(
                    match result {
                        MatchResult::Player1Wins => "Player1Wins"@,
                        MatchResult::Player2Wins => "Player2Wins"@,
                        MatchResult::Draw => "Draw"@,
                    },
                ),
            )
        },
        answer matches Err(e) ==> e == Error::ResultNotFound,
{
    lemma_distinct_texts();
}

/// Law: a match has a result exactly where something is kept under its key.
pub proof fn law_has_result_looks_at_its_match(env: &Env, match_id: u64, found: bool)
    requires
        call_ensures(OracleContract::has_result, (env, match_id), found),
    ensures
        found <==> persistent_entries(*env).contains_key(("Result"@, match_id)),
{
}

/// Law: where the approver is kept as the admin, it is told of a match what everyone
/// is told who asks; any other approver is answered `Unauthorized`, whether there is
/// a result or not.
pub proof fn law_has_result_admin_is_has_result_for_the_admin(
    env: &Env,
    approver: &Address,
    match_id: u64,
    answer: Result<bool, Error>,
    found: bool,
)
    requires
        call_ensures(OracleContract::has_result_admin, (env, approver, match_id), answer),
        call_ensures(OracleContract::has_result, (env, match_id), found),
    ensures
        instance_entries(*env).contains_pair("Admin"@, Some(strkey(*approver))) ==> answer == Ok::<
            bool,
            Error,
        >(found),
        !instance_entries(*env).contains_pair("Admin"@, Some(strkey(*approver))) ==> answer
            == Err::<bool, Error>(Error::Unauthorized),
        found <==> persistent_entries(*env).contains_key(("Result"@, match_id)),
{
}

/// Law: a rotation succeeds exactly where the approver is kept as the admin, and is
/// answered `Unauthorized` otherwise. It then stores the new admin in the place of
/// the old one; nothing else changes, and no event is published.
pub proof fn law_update_admin_replaces_the_stored_address(
    env: &mut Env,
    approver: &Address,
    new_admin: Address,
    answer: Result<(), Error>,
)
    requires
        call_ensures(OracleContract::update_admin, (env, approver, new_admin), answer),
    ensures
        answer == Ok::<(), Error>(()) <==> instance_entries(*old(env)).contains_pair(
            "Admin"@,
            Some(strkey(*approver)),
        ),
        answer matches Err(e) ==> e == Error::Unauthorized && instance_entries(*final(env))
            == instance_entries(*old(env)),
        answer is Ok ==> instance_entries(*final(env)) == instance_entries(*old(env)).insert(
            "Admin"@,
            Some(strkey(new_admin)),
        ),
        persistent_entries(*final(env)) == persistent_entries(*old(env)),
        persistent_ttls(*final(env)) == persistent_ttls(*old(env)),
        published_events(*final(env)) == published_events(*old(env)),
        made_calls(*final(env)) == made_calls(*old(env)),
        fresh_ttl(*final(env)) == fresh_ttl(*old(env)),
        max_ttl(*final(env)) == max_ttl(*old(env)),
{
}

/// Law: after a rotation, a submission by anyone but the new admin is answered
/// `Unauthorized`, the old admin among them, and one by the new admin is not.
pub proof fn law_only_the_new_admin_submits_after_a_rotation(
    env: &mut Env,
    approver: &Address,
    new_admin: Address,
    rotated: Result<(), Error>,
    later: &mut Env,
    later_approver: &Address,
    match_id: u64,
    game_id: soroban_sdk::String,
    result: MatchResult,
    escrow: Address,
    answer: Result<(), Error>,
)
    requires
        call_ensures(OracleContract::update_admin, (env, approver, new_admin), rotated),
        rotated is Ok,
        *old(later) == *final(env),
        call_ensures(
            OracleContract::submit_result,
            (later, later_approver, match_id, game_id, result, escrow),
            answer,
        ),
    ensures
        answer == Err::<(), Error>(Error::Unauthorized) <==> strkey(*later_approver) != strkey(
            new_admin,
        ),
{
}

/// Law: the name of a result is that of its variant, and a text is read as a result
/// exactly where it is the name of that result.
pub proof fn law_names_of_results(
    result: MatchResult,
    name: &'static str,
    read: &String,
    back: Option<MatchResult>,
)
    requires
        call_ensures(MatchResult::name, (result,), name),
        call_ensures(MatchResult::from_name, (read,), back),
    ensures
        name@ == match result {
            MatchResult::Player1Wins => "Player1Wins"@,
            MatchResult::Player2Wins => "Player2Wins"@,
            MatchResult::Draw => "Draw"@,
        },
        back == Some(result) <==> read@ == name@,
        back is None <==> read@ != "Player1Wins"@ && read@ != "Player2Wins"@ && read@ != "Draw"@,
{
    lemma_distinct_texts();
}

/// The content of an entry is the text of its game id and its result.
pub proof fn law_entry_content(entry: ResultEntry)
    ensures
        entry@.game_id == text(entry.game_id),
        entry@.result == entry.result,
{
}

/// The texts that the laws compare are different ones.
proof fn lemma_distinct_texts()
    ensures
        "Player1Wins"@ != "Player2Wins"@,
        "Player1Wins"@ != "Draw"@,
        "Player2Wins"@ != "Draw"@,
        "game_id"@ != "result"@,
{
    reveal_strlit("Player1Wins");
    reveal_strlit("Player2Wins");
    reveal_strlit("Draw");
    reveal_strlit("game_id");
    reveal_strlit("result");
    assert("Player1Wins"@[6] != "Player2Wins"@[6]);
    assert("Player1Wins"@.len() != "Draw"@.len());
    assert("Player2Wins"@.len() != "Draw"@.len());
    assert("game_id"@.len() != "result"@.len());
}

} // verus!
