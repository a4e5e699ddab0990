//! What holds of the oracle as a whole.
//!
//! The laws speak of ledgers and of the effects that the contract functions
//! have on them, as the contracts of these functions state them.
use crate::contract::{
    admin_answer, admin_of, after_initialize, after_lookup, is_initialized, is_recorded,
    law_fields_round_trip, record_effect, result_key, result_of, submit_answer, submit_effect,
    with_admin, OracleContract,
};
use crate::host::{ledger, made_calls, strkey, text, Call, Event, EventData, Field, Ledger};
use crate::types::{law_symbol_round_trip, Error, MatchResult, ResultView};
use soroban_sdk::{Address, Env};
use vstd::prelude::*;

verus! {

/// A request that may change the ledger, with what the escrow contract answers
/// where it is asked.
pub enum Request {
    Initialize { admin: Seq<u8> },
    UpdateAdmin { approver: Seq<u8>, new_admin: Seq<u8> },
    Submit {
        approver: Seq<u8>,
        match_id: u64,
        entry: ResultView,
        escrow: Seq<u8>,
        found: bool,
    },
}

/// The ledger after a request.
pub open spec fn step(l: Ledger, request: Request) -> Ledger {
    match request {
        Request::Initialize { admin } => if is_initialized(l) {
            l
        } else {
            after_initialize(l, admin)
        },
        Request::UpdateAdmin { approver, new_admin } => if admin_answer(l, approver, ()) is Ok {
            with_admin(l, new_admin)
        } else {
            l
        },
        Request::Submit { approver, match_id, entry, escrow, found } => submit_effect(
            l,
            approver,
            match_id,
            entry,
            escrow,
            found,
        ),
    }
}

/// The ledger after a series of requests.
pub open spec fn run(l: Ledger, requests: Seq<Request>) -> Ledger
    decreases requests.len(),
{
    if requests.len() == 0 {
        l
    } else {
        step(run(l, requests.drop_last()), requests.last())
    }
}

/// Law: what the contract functions do to the ledger is what the requests of the
/// same content do.
pub proof fn law_calls_are_requests(
    env: &mut Env,
    approver: &Address,
    address: Address,
    match_id: u64,
    game_id: soroban_sdk::String,
    result: MatchResult,
    done: bool,
    answer: Result<(), Error>,
)
    ensures
        call_ensures(OracleContract::try_initialize, (env, address), done) ==> ledger(*final(env))
            == step(ledger(*old(env)), Request::Initialize { admin: strkey(address) }),
        call_ensures(OracleContract::update_admin, (env, approver, address), answer) ==> ledger(
            *final(env),
        ) == step(
            ledger(*old(env)),
            Request::UpdateAdmin { approver: strkey(*approver), new_admin: strkey(address) },
        ),
        call_ensures(
            OracleContract::submit_result,
            (env, approver, match_id, game_id, result, address),
            answer,
        ) ==> ledger(*final(env)) == step(
            ledger(*old(env)),
            Request::Submit {
                approver: strkey(*approver),
                match_id,
                entry: (ResultView { game_id: text(game_id), result }),
                escrow: strkey(address),
                found: made_calls(*final(env)).last().succeeded,
            },
        ),
{
}

/// Law: the admin is the address under the key `Admin` of the instance storage,
/// and the result of a match is what the fields `game_id` and `result` hold under
/// its key in the persistent storage.
pub proof fn law_ledger_is_read_by_its_keys(
    l: Ledger,
    admin: Seq<u8>,
    match_id: u64,
    entry: ResultView,
)
    ensures
        is_initialized(l) <==> l.instance.contains_key("Admin"@),
        admin_of(l) == Some(admin) <==> l.instance.contains_pair("Admin"@, Some(admin)),
        is_recorded(l, match_id) <==> l.persistent.contains_key(("Result"@, match_id)),
        result_of(l, match_id) == Some(entry) <==> {
            &&& l.persistent.contains_key(("Result"@, match_id))
            &&& l.persistent[("Result"@, match_id)] matches Some(fields)
            &&& fields.contains_pair("game_id"@, Field::Text(entry.game_id))
            &&& fields.contains_pair(
                "result"@,
                Field::Tag(
                    match entry.result {
                        MatchResult::Player1Wins => "Player1Wins"@,
                        MatchResult::Player2Wins => "Player2Wins"@,
                        MatchResult::Draw => "Draw"@,
                    },
                ),
            )
        },
{
    law_symbol_round_trip(entry.result);
}

/// A ledger that only the oracle has written to: what is kept as the admin is
/// an address, and what is kept for a match is a result.
pub open spec fn is_sound(l: Ledger) -> bool {
    &&& is_initialized(l) ==> admin_of(l) is Some
    &&& forall|match_id: u64| #[trigger]
        is_recorded(l, match_id) ==> result_of(l, match_id) is Some
}

/// Law: a ledger in which nothing is stored is sound.
pub proof fn law_empty_ledger_is_sound(l: Ledger)
    requires
        l.instance == Map::<Seq<char>, Option<Seq<u8>>>::empty(),
        l.persistent == Map::<(Seq<char>, u64), Option<Map<Seq<char>, Field>>>::empty(),
    ensures
        is_sound(l),
        admin_of(l) is None,
        forall|match_id: u64| !#[trigger] is_recorded(l, match_id),
{
}

/// Recording a result changes what is kept for its match alone.
proof fn lemma_record(l: Ledger, match_id: u64, entry: ResultView, found: bool, other: u64)
    ensures
        ({
            let after = record_effect(l, match_id, entry, found);
            let done = found && !is_recorded(l, match_id);
            &&& after.instance == l.instance
            &&& other != match_id || !done ==> {
                &&& is_recorded(after, other) == is_recorded(l, other)
                &&& result_of(after, other) == result_of(l, other)
            }
            &&& done ==> is_recorded(after, match_id) && result_of(after, match_id) == Some(entry)
        }),
{
    law_fields_round_trip(entry);
}

/// What a request does to what is kept for a match: a submission for it may be
/// the first one, and all else leaves it as it is.
proof fn lemma_step(l: Ledger, request: Request, id: u64)
    ensures
        is_recorded(l, id) ==> {
            &&& is_recorded(step(l, request), id)
            &&& result_of(step(l, request), id) == result_of(l, id)
        },
        !is_recorded(l, id) && is_recorded(step(l, request), id) ==> {
            &&& request matches Request::Submit { approver, match_id, entry, escrow, found }
            &&& match_id == id
            &&& submit_answer(l, approver, match_id, escrow, found) == Ok::<(), Error>(())
            &&& result_of(step(l, request), id) == Some(entry)
        },
        is_initialized(l) ==> is_initialized(step(l, request)),
        is_initialized(step(l, request)) && admin_of(l) is Some ==> admin_of(
            step(l, request),
        ) is Some,
{
    match request {
        Request::Initialize { admin } => {},
        Request::UpdateAdmin { approver, new_admin } => {},
        Request::Submit { approver, match_id, entry, escrow, found } => {
            let asked = after_lookup(l, escrow, match_id, found);
            lemma_record(asked, match_id, entry, found, id);
            assert(is_recorded(asked, id) == is_recorded(l, id));
            assert(result_of(asked, id) == result_of(l, id));
        },
    }
}

/// Law: every request keeps a ledger sound.
pub proof fn law_requests_keep_soundness(l: Ledger, requests: Seq<Request>)
    requires
        is_sound(l),
    ensures
        is_sound(run(l, requests)),
    decreases requests.len(),
{
    if requests.len() > 0 {
        let before = run(l, requests.drop_last());
        let after = run(l, requests);
        law_requests_keep_soundness(l, requests.drop_last());
        assert forall|match_id: u64| #[trigger] is_recorded(after, match_id) implies result_of(
            after,
            match_id,
        ) is Some by {
            lemma_step(before, requests.last(), match_id);
        }
        lemma_step(before, requests.last(), 0);
    }
}

/// Law: once a result is recorded, no series of requests changes or removes
/// it.
pub proof fn law_results_are_final(l: Ledger, requests: Seq<Request>, match_id: u64)
    requires
        is_recorded(l, match_id),
    ensures
        is_recorded(run(l, requests), match_id),
        result_of(run(l, requests), match_id) == result_of(l, match_id),
    decreases requests.len(),
{
    if requests.len() > 0 {
        law_results_are_final(l, requests.drop_last(), match_id);
        lemma_step(run(l, requests.drop_last()), requests.last(), match_id);
    }
}

/// Law: a result only comes to be recorded by a submission for its match that
/// the admin of that moment approved, that the escrow contract knew the match
/// of, and that was answered `Ok`; what is recorded is what was submitted.
pub proof fn law_results_come_from_the_admin(l: Ledger, request: Request, id: u64)
    requires
        !is_recorded(l, id),
        is_recorded(step(l, request), id),
    ensures
        match request {
            Request::Submit { approver, match_id, entry, escrow, found } => {
                &&& match_id == id
                &&& admin_of(l) == Some(approver)
                &&& found
                &&& submit_answer(l, approver, match_id, escrow, found) == Ok::<(), Error>(())
                &&& result_of(step(l, request), id) == Some(entry)
            },
            _ => false,
        },
{
    lemma_step(l, request, id);
}

/// Law: the admin's submission of a first result for a match that the escrow
/// contract knows is accepted, where the address of that contract starts with
/// the letter C, as those of all contracts do. The match then has a result, and
/// reading it gives back what was submitted.
pub proof fn law_submitted_result_is_read_back(
    l: Ledger,
    approver: Seq<u8>,
    match_id: u64,
    entry: ResultView,
    escrow: Seq<u8>,
)
    requires
        l.instance.contains_pair("Admin"@, Some(approver)),
        escrow.len() > 0,
        escrow[0] == 67u8,
        !l.persistent.contains_key(("Result"@, match_id)),
    ensures
        submit_answer(l, approver, match_id, escrow, true) == Ok::<(), Error>(()),
        ({
            let after = submit_effect(l, approver, match_id, entry, escrow, true);
            &&& is_recorded(after, match_id)
            &&& result_of(after, match_id) == Some(entry)
        }),
{
    lemma_record(after_lookup(l, escrow, match_id, true), match_id, entry, true, match_id);
}

/// Law: a submission leaves the results of all other matches, and the admin,
/// as they are.
pub proof fn law_submission_touches_one_match(
    l: Ledger,
    approver: Seq<u8>,
    match_id: u64,
    entry: ResultView,
    escrow: Seq<u8>,
    found: bool,
    other: u64,
)
    requires
        other != match_id,
    ensures
        ({
            let after = submit_effect(l, approver, match_id, entry, escrow, found);
            &&& is_recorded(after, other) == is_recorded(l, other)
            &&& result_of(after, other) == result_of(l, other)
            &&& after.ttls.contains_key(result_key(other)) == l.ttls.contains_key(
                result_key(other),
            )
            &&& after.ttls[result_key(other)] == l.ttls[result_key(other)]
            &&& is_initialized(after) == is_initialized(l)
            &&& admin_of(after) == admin_of(l)
        }),
{
    let asked = after_lookup(l, escrow, match_id, found);
    lemma_record(asked, match_id, entry, found, other);
    assert(is_recorded(asked, other) == is_recorded(l, other));
    assert(result_of(asked, other) == result_of(l, other));
}

/// Law: a second submission for a match is refused, whoever makes it and
/// whatever it says; the admin is told that there is a result already.
pub proof fn law_second_submission_is_refused(
    l: Ledger,
    approver: Seq<u8>,
    match_id: u64,
    escrow: Seq<u8>,
    found: bool,
)
    requires
        l.persistent.contains_key(("Result"@, match_id)),
    ensures
        submit_answer(l, approver, match_id, escrow, found) is Err,
        l.instance.contains_pair("Admin"@, Some(approver)) && escrow.len() > 0 && escrow[0] == 67u8
            && found ==> submit_answer(l, approver, match_id, escrow, found) == Err::<(), Error>(
            Error::AlreadySubmitted,
        ),
{
}

/// Law: a refused submission stores nothing and publishes nothing.
pub proof fn law_refused_submission_changes_nothing(
    l: Ledger,
    approver: Seq<u8>,
    match_id: u64,
    entry: ResultView,
    escrow: Seq<u8>,
    found: bool,
)
    requires
        submit_answer(l, approver, match_id, escrow, found) is Err,
    ensures
        submit_effect(l, approver, match_id, entry, escrow, found) == (Ledger {
            calls: submit_effect(l, approver, match_id, entry, escrow, found).calls,
            ..l
        }),
{
}

/// Law: the admin's submission with the address of a contract asks that contract
/// once, by its function `get_match`, for the match that is submitted. No other
/// submission asks anyone.
pub proof fn law_submission_asks_for_its_match(
    l: Ledger,
    approver: Seq<u8>,
    match_id: u64,
    entry: ResultView,
    escrow: Seq<u8>,
    found: bool,
)
    ensures
        ({
            let asks = {
                &&& l.instance.contains_pair("Admin"@, Some(approver))
                &&& escrow.len() > 0
                &&& escrow[0] == 67u8
            };
            let after = submit_effect(l, approver, match_id, entry, escrow, found);
            &&& asks ==> after.calls == l.calls.push(
                Call {
                    contract: escrow,
                    function: "get_match"@,
                    argument: match_id,
                    succeeded: found,
                },
            )
            &&& !asks ==> after.calls == l.calls
        }),
{
}

/// Law: the admin's submission for a match that the escrow contract does not
/// know is answered `MatchNotFound`, whether or not there is a result.
pub proof fn law_unknown_match_is_not_found(
    l: Ledger,
    approver: Seq<u8>,
    match_id: u64,
    escrow: Seq<u8>,
)
    requires
        admin_of(l) == Some(approver),
    ensures
        submit_answer(l, approver, match_id, escrow, false) == Err::<(), Error>(
            Error::MatchNotFound,
        ),
{
}

/// Law: an accepted submission publishes one event, with the topics `oracle` and
/// `result`. It carries the match and the symbol of the result that can be read
/// for that match afterwards.
pub proof fn law_accepted_submission_is_reported(
    l: Ledger,
    approver: Seq<u8>,
    match_id: u64,
    entry: ResultView,
    escrow: Seq<u8>,
    found: bool,
)
    requires
        submit_answer(l, approver, match_id, escrow, found) is Ok,
    ensures
        ({
            let after = submit_effect(l, approver, match_id, entry, escrow, found);
            let event = after.events.last();
            &&& after.events == l.events.push(event)
            &&& event.topics == seq!["oracle"@, "result"@]
            &&& event.data matches EventData::Outcome(id, symbol)
            &&& id == match_id
            &&& MatchResult::of_symbol(symbol) == Some(entry.result)
            &&& result_of(after, id) matches Some(read)
            &&& MatchResult::of_symbol(symbol) == Some(read.result)
        }),
{
    law_symbol_round_trip(entry.result);
    lemma_record(after_lookup(l, escrow, match_id, found), match_id, entry, found, match_id);
}

/// Law: an accepted result is kept for 518400 ledgers, where the network lets a
/// value live as long and does not keep fresh values longer.
pub proof fn law_accepted_result_is_kept_alive(
    l: Ledger,
    approver: Seq<u8>,
    match_id: u64,
    entry: ResultView,
    escrow: Seq<u8>,
    found: bool,
)
    requires
        submit_answer(l, approver, match_id, escrow, found) is Ok,
        l.fresh_ttl <= 518_400u32 <= l.max_ttl,
    ensures
        submit_effect(l, approver, match_id, entry, escrow, found).ttls.contains_pair(
            ("Result"@, match_id),
            518_400u32,
        ),
{
}

/// Law: a match has a result exactly when that result can be read.
pub proof fn law_has_result_iff_readable(l: Ledger, match_id: u64)
    requires
        is_sound(l),
    ensures
        is_recorded(l, match_id) <==> result_of(l, match_id) is Some,
{
}

/// Law: the admin is told of a result what anyone is told who asks in public,
/// and everyone else is refused.
pub proof fn law_admin_sees_what_the_public_sees(l: Ledger, approver: Seq<u8>, match_id: u64)
    ensures
        admin_of(l) == Some(approver) ==> admin_answer(l, approver, is_recorded(l, match_id))
            == Ok::<bool, Error>(is_recorded(l, match_id)),
        admin_of(l) != Some(approver) ==> admin_answer(l, approver, is_recorded(l, match_id))
            == Err::<bool, Error>(Error::Unauthorized),
{
}

/// Law: without an admin, every request of an admin is refused.
pub proof fn law_nobody_acts_before_initialization(
    l: Ledger,
    approver: Seq<u8>,
    match_id: u64,
    escrow: Seq<u8>,
    found: bool,
)
    requires
        !is_initialized(l),
    ensures
        submit_answer(l, approver, match_id, escrow, found) == Err::<(), Error>(
            Error::Unauthorized,
        ),
        admin_answer(l, approver, ()) == Err::<(), Error>(Error::Unauthorized),
{
}

/// Law: the first admin is set once. From then on there always is an admin, so
/// no later attempt to set the first one succeeds.
pub proof fn law_initialized_once(l: Ledger, admin: Seq<u8>, requests: Seq<Request>)
    ensures
        is_initialized(after_initialize(l, admin)),
        admin_of(after_initialize(l, admin)) == Some(admin),
        is_initialized(run(after_initialize(l, admin), requests)),
        admin_of(run(after_initialize(l, admin), requests)) is Some,
    decreases requests.len(),
{
    if requests.len() > 0 {
        let start = after_initialize(l, admin);
        law_initialized_once(l, admin, requests.drop_last());
        lemma_step(run(start, requests.drop_last()), requests.last(), 0);
    }
}

/// Law: after a rotation the new admin may act, and the old one may not any
/// more.
pub proof fn law_rotation_moves_the_authority(
    l: Ledger,
    old_admin: Seq<u8>,
    new_admin: Seq<u8>,
    match_id: u64,
    escrow: Seq<u8>,
    found: bool,
)
    requires
        admin_of(l) == Some(old_admin),
        old_admin != new_admin,
    ensures
        ({
            let after = step(l, Request::UpdateAdmin { approver: old_admin, new_admin });
            &&& admin_of(after) == Some(new_admin)
            &&& admin_answer(after, new_admin, ()) == Ok::<(), Error>(())
            &&& admin_answer(after, old_admin, ()) == Err::<(), Error>(Error::Unauthorized)
            &&& submit_answer(after, old_admin, match_id, escrow, found) == Err::<(), Error>(
                Error::Unauthorized,
            )
        }),
{
}

/// Law: setting or replacing the admin leaves all results as they are. Setting
/// the first one is reported in one event, with the topics `oracle` and `init`
/// and the address of the admin, and replacing it in none.
pub proof fn law_admin_changes_keep_results(l: Ledger, admin: Seq<u8>)
    ensures
        after_initialize(l, admin).persistent == l.persistent,
        after_initialize(l, admin).ttls == l.ttls,
        with_admin(l, admin).persistent == l.persistent,
        with_admin(l, admin).ttls == l.ttls,
        after_initialize(l, admin).events == l.events.push(
            Event {
                topics: seq!["oracle"@, "init"@],
                data: EventData::Address(admin),
            },
        ),
        with_admin(l, admin).events == l.events,
{
}

/// Law: only the admin of the moment changes who the admin is, once there is
/// one.
pub proof fn law_only_the_admin_hands_over(l: Ledger, request: Request)
    requires
        is_initialized(l),
        admin_of(step(l, request)) != admin_of(l),
    ensures
        match request {
            Request::UpdateAdmin { approver, new_admin } => {
                &&& admin_of(l) == Some(approver)
                &&& admin_of(step(l, request)) == Some(new_admin)
            },
            _ => false,
        },
{
}

} // verus!
