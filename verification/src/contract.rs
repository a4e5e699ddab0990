//! The oracle contract: an admin is set once and can be replaced by its own
//! approval, and the admin records the results of matches that an escrow
//! contract knows. A recorded result can be read by anyone and never changes.
use crate::host::{
    address_strkey, call_succeeds, extended_ttl, instance_get, instance_has, instance_set,
    is_symbol, ledger, names_contract, persistent_extend_ttl, persistent_get, persistent_has,
    persistent_set, publish_address, publish_outcome, strkey, text, text_and_tag,
    text_and_tag_fields, Call, Event, EventData, Field, Ledger, CONTRACT_PREFIX,
};
use crate::types::{law_symbol_round_trip, Error, MatchResult, ResultEntry, ResultView};
use soroban_sdk::{Address, Env};
use vstd::prelude::*;

verus! {

/// How many ledgers a recorded result is kept, about 30 days at 5 s/ledger.
pub const MATCH_TTL_LEDGERS: u32 = 518_400;

/// The key of the admin in the instance storage.
pub const ADMIN_KEY: &'static str = "Admin";

/// The key of the results in the persistent storage.
pub const RESULT_KEY: &'static str = "Result";

/// The field of a kept result that holds the id of the game.
pub const GAME_ID_FIELD: &'static str = "game_id";

/// The field of a kept result that holds how the match ended.
pub const RESULT_FIELD: &'static str = "result";

/// The first topic of every event of the oracle.
pub const EVENT_SUBJECT: &'static str = "oracle";

/// The second topic of the event that reports the first admin.
pub const INIT_ACTION: &'static str = "init";

/// The second topic of the event that reports a result.
pub const RESULT_ACTION: &'static str = "result";

/// The function of the escrow contract that looks a match up.
pub const LOOKUP_FUNCTION: &'static str = "get_match";

/// Whether an admin has been set.
pub open spec fn is_initialized(l: Ledger) -> bool {
    l.instance.contains_key(ADMIN_KEY@)
}

/// The text form of the admin's address, if there is one.
pub open spec fn admin_of(l: Ledger) -> Option<Seq<u8>> {
    if is_initialized(l) {
        l.instance[ADMIN_KEY@]
    } else {
        None
    }
}

/// The key under which the result of a match is kept.
pub open spec fn result_key(match_id: u64) -> (Seq<char>, u64) {
    (RESULT_KEY@, match_id)
}

/// Whether anything is kept for a match.
pub open spec fn is_recorded(l: Ledger, match_id: u64) -> bool {
    l.persistent.contains_key(result_key(match_id))
}

/// The fields in which a result is kept.
pub open spec fn fields_of(entry: ResultView) -> Map<Seq<char>, Field> {
    text_and_tag_fields(GAME_ID_FIELD@, entry.game_id, RESULT_FIELD@, entry.result.symbol())
}

/// The result that is kept in the fields of a map, if there is one.
pub open spec fn entry_of(fields: Map<Seq<char>, Field>) -> Option<ResultView> {
    match text_and_tag(fields, GAME_ID_FIELD@, RESULT_FIELD@) {
        Some((game_id, symbol)) => match MatchResult::of_symbol(symbol) {
            Some(result) => Some(ResultView { game_id, result }),
            None => None,
        },
        None => None,
    }
}

/// The result that is kept for a match, if there is one.
pub open spec fn result_of(l: Ledger, match_id: u64) -> Option<ResultView> {
    if is_recorded(l, match_id) {
        match l.persistent[result_key(match_id)] {
            Some(fields) => entry_of(fields),
            None => None,
        }
    } else {
        None
    }
}

/// The event that reports the first admin.
pub open spec fn init_event(admin: Seq<u8>) -> Event {
    Event {
        topics: seq![EVENT_SUBJECT@, INIT_ACTION@],
        data: EventData::Address(admin),
    }
}

/// The event that reports a result.
pub open spec fn result_event(match_id: u64, result: MatchResult) -> Event {
    Event {
        topics: seq![EVENT_SUBJECT@, RESULT_ACTION@],
        data: EventData::Outcome(match_id, result.symbol()),
    }
}

/// The ledger once an admin is stored.
pub open spec fn with_admin(l: Ledger, admin: Seq<u8>) -> Ledger {
    Ledger { instance: l.instance.insert(ADMIN_KEY@, Some(admin)), ..l }
}

/// The ledger after the first admin has been set.
pub open spec fn after_initialize(l: Ledger, admin: Seq<u8>) -> Ledger {
    Ledger { events: l.events.push(init_event(admin)), ..with_admin(l, admin) }
}

/// The ledger after the result of a match without one has been recorded.
pub open spec fn after_record(l: Ledger, match_id: u64, entry: ResultView) -> Ledger {
    Ledger {
        persistent: l.persistent.insert(result_key(match_id), Some(fields_of(entry))),
        ttls: l.ttls.insert(
            result_key(match_id),
            extended_ttl(l.fresh_ttl, MATCH_TTL_LEDGERS, MATCH_TTL_LEDGERS, l.max_ttl),
        ),
        events: l.events.push(result_event(match_id, entry.result)),
        ..l
    }
}

/// The ledger after the escrow contract has been asked for a match.
pub open spec fn after_lookup(l: Ledger, escrow: Seq<u8>, match_id: u64, found: bool) -> Ledger {
    Ledger {
        calls: l.calls.push(
            Call {
                contract: escrow,
                function: LOOKUP_FUNCTION@,
                argument: match_id,
                succeeded: found,
            },
        ),
        ..l
    }
}

/// What recording a result is answered, given whether the match was found.
pub open spec fn record_answer(l: Ledger, match_id: u64, found: bool) -> Result<(), Error> {
    if !found {
        Err(Error::MatchNotFound)
    } else if is_recorded(l, match_id) {
        Err(Error::AlreadySubmitted)
    } else {
        Ok(())
    }
}

/// The ledger after a request to record a result, given whether the match was
/// found.
pub open spec fn record_effect(
    l: Ledger,
    match_id: u64,
    entry: ResultView,
    found: bool,
) -> Ledger {
    if record_answer(l, match_id, found) is Ok {
        after_record(l, match_id, entry)
    } else {
        l
    }
}

/// What submitting a result is answered, given what the escrow contract
/// answers.
pub open spec fn submit_answer(
    l: Ledger,
    approver: Seq<u8>,
    match_id: u64,
    escrow: Seq<u8>,
    found: bool,
) -> Result<(), Error> {
    if admin_of(l) != Some(approver) {
        Err(Error::Unauthorized)
    } else if !names_contract(escrow) {
        Err(Error::MatchNotFound)
    } else {
        record_answer(l, match_id, found)
    }
}

/// The ledger after a result has been submitted, given what the escrow
/// contract answers.
pub open spec fn submit_effect(
    l: Ledger,
    approver: Seq<u8>,
    match_id: u64,
    entry: ResultView,
    escrow: Seq<u8>,
    found: bool,
) -> Ledger {
    if admin_of(l) != Some(approver) || !names_contract(escrow) {
        l
    } else {
        record_effect(after_lookup(l, escrow, match_id, found), match_id, entry, found)
    }
}

/// What a request that only the admin may make is answered.
pub open spec fn admin_answer<T>(l: Ledger, approver: Seq<u8>, answer: T) -> Result<T, Error> {
    if admin_of(l) == Some(approver) {
        Ok(answer)
    } else {
        Err(Error::Unauthorized)
    }
}

/// The symbols that the oracle uses are symbols.
proof fn lemma_symbols()
    ensures
        is_symbol(ADMIN_KEY@),
        is_symbol(RESULT_KEY@),
        is_symbol(GAME_ID_FIELD@),
        is_symbol(RESULT_FIELD@),
        is_symbol(EVENT_SUBJECT@),
        is_symbol(INIT_ACTION@),
        is_symbol(RESULT_ACTION@),
        is_symbol(LOOKUP_FUNCTION@),
        forall|result: MatchResult| is_symbol(#[trigger] result.symbol()),
{
    reveal_strlit("Admin");
    reveal_strlit("Result");
    reveal_strlit("game_id");
    reveal_strlit("oracle");
    reveal_strlit("init");
    reveal_strlit("result");
    reveal_strlit("get_match");
    reveal_strlit("Player1Wins");
    reveal_strlit("Player2Wins");
    reveal_strlit("Draw");
}

/// Law: reading the fields in which a result is kept gives that result back.
pub proof fn law_fields_round_trip(entry: ResultView)
    ensures
        entry_of(fields_of(entry)) == Some(entry),
{
    law_symbol_round_trip(entry.result);
    reveal_strlit("game_id");
    reveal_strlit("result");
    assert(GAME_ID_FIELD@.len() != RESULT_FIELD@.len());
}

/// Tells whether two addresses are the same.
fn same_address(a: &Address, b: &Address) -> (same: bool)
    ensures
        same == (strkey(*a) == strkey(*b)),
{
    let a_bytes = address_strkey(a);
    let b_bytes = address_strkey(b);
    if a_bytes.len() != b_bytes.len() {
        return false;
    }
    let mut i: usize = 0;
    while i < a_bytes.len()
        invariant
            i <= a_bytes.len(),
            a_bytes.len() == b_bytes.len(),
            forall|j: int| 0 <= j < i ==> a_bytes@[j] == b_bytes@[j],
            a_bytes@ == strkey(*a),
            b_bytes@ == strkey(*b),
        decreases a_bytes.len() - i,
    {
        if a_bytes[i] != b_bytes[i] {
            return false;
        }
        i += 1;
    }
    assert(a_bytes@ =~= b_bytes@);
    true
}

/// Tells whether an address is that of a contract.
fn is_contract(address: &Address) -> (contract: bool)
    ensures
        contract == names_contract(strkey(*address)),
{
    let bytes = address_strkey(address);
    bytes.len() > 0 && bytes[0] == CONTRACT_PREFIX
}

/// The oracle contract. It holds no data of its own: what it keeps is in the
/// storage of the running contract, which every function reaches through its
/// `env`.
///
/// Where a function takes an `approver`, that is an address that has
/// authorised the running invocation: the host has been asked for its
/// authorisation and has not aborted the invocation.
pub struct OracleContract;

impl OracleContract {
    /// Sets the first admin, the off-chain service that is trusted to submit
    /// results, and reports it in an event. There must be no admin yet.
    pub fn initialize(env: &mut Env, admin: Address)
        requires
            !is_initialized(ledger(*old(env))),
        ensures
            !is_initialized(ledger(*old(env))),
            ledger(*final(env)) == after_initialize(ledger(*old(env)), strkey(admin)),
    {
        proof {
            lemma_symbols();
        }
        instance_set(env, ADMIN_KEY, &admin);
        publish_address(env, EVENT_SUBJECT, INIT_ACTION, &admin);
    }

    /// Sets the first admin where there is none, and tells whether it did.
    /// Where there is an admin already, nothing changes.
    pub fn try_initialize(env: &mut Env, admin: Address) -> (done: bool)
        ensures
            done == !is_initialized(ledger(*old(env))),
            ledger(*final(env)) == if done {
                after_initialize(ledger(*old(env)), strkey(admin))
            } else {
                ledger(*old(env))
            },
    {
        proof {
            lemma_symbols();
        }
        if instance_has(env, ADMIN_KEY) {
            return false;
        }
        OracleContract::initialize(env, admin);
        true
    }

    /// Returns the admin, whose authorisation the requests of the admin need,
    /// and `Unauthorized` where there is none, or where what is kept in its
    /// place is no address.
    pub fn current_admin(env: &Env) -> (admin: Result<Address, Error>)
        ensures
            match admin {
                Ok(a) => admin_of(ledger(*env)) == Some(strkey(a)),
                Err(e) => admin_of(ledger(*env)) is None && e == Error::Unauthorized,
            },
    {
        proof {
            lemma_symbols();
        }
        match instance_get(env, ADMIN_KEY) {
            Some(admin) => Ok(admin),
            None => Err(Error::Unauthorized),
        }
    }

    /// Checks that a request is approved by the admin.
    fn check_admin(env: &Env, approver: &Address) -> (answer: Result<(), Error>)
        ensures
            answer == admin_answer(ledger(*env), strkey(*approver), ()),
    {
        match OracleContract::current_admin(env) {
            Ok(admin) => if same_address(&admin, approver) {
                Ok(())
            } else {
                Err(Error::Unauthorized)
            },
            Err(e) => Err(e),
        }
    }

    /// Submits the result of a match.
    ///
    /// `escrow` is the address of the escrow contract, which is asked for the
    /// match. A result is only recorded for a match that it knows: otherwise
    /// the answer is `MatchNotFound` and nothing is stored.
    ///
    /// The requests that are refused are, in this order, those that the admin
    /// has not approved (`Unauthorized`), those for a match that the escrow
    /// contract does not know, or with an `escrow` that is no contract
    /// (`MatchNotFound`), and those for a match that has a result
    /// (`AlreadySubmitted`).
    pub fn submit_result(
        env: &mut Env,
        approver: &Address,
        match_id: u64,
        game_id: soroban_sdk::String,
        result: MatchResult,
        escrow: Address,
    ) -> (answer: Result<(), Error>)
        ensures
            ({
                let before = ledger(*old(env));
                let after = ledger(*final(env));
                let found = after.calls.last().succeeded;
                let entry = ResultView { game_id: text(game_id), result };
                &&& answer == submit_answer(
                    before,
                    strkey(*approver),
                    match_id,
                    strkey(escrow),
                    found,
                )
                &&& after == submit_effect(
                    before,
                    strkey(*approver),
                    match_id,
                    entry,
                    strkey(escrow),
                    found,
                )
            }),
    {
        proof {
            lemma_symbols();
        }
        match OracleContract::check_admin(env, approver) {
            Ok(()) => {},
            Err(e) => {
                return Err(e);
            },
        }
        if !is_contract(&escrow) {
            return Err(Error::MatchNotFound);
        }
        let found = call_succeeds(env, &escrow, LOOKUP_FUNCTION, match_id);
        OracleContract::record_result(env, match_id, game_id, result, found)
    }

    /// Records the result of a match, once the request is approved and the
    /// escrow contract has told whether it knows the match: stores it, keeps
    /// it for [`MATCH_TTL_LEDGERS`] ledgers, and reports it in an event.
    pub fn record_result(
        env: &mut Env,
        match_id: u64,
        game_id: soroban_sdk::String,
        result: MatchResult,
        match_found: bool,
    ) -> (answer: Result<(), Error>)
        ensures
            answer == record_answer(ledger(*old(env)), match_id, match_found),
            ledger(*final(env)) == record_effect(
                ledger(*old(env)),
                match_id,
                (ResultView { game_id: text(game_id), result }),
                match_found,
            ),
    {
        proof {
            lemma_symbols();
        }
        if !match_found {
            return Err(Error::MatchNotFound);
        }
        if persistent_has(env, RESULT_KEY, match_id) {
            return Err(Error::AlreadySubmitted);
        }
        let ghost before = ledger(*env);
        persistent_set(
            env,
            RESULT_KEY,
            match_id,
            GAME_ID_FIELD,
            &game_id,
            RESULT_FIELD,
            result.name(),
        );
        persistent_extend_ttl(env, RESULT_KEY, match_id, MATCH_TTL_LEDGERS, MATCH_TTL_LEDGERS);
        publish_outcome(env, EVENT_SUBJECT, RESULT_ACTION, match_id, result.name());
        proof {
            let entry = ResultView { game_id: text(game_id), result };
            assert(ledger(*env).ttls =~= after_record(before, match_id, entry).ttls);
        }
        Ok(())
    }

    /// Returns the result that is recorded for a match, and `ResultNotFound`
    /// where there is none, or where what is kept for the match is no result.
    pub fn get_result(env: &Env, match_id: u64) -> (answer: Result<ResultEntry, Error>)
        ensures
            match answer {
                Ok(entry) => result_of(ledger(*env), match_id) == Some(entry@),
                Err(e) => result_of(ledger(*env), match_id) is None && e == Error::ResultNotFound,
            },
    {
        proof {
            lemma_symbols();
        }
        match persistent_get(env, RESULT_KEY, match_id, GAME_ID_FIELD, RESULT_FIELD) {
            Some((game_id, name)) => match MatchResult::from_name(&name) {
                Some(result) => Ok(ResultEntry { game_id, result }),
                None => Err(Error::ResultNotFound),
            },
            None => Err(Error::ResultNotFound),
        }
    }

    /// Tells whether a result has been submitted for a match.
    ///
    /// Anyone may ask: that a result exists says nothing about who won. Where
    /// even that is to stay private, [`OracleContract::has_result_admin`]
    /// answers the admin alone.
    pub fn has_result(env: &Env, match_id: u64) -> (found: bool)
        ensures
            found == is_recorded(ledger(*env), match_id),
    {
        proof {
            lemma_symbols();
        }
        persistent_has(env, RESULT_KEY, match_id)
    }

    /// Tells the admin whether a result has been submitted for a match, and
    /// answers anyone else `Unauthorized`.
    pub fn has_result_admin(env: &Env, approver: &Address, match_id: u64) -> (answer: Result<
        bool,
        Error,
    >)
        ensures
            answer == admin_answer(
                ledger(*env),
                strkey(*approver),
                is_recorded(ledger(*env), match_id),
            ),
    {
        match OracleContract::check_admin(env, approver) {
            Ok(()) => Ok(OracleContract::has_result(env, match_id)),
            Err(e) => Err(e),
        }
    }

    /// Replaces the admin, which has to approve it.
    pub fn update_admin(env: &mut Env, approver: &Address, new_admin: Address) -> (answer: Result<
        (),
        Error,
    >)
        ensures
            answer == admin_answer(ledger(*old(env)), strkey(*approver), ()),
            ledger(*final(env)) == if answer is Ok {
                with_admin(ledger(*old(env)), strkey(new_admin))
            } else {
                ledger(*old(env))
            },
    {
        proof {
            lemma_symbols();
        }
        match OracleContract::check_admin(env, approver) {
            Ok(()) => {
                instance_set(env, ADMIN_KEY, &new_admin);
                Ok(())
            },
            Err(e) => Err(e),
        }
    }
}

} // verus!
