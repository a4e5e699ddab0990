use oracle::contract::{OracleContract, MATCH_TTL_LEDGERS};
use oracle::types::{Error, MatchResult, ResultEntry};
use soroban_sdk::testutils::storage::Persistent as _;
use soroban_sdk::testutils::{
    Address as _, ContractFunctionSet, Events as _, MockAuth, MockAuthInvoke,
};
use soroban_sdk::{xdr, Address, Env, IntoVal, String, Symbol, TryFromVal, Val};

/// The oracle as the host dispatches to it: the entry point of each function
/// asks the host for the admin's authorisation where the function needs it.
struct Oracle;

fn error_code(error: Error) -> u32 {
    match error {
        Error::Unauthorized => 1,
        Error::MatchNotFound => 2,
        Error::AlreadySubmitted => 3,
        Error::ResultNotFound => 4,
    }
}

fn error_val(error: Error) -> Val {
    soroban_sdk::Error::from_contract_error(error_code(error)).to_val()
}

fn authorized_admin(env: &Env) -> Result<Address, Error> {
    let admin = OracleContract::current_admin(env)?;
    admin.require_auth();
    Ok(admin)
}

fn submit(env: &mut Env, args: &[Val]) -> Result<(), Error> {
    let admin = authorized_admin(env)?;
    let match_id = u64::try_from_val(env, &args[0]).unwrap();
    let game_id = String::try_from_val(env, &args[1]).unwrap();
    let name = Symbol::try_from_val(env, &args[2]).unwrap().to_string();
    let escrow = Address::try_from_val(env, &args[3]).unwrap();
    let result = MatchResult::from_name(&name).unwrap();
    OracleContract::submit_result(env, &admin, match_id, game_id, result, escrow)
}

impl ContractFunctionSet for Oracle {
    fn call(&self, func: &str, env: Env, args: &[Val]) -> Option<Val> {
        let mut env = env;
        match func {
            "__constructor" => Some(().into_val(&env)),
            "initialize" => {
                let admin = Address::try_from_val(&env, &args[0]).unwrap();
                if !OracleContract::try_initialize(&mut env, admin) {
                    panic!("Contract already initialized");
                }
                Some(().into_val(&env))
            }
            "submit_result" => Some(match submit(&mut env, args) {
                Ok(()) => ().into_val(&env),
                Err(e) => error_val(e),
            }),
            "has_result" => {
                let match_id = u64::try_from_val(&env, &args[0]).unwrap();
                Some(OracleContract::has_result(&env, match_id).into_val(&env))
            }
            "has_result_admin" => {
                let match_id = u64::try_from_val(&env, &args[0]).unwrap();
                let answer = authorized_admin(&env)
                    .and_then(|a| OracleContract::has_result_admin(&env, &a, match_id));
                Some(match answer {
                    Ok(found) => found.into_val(&env),
                    Err(e) => error_val(e),
                })
            }
            "update_admin" => {
                let new_admin = Address::try_from_val(&env, &args[0]).unwrap();
                let answer = authorized_admin(&env)
                    .and_then(|a| OracleContract::update_admin(&mut env, &a, new_admin));
                Some(match answer {
                    Ok(()) => ().into_val(&env),
                    Err(e) => error_val(e),
                })
            }
            _ => None,
        }
    }
}

/// An escrow contract that knows one match, with the id 0.
struct Escrow;

impl ContractFunctionSet for Escrow {
    fn call(&self, func: &str, env: Env, args: &[Val]) -> Option<Val> {
        match func {
            "__constructor" => Some(().into_val(&env)),
            "get_match" => {
                if u64::try_from_val(&env, &args[0]).unwrap() == 0 {
                    Some(Symbol::new(&env, "Active").into_val(&env))
                } else {
                    Some(soroban_sdk::Error::from_contract_error(9).to_val())
                }
            }
            _ => None,
        }
    }
}

struct Client<'a> {
    env: &'a Env,
    id: &'a Address,
}

impl<'a> Client<'a> {
    fn new(env: &'a Env, id: &'a Address) -> Self {
        Client { env, id }
    }

    fn invoke(&self, func: &str, args: soroban_sdk::Vec<Val>) -> Val {
        self.env.invoke_contract(self.id, &Symbol::new(self.env, func), args)
    }

    fn initialize(&self, admin: &Address) {
        self.invoke("initialize", (admin.clone(),).into_val(self.env));
    }

    fn submit_args(
        &self,
        match_id: u64,
        game_id: &str,
        result: MatchResult,
        escrow: &Address,
    ) -> soroban_sdk::Vec<Val> {
        let game_id = String::from_str(self.env, game_id);
        let result = Symbol::new(self.env, result.name());
        (match_id, game_id, result, escrow.clone()).into_val(self.env)
    }

    fn submit_result(&self, match_id: u64, game_id: &str, result: MatchResult, escrow: &Address) {
        let args = self.submit_args(match_id, game_id, result, escrow);
        self.invoke("submit_result", args);
    }

    fn try_submit_result(
        &self,
        match_id: u64,
        game_id: &str,
        result: MatchResult,
        escrow: &Address,
    ) -> Result<(), u32> {
        let args = self.submit_args(match_id, game_id, result, escrow);
        let answer = self.env.try_invoke_contract::<Val, soroban_sdk::Error>(
            self.id,
            &Symbol::new(self.env, "submit_result"),
            args,
        );
        match answer {
            Ok(_) => Ok(()),
            Err(e) => Err(e.unwrap().get_code()),
        }
    }

    fn has_result(&self, match_id: u64) -> bool {
        let found = self.invoke("has_result", (match_id,).into_val(self.env));
        bool::try_from_val(self.env, &found).unwrap()
    }

    fn has_result_admin(&self, match_id: u64) -> bool {
        let found = self.invoke("has_result_admin", (match_id,).into_val(self.env));
        bool::try_from_val(self.env, &found).unwrap()
    }

    fn update_admin(&self, new_admin: &Address) {
        self.invoke("update_admin", (new_admin.clone(),).into_val(self.env));
    }

    fn try_get_result(&self, match_id: u64) -> Result<ResultEntry, Error> {
        self.env.as_contract(self.id, || OracleContract::get_result(self.env, match_id))
    }

    fn get_result(&self, match_id: u64) -> ResultEntry {
        self.try_get_result(match_id).unwrap()
    }
}

/// Returns (env, oracle_contract_id, escrow_contract_id, admin), with the
/// oracle initialized and all authorisations mocked.
fn setup() -> (Env, Address, Address, Address) {
    let env = quiet_env();
    env.mock_all_auths();
    let escrow_id = env.register(Escrow, ());
    let oracle_id = env.register(Oracle, ());
    let oracle_admin = Address::generate(&env);
    Client::new(&env, &oracle_id).initialize(&oracle_admin);
    (env, oracle_id, escrow_id, oracle_admin)
}

fn quiet_env() -> Env {
    Env::new_with_config(soroban_sdk::testutils::EnvTestConfig {
        capture_snapshot_at_drop: false,
    })
}

/// The topics and the data of the events that a contract published in the last
/// invocation.
fn events_of(env: &Env, contract: &Address) -> Vec<(Vec<Val>, Val)> {
    let events = env.events().all().filter_by_contract(contract);
    let mut found = Vec::new();
    for event in events.events() {
        let xdr::ContractEventBody::V0(body) = &event.body;
        let topics = body.topics.iter().map(|t| Val::try_from_val(env, t).unwrap()).collect();
        found.push((topics, Val::try_from_val(env, &body.data).unwrap()));
    }
    found
}

fn symbols_of(env: &Env, topics: &[Val]) -> Vec<std::string::String> {
    topics.iter().map(|t| Symbol::try_from_val(env, t).unwrap().to_string()).collect()
}

#[test]
fn test_has_result_is_public_and_unauthenticated() {
    let (env, contract_id, escrow_id, ..) = setup();
    let client = Client::new(&env, &contract_id);

    // Before submission: any caller can probe, no authorisation is required.
    assert!(!client.has_result(0));
    assert!(!client.has_result(999));

    client.submit_result(0, "test_game", MatchResult::Player1Wins, &escrow_id);

    assert!(client.has_result(0));
    assert!(!client.has_result(999));

    // Nobody authorises anything: the probe still answers.
    env.set_auths(&[]);
    assert!(client.has_result(0));
}

#[test]
fn test_has_result_admin_returns_false_before_submission() {
    let (env, contract_id, _escrow_id, ..) = setup();
    let client = Client::new(&env, &contract_id);

    assert!(!client.has_result_admin(0));
    assert!(!client.has_result_admin(999));
}

#[test]
fn test_has_result_admin_returns_true_after_submission() {
    let (env, contract_id, escrow_id, ..) = setup();
    let client = Client::new(&env, &contract_id);

    client.submit_result(0, "test_game", MatchResult::Player1Wins, &escrow_id);

    assert!(client.has_result_admin(0));
}

#[test]
#[should_panic]
fn test_has_result_admin_rejects_non_admin() {
    let env = quiet_env();
    let admin = Address::generate(&env);
    let non_admin = Address::generate(&env);
    let contract_id = env.register(Oracle, ());
    let client = Client::new(&env, &contract_id);

    env.mock_all_auths();
    client.initialize(&admin);

    // Only authorise non_admin.
    env.mock_auths(&[MockAuth {
        address: &non_admin,
        invoke: &MockAuthInvoke {
            contract: &contract_id,
            fn_name: "has_result_admin",
            args: (0u64,).into_val(&env),
            sub_invokes: &[],
        },
    }]);
    client.has_result_admin(0);
}

#[test]
fn test_submit_and_get_result() {
    let (env, contract_id, escrow_id, ..) = setup();
    let client = Client::new(&env, &contract_id);

    client.submit_result(0, "test_game", MatchResult::Player1Wins, &escrow_id);

    assert!(client.has_result(0));
    let entry = client.get_result(0);
    assert_eq!(entry.result, MatchResult::Player1Wins);
    assert_eq!(entry.game_id, String::from_str(&env, "test_game"));
}

#[test]
fn test_submit_result_emits_event() {
    let (env, contract_id, escrow_id, ..) = setup();
    let client = Client::new(&env, &contract_id);

    client.submit_result(0, "test_game", MatchResult::Player1Wins, &escrow_id);

    let events = events_of(&env, &contract_id);
    let matched = events.iter().find(|(topics, _)| symbols_of(&env, topics) == ["oracle", "result"]);
    assert!(matched.is_some(), "oracle result event not emitted");

    let (_, data) = matched.unwrap();
    let (ev_id, ev_result) = <(u64, (Symbol,))>::try_from_val(&env, data).unwrap();
    assert_eq!(ev_id, 0u64);
    assert_eq!(
        MatchResult::from_name(&ev_result.0.to_string()),
        Some(MatchResult::Player1Wins)
    );
}

#[test]
#[should_panic]
fn test_duplicate_submit_fails() {
    let (env, contract_id, escrow_id, ..) = setup();
    let client = Client::new(&env, &contract_id);

    client.submit_result(0, "test_game", MatchResult::Draw, &escrow_id);
    // The second submission fails.
    client.submit_result(0, "test_game", MatchResult::Draw, &escrow_id);
}

#[test]
#[should_panic]
fn test_double_initialize_fails() {
    let env = quiet_env();
    env.mock_all_auths();
    let admin = Address::generate(&env);
    let contract_id = env.register(Oracle, ());
    let client = Client::new(&env, &contract_id);

    client.initialize(&admin);
    client.initialize(&admin);
}

#[test]
fn test_ttl_extended_on_submit_result() {
    let (env, contract_id, escrow_id, ..) = setup();
    let client = Client::new(&env, &contract_id);

    client.submit_result(0, "test_game", MatchResult::Player1Wins, &escrow_id);

    let ttl = env.as_contract(&contract_id, || {
        env.storage().persistent().get_ttl(&(Symbol::new(&env, "Result"), 0u64))
    });
    assert_eq!(ttl, MATCH_TTL_LEDGERS);
    assert_eq!(ttl, 518_400);
}

#[test]
fn test_admin_rotation() {
    let (env, contract_id, escrow_id, ..) = setup();
    let client = Client::new(&env, &contract_id);
    let new_admin = Address::generate(&env);

    client.update_admin(&new_admin);

    client.submit_result(0, "test_game", MatchResult::Player2Wins, &escrow_id);
    assert!(client.has_result(0));
}

#[test]
#[should_panic]
fn test_old_admin_cannot_act_after_rotation() {
    let env = quiet_env();
    let old_admin = Address::generate(&env);
    let new_admin = Address::generate(&env);
    let contract_id = env.register(Oracle, ());
    let client = Client::new(&env, &contract_id);
    let escrow_id = env.register(Escrow, ());

    env.mock_all_auths();
    client.initialize(&old_admin);
    client.update_admin(&new_admin);

    env.mock_auths(&[MockAuth {
        address: &old_admin,
        invoke: &MockAuthInvoke {
            contract: &contract_id,
            fn_name: "submit_result",
            args: client.submit_args(1, "game_old", MatchResult::Player1Wins, &escrow_id),
            sub_invokes: &[],
        },
    }]);
    client.submit_result(1, "game_old", MatchResult::Player1Wins, &escrow_id);
}

#[test]
fn test_submit_result_for_nonexistent_match_returns_match_not_found() {
    let (env, contract_id, escrow_id, ..) = setup();
    let client = Client::new(&env, &contract_id);

    // The escrow contract never created a match 999.
    let result = client.try_submit_result(999, "ghost_game", MatchResult::Player1Wins, &escrow_id);

    assert_eq!(
        result,
        Err(error_code(Error::MatchNotFound)),
        "submit_result must return MatchNotFound for a non-existent match_id"
    );

    // Nothing has been stored.
    assert!(!client.has_result(999));
}

#[test]
fn test_initialize_emits_event() {
    let env = quiet_env();
    env.mock_all_auths();
    let admin = Address::generate(&env);
    let contract_id = env.register(Oracle, ());
    let client = Client::new(&env, &contract_id);

    client.initialize(&admin);

    let events = events_of(&env, &contract_id);
    let matched = events.iter().find(|(topics, _)| symbols_of(&env, topics) == ["oracle", "init"]);
    assert!(matched.is_some(), "oracle initialized event not emitted");

    let (_, data) = matched.unwrap();
    let emitted_admin = Address::try_from_val(&env, data).unwrap();
    assert_eq!(emitted_admin, admin);
}

#[test]
fn test_submit_draw_result_stores_correctly() {
    let (env, contract_id, escrow_id, ..) = setup();
    let client = Client::new(&env, &contract_id);

    client.submit_result(0, "test_game", MatchResult::Draw, &escrow_id);

    let entry = client.get_result(0);
    assert_eq!(entry.result, MatchResult::Draw);
}

#[test]
fn test_submit_player2wins_result_stores_correctly() {
    let (env, contract_id, escrow_id, ..) = setup();
    let client = Client::new(&env, &contract_id);

    client.submit_result(0, "test_game", MatchResult::Player2Wins, &escrow_id);

    let entry = client.get_result(0);
    assert_eq!(entry.result, MatchResult::Player2Wins);
}

#[test]
fn the_admin_is_let_in_where_only_it_authorises() {
    let env = quiet_env();
    let admin = Address::generate(&env);
    let contract_id = env.register(Oracle, ());
    let client = Client::new(&env, &contract_id);
    client.initialize(&admin);

    env.mock_auths(&[MockAuth {
        address: &admin,
        invoke: &MockAuthInvoke {
            contract: &contract_id,
            fn_name: "has_result_admin",
            args: (0u64,).into_val(&env),
            sub_invokes: &[],
        },
    }]);
    assert!(!client.has_result_admin(0));
}

#[test]
fn the_new_admin_is_let_in_after_rotation() {
    let (env, contract_id, escrow_id, _) = setup();
    let client = Client::new(&env, &contract_id);
    let new_admin = Address::generate(&env);
    client.update_admin(&new_admin);

    env.mock_auths(&[MockAuth {
        address: &new_admin,
        invoke: &MockAuthInvoke {
            contract: &contract_id,
            fn_name: "submit_result",
            args: client.submit_args(0, "game_new", MatchResult::Player1Wins, &escrow_id),
            sub_invokes: &[],
        },
    }]);
    client.submit_result(0, "game_new", MatchResult::Player1Wins, &escrow_id);
    assert_eq!(client.get_result(0).game_id, String::from_str(&env, "game_new"));
}

#[test]
fn a_refused_invocation_is_answered_with_its_error() {
    let (env, contract_id, escrow_id, _) = setup();
    let client = Client::new(&env, &contract_id);
    assert_eq!(client.try_submit_result(0, "g", MatchResult::Draw, &escrow_id), Ok(()));
    assert_eq!(
        client.try_submit_result(0, "g", MatchResult::Draw, &escrow_id),
        Err(error_code(Error::AlreadySubmitted))
    );

    let bare = env.register(Oracle, ());
    let client = Client::new(&env, &bare);
    assert_eq!(
        client.try_submit_result(0, "g", MatchResult::Draw, &escrow_id),
        Err(error_code(Error::Unauthorized))
    );
    assert_eq!(client.try_get_result(0).err(), Some(Error::ResultNotFound));
}
