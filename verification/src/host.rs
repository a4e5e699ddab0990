//! The host of a running contract, as far as the oracle uses it.
//!
//! An [`Env`] is the handle through which a contract function reaches the
//! host that runs it: the storage of the contract, the events that it
//! publishes and the other contracts that it calls. Nothing here is proved:
//! the functions below hand a call on to the host, and their contracts say
//! what the host does. They speak of the host through names for what it holds
//! at a given moment; [`Ledger`] gathers these.
//!
//! Three things hold of every call here. The host runs one invocation at a
//! time and lets no contract be re-entered, so while a contract function runs
//! only its own calls change what its ledger holds. All values handed to a
//! call belong to the host that the call goes to, and a contract is running
//! on it. Where an invocation exceeds its resources (its budget, its
//! footprint, the 32 bits of a ledger number), or a contract that it calls
//! fails with an error that the host calls non-recoverable (exceeded resources
//! there, or a fault of the host itself), the host aborts it as a whole and
//! undoes what it did, and the call does not come back.
use soroban_sdk::{Address, Env, IntoVal, Symbol, TryFromVal, Val};
use vstd::prelude::*;

verus! {

/// The handle to the host.
#[verifier::external_type_specification]
#[verifier::external_body]
pub struct ExEnv(Env);

/// The address of an account or of a contract.
#[verifier::external_type_specification]
#[verifier::external_body]
pub struct ExAddress(Address);

/// A string that the host keeps.
#[verifier::external_type_specification]
#[verifier::external_body]
pub struct ExHostString(soroban_sdk::String);

/// The text form of an address, as ASCII bytes. Two addresses are the same
/// exactly when their text forms are.
pub uninterp spec fn strkey(address: Address) -> Seq<u8>;

/// The bytes of a host string.
pub uninterp spec fn text(string: soroban_sdk::String) -> Seq<u8>;

/// The instance storage of the running contract, under the keys that are a
/// vector of one symbol: for each such key that holds a value, the address
/// that it holds, or `None` where the value is not an address.
pub uninterp spec fn instance_entries(env: Env) -> Map<Seq<char>, Option<Seq<u8>>>;

/// The persistent storage of the running contract, under the keys that are a
/// vector of a symbol and a number: for each such key that holds a value, the
/// fields of that value, or `None` where the value is not a map. A field is an
/// entry of the map whose key is a symbol.
pub uninterp spec fn persistent_entries(env: Env) -> Map<
    (Seq<char>, u64),
    Option<Map<Seq<char>, Field>>,
>;

/// For each key of the persistent storage that holds a value, the number of
/// ledgers after the current one in which the value can still be read.
pub uninterp spec fn persistent_ttls(env: Env) -> Map<(Seq<char>, u64), u32>;

/// The number of ledgers that a newly stored persistent value lives.
pub uninterp spec fn fresh_ttl(env: Env) -> u32;

/// The largest number of ledgers that a value can be kept alive.
pub uninterp spec fn max_ttl(env: Env) -> u32;

/// The events that the running contract has published, in their order.
pub uninterp spec fn published_events(env: Env) -> Seq<Event>;

/// The calls of other contracts that the running contract has made, in their
/// order.
pub uninterp spec fn made_calls(env: Env) -> Seq<Call>;

/// What a field of a stored map holds.
pub enum Field {
    /// A string, with these bytes.
    Text(Seq<u8>),
    /// A vector that begins with this symbol.
    Tag(Seq<char>),
    /// Anything else.
    Other,
}

/// What an event carries besides its topics.
pub enum EventData {
    /// An address, in its text form.
    Address(Seq<u8>),
    /// A number, and a vector of one symbol.
    Outcome(u64, Seq<char>),
}

/// A published event: its topics, which are symbols, and its data.
pub struct Event {
    pub topics: Seq<Seq<char>>,
    pub data: EventData,
}

/// A call of another contract with a number as its only argument.
pub struct Call {
    pub contract: Seq<u8>,
    pub function: Seq<char>,
    pub argument: u64,
    /// Whether the call came back with a value and not with an error.
    pub succeeded: bool,
}

/// All that the host holds for the running contract.
pub struct Ledger {
    pub instance: Map<Seq<char>, Option<Seq<u8>>>,
    pub persistent: Map<(Seq<char>, u64), Option<Map<Seq<char>, Field>>>,
    pub ttls: Map<(Seq<char>, u64), u32>,
    pub fresh_ttl: u32,
    pub max_ttl: u32,
    pub events: Seq<Event>,
    pub calls: Seq<Call>,
}

/// What the host behind `env` holds for the running contract.
pub open spec fn ledger(env: Env) -> Ledger {
    Ledger {
        instance: instance_entries(env),
        persistent: persistent_entries(env),
        ttls: persistent_ttls(env),
        fresh_ttl: fresh_ttl(env),
        max_ttl: max_ttl(env),
        events: published_events(env),
        calls: made_calls(env),
    }
}

/// The characters that a symbol is made of.
pub open spec fn is_symbol_char(c: char) -> bool {
    ||| 'a' <= c && c <= 'z'
    ||| 'A' <= c && c <= 'Z'
    ||| '0' <= c && c <= '9'
    ||| c == '_'
}

/// The texts that are symbols.
pub open spec fn is_symbol(s: Seq<char>) -> bool {
    s.len() <= 32 && forall|i: int| 0 <= i < s.len() ==> is_symbol_char(#[trigger] s[i])
}

/// The code of the letter `C`.
pub const CONTRACT_PREFIX: u8 = 67;

/// Whether a text form is that of a contract: it then starts with a `C`, and
/// that of an account with a `G`.
pub open spec fn names_contract(strkey: Seq<u8>) -> bool {
    strkey.len() > 0 && strkey[0] == CONTRACT_PREFIX
}

/// The text in one field of a map and the tag in another, if they are there.
pub open spec fn text_and_tag(
    fields: Map<Seq<char>, Field>,
    text_field: Seq<char>,
    tag_field: Seq<char>,
) -> Option<(Seq<u8>, Seq<char>)> {
    if fields.contains_key(text_field) && fields.contains_key(tag_field) {
        match (fields[text_field], fields[tag_field]) {
            (Field::Text(text), Field::Tag(tag)) => Some((text, tag)),
            _ => None,
        }
    } else {
        None
    }
}

/// The map of one field that holds a text and another that holds a tag.
pub open spec fn text_and_tag_fields(
    text_field: Seq<char>,
    text: Seq<u8>,
    tag_field: Seq<char>,
    tag: Seq<char>,
) -> Map<Seq<char>, Field> {
    map![text_field => Field::Text(text), tag_field => Field::Tag(tag)]
}

/// How long a value lives after a request to keep it for `extend_to` ledgers:
/// a request comes to nothing where the value lives longer than `threshold`
/// or would lose by it, and nothing lives longer than `max_ttl`.
pub open spec fn extended_ttl(current: u32, threshold: u32, extend_to: u32, max_ttl: u32) -> u32 {
    let target = if extend_to <= max_ttl {
        extend_to
    } else {
        max_ttl
    };
    if current <= threshold && target > current {
        target
    } else {
        current
    }
}

/// `soroban_sdk::Address::to_string`: the text form of an address.
#[verifier::external_body]
pub(crate) fn address_strkey(address: &Address) -> (bytes: Vec<u8>)
    ensures
        bytes@ == strkey(*address),
{
    let text = address.to_string();
    let mut bytes = vec![0u8; text.len() as usize];
    text.copy_into_slice(&mut bytes);
    bytes
}

/// `soroban_sdk::storage::Instance::has`: whether the instance storage holds a
/// value under the key of one symbol.
#[verifier::external_body]
pub(crate) fn instance_has(env: &Env, key: &str) -> (found: bool)
    requires
        is_symbol(key@),
    ensures
        found == instance_entries(*env).contains_key(key@),
{
    env.storage().instance().has(&(Symbol::new(env, key),))
}

/// `soroban_sdk::storage::Instance::get`: the address that the instance storage
/// holds under the key of one symbol, if it holds a value there and that is an
/// address.
#[verifier::external_body]
pub(crate) fn instance_get(env: &Env, key: &str) -> (address: Option<Address>)
    requires
        is_symbol(key@),
    ensures
        match address {
            Some(a) => instance_entries(*env).contains_pair(key@, Some(strkey(a))),
            None => !instance_entries(*env).contains_key(key@)
                || instance_entries(*env)[key@] is None,
        },
{
    let value: Val = env.storage().instance().get(&(Symbol::new(env, key),))?;
    Address::try_from_val(env, &value).ok()
}

/// `soroban_sdk::storage::Instance::set`: stores an address in the instance
/// storage under the key of one symbol, and changes nothing else.
#[verifier::external_body]
pub(crate) fn instance_set(env: &mut Env, key: &str, address: &Address)
    requires
        is_symbol(key@),
    ensures
        ledger(*final(env)) == (Ledger {
            instance: instance_entries(*old(env)).insert(key@, Some(strkey(*address))),
            ..ledger(*old(env))
        }),
{
    env.storage().instance().set(&(Symbol::new(env, key),), address);
}

/// `soroban_sdk::storage::Persistent::has`: whether the persistent storage
/// holds a value under the key of a symbol and a number.
#[verifier::external_body]
pub(crate) fn persistent_has(env: &Env, key: &str, id: u64) -> (found: bool)
    requires
        is_symbol(key@),
    ensures
        found == persistent_entries(*env).contains_key((key@, id)),
{
    env.storage().persistent().has(&(Symbol::new(env, key), id))
}

/// `soroban_sdk::storage::Persistent::get`: the text in one field and the tag in
/// another of the value that the persistent storage holds under the key of a
/// symbol and a number, if it holds a value there and that is a map with these
/// fields.
#[verifier::external_body]
pub(crate) fn persistent_get(env: &Env, key: &str, id: u64, text_field: &str, tag_field: &str)
    -> (entry: Option<(soroban_sdk::String, String)>)
    requires
        is_symbol(key@),
        is_symbol(text_field@),
        is_symbol(tag_field@),
    ensures
        entry is Some <==> {
            &&& persistent_entries(*env).contains_key((key@, id))
            &&& persistent_entries(*env)[(key@, id)] matches Some(fields)
            &&& text_and_tag(fields, text_field@, tag_field@) is Some
        },
        entry matches Some((text_value, tag)) ==> text_and_tag(
            persistent_entries(*env)[(key@, id)].unwrap(),
            text_field@,
            tag_field@,
        ) == Some((text(text_value), tag@)),
{
    let value: Val = env.storage().persistent().get(&(Symbol::new(env, key), id))?;
    let fields = soroban_sdk::Map::<Symbol, Val>::try_from_val(env, &value).ok()?;
    let text = fields.get(Symbol::new(env, text_field))?;
    let tag = fields.get(Symbol::new(env, tag_field))?;
    let tag = soroban_sdk::Vec::<Val>::try_from_val(env, &tag).ok()?.get(0)?;
    let text = soroban_sdk::String::try_from_val(env, &text).ok()?;
    Some((text, Symbol::try_from_val(env, &tag).ok()?.to_string()))
}

/// `soroban_sdk::storage::Persistent::set`: stores a map of a field that holds a
/// text and a field that holds a tag in the persistent storage under the key of
/// a symbol and a number, and changes nothing else. A value that takes the place
/// of another keeps its time to live; a new one gets that of a fresh value.
#[verifier::external_body]
pub(crate) fn persistent_set(
    env: &mut Env,
    key: &str,
    id: u64,
    text_field: &str,
    text_value: &soroban_sdk::String,
    tag_field: &str,
    tag: &str,
)
    requires
        is_symbol(key@),
        is_symbol(text_field@),
        is_symbol(tag_field@),
        is_symbol(tag@),
    ensures
        ledger(*final(env)) == (Ledger {
            persistent: persistent_entries(*old(env)).insert(
                (key@, id),
                Some(text_and_tag_fields(text_field@, text(*text_value), tag_field@, tag@)),
            ),
            ttls: if persistent_entries(*old(env)).contains_key((key@, id)) {
                persistent_ttls(*old(env))
            } else {
                persistent_ttls(*old(env)).insert((key@, id), fresh_ttl(*old(env)))
            },
            ..ledger(*old(env))
        }),
{
    let mut fields = soroban_sdk::Map::<Symbol, Val>::new(env);
    fields.set(Symbol::new(env, text_field), text_value.to_val());
    fields.set(Symbol::new(env, tag_field), (Symbol::new(env, tag),).into_val(env));
    env.storage().persistent().set(&(Symbol::new(env, key), id), &fields);
}

/// `soroban_sdk::storage::Persistent::extend_ttl`: asks for a stored value to be
/// kept for `extend_to` ledgers, and changes nothing else. The host adds
/// `extend_to` to the number of the current ledger in 32 bits, so it is held to
/// half of that range.
#[verifier::external_body]
pub(crate) fn persistent_extend_ttl(
    env: &mut Env,
    key: &str,
    id: u64,
    threshold: u32,
    extend_to: u32,
)
    requires
        is_symbol(key@),
        persistent_entries(*old(env)).contains_key((key@, id)),
        threshold <= extend_to <= 0x7fff_ffff,
    ensures
        ledger(*final(env)) == (Ledger {
            ttls: persistent_ttls(*old(env)).insert(
                (key@, id),
                extended_ttl(
                    persistent_ttls(*old(env))[(key@, id)],
                    threshold,
                    extend_to,
                    max_ttl(*old(env)),
                ),
            ),
            ..ledger(*old(env))
        }),
{
    env.storage().persistent().extend_ttl(&(Symbol::new(env, key), id), threshold, extend_to);
}

/// `soroban_sdk::events::Events::publish` with an address as data: publishes one
/// event, and changes nothing else.
#[allow(deprecated)]
#[verifier::external_body]
pub(crate) fn publish_address(env: &mut Env, subject: &str, action: &str, address: &Address)
    requires
        is_symbol(subject@),
        is_symbol(action@),
    ensures
        ledger(*final(env)) == (Ledger {
            events: published_events(*old(env)).push(
                Event {
                    topics: seq![subject@, action@],
                    data: EventData::Address(strkey(*address)),
                },
            ),
            ..ledger(*old(env))
        }),
{
    let topics = (Symbol::new(env, subject), Symbol::new(env, action));
    env.events().publish(topics, address);
}

/// `soroban_sdk::events::Events::publish` with a number and a symbol as data:
/// publishes one event, and changes nothing else.
#[allow(deprecated)]
#[verifier::external_body]
pub(crate) fn publish_outcome(env: &mut Env, subject: &str, action: &str, id: u64, result: &str)
    requires
        is_symbol(subject@),
        is_symbol(action@),
        is_symbol(result@),
    ensures
        ledger(*final(env)) == (Ledger {
            events: published_events(*old(env)).push(
                Event {
                    topics: seq![subject@, action@],
                    data: EventData::Outcome(id, result@),
                },
            ),
            ..ledger(*old(env))
        }),
{
    let topics = (Symbol::new(env, subject), Symbol::new(env, action));
    env.events().publish(topics, (id, (Symbol::new(env, result),)));
}

/// `soroban_sdk::Env::try_invoke_contract`: calls a function of a contract with
/// a number as its only argument, and tells whether it came back without an
/// error. What the called contract answers is up to it, and so is the answer
/// here. It can neither reach the storage of the running contract nor publish
/// events in its name.
#[verifier::external_body]
pub(crate) fn call_succeeds(env: &mut Env, contract: &Address, function: &str, argument: u64)
    -> (succeeded: bool)
    requires
        names_contract(strkey(*contract)),
        is_symbol(function@),
    ensures
        ledger(*final(env)) == (Ledger {
            calls: made_calls(*old(env)).push(
                Call {
                    contract: strkey(*contract),
                    function: function@,
                    argument: argument,
                    succeeded: succeeded,
                },
            ),
            ..ledger(*old(env))
        }),
{
    let function = Symbol::new(env, function);
    let arguments: soroban_sdk::Vec<Val> = (argument,).into_val(env);
    env.try_invoke_contract::<Val, soroban_sdk::Error>(contract, &function, arguments).is_ok()
}

} // verus!
