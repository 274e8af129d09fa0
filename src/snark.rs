//! Calls into snarkVM. Each function here parses or derives a value from
//! plain text; its result is named by a spec function so that the verified
//! logic can speak of it exactly.
use vstd::prelude::*;

use snarkvm_console::account::PrivateKey;
use snarkvm_console::network::Testnet3;
use snarkvm_console::program::{Address, Identifier, Owner, Plaintext, ProgramID, Record};
use snarkvm_synthesizer::Program;
use std::str::FromStr;

verus! {

/// What snarkVM reads from a program text: `None` when the text is not a
/// program, otherwise its identifier and its declared imports, in order.
pub uninterp spec fn program_outline(text: Seq<char>) -> Option<(Seq<char>, Seq<Seq<char>>)>;

/// Relies on `Program::<Testnet3>::from_str` to parse a program text, and on
/// `Program::id` and `Program::imports` (an `IndexMap` kept in declaration
/// order) for its identifier and imports, each as its string form.
#[verifier::external_body]
pub(crate) fn outline_program(text: &String) -> (r: Option<(String, Vec<String>)>)
    ensures
        match r {
            Some(o) => program_outline(text@) == Some((o.0@, o.1@.map_values(|s: String| s@))),
            None => program_outline(text@) is None,
        },
{
    Program::<Testnet3>::from_str(text).ok().map(
        |p| (p.id().to_string(), p.imports().keys().map(|k| k.to_string()).collect()),
    )
}

/// Whether snarkVM reserves the name of a program identifier: `None` when the
/// text is not a program identifier.
pub uninterp spec fn reserved_program_name(id: Seq<char>) -> Option<bool>;

/// Relies on `ProgramID::<Testnet3>::from_str` to parse the identifier and on
/// `Program::is_reserved_keyword` for its name.
#[verifier::external_body]
pub(crate) fn check_reserved_name(id: &String) -> (r: Option<bool>)
    ensures
        r == reserved_program_name(id@),
{
    ProgramID::<Testnet3>::from_str(id).ok().map(|p| Program::<Testnet3>::is_reserved_keyword(p.name()))
}

/// Whether snarkVM accepts a text as an identifier (a function name).
pub uninterp spec fn valid_identifier(name: Seq<char>) -> bool;

/// Relies on `Identifier::<Testnet3>::from_str`.
#[verifier::external_body]
pub(crate) fn check_identifier(name: &String) -> (r: bool)
    ensures
        r == valid_identifier(name@),
{
    Identifier::<Testnet3>::from_str(name).is_ok()
}

/// The address of an account, as text: `None` when the text is not a private key.
pub uninterp spec fn address_of(private_key: Seq<char>) -> Option<Seq<char>>;

/// Relies on `PrivateKey::<Testnet3>::from_str` and on
/// `Address::try_from(&PrivateKey)` to derive the account's address.
#[verifier::external_body]
pub(crate) fn derive_address(private_key: &String) -> (r: Option<String>)
    ensures
        match r {
            Some(a) => address_of(private_key@) == Some(a@),
            None => address_of(private_key@) is None,
        },
{
    PrivateKey::<Testnet3>::from_str(private_key)
        .ok()
        .and_then(|k| Address::try_from(&k).ok())
        .map(|a| a.to_string())
}

/// The owner of a record stored as JSON: `None` when the text is not a
/// plaintext record, `Some(None)` when its owner is private, otherwise the
/// public owner's address.
pub uninterp spec fn json_record_owner(json: Seq<char>) -> Option<Option<Seq<char>>>;

/// Relies on `serde_json::from_str` into `Record<Testnet3, Plaintext<Testnet3>>`
/// and on `Record::owner`.
#[verifier::external_body]
pub(crate) fn read_record_owner(json: &String) -> (r: Option<Option<String>>)
    ensures
        match r {
            Some(Some(a)) => json_record_owner(json@) == Some(Some(a@)),
            Some(None) => json_record_owner(json@) == Some(None::<Seq<char>>),
            None => json_record_owner(json@) is None,
        },
{
    serde_json::from_str::<Record<Testnet3, Plaintext<Testnet3>>>(json).ok().map(|r| match r.owner() {
        Owner::Public(a) => Some(a.to_string()),
        Owner::Private(_) => None,
    })
}

/// What a plaintext record text holds: `None` when it is not a record,
/// otherwise its owner's address and its balance in microcredits.
pub uninterp spec fn record_owner_and_gates(text: Seq<char>) -> Option<(Seq<char>, u64)>;

/// Relies on `Record::<Testnet3, Plaintext<Testnet3>>::from_str`, and on
/// `Record::owner` and `Record::gates`, read through their `Deref` impls as
/// the owner's address and the balance.
#[verifier::external_body]
pub(crate) fn read_record(text: &String) -> (r: Option<(String, u64)>)
    ensures
        match r {
            Some(f) => record_owner_and_gates(text@) == Some((f.0@, f.1)),
            None => record_owner_and_gates(text@) is None,
        },
{
    Record::<Testnet3, Plaintext<Testnet3>>::from_str(text).ok().map(|r| ((**r.owner()).to_string(), ***r.gates()))
}

} // verus!
