use aleo_sdk::pipeline::{check_fee_record, fee_decision, parse_inputs, ExecutionContext, ExecutionError, InputArg, LoadPlan};
use aleo_sdk::stages::{advance, has_transaction, is_finished, Route, Stage};
use rand::SeedableRng;
use rand_chacha::ChaChaRng;
use snarkvm_console::account::{Address, PrivateKey};
use snarkvm_console::network::Testnet3;
use snarkvm_synthesizer::Program;

const HELLO_PROGRAM: &str = "program hello.aleo;

function main:
    input r0 as u32.public;
    input r1 as u32.private;
    add r0 r1 into r2;
    output r2 as u32.private;
";

fn account(seed: u64) -> (String, String) {
    let private_key = PrivateKey::<Testnet3>::new(&mut ChaChaRng::seed_from_u64(seed)).unwrap();
    let address = Address::try_from(&private_key).unwrap();
    (private_key.to_string(), address.to_string())
}

fn fee_record(owner: &str, gates: u64) -> String {
    format!("{{ owner: {owner}.private, gates: {gates}u64.private, _nonce: 0group.public }}")
}

#[test]
fn inputs_must_be_strings() {
    let ok = parse_inputs(&vec![InputArg::Text("1u32".to_string()), InputArg::Text("2u32".to_string())]).unwrap();
    assert_eq!(ok, vec!["1u32".to_string(), "2u32".to_string()]);
    let bad = parse_inputs(&vec![InputArg::Text("1u32".to_string()), InputArg::Other]);
    assert_eq!(bad, Err(ExecutionError::InvalidInput));
    assert_eq!(parse_inputs(&vec![]), Ok(vec![]));
}

#[test]
fn loading_registers_new_programs_once() {
    let mut ctx: ExecutionContext<u32, u32> = ExecutionContext::new();
    let hello = HELLO_PROGRAM.to_string();
    let main = "main".to_string();
    let (src, plan) = ctx.plan_load(&hello, &main).unwrap();
    assert_eq!(plan, LoadPlan::Register);
    assert_eq!(src.id, "hello.aleo");
    ctx.record_program(&src);
    let (_, plan) = ctx.plan_load(&hello, &main).unwrap();
    assert_eq!(plan, LoadPlan::AlreadyLoaded);
    let other_body = HELLO_PROGRAM.replace("add r0 r1", "sub r0 r1");
    assert_eq!(ctx.plan_load(&other_body, &main).err(), Some(ExecutionError::ProgramMismatch));
}

#[test]
fn loading_refuses_bad_programs_and_names() {
    let ctx: ExecutionContext<u32, u32> = ExecutionContext::new();
    let main = "main".to_string();
    assert_eq!(ctx.plan_load(&"not a program".to_string(), &main).err(), Some(ExecutionError::InvalidProgram));
    assert_eq!(
        ctx.plan_load(&HELLO_PROGRAM.to_string(), &"1bad name".to_string()).err(),
        Some(ExecutionError::InvalidFunctionName)
    );
    let credits = Program::<Testnet3>::credits().unwrap().to_string();
    let (src, plan) = ctx.plan_load(&credits, &"fee".to_string()).unwrap();
    assert_eq!(plan, LoadPlan::Native);
    assert_eq!(src.id, "credits.aleo");
}

#[test]
fn fee_record_must_cover_the_fee() {
    let (key, address) = account(3);
    let (_, other) = account(4);
    assert_eq!(check_fee_record(&key, &fee_record(&address, 200000), 100000), Ok(100000));
    assert_eq!(check_fee_record(&key, &fee_record(&address, 100000), 100000), Ok(100000));
    assert_eq!(check_fee_record(&key, &fee_record(&address, 99999), 100000), Err(ExecutionError::InsufficientFunds));
    assert_eq!(check_fee_record(&key, &fee_record(&other, 200000), 100000), Err(ExecutionError::FeeRecordNotOwned));
    assert_eq!(check_fee_record(&key, &"junk".to_string(), 100000), Err(ExecutionError::InvalidFeeRecord));
    assert_eq!(check_fee_record(&"junk".to_string(), &fee_record(&address, 1), 1), Err(ExecutionError::InvalidPrivateKey));
}

fn drive(route: Route, outcomes: &[Result<(), ExecutionError>]) -> Stage {
    let mut stage = Stage::Idle;
    for o in outcomes {
        stage = advance(stage, route, *o);
    }
    stage
}

#[test]
fn local_call_ends_at_executed() {
    let stage = drive(Route::Local, &[Ok(()), Ok(()), Ok(())]);
    assert_eq!(stage, Stage::Executed);
    assert!(is_finished(stage, Route::Local));
    assert!(!has_transaction(stage));
    let stage = drive(Route::Local, &[Ok(()), Ok(()), Ok(()), Ok(()), Ok(()), Ok(())]);
    assert_eq!(stage, Stage::Executed);
}

#[test]
fn on_chain_call_assembles_a_transaction() {
    let stage = drive(Route::OnChain, &[Ok(()); 6]);
    assert_eq!(stage, Stage::TransactionAssembled);
    assert!(has_transaction(stage));
    assert!(is_finished(stage, Route::OnChain));
    assert!(!is_finished(Stage::Executed, Route::OnChain));
}

#[test]
fn short_fee_record_ends_without_transaction() {
    let (key, address) = account(5);
    let fee = check_fee_record(&key, &fee_record(&address, 50000), 100000).map(|_| ());
    let stage = drive(Route::OnChain, &[Ok(()), Ok(()), Ok(()), Ok(()), fee, Ok(())]);
    assert_eq!(stage, Stage::Failed(ExecutionError::InsufficientFunds));
    assert!(!has_transaction(stage));
}

#[test]
fn failure_stops_the_call() {
    let stage = drive(Route::OnChain, &[Ok(()), Err(ExecutionError::AuthorizationFailed), Ok(()), Ok(())]);
    assert_eq!(stage, Stage::Failed(ExecutionError::AuthorizationFailed));
    assert_eq!(advance(Stage::ProgramLoaded, Route::Local, Ok(())), Stage::Authorized);
}

#[test]
fn fee_decision_on_given_values() {
    let me = "aleo1me".to_string();
    assert_eq!(fee_decision(Some(me.clone()), Some((me.clone(), 100000)), 100000), Ok(100000));
    assert_eq!(fee_decision(Some(me.clone()), Some((me.clone(), 99999)), 100000), Err(ExecutionError::InsufficientFunds));
    assert_eq!(fee_decision(Some(me.clone()), Some(("aleo1you".to_string(), 1 << 40)), 1), Err(ExecutionError::FeeRecordNotOwned));
    assert_eq!(fee_decision(Some(me.clone()), None, 1), Err(ExecutionError::InvalidFeeRecord));
    assert_eq!(fee_decision(None, Some((me, 5)), 1), Err(ExecutionError::InvalidPrivateKey));
}

#[test]
fn plan_for_a_parsed_program() {
    let mut ctx: ExecutionContext<u8, u8> = ExecutionContext::new();
    let (src, _) = ctx.plan_load(&HELLO_PROGRAM.to_string(), &"main".to_string()).unwrap();
    assert_eq!(ctx.plan_for_source(&src, false), Err(ExecutionError::InvalidFunctionName));
    assert_eq!(ctx.plan_for_source(&src, true), Ok(LoadPlan::Register));
    ctx.record_program(&src);
    assert_eq!(ctx.plan_for_source(&src, true), Ok(LoadPlan::AlreadyLoaded));
    let mut changed = src.clone();
    changed.text.push_str("\n");
    assert_eq!(ctx.plan_for_source(&changed, true), Err(ExecutionError::ProgramMismatch));
}
