//! The states of one call through the pipeline, and the moves between them.
use vstd::prelude::*;

use crate::pipeline::ExecutionError;

verus! {

/// Where a call stands.
#[derive(Clone, Copy, Debug, PartialEq, Eq, Structural)]
pub enum Stage {
    Idle,
    ProgramLoaded,
    Authorized,
    Executed,
    InclusionPrepared,
    FeeProved,
    TransactionAssembled,
    Failed(ExecutionError),
}

/// A local call ends once executed; an on-chain call goes on to a transaction.
#[derive(Clone, Copy, Debug, PartialEq, Eq, Structural)]
pub enum Route {
    Local,
    OnChain,
}

/// Whether a call on `route` has nothing left to do at `stage`.
pub open spec fn finished(stage: Stage, route: Route) -> bool {
    match stage {
        Stage::Failed(_) => true,
        Stage::TransactionAssembled => true,
        Stage::Executed => route == Route::Local,
        _ => false,
    }
}

/// The stage after the work of `stage` ended with `outcome`. A finished call
/// stays where it is; a failure ends the call.
pub open spec fn next_stage(stage: Stage, route: Route, outcome: Result<(), ExecutionError>) -> Stage {
    if finished(stage, route) {
        stage
    } else {
        match outcome {
            Err(e) => Stage::Failed(e),
            Ok(_) => match stage {
                Stage::Idle => Stage::ProgramLoaded,
                Stage::ProgramLoaded => Stage::Authorized,
                Stage::Authorized => Stage::Executed,
                Stage::Executed => Stage::InclusionPrepared,
                Stage::InclusionPrepared => Stage::FeeProved,
                Stage::FeeProved => Stage::TransactionAssembled,
                other => other,
            },
        }
    }
}

/// The stage reached from `start` after the outcomes `outcomes`, in order.
pub open spec fn run_from(start: Stage, route: Route, outcomes: Seq<Result<(), ExecutionError>>) -> Stage
    decreases outcomes.len(),
{
    if outcomes.len() == 0 {
        start
    } else {
        run_from(next_stage(start, route, outcomes[0]), route, outcomes.drop_first())
    }
}

/// Whether a call on `route` has nothing left to do at `stage`.
pub fn is_finished(stage: Stage, route: Route) -> (r: bool)
    ensures
        r == finished(stage, route),
{
    match stage {
        Stage::Failed(_) => true,
        Stage::TransactionAssembled => true,
        Stage::Executed => route == Route::Local,
        _ => false,
    }
}

/// Moves a call on once the work of its stage has ended with `outcome`.
pub fn advance(stage: Stage, route: Route, outcome: Result<(), ExecutionError>) -> (r: Stage)
    ensures
        r == next_stage(stage, route, outcome),
{
    if is_finished(stage, route) {
        return stage;
    }
    match outcome {
        Err(e) => Stage::Failed(e),
        Ok(_) => match stage {
            Stage::Idle => Stage::ProgramLoaded,
            Stage::ProgramLoaded => Stage::Authorized,
            Stage::Authorized => Stage::Executed,
            Stage::Executed => Stage::InclusionPrepared,
            Stage::InclusionPrepared => Stage::FeeProved,
            Stage::FeeProved => Stage::TransactionAssembled,
            other => other,
        },
    }
}

/// Whether a call at `stage` has produced a transaction.
pub fn has_transaction(stage: Stage) -> (r: bool)
    ensures
        r == (stage == Stage::TransactionAssembled),
{
    match stage {
        Stage::TransactionAssembled => true,
        _ => false,
    }
}

/// A failed call stays failed, whatever comes after.
pub proof fn lemma_failure_is_final(e: ExecutionError, route: Route, outcomes: Seq<Result<(), ExecutionError>>)
    ensures
        run_from(Stage::Failed(e), route, outcomes) == Stage::Failed(e),
    decreases outcomes.len(),
{
    if outcomes.len() > 0 {
        lemma_failure_is_final(e, route, outcomes.drop_first());
    }
}

pub open spec fn local_stage(stage: Stage) -> bool {
    match stage {
        Stage::Idle | Stage::ProgramLoaded | Stage::Authorized | Stage::Executed | Stage::Failed(_) => true,
        _ => false,
    }
}

proof fn lemma_local_stays_local(start: Stage, outcomes: Seq<Result<(), ExecutionError>>)
    requires
        local_stage(start),
    ensures
        local_stage(run_from(start, Route::Local, outcomes)),
    decreases outcomes.len(),
{
    if outcomes.len() > 0 {
        lemma_local_stays_local(next_stage(start, Route::Local, outcomes[0]), outcomes.drop_first());
    }
}

/// A local call never produces a transaction, whatever its outcomes; when
/// loading, authorizing and executing succeed it ends at `Executed`.
pub proof fn lemma_local_call_stops_at_executed(outcomes: Seq<Result<(), ExecutionError>>)
    ensures
        run_from(Stage::Idle, Route::Local, outcomes) != Stage::TransactionAssembled,
        outcomes.len() >= 3 && outcomes[0] is Ok && outcomes[1] is Ok && outcomes[2] is Ok
            ==> run_from(Stage::Idle, Route::Local, outcomes) == Stage::Executed,
    decreases outcomes.len(),
{
    lemma_local_stays_local(Stage::Idle, outcomes);
    if outcomes.len() >= 3 && outcomes[0] is Ok && outcomes[1] is Ok && outcomes[2] is Ok {
        let s1 = outcomes.drop_first();
        let s2 = s1.drop_first();
        let s3 = s2.drop_first();
        assert(s1[0] == outcomes[1] && s2[0] == outcomes[2]);
        assert(run_from(Stage::Idle, Route::Local, outcomes) == run_from(Stage::ProgramLoaded, Route::Local, s1));
        assert(run_from(Stage::ProgramLoaded, Route::Local, s1) == run_from(Stage::Authorized, Route::Local, s2));
        assert(run_from(Stage::Authorized, Route::Local, s2) == run_from(Stage::Executed, Route::Local, s3));
        lemma_executed_local_stays(s3);
    }
}

proof fn lemma_executed_local_stays(outcomes: Seq<Result<(), ExecutionError>>)
    ensures
        run_from(Stage::Executed, Route::Local, outcomes) == Stage::Executed,
    decreases outcomes.len(),
{
    if outcomes.len() > 0 {
        lemma_executed_local_stays(outcomes.drop_first());
    }
}

proof fn lemma_assembled_stays(route: Route, outcomes: Seq<Result<(), ExecutionError>>)
    ensures
        run_from(Stage::TransactionAssembled, route, outcomes) == Stage::TransactionAssembled,
    decreases outcomes.len(),
{
    if outcomes.len() > 0 {
        lemma_assembled_stays(route, outcomes.drop_first());
    }
}

/// On chain, once the execution and its inclusion proof succeed, the fee
/// stage decides: a failure there (such as too small a fee record) ends the
/// call without a transaction, while a proved fee leads to one.
pub proof fn lemma_fee_stage_decides(fee_outcome: Result<(), ExecutionError>, rest: Seq<Result<(), ExecutionError>>)
    ensures
        ({
            let outcomes = seq![Ok(()), Ok(()), Ok(()), Ok(()), fee_outcome] + rest;
            &&& fee_outcome matches Err(e) ==> run_from(Stage::Idle, Route::OnChain, outcomes) == Stage::Failed(e)
            &&& fee_outcome is Ok && rest.len() > 0 && rest[0] is Ok
                ==> run_from(Stage::Idle, Route::OnChain, outcomes) == Stage::TransactionAssembled
        }),
{
    let outcomes = seq![Ok(()), Ok(()), Ok(()), Ok(()), fee_outcome] + rest;
    let s1 = outcomes.drop_first();
    let s2 = s1.drop_first();
    let s3 = s2.drop_first();
    let s4 = s3.drop_first();
    let s5 = s4.drop_first();
    assert(s5 =~= rest);
    assert(outcomes[0] is Ok && s1[0] is Ok && s2[0] is Ok && s3[0] is Ok && s4[0] == fee_outcome);
    let r = Route::OnChain;
    assert(run_from(Stage::Idle, r, outcomes) == run_from(Stage::ProgramLoaded, r, s1));
    assert(run_from(Stage::ProgramLoaded, r, s1) == run_from(Stage::Authorized, r, s2));
    assert(run_from(Stage::Authorized, r, s2) == run_from(Stage::Executed, r, s3));
    assert(run_from(Stage::Executed, r, s3) == run_from(Stage::InclusionPrepared, r, s4));
    assert(run_from(Stage::InclusionPrepared, r, s4) == run_from(next_stage(Stage::InclusionPrepared, r, fee_outcome), r, rest));
    match fee_outcome {
        Err(e) => {
            lemma_failure_is_final(e, Route::OnChain, rest);
        },
        Ok(_) => {
            if rest.len() > 0 && rest[0] is Ok {
                assert(run_from(Stage::FeeProved, r, rest) == run_from(Stage::TransactionAssembled, r, rest.drop_first()));
                lemma_assembled_stays(Route::OnChain, rest.drop_first());
            }
        },
    }
}

} // verus!
