use crate::error::Error;
use vstd::prelude::*;

verus! {

/// Where the reception of an inbound activity stands. The checks run in the
/// order of the variants; the first failure ends the reception.
#[derive(Clone, Copy, Debug, PartialEq, Eq, Structural)]
pub enum Stage {
    /// Compare the body's hash with the declared digest header.
    VerifyDigest,
    /// Decode the body into an activity.
    Parse,
    /// Check the activity's id and actor against the domain policy.
    VerifyDomain,
    /// Resolve the activity's actor.
    ResolveActor,
    /// Check the request signature with the actor's public key.
    VerifySignature,
    /// Hand the activity to its own handler.
    Dispatch,
    /// Every step passed.
    Accepted,
    /// A step failed with this error.
    Rejected(Error),
}

/// The place of a stage in the order of reception; both ends rank last.
pub open spec fn rank(stage: Stage) -> nat {
    match stage {
        Stage::VerifyDigest => 0,
        Stage::Parse => 1,
        Stage::VerifyDomain => 2,
        Stage::ResolveActor => 3,
        Stage::VerifySignature => 4,
        Stage::Dispatch => 5,
        Stage::Accepted => 6,
        Stage::Rejected(_) => 6,
    }
}

/// Whether reception has ended.
pub open spec fn is_final(stage: Stage) -> bool {
    stage is Accepted || stage is Rejected
}

/// The stage that follows `stage` once its step has ended with `outcome`.
/// The checks of digest, payload, domain and signature fail with their own
/// error; the errors of actor resolution and of the handler pass unchanged.
pub open spec fn step_spec(stage: Stage, outcome: Result<(), Error>) -> Stage {
    match stage {
        Stage::VerifyDigest => if outcome is Ok {
            Stage::Parse
        } else {
            Stage::Rejected(Error::DigestInvalid)
        },
        Stage::Parse => if outcome is Ok {
            Stage::VerifyDomain
        } else {
            Stage::Rejected(Error::MalformedPayload)
        },
        Stage::VerifyDomain => if outcome is Ok {
            Stage::ResolveActor
        } else {
            Stage::Rejected(Error::DomainInvalid)
        },
        Stage::ResolveActor => match outcome {
            Ok(()) => Stage::VerifySignature,
            Err(e) => Stage::Rejected(e),
        },
        Stage::VerifySignature => if outcome is Ok {
            Stage::Dispatch
        } else {
            Stage::Rejected(Error::SignatureInvalid)
        },
        Stage::Dispatch => match outcome {
            Ok(()) => Stage::Accepted,
            Err(e) => Stage::Rejected(e),
        },
        Stage::Accepted => stage,
        Stage::Rejected(_) => stage,
    }
}

/// The stage reached from `stage` when the steps end with `outcomes`, in turn.
pub open spec fn run_spec(stage: Stage, outcomes: Seq<Result<(), Error>>) -> Stage
    decreases outcomes.len(),
{
    if outcomes.len() == 0 {
        stage
    } else {
        run_spec(step_spec(stage, outcomes[0]), outcomes.drop_first())
    }
}

/// Advances reception past the step of `stage`, which ended with `outcome`.
pub fn receive_step(stage: Stage, outcome: Result<(), Error>) -> (r: Stage)
    ensures
        r == step_spec(stage, outcome),
{
    match stage {
        Stage::VerifyDigest => match outcome {
            Ok(()) => Stage::Parse,
            Err(_) => Stage::Rejected(Error::DigestInvalid),
        },
        Stage::Parse => match outcome {
            Ok(()) => Stage::VerifyDomain,
            Err(_) => Stage::Rejected(Error::MalformedPayload),
        },
        Stage::VerifyDomain => match outcome {
            Ok(()) => Stage::ResolveActor,
            Err(_) => Stage::Rejected(Error::DomainInvalid),
        },
        Stage::ResolveActor => match outcome {
            Ok(()) => Stage::VerifySignature,
            Err(e) => Stage::Rejected(e),
        },
        Stage::VerifySignature => match outcome {
            Ok(()) => Stage::Dispatch,
            Err(_) => Stage::Rejected(Error::SignatureInvalid),
        },
        Stage::Dispatch => match outcome {
            Ok(()) => Stage::Accepted,
            Err(e) => Stage::Rejected(e),
        },
        Stage::Accepted => Stage::Accepted,
        Stage::Rejected(e) => Stage::Rejected(e),
    }
}

/// Whether reception has ended.
pub fn is_finished(stage: Stage) -> (r: bool)
    ensures
        r == is_final(stage),
{
    match stage {
        Stage::Accepted => true,
        Stage::Rejected(_) => true,
        _ => false,
    }
}

/// Runs reception from its first step over the outcomes of the steps, in
/// turn, and returns how it ended together with the number of outcomes it
/// read. It reads no outcome after reception has ended.
pub fn receive_outcomes(outcomes: &Vec<Result<(), Error>>) -> (r: (Stage, usize))
    ensures
        r.1 <= outcomes@.len(),
        r.0 == run_spec(Stage::VerifyDigest, outcomes@.take(r.1 as int)),
        is_final(r.0) || r.1 == outcomes@.len(),
        r.1 > 0 ==> !is_final(run_spec(Stage::VerifyDigest, outcomes@.take(r.1 - 1))),
{
    let mut stage = Stage::VerifyDigest;
    let mut i: usize = 0;
    while i < outcomes.len() && !is_finished(stage)
        invariant
            i <= outcomes@.len(),
            stage == run_spec(Stage::VerifyDigest, outcomes@.take(i as int)),
            i > 0 ==> !is_final(run_spec(Stage::VerifyDigest, outcomes@.take(i - 1))),
        decreases outcomes@.len() - i,
    {
        proof {
            lemma_run_push(Stage::VerifyDigest, outcomes@.take(i as int), outcomes@[i as int]);
            assert(outcomes@.take(i as int).push(outcomes@[i as int]) =~= outcomes@.take(i + 1));
        }
        stage = receive_step(stage, outcomes[i]);
        i = i + 1;
    }
    (stage, i)
}

/// Running one more step appends it to the run.
pub proof fn lemma_run_push(stage: Stage, outcomes: Seq<Result<(), Error>>, last: Result<(), Error>)
    ensures
        run_spec(stage, outcomes.push(last)) == step_spec(run_spec(stage, outcomes), last),
    decreases outcomes.len(),
{
    if outcomes.len() == 0 {
        assert(outcomes.push(last).drop_first() =~= outcomes);
        assert(outcomes.push(last)[0] == last);
        reveal_with_fuel(run_spec, 2);
    } else {
        assert(outcomes.push(last).drop_first() =~= outcomes.drop_first().push(last));
        assert(outcomes.push(last)[0] == outcomes[0]);
        lemma_run_push(step_spec(stage, outcomes[0]), outcomes.drop_first(), last);
    }
}

/// Every step either ends reception or moves it to the next stage in order,
/// so no step is skipped or taken twice.
pub proof fn lemma_steps_in_order(stage: Stage, outcome: Result<(), Error>)
    requires
        !is_final(stage),
    ensures
        is_final(step_spec(stage, outcome)) || rank(step_spec(stage, outcome)) == rank(stage) + 1,
        outcome is Ok ==> rank(step_spec(stage, outcome)) == rank(stage) + 1,
{
}

/// Once reception has ended, no later outcome changes how it ended.
pub proof fn lemma_final_is_kept(stage: Stage, outcomes: Seq<Result<(), Error>>)
    requires
        is_final(stage),
    ensures
        run_spec(stage, outcomes) == stage,
    decreases outcomes.len(),
{
    if outcomes.len() > 0 {
        lemma_final_is_kept(stage, outcomes.drop_first());
    }
}

/// A failed digest check rejects the activity with `DigestInvalid`, whatever
/// the later steps would say: the signature is never checked.
pub proof fn lemma_bad_digest_stops(first: Result<(), Error>, rest: Seq<Result<(), Error>>)
    requires
        first is Err,
    ensures
        run_spec(Stage::VerifyDigest, seq![first] + rest) == Stage::Rejected(Error::DigestInvalid),
{
    let s = seq![first] + rest;
    assert(s.drop_first() =~= rest);
    lemma_final_is_kept(Stage::Rejected(Error::DigestInvalid), rest);
}

/// Reception of six step outcomes succeeds exactly when every step passed.
pub proof fn lemma_accepted_iff_all_pass(outcomes: Seq<Result<(), Error>>)
    requires
        outcomes.len() == 6,
    ensures
        run_spec(Stage::VerifyDigest, outcomes) == Stage::Accepted <==> forall|i: int|
            0 <= i < 6 ==> #[trigger] outcomes[i] is Ok,
{
    reveal_with_fuel(run_spec, 7);
    let o1 = outcomes.drop_first();
    let o2 = o1.drop_first();
    let o3 = o2.drop_first();
    let o4 = o3.drop_first();
    let o5 = o4.drop_first();
    let o6 = o5.drop_first();
    assert(o1[0] == outcomes[1] && o2[0] == outcomes[2] && o3[0] == outcomes[3]);
    assert(o4[0] == outcomes[4] && o5[0] == outcomes[5] && o6.len() == 0);
}

} // verus!
