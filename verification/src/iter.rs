//! Pull-based consumption of poll outcomes.
//!
//! A consumer loop wants a plain sequence of replies, not a three-way
//! outcome per poll. The adapter here is deliberately error-masking: a
//! poll that timed out empty, or failed to decode, yields nothing and the
//! loop polls again; only a successful, non-empty reply is handed to the
//! consumer. A malformed or errored event is therefore silently dropped --
//! a consumer that needs error visibility must poll through the client
//! operations directly.

use vstd::prelude::*;
use crate::error::Error;

verus! {

/// The replies a consumer sees out of a sequence of poll outcomes: the
/// text of every successful, non-empty poll, in order; errors and empty
/// polls leave no trace.
pub open spec fn ready_values(outcomes: Seq<Result<Option<String>, Error>>) -> Seq<Seq<char>>
    decreases outcomes.len(),
{
    if outcomes.len() == 0 {
        Seq::empty()
    } else {
        let rest = ready_values(outcomes.drop_first());
        match outcomes[0] {
            Ok(Some(s)) => seq![s@] + rest,
            _ => rest,
        }
    }
}

/// One step of the pull loop: a successful, non-empty poll outcome yields
/// its reply; an empty or errored one yields nothing, and the loop is to
/// poll again.
pub fn poll_step(outcome: Result<Option<String>, Error>) -> (r: Option<String>)
    ensures
        r is Some <==> outcome matches Ok(Some(_)),
        r matches Some(s) ==> outcome matches Ok(o) && o == Some(s),
{
    match outcome {
        Ok(Some(s)) => Some(s),
        _ => None,
    }
}

/// Runs the pull loop over a recorded sequence of poll outcomes: the
/// result is exactly the successful replies, in order; errors and empty
/// polls are skipped and end nothing.
pub fn drain(outcomes: Vec<Result<Option<String>, Error>>) -> (r: Vec<String>)
    ensures
        r@.map_values(|s: String| s@) == ready_values(outcomes@),
{
    let mut remaining = outcomes;
    let mut r: Vec<String> = Vec::new();
    let ghost all = remaining@;
    proof {
        assert(r@.map_values(|s: String| s@) =~= Seq::<Seq<char>>::empty());
    }
    while remaining.len() > 0
        invariant
            ready_values(all) =~= r@.map_values(|s: String| s@) + ready_values(remaining@),
        decreases remaining@.len(),
    {
        let ghost before = remaining@;
        let ghost r_before = r@;
        let outcome = remaining.remove(0);
        proof {
            assert(before.drop_first() =~= remaining@);
        }
        match poll_step(outcome) {
            Some(s) => {
                r.push(s);
                proof {
                    assert(r@.map_values(|s: String| s@) =~= r_before.map_values(
                        |s: String| s@,
                    ).push(r@[r_before.len() as int]@));
                    assert(ready_values(before) =~= seq![outcome->Ok_0->0@] + ready_values(
                        remaining@,
                    ));
                }
            },
            None => {
                proof {
                    assert(ready_values(before) =~= ready_values(remaining@));
                }
            },
        }
    }
    proof {
        assert(ready_values(remaining@) =~= Seq::<Seq<char>>::empty());
    }
    r
}

} // verus!
