use vstd::prelude::*;

use crate::routes::outcome::Outcome;

verus! {

/// Reports that the service is up. It takes no input and always succeeds.
pub fn health_check() -> (outcome: Outcome)
    ensures
        outcome == Outcome::Accepted,
{
    Outcome::Accepted
}

} // verus!
