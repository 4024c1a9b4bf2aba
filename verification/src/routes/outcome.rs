use vstd::prelude::*;

verus! {

/// How a request ended. It carries a status and nothing else, so no detail
/// of a failure can reach the client through it.
#[derive(Clone, Copy, Debug, PartialEq, Eq, Structural)]
pub enum Outcome {
    /// The request was served.
    Accepted,
    /// The submitted data was refused.
    Rejected,
    /// Storage failed while the request was served.
    Failed,
}

impl Outcome {
    /// The HTTP status that stands for this outcome.
    pub open spec fn spec_status_code(&self) -> u16 {
        match self {
            Outcome::Accepted => 200,
            Outcome::Rejected => 400,
            Outcome::Failed => 500,
        }
    }

    /// The HTTP status that stands for this outcome.
    #[verifier::when_used_as_spec(spec_status_code)]
    pub fn status_code(&self) -> (code: u16)
        ensures
            code == self.spec_status_code(),
    {
        match self {
            Outcome::Accepted => 200,
            Outcome::Rejected => 400,
            Outcome::Failed => 500,
        }
    }
}

} // verus!
