use vstd::prelude::*;

verus! {

/// Why raw input was refused.
#[derive(Clone, Copy, Debug, PartialEq, Eq, Structural)]
pub enum ValidationError {
    /// The text is not an acceptable subscriber name.
    InvalidName,
    /// The text is not an acceptable email address.
    InvalidEmail,
}

} // verus!
