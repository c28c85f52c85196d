use vstd::prelude::*;

verus! {

/// Why a submitted form was turned away. Always the client's doing.
#[derive(Clone, Copy, Debug, PartialEq, Eq, Structural)]
pub enum ValidationError {
    /// The name is blank, too long, or holds a forbidden character.
    InvalidName,
    /// The email does not follow the address grammar.
    InvalidEmail,
}

} // verus!
