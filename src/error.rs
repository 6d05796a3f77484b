use vstd::prelude::*;

verus! {

/// A failure of the storage slot that holds the state.
#[derive(Clone, Debug, PartialEq, Eq)]
pub enum StdError {
    /// Nothing is stored yet; `kind` names what was looked for.
    NotFound { kind: String },
}

#[derive(Clone, Debug, PartialEq, Eq)]
pub enum ContractError {
    Std(StdError),
    Unauthorized {},
    InvalidZeroAmount {},
    CustomError { val: String },
}

/// The name under which a missing state is reported.
pub open spec fn state_kind() -> Seq<char> {
    "State"@
}

/// The error of a read of the state where none is stored.
pub fn state_not_found() -> (e: StdError)
    ensures
        e matches StdError::NotFound { kind } && kind@ == state_kind(),
{
    StdError::NotFound { kind: String::from_str("State") }
}

} // verus!
