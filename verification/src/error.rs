use vstd::prelude::*;

verus! {

/// The ways a call into the contract is rejected. The host treats each as a
/// fatal abort of the enclosing call: every write attempted during the call
/// is discarded and only the failure is observable.
#[derive(Debug, Clone, Copy, PartialEq, Eq, Structural)]
pub enum ContractError {
    /// A method other than the initializer ran before initialization.
    NotInitialized,
    /// The initializer ran a second time on the same instance.
    AlreadyInitialized,
    /// `set_data` was invoked by an account other than the stored owner.
    Unauthorized,
}

impl ContractError {
    /// The descriptive message the host reports for this abort.
    pub fn message(&self) -> (r: &'static str)
        ensures
            *self == ContractError::NotInitialized ==> r@ == "The contract is not initialized"@,
            *self == ContractError::AlreadyInitialized ==> r@
                == "The contract has already been initialized"@,
            *self == ContractError::Unauthorized ==> r@ == "Only the owner can call this method"@,
    {
        match self {
            ContractError::NotInitialized => "The contract is not initialized",
            ContractError::AlreadyInitialized => "The contract has already been initialized",
            ContractError::Unauthorized => "Only the owner can call this method",
        }
    }
}

} // verus!
