use vstd::prelude::*;

verus! {

/// The call context the execution host presents to each method invocation.
///
/// The host serializes calls, so exactly one context is live at a time; the
/// contract never reads identity, payment, or time from anywhere else.
pub struct CallContext {
    /// The account that signed the transaction that originated this call.
    /// May differ from the immediate caller; used only as the initializer's
    /// default owner.
    pub signer: String,
    /// The account that directly invoked the current call; the identity the
    /// authorization check compares against the stored owner.
    pub predecessor: String,
    /// The payment attached to the call, in yoctoNEAR.
    pub attached_deposit: u128,
    /// The host's current timestamp, in nanoseconds.
    pub block_timestamp: u64,
}

} // verus!
