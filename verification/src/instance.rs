use vstd::prelude::*;
use crate::context::CallContext;
use crate::error::ContractError;
use crate::state::{ContractMetadata, Hello};
use crate::text::{spec_data_set_event, spec_donation_ack, spec_donation_event, spec_greeting};

verus! {

/// One deployed contract instance. The state exists only after the explicit
/// initialization step; every other method rejects a call made before it,
/// so no default or empty state is ever observable.
pub struct ContractInstance {
    pub state: Option<Hello>,
}

impl ContractInstance {
    /// The instance invariant: whatever state exists is well formed.
    pub open spec fn wf(self) -> bool {
        self.state matches Some(s) ==> s.wf()
    }

    /// A deployed instance on which the initializer has not yet run.
    pub fn new() -> (c: ContractInstance)
        ensures
            c.state is None,
    {
        ContractInstance { state: None }
    }

    /// The one-time initializer. The first call creates the state; a second
    /// call fails and leaves the instance exactly as it was.
    pub fn initialize(&mut self, owner: Option<String>, ctx: &CallContext) -> (r: Result<
        (),
        ContractError,
    >)
        requires
            old(self).wf(),
        ensures
            final(self).wf(),
            r is Ok <==> old(self).state is None,
            match r {
                Ok(()) => {
                    &&& final(self).state matches Some(s)
                    &&& s.init_post(owner, *ctx)
                    &&& (owner matches Some(o) ==> s.owner == o)
                    &&& (owner is None ==> s.owner == ctx.signer)
                },
                Err(e) => {
                    &&& e == ContractError::AlreadyInitialized
                    &&& *final(self) == *old(self)
                },
            },
    {
        if self.state.is_some() {
            return Err(ContractError::AlreadyInitialized);
        }
        self.state = Some(Hello::new(owner, ctx));
        Ok(())
    }

    /// An independent copy of the metadata; fails before initialization.
    pub fn get_metadata(&self) -> (r: Result<ContractMetadata, ContractError>)
        ensures
            match r {
                Ok(m) => self.state matches Some(s) && m == s.metadata,
                Err(e) => self.state is None && e == ContractError::NotInitialized,
            },
    {
        match &self.state {
            Some(s) => Ok(s.get_metadata()),
            None => Err(ContractError::NotInitialized),
        }
    }

    /// A copy of the owner account; fails before initialization.
    pub fn get_owner(&self) -> (r: Result<String, ContractError>)
        ensures
            match r {
                Ok(o) => self.state matches Some(s) && o == s.owner,
                Err(e) => self.state is None && e == ContractError::NotInitialized,
            },
    {
        match &self.state {
            Some(s) => Ok(s.get_owner()),
            None => Err(ContractError::NotInitialized),
        }
    }

    /// The value stored under `key`; fails before initialization and is
    /// otherwise a pure read, callable by anyone.
    pub fn get_data(&self, key: String) -> (r: Result<Option<String>, ContractError>)
        requires
            self.wf(),
        ensures
            match r {
                Ok(v) => {
                    &&& self.state matches Some(s)
                    &&& match v {
                        Some(val) => s.data_map().contains_key(key@)
                            && val@ == s.data_map()[key@],
                        None => !s.data_map().contains_key(key@),
                    }
                },
                Err(e) => self.state is None && e == ContractError::NotInitialized,
            },
    {
        match &self.state {
            Some(s) => Ok(s.get_data(key)),
            None => Err(ContractError::NotInitialized),
        }
    }

    /// The greeting; fails before initialization, since no state exists to
    /// serve the call, and never afterwards.
    pub fn hello(&self, name: String) -> (r: Result<String, ContractError>)
        ensures
            match r {
                Ok(g) => self.state is Some && g@ == spec_greeting(name@),
                Err(e) => self.state is None && e == ContractError::NotInitialized,
            },
    {
        match &self.state {
            Some(s) => Ok(s.hello(name)),
            None => Err(ContractError::NotInitialized),
        }
    }

    /// Stores one pair, owner only; fails before initialization. On success
    /// the result carries the log line to emit; on any failure the instance
    /// is exactly as it was, matching the host's discard of the call.
    pub fn set_data(&mut self, ctx: &CallContext, key: String, value: String) -> (r: Result<
        String,
        ContractError,
    >)
        requires
            old(self).wf(),
        ensures
            final(self).wf(),
            r is Ok <==> (old(self).state matches Some(s0) && ctx.predecessor@ == s0.owner@),
            match r {
                Ok(log) => {
                    &&& old(self).state matches Some(s0)
                    &&& final(self).state matches Some(s1)
                    &&& ctx.predecessor@ == s0.owner@
                    &&& s1.data_map() == s0.data_map().insert(key@, value@)
                    &&& s1.owner == s0.owner
                    &&& s1.metadata == s0.metadata
                    &&& log@ == spec_data_set_event(key@, value@)
                },
                Err(e) => {
                    &&& *final(self) == *old(self)
                    &&& (e == ContractError::NotInitialized <==> old(self).state is None)
                    &&& (e == ContractError::Unauthorized <==> (old(self).state matches Some(s0)
                        && ctx.predecessor@ != s0.owner@))
                },
            },
    {
        if self.state.is_none() {
            return Err(ContractError::NotInitialized);
        }
        let mut s = self.state.take().unwrap();
        let r = s.set_data(ctx, key, value);
        self.state = Some(s);
        r
    }

    /// Acknowledges a donation; fails before initialization and never
    /// changes the state.
    pub fn donate(&mut self, ctx: &CallContext) -> (r: Result<String, ContractError>)
        requires
            old(self).wf(),
        ensures
            *final(self) == *old(self),
            match r {
                Ok(ack) => old(self).state is Some && ack@ == spec_donation_ack(
                    ctx.predecessor@,
                    ctx.attached_deposit as nat,
                ),
                Err(e) => old(self).state is None && e == ContractError::NotInitialized,
            },
    {
        if self.state.is_none() {
            return Err(ContractError::NotInitialized);
        }
        let mut s = self.state.take().unwrap();
        let ack = s.donate(ctx);
        self.state = Some(s);
        Ok(ack)
    }

    /// A donation call as the host runs it: fails before initialization and
    /// otherwise changes nothing, yielding the acknowledgment together with
    /// the one log line to emit.
    pub fn donate_with_event(&mut self, ctx: &CallContext) -> (r: Result<
        (String, String),
        ContractError,
    >)
        requires
            old(self).wf(),
        ensures
            *final(self) == *old(self),
            match r {
                Ok(pair) => {
                    &&& old(self).state is Some
                    &&& pair.0@ == spec_donation_ack(ctx.predecessor@, ctx.attached_deposit as nat)
                    &&& pair.1@ == spec_donation_event(
                        ctx.predecessor@,
                        ctx.attached_deposit as nat,
                    )
                },
                Err(e) => old(self).state is None && e == ContractError::NotInitialized,
            },
    {
        if self.state.is_none() {
            return Err(ContractError::NotInitialized);
        }
        let mut s = self.state.take().unwrap();
        let pair = s.donate_with_event(ctx);
        self.state = Some(s);
        Ok(pair)
    }
}

} // verus!
