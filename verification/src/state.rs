use vstd::prelude::*;
use crate::context::CallContext;
use crate::error::ContractError;
use crate::kv::{entries_map, find_key, lemma_absent, lemma_found, lemma_push, lemma_update,
    unique_keys};
use crate::text::{data_set_event, donation_ack, donation_event, greeting, spec_data_set_event,
    spec_donation_ack, spec_donation_event, spec_greeting};

verus! {

/// The fixed version string stamped into the metadata at initialization.
pub open spec fn spec_version() -> Seq<char> {
    "1.0.0"@
}

/// Immutable facts recorded when the contract is initialized. Handed out by
/// value, so callers can never reach the live state through it.
pub struct ContractMetadata {
    pub version: String,
    pub owner: String,
    pub created_at: u64,
}

impl Clone for ContractMetadata {
    /// An independent copy, equal to the original in every field.
    fn clone(&self) -> (r: Self)
        ensures
            r == *self,
    {
        ContractMetadata {
            version: self.version.clone(),
            owner: self.owner.clone(),
            created_at: self.created_at,
        }
    }
}

/// The contract state: the owner account, the metadata, and the key-value
/// store, kept as a list of entries with pairwise distinct keys.
pub struct Hello {
    pub owner: String,
    pub metadata: ContractMetadata,
    pub data: Vec<(String, String)>,
}

impl Hello {
    /// The mathematical contents of the key-value store.
    pub open spec fn data_map(self) -> Map<Seq<char>, Seq<char>> {
        entries_map(self.data@)
    }

    /// Structural invariant: the store's keys are unique, and the metadata
    /// names the same owner and the fixed version from construction onward.
    pub open spec fn wf(self) -> bool {
        &&& unique_keys(self.data@)
        &&& self.metadata.owner@ == self.owner@
        &&& self.metadata.version@ == spec_version()
    }

    /// What a freshly initialized state looks like, for a given owner request
    /// and call context.
    pub open spec fn init_post(self, owner: Option<String>, ctx: CallContext) -> bool {
        &&& self.wf()
        &&& self.owner@ == match owner {
            Some(o) => o@,
            None => ctx.signer@,
        }
        &&& self.metadata.owner@ == self.owner@
        &&& self.metadata.created_at == ctx.block_timestamp
        &&& self.metadata.version@ == spec_version()
        &&& self.data_map() == Map::<Seq<char>, Seq<char>>::empty()
    }

    /// Builds the one state instance: the owner defaults to the transaction
    /// signer when no account is named, the metadata is stamped from the call
    /// context, and the store starts empty.
    pub fn new(owner: Option<String>, ctx: &CallContext) -> (c: Hello)
        ensures
            c.init_post(owner, *ctx),
            owner matches Some(o) ==> c.owner == o,
            owner is None ==> c.owner == ctx.signer,
    {
        let owner_account = match owner {
            Some(o) => o,
            None => ctx.signer.clone(),
        };
        let c = Hello {
            owner: owner_account.clone(),
            metadata: ContractMetadata {
                version: "1.0.0".to_owned(),
                owner: owner_account,
                created_at: ctx.block_timestamp,
            },
            data: Vec::new(),
        };
        proof {
            assert(c.data_map() =~= Map::<Seq<char>, Seq<char>>::empty());
        }
        c
    }

    /// An independent copy of the metadata.
    pub fn get_metadata(&self) -> (r: ContractMetadata)
        ensures
            r == self.metadata,
    {
        self.metadata.clone()
    }

    /// A copy of the current owner account.
    pub fn get_owner(&self) -> (r: String)
        ensures
            r == self.owner,
    {
        self.owner.clone()
    }

    /// The value stored under `key`, or `None` for a key never written.
    /// A pure read: callable by anyone.
    pub fn get_data(&self, key: String) -> (r: Option<String>)
        requires
            self.wf(),
        ensures
            match r {
                Some(v) => self.data_map().contains_key(key@) && v@ == self.data_map()[key@],
                None => !self.data_map().contains_key(key@),
            },
    {
        match find_key(&self.data, &key) {
            Some(i) => {
                proof {
                    lemma_found(self.data@, i as int);
                }
                Some(self.data[i].1.clone())
            },
            None => {
                proof {
                    lemma_absent(self.data@, key@);
                }
                None
            },
        }
    }

    /// The greeting: a pure function of the name and the contract-name
    /// constant, with no state access.
    pub fn hello(&self, name: String) -> (r: String)
        ensures
            r@ == spec_greeting(name@),
    {
        greeting(name.as_str())
    }

    /// The access-control gate: succeeds exactly when the immediate caller
    /// of the current call is the stored owner.
    fn assert_owner(&self, ctx: &CallContext) -> (r: Result<(), ContractError>)
        ensures
            r is Ok <==> ctx.predecessor@ == self.owner@,
            r is Err ==> r == Err::<(), ContractError>(ContractError::Unauthorized),
    {
        if ctx.predecessor == self.owner {
            Ok(())
        } else {
            Err(ContractError::Unauthorized)
        }
    }

    /// Stores `value` under `key`, overwriting any earlier value; owner only.
    /// On success the result carries the log line to emit; on failure the
    /// state is exactly as before, matching the host's discard of the call.
    pub fn set_data(&mut self, ctx: &CallContext, key: String, value: String) -> (r: Result<
        String,
        ContractError,
    >)
        requires
            old(self).wf(),
        ensures
            final(self).wf(),
            match r {
                Ok(log) => {
                    &&& ctx.predecessor@ == old(self).owner@
                    &&& final(self).data_map() == old(self).data_map().insert(key@, value@)
                    &&& final(self).owner == old(self).owner
                    &&& final(self).metadata == old(self).metadata
                    &&& log@ == spec_data_set_event(key@, value@)
                },
                Err(e) => {
                    &&& ctx.predecessor@ != old(self).owner@
                    &&& e == ContractError::Unauthorized
                    &&& *final(self) == *old(self)
                },
            },
    {
        match self.assert_owner(ctx) {
            Err(e) => Err(e),
            Ok(()) => {
                let log = data_set_event(key.as_str(), value.as_str());
                match find_key(&self.data, &key) {
                    Some(i) => {
                        proof {
                            lemma_update(self.data@, i as int, (key, value));
                        }
                        self.data.set(i, (key, value));
                    },
                    None => {
                        proof {
                            lemma_push(self.data@, (key, value));
                        }
                        self.data.push((key, value));
                    },
                }
                Ok(log)
            },
        }
    }

    /// Acknowledges a donation: reads donor and amount from the call context,
    /// stores and aggregates nothing, and returns the acknowledgment text.
    /// Any balance change is the host's own effect of the attached payment.
    /// [`Hello::donate_with_event`] yields the matching log line as well.
    pub fn donate(&mut self, ctx: &CallContext) -> (r: String)
        ensures
            *final(self) == *old(self),
            r@ == spec_donation_ack(ctx.predecessor@, ctx.attached_deposit as nat),
    {
        donation_ack(ctx.predecessor.as_str(), ctx.attached_deposit)
    }

    /// A donation call as the host runs it: changes nothing and yields both
    /// the acknowledgment to return to the caller and the one log line to
    /// emit, so an adapter cannot produce one without the other.
    pub fn donate_with_event(&mut self, ctx: &CallContext) -> (r: (String, String))
        ensures
            *final(self) == *old(self),
            r.0@ == spec_donation_ack(ctx.predecessor@, ctx.attached_deposit as nat),
            r.1@ == spec_donation_event(ctx.predecessor@, ctx.attached_deposit as nat),
    {
        let ack = self.donate(ctx);
        let event = donation_event(ctx.predecessor.as_str(), ctx.attached_deposit);
        (ack, event)
    }
}

} // verus!
