use vstd::prelude::*;
use crate::context::CallContext;
use crate::state::Hello;

verus! {

/// Initializing with an explicit owner account makes that account both the
/// owner that `get_owner` reports and the owner in the metadata that
/// `get_metadata` hands out.
pub proof fn lemma_initialize_explicit_owner(s: Hello, o: String, ctx: CallContext)
    requires
        s.init_post(Some(o), ctx),
    ensures
        s.owner@ == o@,
        s.metadata.owner@ == o@,
{
}

/// Initializing without an explicit owner falls back to the signer of the
/// originating transaction, again both in the state and in its metadata.
pub proof fn lemma_initialize_default_owner(s: Hello, ctx: CallContext)
    requires
        s.init_post(None, ctx),
    ensures
        s.owner@ == ctx.signer@,
        s.metadata.owner@ == ctx.signer@,
{
}

/// A write is read back: after storing `v` under `k`, the contents bind `k`
/// to exactly `v`.
pub proof fn lemma_set_then_get(m: Map<Seq<char>, Seq<char>>, k: Seq<char>, v: Seq<char>)
    ensures
        m.insert(k, v).contains_key(k),
        m.insert(k, v)[k] == v,
{
}

/// Last write wins: after two successive stores under one key, a lookup
/// yields the second value, and the combined effect on the contents is that
/// of the second store alone — no history is retained.
pub proof fn lemma_overwrite(
    m: Map<Seq<char>, Seq<char>>,
    k: Seq<char>,
    v1: Seq<char>,
    v2: Seq<char>,
)
    ensures
        m.insert(k, v1).insert(k, v2)[k] == v2,
        m.insert(k, v1).insert(k, v2) == m.insert(k, v2),
{
    assert(m.insert(k, v1).insert(k, v2) =~= m.insert(k, v2));
}

/// A key never written stays absent: the empty contents bind no key, and a
/// store under a different key does not create a binding for this one.
pub proof fn lemma_unwritten_key_absent(
    m: Map<Seq<char>, Seq<char>>,
    k: Seq<char>,
    other: Seq<char>,
    v: Seq<char>,
)
    requires
        !m.contains_key(k),
        other != k,
    ensures
        !Map::<Seq<char>, Seq<char>>::empty().contains_key(k),
        !m.insert(other, v).contains_key(k),
{
}

} // verus!
