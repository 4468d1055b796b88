//! Properties that relate several operations on the registry.
use vstd::prelude::*;
use crate::account::{
    address_of_private_key, created_private_key, private_key_text_of, stored_address,
    signed_by, stored_private_key, verification, view_key_of_private_key,
};
use crate::crypto::{address_parse, private_key_parse};
use crate::registry::{Registry, INVALID_ID};
use crate::crypto::{private_key_address, signature_accepts, signature_decode};

verus! {

/// Registering the private key that a valid private-key text denotes, and then rendering
/// the handle that came back, gives that very text.
pub proof fn lemma_private_key_text_round_trip(pre: Registry, post: Registry, text: Seq<char>, id: u64)
    requires
        pre.wf(),
        pre.can_allocate(),
        private_key_parse(text) is Some,
        stored_private_key(pre, post, private_key_parse(text), id),
        id != INVALID_ID ==> private_key_text_of(post, id) == Some(text),
    ensures
        id != INVALID_ID,
        private_key_text_of(post, id) == Some(text),
{
}

/// A signature that signing reported for a live key verifies, for the same message bytes,
/// against any handle that names the address derived from that key.
pub proof fn lemma_sign_then_verify(
    reg: Registry,
    key_id: u64,
    address_id: u64,
    bytes: Seq<u8>,
    message: Seq<u8>,
)
    requires
        reg.private_keys().contains_key(key_id),
        reg.addresses().contains_key(address_id),
        reg.addresses()[address_id] == private_key_address(reg.private_keys()[key_id]),
        signed_by(bytes, reg.private_keys()[key_id], message),
    ensures
        verification(reg, address_id, bytes, message),
{
}

/// A private-key text is turned into the invalid handle exactly when validation rejects
/// it (as long as identifiers are left).
pub proof fn lemma_private_key_parse_agrees_with_validation(
    pre: Registry,
    post: Registry,
    text: Seq<char>,
    id: u64,
)
    requires
        pre.wf(),
        pre.can_allocate(),
        stored_private_key(pre, post, private_key_parse(text), id),
    ensures
        (id == INVALID_ID) == !(private_key_parse(text) is Some),
{
}

/// An address text is turned into the invalid handle exactly when validation rejects it
/// (as long as identifiers are left).
pub proof fn lemma_address_parse_agrees_with_validation(
    pre: Registry,
    post: Registry,
    text: Seq<char>,
    id: u64,
)
    requires
        pre.wf(),
        pre.can_allocate(),
        stored_address(pre, post, address_parse(text), id),
    ensures
        (id == INVALID_ID) == !(address_parse(text) is Some),
{
}

/// A freshly minted identifier is never 0 and names nothing that is live.
pub proof fn lemma_minted_identifier_is_fresh(pre: Registry, post: Registry, id: u64)
    requires
        pre.wf(),
        pre.minted(post, id),
    ensures
        id != INVALID_ID,
        !pre.private_keys().contains_key(id),
        !pre.addresses().contains_key(id),
        !pre.view_keys().contains_key(id),
        !pre.signatures().contains_key(id),
{
}

/// After a live private key is destroyed its handle names nothing: rendering reports an
/// invalid handle, derivations find no key, and, as the identifier lies below the
/// counter, no later allocation hands it out again.
pub proof fn lemma_destroyed_private_key_stays_invalid(pre: Registry, post: Registry, id: u64)
    requires
        pre.wf(),
        pre.private_keys().contains_key(id),
        post.next_id() == pre.next_id(),
        post.private_keys() == pre.private_keys().remove(id),
    ensures
        !post.private_keys().contains_key(id),
        private_key_text_of(post, id) is None,
        address_of_private_key(post, id) is None,
        view_key_of_private_key(post, id) is None,
        id < post.next_id(),
{
}

/// A creation keeps the registry well formed.
pub proof fn lemma_creation_preserves_wf(pre: Registry, post: Registry, id: u64)
    requires
        pre.wf(),
        created_private_key(pre, post, id),
    ensures
        post.wf(),
{
    if id != INVALID_ID {
        assert forall|i: u64| #[trigger] post.private_keys().contains_key(i) implies 1 <= i < post.next_id() by {
            if i != id {
                assert(pre.private_keys().contains_key(i));
            }
        }
        assert forall|i: u64| #[trigger] post.addresses().contains_key(i) implies 1 <= i < post.next_id() by {
            assert(pre.addresses().contains_key(i));
        }
        assert forall|i: u64| #[trigger] post.view_keys().contains_key(i) implies 1 <= i < post.next_id() by {
            assert(pre.view_keys().contains_key(i));
        }
        assert forall|i: u64| #[trigger] post.signatures().contains_key(i) implies 1 <= i < post.next_id() by {
            assert(pre.signatures().contains_key(i));
        }
    }
}

/// Any run of creations that all succeed hands out strictly increasing, hence pairwise
/// distinct, identifiers, and every one of them names a live key at the end: no entry is
/// lost and none is duplicated.
pub proof fn lemma_creations_are_distinct(states: Seq<Registry>, ids: Seq<u64>)
    requires
        states.len() == ids.len() + 1,
        states[0].wf(),
        forall|i: int| 0 <= i < ids.len() ==> #[trigger] created_private_key(states[i], states[i + 1], ids[i]),
        forall|i: int| 0 <= i < ids.len() ==> #[trigger] ids[i] != INVALID_ID,
    ensures
        states.last().wf(),
        forall|i: int, j: int| 0 <= i < j < ids.len() ==> ids[i] < ids[j],
        forall|i: int| 0 <= i < ids.len() ==> states.last().private_keys().contains_key(#[trigger] ids[i]),
        states.last().private_keys().len() == states[0].private_keys().len() + ids.len(),
    decreases ids.len(),
{
    let n = ids.len() as int;
    if n > 0 {
        let states0 = states.drop_last();
        let ids0 = ids.drop_last();
        assert forall|i: int| 0 <= i < ids0.len() implies #[trigger] created_private_key(states0[i], states0[i + 1], ids0[i]) by {
            assert(created_private_key(states[i], states[i + 1], ids[i]));
        }
        assert forall|i: int| 0 <= i < ids0.len() implies #[trigger] ids0[i] != INVALID_ID by {
            assert(ids[i] != INVALID_ID);
        }
        lemma_creations_are_distinct(states0, ids0);
        let pre = states[n - 1];
        let post = states[n];
        assert(states0.last() == pre);
        assert(created_private_key(pre, post, ids[n - 1]));
        assert(ids[n - 1] != INVALID_ID);
        lemma_creation_preserves_wf(pre, post, ids[n - 1]);
        assert forall|i: int| 0 <= i < n - 1 implies #[trigger] ids[i] < ids[n - 1] by {
            assert(ids0[i] == ids[i]);
            assert(pre.private_keys().contains_key(ids0[i]));
        }
        assert forall|i: int, j: int| 0 <= i < j < n implies ids[i] < ids[j] by {
            if j < n - 1 {
                assert(ids0[i] == ids[i] && ids0[j] == ids[j]);
            } else {
                assert(ids[i] < ids[n - 1]);
            }
        }
        assert forall|i: int| 0 <= i < n implies post.private_keys().contains_key(#[trigger] ids[i]) by {
            if i < n - 1 {
                assert(ids0[i] == ids[i]);
                assert(pre.private_keys().contains_key(ids0[i]));
            }
        }
        assert(!pre.private_keys().contains_key(ids[n - 1]));
    }
}

} // verus!
