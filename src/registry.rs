//! The handle registry: one table per entity kind, from 64-bit identifiers to live
//! values, and a counter that mints identifiers.
use vstd::prelude::*;
use std::collections::HashMap;
use crate::crypto::{AddressValue, PrivateKeyValue, SignatureValue, ViewKeyValue};

verus! {

broadcast use vstd::std_specs::hash::group_hash_axioms;

/// The identifier that names no entity; it is never allocated.
pub const INVALID_ID: u64 = 0;

/// A table of live values of one kind, keyed by identifier.
pub struct Table<V> {
    entries: HashMap<u64, V>,
}

impl<V> View for Table<V> {
    type V = Map<u64, V>;

    closed spec fn view(&self) -> Map<u64, V> {
        self.entries@
    }
}

impl<V> Table<V> {
    pub fn new() -> (r: Self)
        ensures
            r@ == Map::<u64, V>::empty(),
    {
        Table { entries: HashMap::new() }
    }

    pub fn insert(&mut self, id: u64, value: V)
        ensures
            final(self)@ == old(self)@.insert(id, value),
    {
        self.entries.insert(id, value);
    }

    pub fn get(&self, id: u64) -> (r: Option<&V>)
        ensures
            match r {
                Some(v) => self@.contains_key(id) && *v == self@[id],
                None => !self@.contains_key(id),
            },
    {
        self.entries.get(&id)
    }

    /// Removing an identifier that is not in the table changes nothing.
    pub fn remove(&mut self, id: u64)
        ensures
            final(self)@ == old(self)@.remove(id),
    {
        self.entries.remove(&id);
    }
}

/// The process's store of live account entities.
pub struct Registry {
    private_keys: Table<PrivateKeyValue>,
    addresses: Table<AddressValue>,
    view_keys: Table<ViewKeyValue>,
    signatures: Table<SignatureValue>,
    next_id: u64,
}

impl Registry {
    pub closed spec fn private_keys(&self) -> Map<u64, PrivateKeyValue> {
        self.private_keys@
    }

    pub closed spec fn addresses(&self) -> Map<u64, AddressValue> {
        self.addresses@
    }

    pub closed spec fn view_keys(&self) -> Map<u64, ViewKeyValue> {
        self.view_keys@
    }

    pub closed spec fn signatures(&self) -> Map<u64, SignatureValue> {
        self.signatures@
    }

    /// The identifier that the next allocation hands out.
    pub closed spec fn next_id(&self) -> u64 {
        self.next_id
    }

    /// Every table is finite, and every live identifier was handed out earlier: it lies
    /// in `1 .. next_id`.
    pub open spec fn wf(&self) -> bool {
        &&& 1 <= self.next_id()
        &&& self.private_keys().dom().finite()
        &&& self.addresses().dom().finite()
        &&& self.view_keys().dom().finite()
        &&& self.signatures().dom().finite()
        &&& forall|id: u64| #[trigger] self.private_keys().contains_key(id) ==> 1 <= id < self.next_id()
        &&& forall|id: u64| #[trigger] self.addresses().contains_key(id) ==> 1 <= id < self.next_id()
        &&& forall|id: u64| #[trigger] self.view_keys().contains_key(id) ==> 1 <= id < self.next_id()
        &&& forall|id: u64| #[trigger] self.signatures().contains_key(id) ==> 1 <= id < self.next_id()
    }

    /// Whether an identifier can still be minted.
    pub open spec fn can_allocate(&self) -> bool {
        self.next_id() < u64::MAX
    }

    /// `id` is the identifier that `self` hands out next, and `post`'s counter lies one past it.
    pub open spec fn minted(&self, post: Registry, id: u64) -> bool {
        &&& id == self.next_id()
        &&& post.next_id() == self.next_id() + 1
    }

    /// `post` holds the same tables as `self`.
    pub open spec fn same_tables(&self, post: Registry) -> bool {
        &&& post.private_keys() == self.private_keys()
        &&& post.addresses() == self.addresses()
        &&& post.view_keys() == self.view_keys()
        &&& post.signatures() == self.signatures()
    }

    /// `post` is `self`, as far as the contracts can tell.
    pub open spec fn unchanged(&self, post: Registry) -> bool {
        &&& self.same_tables(post)
        &&& post.next_id() == self.next_id()
    }

    /// `post` is `self` with `key` stored under the freshly minted `id`.
    pub open spec fn added_private_key(&self, post: Registry, id: u64, key: PrivateKeyValue) -> bool {
        &&& self.minted(post, id)
        &&& post.private_keys() == self.private_keys().insert(id, key)
        &&& post.addresses() == self.addresses()
        &&& post.view_keys() == self.view_keys()
        &&& post.signatures() == self.signatures()
    }

    /// `post` is `self` with `address` stored under the freshly minted `id`.
    pub open spec fn added_address(&self, post: Registry, id: u64, address: AddressValue) -> bool {
        &&& self.minted(post, id)
        &&& post.private_keys() == self.private_keys()
        &&& post.addresses() == self.addresses().insert(id, address)
        &&& post.view_keys() == self.view_keys()
        &&& post.signatures() == self.signatures()
    }

    /// `post` is `self` with `view_key` stored under the freshly minted `id`.
    pub open spec fn added_view_key(&self, post: Registry, id: u64, view_key: ViewKeyValue) -> bool {
        &&& self.minted(post, id)
        &&& post.private_keys() == self.private_keys()
        &&& post.addresses() == self.addresses()
        &&& post.view_keys() == self.view_keys().insert(id, view_key)
        &&& post.signatures() == self.signatures()
    }

    /// Dropping entries, with the counter left alone, keeps the registry well formed.
    proof fn lemma_removal_keeps_wf(pre: Registry, post: Registry)
        requires
            pre.wf(),
            post.next_id() == pre.next_id(),
            post.private_keys().dom().subset_of(pre.private_keys().dom()),
            post.addresses().dom().subset_of(pre.addresses().dom()),
            post.view_keys().dom().subset_of(pre.view_keys().dom()),
            post.signatures().dom().subset_of(pre.signatures().dom()),
        ensures
            post.wf(),
    {
        assert forall|i: u64| #[trigger] post.private_keys().contains_key(i) implies 1 <= i < post.next_id() by {
            assert(pre.private_keys().contains_key(i));
        }
        assert forall|i: u64| #[trigger] post.addresses().contains_key(i) implies 1 <= i < post.next_id() by {
            assert(pre.addresses().contains_key(i));
        }
        assert forall|i: u64| #[trigger] post.view_keys().contains_key(i) implies 1 <= i < post.next_id() by {
            assert(pre.view_keys().contains_key(i));
        }
        assert forall|i: u64| #[trigger] post.signatures().contains_key(i) implies 1 <= i < post.next_id() by {
            assert(pre.signatures().contains_key(i));
        }
    }

    /// An empty registry whose first identifier is 1.
    pub fn new() -> (r: Registry)
        ensures
            r.wf(),
            r.next_id() == 1,
            r.private_keys() == Map::<u64, PrivateKeyValue>::empty(),
            r.addresses() == Map::<u64, AddressValue>::empty(),
            r.view_keys() == Map::<u64, ViewKeyValue>::empty(),
            r.signatures() == Map::<u64, SignatureValue>::empty(),
    {
        Registry {
            private_keys: Table::new(),
            addresses: Table::new(),
            view_keys: Table::new(),
            signatures: Table::new(),
            next_id: 1,
        }
    }

    /// Mints the next identifier, or `None` once the identifier space is used up.
    /// Identifiers increase strictly, so none is ever handed out twice.
    pub fn get_next_id(&mut self) -> (r: Option<u64>)
        requires
            old(self).wf(),
        ensures
            old(self).same_tables(*final(self)),
            match r {
                Some(id) => old(self).can_allocate() && old(self).minted(*final(self), id),
                None => !old(self).can_allocate() && old(self).unchanged(*final(self)),
            },
    {
        if self.next_id < u64::MAX {
            let id = self.next_id;
            self.next_id = self.next_id + 1;
            Some(id)
        } else {
            None
        }
    }

    /// Stores a private key under a fresh identifier; returns `INVALID_ID`, and changes
    /// nothing, when no identifier is left.
    pub fn insert_private_key(&mut self, key: PrivateKeyValue) -> (r: u64)
        requires
            old(self).wf(),
        ensures
            final(self).wf(),
            old(self).can_allocate() ==> old(self).added_private_key(*final(self), r, key),
            !old(self).can_allocate() ==> r == INVALID_ID && old(self).unchanged(*final(self)),
    {
        match self.get_next_id() {
            Some(id) => {
                self.private_keys.insert(id, key);
                id
            },
            None => INVALID_ID,
        }
    }

    /// Stores an address under a fresh identifier; returns `INVALID_ID`, and changes
    /// nothing, when no identifier is left.
    pub fn insert_address(&mut self, address: AddressValue) -> (r: u64)
        requires
            old(self).wf(),
        ensures
            final(self).wf(),
            old(self).can_allocate() ==> old(self).added_address(*final(self), r, address),
            !old(self).can_allocate() ==> r == INVALID_ID && old(self).unchanged(*final(self)),
    {
        match self.get_next_id() {
            Some(id) => {
                self.addresses.insert(id, address);
                id
            },
            None => INVALID_ID,
        }
    }

    /// Stores a view key under a fresh identifier; returns `INVALID_ID`, and changes
    /// nothing, when no identifier is left.
    pub fn insert_view_key(&mut self, view_key: ViewKeyValue) -> (r: u64)
        requires
            old(self).wf(),
        ensures
            final(self).wf(),
            old(self).can_allocate() ==> old(self).added_view_key(*final(self), r, view_key),
            !old(self).can_allocate() ==> r == INVALID_ID && old(self).unchanged(*final(self)),
    {
        match self.get_next_id() {
            Some(id) => {
                self.view_keys.insert(id, view_key);
                id
            },
            None => INVALID_ID,
        }
    }

    /// The live private key named `id`, if there is one.
    pub fn private_key(&self, id: u64) -> (r: Option<&PrivateKeyValue>)
        ensures
            match r {
                Some(v) => self.private_keys().contains_key(id) && *v == self.private_keys()[id],
                None => !self.private_keys().contains_key(id),
            },
    {
        self.private_keys.get(id)
    }

    /// The live address named `id`, if there is one.
    pub fn address(&self, id: u64) -> (r: Option<&AddressValue>)
        ensures
            match r {
                Some(v) => self.addresses().contains_key(id) && *v == self.addresses()[id],
                None => !self.addresses().contains_key(id),
            },
    {
        self.addresses.get(id)
    }

    /// The live view key named `id`, if there is one.
    pub fn view_key(&self, id: u64) -> (r: Option<&ViewKeyValue>)
        ensures
            match r {
                Some(v) => self.view_keys().contains_key(id) && *v == self.view_keys()[id],
                None => !self.view_keys().contains_key(id),
            },
    {
        self.view_keys.get(id)
    }

    /// Drops the private key named `id`; an identifier that names none is left alone.
    pub fn remove_private_key(&mut self, id: u64)
        requires
            old(self).wf(),
        ensures
            final(self).wf(),
            final(self).next_id() == old(self).next_id(),
            final(self).private_keys() == old(self).private_keys().remove(id),
            final(self).addresses() == old(self).addresses(),
            final(self).view_keys() == old(self).view_keys(),
            final(self).signatures() == old(self).signatures(),
    {
        self.private_keys.remove(id);
        proof { Registry::lemma_removal_keeps_wf(*old(self), *self); }
    }

    /// Drops the address named `id`; an identifier that names none is left alone.
    pub fn remove_address(&mut self, id: u64)
        requires
            old(self).wf(),
        ensures
            final(self).wf(),
            final(self).next_id() == old(self).next_id(),
            final(self).addresses() == old(self).addresses().remove(id),
            final(self).private_keys() == old(self).private_keys(),
            final(self).view_keys() == old(self).view_keys(),
            final(self).signatures() == old(self).signatures(),
    {
        self.addresses.remove(id);
        proof { Registry::lemma_removal_keeps_wf(*old(self), *self); }
    }

    /// Drops the view key named `id`; an identifier that names none is left alone.
    pub fn remove_view_key(&mut self, id: u64)
        requires
            old(self).wf(),
        ensures
            final(self).wf(),
            final(self).next_id() == old(self).next_id(),
            final(self).view_keys() == old(self).view_keys().remove(id),
            final(self).private_keys() == old(self).private_keys(),
            final(self).addresses() == old(self).addresses(),
            final(self).signatures() == old(self).signatures(),
    {
        self.view_keys.remove(id);
        proof { Registry::lemma_removal_keeps_wf(*old(self), *self); }
    }

    /// Drops the signature named `id`; an identifier that names none is left alone.
    pub fn remove_signature(&mut self, id: u64)
        requires
            old(self).wf(),
        ensures
            final(self).wf(),
            final(self).next_id() == old(self).next_id(),
            final(self).signatures() == old(self).signatures().remove(id),
            final(self).private_keys() == old(self).private_keys(),
            final(self).addresses() == old(self).addresses(),
            final(self).view_keys() == old(self).view_keys(),
    {
        self.signatures.remove(id);
        proof { Registry::lemma_removal_keeps_wf(*old(self), *self); }
    }
}

} // verus!
