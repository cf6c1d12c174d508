use std::collections::HashMap;
use vstd::prelude::*;

use crate::dna::{combine_genes, combine_payloads};
use crate::entropy::{blake2_128_of, entropy_payload, random_value};

verus! {

broadcast use vstd::std_specs::hash::group_hash_axioms;

/// Identifier of a kitty; allocated densely from 0.
pub type KittyIndex = u32;

/// An authenticated caller.
pub type AccountId = u64;

/// A kitty: its 16-byte genetic payload.
#[derive(Clone, Copy, Debug, PartialEq, Eq)]
pub struct Kitty(pub [u8; 16]);

/// Why an operation was refused. A refused operation changes nothing.
#[derive(Clone, Copy, Debug, PartialEq, Eq, Structural)]
pub enum Error {
    KittiesCountOverflow,
    RequireDifferentParent,
    KittyIdNotExist,
    NotKittyOwner,
}

/// Notifications handed to the host.
#[derive(Clone, Copy, Debug, PartialEq, Eq, Structural)]
pub enum Event {
    Created(AccountId, KittyIndex),
    Transferred(AccountId, AccountId, KittyIndex),
}

/// The registry as a mathematical value.
///
/// Ownership sets, children and breeding partners are not stored apart:
/// they are read off `owners` and `parents`, so they always agree with them.
pub struct RegistryView {
    /// Asset store: id to genetic payload.
    pub kitties: Map<u32, Seq<u8>>,
    /// Identity counter: the next id to allocate.
    pub count: u32,
    /// Single-owner record of each asset.
    pub owners: Map<u32, u64>,
    /// Parents of each bred asset, larger id first when bred through `breed`.
    pub parents: Map<u32, (u32, u32)>,
    /// Notifications emitted so far, oldest first.
    pub events: Seq<Event>,
}

/// The ids `0, 1, ..., n - 1` in order.
pub open spec fn ids_upto(n: nat) -> Seq<u32> {
    Seq::new(n, |i: int| i as u32)
}

impl RegistryView {
    pub open spec fn empty(count: u32) -> RegistryView {
        RegistryView {
            kitties: Map::empty(),
            count,
            owners: Map::empty(),
            parents: Map::empty(),
            events: Seq::empty(),
        }
    }

    /// Consistency of the indices.
    pub open spec fn wf(self) -> bool {
        &&& forall|id: u32| #[trigger] self.kitties.contains_key(id) ==> id < self.count
        &&& forall|id: u32| #[trigger] self.owners.contains_key(id) <==> self.kitties.contains_key(id)
        &&& forall|id: u32| #[trigger]
            self.parents.contains_key(id) ==> {
                let (a, b) = self.parents[id];
                &&& self.kitties.contains_key(id)
                &&& a != b
                &&& self.kitties.contains_key(a)
                &&& self.kitties.contains_key(b)
            }
    }

    pub open spec fn with_event(self, e: Event) -> RegistryView {
        RegistryView { events: self.events.push(e), ..self }
    }

    pub open spec fn owned_by(self, owner: u64, id: u32) -> bool {
        self.owners.contains_key(id) && self.owners[id] == owner
    }

    pub open spec fn is_child(self, parent: u32, child: u32) -> bool {
        self.parents.contains_key(child) && (self.parents[child].0 == parent
            || self.parents[child].1 == parent)
    }

    /// `a` and `b` have had a child together.
    pub open spec fn are_lovers(self, a: u32, b: u32) -> bool {
        exists|c: u32|
            #[trigger] self.parents.contains_key(c) && (self.parents[c] == (a, b)
                || self.parents[c] == (b, a))
    }

    /// Ids below `n` held by `owner`, in increasing order.
    pub open spec fn owned_below(self, owner: u64, n: nat) -> Seq<u32> {
        ids_upto(n).filter(|id: u32| self.owned_by(owner, id))
    }

    /// Ids below `n` that are children of `parent`, in increasing order.
    pub open spec fn children_below(self, parent: u32, n: nat) -> Seq<u32> {
        ids_upto(n).filter(|id: u32| self.is_child(parent, id))
    }

    /// Every asset held by `owner`, in increasing order of id.
    pub open spec fn assets_of(self, owner: u64) -> Seq<u32> {
        self.owned_below(owner, self.count as nat)
    }

    /// Every child of `parent`, in increasing order of id.
    pub open spec fn children_of(self, parent: u32) -> Seq<u32> {
        self.children_below(parent, self.count as nat)
    }

    pub open spec fn parents_of(self, id: u32) -> Seq<u32> {
        if self.parents.contains_key(id) {
            seq![self.parents[id].0, self.parents[id].1]
        } else {
            seq![]
        }
    }

    /// The children of each parent of `id`, first parent first; `id` itself
    /// is among them.
    pub open spec fn brothers_of(self, id: u32) -> Seq<u32> {
        if self.parents.contains_key(id) {
            self.children_of(self.parents[id].0) + self.children_of(self.parents[id].1)
        } else {
            seq![]
        }
    }

    pub open spec fn spec_next_kitty_id(self) -> Result<u32, Error> {
        if self.count == u32::MAX {
            Err(Error::KittiesCountOverflow)
        } else {
            Ok(self.count)
        }
    }

    /// Stores an asset with its owner and, when `k1 != k2`, its parents.
    pub open spec fn spec_insert_kitty(
        self,
        owner: u64,
        kitty_id: u32,
        dna: Seq<u8>,
        k1: u32,
        k2: u32,
    ) -> RegistryView {
        RegistryView {
            kitties: self.kitties.insert(kitty_id, dna),
            count: (kitty_id + 1) as u32,
            owners: self.owners.insert(kitty_id, owner),
            parents: if k1 != k2 {
                self.parents.insert(kitty_id, (k1, k2))
            } else {
                self.parents
            },
            events: self.events,
        }
    }

    pub open spec fn spec_create(self, sender: u64, dna: Seq<u8>) -> (RegistryView, Result<(), Error>) {
        match self.spec_next_kitty_id() {
            Err(e) => (self, Err(e)),
            Ok(id) => (
                self.spec_insert_kitty(sender, id, dna, 0, 0).with_event(Event::Created(sender, id)),
                Ok(()),
            ),
        }
    }

    pub open spec fn spec_do_transfer(self, sender: u64, to: u64, kitty_id: u32) -> (
        RegistryView,
        Result<(), Error>,
    ) {
        if !self.owners.contains_key(kitty_id) {
            (self, Err(Error::KittyIdNotExist))
        } else if self.owners[kitty_id] != sender {
            (self, Err(Error::NotKittyOwner))
        } else {
            (RegistryView { owners: self.owners.insert(kitty_id, to), ..self }, Ok(()))
        }
    }

    pub open spec fn spec_transfer(self, sender: u64, to: u64, kitty_id: u32) -> (
        RegistryView,
        Result<(), Error>,
    ) {
        let (v, r) = self.spec_do_transfer(sender, to, kitty_id);
        match r {
            Ok(_) => (v.with_event(Event::Transferred(sender, to, kitty_id)), r),
            Err(_) => (v, r),
        }
    }

    /// Breeding with a given selector: parents in canonical order (larger id
    /// first), both must exist, and a fresh id must be left.
    pub open spec fn spec_do_breed(self, sender: u64, id1: u32, id2: u32, selector: Seq<u8>) -> (
        RegistryView,
        Result<u32, Error>,
    ) {
        if id1 == id2 {
            (self, Err(Error::RequireDifferentParent))
        } else {
            let hi = if id1 < id2 { id2 } else { id1 };
            let lo = if id1 < id2 { id1 } else { id2 };
            if !self.kitties.contains_key(hi) || !self.kitties.contains_key(lo) {
                (self, Err(Error::KittyIdNotExist))
            } else {
                match self.spec_next_kitty_id() {
                    Err(e) => (self, Err(e)),
                    Ok(id) => (
                        self.spec_insert_kitty(
                            sender,
                            id,
                            combine_genes(self.kitties[hi], self.kitties[lo], selector),
                            hi,
                            lo,
                        ),
                        Ok(id),
                    ),
                }
            }
        }
    }

    pub open spec fn spec_breed(self, sender: u64, id1: u32, id2: u32, selector: Seq<u8>) -> (
        RegistryView,
        Result<(), Error>,
    ) {
        let (v, r) = self.spec_do_breed(sender, id1, id2, selector);
        match r {
            Ok(id) => (v.with_event(Event::Created(sender, id)), Ok(())),
            Err(e) => (v, Err(e)),
        }
    }

    /// Storing a new asset under the next id keeps the indices consistent.
    pub proof fn lemma_insert_kitty_wf(self, owner: u64, kitty_id: u32, dna: Seq<u8>, k1: u32, k2: u32)
        requires
            self.wf(),
            kitty_id == self.count,
            kitty_id < u32::MAX,
            k1 != k2 ==> self.kitties.contains_key(k1) && self.kitties.contains_key(k2),
        ensures
            self.spec_insert_kitty(owner, kitty_id, dna, k1, k2).wf(),
    {
        let v = self.spec_insert_kitty(owner, kitty_id, dna, k1, k2);
        assert forall|id: u32| #[trigger] v.parents.contains_key(id) implies {
            let (a, b) = v.parents[id];
            &&& v.kitties.contains_key(id)
            &&& a != b
            &&& v.kitties.contains_key(a)
            &&& v.kitties.contains_key(b)
        } by {
            if id != kitty_id {
                assert(self.parents.contains_key(id));
            }
        }
    }

    proof fn lemma_owned_below_step(self, owner: u64, n: nat)
        ensures
            self.owned_below(owner, n + 1) == if self.owned_by(owner, n as u32) {
                self.owned_below(owner, n).push(n as u32)
            } else {
                self.owned_below(owner, n)
            },
    {
        reveal(Seq::filter);
        assert(ids_upto(n + 1).drop_last() =~= ids_upto(n));
    }

    proof fn lemma_children_below_step(self, parent: u32, n: nat)
        ensures
            self.children_below(parent, n + 1) == if self.is_child(parent, n as u32) {
                self.children_below(parent, n).push(n as u32)
            } else {
                self.children_below(parent, n)
            },
    {
        reveal(Seq::filter);
        assert(ids_upto(n + 1).drop_last() =~= ids_upto(n));
    }

    proof fn lemma_filter_empty(self, owner: u64, parent: u32)
        ensures
            self.owned_below(owner, 0) == Seq::<u32>::empty(),
            self.children_below(parent, 0) == Seq::<u32>::empty(),
    {
        reveal(Seq::filter);
        assert(ids_upto(0) =~= Seq::<u32>::empty());
    }
}

/// The registry: asset store, identity counter, ownership and genealogy,
/// changed only through operations that keep them consistent.
pub struct Module {
    kitties: HashMap<u32, Kitty>,
    kitties_count: u32,
    kitty_owners: HashMap<u32, u64>,
    parents: HashMap<u32, (u32, u32)>,
    events: Vec<Event>,
}

impl View for Module {
    type V = RegistryView;

    closed spec fn view(&self) -> RegistryView {
        RegistryView {
            kitties: self.kitties@.map_values(|k: Kitty| k.0@),
            count: self.kitties_count,
            owners: self.kitty_owners@,
            parents: self.parents@,
            events: self.events@,
        }
    }
}

impl Module {
    /// An empty registry whose first id is 0.
    pub fn new() -> (r: Module)
        ensures
            r@ == RegistryView::empty(0),
            r@.wf(),
    {
        Module::with_kitties_count(0)
    }

    /// An empty registry whose identity counter starts at `count`.
    pub fn with_kitties_count(count: u32) -> (r: Module)
        ensures
            r@ == RegistryView::empty(count),
            r@.wf(),
    {
        let r = Module {
            kitties: HashMap::new(),
            kitties_count: count,
            kitty_owners: HashMap::new(),
            parents: HashMap::new(),
            events: Vec::new(),
        };
        assert(r@.kitties =~= Map::<u32, Seq<u8>>::empty());
        r
    }

    /// The id the next asset will get, unless the counter is exhausted.
    pub fn next_kitty_id(&self) -> (r: Result<u32, Error>)
        ensures
            r == self@.spec_next_kitty_id(),
    {
        let kitty_id = self.kitties_count;
        if kitty_id == u32::MAX {
            return Err(Error::KittiesCountOverflow);
        }
        Ok(kitty_id)
    }

    /// Stores `kitty` under the next id, owned by `owner`, with parents
    /// `(kitty_id_1, kitty_id_2)` when they differ, and advances the counter.
    pub fn insert_kitty(
        &mut self,
        owner: &u64,
        kitty_id: u32,
        kitty: Kitty,
        kitty_id_1: u32,
        kitty_id_2: u32,
    )
        requires
            old(self)@.wf(),
            kitty_id == old(self)@.count,
            kitty_id < u32::MAX,
            kitty_id_1 != kitty_id_2 ==> old(self)@.kitties.contains_key(kitty_id_1)
                && old(self)@.kitties.contains_key(kitty_id_2),
        ensures
            final(self)@ == old(self)@.spec_insert_kitty(
                *owner,
                kitty_id,
                kitty.0@,
                kitty_id_1,
                kitty_id_2,
            ),
            final(self)@.wf(),
    {
        let ghost pre = self@;
        self.kitties.insert(kitty_id, kitty);
        self.kitties_count = kitty_id + 1;
        if kitty_id_1 != kitty_id_2 {
            self.parents.insert(kitty_id, (kitty_id_1, kitty_id_2));
        }
        self.kitty_owners.insert(kitty_id, *owner);
        assert(self@.kitties =~= pre.kitties.insert(kitty_id, kitty.0@));
        proof {
            pre.lemma_insert_kitty_wf(*owner, kitty_id, kitty.0@, kitty_id_1, kitty_id_2);
        }
    }

    /// Creates an asset with payload `dna`, owned by `sender`.
    pub fn create_with_dna(&mut self, sender: u64, dna: [u8; 16]) -> (r: Result<(), Error>)
        requires
            old(self)@.wf(),
        ensures
            (final(self)@, r) == old(self)@.spec_create(sender, dna@),
            final(self)@.wf(),
    {
        let kitty_id = match self.next_kitty_id() {
            Ok(id) => id,
            Err(e) => return Err(e),
        };
        self.insert_kitty(&sender, kitty_id, Kitty(dna), 0, 0);
        self.events.push(Event::Created(sender, kitty_id));
        Ok(())
    }

    /// Creates an asset owned by `sender`, its payload drawn from the host's
    /// seed, the caller and the operation's index in its block.
    pub fn create(&mut self, sender: u64, seed: [u8; 32], extrinsic_index: Option<u32>) -> (r: Result<(), Error>)
        requires
            old(self)@.wf(),
        ensures
            (final(self)@, r) == old(self)@.spec_create(
                sender,
                blake2_128_of(entropy_payload(seed@, sender, extrinsic_index)),
            ),
            final(self)@.wf(),
    {
        let dna = random_value(&sender, &seed, extrinsic_index);
        self.create_with_dna(sender, dna)
    }

    /// Hands `kitty_id` from `sender`, its owner, to `to`.
    pub fn do_transfer(&mut self, sender: &u64, to: &u64, kitty_id: u32) -> (r: Result<(), Error>)
        requires
            old(self)@.wf(),
        ensures
            (final(self)@, r) == old(self)@.spec_do_transfer(*sender, *to, kitty_id),
            final(self)@.wf(),
    {
        match self.kitty_owners.get(&kitty_id) {
            Some(owner) => {
                if *owner != *sender {
                    return Err(Error::NotKittyOwner);
                }
            },
            None => return Err(Error::KittyIdNotExist),
        }
        self.kitty_owners.insert(kitty_id, *to);
        Ok(())
    }

    /// `do_transfer`, then a `Transferred` notification.
    pub fn transfer(&mut self, sender: u64, to: u64, kitty_id: u32) -> (r: Result<(), Error>)
        requires
            old(self)@.wf(),
        ensures
            (final(self)@, r) == old(self)@.spec_transfer(sender, to, kitty_id),
            final(self)@.wf(),
    {
        match self.do_transfer(&sender, &to, kitty_id) {
            Ok(()) => {
                self.events.push(Event::Transferred(sender, to, kitty_id));
                Ok(())
            },
            Err(e) => Err(e),
        }
    }

    /// Breeds `kitty_id_1` with `kitty_id_2` under `selector`; the child goes
    /// to `sender`. Returns the child's id.
    pub fn do_breed_with_selector(
        &mut self,
        sender: &u64,
        kitty_id_1: u32,
        kitty_id_2: u32,
        selector: &[u8; 16],
    ) -> (r: Result<u32, Error>)
        requires
            old(self)@.wf(),
        ensures
            (final(self)@, r) == old(self)@.spec_do_breed(*sender, kitty_id_1, kitty_id_2, selector@),
            final(self)@.wf(),
    {
        if kitty_id_1 == kitty_id_2 {
            return Err(Error::RequireDifferentParent);
        }
        let (kitty_id_1, kitty_id_2) = if kitty_id_1 < kitty_id_2 {
            (kitty_id_2, kitty_id_1)
        } else {
            (kitty_id_1, kitty_id_2)
        };
        let kitty1 = match self.kitties.get(&kitty_id_1) {
            Some(k) => *k,
            None => return Err(Error::KittyIdNotExist),
        };
        let kitty2 = match self.kitties.get(&kitty_id_2) {
            Some(k) => *k,
            None => return Err(Error::KittyIdNotExist),
        };
        let kitty_id = match self.next_kitty_id() {
            Ok(id) => id,
            Err(e) => return Err(e),
        };
        let new_dna = combine_payloads(&kitty1.0, &kitty2.0, selector);
        self.insert_kitty(sender, kitty_id, Kitty(new_dna), kitty_id_1, kitty_id_2);
        Ok(kitty_id)
    }

    /// Breeds two assets, the selector drawn from the host's seed, the caller
    /// and the operation's index in its block.
    pub fn do_breed(
        &mut self,
        sender: &u64,
        kitty_id_1: u32,
        kitty_id_2: u32,
        seed: &[u8; 32],
        extrinsic_index: Option<u32>,
    ) -> (r: Result<u32, Error>)
        requires
            old(self)@.wf(),
        ensures
            (final(self)@, r) == old(self)@.spec_do_breed(
                *sender,
                kitty_id_1,
                kitty_id_2,
                blake2_128_of(entropy_payload(seed@, *sender, extrinsic_index)),
            ),
            final(self)@.wf(),
    {
        let selector = random_value(sender, seed, extrinsic_index);
        self.do_breed_with_selector(sender, kitty_id_1, kitty_id_2, &selector)
    }

    /// `do_breed`, then a `Created` notification for the child.
    pub fn breed(
        &mut self,
        sender: u64,
        kitty_id_1: u32,
        kitty_id_2: u32,
        seed: [u8; 32],
        extrinsic_index: Option<u32>,
    ) -> (r: Result<(), Error>)
        requires
            old(self)@.wf(),
        ensures
            (final(self)@, r) == old(self)@.spec_breed(
                sender,
                kitty_id_1,
                kitty_id_2,
                blake2_128_of(entropy_payload(seed@, sender, extrinsic_index)),
            ),
            final(self)@.wf(),
    {
        match self.do_breed(&sender, kitty_id_1, kitty_id_2, &seed, extrinsic_index) {
            Ok(id) => {
                self.events.push(Event::Created(sender, id));
                Ok(())
            },
            Err(e) => Err(e),
        }
    }

    /// Every asset held by `owner`, in increasing order of id.
    pub fn get_all_kitties(&self, owner: &u64) -> (r: Vec<u32>)
        ensures
            r@ == self@.assets_of(*owner),
    {
        let mut v: Vec<u32> = Vec::new();
        let mut id: u32 = 0;
        proof {
            self@.lemma_filter_empty(*owner, 0);
        }
        while id < self.kitties_count
            invariant
                id <= self.kitties_count,
                v@ == self@.owned_below(*owner, id as nat),
            decreases self.kitties_count - id,
        {
            proof {
                self@.lemma_owned_below_step(*owner, id as nat);
            }
            match self.kitty_owners.get(&id) {
                Some(o) => {
                    if *o == *owner {
                        v.push(id);
                    }
                },
                None => {},
            }
            id = id + 1;
        }
        v
    }

    /// Every child of `kitty_id`, in increasing order of id.
    pub fn get_all_children(&self, kitty_id: u32) -> (r: Vec<u32>)
        ensures
            r@ == self@.children_of(kitty_id),
    {
        let mut v: Vec<u32> = Vec::new();
        let mut id: u32 = 0;
        proof {
            self@.lemma_filter_empty(0, kitty_id);
        }
        while id < self.kitties_count
            invariant
                id <= self.kitties_count,
                v@ == self@.children_below(kitty_id, id as nat),
            decreases self.kitties_count - id,
        {
            proof {
                self@.lemma_children_below_step(kitty_id, id as nat);
            }
            match self.parents.get(&id) {
                Some(p) => {
                    if p.0 == kitty_id || p.1 == kitty_id {
                        v.push(id);
                    }
                },
                None => {},
            }
            id = id + 1;
        }
        v
    }

    /// The two parents of a bred asset; empty for one that was not bred.
    pub fn get_parents(&self, kitty_id: u32) -> (r: Vec<u32>)
        ensures
            r@ == self@.parents_of(kitty_id),
    {
        match self.parents.get(&kitty_id) {
            None => Vec::new(),
            Some(p) => {
                let mut v: Vec<u32> = Vec::new();
                v.push(p.0);
                v.push(p.1);
                assert(v@ =~= self@.parents_of(kitty_id));
                v
            },
        }
    }

    /// The children of each parent of `kitty_id`, first parent first. An asset
    /// that was bred is among its own brothers.
    pub fn get_brothers(&self, kitty_id: u32) -> (r: Vec<u32>)
        ensures
            r@ == self@.brothers_of(kitty_id),
    {
        match self.parents.get(&kitty_id) {
            None => Vec::new(),
            Some(p) => {
                let mut v = self.get_all_children(p.0);
                let mut c = self.get_all_children(p.1);
                v.append(&mut c);
                v
            },
        }
    }

    /// The payload stored under `kitty_id`, if any.
    pub fn kitties(&self, kitty_id: u32) -> (r: Option<Kitty>)
        ensures
            r.is_some() == self@.kitties.contains_key(kitty_id),
            r.is_some() ==> r.unwrap().0@ == self@.kitties[kitty_id],
    {
        match self.kitties.get(&kitty_id) {
            Some(k) => Some(*k),
            None => None,
        }
    }

    /// The identity counter.
    pub fn kitties_count(&self) -> (r: u32)
        ensures
            r == self@.count,
    {
        self.kitties_count
    }

    /// The owner of `kitty_id`, if it exists.
    pub fn kitty_owner(&self, kitty_id: u32) -> (r: Option<u64>)
        ensures
            r == (if self@.owners.contains_key(kitty_id) {
                Some(self@.owners[kitty_id])
            } else {
                None
            }),
    {
        match self.kitty_owners.get(&kitty_id) {
            Some(o) => Some(*o),
            None => None,
        }
    }

    /// `Some(kitty_id)` when `owner` holds `kitty_id`.
    pub fn owner_kitty(&self, owner: &u64, kitty_id: u32) -> (r: Option<u32>)
        ensures
            r == (if self@.owned_by(*owner, kitty_id) {
                Some(kitty_id)
            } else {
                None
            }),
    {
        match self.kitty_owners.get(&kitty_id) {
            Some(o) => {
                if *o == *owner {
                    Some(kitty_id)
                } else {
                    None
                }
            },
            None => None,
        }
    }

    /// The parents of `kitty_id`, if it was bred.
    pub fn kitty_parent(&self, kitty_id: u32) -> (r: Option<(u32, u32)>)
        ensures
            r == (if self@.parents.contains_key(kitty_id) {
                Some(self@.parents[kitty_id])
            } else {
                None
            }),
    {
        match self.parents.get(&kitty_id) {
            Some(p) => Some(*p),
            None => None,
        }
    }

    /// `Some(child)` when `child` is a child of `kitty_id`.
    pub fn children(&self, kitty_id: u32, child: u32) -> (r: Option<u32>)
        ensures
            r == (if self@.is_child(kitty_id, child) {
                Some(child)
            } else {
                None
            }),
    {
        match self.parents.get(&child) {
            Some(p) => {
                if p.0 == kitty_id || p.1 == kitty_id {
                    Some(child)
                } else {
                    None
                }
            },
            None => None,
        }
    }

    /// `Some(wife)` when `kitty_id` and `wife` have had a child together.
    pub fn kitty_wife(&self, kitty_id: u32, wife: u32) -> (r: Option<u32>)
        requires
            self@.wf(),
        ensures
            r == (if self@.are_lovers(kitty_id, wife) {
                Some(wife)
            } else {
                None
            }),
    {
        let mut c: u32 = 0;
        while c < self.kitties_count
            invariant
                self@.wf(),
                c <= self.kitties_count,
                forall|d: u32|
                    d < c ==> !(#[trigger] self@.parents.contains_key(d) && (self@.parents[d] == (
                    kitty_id,
                    wife,
                ) || self@.parents[d] == (wife, kitty_id))),
            decreases self.kitties_count - c,
        {
            match self.parents.get(&c) {
                Some(p) => {
                    if (p.0 == kitty_id && p.1 == wife) || (p.0 == wife && p.1 == kitty_id) {
                        assert(self@.parents.contains_key(c) && self@.parents[c] == *p);
                        return Some(wife);
                    }
                },
                None => {},
            }
            c = c + 1;
        }
        None
    }

    /// Notifications emitted so far, oldest first.
    pub fn events(&self) -> (r: &Vec<Event>)
        ensures
            r@ == self@.events,
    {
        &self.events
    }
}

} // verus!
