use vstd::prelude::*;

use crate::registry::{ids_upto, Error, Event, RegistryView};

verus! {

broadcast use vstd::seq_lib::group_filter_ensures;

/// A successful `create` hands out the id the counter held, records it in
/// its notification, and leaves the counter one higher; it succeeds exactly
/// when the counter is not exhausted.
pub proof fn lemma_create_allocates_counter(v: RegistryView, sender: u64, dna: Seq<u8>)
    requires
        v.wf(),
    ensures
        v.spec_create(sender, dna).1 is Ok <==> v.count < u32::MAX,
        v.spec_create(sender, dna).1 is Ok ==> {
            let w = v.spec_create(sender, dna).0;
            &&& w.count == v.count + 1
            &&& w.kitties.contains_key(v.count)
            &&& !v.kitties.contains_key(v.count)
            &&& w.events == v.events.push(Event::Created(sender, v.count))
        },
{
}

/// An id has an owner exactly when it is in the asset store, and it is
/// among the assets of that owner.
pub proof fn lemma_owner_iff_stored(v: RegistryView, kitty_id: u32)
    requires
        v.wf(),
    ensures
        v.owners.contains_key(kitty_id) <==> v.kitties.contains_key(kitty_id),
        v.owners.contains_key(kitty_id) ==> v.assets_of(v.owners[kitty_id]).contains(kitty_id),
{
    if v.owners.contains_key(kitty_id) {
        let ids = ids_upto(v.count as nat);
        let owner = v.owners[kitty_id];
        assert(ids[kitty_id as int] == kitty_id);
        ids.lemma_filter_contains(|id: u32| v.owned_by(owner, id), kitty_id as int);
    }
}

/// Breeding `a` with `b` and `b` with `a` give the same outcome, and the
/// child's parents are recorded larger id first.
pub proof fn lemma_breed_order_irrelevant(v: RegistryView, sender: u64, a: u32, b: u32, selector: Seq<u8>)
    requires
        a != b,
    ensures
        v.spec_do_breed(sender, a, b, selector) == v.spec_do_breed(sender, b, a, selector),
        v.spec_breed(sender, a, b, selector) == v.spec_breed(sender, b, a, selector),
        v.spec_do_breed(sender, a, b, selector).1 is Ok ==> {
            let (w, r) = v.spec_do_breed(sender, a, b, selector);
            w.parents[r->Ok_0] == (if a < b { (b, a) } else { (a, b) })
        },
{
}

/// A successful breed records the two parents as partners both ways, adds
/// the child to the children of each, and gives the child to the caller.
pub proof fn lemma_breed_records_genealogy(v: RegistryView, sender: u64, a: u32, b: u32, selector: Seq<u8>)
    requires
        v.wf(),
        v.spec_do_breed(sender, a, b, selector).1 is Ok,
    ensures
        ({
            let (w, r) = v.spec_do_breed(sender, a, b, selector);
            let child = r->Ok_0;
            &&& child == v.count
            &&& w.are_lovers(a, b)
            &&& w.are_lovers(b, a)
            &&& w.children_of(a).contains(child)
            &&& w.children_of(b).contains(child)
            &&& w.owners[child] == sender
        }),
{
    let (w, r) = v.spec_do_breed(sender, a, b, selector);
    let child = r->Ok_0;
    let ids = ids_upto(w.count as nat);
    assert(w.parents.contains_key(child));
    assert(ids[child as int] == child);
    ids.lemma_filter_contains(|id: u32| w.is_child(a, id), child as int);
    ids.lemma_filter_contains(|id: u32| w.is_child(b, id), child as int);
}

/// Breeding an asset with itself always fails with `RequireDifferentParent`
/// and changes nothing.
pub proof fn lemma_breed_same_parent(v: RegistryView, sender: u64, a: u32, selector: Seq<u8>)
    ensures
        v.spec_breed(sender, a, a, selector) == (v, Err::<(), Error>(Error::RequireDifferentParent)),
        v.spec_do_breed(sender, a, a, selector) == (v, Err::<u32, Error>(
            Error::RequireDifferentParent,
        )),
{
}

/// Transferring an asset from `a` to `b` and back restores the ownership
/// record and every owner's assets, and touches nothing else but the
/// notifications.
pub proof fn lemma_transfer_round_trip(v: RegistryView, a: u64, b: u64, kitty_id: u32)
    requires
        v.wf(),
        v.spec_transfer(a, b, kitty_id).1 is Ok,
    ensures
        ({
            let w = v.spec_transfer(a, b, kitty_id).0;
            let (x, r) = w.spec_transfer(b, a, kitty_id);
            &&& r is Ok
            &&& x.owners == v.owners
            &&& forall|o: u64| #[trigger] x.assets_of(o) == v.assets_of(o)
            &&& x.kitties == v.kitties
            &&& x.parents == v.parents
            &&& x.count == v.count
        }),
{
    let w = v.spec_transfer(a, b, kitty_id).0;
    let x = w.spec_transfer(b, a, kitty_id).0;
    assert(x.owners =~= v.owners);
    assert forall|o: u64| #[trigger] x.assets_of(o) == v.assets_of(o) by {
        assert((|id: u32| x.owned_by(o, id)) =~= (|id: u32| v.owned_by(o, id)));
    }
}

/// A transfer of a missing id fails with `KittyIdNotExist`, one by anyone
/// but the owner with `NotKittyOwner`; either way nothing changes.
pub proof fn lemma_transfer_refusals(v: RegistryView, sender: u64, to: u64, kitty_id: u32)
    ensures
        !v.owners.contains_key(kitty_id) ==> v.spec_transfer(sender, to, kitty_id) == (v, Err::<
            (),
            Error,
        >(Error::KittyIdNotExist)),
        v.owners.contains_key(kitty_id) && v.owners[kitty_id] != sender ==> v.spec_transfer(
            sender,
            to,
            kitty_id,
        ) == (v, Err::<(), Error>(Error::NotKittyOwner)),
{
}

/// With the counter exhausted, `create`, and `breed` of two distinct stored
/// assets, fail with `KittiesCountOverflow` and change nothing.
pub proof fn lemma_exhausted_counter(
    v: RegistryView,
    sender: u64,
    dna: Seq<u8>,
    a: u32,
    b: u32,
    selector: Seq<u8>,
)
    requires
        v.count == u32::MAX,
    ensures
        v.spec_create(sender, dna) == (v, Err::<(), Error>(Error::KittiesCountOverflow)),
        a != b && v.kitties.contains_key(a) && v.kitties.contains_key(b) ==> v.spec_breed(
            sender,
            a,
            b,
            selector,
        ) == (v, Err::<(), Error>(Error::KittiesCountOverflow)),
{
}

} // verus!
