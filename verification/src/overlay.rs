//! The metadata overlay: what the user has attached to services, by
//! label. An entry may exist before its unit file does and may outlive
//! it.

use crate::descriptor::{ServiceMetadata, ServiceMetadataView};
use crate::label_map::{map_of, LabelMap};
use vstd::prelude::*;

verus! {

/// The overlay of every service that has one.
pub type MetadataStore = LabelMap<ServiceMetadata>;

/// Mathematical form of [`MetadataStore`].
pub type Overlays = Map<Seq<char>, ServiceMetadataView>;

/// The overlay stored for a label, where there is one.
pub open spec fn overlay_of(store: Overlays, label: Seq<char>) -> Option<ServiceMetadataView> {
    if store.contains_key(label) {
        Some(store[label])
    } else {
        None
    }
}

/// The overlays in force: those of the metadata document where it could
/// be read, else none.
pub fn load_all_metadata(stored: Option<MetadataStore>) -> (r: MetadataStore)
    ensures
        r@ == (match stored {
            Some(s) => s@,
            None => Map::<Seq<char>, ServiceMetadataView>::empty(),
        }),
{
    match stored {
        Some(s) => s,
        None => LabelMap::new(),
    }
}

/// The overlay stored for a label.
pub fn get_service_metadata(store: &MetadataStore, label: &str) -> (r: Option<ServiceMetadata>)
    ensures
        r.deep_view() == overlay_of(store@, label@),
{
    match store.get(label) {
        Some(m) => Some(m.clone()),
        None => None,
    }
}

/// Stores the overlay for a label, replacing the one that is there.
pub fn save_service_metadata(store: &mut MetadataStore, label: String, metadata: ServiceMetadata)
    ensures
        final(store)@ == old(store)@.insert(label@, metadata@),
{
    store.insert(label, metadata);
}

/// Merges overlays into the store: an incoming entry replaces the one
/// with its label, and every other entry stays.
pub fn import_metadata(current: &mut MetadataStore, incoming: &MetadataStore)
    ensures
        final(current)@ == old(current)@.union_prefer_right(incoming@),
{
    let ghost all = incoming.listing();
    let mut i: usize = 0;
    while i < incoming.len()
        invariant
            i <= all.len(),
            all == incoming.listing(),
            current@ == old(current)@.union_prefer_right(map_of(all.take(i as int))),
        decreases all.len() - i,
    {
        let label = incoming.label_at(i).clone();
        let value = incoming.value_at(i).clone();
        proof {
            assert(all.take(i + 1).drop_last() == all.take(i as int));
        }
        current.insert(label, value);
        i = i + 1;
    }
    proof {
        assert(all.take(all.len() as int) == all);
        incoming.lemma_listing();
    }
}

/// A bulk import is a union in which the incoming side wins: afterwards
/// the store holds every incoming entry as it came, every other entry as
/// it was, and nothing else.
pub proof fn lemma_import_is_union_with_overwrite(existing: Overlays, incoming: Overlays)
    ensures
        existing.union_prefer_right(incoming).dom() == existing.dom().union(incoming.dom()),
        forall|label: Seq<char>|
            incoming.contains_key(label) ==> #[trigger] existing.union_prefer_right(
                incoming,
            )[label] == incoming[label],
        forall|label: Seq<char>|
            existing.contains_key(label) && !incoming.contains_key(label)
                ==> #[trigger] existing.union_prefer_right(incoming)[label] == existing[label],
{
}

/// The store after one label's order is set: an entry that is there
/// changes in nothing but its order, and a label without entry gets a
/// blank one with that order.
pub open spec fn order_set(store: Overlays, label: Seq<char>, order: i32) -> Overlays {
    let entry = if store.contains_key(label) {
        store[label]
    } else {
        ServiceMetadataView::blank()
    };
    store.insert(label, entry.with_order(order))
}

/// Setting the order of a label changes nothing but that order: the
/// label's entry keeps its other fields, a label without entry gets a
/// blank one, and every other label keeps its entry, or stays without.
pub proof fn lemma_order_set_changes_only_the_order(
    store: Overlays,
    label: Seq<char>,
    order: i32,
    other: Seq<char>,
)
    ensures
        order_set(store, label, order).contains_key(label),
        order_set(store, label, order)[label].order == Some(order),
        order_set(store, label, order)[label].with_order(0) == overlay_of(store, label).unwrap_or(
            ServiceMetadataView::blank(),
        ).with_order(0),
        other != label ==> overlay_of(order_set(store, label, order), other) == overlay_of(
            store,
            other,
        ),
{
}

/// The store after the orders of a list of labels are set, one after
/// the other.
pub open spec fn reordered(store: Overlays, orders: Seq<(Seq<char>, i32)>) -> Overlays
    decreases orders.len(),
{
    if orders.len() == 0 {
        store
    } else {
        order_set(reordered(store, orders.drop_last()), orders.last().0, orders.last().1)
    }
}

/// Sets the display order of the given labels.
pub fn update_services_order(store: &mut MetadataStore, orders: &Vec<(String, i32)>)
    ensures
        final(store)@ == reordered(old(store)@, orders.deep_view()),
{
    let ghost all = orders.deep_view();
    let mut i: usize = 0;
    while i < orders.len()
        invariant
            i <= orders.len(),
            all == orders.deep_view(),
            store@ == reordered(old(store)@, all.take(i as int)),
        decreases orders.len() - i,
    {
        let label = orders[i].0.clone();
        let order = orders[i].1;
        proof {
            assert(all.take(i + 1).drop_last() == all.take(i as int));
        }
        let mut entry = match store.get(label.as_str()) {
            Some(m) => m.clone(),
            None => ServiceMetadata::default(),
        };
        entry.order = Some(order);
        store.insert(label, entry);
        i = i + 1;
    }
    proof {
        assert(all.take(all.len() as int) == all);
    }
}

} // verus!
