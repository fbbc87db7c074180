//! What holds of every entity store whose entities hang, parent by parent,
//! under the main device.

use crate::entity_store::{
    affected_by_update, already_registered, ancestors_of, ancestors_within, closed_under_parents,
    consistent, entity_of_external_id, initial_store, main_device_conflict, parent_missing,
    registered_other, resolved_parent, store_after_twin_update, store_after_update,
    twin_data_after, RegistrationModel, StoreModel,
};
use crate::json::JsonModel;
use crate::mqtt_topics::TopicIdModel;
use vstd::prelude::*;

verus! {

/// Whether a store is a tree under its main device, with the given depths:
/// the main device has no parent and depth 0, and every other entity has a
/// registered parent and is one deeper than that.
pub open spec fn rooted_by(store: StoreModel, depth: spec_fn(TopicIdModel) -> nat) -> bool {
    &&& closed_under_parents(store)
    &&& store.entities[store.main_device].parent is None
    &&& depth(store.main_device) == 0
    &&& forall|id: TopicIdModel| #[trigger]
        store.entities.contains_key(id) && id != store.main_device
            ==> store.entities[id].parent is Some && depth(id) == depth(
            store.entities[id].parent->0,
        ) + 1
}

/// Whether a store is a tree under its main device.
pub open spec fn rooted(store: StoreModel) -> bool {
    exists|depth: spec_fn(TopicIdModel) -> nat| rooted_by(store, depth)
}

/// In a tree, the chain of the ancestors of an entity is as long as the
/// entity is deep, once enough steps are allowed; each ancestor is one less
/// deep than the one before; and the chain is the same for any number of
/// steps that is enough.
proof fn lemma_chain(
    store: StoreModel,
    depth: spec_fn(TopicIdModel) -> nat,
    id: TopicIdModel,
    steps: nat,
)
    requires
        rooted_by(store, depth),
        store.entities.contains_key(id),
        steps >= depth(id),
    ensures
        ancestors_within(store, id, steps).len() == depth(id),
        forall|k: int|
            0 <= k < depth(id) ==> store.entities.contains_key(
                #[trigger] ancestors_within(store, id, steps)[k],
            ) && depth(ancestors_within(store, id, steps)[k]) == depth(id) - 1 - k,
        ancestors_within(store, id, steps) == ancestors_within(store, id, depth(id)),
    decreases steps,
{
    if id == store.main_device {
        assert(ancestors_within(store, id, steps) =~= Seq::<TopicIdModel>::empty());
        assert(ancestors_within(store, id, depth(id)) =~= Seq::<TopicIdModel>::empty());
    } else {
        let parent = store.entities[id].parent->0;
        assert(store.entities.contains_key(parent));
        assert(depth(id) == depth(parent) + 1);
        lemma_chain(store, depth, parent, (steps - 1) as nat);
        lemma_chain(store, depth, parent, depth(parent));
        let rest = ancestors_within(store, parent, (steps - 1) as nat);
        let all = ancestors_within(store, id, steps);
        assert(all == seq![parent] + rest);
        assert(ancestors_within(store, id, depth(id)) == seq![parent] + ancestors_within(
            store,
            parent,
            depth(parent),
        ));
        assert forall|k: int| 0 <= k < depth(id) implies store.entities.contains_key(
            #[trigger] all[k],
        ) && depth(all[k]) == depth(id) - 1 - k by {
            if k > 0 {
                assert(all[k] == rest[k - 1]);
            }
        }
    }
}

/// In a tree, an entity and its ancestors are as many distinct entities as
/// the entity is deep, and one more.
proof fn lemma_chain_set(
    store: StoreModel,
    depth: spec_fn(TopicIdModel) -> nat,
    id: TopicIdModel,
) -> (chain: Set<TopicIdModel>)
    requires
        rooted_by(store, depth),
        store.entities.contains_key(id),
    ensures
        chain.finite(),
        chain.len() == depth(id) + 1,
        chain.subset_of(store.entities.dom()),
        forall|x: TopicIdModel| chain.contains(x) ==> depth(x) <= depth(id),
    decreases depth(id),
{
    if id == store.main_device {
        set![id]
    } else {
        let parent = store.entities[id].parent->0;
        assert(store.entities.contains_key(parent));
        let above = lemma_chain_set(store, depth, parent);
        assert(!above.contains(id)) by {
            if above.contains(id) {
                assert(depth(id) <= depth(parent));
            }
        }
        above.insert(id)
    }
}

/// In a tree, no entity is as deep as there are entities.
proof fn lemma_depth_bound(store: StoreModel, depth: spec_fn(TopicIdModel) -> nat, id: TopicIdModel)
    requires
        rooted_by(store, depth),
        store.entities.contains_key(id),
    ensures
        depth(id) < store.entities.dom().len(),
{
    let chain = lemma_chain_set(store, depth, id);
    vstd::set_lib::lemma_len_subset(chain, store.entities.dom());
}

/// In a tree, the ancestors of a registered entity other than the main
/// device end with the main device.
pub proof fn law_ancestors_end_with_main(store: StoreModel, id: TopicIdModel)
    requires
        rooted(store),
        store.entities.contains_key(id),
        id != store.main_device,
    ensures
        ancestors_of(store, id).len() > 0,
        ancestors_of(store, id).last() == store.main_device,
{
    let depth = choose|depth: spec_fn(TopicIdModel) -> nat| rooted_by(store, depth);
    lemma_depth_bound(store, depth, id);
    lemma_chain(store, depth, id, store.entities.dom().len());
    let chain = ancestors_of(store, id);
    let last = chain[depth(id) - 1];
    assert(depth(last) == 0);
    assert(store.entities.contains_key(last));
}

/// In a tree, the ancestors of a registered entity are registered, none of
/// them comes twice, none is the entity itself, and the main device alone
/// has none.
pub proof fn law_ancestors_are_a_path(store: StoreModel, id: TopicIdModel)
    requires
        rooted(store),
        store.entities.contains_key(id),
    ensures
        ancestors_of(store, id).len() == 0 <==> id == store.main_device,
        ancestors_of(store, id).no_duplicates(),
        !ancestors_of(store, id).contains(id),
        forall|k: int|
            0 <= k < ancestors_of(store, id).len() ==> store.entities.contains_key(
                #[trigger] ancestors_of(store, id)[k],
            ),
{
    let depth = choose|depth: spec_fn(TopicIdModel) -> nat| rooted_by(store, depth);
    lemma_depth_bound(store, depth, id);
    lemma_chain(store, depth, id, store.entities.dom().len());
    let chain = ancestors_of(store, id);
    assert forall|i: int, j: int| 0 <= i < chain.len() && 0 <= j < chain.len() && i != j implies chain[i]
        != chain[j] by {
        assert(depth(chain[i]) == depth(id) - 1 - i);
        assert(depth(chain[j]) == depth(id) - 1 - j);
    }
    if chain.contains(id) {
        let k = choose|k: int| 0 <= k < chain.len() && chain[k] == id;
        assert(depth(chain[k]) == depth(id) - 1 - k);
    }
    if id != store.main_device {
        assert(depth(id) == depth(store.entities[id].parent->0) + 1);
    }
}

/// In a consistent store, the entity found under an external identifier
/// has that external identifier and is filed under the topic identifier that
/// the index holds for it.
pub proof fn law_found_by_external_id(store: StoreModel, external_id: Seq<char>)
    requires
        consistent(store),
        store.index.contains_key(external_id),
    ensures
        entity_of_external_id(store, external_id) matches Some(entity) && entity.external_id
            == external_id && entity.topic_id == store.index[external_id]
            && store.entities.contains_key(entity.topic_id) && store.entities[entity.topic_id]
            == entity,
{
}

/// A registration that is repeated affects nothing and changes nothing.
pub proof fn law_repeated_registration(
    store: StoreModel,
    message: RegistrationModel,
    external_id: Seq<char>,
)
    ensures
        already_registered(store_after_update(store, message, external_id), message, external_id),
        affected_by_update(store_after_update(store, message, external_id), message, external_id)
            == Seq::<TopicIdModel>::empty(),
        store_after_update(store_after_update(store, message, external_id), message, external_id)
            == store_after_update(store, message, external_id),
{
    let after = store_after_update(store, message, external_id);
    let given = registered_other(store, message);
    assert(registered_other(after, message) == given);
    let kept = after.entities[message.topic_id];
    assert(kept.other.union_prefer_right(given) =~= kept.other);
}

/// A registration affects nothing exactly where it changes nothing, in a
/// store that holds its main device and is not at odds with the
/// registration.
pub proof fn law_affected_where_changed(
    store: StoreModel,
    message: RegistrationModel,
    external_id: Seq<char>,
)
    requires
        store.entities.contains_key(store.main_device),
        !main_device_conflict(store, message),
    ensures
        affected_by_update(store, message, external_id).len() == 0 <==> store_after_update(
            store,
            message,
            external_id,
        ) == store,
{
    let after = store_after_update(store, message, external_id);
    if !already_registered(store, message, external_id) {
        assert(after.entities[message.topic_id] == crate::entity_store::registered_entity(
            store,
            message,
            external_id,
        ));
        if !store.entities.contains_key(message.topic_id) {
            assert(after.entities.contains_key(message.topic_id));
            assert(resolved_parent(store, message) is Some);
        }
    }
}

/// A store that holds its main device alone is a tree.
pub proof fn law_initial_store_is_rooted(main: RegistrationModel, default_service_type: Seq<char>)
    ensures
        rooted(initial_store(main, default_service_type)),
{
    let store = initial_store(main, default_service_type);
    let depth = |id: TopicIdModel| 0nat;
    assert(store.entities.dom() =~= set![main.topic_id]);
    assert(rooted_by(store, depth));
}

/// Whether a registration keeps a tree a tree: that of the main device
/// leaves it without a parent; that of another entity gives it a parent
/// which is neither the entity itself nor one of its descendants.
pub open spec fn keeps_rooted(store: StoreModel, message: RegistrationModel) -> bool {
    if message.topic_id == store.main_device {
        resolved_parent(store, message) is None
    } else {
        resolved_parent(store, message) matches Some(parent) && parent != message.topic_id
            && !ancestors_of(store, parent).contains(message.topic_id)
    }
}

/// Whether a registration hangs a registered entity under itself or under
/// one of its descendants.
pub open spec fn moves_under_itself(store: StoreModel, message: RegistrationModel) -> bool {
    store.entities.contains_key(message.topic_id) && (resolved_parent(store, message) matches Some(
        parent,
    ) && (parent == message.topic_id || ancestors_of(store, parent).contains(message.topic_id)))
}

/// In a tree, the ancestors of an entity are its parent and the ancestors
/// of its parent.
proof fn lemma_ancestors_unfold(
    store: StoreModel,
    depth: spec_fn(TopicIdModel) -> nat,
    id: TopicIdModel,
)
    requires
        rooted_by(store, depth),
        store.entities.contains_key(id),
        id != store.main_device,
    ensures
        ancestors_of(store, id) == seq![store.entities[id].parent->0] + ancestors_of(
            store,
            store.entities[id].parent->0,
        ),
{
    let parent = store.entities[id].parent->0;
    let total = store.entities.dom().len();
    lemma_depth_bound(store, depth, id);
    lemma_depth_bound(store, depth, parent);
    lemma_chain(store, depth, parent, total);
    lemma_chain(store, depth, parent, (total - 1) as nat);
}

/// Whether an entity is a given entity or one of its descendants.
pub open spec fn at_or_below(store: StoreModel, top: TopicIdModel, id: TopicIdModel) -> bool {
    id == top || ancestors_of(store, id).contains(top)
}

/// The depths after an entity has been hung under another parent: the
/// entity is one deeper than its parent, and its descendants follow it.
pub open spec fn depth_after(
    store: StoreModel,
    depth: spec_fn(TopicIdModel) -> nat,
    moved: TopicIdModel,
    parent: TopicIdModel,
) -> spec_fn(TopicIdModel) -> nat {
    |id: TopicIdModel|
        if at_or_below(store, moved, id) {
            if store.entities.contains_key(moved) {
                (depth(parent) + 1 + depth(id) - depth(moved)) as nat
            } else {
                depth(parent) + 1
            }
        } else {
            depth(id)
        }
}

/// In a tree, a descendant is deeper than its ancestor.
proof fn lemma_below_is_deeper(
    store: StoreModel,
    depth: spec_fn(TopicIdModel) -> nat,
    top: TopicIdModel,
    id: TopicIdModel,
)
    requires
        rooted_by(store, depth),
        store.entities.contains_key(id),
        ancestors_of(store, id).contains(top),
    ensures
        store.entities.contains_key(top),
        depth(top) < depth(id),
{
    lemma_depth_bound(store, depth, id);
    lemma_chain(store, depth, id, store.entities.dom().len());
    let chain = ancestors_of(store, id);
    let k = choose|k: int| 0 <= k < chain.len() && chain[k] == top;
    assert(store.entities.contains_key(chain[k]));
}

/// A registration that keeps a tree a tree does so: after it, the store is
/// a tree again.
pub proof fn law_update_keeps_rooted(
    store: StoreModel,
    message: RegistrationModel,
    external_id: Seq<char>,
)
    requires
        rooted(store),
        !parent_missing(store, message),
        keeps_rooted(store, message),
    ensures
        rooted(store_after_update(store, message, external_id)),
{
    let after = store_after_update(store, message, external_id);
    let depth = choose|depth: spec_fn(TopicIdModel) -> nat| rooted_by(store, depth);
    let moved = message.topic_id;
    if after == store {
    } else if moved == store.main_device {
        assert(after.entities.dom() =~= store.entities.dom());
        assert(rooted_by(after, depth)) by {
            assert forall|id: TopicIdModel| #[trigger]
                after.entities.contains_key(id) && id != after.main_device implies after.entities[id].parent is Some
                && depth(id) == depth(after.entities[id].parent->0) + 1 by {
                assert(store.entities.contains_key(id));
                assert(after.entities[id] == store.entities[id]);
            }
            assert forall|id: TopicIdModel| #[trigger]
                after.entities.contains_key(id) implies after.entities[id].topic_id == id && (
            after.entities[id].parent matches Some(parent) ==> after.entities.contains_key(parent)) by {
                assert(store.entities.contains_key(id));
            }
        }
    } else {
        let parent = resolved_parent(store, message)->0;
        assert(store.entities.contains_key(parent));
        let new_depth = depth_after(store, depth, moved, parent);
        assert(after.entities.dom() =~= store.entities.dom().insert(moved));
        assert(after.entities[moved].parent == Some(parent));
        assert(after.entities[moved].topic_id == moved);
        assert(!at_or_below(store, moved, parent));
        assert(!at_or_below(store, moved, store.main_device)) by {
            assert(ancestors_of(store, store.main_device) =~= Seq::<TopicIdModel>::empty());
        }
        assert forall|id: TopicIdModel| #[trigger]
            after.entities.contains_key(id) implies after.entities[id].topic_id == id && (
        after.entities[id].parent matches Some(p) ==> after.entities.contains_key(p)) by {
            if id != moved {
                assert(store.entities.contains_key(id));
                assert(after.entities[id] == store.entities[id]);
            }
        }
        assert forall|id: TopicIdModel| #[trigger]
            after.entities.contains_key(id) && id != after.main_device implies after.entities[id].parent is Some
            && new_depth(id) == new_depth(after.entities[id].parent->0) + 1 by {
            if id == moved {
                assert(new_depth(parent) == depth(parent));
                if store.entities.contains_key(moved) {
                    assert(new_depth(moved) == depth(parent) + 1);
                }
            } else {
                assert(store.entities.contains_key(id));
                assert(after.entities[id] == store.entities[id]);
                let p = store.entities[id].parent->0;
                assert(store.entities.contains_key(p));
                lemma_ancestors_unfold(store, depth, id);
                let chain = ancestors_of(store, id);
                let above = ancestors_of(store, p);
                assert(chain == seq![p] + above);
                if at_or_below(store, moved, id) {
                    let k = choose|k: int| 0 <= k < chain.len() && chain[k] == moved;
                    if k > 0 {
                        assert(above[k - 1] == moved);
                    } else {
                        assert(p == moved);
                    }
                    assert(at_or_below(store, moved, p));
                    lemma_below_is_deeper(store, depth, moved, id);
                    if p != moved {
                        lemma_below_is_deeper(store, depth, moved, p);
                    }
                } else {
                    assert(chain[0] == p);
                    assert(p != moved);
                    if above.contains(moved) {
                        let k = choose|k: int| 0 <= k < above.len() && above[k] == moved;
                        assert(chain[k + 1] == moved);
                    }
                    assert(!at_or_below(store, moved, p));
                }
            }
        }
        assert(rooted_by(after, new_depth));
    }
}

/// A registration that the store takes keeps a tree a tree, unless it
/// hangs a registered entity under itself or under one of its descendants.
pub proof fn law_registration_keeps_rooted(
    store: StoreModel,
    message: RegistrationModel,
    external_id: Seq<char>,
)
    requires
        rooted(store),
        !parent_missing(store, message),
        !main_device_conflict(store, message),
        !moves_under_itself(store, message),
    ensures
        rooted(store_after_update(store, message, external_id)),
{
    if message.topic_id != store.main_device {
        let parent = resolved_parent(store, message)->0;
        if !store.entities.contains_key(message.topic_id) {
            law_ancestors_are_a_path(store, parent);
            let chain = ancestors_of(store, parent);
            if chain.contains(message.topic_id) {
                let k = choose|k: int| 0 <= k < chain.len() && chain[k] == message.topic_id;
                assert(store.entities.contains_key(chain[k]));
            }
        }
    }
    law_update_keeps_rooted(store, message, external_id);
}

/// An update of the twin data of a registered entity keeps a tree a tree.
pub proof fn law_twin_update_keeps_rooted(
    store: StoreModel,
    id: TopicIdModel,
    key: Seq<char>,
    value: JsonModel,
)
    requires
        rooted(store),
        store.entities.contains_key(id),
    ensures
        rooted(store_after_twin_update(store, id, key, value)),
{
    let after = store_after_twin_update(store, id, key, value);
    let depth = choose|depth: spec_fn(TopicIdModel) -> nat| rooted_by(store, depth);
    assert(after.entities.dom() =~= store.entities.dom());
    assert forall|x: TopicIdModel| #[trigger] after.entities.contains_key(x) implies store.entities.contains_key(
        x,
    ) && after.entities[x].parent == store.entities[x].parent && after.entities[x].topic_id
        == store.entities[x].topic_id by {}
    assert(rooted_by(after, depth));
}

/// After an update of a twin fragment with `null` the fragment is gone;
/// after one with another value the fragment has that value.
pub proof fn law_twin_update(twin_data: Map<Seq<char>, JsonModel>, key: Seq<char>, value: JsonModel)
    ensures
        value == JsonModel::Null ==> !twin_data_after(twin_data, key, value).contains_key(key),
        value != JsonModel::Null ==> twin_data_after(twin_data, key, value).contains_key(key)
            && twin_data_after(twin_data, key, value)[key] == value,
{
}

} // verus!
