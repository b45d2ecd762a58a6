//! A workspace: the block maps of a collaborative document.

use vstd::prelude::*;
use vstd::string::StringExecFns;
use yrs::{MapRef, TransactionMut};
use crate::doc_ops::{
    child_of, outside_unchanged, under, displaces_nothing, in_document, live, no_entries, others_unchanged, same_document,
    shared_entries, shared_get, shared_insert_map, shared_remove, shared_root, shared_root_map,
    survivors_kept, SharedEntry, SharedValue,
};

verus! {

/// The name of the root map that holds the workspaces' maps.
pub open spec fn blocks_root_name() -> Seq<char> {
    "blocks"@
}

/// The key of a workspace's block map.
pub open spec fn content_key() -> Seq<char> {
    "content"@
}

/// The key of a workspace's map of block updates.
pub open spec fn updated_key() -> Seq<char> {
    "updated"@
}

/// Entries `e` have a nested map under `key`, or nothing.
pub open spec fn map_or_nothing(e: Map<Seq<char>, SharedValue>, key: Seq<char>) -> bool {
    e.get(key) matches None || e.get(key) matches Some(SharedValue::Nested(_))
}

/// The document of `txn` can hold a workspace: it has the root `blocks`, and that root
/// holds maps or nothing under `content` and `updated`.
pub open spec fn can_hold_workspace(txn: TransactionMut) -> bool {
    &&& shared_root(txn, blocks_root_name()) is Some
    &&& map_or_nothing(
        shared_entries(txn, shared_root(txn, blocks_root_name())->0),
        content_key(),
    )
    &&& map_or_nothing(
        shared_entries(txn, shared_root(txn, blocks_root_name())->0),
        updated_key(),
    )
}

/// Every map that was live before, other than `x`, is still live with the same entries.
pub open spec fn live_maps_kept(before: TransactionMut, after: TransactionMut, x: MapRef) -> bool {
    forall|y: MapRef|
        #![trigger live(before, y)]
        y != x && live(before, y) ==> live(after, y) && shared_entries(after, y)
            == shared_entries(before, y)
}

/// The nested map under `key` of `parent`, made empty when there was none; `None` when
/// a value of another kind is there.
fn child_map(txn: &mut TransactionMut, parent: &MapRef, key: &str) -> (child: Option<MapRef>)
    requires
        in_document(*old(txn), *parent),
        live(*old(txn), *parent),
    ensures
        same_document(*old(txn), *final(txn)),
        live(*final(txn), *parent),
        child is Some <==> map_or_nothing(shared_entries(*old(txn), *parent), key@),
        child is None ==> *final(txn) == *old(txn),
        child matches Some(m) ==> {
            &&& in_document(*final(txn), m)
            &&& live(*final(txn), m)
            &&& m != *parent
            &&& child_of(m, *parent)
            &&& shared_entries(*final(txn), *parent) == shared_entries(*old(txn), *parent).insert(
                key@,
                SharedValue::Nested(m),
            )
            &&& live_maps_kept(*old(txn), *final(txn), *parent)
        },
        child matches Some(m) ==> (shared_entries(*old(txn), *parent).get(key@) matches Some(
            SharedValue::Nested(n),
        ) ==> m == n),
        child matches Some(m) ==> (shared_entries(*old(txn), *parent).get(key@) matches Some(
            SharedValue::Nested(n),
        ) ==> *final(txn) == *old(txn)),
        child matches Some(m) ==> (shared_entries(*old(txn), *parent).get(key@) matches Some(
            SharedValue::Nested(n),
        ) ==> forall|k: Seq<char>|
            k != key@ ==> #[trigger] shared_entries(*old(txn), *parent).get(k) != Some(
                SharedValue::Nested(m),
            )),
        child matches Some(m) ==> (shared_entries(*old(txn), *parent).get(key@) is None ==> {
            &&& !live(*old(txn), m)
            &&& shared_entries(*final(txn), m) == no_entries()
            &&& others_unchanged(*old(txn), *final(txn), *parent, m)
        }),
{
    let entry = shared_get(parent, txn, key);
    match entry {
        SharedEntry::Nested(m) => {
            proof {
                assert(shared_entries(*txn, *parent).insert(key@, SharedValue::Nested(m))
                    =~= shared_entries(*txn, *parent));
                assert(*txn == *old(txn));
                assert forall|k: Seq<char>| k != key@ implies #[trigger] shared_entries(
                    *old(txn),
                    *parent,
                ).get(k) != Some(SharedValue::Nested(m)) by {
                    assert(shared_entries(*txn, *parent).get(k) != Some(SharedValue::Nested(m)));
                }
            }
            Some(m)
        },
        SharedEntry::Absent => {
            let ghost before = *txn;
            let m = shared_insert_map(parent, txn, key);
            proof {
                assert forall|y: MapRef| y != *parent && live(before, y) implies live(*txn, y)
                    && shared_entries(*txn, y) == shared_entries(before, y) by {
                    assert(y != m);
                    assert(live(*txn, y) == live(before, y));
                }
            }
            Some(m)
        },
        SharedEntry::Text(_) => None,
        SharedEntry::Other => None,
    }
}

/// What making the workspace `id` did to the document, going from `before` to `after`:
/// the root `blocks` now holds the workspace's maps under `content` and `updated`; maps
/// that were there are kept, missing ones are made empty; every other map that was live
/// is untouched.
pub open spec fn made_workspace(
    before: TransactionMut,
    after: TransactionMut,
    id: Seq<char>,
    w: Workspace,
) -> bool {
    let root = shared_root(before, blocks_root_name())->0;
    let old_root = shared_entries(before, root);
    &&& same_document(before, after)
    &&& w.spec_id() == id
    &&& w.spec_blocks() != w.spec_updated()
    &&& !under(w.spec_blocks(), w.spec_updated()) && !under(w.spec_updated(), w.spec_blocks())
    &&& in_document(after, w.spec_blocks()) && live(after, w.spec_blocks())
    &&& in_document(after, w.spec_updated()) && live(after, w.spec_updated())
    &&& shared_entries(after, root) == old_root.insert(
        content_key(),
        SharedValue::Nested(w.spec_blocks()),
    ).insert(updated_key(), SharedValue::Nested(w.spec_updated()))
    &&& (old_root.get(content_key()) matches Some(SharedValue::Nested(m)) ==> w.spec_blocks()
        == m)
    &&& (old_root.get(updated_key()) matches Some(SharedValue::Nested(m)) ==> w.spec_updated()
        == m)
    &&& (old_root.get(content_key()) is None ==> shared_entries(after, w.spec_blocks())
        == no_entries())
    &&& (old_root.get(updated_key()) is None ==> shared_entries(after, w.spec_updated())
        == no_entries())
    &&& live_maps_kept(before, after, root)
}

/// The blocks of a workspace and the record of their updates.
pub struct Workspace {
    id: String,
    blocks: MapRef,
    updated: MapRef,
}

impl Workspace {
    /// The two maps of a workspace are different maps, and neither lies inside the other.
    #[verifier::type_invariant]
    closed spec fn distinct_maps(&self) -> bool {
        &&& self.blocks != self.updated
        &&& !under(self.blocks, self.updated)
        &&& !under(self.updated, self.blocks)
    }

    /// The workspace's identifier.
    pub closed spec fn spec_id(&self) -> Seq<char> {
        self.id@
    }

    /// The map of the workspace's blocks.
    pub closed spec fn spec_blocks(&self) -> MapRef {
        self.blocks
    }

    /// The map of the workspace's block updates.
    pub closed spec fn spec_updated(&self) -> MapRef {
        self.updated
    }

    /// Whether the document of `txn` can hold a workspace (see [`can_hold_workspace`]).
    pub fn can_open(txn: &TransactionMut) -> (ok: bool)
        ensures
            ok == can_hold_workspace(*txn),
    {
        proof {
            reveal_strlit("blocks");
            reveal_strlit("content");
            reveal_strlit("updated");
        }
        match shared_root_map(txn, "blocks") {
            None => false,
            Some(root) => {
                let content = shared_get(&root, txn, "content");
                let updated = shared_get(&root, txn, "updated");
                let content_ok = match content {
                    SharedEntry::Absent => true,
                    SharedEntry::Nested(_) => true,
                    _ => false,
                };
                let updated_ok = match updated {
                    SharedEntry::Absent => true,
                    SharedEntry::Nested(_) => true,
                    _ => false,
                };
                content_ok && updated_ok
            },
        }
    }

    /// The workspace `id` over the document of `txn`: its blocks are the map `content`,
    /// and the record of their updates the map `updated`, both under the root map
    /// `blocks`; each is made empty when missing, and kept as it is when present. The
    /// document must define the root `blocks` (root types are defined on the document,
    /// outside transactions) and hold maps or nothing under those two keys.
    pub fn new(txn: &mut TransactionMut, id: &str) -> (ws: Workspace)
        requires
            can_hold_workspace(*old(txn)),
        ensures
            made_workspace(*old(txn), *final(txn), id@, ws),
    {
        proof {
            reveal_strlit("blocks");
            reveal_strlit("content");
            reveal_strlit("updated");
            assert(content_key() != updated_key()) by {
                assert(content_key()[0] != updated_key()[0]);
            }
        }
        let ghost start = *txn;
        let root = shared_root_map(txn, "blocks").unwrap();
        let content = child_map(txn, &root, "content").unwrap();
        let ghost middle = *txn;
        proof {
            assert(shared_entries(middle, root).get(updated_key()) == shared_entries(
                start,
                root,
            ).get(updated_key()));
        }
        let updated = child_map(txn, &root, "updated").unwrap();
        proof {
            // the two maps differ: a new map was not live before, and a kept map is held
            // under one key only
            if shared_entries(middle, root).get(updated_key()) is None {
                assert(!live(middle, updated));
                assert(content != updated);
            } else {
                assert(shared_entries(middle, root).get(content_key()) == Some(
                    SharedValue::Nested(content),
                ));
                assert(content != updated);
            }
            // the content map was not touched by the second step
            assert(live(*txn, content));
            assert(shared_entries(*txn, content) == shared_entries(middle, content));
            assert(shared_entries(*txn, root).get(content_key()) == shared_entries(
                middle,
                root,
            ).get(content_key()));
            // both maps sit directly in the root, which lies in nothing
            assert(!under(content, updated));
            assert(!under(updated, content));
            assert forall|y: MapRef| y != root && live(start, y) implies live(*txn, y)
                && shared_entries(*txn, y) == shared_entries(start, y) by {
                assert(live(middle, y));
            }
        }
        Workspace { id: String::from_str(id), blocks: content, updated }
    }

    /// The workspace `id` when the document of `txn` can hold one; otherwise `None`, and
    /// the document is left as it was.
    pub fn try_new(txn: &mut TransactionMut, id: &str) -> (ws: Option<Workspace>)
        ensures
            ws is Some <==> can_hold_workspace(*old(txn)),
            ws is None ==> *final(txn) == *old(txn),
            ws matches Some(w) ==> made_workspace(*old(txn), *final(txn), id@, w),
    {
        if Self::can_open(txn) {
            Some(Self::new(txn, id))
        } else {
            None
        }
    }

    /// The workspace's identifier.
    pub fn id(&self) -> (id: String)
        ensures
            id@ == self.spec_id(),
    {
        self.id.clone()
    }

    /// The map of the workspace's blocks.
    pub fn blocks(&self) -> (blocks: &MapRef)
        ensures
            *blocks == self.spec_blocks(),
    {
        &self.blocks
    }

    /// The map of the workspace's block updates.
    pub fn updated(&self) -> (updated: &MapRef)
        ensures
            *updated == self.spec_updated(),
    {
        &self.updated
    }

    /// Removes the block `block_id`; tells whether there was one. The map of updates, and
    /// every map outside the block map, is left as it was; inside the block map, the maps
    /// that stay live keep their entries, and all do when the block held no shared type.
    pub fn remove(&self, txn: &mut TransactionMut, block_id: &str) -> (removed: bool)
        requires
            in_document(*old(txn), self.spec_blocks()),
        ensures
            same_document(*old(txn), *final(txn)),
            live(*final(txn), self.spec_blocks()) == live(*old(txn), self.spec_blocks()),
            removed == shared_entries(*old(txn), self.spec_blocks()).contains_key(block_id@),
            shared_entries(*final(txn), self.spec_blocks()) == shared_entries(
                *old(txn),
                self.spec_blocks(),
            ).remove(block_id@),
            live(*final(txn), self.spec_updated()) == live(*old(txn), self.spec_updated()),
            shared_entries(*final(txn), self.spec_updated()) == shared_entries(
                *old(txn),
                self.spec_updated(),
            ),
            outside_unchanged(*old(txn), *final(txn), self.spec_blocks()),
            live(*old(txn), self.spec_blocks()) ==> survivors_kept(
                *old(txn),
                *final(txn),
                self.spec_blocks(),
                self.spec_blocks(),
            ),
            live(*old(txn), self.spec_blocks()) && displaces_nothing(
                shared_entries(*old(txn), self.spec_blocks()).get(block_id@),
            ) ==> others_unchanged(*old(txn), *final(txn), self.spec_blocks(), self.spec_blocks()),
    {
        proof {
            use_type_invariant(self);
        }
        let removed = shared_remove(&self.blocks, txn, block_id);
        proof {
            assert(live(*txn, self.updated) == live(*old(txn), self.updated));
            assert(shared_entries(*txn, self.updated) == shared_entries(*old(txn), self.updated));
        }
        removed
    }
}

/// A document whose root `blocks` holds, under `content` and under `updated`, a nested
/// map or nothing can hold a workspace: existing maps are reused, missing ones are made.
pub proof fn law_maps_or_nothing_make_room(txn: TransactionMut)
    requires
        shared_root(txn, blocks_root_name()) is Some,
        shared_entries(txn, shared_root(txn, blocks_root_name())->0).get(content_key()) is None
            || shared_entries(txn, shared_root(txn, blocks_root_name())->0).get(content_key()) matches Some(
            SharedValue::Nested(_),
        ),
        shared_entries(txn, shared_root(txn, blocks_root_name())->0).get(updated_key()) is None
            || shared_entries(txn, shared_root(txn, blocks_root_name())->0).get(updated_key()) matches Some(
            SharedValue::Nested(_),
        ),
    ensures
        can_hold_workspace(txn),
{
}

/// A document on which a workspace was made can hold a workspace again: the root
/// `blocks` then holds maps under both keys.
pub proof fn law_workspace_can_be_made_again(
    before: TransactionMut,
    after: TransactionMut,
    id: Seq<char>,
    w: Workspace,
)
    requires
        can_hold_workspace(before),
        made_workspace(before, after, id, w),
    ensures
        can_hold_workspace(after),
        shared_root(after, blocks_root_name()) == shared_root(before, blocks_root_name()),
        shared_entries(after, shared_root(after, blocks_root_name())->0).get(content_key())
            == Some(SharedValue::Nested(w.spec_blocks())),
        shared_entries(after, shared_root(after, blocks_root_name())->0).get(updated_key())
            == Some(SharedValue::Nested(w.spec_updated())),
{
    reveal_strlit("content");
    reveal_strlit("updated");
    assert(content_key() != updated_key()) by {
        assert(content_key()[0] != updated_key()[0]);
    }
    assert(shared_root(after, blocks_root_name()) == shared_root(before, blocks_root_name()));
}

/// Making a workspace over maps that are already there reuses them with their entries;
/// a missing map is made empty.
pub proof fn law_existing_maps_reused_missing_made_empty(
    before: TransactionMut,
    after: TransactionMut,
    id: Seq<char>,
    w: Workspace,
    m: MapRef,
)
    requires
        can_hold_workspace(before),
        made_workspace(before, after, id, w),
    ensures
        ({
            let root = shared_root(before, blocks_root_name())->0;
            &&& shared_entries(before, root).get(content_key()) == Some(SharedValue::Nested(m))
                ==> w.spec_blocks() == m
            &&& shared_entries(before, root).get(content_key()) == Some(SharedValue::Nested(m))
                && m != root && live(before, m) ==> shared_entries(after, m) == shared_entries(
                before,
                m,
            )
            &&& shared_entries(before, root).get(updated_key()) == Some(SharedValue::Nested(m))
                ==> w.spec_updated() == m
            &&& shared_entries(before, root).get(updated_key()) == Some(SharedValue::Nested(m))
                && m != root && live(before, m) ==> shared_entries(after, m) == shared_entries(
                before,
                m,
            )
            &&& shared_entries(before, root).get(content_key()) is None ==> shared_entries(
                after,
                w.spec_blocks(),
            ).dom().len() == 0
            &&& shared_entries(before, root).get(updated_key()) is None ==> shared_entries(
                after,
                w.spec_updated(),
            ).dom().len() == 0
        }),
{
    assert(no_entries().dom() =~= Set::<Seq<char>>::empty());
}

} // verus!
