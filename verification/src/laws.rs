//! Laws of the resource cache across frames.
//!
//! These proof functions state, over the cache model, how the sync pass
//! behaves across successive frames: when allocations are kept, when they
//! are replaced, what growing or shrinking the renderable count does, and
//! that resubmitting a frame changes nothing.

use vstd::prelude::*;

use crate::cache::synced_cache;
use crate::frame::RenderableModel;
use crate::mesh::INDEX_STRIDE;
use crate::slot::SlotModel;

verus! {

/// For two frames with the same renderable count and the same mesh byte
/// sizes at each position, submitting the first then the second reallocates
/// no buffer: after the second sync pass every slot still holds the
/// allocations it held after the first, and only in-place writes occurred.
pub proof fn lemma_stable_sizes_reallocate_nothing(
    c: Seq<SlotModel>,
    rs1: Seq<RenderableModel>,
    rs2: Seq<RenderableModel>,
)
    requires
        rs1.len() == rs2.len(),
        forall|i: int|
            0 <= i < rs1.len() ==> {
                &&& (#[trigger] rs2[i]).vertex_bytes.len() == rs1[i].vertex_bytes.len()
                &&& rs2[i].index_bytes.len() == rs1[i].index_bytes.len()
            },
    ensures
        ({
            let c1 = synced_cache(c, rs1);
            let c2 = synced_cache(c1, rs2);
            &&& c2.len() == c1.len()
            &&& forall|i: int|
                0 <= i < c1.len() ==> {
                    &&& (#[trigger] c2[i]).vertex.gen == c1[i].vertex.gen
                    &&& c2[i].index.gen == c1[i].index.gen
                }
        }),
{
    let c1 = synced_cache(c, rs1);
    let c2 = synced_cache(c1, rs2);
    assert forall|i: int| 0 <= i < c1.len() implies {
        &&& (#[trigger] c2[i]).vertex.gen == c1[i].vertex.gen
        &&& c2[i].index.gen == c1[i].index.gen
    } by {
        if i < rs2.len() {
            assert(c1[i].vertex.data == rs1[i].vertex_bytes);
            assert(c1[i].index.data == rs1[i].index_bytes);
        }
    }
}

/// When the renderable at position `i` changes mesh byte size, the slot's
/// buffer at that position is replaced — a fresh allocation — and the new
/// index count is the new mesh's triangle-corner count. This holds for the
/// vertex and the index buffer independently.
pub proof fn lemma_size_change_replaces_buffer(
    c: Seq<SlotModel>,
    rs: Seq<RenderableModel>,
    i: int,
)
    requires
        0 <= i < rs.len(),
        i < c.len(),
    ensures
        rs[i].vertex_bytes.len() != c[i].vertex.data.len() ==> synced_cache(c, rs)[i].vertex.gen
            == c[i].vertex.gen + 1,
        rs[i].index_bytes.len() != c[i].index.data.len() ==> synced_cache(c, rs)[i].index.gen
            == c[i].index.gen + 1,
        synced_cache(c, rs)[i].index_count == rs[i].index_bytes.len() / (INDEX_STRIDE as nat),
        synced_cache(c, rs)[i].vertex.data == rs[i].vertex_bytes,
        synced_cache(c, rs)[i].index.data == rs[i].index_bytes,
{
}

/// Idempotence: syncing the cache with the same frame twice in a row leaves
/// exactly the state the first sync produced — the same bytes in the same
/// allocations, no accumulation or drift.
pub proof fn lemma_sync_idempotent(c: Seq<SlotModel>, rs: Seq<RenderableModel>)
    ensures
        synced_cache(synced_cache(c, rs), rs) == synced_cache(c, rs),
{
    let c1 = synced_cache(c, rs);
    let c2 = synced_cache(c1, rs);
    assert forall|i: int| 0 <= i < c1.len() implies c2[i] == c1[i] by {
        if i < rs.len() {
            assert(c1[i].vertex.data == rs[i].vertex_bytes);
            assert(c1[i].index.data == rs[i].index_bytes);
            assert(c2[i] =~= c1[i]);
        }
    }
    assert(c2 =~= c1);
}

/// Growing the renderable count from N to N+1 across frames, with the mesh
/// byte sizes at the first N positions unchanged, adds exactly one new slot
/// — a fresh pair of allocations — and leaves the identities of the
/// existing N slots' buffers untouched.
pub proof fn lemma_grow_by_one_appends_slot(c: Seq<SlotModel>, rs: Seq<RenderableModel>)
    requires
        rs.len() == c.len() + 1,
        forall|i: int|
            0 <= i < c.len() ==> {
                &&& (#[trigger] rs[i]).vertex_bytes.len() == c[i].vertex.data.len()
                &&& rs[i].index_bytes.len() == c[i].index.data.len()
            },
    ensures
        synced_cache(c, rs).len() == c.len() + 1,
        forall|i: int|
            0 <= i < c.len() ==> {
                &&& (#[trigger] synced_cache(c, rs)[i]).vertex.gen == c[i].vertex.gen
                &&& synced_cache(c, rs)[i].index.gen == c[i].index.gen
            },
        synced_cache(c, rs)[c.len() as int].vertex.gen == 0,
        synced_cache(c, rs)[c.len() as int].index.gen == 0,
        synced_cache(c, rs)[c.len() as int].vertex.data == rs[c.len() as int].vertex_bytes,
        synced_cache(c, rs)[c.len() as int].index.data == rs[c.len() as int].index_bytes,
{
}

/// Shrinking the renderable count from N to M leaves the cache at N slots:
/// the slots at positions M..N are simply untouched that frame. (That the
/// draw pass then issues exactly M draws is part of the submission
/// contract.)
pub proof fn lemma_shrink_leaves_slots(c: Seq<SlotModel>, rs: Seq<RenderableModel>)
    requires
        rs.len() <= c.len(),
    ensures
        synced_cache(c, rs).len() == c.len(),
        forall|i: int|
            rs.len() <= i < c.len() ==> #[trigger] synced_cache(c, rs)[i] == c[i],
{
}

} // verus!
