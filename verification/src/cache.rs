//! The per-frame GPU resource cache: one `DrawResourceSlot` per renderable
//! position, owned for the renderer's lifetime.
//!
//! The cache is keyed by the renderable's position in the frame's list. It
//! grows by appending a slot when a frame has more renderables than any
//! earlier one, and never shrinks within a session: positions past the
//! current frame's count are simply left untouched.

use vstd::prelude::*;

use crate::frame::{Frame, Renderable, RenderableModel};
use crate::slot::{fresh_slot, synced_slot, DrawResourceSlot, SlotModel, SlotSync};

verus! {

/// The cache after one sync pass: position `i` holds the old slot synced
/// with renderable `i`, or a fresh slot where the position is new, or the
/// old slot untouched where this frame has no renderable for it.
pub open spec fn synced_cache(c: Seq<SlotModel>, rs: Seq<RenderableModel>) -> Seq<SlotModel> {
    Seq::new(
        if c.len() >= rs.len() {
            c.len()
        } else {
            rs.len()
        },
        |i: int|
            if i < rs.len() {
                if i < c.len() {
                    synced_slot(c[i], rs[i])
                } else {
                    fresh_slot(rs[i])
                }
            } else {
                c[i]
            },
    )
}

/// The models of a frame's renderables, in draw order.
pub open spec fn renderable_models(f: Frame) -> Seq<RenderableModel> {
    f.renderables@.map_values(|r: Renderable| r@)
}

/// All resource slots of the renderer, indexed by renderable position.
pub struct ResourceCache {
    pub slots: Vec<DrawResourceSlot>,
}

impl View for ResourceCache {
    type V = Seq<SlotModel>;

    open spec fn view(&self) -> Seq<SlotModel> {
        self.slots@.map_values(|s: DrawResourceSlot| s@)
    }
}

impl ResourceCache {
    /// Every slot is well formed.
    pub open spec fn wf(&self) -> bool {
        forall|i: int| 0 <= i < self.slots@.len() ==> (#[trigger] self.slots@[i]).wf()
    }

    /// An empty cache: no position has been seen yet.
    pub fn new() -> (c: ResourceCache)
        ensures
            c@.len() == 0,
            c.wf(),
    {
        ResourceCache { slots: Vec::new() }
    }

    /// Number of slots: the high-water mark of renderable counts seen.
    pub fn len(&self) -> (n: usize)
        ensures
            n == self@.len(),
    {
        self.slots.len()
    }

    /// The index count cached for the slot at `position`.
    pub fn index_count(&self, position: usize) -> (n: u32)
        requires
            position < self@.len(),
        ensures
            n as nat == self@[position as int].index_count,
    {
        self.slots[position].index_count
    }

    /// Bring the slot at `position` up to date with `r`, appending a fresh
    /// slot when the position is one past everything seen so far; says what
    /// it did so the caller can mirror it onto real GPU buffers.
    pub fn sync(&mut self, position: usize, r: &Renderable) -> (s: SlotSync)
        requires
            old(self).wf(),
            r.wf(),
            position <= old(self)@.len(),
        ensures
            final(self).wf(),
            position < old(self)@.len() ==> {
                &&& final(self)@ == old(self)@.update(
                    position as int,
                    synced_slot(old(self)@[position as int], r@),
                )
                &&& s == (SlotSync::Updated {
                    vertex_replaced: r@.vertex_bytes.len()
                        != old(self)@[position as int].vertex.data.len(),
                    index_replaced: r@.index_bytes.len()
                        != old(self)@[position as int].index.data.len(),
                })
            },
            position == old(self)@.len() ==> {
                &&& final(self)@ == old(self)@.push(fresh_slot(r@))
                &&& s == SlotSync::Created
            },
    {
        if position < self.slots.len() {
            let s = self.slots[position].sync(r);
            proof {
                assert(self@ =~= old(self)@.update(
                    position as int,
                    synced_slot(old(self)@[position as int], r@),
                ));
            }
            s
        } else {
            self.slots.push(DrawResourceSlot::create(r));
            proof {
                assert(self@ =~= old(self)@.push(fresh_slot(r@)));
            }
            SlotSync::Created
        }
    }

    /// The sync pass: bring position `i` up to date with renderable `i` for
    /// each renderable of the frame, in draw order, before any draw is
    /// issued. Returns what happened at each position, in the same order.
    pub fn sync_pass(&mut self, frame: &Frame) -> (actions: Vec<SlotSync>)
        requires
            old(self).wf(),
            frame.wf(),
        ensures
            final(self).wf(),
            final(self)@ == synced_cache(old(self)@, renderable_models(*frame)),
            actions@.len() == frame.renderables@.len(),
            forall|i: int|
                0 <= i < actions@.len() ==> #[trigger] actions@[i] == (if i
                    < old(self)@.len() {
                    SlotSync::Updated {
                        vertex_replaced: frame.renderables@[i]@.vertex_bytes.len()
                            != old(self)@[i].vertex.data.len(),
                        index_replaced: frame.renderables@[i]@.index_bytes.len()
                            != old(self)@[i].index.data.len(),
                    }
                } else {
                    SlotSync::Created
                }),
    {
        let ghost c0 = self@;
        let ghost rs = renderable_models(*frame);
        let mut actions: Vec<SlotSync> = Vec::new();
        let mut i: usize = 0;
        while i < frame.renderables.len()
            invariant
                frame.wf(),
                self.wf(),
                i <= frame.renderables@.len(),
                rs == renderable_models(*frame),
                actions@.len() == i,
                // Slots this pass has reached are synced or fresh; later
                // slots still hold their pre-pass state.
                self@.len() as int == if c0.len() as int >= i as int {
                    c0.len() as int
                } else {
                    i as int
                },
                forall|j: int|
                    0 <= j < i as int ==> self@[j] == #[trigger] synced_cache(c0, rs)[j],
                forall|j: int| i as int <= j < c0.len() ==> #[trigger] self@[j] == c0[j],
                forall|j: int|
                    0 <= j < i as int ==> #[trigger] actions@[j] == (if j < c0.len() {
                        SlotSync::Updated {
                            vertex_replaced: frame.renderables@[j]@.vertex_bytes.len()
                                != c0[j].vertex.data.len(),
                            index_replaced: frame.renderables@[j]@.index_bytes.len()
                                != c0[j].index.data.len(),
                        }
                    } else {
                        SlotSync::Created
                    }),
            decreases frame.renderables@.len() - i,
        {
            let s = self.sync(i, &frame.renderables[i]);
            actions.push(s);
            i = i + 1;
        }
        proof {
            assert(self@ =~= synced_cache(c0, rs));
        }
        actions
    }
}

} // verus!
