//! The persistent GPU resource triple bound to one renderable position.
//!
//! A `GeometryBuffer` stands for one GPU buffer: its byte content together
//! with a ghost generation number that changes exactly when the underlying
//! allocation is replaced, so contracts can distinguish an in-place write
//! (cheap, same allocation) from a reallocation (new buffer handle).
//!
//! A `DrawResourceSlot` is the triple {uniform, vertex, index} buffer plus
//! the cached index count for one positional draw entry. Syncing a slot with
//! a renderable always rewrites the 128-byte uniform region (both matrices),
//! writes vertex and index bytes in place when the byte length is unchanged,
//! and reallocates the buffer when the length differs.

use vstd::prelude::*;

use crate::frame::{Renderable, RenderableModel};
use crate::mesh::INDEX_STRIDE;

verus! {

/// Byte size of the uniform region: the model matrix at offset 0, the
/// view-projection matrix at offset 64.
pub const UNIFORM_BYTES: usize = 128;

/// The mathematical content of one GPU buffer: its bytes and the generation
/// of its allocation. Two states with equal `gen` share one allocation.
#[verifier::ext_equal]
pub struct BufModel {
    pub data: Seq<u8>,
    pub gen: nat,
}

/// The mathematical content of one resource slot.
#[verifier::ext_equal]
pub struct SlotModel {
    pub uniform: Seq<u8>,
    pub vertex: BufModel,
    pub index: BufModel,
    pub index_count: nat,
}

/// What syncing a buffer with new content does: keep the allocation when the
/// byte length is unchanged, else replace it.
pub open spec fn synced_buf(b: BufModel, data: Seq<u8>) -> BufModel {
    if data.len() == b.data.len() {
        BufModel { data, gen: b.gen }
    } else {
        BufModel { data, gen: b.gen + 1 }
    }
}

/// The slot a renderable gets when its position is seen for the first time.
pub open spec fn fresh_slot(r: RenderableModel) -> SlotModel {
    SlotModel {
        uniform: r.transform + r.camera,
        vertex: BufModel { data: r.vertex_bytes, gen: 0 },
        index: BufModel { data: r.index_bytes, gen: 0 },
        index_count: r.index_bytes.len() / (INDEX_STRIDE as nat),
    }
}

/// What syncing an existing slot with a renderable does: both matrices are
/// rewritten, vertex and index content is written in place or reallocated by
/// the byte-length rule of `synced_buf`.
pub open spec fn synced_slot(s: SlotModel, r: RenderableModel) -> SlotModel {
    SlotModel {
        uniform: r.transform + r.camera,
        vertex: synced_buf(s.vertex, r.vertex_bytes),
        index: synced_buf(s.index, r.index_bytes),
        index_count: r.index_bytes.len() / (INDEX_STRIDE as nat),
    }
}

/// What the sync pass did to one slot, for the layer that mirrors the slots
/// into real GPU buffers: a new slot was created, or an existing one was
/// updated, each buffer either in place or through a replacement allocation.
#[derive(Clone, Copy, PartialEq, Eq, Structural, Debug)]
pub enum SlotSync {
    Created,
    Updated { vertex_replaced: bool, index_replaced: bool },
}

/// One GPU buffer: its current bytes, and the ghost generation of its
/// allocation.
pub struct GeometryBuffer {
    pub data: Vec<u8>,
    pub gen: Ghost<nat>,
}

impl View for GeometryBuffer {
    type V = BufModel;

    open spec fn view(&self) -> BufModel {
        BufModel { data: self.data@, gen: self.gen@ }
    }
}

/// Copy a byte vector.
fn copy_bytes(src: &Vec<u8>) -> (out: Vec<u8>)
    ensures
        out@ == src@,
{
    let mut out: Vec<u8> = Vec::new();
    let mut i: usize = 0;
    while i < src.len()
        invariant
            i <= src@.len(),
            out@ == src@.subrange(0, i as int),
        decreases src@.len() - i,
    {
        out.push(src[i]);
        i = i + 1;
        proof {
            assert(out@ =~= src@.subrange(0, i as int));
        }
    }
    proof {
        assert(out@ =~= src@);
    }
    out
}

/// Concatenate two byte vectors.
fn concat_bytes(a: &Vec<u8>, b: &Vec<u8>) -> (out: Vec<u8>)
    ensures
        out@ == a@ + b@,
{
    let mut out = copy_bytes(a);
    let mut i: usize = 0;
    while i < b.len()
        invariant
            i <= b@.len(),
            out@ == a@ + b@.subrange(0, i as int),
        decreases b@.len() - i,
    {
        out.push(b[i]);
        i = i + 1;
        proof {
            assert(out@ =~= a@ + b@.subrange(0, i as int));
        }
    }
    proof {
        assert(out@ =~= a@ + b@);
    }
    out
}

impl GeometryBuffer {
    /// Create a buffer holding `data`; a fresh allocation, generation 0.
    pub fn create(data: Vec<u8>) -> (buf: GeometryBuffer)
        ensures
            buf@ == (BufModel { data: data@, gen: 0 }),
    {
        GeometryBuffer { data, gen: Ghost(0) }
    }

    /// Write `data` into the existing allocation. Only allowed when the new
    /// content fits it exactly; the allocation, and so the generation, is
    /// kept.
    pub fn upload(&mut self, data: &Vec<u8>)
        requires
            data@.len() == old(self)@.data.len(),
        ensures
            final(self)@ == (BufModel { data: data@, gen: old(self)@.gen }),
    {
        self.data = copy_bytes(data);
    }

    /// Replace the allocation by a new one holding `data`; the generation
    /// moves on.
    pub fn replace(&mut self, data: &Vec<u8>)
        ensures
            final(self)@ == (BufModel { data: data@, gen: old(self)@.gen + 1 }),
    {
        self.data = copy_bytes(data);
        self.gen = Ghost(self.gen@ + 1);
    }

    /// Write `data`, in place when the length is unchanged, else through a
    /// replacement allocation; says which it did.
    pub fn sync(&mut self, data: &Vec<u8>) -> (replaced: bool)
        ensures
            final(self)@ == synced_buf(old(self)@, data@),
            replaced == (data@.len() != old(self)@.data.len()),
    {
        if data.len() == self.data.len() {
            self.upload(data);
            false
        } else {
            self.replace(data);
            true
        }
    }
}

/// The persistent buffer triple for one renderable position: the 128-byte
/// uniform region, the vertex buffer, the index buffer, and the index count
/// the draw call for this slot uses.
pub struct DrawResourceSlot {
    pub uniform: Vec<u8>,
    pub vertex: GeometryBuffer,
    pub index: GeometryBuffer,
    pub index_count: u32,
}

impl View for DrawResourceSlot {
    type V = SlotModel;

    open spec fn view(&self) -> SlotModel {
        SlotModel {
            uniform: self.uniform@,
            vertex: self.vertex@,
            index: self.index@,
            index_count: self.index_count as nat,
        }
    }
}

impl DrawResourceSlot {
    /// The uniform region is exactly two matrices, the index bytes are whole
    /// 32-bit indices, and the cached index count matches them.
    pub open spec fn wf(&self) -> bool {
        &&& self.uniform@.len() == UNIFORM_BYTES as int
        &&& self.index@.data.len() == (INDEX_STRIDE as int) * (self.index_count as int)
    }

    /// Allocate the triple for a renderable seen at a new position.
    pub fn create(r: &Renderable) -> (slot: DrawResourceSlot)
        requires
            r.wf(),
        ensures
            slot@ == fresh_slot(r@),
            slot.wf(),
    {
        let uniform = concat_bytes(&r.transform, &r.camera);
        let index_count = r.mesh.index_count();
        DrawResourceSlot {
            uniform,
            vertex: GeometryBuffer::create(copy_bytes(&r.mesh.vertex_bytes)),
            index: GeometryBuffer::create(copy_bytes(&r.mesh.index_bytes)),
            index_count,
        }
    }

    /// Bring the triple up to date with this frame's renderable: rewrite both
    /// matrices, write mesh content in place where the byte length is
    /// unchanged, reallocate where it differs; says which paths were taken.
    pub fn sync(&mut self, r: &Renderable) -> (s: SlotSync)
        requires
            old(self).wf(),
            r.wf(),
        ensures
            final(self)@ == synced_slot(old(self)@, r@),
            final(self).wf(),
            s == (SlotSync::Updated {
                vertex_replaced: r@.vertex_bytes.len() != old(self)@.vertex.data.len(),
                index_replaced: r@.index_bytes.len() != old(self)@.index.data.len(),
            }),
    {
        self.uniform = concat_bytes(&r.transform, &r.camera);
        let index_replaced = self.index.sync(&r.mesh.index_bytes);
        if index_replaced {
            self.index_count = r.mesh.index_count();
        }
        let vertex_replaced = self.vertex.sync(&r.mesh.vertex_bytes);
        SlotSync::Updated { vertex_replaced, index_replaced }
    }
}

} // verus!
