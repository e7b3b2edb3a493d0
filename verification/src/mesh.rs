//! Triangulated mesh content, held as the exact bytes that are uploaded to
//! the GPU.
//!
//! A vertex is 28 bytes: 12 bytes (three 32-bit floats) of position followed
//! by 16 bytes (four 32-bit floats) of RGBA color. An index is one 32-bit
//! unsigned integer per triangle corner, in triangle-list topology. This
//! module never reads the numeric content of those bytes; it only carries
//! them and their lengths.

use vstd::prelude::*;

verus! {

/// Bytes per vertex record: 12 bytes of position, 16 bytes of color.
pub const VERTEX_STRIDE: usize = 28;

/// Bytes per index: one 32-bit unsigned integer.
pub const INDEX_STRIDE: usize = 4;

/// The vertex and index bytes of one triangulated mesh.
pub struct MeshData {
    pub vertex_bytes: Vec<u8>,
    pub index_bytes: Vec<u8>,
}

impl MeshData {
    /// The byte lengths describe whole vertices and whole indices, and the
    /// index count fits the 32-bit draw-call argument.
    pub open spec fn wf(&self) -> bool {
        &&& self.vertex_bytes@.len() % (VERTEX_STRIDE as nat) == 0
        &&& self.index_bytes@.len() % (INDEX_STRIDE as nat) == 0
        &&& self.index_bytes@.len() / (INDEX_STRIDE as nat) <= u32::MAX as nat
    }

    /// Number of indices held, one per triangle corner.
    pub open spec fn spec_index_count(&self) -> nat {
        self.index_bytes@.len() / (INDEX_STRIDE as nat)
    }

    /// Build a mesh from raw bytes; rejects lengths that do not describe
    /// whole vertices and whole 32-bit indices, or more indices than the
    /// 32-bit draw-call argument can count.
    pub fn new(vertex_bytes: Vec<u8>, index_bytes: Vec<u8>) -> (m: Option<MeshData>)
        ensures
            match m {
                Some(mesh) => {
                    &&& mesh.wf()
                    &&& mesh.vertex_bytes@ == vertex_bytes@
                    &&& mesh.index_bytes@ == index_bytes@
                },
                None => {
                    vertex_bytes@.len() % (VERTEX_STRIDE as nat) != 0
                        || index_bytes@.len() % (INDEX_STRIDE as nat) != 0
                        || index_bytes@.len() / (INDEX_STRIDE as nat) > u32::MAX as nat
                },
            },
    {
        if vertex_bytes.len() % VERTEX_STRIDE == 0 && index_bytes.len() % INDEX_STRIDE == 0
            && index_bytes.len() / INDEX_STRIDE <= u32::MAX as usize {
            Some(MeshData { vertex_bytes, index_bytes })
        } else {
            None
        }
    }

    /// Number of indices held, one per triangle corner.
    pub fn index_count(&self) -> (n: u32)
        requires
            self.wf(),
        ensures
            n as int == self.spec_index_count(),
    {
        (self.index_bytes.len() / INDEX_STRIDE) as u32
    }
}

} // verus!
