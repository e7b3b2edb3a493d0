//! One frame's worth of draw requests.
//!
//! A `Frame` is created at the start of each draw cycle, filled with
//! `Renderable`s in the order they are to be drawn, consumed exactly once by
//! the renderer, then discarded. The order of the renderables is meaningful:
//! it is the key that joins each renderable to its persistent resource slot.

use vstd::prelude::*;

use crate::mesh::MeshData;

verus! {

/// Bytes of one 4x4 matrix of 32-bit floats.
pub const MATRIX_BYTES: usize = 64;

/// Bit pattern of the 32-bit float 1.0, the default clear channel value.
pub const ONE_BITS: u32 = 0x3f80_0000;

/// A clear color. Each channel holds the bit pattern of a 32-bit float in
/// the 0.0 to 1.0 range; the library carries the bits and never computes on
/// them.
#[derive(Clone, Copy, PartialEq, Eq, Structural, Debug)]
pub struct ClearColor {
    pub r: u32,
    pub g: u32,
    pub b: u32,
    pub a: u32,
}

impl ClearColor {
    /// Opaque white, the default clear color.
    pub fn white() -> (c: ClearColor)
        ensures
            c == (ClearColor { r: ONE_BITS, g: ONE_BITS, b: ONE_BITS, a: ONE_BITS }),
    {
        ClearColor { r: ONE_BITS, g: ONE_BITS, b: ONE_BITS, a: ONE_BITS }
    }
}

/// One draw request: a mesh plus the bytes of its model matrix and of the
/// combined view-projection matrix, in the layout the uniform buffer takes
/// them (matrix bytes as the GPU pipeline consumes them).
pub struct Renderable {
    pub mesh: MeshData,
    pub transform: Vec<u8>,
    pub camera: Vec<u8>,
}

/// The mathematical content of a `Renderable`.
#[verifier::ext_equal]
pub struct RenderableModel {
    pub vertex_bytes: Seq<u8>,
    pub index_bytes: Seq<u8>,
    pub transform: Seq<u8>,
    pub camera: Seq<u8>,
}

impl View for Renderable {
    type V = RenderableModel;

    open spec fn view(&self) -> RenderableModel {
        RenderableModel {
            vertex_bytes: self.mesh.vertex_bytes@,
            index_bytes: self.mesh.index_bytes@,
            transform: self.transform@,
            camera: self.camera@,
        }
    }
}

impl Renderable {
    /// The mesh is well formed and each matrix is exactly 64 bytes.
    pub open spec fn wf(&self) -> bool {
        &&& self.mesh.wf()
        &&& self.transform@.len() == MATRIX_BYTES as int
        &&& self.camera@.len() == MATRIX_BYTES as int
    }

    /// Build a draw request; rejects matrix byte strings that are not
    /// exactly one 4x4 float matrix each.
    pub fn new(mesh: MeshData, transform: Vec<u8>, camera: Vec<u8>) -> (r: Option<Renderable>)
        requires
            mesh.wf(),
        ensures
            match r {
                Some(renderable) => {
                    &&& renderable.wf()
                    &&& renderable@ == (RenderableModel {
                        vertex_bytes: mesh.vertex_bytes@,
                        index_bytes: mesh.index_bytes@,
                        transform: transform@,
                        camera: camera@,
                    })
                },
                None => transform@.len() != MATRIX_BYTES as int
                    || camera@.len() != MATRIX_BYTES as int,
            },
    {
        if transform.len() == MATRIX_BYTES && camera.len() == MATRIX_BYTES {
            Some(Renderable { mesh, transform, camera })
        } else {
            None
        }
    }
}

/// An ordered sequence of draw requests plus the clear color for the pass.
pub struct Frame {
    pub clear_color: ClearColor,
    pub renderables: Vec<Renderable>,
}

impl Frame {
    /// Every renderable in the frame is well formed.
    pub open spec fn wf(&self) -> bool {
        forall|i: int| 0 <= i < self.renderables@.len() ==> #[trigger] self.renderables@[i].wf()
    }

    /// An empty frame clearing to opaque white.
    pub fn new() -> (f: Frame)
        ensures
            f.renderables@.len() == 0,
            f.clear_color == (ClearColor { r: ONE_BITS, g: ONE_BITS, b: ONE_BITS, a: ONE_BITS }),
            f.wf(),
    {
        Frame { clear_color: ClearColor::white(), renderables: Vec::new() }
    }

    /// Append one draw request; it will be drawn after all earlier ones.
    pub fn push(&mut self, renderable: Renderable)
        requires
            renderable.wf(),
        ensures
            final(self).renderables@ == old(self).renderables@.push(renderable),
            final(self).clear_color == old(self).clear_color,
            old(self).wf() ==> final(self).wf(),
    {
        self.renderables.push(renderable);
    }
}

} // verus!
