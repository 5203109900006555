//! The state the GPU resource manager must keep consistent: surface and
//! depth-buffer dimensions, the camera's aspect source, the current mesh,
//! and the device-side vertex and index buffer mirrors.
//!
//! The buffers are modelled as the value sequences the device holds. They
//! are created once, sized by the startup mesh, and later rewritten in
//! place: a write overwrites a prefix and leaves the tail as it was, as a
//! partial buffer upload does. The well-formedness invariant ties all of it
//! together: depth buffer and camera aspect always match the surface, the
//! buffer prefixes hold exactly the current mesh, and every index the
//! device could draw refers to a vertex that exists.

use crate::bits::f32_bits_test_zero;
use crate::bits::f32_bits_trunc;
use crate::input_manager::InputManager;
use crate::model::Mesh;
use crate::model::Vertex;
use crate::model::circle_fan_indices;
use vstd::prelude::*;
use vstd::slice::slice_to_vec;

verus! {

/// Why a renderer operation was rejected.
#[derive(Clone, Copy, Debug, PartialEq, Eq, Structural)]
pub enum RendererError {
    /// A resize to a zero width or height.
    InvalidSize,
    /// A circle regeneration below the three-vertex floor.
    ResolutionTooSmall,
    /// A regenerated mesh that would not fit the buffers created at
    /// startup.
    MeshTooLarge,
}

/// A buffer after a partial upload: the data replaces a prefix, the tail
/// keeps its old contents.
pub open spec fn overwrite_prefix<T>(buffer: Seq<T>, data: Seq<T>) -> Seq<T>
    recommends
        data.len() <= buffer.len(),
{
    data + buffer.skip(data.len() as int)
}

/// The resolution a wheel step asks for: the current vertex count less the
/// step, floored at the generator's own minimum of three.
pub open spec fn spec_wheel_resolution(current: int, step: int) -> int {
    if current - step >= 3 {
        current - step
    } else {
        3
    }
}

/// The host- and device-side state the renderer keeps in step with the
/// window: dimensions, the current mesh, and the buffer mirrors.
pub struct Renderer {
    /// Width the presentable surface is configured to.
    pub surface_width: u32,
    /// Height the presentable surface is configured to.
    pub surface_height: u32,
    /// Width of the depth buffer; always matches the surface.
    pub depth_width: u32,
    /// Height of the depth buffer; always matches the surface.
    pub depth_height: u32,
    /// Width the camera's aspect ratio is derived from.
    pub aspect_width: u32,
    /// Height the camera's aspect ratio is derived from.
    pub aspect_height: u32,
    /// The host-side mesh most recently generated.
    pub mesh: Mesh,
    /// The device-side vertex buffer contents; fixed length since startup.
    pub vertex_buffer: Vec<Vertex>,
    /// The device-side index buffer contents; fixed length since startup.
    pub index_buffer: Vec<u32>,
}

impl Renderer {
    /// Well-formedness: nonzero surface; depth buffer and aspect source in
    /// step with the surface; a well-formed current mesh that fits the
    /// buffers and stands in their prefixes; and no index anywhere in the
    /// index buffer — current or stale tail — outside the vertex buffer.
    pub open spec fn wf(self) -> bool {
        &&& self.surface_width > 0 && self.surface_height > 0
        &&& self.depth_width == self.surface_width && self.depth_height == self.surface_height
        &&& self.aspect_width == self.surface_width && self.aspect_height == self.surface_height
        &&& self.mesh.wf()
        &&& 3 <= self.mesh.vertices@.len()
        &&& self.mesh.vertices@.len() <= self.vertex_buffer@.len()
        &&& self.mesh.indices@.len() <= self.index_buffer@.len()
        &&& self.vertex_buffer@.len() <= u32::MAX
        &&& self.vertex_buffer@.subrange(0, self.mesh.vertices@.len() as int) == self.mesh.vertices@
        &&& self.index_buffer@.subrange(0, self.mesh.indices@.len() as int) == self.mesh.indices@
        &&& forall|i: int|
            0 <= i < self.index_buffer@.len() ==> (#[trigger] self.index_buffer@[i])
                < self.vertex_buffer@.len()
    }

    /// A renderer presenting to a `width` by `height` surface, drawing
    /// `mesh`, with freshly created buffers holding exactly the mesh.
    pub fn new(mesh: Mesh, width: u32, height: u32) -> (r: Renderer)
        requires
            width > 0,
            height > 0,
            mesh.wf(),
            3 <= mesh.vertices@.len(),
            mesh.vertices@.len() <= u32::MAX,
        ensures
            r.wf(),
            r.surface_width == width,
            r.surface_height == height,
            r.mesh == mesh,
            r.vertex_buffer@ == mesh.vertices@,
            r.index_buffer@ == mesh.indices@,
    {
        let vertex_buffer: Vec<Vertex> = slice_to_vec(mesh.vertices.as_slice());
        let index_buffer: Vec<u32> = slice_to_vec(mesh.indices.as_slice());
        proof {
            assert(vertex_buffer@.subrange(0, mesh.vertices@.len() as int) =~= mesh.vertices@);
            assert(index_buffer@.subrange(0, mesh.indices@.len() as int) =~= mesh.indices@);
        }
        Renderer {
            surface_width: width,
            surface_height: height,
            depth_width: width,
            depth_height: height,
            aspect_width: width,
            aspect_height: height,
            mesh,
            vertex_buffer,
            index_buffer,
        }
    }

    /// Whether `post` is this renderer resized to `width` by `height`:
    /// surface, depth buffer and aspect source all carry the new size
    /// together, and the mesh and both buffers are untouched.
    pub open spec fn resized_to(self, post: Renderer, width: u32, height: u32) -> bool {
        &&& post.surface_width == width && post.surface_height == height
        &&& post.depth_width == width && post.depth_height == height
        &&& post.aspect_width == width && post.aspect_height == height
        &&& post.mesh == self.mesh
        &&& post.vertex_buffer == self.vertex_buffer
        &&& post.index_buffer == self.index_buffer
    }

    /// Take the new window size: reconfigure the surface, recreate the
    /// depth buffer to match, and re-derive the camera aspect — all three
    /// together, or, for a zero dimension, none of them.
    pub fn resize(&mut self, width: u32, height: u32) -> (r: Result<(), RendererError>)
        requires
            old(self).wf(),
        ensures
            final(self).wf(),
            (width > 0 && height > 0) <==> r is Ok,
            r is Err ==> r == Err::<(), RendererError>(RendererError::InvalidSize) && *final(self)
                == *old(self),
            r is Ok ==> old(self).resized_to(*final(self), width, height),
    {
        if width > 0 && height > 0 {
            self.surface_width = width;
            self.surface_height = height;
            self.depth_width = width;
            self.depth_height = height;
            self.aspect_width = width;
            self.aspect_height = height;
            Ok(())
        } else {
            Err(RendererError::InvalidSize)
        }
    }

    /// The circle resolution to regenerate at this tick, or nothing when
    /// the wheel did not move. The resolution is the current vertex count
    /// less the wheel's vertical step, floored at three.
    pub fn wheel_resolution(&self, input: &InputManager) -> (r: Option<usize>)
        requires
            self.wf(),
        ensures
            (r is Some) <==> !(crate::bits::f32_bits_is_zero(input@.mouse_delta.0)
                && crate::bits::f32_bits_is_zero(input@.mouse_delta.1)),
            r matches Some(n) ==> n == spec_wheel_resolution(
                self.mesh.vertices@.len() as int,
                crate::bits::f32_bits_trunc_spec(input@.mouse_delta.1) as int,
            ),
    {
        let (dx_bits, dy_bits) = input.mouse_delta();
        if f32_bits_test_zero(dx_bits) && f32_bits_test_zero(dy_bits) {
            return None;
        }
        let step: u64 = f32_bits_trunc(dy_bits);
        let current: usize = self.mesh.vertices.len();
        if step <= current as u64 - 3 {
            Some((current as u64 - step) as usize)
        } else {
            Some(3)
        }
    }

    /// Make `mesh` the drawn mesh: store it and upload both buffers, each
    /// write overwriting a prefix and leaving the tail as it was.
    pub fn apply_mesh(&mut self, mesh: Mesh)
        requires
            old(self).wf(),
            mesh.wf(),
            3 <= mesh.vertices@.len(),
            mesh.vertices@.len() <= old(self).vertex_buffer@.len(),
            mesh.indices@.len() <= old(self).index_buffer@.len(),
        ensures
            final(self).wf(),
            final(self).surface_width == old(self).surface_width,
            final(self).surface_height == old(self).surface_height,
            final(self).depth_width == old(self).depth_width,
            final(self).depth_height == old(self).depth_height,
            final(self).aspect_width == old(self).aspect_width,
            final(self).aspect_height == old(self).aspect_height,
            final(self).mesh == mesh,
            final(self).vertex_buffer@ == overwrite_prefix(
                old(self).vertex_buffer@,
                mesh.vertices@,
            ),
            final(self).index_buffer@ == overwrite_prefix(old(self).index_buffer@, mesh.indices@),
    {
        let new_vertices: Vec<Vertex> = write_prefix(&self.vertex_buffer, &mesh.vertices);
        let new_indices: Vec<u32> = write_prefix(&self.index_buffer, &mesh.indices);
        self.vertex_buffer = new_vertices;
        self.index_buffer = new_indices;
        self.mesh = mesh;
        proof {
            let vb = self.vertex_buffer@;
            let ib = self.index_buffer@;
            let m = self.mesh;
            assert(vb.subrange(0, m.vertices@.len() as int) =~= m.vertices@);
            assert(ib.subrange(0, m.indices@.len() as int) =~= m.indices@);
            assert forall|i: int| 0 <= i < ib.len() implies (#[trigger] ib[i]) < vb.len() by {
                if i < m.indices@.len() {
                    assert(ib[i] == m.indices@[i]);
                } else {
                    assert(ib[i] == old(self).index_buffer@[i]);
                }
            }
        }
    }

    /// Regenerate the drawn circle from a freshly computed ring of
    /// vertices: validate it, fan-triangulate it, and upload both buffers.
    /// A ring below the three-vertex floor, or one whose mesh would not
    /// fit the buffers created at startup, is rejected with nothing
    /// touched.
    pub fn regenerate(&mut self, ring: &[Vertex]) -> (r: Result<(), RendererError>)
        requires
            old(self).wf(),
        ensures
            final(self).wf(),
            ring@.len() < 3 ==> r == Err::<(), RendererError>(RendererError::ResolutionTooSmall)
                && *final(self) == *old(self),
            ring@.len() >= 3 && (ring@.len() > old(self).vertex_buffer@.len() || 3 * (ring@.len()
                - 2) > old(self).index_buffer@.len()) ==> r == Err::<(), RendererError>(
                RendererError::MeshTooLarge,
            ) && *final(self) == *old(self),
            ring@.len() >= 3 && ring@.len() <= old(self).vertex_buffer@.len() && 3 * (ring@.len()
                - 2) <= old(self).index_buffer@.len() ==> r == Ok::<(), RendererError>(())
                && final(self).mesh.vertices@ == ring@ && final(self).mesh.indices@
                == circle_fan_indices(ring@.len() as int) && final(self).vertex_buffer@
                == overwrite_prefix(old(self).vertex_buffer@, ring@) && final(self).index_buffer@
                == overwrite_prefix(
                old(self).index_buffer@,
                circle_fan_indices(ring@.len() as int),
            ) && final(self).surface_width == old(self).surface_width && final(self).surface_height
                == old(self).surface_height,
    {
        if ring.len() < 3 {
            return Err(RendererError::ResolutionTooSmall);
        }
        if ring.len() > self.vertex_buffer.len() {
            return Err(RendererError::MeshTooLarge);
        }
        let fan_len: u64 = 3u64 * (ring.len() as u64 - 2);
        if fan_len > self.index_buffer.len() as u64 {
            return Err(RendererError::MeshTooLarge);
        }
        match Mesh::create_circle(ring) {
            Ok(mesh) => {
                self.apply_mesh(mesh);
                Ok(())
            },
            Err(_) => {
                proof {
                    assert(false);
                }
                Err(RendererError::ResolutionTooSmall)
            },
        }
    }

    /// How many indices one full draw covers: the whole index buffer,
    /// stale tail included.
    pub fn draw_index_count(&self) -> (r: usize)
        ensures
            r == self.index_buffer@.len(),
    {
        self.index_buffer.len()
    }
}

/// Writing a mesh to the buffers and reading the buffers back yields
/// exactly the sequences the mesh held — same order, same length, nothing
/// truncated — while the tails beyond the written prefixes are untouched.
pub proof fn lemma_buffer_write_round_trip<T>(buffer: Seq<T>, data: Seq<T>)
    requires
        data.len() <= buffer.len(),
    ensures
        overwrite_prefix(buffer, data).len() == buffer.len(),
        overwrite_prefix(buffer, data).subrange(0, data.len() as int) == data,
        overwrite_prefix(buffer, data).skip(data.len() as int) == buffer.skip(data.len() as int),
{
    assert(overwrite_prefix(buffer, data).subrange(0, data.len() as int) =~= data);
    assert(overwrite_prefix(buffer, data).skip(data.len() as int) =~= buffer.skip(
        data.len() as int,
    ));
}

/// The buffer contents after a partial upload of `data` over `buffer`.
fn write_prefix<T: Copy>(buffer: &Vec<T>, data: &Vec<T>) -> (r: Vec<T>)
    requires
        data@.len() <= buffer@.len(),
    ensures
        r@ == overwrite_prefix(buffer@, data@),
{
    let mut out: Vec<T> = Vec::new();
    let mut i: usize = 0;
    while i < data.len()
        invariant
            i <= data@.len() <= buffer@.len(),
            out@ == data@.take(i as int),
        decreases data@.len() - i,
    {
        out.push(data[i]);
        proof {
            assert(out@ =~= data@.take(i + 1));
        }
        i = i + 1;
    }
    proof {
        assert(out@ =~= data@ + buffer@.subrange(data@.len() as int, data@.len() as int));
    }
    while i < buffer.len()
        invariant
            data@.len() <= i <= buffer@.len(),
            out@ == data@ + buffer@.subrange(data@.len() as int, i as int),
        decreases buffer@.len() - i,
    {
        out.push(buffer[i]);
        proof {
            assert(out@ =~= data@ + buffer@.subrange(data@.len() as int, i + 1));
        }
        i = i + 1;
    }
    proof {
        assert(out@ =~= overwrite_prefix(buffer@, data@));
    }
    out
}

} // verus!
