//! Mesh topology for the parametric shapes the renderer draws.
//!
//! A mesh is an ordered vertex sequence and an ordered index sequence
//! forming a triangle list. Vertex attributes are carried as the raw
//! IEEE-754 single-precision words the GPU consumes; the topology — counts,
//! fan triangulation, index bounds — is what this module computes and what
//! its contracts pin down.

use vstd::prelude::*;
use vstd::slice::slice_to_vec;

verus! {

/// The single-precision word for the value one.
pub const F32_ONE_BITS: u32 = 0x3F80_0000;

/// The single-precision word for the value minus one.
pub const F32_NEG_ONE_BITS: u32 = 0xBF80_0000;

/// The single-precision word for positive zero.
pub const F32_ZERO_BITS: u32 = 0;

/// One vertex: a position and a texture coordinate, each component a raw
/// IEEE-754 single-precision word.
#[derive(Clone, Copy, Debug, PartialEq, Eq, Structural)]
pub struct Vertex {
    /// First position component.
    pub x_bits: u32,
    /// Second position component.
    pub y_bits: u32,
    /// Third position component.
    pub z_bits: u32,
    /// First texture coordinate.
    pub u_bits: u32,
    /// Second texture coordinate.
    pub v_bits: u32,
}

/// Why a mesh could not be generated.
#[derive(Clone, Copy, Debug, PartialEq, Eq, Structural)]
pub enum MeshError {
    /// A circle needs a resolution of at least three vertices.
    ResolutionTooSmall,
}

/// The corners of the fixed quad: (-1, 1), (-1, -1), (1, -1), (1, 1), with
/// texture coordinates mapping the quad onto the whole unit square.
pub open spec fn rectangle_vertices() -> Seq<Vertex> {
    seq![
        Vertex {
            x_bits: F32_NEG_ONE_BITS,
            y_bits: F32_ONE_BITS,
            z_bits: F32_ZERO_BITS,
            u_bits: F32_ZERO_BITS,
            v_bits: F32_ZERO_BITS,
        },
        Vertex {
            x_bits: F32_NEG_ONE_BITS,
            y_bits: F32_NEG_ONE_BITS,
            z_bits: F32_ZERO_BITS,
            u_bits: F32_ZERO_BITS,
            v_bits: F32_ONE_BITS,
        },
        Vertex {
            x_bits: F32_ONE_BITS,
            y_bits: F32_NEG_ONE_BITS,
            z_bits: F32_ZERO_BITS,
            u_bits: F32_ONE_BITS,
            v_bits: F32_ONE_BITS,
        },
        Vertex {
            x_bits: F32_ONE_BITS,
            y_bits: F32_ONE_BITS,
            z_bits: F32_ZERO_BITS,
            u_bits: F32_ONE_BITS,
            v_bits: F32_ZERO_BITS,
        },
    ]
}

/// The two-triangle fan of the fixed quad.
pub open spec fn rectangle_indices() -> Seq<u32> {
    seq![0u32, 1u32, 2u32, 0u32, 2u32, 3u32]
}

/// The fan triangulation of a convex polygon with `resolution` vertices:
/// for each triangle `t` in `0..resolution - 2`, the indices
/// `(0, t + 1, t + 2)`.
pub open spec fn circle_fan_indices(resolution: int) -> Seq<u32> {
    Seq::new(
        (3 * (resolution - 2)) as nat,
        |i: int|
            if i % 3 == 0 {
                0u32
            } else if i % 3 == 1 {
                (i / 3 + 1) as u32
            } else {
                (i / 3 + 2) as u32
            },
    )
}

/// An ordered vertex sequence and an ordered triangle-list index sequence.
#[derive(Debug)]
pub struct Mesh {
    /// The vertices, in the order the generator produced them.
    pub vertices: Vec<Vertex>,
    /// Indices into `vertices`, three per triangle.
    pub indices: Vec<u32>,
}

impl Mesh {
    /// Well-formedness: whole triangles only, and every index refers to a
    /// vertex that exists.
    pub open spec fn wf(self) -> bool {
        &&& self.indices@.len() % 3 == 0
        &&& forall|i: int|
            0 <= i < self.indices@.len() ==> (#[trigger] self.indices@[i]) < self.vertices@.len()
    }

    /// A mesh holding exactly the given vertices and indices.
    pub fn new(vertices: &[Vertex], indices: &[u32]) -> (m: Mesh)
        ensures
            m.vertices@ == vertices@,
            m.indices@ == indices@,
    {
        Mesh { vertices: slice_to_vec(vertices), indices: slice_to_vec(indices) }
    }

    /// A circle approximation: the given ring of vertices — one per step
    /// around the circle, as many as the requested resolution — fan
    /// triangulated from vertex zero. Fails, touching nothing, when fewer
    /// than three vertices are given.
    pub fn create_circle(ring: &[Vertex]) -> (r: Result<Mesh, MeshError>)
        requires
            ring@.len() <= u32::MAX,
        ensures
            ring@.len() < 3 ==> r == Err::<Mesh, MeshError>(MeshError::ResolutionTooSmall),
            ring@.len() >= 3 ==> (r matches Ok(m) && m.vertices@ == ring@ && m.indices@
                == circle_fan_indices(ring@.len() as int) && m.wf()),
    {
        if ring.len() < 3 {
            return Err(MeshError::ResolutionTooSmall);
        }

        let vertices: Vec<Vertex> = slice_to_vec(ring);
        let mut indices: Vec<u32> = Vec::new();
        let ghost all = circle_fan_indices(ring@.len() as int);

        let num_triangles: usize = ring.len() - 2;
        let mut t: usize = 0;
        while t < num_triangles
            invariant
                num_triangles == ring@.len() - 2,
                3 <= ring@.len() <= u32::MAX,
                t <= num_triangles,
                all == circle_fan_indices(ring@.len() as int),
                indices@ == all.take(3 * t as int),
            decreases num_triangles - t,
        {
            indices.push(0);
            indices.push(t as u32 + 1);
            indices.push(t as u32 + 2);
            proof {
                assert(all[3 * t as int] == 0u32);
                assert(all[3 * t as int + 1] == (t + 1) as u32);
                assert(all[3 * t as int + 2] == (t + 2) as u32);
                assert(indices@ =~= all.take(3 * (t + 1) as int));
            }
            t = t + 1;
        }

        proof {
            assert(indices@ =~= all);
            assert forall|i: int| 0 <= i < all.len() implies (#[trigger] all[i])
                < ring@.len() by {
                assert(i / 3 < ring@.len() - 2);
            }
        }
        Ok(Mesh { vertices, indices })
    }

    /// The fixed quad: four corner vertices and the two-triangle fan
    /// `[0, 1, 2, 0, 2, 3]`.
    pub fn create_rectangle() -> (m: Mesh)
        ensures
            m.vertices@ == rectangle_vertices(),
            m.indices@ == rectangle_indices(),
            m.wf(),
    {
        let mut vertices: Vec<Vertex> = Vec::new();
        vertices.push(
            Vertex {
                x_bits: F32_NEG_ONE_BITS,
                y_bits: F32_ONE_BITS,
                z_bits: F32_ZERO_BITS,
                u_bits: F32_ZERO_BITS,
                v_bits: F32_ZERO_BITS,
            },
        );
        vertices.push(
            Vertex {
                x_bits: F32_NEG_ONE_BITS,
                y_bits: F32_NEG_ONE_BITS,
                z_bits: F32_ZERO_BITS,
                u_bits: F32_ZERO_BITS,
                v_bits: F32_ONE_BITS,
            },
        );
        vertices.push(
            Vertex {
                x_bits: F32_ONE_BITS,
                y_bits: F32_NEG_ONE_BITS,
                z_bits: F32_ZERO_BITS,
                u_bits: F32_ONE_BITS,
                v_bits: F32_ONE_BITS,
            },
        );
        vertices.push(
            Vertex {
                x_bits: F32_ONE_BITS,
                y_bits: F32_ONE_BITS,
                z_bits: F32_ZERO_BITS,
                u_bits: F32_ONE_BITS,
                v_bits: F32_ZERO_BITS,
            },
        );

        let mut indices: Vec<u32> = Vec::new();
        indices.push(0);
        indices.push(1);
        indices.push(2);
        indices.push(0);
        indices.push(2);
        indices.push(3);

        proof {
            assert(vertices@ =~= rectangle_vertices());
            assert(indices@ =~= rectangle_indices());
        }
        Mesh { vertices, indices }
    }
}

} // verus!
