use grass::bits::{f32_bits_test_zero, f32_bits_trunc};
use grass::model::{Mesh, MeshError, Vertex, F32_NEG_ONE_BITS, F32_ONE_BITS, F32_ZERO_BITS};

/// The ring of vertices the embedder computes for a circle of the given
/// resolution: evenly spaced points on the unit circle, texture
/// coordinates mapped from the position.
fn circle_ring(resolution: usize) -> Vec<Vertex> {
    let step = std::f32::consts::TAU / resolution as f32;
    let mut ring = Vec::new();
    for i in 0..resolution {
        let x = (step * i as f32).cos();
        let y = (step * i as f32).sin();
        ring.push(Vertex {
            x_bits: x.to_bits(),
            y_bits: y.to_bits(),
            z_bits: 0.0f32.to_bits(),
            u_bits: (x * 0.5 + 0.5).to_bits(),
            v_bits: (1.0 - (y * 0.5 + 0.5)).to_bits(),
        });
    }
    ring
}

#[test]
fn circle_fails_below_three_vertices() {
    for n in 0..3usize {
        let ring = circle_ring(n);
        let r = Mesh::create_circle(&ring);
        assert!(matches!(r, Err(MeshError::ResolutionTooSmall)));
    }
}

#[test]
fn circle_of_eight_has_eight_vertices_and_six_triangles() {
    let ring = circle_ring(8);
    let mesh = Mesh::create_circle(&ring).unwrap();
    assert_eq!(mesh.vertices.len(), 8);
    assert_eq!(mesh.indices.len(), 18);
    for &index in &mesh.indices {
        assert!(index < 8);
    }
    assert_eq!(mesh.vertices, ring);
}

#[test]
fn circle_fan_indices_follow_the_fan_rule() {
    let ring = circle_ring(5);
    let mesh = Mesh::create_circle(&ring).unwrap();
    assert_eq!(mesh.indices, vec![0, 1, 2, 0, 2, 3, 0, 3, 4]);
}

#[test]
fn circle_of_three_is_one_triangle() {
    let ring = circle_ring(3);
    let mesh = Mesh::create_circle(&ring).unwrap();
    assert_eq!(mesh.vertices.len(), 3);
    assert_eq!(mesh.indices, vec![0, 1, 2]);
}

#[test]
fn circle_generation_is_deterministic() {
    let a = Mesh::create_circle(&circle_ring(8)).unwrap();
    let b = Mesh::create_circle(&circle_ring(8)).unwrap();
    assert_eq!(a.vertices, b.vertices);
    assert_eq!(a.indices, b.indices);
}

#[test]
fn rectangle_is_a_fixed_quad() {
    let mesh = Mesh::create_rectangle();
    assert_eq!(mesh.vertices.len(), 4);
    assert_eq!(mesh.indices, vec![0, 1, 2, 0, 2, 3]);
}

#[test]
fn rectangle_corners_match_unit_values() {
    let mesh = Mesh::create_rectangle();
    // Each row: position x, y and texture u, v (z is always zero).
    let expected = [
        (-1.0f32, 1.0f32, 0.0f32, 0.0f32),
        (-1.0, -1.0, 0.0, 1.0),
        (1.0, -1.0, 1.0, 1.0),
        (1.0, 1.0, 1.0, 0.0),
    ];
    for (vertex, &(x, y, u, v)) in mesh.vertices.iter().zip(expected.iter()) {
        assert_eq!(vertex.x_bits, x.to_bits());
        assert_eq!(vertex.y_bits, y.to_bits());
        assert_eq!(vertex.z_bits, 0.0f32.to_bits());
        assert_eq!(vertex.u_bits, u.to_bits());
        assert_eq!(vertex.v_bits, v.to_bits());
    }
}

#[test]
fn bit_constants_match_the_float_encodings() {
    assert_eq!(F32_ONE_BITS, 1.0f32.to_bits());
    assert_eq!(F32_NEG_ONE_BITS, (-1.0f32).to_bits());
    assert_eq!(F32_ZERO_BITS, 0.0f32.to_bits());
}

#[test]
fn mesh_new_stores_exactly_what_it_is_given() {
    let ring = circle_ring(4);
    let indices = [0u32, 1, 2, 0, 2, 3];
    let mesh = Mesh::new(&ring, &indices);
    assert_eq!(mesh.vertices, ring);
    assert_eq!(mesh.indices, indices.to_vec());
}

#[test]
fn zero_test_matches_float_comparison() {
    for value in [0.0f32, -0.0, 1.0, -1.0, 0.5, f32::MIN_POSITIVE, 1e-40] {
        assert_eq!(f32_bits_test_zero(value.to_bits()), value == 0.0);
    }
    assert!(!f32_bits_test_zero(f32::NAN.to_bits()));
}

#[test]
fn truncating_cast_matches_the_float_cast() {
    let samples = [
        0.0f32,
        -0.0,
        0.25,
        0.999,
        1.0,
        1.5,
        2.0,
        3.0,
        123.99,
        1024.0,
        16_777_215.0,
        1e10,
        1e19,
        3e38,
        -0.5,
        -1.0,
        -5.7,
        -1e10,
        f32::INFINITY,
        f32::NEG_INFINITY,
        f32::MAX,
        f32::MIN_POSITIVE,
    ];
    for value in samples {
        assert_eq!(f32_bits_trunc(value.to_bits()), value as u64, "value {value}");
    }
    assert_eq!(f32_bits_trunc(f32::NAN.to_bits()), 0);
}
