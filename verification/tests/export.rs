use glb_export::ExportError;
use glb_export::mesh::{Mesh, Tri, V3F64};
use glb_export::normalize::TARGET_SIZE_BITS;
use glb_export::pipeline::{export_glb, export_raw_buffer};

fn v3(x: f64, y: f64, z: f64) -> V3F64 {
    V3F64 { x: x.to_bits(), y: y.to_bits(), z: z.to_bits() }
}

fn single_triangle() -> Mesh {
    let positions = vec![v3(0.0, 0.0, 0.0), v3(1.0, 0.0, 0.0), v3(0.0, 1.0, 0.0)];
    let normals = vec![v3(0.0, 0.0, 1.0); 3];
    let colors = vec![v3(1.0, 0.0, 0.0); 3];
    let tris = vec![Tri { a: 0, b: 1, c: 2 }];
    Mesh::new(positions, normals, colors, tris).unwrap()
}

fn floats_of(bits: &[u32]) -> Vec<f32> {
    bits.iter().map(|b| f32::from_bits(*b)).collect()
}

#[test]
fn target_size_is_two_hundred() {
    assert_eq!(TARGET_SIZE_BITS, 200.0f64.to_bits());
}

#[test]
fn three_records_normalized_scenario() {
    let out = export_raw_buffer(single_triangle(), TARGET_SIZE_BITS).unwrap();
    assert_eq!(out.len(), 27);
    let f = floats_of(&out);
    // Record layout is position, normal, color.
    assert_eq!(&f[0..3], &[-100.0, -100.0, 0.0]);
    assert_eq!(&f[3..6], &[0.0, 0.0, 1.0]);
    assert_eq!(&f[6..9], &[1.0, 0.0, 0.0]);
    assert_eq!(&f[9..12], &[100.0, -100.0, 0.0]);
    assert_eq!(&f[18..21], &[-100.0, 100.0, 0.0]);
}

#[test]
fn record_count_scales_with_triangles() {
    let positions = vec![
        v3(0.0, 0.0, 0.0),
        v3(1.0, 0.0, 0.0),
        v3(0.0, 1.0, 0.0),
        v3(1.0, 1.0, 0.5),
    ];
    let normals = vec![v3(0.0, 0.0, 1.0); 4];
    let colors = vec![v3(0.2, 0.4, 0.6); 4];
    let tris = vec![Tri { a: 0, b: 1, c: 2 }, Tri { a: 1, b: 3, c: 2 }];
    let mesh = Mesh::new(positions, normals, colors, tris).unwrap();
    let out = export_raw_buffer(mesh, TARGET_SIZE_BITS).unwrap();
    assert_eq!(out.len(), 27 * 2);
}

#[test]
fn empty_mesh_is_rejected_on_both_paths() {
    let empty = Mesh::new(vec![], vec![], vec![], vec![]).unwrap();
    assert_eq!(
        export_raw_buffer(empty, TARGET_SIZE_BITS).unwrap_err(),
        ExportError::EmptyMesh
    );
    let empty = Mesh::new(vec![], vec![], vec![], vec![]).unwrap();
    assert_eq!(export_glb(empty, TARGET_SIZE_BITS).unwrap_err(), ExportError::EmptyMesh);
}

#[test]
fn single_point_mesh_is_degenerate() {
    let p = v3(3.5, -2.0, 7.25);
    let positions = vec![p, p, p];
    let normals = vec![v3(0.0, 0.0, 1.0); 3];
    let colors = vec![v3(1.0, 1.0, 1.0); 3];
    let tris = vec![Tri { a: 0, b: 1, c: 2 }];
    let mesh = Mesh::new(positions.clone(), normals.clone(), colors.clone(), tris.clone())
        .unwrap();
    assert_eq!(
        export_raw_buffer(mesh, TARGET_SIZE_BITS).unwrap_err(),
        ExportError::DegenerateMesh
    );
    let mesh = Mesh::new(positions, normals, colors, tris).unwrap();
    let r = export_glb(mesh, TARGET_SIZE_BITS);
    assert_eq!(r.unwrap_err(), ExportError::DegenerateMesh);
}

#[test]
fn missing_attribute_is_a_read_error() {
    let positions = vec![v3(0.0, 0.0, 0.0), v3(1.0, 0.0, 0.0), v3(0.0, 1.0, 0.0)];
    let normals = vec![v3(0.0, 0.0, 1.0); 2];
    let colors = vec![v3(1.0, 0.0, 0.0); 3];
    let tris = vec![Tri { a: 0, b: 1, c: 2 }];
    let r = Mesh::new(positions, normals, colors, tris);
    assert_eq!(r.unwrap_err(), ExportError::MeshRead);
}

#[test]
fn out_of_range_index_is_a_read_error() {
    let positions = vec![v3(0.0, 0.0, 0.0), v3(1.0, 0.0, 0.0), v3(0.0, 1.0, 0.0)];
    let normals = vec![v3(0.0, 0.0, 1.0); 3];
    let colors = vec![v3(1.0, 0.0, 0.0); 3];
    let tris = vec![Tri { a: 0, b: 1, c: 3 }];
    let r = Mesh::new(positions, normals, colors, tris);
    assert_eq!(r.unwrap_err(), ExportError::MeshRead);
}

#[test]
fn normalized_bounds_are_centered_with_target_extent() {
    // Uneven extents: x spans 4 units, y spans 2, z spans 1.
    let positions = vec![
        v3(10.0, 5.0, -1.0),
        v3(14.0, 7.0, -0.5),
        v3(12.0, 6.0, 0.0),
    ];
    let normals = vec![v3(0.0, 0.0, 1.0); 3];
    let colors = vec![v3(1.0, 1.0, 1.0); 3];
    let tris = vec![Tri { a: 0, b: 1, c: 2 }];
    let mesh = Mesh::new(positions, normals, colors, tris).unwrap();
    let out = export_raw_buffer(mesh, TARGET_SIZE_BITS).unwrap();
    let f = floats_of(&out);
    let mut min = [f32::INFINITY; 3];
    let mut max = [f32::NEG_INFINITY; 3];
    for rec in f.chunks(9) {
        for axis in 0..3 {
            min[axis] = min[axis].min(rec[axis]);
            max[axis] = max[axis].max(rec[axis]);
        }
    }
    let tol = 1e-4f32;
    for axis in 0..3 {
        assert!((min[axis] + max[axis]).abs() < tol);
    }
    let largest = (max[0] - min[0]).max(max[1] - min[1]).max(max[2] - min[2]);
    assert!((largest - 200.0).abs() < tol);
}

#[test]
fn normals_and_colors_are_untouched_by_normalization() {
    let positions = vec![v3(10.0, 20.0, 30.0), v3(14.0, 20.0, 30.0), v3(10.0, 24.0, 30.0)];
    let normals = vec![v3(0.25, -0.5, 0.75); 3];
    let colors = vec![v3(0.125, 0.375, 0.625); 3];
    let tris = vec![Tri { a: 0, b: 1, c: 2 }];
    let mesh = Mesh::new(positions, normals, colors, tris).unwrap();
    let out = export_raw_buffer(mesh, TARGET_SIZE_BITS).unwrap();
    let f = floats_of(&out);
    assert_eq!(&f[3..6], &[0.25, -0.5, 0.75]);
    assert_eq!(&f[6..9], &[0.125, 0.375, 0.625]);
}
