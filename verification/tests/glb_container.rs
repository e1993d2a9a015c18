use glb_export::mesh::{Mesh, Tri, V3F64};
use glb_export::normalize::TARGET_SIZE_BITS;
use glb_export::pipeline::export_glb;

fn v3(x: f64, y: f64, z: f64) -> V3F64 {
    V3F64 { x: x.to_bits(), y: y.to_bits(), z: z.to_bits() }
}

fn single_triangle() -> Mesh {
    let positions = vec![v3(0.0, 0.0, 0.0), v3(1.0, 0.0, 0.0), v3(0.0, 1.0, 0.0)];
    let normals = vec![v3(0.0, 0.0, 1.0); 3];
    let colors = vec![v3(1.0, 0.0, 0.0); 3];
    let tris = vec![Tri { a: 0, b: 1, c: 2 }];
    Mesh::new(positions, normals, colors, tris).unwrap()
}

fn le32_at(bytes: &[u8], at: usize) -> u32 {
    u32::from_le_bytes([bytes[at], bytes[at + 1], bytes[at + 2], bytes[at + 3]])
}

#[test]
fn glb_header_and_chunk_layout() {
    let glb = export_glb(single_triangle(), TARGET_SIZE_BITS).unwrap();
    assert_eq!(&glb[0..4], b"glTF");
    assert_eq!(le32_at(&glb, 4), 2);
    assert_eq!(le32_at(&glb, 8) as usize, glb.len());
    let json_len = le32_at(&glb, 12) as usize;
    assert_eq!(&glb[16..20], b"JSON");
    assert_eq!(json_len % 4, 0);
    let bin_header = 20 + json_len;
    let bin_len = le32_at(&glb, bin_header) as usize;
    assert_eq!(&glb[bin_header + 4..bin_header + 8], b"BIN\0");
    assert_eq!(bin_len % 4, 0);
    // totalLength = 12-byte header + two 8-byte chunk headers + both chunks.
    assert_eq!(glb.len(), 12 + 8 + json_len + 8 + bin_len);
    // Three corner records of nine four-byte components each.
    assert_eq!(bin_len, 3 * 9 * 4);
}

#[test]
fn json_chunk_is_padded_with_spaces() {
    let glb = export_glb(single_triangle(), TARGET_SIZE_BITS).unwrap();
    let json_len = le32_at(&glb, 12) as usize;
    let json = &glb[20..20 + json_len];
    let text = std::str::from_utf8(json).unwrap();
    let trimmed = text.trim_end_matches(' ');
    assert!(trimmed.ends_with('}'));
    assert!(text.len() - trimmed.len() < 4);
}

#[test]
fn conformant_reader_sees_one_triangle_primitive() {
    let glb = export_glb(single_triangle(), TARGET_SIZE_BITS).unwrap();
    let gltf = gltf::Gltf::from_slice(&glb).unwrap();
    let doc = &gltf.document;
    assert_eq!(doc.meshes().count(), 1);
    let mesh = doc.meshes().next().unwrap();
    assert_eq!(mesh.primitives().count(), 1);
    let prim = mesh.primitives().next().unwrap();
    assert_eq!(prim.mode(), gltf::mesh::Mode::Triangles);
    assert!(prim.indices().is_none());
    assert_eq!(prim.attributes().count(), 3);
    let pos = prim.get(&gltf::Semantic::Positions).unwrap();
    let color = prim.get(&gltf::Semantic::Colors(0)).unwrap();
    let norm = prim.get(&gltf::Semantic::Normals).unwrap();
    assert_eq!(pos.count(), 3);
    assert_eq!(color.count(), 3);
    assert_eq!(norm.count(), 3);
    assert_eq!(doc.accessors().count(), 3);
    assert_eq!(doc.scenes().count(), 1);
    assert_eq!(doc.nodes().count(), 1);
}

#[test]
fn position_accessor_bounds_match_scenario() {
    let glb = export_glb(single_triangle(), TARGET_SIZE_BITS).unwrap();
    let gltf = gltf::Gltf::from_slice(&glb).unwrap();
    let doc = &gltf.document;
    let prim = doc.meshes().next().unwrap().primitives().next().unwrap();
    let pos = prim.get(&gltf::Semantic::Positions).unwrap();
    let min: Vec<f64> = pos
        .min()
        .unwrap()
        .as_array()
        .unwrap()
        .iter()
        .map(|v| v.as_f64().unwrap())
        .collect();
    let max: Vec<f64> = pos
        .max()
        .unwrap()
        .as_array()
        .unwrap()
        .iter()
        .map(|v| v.as_f64().unwrap())
        .collect();
    assert_eq!(min, vec![-100.0, -100.0, 0.0]);
    assert_eq!(max, vec![100.0, 100.0, 0.0]);
}

#[test]
fn accessor_offsets_follow_position_color_normal_order() {
    let glb = export_glb(single_triangle(), TARGET_SIZE_BITS).unwrap();
    let gltf = gltf::Gltf::from_slice(&glb).unwrap();
    let doc = &gltf.document;
    let prim = doc.meshes().next().unwrap().primitives().next().unwrap();
    assert_eq!(prim.get(&gltf::Semantic::Positions).unwrap().offset(), 0);
    assert_eq!(prim.get(&gltf::Semantic::Colors(0)).unwrap().offset(), 12);
    assert_eq!(prim.get(&gltf::Semantic::Normals).unwrap().offset(), 24);
    let view = prim.get(&gltf::Semantic::Positions).unwrap().view().unwrap();
    assert_eq!(view.stride(), Some(36));
}

#[test]
fn binary_chunk_interleaves_position_color_normal() {
    let glb = export_glb(single_triangle(), TARGET_SIZE_BITS).unwrap();
    let json_len = le32_at(&glb, 12) as usize;
    let bin = &glb[28 + json_len..];
    let mut f = Vec::new();
    for chunk in bin.chunks(4) {
        f.push(f32::from_bits(u32::from_le_bytes([chunk[0], chunk[1], chunk[2], chunk[3]])));
    }
    assert_eq!(f.len(), 27);
    // First corner: position, then color, then normal.
    assert_eq!(&f[0..3], &[-100.0, -100.0, 0.0]);
    assert_eq!(&f[3..6], &[1.0, 0.0, 0.0]);
    assert_eq!(&f[6..9], &[0.0, 0.0, 1.0]);
}
