use glb_export::bounds::bounding_coords;
use glb_export::glb::align_to_multiple_of_four;
use glb_export::gpu::gpu_vertex_components;

fn record(pos: [f32; 3], rest: [f32; 6]) -> Vec<u32> {
    let mut r: Vec<u32> = pos.iter().map(|f| f.to_bits()).collect();
    r.extend(rest.iter().map(|f| f.to_bits()));
    r
}

#[test]
fn alignment_rounds_up_to_four() {
    let cases = [(0usize, 0usize), (1, 4), (2, 4), (3, 4), (4, 4), (5, 8), (36, 36), (37, 40)];
    for (input, expected) in cases {
        let mut n = input;
        align_to_multiple_of_four(&mut n);
        assert_eq!(n, expected);
    }
}

#[test]
fn bounding_coords_fold_componentwise() {
    let mut stream = record([1.0, -2.0, 3.0], [0.0; 6]);
    stream.extend(record([-4.0, 5.0, 0.5], [0.0; 6]));
    let bb = bounding_coords(&stream);
    assert_eq!(f32::from_bits(bb.min.x), -4.0);
    assert_eq!(f32::from_bits(bb.min.y), -2.0);
    assert_eq!(f32::from_bits(bb.min.z), 0.5);
    assert_eq!(f32::from_bits(bb.max.x), 1.0);
    assert_eq!(f32::from_bits(bb.max.y), 5.0);
    assert_eq!(f32::from_bits(bb.max.z), 3.0);
}

#[test]
fn bounding_coords_of_empty_stream_are_the_sentinels() {
    let stream: Vec<u32> = Vec::new();
    let bb = bounding_coords(&stream);
    assert_eq!(f32::from_bits(bb.min.x), f32::INFINITY);
    assert_eq!(f32::from_bits(bb.max.x), f32::NEG_INFINITY);
}

#[test]
fn bounding_coords_skip_nan_like_ieee_min_max() {
    let mut stream = record([f32::NAN, 2.0, 3.0], [0.0; 6]);
    stream.extend(record([-1.0, 4.0, 1.0], [0.0; 6]));
    let bb = bounding_coords(&stream);
    // A NaN operand yields the other operand, so the x bounds come from
    // the remaining record and the sentinel.
    assert_eq!(f32::from_bits(bb.min.x), -1.0);
    assert_eq!(f32::from_bits(bb.max.x), -1.0);
    assert_eq!(f32::from_bits(bb.min.y), 2.0);
    assert_eq!(f32::from_bits(bb.max.y), 4.0);
}

#[test]
fn gpu_records_are_padded_with_ones() {
    let stream = record([1.5, 2.5, 3.5], [0.0, 0.0, 1.0, 0.25, 0.5, 0.75]);
    let wide = gpu_vertex_components(&stream);
    assert_eq!(wide.len(), 12);
    let f: Vec<f32> = wide.iter().map(|b| f32::from_bits(*b)).collect();
    assert_eq!(&f[0..4], &[1.5, 2.5, 3.5, 1.0]);
    assert_eq!(&f[4..8], &[0.0, 0.0, 1.0, 1.0]);
    assert_eq!(&f[8..12], &[0.25, 0.5, 0.75, 1.0]);
}

#[test]
fn gpu_stream_widens_every_record() {
    let mut stream = record([1.0, 2.0, 3.0], [4.0, 5.0, 6.0, 7.0, 8.0, 9.0]);
    stream.extend(record([-1.0, -2.0, -3.0], [-4.0, -5.0, -6.0, -7.0, -8.0, -9.0]));
    let wide = gpu_vertex_components(&stream);
    assert_eq!(wide.len(), 24);
    assert_eq!(f32::from_bits(wide[12]), -1.0);
    assert_eq!(f32::from_bits(wide[15]), 1.0);
    assert_eq!(f32::from_bits(wide[23]), 1.0);
}
