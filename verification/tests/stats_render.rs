use astrocam::colormap::ColorMap;
use astrocam::framedata::FrameData;
use astrocam::pixel::Rgba8;

fn ramp_three_by_three() -> FrameData<u8> {
    FrameData { width: 3, height: 3, data: vec![1, 2, 3, 4, 5, 6, 7, 8, 9] }
}

#[test]
fn sum_and_sumsq_of_ramp() {
    let frame = ramp_three_by_three();
    assert_eq!(frame.sum(), 45);
    assert_eq!(frame.sumsq(), 285);
}

#[test]
fn sum_of_constant_buffer_is_count_times_value() {
    let frame = FrameData::<u16>::filled(10, 10, 37);
    assert_eq!(frame.sum(), 100 * 37);
    // The mean of identical elements is the element value.
    let mean = frame.sum() as f64 / frame.data.len() as f64;
    assert_eq!(mean, 37.0);
}

#[test]
fn mean_of_ramp_is_five() {
    let frame = ramp_three_by_three();
    let mean = frame.sum() as f64 / frame.data.len() as f64;
    assert_eq!(mean, 5.0);
}

#[test]
fn mean_and_var_of_ramp() {
    let frame = ramp_three_by_three();
    let n = frame.data.len() as f64;
    let mean = frame.sum() as f64 / n;
    let var = frame.sumsq() as f64 / n - mean * mean;
    assert_eq!(mean, 5.0);
    assert!((var - 6.666666666666667).abs() < 1e-6);
}

#[test]
fn minmax_of_ramp() {
    let frame = ramp_three_by_three();
    assert_eq!(frame.minval(), 1);
    assert_eq!(frame.maxval(), 9);
    assert_eq!(frame.minmax(), (1, 9));
}

#[test]
fn minmax_of_empty_buffer_returns_sentinels() {
    let frame = FrameData::<u8>::zeros(0, 5);
    assert_eq!(frame.minval(), 255);
    assert_eq!(frame.maxval(), 0);
    assert_eq!(frame.minmax(), (255, 0));
}

#[test]
fn stats_of_sixteen_bit_extremes() {
    let frame = FrameData::<u16>::filled(2, 1, 65535);
    assert_eq!(frame.sum(), 2 * 65535);
    assert_eq!(frame.sumsq(), 2 * 65535i64 * 65535i64);
    assert_eq!(frame.minmax(), (65535, 65535));
}

#[test]
fn grayscale_colormap_is_identity_ramp() {
    let cmap = ColorMap::grayscale();
    assert_eq!(cmap.table.len(), 256);
    assert_eq!(cmap.entry(0), Rgba8 { r: 0, g: 0, b: 0, a: 255 });
    assert_eq!(cmap.entry(128), Rgba8 { r: 128, g: 128, b: 128, a: 255 });
    assert_eq!(cmap.entry(255), Rgba8 { r: 255, g: 255, b: 255, a: 255 });
}

#[test]
fn colormap_rejects_wrong_table_size() {
    let short = vec![Rgba8 { r: 0, g: 0, b: 0, a: 255 }; 255];
    assert!(ColorMap::from_entries(short).is_none());
    let exact = vec![Rgba8 { r: 0, g: 0, b: 0, a: 255 }; 256];
    assert!(ColorMap::from_entries(exact).is_some());
}

#[test]
fn render_linear_full_scale_maps_endpoints_to_table_ends() {
    let cmap = ColorMap::grayscale();
    let frame = FrameData::<u8> { width: 2, height: 1, data: vec![0, 255] };
    let rgba = frame.to_rgba(0, 255, &cmap);
    assert_eq!(rgba.data[0], cmap.entry(0));
    assert_eq!(rgba.data[1], cmap.entry(255));
}

#[test]
fn render_linear_is_identity_on_full_scale() {
    let cmap = ColorMap::grayscale();
    let frame = FrameData::<u8> { width: 16, height: 16, data: (0..=255).collect() };
    let rgba = frame.to_rgba(0, 255, &cmap);
    for (i, px) in rgba.data.iter().enumerate() {
        assert_eq!(px.r as usize, i);
        assert_eq!(px.a, 255);
    }
}

#[test]
fn render_clamps_out_of_range_values() {
    let cmap = ColorMap::grayscale();
    let frame = FrameData::<u16> { width: 3, height: 1, data: vec![0, 100, 60000] };
    let rgba = frame.to_rgba(1000, 2000, &cmap);
    // Values below minscale clamp to entry 0; above maxscale to entry 255.
    assert_eq!(rgba.data[0], cmap.entry(0));
    assert_eq!(rgba.data[1], cmap.entry(0));
    assert_eq!(rgba.data[2], cmap.entry(255));
}

#[test]
fn render_linear_midpoint() {
    let cmap = ColorMap::grayscale();
    let frame = FrameData::<u16> { width: 1, height: 1, data: vec![1500] };
    let rgba = frame.to_rgba(1000, 2000, &cmap);
    // (1500 - 1000) * 255 / 1000 == 127 (integer division).
    assert_eq!(rgba.data[0], cmap.entry(127));
}

#[test]
fn mono16_byte_round_trip() {
    let data: Vec<u16> = vec![0, 1, 255, 256, 0xABCD, 65535];
    let le = astrocam::mono_cast::mono16_to_bytes_le(&data);
    assert_eq!(le.len(), 12);
    assert_eq!(&le[..4], &[0, 0, 1, 0]);
    assert_eq!(&le[8..10], &[0xCD, 0xAB]);
    let back = astrocam::mono_cast::bytes_to_mono16_le(&le).unwrap();
    assert_eq!(back, data);
}

#[test]
fn mono16_big_endian_layout() {
    let data: Vec<u16> = vec![0xABCD];
    let be = astrocam::mono_cast::mono16_to_bytes_be(&data);
    assert_eq!(be, vec![0xAB, 0xCD]);
}

#[test]
fn odd_byte_count_is_rejected() {
    let bytes: Vec<u8> = vec![1, 2, 3];
    assert!(astrocam::mono_cast::bytes_to_mono16_le(&bytes).is_none());
}
