use image::{DynamicImage, RgbImage};
use rktensor::convert::{convert_raster, to_tensor, to_tensor_with_quant};
use rktensor::layout::{channels, layout_index, Layout};
use rktensor::raster::Rgb8Image;
use rktensor::strategy::{
    apply_normalization, is_compatible, DataTypeKind, Normalization, QuantMap, Representation,
};
use rktensor::tensor::Tensor;

// Build a tiny RGB with distinctive channels:
// base(x,y) = 10*x + y
// R = base
// G = 100 + base
// B = 200 + base
fn make_distinct_rgb(w: u32, h: u32) -> DynamicImage {
    let mut img = RgbImage::new(w, h);
    for y in 0..h {
        for x in 0..w {
            let base = 10 * x + y;
            img.put_pixel(
                x,
                y,
                image::Rgb([base as u8, (100 + base) as u8, (200 + base) as u8]),
            );
        }
    }
    DynamicImage::ImageRgb8(img)
}

// The quantization map for parameters (scale, zero_point): each channel value
// v maps to round(v / scale) + zero_point, rounded half away from zero and
// clamped to 0..=255.
fn quant_map_for(scale: f32, zero_point: i32) -> QuantMap {
    let mut table: Vec<u8> = Vec::new();
    for v in 0..256usize {
        let q = (v as f32 / scale).round() + zero_point as f32;
        let q = if q < 0.0 {
            0u8
        } else if q > 255.0 {
            255u8
        } else {
            q as u8
        };
        table.push(q);
    }
    QuantMap::from_table(table).expect("a 256-entry table is accepted")
}

#[test]
fn test_to_tensor() {
    let img = make_distinct_rgb(2, 2);
    let tensor: Vec<u8> = to_tensor(&img, Normalization::Identity, Layout::ChannelMajor);
    assert_eq!(tensor.len(), 2 * 2 * 3);
}

#[test]
fn test_to_tensor_with_quant() {
    let img = make_distinct_rgb(2, 2);
    let quant_params = quant_map_for(0.5, 128);
    let tensor: Vec<u8> = to_tensor_with_quant(
        &img,
        quant_params,
        Normalization::Identity,
        Layout::ChannelMajor,
    );
    assert_eq!(tensor.len(), 2 * 2 * 3);
}

#[test]
fn channel_major_scan_contents() {
    let img = make_distinct_rgb(2, 2);
    let tensor = to_tensor(&img, Normalization::Identity, Layout::ChannelMajor);
    // four R values in row-major pixel order, then the G values, then the B values
    assert_eq!(
        tensor,
        vec![0, 10, 1, 11, 100, 110, 101, 111, 200, 210, 201, 211]
    );
}

#[test]
fn pixel_major_scan_contents() {
    let img = make_distinct_rgb(2, 2);
    let tensor = to_tensor(&img, Normalization::Identity, Layout::PixelMajor);
    // the three channels of each pixel stand together, pixels in row-major order
    assert_eq!(
        tensor,
        vec![0, 100, 200, 10, 110, 210, 1, 101, 201, 11, 111, 211]
    );
}

#[test]
fn quantized_scan_contents() {
    let img = make_distinct_rgb(2, 2);
    let quant = quant_map_for(0.5, 128);
    let tensor = to_tensor_with_quant(&img, quant, Normalization::Identity, Layout::ChannelMajor);
    // R channel: round(v / 0.5) + 128 stays below 256; G and B saturate to 255
    assert_eq!(
        tensor,
        vec![128, 148, 130, 150, 255, 255, 255, 255, 255, 255, 255, 255]
    );
}

#[test]
fn output_length_for_every_layout() {
    for (w, h) in [(1u32, 1u32), (3, 2), (5, 4)] {
        let img = make_distinct_rgb(w, h);
        for l in [Layout::ChannelMajor, Layout::PixelMajor] {
            let tensor = to_tensor(&img, Normalization::Identity, l);
            assert_eq!(tensor.len(), (w * h * 3) as usize);
        }
    }
}

#[test]
fn zero_dimension_image_yields_empty_buffer() {
    let wide = make_distinct_rgb(0, 2);
    let tall = make_distinct_rgb(2, 0);
    for l in [Layout::ChannelMajor, Layout::PixelMajor] {
        assert_eq!(to_tensor(&wide, Normalization::Identity, l).len(), 0);
        assert_eq!(to_tensor(&tall, Normalization::Identity, l).len(), 0);
        let quant = quant_map_for(1.0, 0);
        assert_eq!(
            to_tensor_with_quant(&wide, quant, Normalization::Identity, l).len(),
            0
        );
    }
}

#[test]
fn layout_offsets_cover_range_without_collision() {
    let (w, h) = (3usize, 2usize);
    for l in [Layout::ChannelMajor, Layout::PixelMajor] {
        let mut seen: Vec<usize> = Vec::new();
        for y in 0..h {
            for x in 0..w {
                for c in 0..3 {
                    seen.push(layout_index(l, w, h, x, y, c));
                }
            }
        }
        seen.sort();
        let expected: Vec<usize> = (0..w * h * 3).collect();
        assert_eq!(seen, expected);
    }
}

#[test]
fn identity_normalization_keeps_values() {
    for triple in [(0u8, 0u8, 0u8), (17, 101, 255), (255, 0, 128)] {
        assert_eq!(apply_normalization(Normalization::Identity, triple), triple);
    }
}

#[test]
fn channel_count_is_three() {
    assert_eq!(channels(Layout::ChannelMajor), 3);
    assert_eq!(channels(Layout::PixelMajor), 3);
}

#[test]
fn quant_map_rejects_short_table() {
    assert!(QuantMap::from_table(vec![0u8; 255]).is_none());
    assert!(QuantMap::from_table(vec![0u8; 257]).is_none());
    assert!(QuantMap::from_table(Vec::new()).is_none());
    assert!(QuantMap::from_table(vec![7u8; 256]).is_some());
}

#[test]
fn convert_raster_directly() {
    // 2x1 raster: pixel (0,0) = (1,2,3), pixel (1,0) = (4,5,6)
    let raster = Rgb8Image::new(2, 1, vec![1, 2, 3, 4, 5, 6]).expect("length matches");
    let out = convert_raster(
        &raster,
        &Representation::U8,
        Normalization::Identity,
        Layout::ChannelMajor,
    );
    assert_eq!(out, vec![1, 4, 2, 5, 3, 6]);
    let out = convert_raster(
        &raster,
        &Representation::U8,
        Normalization::Identity,
        Layout::PixelMajor,
    );
    assert_eq!(out, vec![1, 2, 3, 4, 5, 6]);
}

#[test]
fn raster_rejects_wrong_byte_count() {
    assert!(Rgb8Image::new(2, 1, vec![0u8; 5]).is_none());
    assert!(Rgb8Image::new(2, 1, vec![0u8; 7]).is_none());
    assert!(Rgb8Image::new(0, 3, Vec::new()).is_some());
}

#[test]
fn buffer_wraps_into_tensor_with_layout_shape() {
    let img = make_distinct_rgb(3, 2);
    let buffer = to_tensor(&img, Normalization::Identity, Layout::ChannelMajor);
    let tensor = Tensor::new(buffer, vec![3, 2, 3]).expect("shape [channels, height, width]");
    assert_eq!(tensor.data().len(), 18);
    assert_eq!(tensor.shape(), &vec![3usize, 2, 3]);
}

#[test]
fn raster_accessors_expose_the_grid() {
    let raster = Rgb8Image::new(2, 1, vec![1, 2, 3, 4, 5, 6]).expect("length matches");
    assert_eq!(raster.dimensions(), (2, 1));
    assert_eq!(raster.bytes(), &vec![1u8, 2, 3, 4, 5, 6]);
    assert_eq!(raster.pixel_at(0, 0), (1, 2, 3));
    assert_eq!(raster.pixel_at(1, 0), (4, 5, 6));
}

#[test]
fn identity_pairs_are_compatible() {
    assert!(is_compatible(Normalization::Identity, DataTypeKind::U8));
    assert!(is_compatible(Normalization::Identity, DataTypeKind::QuantizedU8));
}
