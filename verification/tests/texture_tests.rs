use broth::texture::{
    compute_mip_levels, load_texture, TextureError, COLOR_TYPE_RGBA, REQUIRED_TEXTURE_DIM,
};

/// Encodes `pixels` as a PNG of the given size and color type.
fn encode_png(width: u32, height: u32, color: png::ColorType, pixels: &[u8]) -> Vec<u8> {
    let mut bytes = Vec::new();
    {
        let mut encoder = png::Encoder::new(&mut bytes, width, height);
        encoder.set_color(color);
        encoder.set_depth(png::BitDepth::Eight);
        let mut writer = encoder.write_header().unwrap();
        writer.write_image_data(pixels).unwrap();
    }
    bytes
}

#[test]
fn mip_levels_match_the_dimension_logarithm() {
    assert_eq!(compute_mip_levels(1024, 1024), 11);
    assert_eq!(compute_mip_levels(1, 1), 1);
    assert_eq!(compute_mip_levels(2, 1), 2);
    assert_eq!(compute_mip_levels(512, 512), 10);
    assert_eq!(compute_mip_levels(1920, 1080), 11);
    assert_eq!(compute_mip_levels(0, 0), 1);
}

#[test]
fn rgba_constants_match_the_format() {
    assert_eq!(COLOR_TYPE_RGBA, png::ColorType::Rgba as u8);
    assert_eq!(REQUIRED_TEXTURE_DIM, 1024);
}

#[test]
fn supported_texture_decodes_to_its_pixels() {
    let mut pixels = vec![0u8; 1024 * 1024 * 4];
    for (i, p) in pixels.iter_mut().enumerate() {
        *p = (i % 251) as u8;
    }
    let bytes = encode_png(1024, 1024, png::ColorType::Rgba, &pixels);
    let plan = load_texture(&bytes).unwrap();
    assert_eq!(plan.width, 1024);
    assert_eq!(plan.height, 1024);
    assert_eq!(plan.mip_levels, 11);
    assert_eq!(plan.pixels, pixels);
}

#[test]
fn small_texture_is_unsupported() {
    let pixels = vec![0u8; 512 * 512 * 4];
    let bytes = encode_png(512, 512, png::ColorType::Rgba, &pixels);
    let got = load_texture(&bytes);
    assert!(matches!(got, Err(TextureError::UnsupportedTextureError)));
}

#[test]
fn non_rgba_texture_is_unsupported() {
    let pixels = vec![0u8; 1024 * 1024 * 3];
    let bytes = encode_png(1024, 1024, png::ColorType::Rgb, &pixels);
    let got = load_texture(&bytes);
    assert!(matches!(got, Err(TextureError::UnsupportedTextureError)));
}

#[test]
fn undecodable_bytes_report_a_decoding_error() {
    let bytes = vec![1u8, 2, 3, 4, 5, 6, 7, 8];
    let got = load_texture(&bytes);
    assert!(matches!(got, Err(TextureError::DecodingError(_))));
}

#[test]
fn truncated_png_reports_a_decoding_error() {
    let pixels = vec![0u8; 1024 * 1024 * 4];
    let mut bytes = encode_png(1024, 1024, png::ColorType::Rgba, &pixels);
    bytes.truncate(64);
    let got = load_texture(&bytes);
    assert!(matches!(got, Err(TextureError::DecodingError(_))));
}
