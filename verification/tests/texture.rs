use arbitra::texture::AddressMode;
use arbitra::texture::FilterMode;
use arbitra::texture::Texture;
use arbitra::texture::TextureFormat;

#[test]
fn white_texture_is_one_opaque_white_pixel() {
    let t = Texture::create_white_texture();
    assert_eq!((t.width, t.height), (1, 1));
    assert_eq!(t.rgba, vec![255, 255, 255, 255]);
    assert_eq!(t.bytes_per_row(), 4);
    assert_eq!(t.rows_per_image(), 1);
}

#[test]
fn texture_from_image_keeps_the_pixels() {
    let pixels: Vec<u8> = (0..24).collect();
    let t = Texture::from_image(3, 2, pixels.clone());
    assert_eq!((t.width, t.height), (3, 2));
    assert_eq!(t.rgba, pixels);
    assert_eq!(t.bytes_per_row(), 12);
    assert_eq!(t.rows_per_image(), 2);
    let d = t.description();
    assert_eq!((d.width, d.height), (3, 2));
    assert_eq!(d.format, TextureFormat::Rgba8UnormSrgb);
    assert_eq!(d.mip_level_count, 1);
    assert_eq!(d.sample_count, 1);
}

#[test]
fn missing_texture_is_shown_white() {
    let t = Texture::or_white(None);
    assert_eq!((t.width, t.height), (1, 1));
    assert_eq!(t.rgba, vec![255, 255, 255, 255]);
    let loaded = Texture::from_image(1, 2, vec![1, 2, 3, 4, 5, 6, 7, 8]);
    let t = Texture::or_white(Some(loaded));
    assert_eq!((t.width, t.height), (1, 2));
    assert_eq!(t.rgba, vec![1, 2, 3, 4, 5, 6, 7, 8]);
}

#[test]
fn sampler_repeats_and_filters_linearly() {
    let s = Texture::create_white_texture().sampler();
    assert_eq!(s.address_mode_u, AddressMode::Repeat);
    assert_eq!(s.address_mode_v, AddressMode::Repeat);
    assert_eq!(s.address_mode_w, AddressMode::Repeat);
    assert_eq!(s.mag_filter, FilterMode::Linear);
    assert_eq!(s.min_filter, FilterMode::Linear);
    assert_eq!(s.mipmap_filter, FilterMode::Nearest);
}
