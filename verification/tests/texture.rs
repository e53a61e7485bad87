use visualizer::texture::load_texture;

#[test]
fn decodes_an_encoded_png_back_to_its_pixels() {
    let pixels: Vec<u8> = vec![
        255, 0, 0, 255, // red pixel
        0, 255, 0, 255, // green pixel
    ];
    let mut png: Vec<u8> = Vec::new();
    image::png::PNGEncoder::new(&mut png)
        .encode(&pixels, 2, 1, image::ColorType::RGBA(8))
        .expect("encoding a 2x1 RGBA image succeeds");
    assert_ne!(png, pixels);
    let t = load_texture(&png).expect("a well-formed PNG decodes");
    assert_eq!(t.width, 2);
    assert_eq!(t.height, 1);
    assert_eq!(t.pixels, pixels);
}

#[test]
fn a_larger_png_keeps_four_bytes_per_pixel() {
    let width = 3u32;
    let height = 2u32;
    let mut pixels: Vec<u8> = Vec::new();
    for i in 0..(width * height) {
        pixels.extend_from_slice(&[i as u8, 10 + i as u8, 20 + i as u8, 255]);
    }
    let mut png: Vec<u8> = Vec::new();
    image::png::PNGEncoder::new(&mut png)
        .encode(&pixels, width, height, image::ColorType::RGBA(8))
        .expect("encoding a 3x2 RGBA image succeeds");
    let t = load_texture(&png).expect("a well-formed PNG decodes");
    assert_eq!(t.width, width);
    assert_eq!(t.height, height);
    assert_eq!(t.pixels.len(), (width * height * 4) as usize);
    assert_eq!(t.pixels, pixels);
}

#[test]
fn malformed_bytes_decode_to_none() {
    let junk: Vec<u8> = vec![1, 2, 3, 4, 5];
    assert!(load_texture(&junk).is_none());
}

#[test]
fn empty_bytes_decode_to_none() {
    let empty: Vec<u8> = Vec::new();
    assert!(load_texture(&empty).is_none());
}
