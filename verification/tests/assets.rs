use rust_on_rails::assets::load_image_data;

fn png_bytes(width: u32, height: u32, pixels: Vec<u8>) -> Vec<u8> {
    let img = image::RgbaImage::from_raw(width, height, pixels).unwrap();
    let mut out = Vec::new();
    img.write_to(&mut std::io::Cursor::new(&mut out), image::ImageFormat::Png).unwrap();
    out
}

#[test]
fn missing_file_gives_nothing() {
    assert_eq!(load_image_data(None), None);
}

#[test]
fn png_decodes_to_its_pixels() {
    let pixels = vec![255, 0, 0, 255, 0, 128, 255, 64];
    let bytes = png_bytes(2, 1, pixels.clone());
    assert_eq!(load_image_data(Some(bytes)), Some((2, 1, pixels)));
}

#[test]
fn undecodable_bytes_give_no_image() {
    assert_eq!(load_image_data(Some(b"not an image".to_vec())), None);
    assert_eq!(load_image_data(Some(Vec::new())), None);
}
