use akiclick::tray::load_icon;
use std::io::Cursor;

fn png_bytes(width: u32, height: u32, rgba: Vec<u8>) -> Vec<u8> {
    let img = image::RgbaImage::from_raw(width, height, rgba).unwrap();
    let mut out = Cursor::new(Vec::new());
    img.write_to(&mut out, image::ImageFormat::Png).unwrap();
    out.into_inner()
}

#[test]
fn icon_decodes_png_pixels() {
    let pixels = vec![255, 0, 0, 255, 0, 255, 0, 128];
    let encoded = png_bytes(2, 1, pixels.clone());
    let icon = load_icon(&encoded).expect("decodes");
    assert_eq!(icon.width, 2);
    assert_eq!(icon.height, 1);
    assert_eq!(icon.rgba, pixels);
    assert_ne!(icon.rgba, encoded);
}

#[test]
fn icon_of_taller_image() {
    let pixels: Vec<u8> = (0..(3 * 4 * 4)).map(|i| i as u8).collect();
    let icon = load_icon(&png_bytes(3, 4, pixels.clone())).expect("decodes");
    assert_eq!((icon.width, icon.height), (3, 4));
    assert_eq!(icon.rgba, pixels);
}

#[test]
fn icon_rejects_garbage() {
    assert!(load_icon(b"not an image at all").is_none());
    assert!(load_icon(&[]).is_none());
}
