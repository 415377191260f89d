use splitrender::image::{Frame, ImageError};

#[test]
fn frame_rejects_bad_sizes() {
    assert!(matches!(Frame::new(0, 4), Err(ImageError::BadSize)));
    assert!(matches!(Frame::new(4, 0), Err(ImageError::BadSize)));
    assert!(matches!(Frame::new(65536, 65536), Err(ImageError::BadSize)));
    assert!(Frame::new(800, 800).is_ok());
}

#[test]
fn new_frame_is_zeroed() {
    let f = Frame::new(3, 2).ok().unwrap();
    assert_eq!(f.width(), 3);
    assert_eq!(f.height(), 2);
    assert_eq!(f.pixels().len(), 24);
    assert!(f.pixels().iter().all(|b| *b == 0));
}

#[test]
fn set_pixel_writes_row_major_rgba() {
    let mut f = Frame::new(3, 2).ok().unwrap();
    f.set_pixel(1, 1, 10, 20, 30);
    let p = f.pixels();
    assert_eq!(&p[16..20], &[10, 20, 30, 255]);
    assert_eq!(p.iter().filter(|b| **b != 0).count(), 4);
}

#[test]
fn encode_png_writes_png_file() {
    let mut f = Frame::new(2, 2).ok().unwrap();
    f.set_pixel(0, 0, 255, 0, 0);
    let bytes = f.encode_png().ok().unwrap();
    assert_eq!(&bytes[0..8], b"\x89PNG\r\n\x1a\n");
    assert_eq!(&bytes[12..16], b"IHDR");
    assert_eq!(&bytes[16..24], &[0, 0, 0, 2, 0, 0, 0, 2]);
    assert_ne!(bytes, f.pixels().clone());
    assert!(bytes.len() > f.pixels().len());
}
