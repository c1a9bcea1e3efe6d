use palvox::assets::{flip_vertical, PreloadError, PreloadedImages};
use palvox::assets::AssetLoader;

/// Encode raw RGB pixels (top row first) as a PNG byte blob.
fn png_bytes(width: u32, height: u32, pixels: Vec<u8>) -> Vec<u8> {
    let img = image::RgbImage::from_raw(width, height, pixels).expect("pixel buffer size");
    let mut bytes: Vec<u8> = Vec::new();
    image::DynamicImage::ImageRgb8(img)
        .write_to(&mut std::io::Cursor::new(&mut bytes), image::ImageFormat::Png)
        .expect("png encoding");
    bytes
}

#[test]
fn flip_vertical_mirrors_rows_exactly() {
    // One pixel per row: two rows swap wholesale.
    let texels = vec![1, 2, 3, 4, 5, 6];
    assert_eq!(flip_vertical(1, 2, &texels), vec![4, 5, 6, 1, 2, 3]);
    // Two pixels per row: order within a row is kept.
    let texels = vec![1, 2, 3, 4, 5, 6, 7, 8, 9, 10, 11, 12];
    assert_eq!(flip_vertical(2, 2, &texels), vec![7, 8, 9, 10, 11, 12, 1, 2, 3, 4, 5, 6]);
}

#[test]
fn flip_vertical_of_empty_is_empty() {
    let texels: Vec<u8> = Vec::new();
    assert_eq!(flip_vertical(0, 0, &texels), Vec::<u8>::new());
}

#[test]
fn load_file_stores_the_image_vertically_flipped() {
    // Top row red, bottom row blue in file storage.
    let data = png_bytes(2, 2, vec![255, 0, 0, 255, 0, 0, 0, 0, 255, 0, 0, 255]);
    let mut cache = PreloadedImages::new();
    cache.load_file("sky", "assets/sky.png", &data).expect("decodable image");
    let img = cache.get_texture("sky").expect("loaded texture");
    assert_eq!(img.width, 2);
    assert_eq!(img.height, 2);
    // After the flip the blue row comes first.
    assert_eq!(img.texels, vec![0, 0, 255, 0, 0, 255, 255, 0, 0, 255, 0, 0]);
}

#[test]
fn load_file_overwrites_an_entry_of_the_same_name() {
    let first = png_bytes(1, 1, vec![10, 20, 30]);
    let second = png_bytes(2, 1, vec![1, 1, 1, 2, 2, 2]);
    let mut cache = PreloadedImages::new();
    cache.load_file("test", "a.png", &first).expect("decodable image");
    cache.load_file("test", "b.png", &second).expect("decodable image");
    let img = cache.get_texture("test").expect("loaded texture");
    assert_eq!((img.width, img.height), (2, 1));
    assert_eq!(img.texels, vec![1, 1, 1, 2, 2, 2]);
}

#[test]
fn get_on_a_name_never_loaded_reports_not_found() {
    let cache = PreloadedImages::new();
    match cache.get_texture("missing") {
        Err(PreloadError::NotFound(name)) => assert_eq!(name, "missing"),
        _ => panic!("expected a not-found error"),
    }
}

#[test]
fn load_file_reports_the_path_of_an_undecodable_blob() {
    let mut cache = PreloadedImages::new();
    let garbage = vec![0, 1, 2, 3];
    match cache.load_file("bad", "assets/bad.png", &garbage) {
        Err(PreloadError::Load(path, _)) => assert_eq!(path, "assets/bad.png"),
        _ => panic!("expected a load error"),
    }
    // The failed load left the cache unchanged.
    assert!(cache.get_texture("bad").is_err());
}

#[test]
fn load_files_loads_every_entry_in_order() {
    let mut cache = PreloadedImages::new();
    let files = vec![
        ("one".to_string(), "1.png".to_string(), png_bytes(1, 1, vec![1, 2, 3])),
        ("two".to_string(), "2.png".to_string(), png_bytes(1, 1, vec![4, 5, 6])),
    ];
    cache.load_files(&files).expect("all entries decode");
    assert_eq!(cache.get_texture("one").expect("loaded").texels, vec![1, 2, 3]);
    assert_eq!(cache.get_texture("two").expect("loaded").texels, vec![4, 5, 6]);
}

#[test]
fn load_files_stops_at_the_first_failure_without_rollback() {
    let mut cache = PreloadedImages::new();
    let files = vec![
        ("one".to_string(), "1.png".to_string(), png_bytes(1, 1, vec![1, 2, 3])),
        ("bad".to_string(), "bad.png".to_string(), vec![9, 9, 9]),
        ("two".to_string(), "2.png".to_string(), png_bytes(1, 1, vec![4, 5, 6])),
    ];
    match cache.load_files(&files) {
        Err(PreloadError::Load(path, _)) => assert_eq!(path, "bad.png"),
        _ => panic!("expected the first failure to be reported"),
    }
    // The entry before the failure stays; the one after was never inserted.
    assert!(cache.get_texture("one").is_ok());
    assert!(cache.get_texture("two").is_err());
}
