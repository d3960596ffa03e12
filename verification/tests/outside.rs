use diorama::canvas_resize::{canvas_picture, canvas_source};
use diorama::file_state::FileLocation;
use diorama::pixels::{
    content_detection, crop, rgba_from_texture, texture_from_owned_rgba, texture_from_rgba,
    ContentDetection, RgbaPixels, Texture, TextureError,
};
use diorama::preview_cache::PreviewCache;

fn at(path: &str) -> FileLocation {
    FileLocation {
        origin: String::new(),
        names: path.split('/').filter(|name| !name.is_empty()).map(String::from).collect(),
    }
}

#[test]
fn downloaded_comparison_texture_keeps_rgba_pixels() {
    let image = RgbaPixels::from_raw(1, 1, vec![12, 34, 56, 78]).unwrap();
    let texture = texture_from_rgba(&image).unwrap();

    let downloaded = rgba_from_texture(&texture).unwrap();
    assert_eq!(downloaded.dimensions(), image.dimensions());
    assert_eq!(downloaded.into_raw(), image.into_raw());
}

#[test]
fn rows_are_packed_without_what_lies_between_them() {
    let texture = Texture {
        width: 1,
        height: 2,
        stride: 6,
        bytes: vec![1, 2, 3, 4, 90, 91, 5, 6, 7, 8, 92, 93],
    };

    let pixels = rgba_from_texture(&texture).unwrap();
    assert_eq!(pixels.dimensions(), (1, 2));
    assert_eq!(pixels.into_raw(), [1, 2, 3, 4, 5, 6, 7, 8]);
}

#[test]
fn pictures_without_all_their_rows_give_no_image() {
    let texture = |width, height, stride, length| Texture {
        width,
        height,
        stride,
        bytes: vec![0; length],
    };

    assert!(rgba_from_texture(&texture(1, 2, 4, 7)).is_none());
    assert!(rgba_from_texture(&texture(2, 1, 4, 8)).is_none());
    assert!(rgba_from_texture(&texture(-1, 1, 4, 8)).is_none());
    assert!(rgba_from_texture(&texture(1, -1, 4, 8)).is_none());
    assert!(rgba_from_texture(&texture(1, 2, 4, 8)).is_some());
}

#[test]
fn parts_of_images_keep_their_pixels() {
    let bytes = (0..6u8).flat_map(|pixel| [pixel; 4]).collect();
    let pixels = RgbaPixels::from_raw(3, 2, bytes).unwrap();
    let part = crop(&pixels, 1, 0, 2, 2).unwrap();
    assert_eq!(part.dimensions(), (2, 2));
    assert_eq!(part.into_raw(), [1, 1, 1, 1, 2, 2, 2, 2, 4, 4, 4, 4, 5, 5, 5, 5]);
    assert!(crop(&pixels, 2, 0, 2, 1).is_none());
    assert!(crop(&pixels, 0, 1, 1, 2).is_none());
    assert!(crop(&pixels, 0, 0, 0, 1).is_none());
    assert_eq!(crop(&pixels, 0, 1, 1, 1).unwrap().into_raw(), [3, 3, 3, 3]);
}

#[test]
fn canvas_previews_are_made_of_a_thumbnail() {
    let row = [[10, 20, 30, 255].repeat(480), [200, 0, 0, 255].repeat(480)].concat();
    let pixels = RgbaPixels::from_raw(960, 640, row.repeat(640)).unwrap();
    let source = canvas_source(&pixels).unwrap();
    assert_eq!(source.dimensions(), (480, 320));
    let picture = canvas_picture(&source, (2, 1));
    assert_eq!(picture.dimensions(), (2, 1));
    assert_eq!(picture.into_raw(), [10, 20, 30, 255, 200, 0, 0, 255]);
    let row = [[10, 20, 30, 255].repeat(240), [200, 0, 0, 255].repeat(240)].concat();
    assert_eq!(source.into_raw(), row.repeat(320));
    let long = RgbaPixels::from_raw(0x100_0001, 0, Vec::new()).unwrap();
    assert!(canvas_source(&long).is_none());
}

#[test]
fn images_need_enough_bytes() {
    assert!(RgbaPixels::from_raw(2, 1, vec![0; 7]).is_none());
    assert!(RgbaPixels::from_raw(2, 1, vec![0; 8]).is_some());
    let texture =
        texture_from_owned_rgba(RgbaPixels::from_raw(2, 1, vec![0; 8]).unwrap()).unwrap();
    assert_eq!((texture.width, texture.height, texture.stride), (2, 1, 8));
}

#[test]
fn images_that_are_too_large_for_the_screen_are_refused() {
    let wide = RgbaPixels::from_raw(u32::MAX, 0, Vec::new()).unwrap();
    assert_eq!(texture_from_owned_rgba(wide).unwrap_err(), TextureError::WidthTooLarge);
    let high = RgbaPixels::from_raw(0, u32::MAX, Vec::new()).unwrap();
    let error = texture_from_owned_rgba(high).unwrap_err();
    assert_eq!(error, TextureError::HeightTooLarge);
    assert_eq!(error.text(), "Image height is too large");
    assert_eq!(TextureError::StrideTooLarge.text(), "Image stride is too large");
}

#[test]
fn content_is_found_by_alpha_where_there_is_any() {
    let opaque = RgbaPixels::from_raw(2, 1, vec![0, 0, 0, 255, 9, 9, 9, 255]).unwrap();
    let clear = RgbaPixels::from_raw(2, 1, vec![0, 0, 0, 255, 9, 9, 9, 254]).unwrap();
    let spare = RgbaPixels::from_raw(1, 1, vec![0, 0, 0, 255, 9, 9, 9, 0]).unwrap();

    assert_eq!(content_detection(&opaque), ContentDetection::Opaque { tolerance: 16 });
    assert_eq!(content_detection(&clear), ContentDetection::Alpha { threshold: 1 });
    assert_eq!(content_detection(&spare), ContentDetection::Opaque { tolerance: 16 });
}

#[test]
fn three_pictures_are_kept_and_the_least_used_is_dropped() {
    let (first, second, third, fourth) = (at("/1.png"), at("/2.png"), at("/3.png"), at("/4.png"));
    let mut cache = PreviewCache::new();

    assert_eq!(cache.get(&first), None);
    assert_eq!(cache.put(&first, 1), None);
    assert_eq!(cache.put(&second, 2), None);
    assert_eq!(cache.put(&third, 3), None);
    assert_eq!(cache.get(&first), Some(1));
    assert_eq!(cache.put(&fourth, 4), None);
    assert!(!cache.contains(&second));
    assert!(cache.contains(&first));
    assert_eq!(cache.put(&first, 11), Some(1));
    assert_eq!(cache.get(&first), Some(11));
}

#[test]
fn looking_for_a_picture_does_not_use_it() {
    let mut cache = PreviewCache::new();
    for (index, path) in ["/1.png", "/2.png", "/3.png"].into_iter().enumerate() {
        cache.put(&at(path), index as u64);
    }

    assert!(cache.contains(&at("/1.png")));
    cache.put(&at("/4.png"), 9);
    assert!(!cache.contains(&at("/1.png")));
}

#[test]
fn only_missing_pictures_are_loaded() {
    let mut cache = PreviewCache::new();
    cache.put(&at("/2.png"), 2);

    let missing = cache.missing(&vec![at("/1.png"), at("/2.png"), at("/3.png")]);
    assert_eq!(
        missing.iter().map(|file| file.path()).collect::<Vec<_>>(),
        ["/1.png", "/3.png"]
    );
}
