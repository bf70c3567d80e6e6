use image::{DynamicImage, ImageFormat, Rgba, RgbaImage};
use nts::artwork::{
    crop_to_landscape, decode_artwork, fit_to_card, landscape_crop, next_artwork_step,
    size_of_picture, ArtworkStep, Crop, Graphics,
};

const NTS_ARTWORK_ASPECT: f32 = 1.6;

fn targets(image: &DynamicImage) -> (u32, u32) {
    let (width, height) = size_of_picture(image);
    (
        ((width as f32) / NTS_ARTWORK_ASPECT).round() as u32,
        ((height as f32) * NTS_ARTWORK_ASPECT).round() as u32,
    )
}

fn numbered(width: u32, height: u32) -> DynamicImage {
    DynamicImage::ImageRgba8(RgbaImage::from_fn(width, height, |x, y| {
        Rgba([x as u8, y as u8, 0, 255])
    }))
}

#[test]
fn artwork_is_cropped_to_nts_landscape_aspect_ratio() {
    let image = DynamicImage::new_rgba8(400, 400);
    let (target_height, target_width) = targets(&image);
    let cropped = crop_to_landscape(image, target_height, target_width);
    let ratio = cropped.width() as f32 / cropped.height() as f32;

    assert_eq!(cropped.width(), 400);
    assert!(
        (ratio - NTS_ARTWORK_ASPECT).abs() < 0.02,
        "aspect ratio {ratio} should match {NTS_ARTWORK_ASPECT}"
    );
}

#[test]
fn a_high_picture_loses_rows_and_a_wide_one_columns() {
    let image = numbered(16, 20);
    let (target_height, target_width) = targets(&image);
    let cut = fit_to_card(image, target_height, target_width).to_rgba8();
    assert_eq!((cut.width(), cut.height()), (16, 10));
    assert_eq!(cut.get_pixel(0, 0).0, [0, 5, 0, 255]);
    assert_eq!(cut.get_pixel(15, 9).0, [15, 14, 0, 255]);

    let image = numbered(32, 10);
    let (target_height, target_width) = targets(&image);
    let cut = crop_to_landscape(image, target_height, target_width).to_rgba8();
    assert_eq!((cut.width(), cut.height()), (16, 10));
    assert_eq!(cut.get_pixel(0, 0).0, [8, 0, 0, 255]);
    assert_eq!(cut.get_pixel(15, 9).0, [23, 9, 0, 255]);
}

#[test]
fn crops_of_the_smallest_pictures() {
    assert_eq!(
        landscape_crop(1, 1, 1, 2),
        Crop { x: 0, y: 0, width: 1, height: 1 }
    );
    assert_eq!(
        landscape_crop(3, 1, 2, 2),
        Crop { x: 0, y: 0, width: 2, height: 1 }
    );
    assert_eq!(
        landscape_crop(0, 5, 0, 8),
        Crop { x: 0, y: 2, width: 0, height: 1 }
    );
    let empty = fit_to_card(DynamicImage::new_rgba8(0, 0), 0, 0);
    assert_eq!((empty.width(), empty.height()), (0, 0));
    let as_it_is = fit_to_card(DynamicImage::new_rgba8(0, 3), 9, 9);
    assert_eq!((as_it_is.width(), as_it_is.height()), (0, 3));
}

#[test]
fn downloads_are_decoded() {
    let mut bytes = std::io::Cursor::new(Vec::new());
    numbered(3, 2)
        .write_to(&mut bytes, ImageFormat::Png)
        .unwrap();
    let image = decode_artwork(bytes.get_ref()).unwrap();
    assert_eq!(size_of_picture(&image), (3, 2));
    assert_eq!(image.to_rgba8().get_pixel(2, 1).0, [2, 1, 0, 255]);
    assert!(decode_artwork(b"no picture").is_none());
    assert!(decode_artwork(&[]).is_none());
}

fn step(medium: Option<&str>, thumb: Option<&str>, known: Option<&str>, failed: usize) -> String {
    let own = |text: Option<&str>| text.map(str::to_owned);
    match next_artwork_step(&own(medium), &own(thumb), &own(known), failed) {
        ArtworkStep::Fetch(url) => format!("fetch {url}"),
        ArtworkStep::Settled(Some(url)) => format!("settled {url}"),
        ArtworkStep::Settled(None) => "none".to_owned(),
    }
}

#[test]
fn pictures_are_tried_in_their_order() {
    assert_eq!(step(Some("m"), Some("t"), None, 0), "fetch m");
    assert_eq!(step(Some("m"), Some("t"), None, 1), "fetch t");
    assert_eq!(step(Some("m"), Some("t"), None, 2), "settled m");
    assert_eq!(step(None, Some("t"), None, 0), "fetch t");
    assert_eq!(step(None, Some("t"), None, 1), "settled t");
    assert_eq!(step(Some("m"), None, None, 1), "settled m");
    assert_eq!(step(None, None, Some("k"), 0), "none");
}

#[test]
fn a_known_picture_is_not_fetched() {
    assert_eq!(step(Some("m"), Some("t"), Some("m"), 0), "settled m");
    assert_eq!(step(Some("m"), Some("t"), Some("t"), 0), "fetch m");
    assert_eq!(step(Some("m"), Some("t"), Some("t"), 1), "settled t");
}

#[test]
fn half_blocks_are_no_pictures() {
    assert!(!Graphics::Halfblocks.supports_artwork());
    assert!(Graphics::Sixel.supports_artwork());
    assert!(Graphics::Kitty.supports_artwork());
    assert!(Graphics::Iterm2.supports_artwork());
}
