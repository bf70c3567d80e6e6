//! Show pictures: which to load, and how they are cut to the cards' shape.
use image::DynamicImage;
use crate::geometry::{least, most};
use crate::text::opt_view;
use vstd::prelude::*;

verus! {

/// A pixel's red, green, blue and alpha.
pub type Pixel = (u8, u8, u8, u8);

/// A decoded picture of the `image` crate.
#[verifier::external_type_specification]
#[verifier::external_body]
pub struct ExDynamicImage(DynamicImage);

/// The pixels of a picture, row by row from its top, each row from its left.
pub uninterp spec fn pixels(image: DynamicImage) -> Seq<Seq<Pixel>>;

/// The width and the height of a picture.
pub uninterp spec fn dimensions(image: DynamicImage) -> (u32, u32);

/// Whether `rows` are the pixels of a picture that `image::load_from_memory` may decode from
/// `bytes`, or none where it may decode no picture. Its decoders pick their arithmetic by the
/// machine's instructions.
pub uninterp spec fn decoding_outcome(bytes: Seq<u8>, rows: Option<Seq<Seq<Pixel>>>) -> bool;

/// The pixels of an optional picture.
pub open spec fn opt_pixels(image: Option<DynamicImage>) -> Option<Seq<Seq<Pixel>>> {
    match image {
        Some(image) => Some(pixels(image)),
        None => None,
    }
}

/// How a terminal can show pictures.
#[derive(Clone, Copy, Debug, PartialEq, Eq, Structural)]
pub enum Graphics {
    /// Only as half blocks of two colours.
    Halfblocks,
    Sixel,
    Kitty,
    Iterm2,
}

impl Graphics {
    /// Whether pictures are shown at all: half blocks are too coarse for them, and text is better.
    pub fn supports_artwork(self) -> (r: bool)
        ensures
            r == (self != Graphics::Halfblocks),
    {
        self != Graphics::Halfblocks
    }
}

/// A rectangle of pixels.
#[derive(Clone, Copy, Debug, PartialEq, Eq, Structural)]
pub struct Crop {
    pub x: u32,
    pub y: u32,
    pub width: u32,
    pub height: u32,
}

/// The pixels of `rows` that lie in `crop`.
pub open spec fn cropped(rows: Seq<Seq<Pixel>>, crop: Crop) -> Seq<Seq<Pixel>> {
    Seq::new(
        crop.height as nat,
        |j: int| rows[crop.y + j].subrange(crop.x as int, crop.x + crop.width),
    )
}

/// `crop` without what reaches past a picture of the given size.
pub open spec fn bounded(crop: Crop, width: u32, height: u32) -> Crop {
    let x = least(crop.x as int, width as int);
    let y = least(crop.y as int, height as int);
    Crop {
        x: x as u32,
        y: y as u32,
        width: least(crop.width as int, width - x) as u32,
        height: least(crop.height as int, height - y) as u32,
    }
}

/// `image::load_from_memory`: what it makes of the bytes. Its error is not told apart. That each of
/// its decoders returns on malformed bytes too is that crate's own promise.
#[verifier::external_body]
fn load_picture(bytes: &[u8]) -> (r: Option<DynamicImage>)
    ensures
        decoding_outcome(bytes@, opt_pixels(r)),
{
    image::load_from_memory(bytes).ok()
}

/// `image::DynamicImage::width`: how many pixels each row has.
#[verifier::external_body]
fn picture_width(image: &DynamicImage) -> (r: u32)
    ensures
        r == dimensions(*image).0,
        forall|j: int|
            0 <= j < pixels(*image).len() ==> (#[trigger] pixels(*image)[j]).len() == r,
{
    image.width()
}

/// `image::DynamicImage::height`: how many rows there are.
#[verifier::external_body]
fn picture_height(image: &DynamicImage) -> (r: u32)
    ensures
        r == dimensions(*image).1,
        r == pixels(*image).len(),
{
    image.height()
}

/// `image::DynamicImage::crop_imm`: the pixels in the rectangle, less what reaches past the
/// picture.
#[verifier::external_body]
fn cut_picture(image: &DynamicImage, crop: Crop) -> (r: DynamicImage)
    ensures
        dimensions(r) == (
            bounded(crop, dimensions(*image).0, dimensions(*image).1).width,
            bounded(crop, dimensions(*image).0, dimensions(*image).1).height,
        ),
        pixels(r) == cropped(
            pixels(*image),
            bounded(crop, dimensions(*image).0, dimensions(*image).1),
        ),
{
    image.crop_imm(crop.x, crop.y, crop.width, crop.height)
}

/// The part of a picture that fills a landscape card. `target_height` is the height that goes
/// with the picture's width, `target_width` the width that goes with its height: a picture that
/// is high enough loses rows above and below, another one columns on both sides.
pub open spec fn landscape(
    width: u32,
    height: u32,
    target_height: u32,
    target_width: u32,
) -> Crop {
    if target_height <= height {
        Crop {
            x: 0,
            y: ((height - target_height) / 2) as u32,
            width,
            height: most(target_height as int, 1) as u32,
        }
    } else {
        let columns = least(most(target_width as int, 1), width as int);
        Crop { x: ((width - columns) / 2) as u32, y: 0, width: columns as u32, height }
    }
}

/// The part of a picture that fills a landscape card.
pub fn landscape_crop(width: u32, height: u32, target_height: u32, target_width: u32) -> (r: Crop)
    requires
        target_height <= height || width >= 1,
    ensures
        r == landscape(width, height, target_height, target_width),
{
    if target_height <= height {
        Crop {
            x: 0,
            y: (height - target_height) / 2,
            width,
            height: if target_height >= 1 {
                target_height
            } else {
                1
            },
        }
    } else {
        let columns: u32 = if target_width < 1 {
            1
        } else if target_width > width {
            width
        } else {
            target_width
        };
        Crop { x: (width - columns) / 2, y: 0, width: columns, height }
    }
}

/// The width and the height of a picture.
pub fn size_of_picture(image: &DynamicImage) -> (r: (u32, u32))
    ensures
        r == dimensions(*image),
        pixels(*image).len() == r.1,
        forall|j: int|
            0 <= j < pixels(*image).len() ==> (#[trigger] pixels(*image)[j]).len() == r.0,
{
    (picture_width(image), picture_height(image))
}

/// Whether a picture has a part that fills a landscape card: it is high enough, or has columns to
/// choose from.
pub open spec fn has_landscape(image: DynamicImage, target_height: u32) -> bool {
    target_height <= dimensions(image).1 || dimensions(image).0 >= 1
}

/// Whether `cut` is the part of `image` that fills a landscape card.
pub open spec fn is_landscape_of(
    cut: DynamicImage,
    image: DynamicImage,
    target_height: u32,
    target_width: u32,
) -> bool {
    let (width, height) = dimensions(image);
    let crop = bounded(landscape(width, height, target_height, target_width), width, height);
    &&& dimensions(cut) == (crop.width, crop.height)
    &&& pixels(cut) == cropped(pixels(image), crop)
}

/// Cuts a picture to the cards' landscape shape, round its middle.
pub fn crop_to_landscape(image: DynamicImage, target_height: u32, target_width: u32) -> (r:
    DynamicImage)
    requires
        has_landscape(image, target_height),
    ensures
        is_landscape_of(r, image, target_height, target_width),
{
    let (width, height) = size_of_picture(&image);
    cut_picture(&image, landscape_crop(width, height, target_height, target_width))
}

/// Cuts a picture to the cards' landscape shape; one that has no such part is left as it is.
pub fn fit_to_card(image: DynamicImage, target_height: u32, target_width: u32) -> (r: DynamicImage)
    ensures
        has_landscape(image, target_height) ==> is_landscape_of(
            r,
            image,
            target_height,
            target_width,
        ),
        !has_landscape(image, target_height) ==> r == image,
{
    let (width, height) = size_of_picture(&image);
    if target_height > height && width == 0 {
        return image;
    }
    crop_to_landscape(image, target_height, target_width)
}

/// Decodes a downloaded picture.
pub fn decode_artwork(bytes: &[u8]) -> (r: Option<DynamicImage>)
    ensures
        decoding_outcome(bytes@, opt_pixels(r)),
{
    load_picture(bytes)
}

/// What to do next to get a channel's picture.
pub enum ArtworkStep {
    /// Download this picture.
    Fetch(String),
    /// Nothing: this is the picture's address, where there is one.
    Settled(Option<String>),
}

/// The model of an `ArtworkStep`.
pub enum StepModel {
    Fetch(Seq<char>),
    Settled(Option<Seq<char>>),
}

impl View for ArtworkStep {
    type V = StepModel;

    open spec fn view(&self) -> StepModel {
        match *self {
            ArtworkStep::Fetch(url) => StepModel::Fetch(url@),
            ArtworkStep::Settled(url) => StepModel::Settled(opt_view(url)),
        }
    }
}

/// The addresses to try, in their order.
pub open spec fn candidates(medium: Option<Seq<char>>, thumb: Option<Seq<char>>) -> Seq<Seq<char>> {
    match (medium, thumb) {
        (Some(m), Some(t)) => seq![m, t],
        (Some(m), None) => seq![m],
        (None, Some(t)) => seq![t],
        (None, None) => Seq::empty(),
    }
}

/// The step after the first `failed` candidates could not be loaded: the next candidate is
/// settled on if it is the picture already shown, else it is downloaded; where none is left the
/// first one is remembered without a picture.
pub open spec fn artwork_step(
    medium: Option<Seq<char>>,
    thumb: Option<Seq<char>>,
    known: Option<Seq<char>>,
    failed: int,
) -> StepModel {
    let urls = candidates(medium, thumb);
    if 0 <= failed < urls.len() {
        if known == Some(urls[failed]) {
            StepModel::Settled(known)
        } else {
            StepModel::Fetch(urls[failed])
        }
    } else if urls.len() > 0 {
        StepModel::Settled(Some(urls[0]))
    } else {
        StepModel::Settled(None)
    }
}

/// Whether `known` holds `url`.
fn is_known(url: &String, known: &Option<String>) -> (r: bool)
    ensures
        r == (opt_view(*known) == Some(url@)),
{
    match known {
        Some(known) => *url == *known,
        None => false,
    }
}

/// A copy of an optional text.
pub fn copy_text(text: &Option<String>) -> (r: Option<String>)
    ensures
        r == *text,
{
    match text {
        Some(text) => Some(text.clone()),
        None => None,
    }
}

/// The step after the first `failed` candidates could not be loaded.
pub fn next_artwork_step(
    medium: &Option<String>,
    thumb: &Option<String>,
    known: &Option<String>,
    failed: usize,
) -> (r: ArtworkStep)
    ensures
        r@ == artwork_step(opt_view(*medium), opt_view(*thumb), opt_view(*known), failed as int),
{
    let candidate = match (medium, thumb) {
        (Some(first), _) if failed == 0 => Some(first),
        (Some(_), Some(second)) if failed == 1 => Some(second),
        (None, Some(first)) if failed == 0 => Some(first),
        _ => None,
    };
    match candidate {
        Some(url) => if is_known(url, known) {
            ArtworkStep::Settled(Some(url.clone()))
        } else {
            ArtworkStep::Fetch(url.clone())
        },
        None => match medium {
            Some(url) => ArtworkStep::Settled(Some(url.clone())),
            None => ArtworkStep::Settled(copy_text(thumb)),
        },
    }
}

/// A picture that is already shown is never downloaded again.
pub proof fn law_a_known_picture_is_not_fetched(
    medium: Option<Seq<char>>,
    thumb: Option<Seq<char>>,
    known: Option<Seq<char>>,
    failed: int,
)
    ensures
        artwork_step(medium, thumb, known, failed) matches StepModel::Fetch(url) ==> known != Some(
            url,
        ),
{
}

/// At most two downloads are tried, and each is one of the two addresses that the feed gave.
pub proof fn law_at_most_two_pictures_are_tried(
    medium: Option<Seq<char>>,
    thumb: Option<Seq<char>>,
    known: Option<Seq<char>>,
    failed: int,
)
    ensures
        failed >= 2 ==> artwork_step(medium, thumb, known, failed) is Settled,
        artwork_step(medium, thumb, known, failed) matches StepModel::Fetch(url) ==> medium == Some(
            url,
        ) || thumb == Some(url),
{
}

/// A landscape crop lies in its picture, and keeps its whole width or its whole height.
pub proof fn law_landscape_lies_in_the_picture(
    width: u32,
    height: u32,
    target_height: u32,
    target_width: u32,
)
    requires
        width >= 1,
        height >= 1,
    ensures
        ({
            let crop = landscape(width, height, target_height, target_width);
            &&& bounded(crop, width, height) == crop
            &&& crop.width >= 1 && crop.height >= 1
            &&& crop.width == width || crop.height == height
            &&& target_height <= height ==> {
                let above = crop.y as int;
                let below = height - crop.y - crop.height;
                target_height >= 1 ==> above <= below <= above + 1
            }
            &&& target_height > height ==> {
                let left = crop.x as int;
                let right = width - crop.x - crop.width;
                left <= right <= left + 1
            }
        }),
{
}


/// Pictures are shown where the terminal has more than half blocks for them.
pub proof fn law_half_blocks_show_no_pictures(graphics: Graphics, r: bool)
    requires
        call_ensures(Graphics::supports_artwork, (graphics,), r),
    ensures
        r <==> graphics == Graphics::Sixel || graphics == Graphics::Kitty || graphics
            == Graphics::Iterm2,
{
}

/// The larger picture is tried first and the smaller one after it; the one that is already shown is
/// kept without a download; and where none can be had, the first address is remembered.
pub proof fn law_the_larger_picture_is_tried_first(
    medium: Option<String>,
    thumb: Option<String>,
    known: Option<String>,
    failed: usize,
    r: ArtworkStep,
)
    requires
        call_ensures(next_artwork_step, (&medium, &thumb, &known, failed), r),
    ensures
        medium matches Some(url) ==> failed == 0 ==> tries(r, url, known),
        thumb matches Some(url) ==> (if medium is Some {
            failed == 1
        } else {
            failed == 0
        }) ==> tries(r, url, known),
        failed >= 2 || (thumb is None && failed >= 1) || (medium is None && failed >= 1) || (medium
            is None && thumb is None) ==> settles(
            r,
            if medium is Some {
                medium
            } else {
                thumb
            },
        ),
{
}

/// Whether the step is to remember `url` and to load nothing.
pub open spec fn settles(step: ArtworkStep, url: Option<String>) -> bool {
    step matches ArtworkStep::Settled(kept) && opt_view(kept) == opt_view(url)
}

/// Whether the step is to load the picture at `url`, or to keep it where it is shown already.
pub open spec fn tries(step: ArtworkStep, url: String, known: Option<String>) -> bool {
    match step {
        ArtworkStep::Fetch(wanted) => wanted@ == url@ && opt_view(known) != Some(url@),
        ArtworkStep::Settled(kept) => opt_view(kept) == Some(url@) && opt_view(known) == Some(
            url@,
        ),
    }
}

/// A picture is cut to the cards' shape round its middle: one that is high enough keeps its columns
/// and loses as many rows above as below, another one keeps its rows and loses as many columns on
/// the left as on the right.
pub proof fn law_a_picture_is_cut_round_its_middle(
    image: DynamicImage,
    target_height: u32,
    target_width: u32,
    r: DynamicImage,
)
    requires
        call_ensures(fit_to_card, (image, target_height, target_width), r),
        dimensions(image).0 >= 1,
        dimensions(image).1 >= 1,
        target_height >= 1,
        target_width >= 1,
    ensures
        ({
            let (width, height) = dimensions(image);
            let columns = if target_height <= height || target_width > width {
                width
            } else {
                target_width
            };
            let rows = if target_height <= height {
                target_height
            } else {
                height
            };
            &&& dimensions(r) == (columns, rows)
            &&& pixels(r).len() == rows
            &&& forall|j: int|
                0 <= j < rows ==> #[trigger] pixels(r)[j] == pixels(image)[(height - rows) / 2
                    + j].subrange((width - columns) / 2, (width - columns) / 2 + columns)
        }),
{
    let (width, height) = dimensions(image);
    assert(has_landscape(image, target_height));
    assert(is_landscape_of(r, image, target_height, target_width));
    law_landscape_lies_in_the_picture(width, height, target_height, target_width);
}

/// What is decoded is what the bytes hold.
pub proof fn law_a_download_is_decoded(bytes: &[u8], r: Option<DynamicImage>)
    requires
        call_ensures(decode_artwork, (bytes,), r),
    ensures
        decoding_outcome(bytes@, opt_pixels(r)),
{
}

} // verus!
