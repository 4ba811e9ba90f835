//! The pictures of the tray icon.
use crate::mode::IconMode;
use vstd::prelude::*;

verus! {

/// The largest side of a picture that becomes an icon, in pixels.
pub const ICON_SIDE: u32 = 256;

/// The side of the square that stands in for a missing picture, in pixels.
pub const SQUARE_SIDE: u32 = 32;

/// How many samples of sixteen bits can be averaged at most: their sum, and half their number for
/// the rounding, fit into 32 bits.
pub const BLOCK_LIMIT: u64 = 65536;

/// A picture: rows of pixels of four bytes each, red, green, blue and opacity.
pub struct Raster {
    pub width: u32,
    pub height: u32,
    pub rgba: Vec<u8>,
}

/// What a picture shows.
pub struct RasterView {
    pub width: u32,
    pub height: u32,
    pub rgba: Seq<u8>,
}

impl View for Raster {
    type V = RasterView;

    open spec fn view(&self) -> RasterView {
        RasterView { width: self.width, height: self.height, rgba: self.rgba@ }
    }
}

impl RasterView {
    /// Whether there are four bytes for each pixel.
    pub open spec fn is_full(self) -> bool {
        self.rgba.len() == 4 * (self.width * self.height)
    }
}

/// The colour of the square that stands in for the picture of `mode`.
pub open spec fn icon_color_of(mode: IconMode) -> Seq<u8> {
    match mode {
        IconMode::Tun => seq![255u8, 220u8, 0u8, 255u8],
        IconMode::SystemProxy => seq![30u8, 144u8, 255u8, 255u8],
        IconMode::Normal => seq![240u8, 240u8, 240u8, 255u8],
    }
}

/// The colour of the square that stands in for the picture of `mode`.
pub fn icon_color(mode: IconMode) -> (color: [u8; 4])
    ensures
        color@ == icon_color_of(mode),
{
    let color: [u8; 4] = match mode {
        IconMode::Tun => [255u8, 220u8, 0u8, 255u8],
        IconMode::SystemProxy => [30u8, 144u8, 255u8, 255u8],
        IconMode::Normal => [240u8, 240u8, 240u8, 255u8],
    };
    assert(color@ =~= icon_color_of(mode));
    color
}

/// The square that stands in for the picture of `mode`: every pixel has the colour of the mode.
pub open spec fn square_of(mode: IconMode) -> RasterView {
    RasterView {
        width: SQUARE_SIDE,
        height: SQUARE_SIDE,
        rgba: Seq::new(
            (4 * (SQUARE_SIDE * SQUARE_SIDE)) as nat,
            |k: int| icon_color_of(mode)[k % 4],
        ),
    }
}

/// The square that stands in for the picture of `mode`.
pub fn solid_square(mode: IconMode) -> (square: Raster)
    ensures
        square@ == square_of(mode),
        square@.is_full(),
{
    let color: [u8; 4] = icon_color(mode);
    let pixels: u32 = SQUARE_SIDE * SQUARE_SIDE;
    let mut rgba: Vec<u8> = Vec::new();
    for i in 0..pixels
        invariant
            color@ == icon_color_of(mode),
            color@.len() == 4,
            rgba@.len() == 4 * i,
            forall|k: int| 0 <= k < rgba@.len() ==> #[trigger] rgba@[k] == icon_color_of(mode)[k % 4],
    {
        rgba.push(color[0]);
        rgba.push(color[1]);
        rgba.push(color[2]);
        rgba.push(color[3]);
    }
    assert(rgba@ =~= square_of(mode).rgba);
    Raster { width: SQUARE_SIDE, height: SQUARE_SIDE, rgba }
}

/// A picture with the same pixels.
pub(crate) fn copy_of(picture: &Raster) -> (copy: Raster)
    ensures
        copy@ == picture@,
{
    let rgba: Vec<u8> = picture.rgba.clone();
    assert(rgba@ =~= picture.rgba@);
    Raster { width: picture.width, height: picture.height, rgba }
}

/// The number in the four bytes from `at` on, the highest first.
pub open spec fn be32(bytes: Seq<u8>, at: int) -> int {
    bytes[at] * 0x1000000 + bytes[at + 1] * 0x10000 + bytes[at + 2] * 0x100 + bytes[at + 3]
}

/// The width that the header of a PNG file announces.
pub open spec fn width_of(png: Seq<u8>) -> int {
    be32(png, 16)
}

/// The height that the header of a PNG file announces.
pub open spec fn height_of(png: Seq<u8>) -> int {
    be32(png, 20)
}

/// Whether `n` is the number of pixels for a side of `short` when a side of `long` becomes `side`
/// pixels: the nearest one to the same ratio, either of two that are as near, but never none.
pub open spec fn is_scaled(n: int, short: int, long: int, side: int) -> bool {
    &&& 1 <= n
    &&& 2 * short * side - long <= 2 * n * long
    &&& n == 1 || 2 * n * long <= 2 * short * side + long
}

/// Whether a picture keeps the ratio of `width` to `height` in a square of `side` pixels: the longer
/// side fills the square, and the other is scaled alike.
pub open spec fn keeps_ratio(picture: RasterView, width: int, height: int, side: int) -> bool {
    if width >= height {
        picture.width == side && is_scaled(picture.height as int, height, width, side)
    } else {
        picture.height == side && is_scaled(picture.width as int, width, height, side)
    }
}

/// The smaller of the numbers of pixels that `is_scaled` allows.
pub open spec fn least_scaled(short: int, long: int, side: int) -> int {
    let n = (2 * short * side + long - 1) / (2 * long);
    if n < 1 {
        1
    } else {
        n
    }
}

/// Below this length, the cuts between the parts of a side are computed so closely that no pixel
/// falls on the wrong side of one.
pub const CLOSE_LENGTH: u64 = 65536;

/// How many pixels of a side of `length` come together in one of `parts` at most: the ratio, where
/// it is a whole number, else the ratio rounded up. The cuts between the parts are computed in
/// floating point, so that on a long side one more pixel can fall between two of them.
pub open spec fn extent(length: int, parts: int) -> int {
    let most = if length % parts == 0 {
        length / parts
    } else if length < CLOSE_LENGTH {
        length / parts + 1
    } else {
        length / parts + 2
    };
    if length < most {
        length
    } else {
        most
    }
}

/// How many pixels are averaged at most for one pixel of the picture that is scaled into a square of
/// `side` pixels.
pub open spec fn block_samples(width: int, height: int, side: int) -> int {
    let long = if width >= height {
        width
    } else {
        height
    };
    let short = if width >= height {
        height
    } else {
        width
    };
    extent(long, side) * extent(short, least_scaled(short, long, side))
}

/// Whether the header of a PNG file announces sixteen bits to the sample and so many pixels that the
/// sums which a thumbnail averages could overflow their 32 bits.
pub open spec fn is_too_deep(png: Seq<u8>, side: int) -> bool {
    &&& png.len() > 24
    &&& png[24] == 16
    &&& width_of(png) > 0
    &&& height_of(png) > 0
    &&& block_samples(width_of(png), height_of(png), side) > BLOCK_LIMIT
}

/// What decoding a PNG file and scaling it down into a square of `side` pixels shows, where the
/// file can be decoded.
pub uninterp spec fn png_thumbnail_of(png: Seq<u8>, side: u32) -> Option<RasterView>;

/// Calls `image::load_from_memory_with_format` for PNG, then `DynamicImage::thumbnail` and
/// `DynamicImage::into_rgba8`. A file that cannot be decoded gives nothing. Otherwise the picture
/// fits into the square, is not empty, has four bytes for each pixel, and keeps the ratio of the
/// sides that the header announces.
#[verifier::external_body]
fn png_thumbnail(png: &[u8], side: u32) -> (res: Option<Raster>)
    requires
        64 <= side <= 256,
        !is_too_deep(png@, side as int),
    ensures
        match res {
            Some(picture) => {
                &&& png_thumbnail_of(png@, side) == Some(picture@)
                &&& picture@.is_full()
                &&& 1 <= picture.width <= side
                &&& 1 <= picture.height <= side
                &&& png@.len() > 24
                &&& keeps_ratio(picture@, width_of(png@), height_of(png@), side as int)
            },
            None => png_thumbnail_of(png@, side) is None,
        },
{
    match image::load_from_memory_with_format(png, image::ImageFormat::Png) {
        Ok(image) => {
            let small = image.thumbnail(side, side).into_rgba8();
            let (width, height) = small.dimensions();
            Some(Raster { width, height, rgba: small.into_raw() })
        },
        Err(_) => None,
    }
}

/// The picture that the contents of an icon file give: none where the file could not be read, is
/// not PNG, or is too deep to be scaled.
pub open spec fn picture_of(contents: Option<Seq<u8>>) -> Option<RasterView> {
    match contents {
        Some(png) => if is_too_deep(png, ICON_SIDE as int) {
            None
        } else {
            png_thumbnail_of(png, ICON_SIDE)
        },
        None => None,
    }
}

/// The picture for the icon, from the contents of its file, scaled to the size of the tray without
/// a change of its ratio.
pub fn load_picture(contents: Option<&[u8]>) -> (picture: Option<Raster>)
    ensures
        match picture {
            Some(raster) => {
                &&& contents matches Some(png) && picture_of(Some(png@)) == Some(raster@)
                    && keeps_ratio(raster@, width_of(png@), height_of(png@), ICON_SIDE as int)
                &&& raster@.is_full()
                &&& 1 <= raster.width <= ICON_SIDE
                &&& 1 <= raster.height <= ICON_SIDE
            },
            None => contents matches Some(png) ==> picture_of(Some(png@)) is None,
        },
        // a file of other than sixteen bits to the sample gives a picture whenever it decodes
        contents matches Some(png) ==> (png@.len() <= 24 || png@[24] != 16 ==> (match picture {
            Some(raster) => png_thumbnail_of(png@, ICON_SIDE) == Some(raster@),
            None => png_thumbnail_of(png@, ICON_SIDE) is None,
        })),
{
    match contents {
        Some(png) => {
            if too_deep(png) {
                None
            } else {
                png_thumbnail(png, ICON_SIDE)
            }
        },
        None => None,
    }
}

/// Whether the picture of a PNG file is too deep to be scaled to the size of the tray.
fn too_deep(png: &[u8]) -> (deep: bool)
    ensures
        deep == is_too_deep(png@, ICON_SIDE as int),
{
    if png.len() <= 24 || png[24] != 16 {
        return false;
    }
    let width: u64 = number_at(png, 16);
    let height: u64 = number_at(png, 20);
    if width == 0 || height == 0 {
        false
    } else if width >= height {
        block_of(height, width) > BLOCK_LIMIT
    } else {
        block_of(width, height) > BLOCK_LIMIT
    }
}

/// The number in the four bytes from `at` on, the highest first.
fn number_at(bytes: &[u8], at: usize) -> (number: u64)
    requires
        at + 4 <= bytes@.len(),
    ensures
        number == be32(bytes@, at as int),
        number <= u32::MAX,
{
    bytes[at] as u64 * 0x1000000 + bytes[at + 1] as u64 * 0x10000 + bytes[at + 2] as u64 * 0x100
        + bytes[at + 3] as u64
}

/// How many pixels are averaged at most for one pixel of the tray's picture.
fn block_of(short: u64, long: u64) -> (samples: u64)
    requires
        0 < short <= long <= u32::MAX,
    ensures
        samples == block_samples(long as int, short as int, ICON_SIDE as int),
        samples == block_samples(short as int, long as int, ICON_SIDE as int),
{
    let side: u64 = ICON_SIDE as u64;
    let parts: u64 = (2 * short * side + long - 1) / (2 * long);
    let parts: u64 = if parts < 1 {
        1
    } else {
        parts
    };
    let wide: u64 = pixels_in(long, side);
    let high: u64 = pixels_in(short, parts);
    assert(wide * high <= 0x4000002 * 0x100000000) by (nonlinear_arith)
        requires
            0 <= wide <= 0x4000002,
            0 <= high <= 0x100000000,
    ;
    wide * high
}

fn pixels_in(length: u64, parts: u64) -> (pixels: u64)
    requires
        length <= u32::MAX,
        parts > 0,
    ensures
        pixels == extent(length as int, parts as int),
        pixels <= length,
{
    assert(length / parts <= length) by (nonlinear_arith)
        requires
            parts > 0,
    ;
    let most: u64 = if length % parts == 0 {
        length / parts
    } else if length < CLOSE_LENGTH {
        length / parts + 1
    } else {
        length / parts + 2
    };
    if length < most {
        length
    } else {
        most
    }
}

} // verus!
