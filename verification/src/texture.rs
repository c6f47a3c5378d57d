use crate::color::Color;
use image::DynamicImage;
use image::GenericImageView;
use image::ImageFormat;
use image::Pixel;
use vstd::prelude::*;

verus! {

/// A decoded image of the `image` crate, held as it comes.
#[verifier::external_type_specification]
#[verifier::external_body]
pub struct ExDynamicImage(image::DynamicImage);

/// An image file format of the `image` crate.
#[verifier::external_type_specification]
#[verifier::external_body]
pub struct ExImageFormat(image::ImageFormat);

/// The number of pixel columns of a decoded image: what
/// `image::DynamicImage::width` returns for it.
pub uninterp spec fn image_width(img: DynamicImage) -> nat;

/// The number of pixel rows of a decoded image: what
/// `image::DynamicImage::height` returns for it.
pub uninterp spec fn image_height(img: DynamicImage) -> nat;

/// The red, green and blue channels of each pixel of a decoded image, by
/// column and row: what `get_pixel` reports there, converted to eight bits
/// per channel where the image holds something else.
pub uninterp spec fn image_pixels(img: DynamicImage) -> Map<(int, int), (u8, u8, u8)>;

/// The format that the extension of a path stands for, `None` where the
/// `image` crate knows no format by that extension: what
/// `image::ImageFormat::from_path` returns, an error taken as `None`.
pub uninterp spec fn path_format(path: Seq<char>) -> Option<ImageFormat>;

/// The image that the bytes of a file decode to in a given format, `None`
/// where they do not decode: what `image::load_from_memory_with_format`
/// returns, an error taken as `None`.
pub uninterp spec fn decoded_image(bytes: Seq<u8>, format: ImageFormat) -> Option<DynamicImage>;

/// Calls `image::ImageFormat::from_path`, which looks the extension of
/// `path` up in a fixed table. The result is trusted to depend on the path
/// alone; nothing is claimed of which format an extension stands for.
#[verifier::external_body]
fn format_of_path(path: &str) -> (format: Option<ImageFormat>)
    ensures
        format == path_format(path@),
{
    ImageFormat::from_path(path).ok()
}

/// Calls `image::load_from_memory_with_format`, which decodes `bytes` with
/// the built-in decoder of the format under the crate's default limits. The
/// result is trusted to depend on the bytes and the format alone; nothing is
/// claimed of which bytes decode, or to what.
#[verifier::external_body]
fn decode(bytes: &[u8], format: ImageFormat) -> (decoded: Option<DynamicImage>)
    ensures
        decoded == decoded_image(bytes@, format),
{
    image::load_from_memory_with_format(bytes, format).ok()
}

/// Calls `image::DynamicImage::width`; the result is trusted to be the
/// width that the other wrappers speak of.
#[verifier::external_body]
fn width_of(img: &DynamicImage) -> (w: u32)
    ensures
        w == image_width(*img),
{
    img.width()
}

/// Calls `image::DynamicImage::height`; the result is trusted to be the
/// height that the other wrappers speak of.
#[verifier::external_body]
fn height_of(img: &DynamicImage) -> (h: u32)
    ensures
        h == image_height(*img),
{
    img.height()
}

/// Calls `GenericImageView::get_pixel` on a `DynamicImage` and drops the
/// alpha channel with `Pixel::to_rgb`. The call panics outside the image,
/// hence the bounds. The result is trusted to depend on the image and the
/// coordinates alone.
#[verifier::external_body]
fn pixel_of(img: &DynamicImage, x: u32, y: u32) -> (rgb: (u8, u8, u8))
    requires
        x < image_width(*img),
        y < image_height(*img),
    ensures
        rgb == image_pixels(*img)[(x as int, y as int)],
{
    let pixel = img.get_pixel(x, y).to_rgb();
    (pixel[0], pixel[1], pixel[2])
}

/// The colour returned for a coordinate outside a texture.
pub open spec fn sentinel() -> Color {
    Color { r: 255, g: 0, b: 255 }
}

/// Why a texture could not be loaded from a file.
#[derive(Debug, Clone, Copy, PartialEq, Eq, Structural)]
pub enum LoadError {
    /// The file could not be read.
    Unreadable,
    /// The extension of the path names no image format.
    UnknownFormat,
    /// The contents are no image of the format that the extension names.
    Undecodable,
    /// The image has more pixels than can be addressed.
    TooLarge,
}

/// What a texture is: its size and its colours, row by row.
pub struct TextureGrid {
    pub width: nat,
    pub height: nat,
    pub colors: Seq<Color>,
}

impl TextureGrid {
    /// The single black pixel that stands in for an image that could not be
    /// loaded.
    pub open spec fn black() -> TextureGrid {
        TextureGrid { width: 1, height: 1, colors: seq![Color { r: 0, g: 0, b: 0 }] }
    }

    /// The colours of a decoded image, alpha dropped.
    pub open spec fn of_image(img: DynamicImage) -> TextureGrid {
        let w = image_width(img);
        let h = image_height(img);
        TextureGrid {
            width: w,
            height: h,
            colors: Seq::new(
                w * h,
                |i: int|
                    {
                        let rgb = image_pixels(img)[(i % (w as int), i / (w as int))];
                        Color { r: rgb.0, g: rgb.1, b: rgb.2 }
                    },
            ),
        }
    }

    /// Whether the pixels of `img` can all be addressed.
    pub open spec fn fits(img: DynamicImage) -> bool {
        image_width(img) * image_height(img) <= usize::MAX
    }

    /// The outcome of decoding the file at `path`, `contents` being its
    /// bytes, or `None` for a file that could not be read. The format is
    /// the one that the extension of the path stands for.
    pub open spec fn decoding(path: Seq<char>, contents: Option<Seq<u8>>) -> Option<DynamicImage> {
        match contents {
            None => None,
            Some(bytes) => match path_format(path) {
                None => None,
                Some(format) => decoded_image(bytes, format),
            },
        }
    }

    /// The texture that the file at `path` gives, or why it gives none.
    pub open spec fn loaded(path: Seq<char>, contents: Option<Seq<u8>>) -> Result<
        TextureGrid,
        LoadError,
    > {
        match contents {
            None => Err(LoadError::Unreadable),
            Some(bytes) => match path_format(path) {
                None => Err(LoadError::UnknownFormat),
                Some(format) => match decoded_image(bytes, format) {
                    None => Err(LoadError::Undecodable),
                    Some(img) => if TextureGrid::fits(img) {
                        Ok(TextureGrid::of_image(img))
                    } else {
                        Err(LoadError::TooLarge)
                    },
                },
            },
        }
    }

    /// The texture made from the outcome of decoding a file: the image's
    /// colours, or the black pixel where decoding failed or the image has
    /// more pixels than can be addressed.
    pub open spec fn of_decoded(decoded: Option<DynamicImage>) -> TextureGrid {
        match decoded {
            Some(img) => if TextureGrid::fits(img) {
                TextureGrid::of_image(img)
            } else {
                TextureGrid::black()
            },
            None => TextureGrid::black(),
        }
    }

    /// One colour for each cell of the grid.
    pub open spec fn wf(self) -> bool {
        self.colors.len() == self.width * self.height
    }

    /// The colour at column `x` and row `y`; the sentinel outside the grid.
    pub open spec fn color_at(self, x: int, y: int) -> Color {
        if 0 <= x < self.width && 0 <= y < self.height {
            self.colors[y * self.width + x]
        } else {
            sentinel()
        }
    }
}

/// An immutable grid of colours, sampled once from a decoded image.
#[derive(Debug)]
pub struct Texture {
    width: usize,
    height: usize,
    color_array: Vec<Color>,
}

impl View for Texture {
    type V = TextureGrid;

    closed spec fn view(&self) -> TextureGrid {
        TextureGrid {
            width: self.width as nat,
            height: self.height as nat,
            colors: self.color_array@,
        }
    }
}

impl Clone for Texture {
    fn clone(&self) -> (t: Texture)
        ensures
            t@ == self@,
    {
        proof {
            use_type_invariant(self);
        }
        let color_array = self.color_array.clone();
        assert(color_array@ =~= self.color_array@);
        Texture { width: self.width, height: self.height, color_array }
    }
}

impl Texture {
    /// The grid holds exactly one colour for each cell.
    #[verifier::type_invariant]
    spec fn inv(self) -> bool {
        self.color_array@.len() == self.width * self.height
    }

    /// The number of columns.
    pub fn width(&self) -> (w: usize)
        ensures
            w == self@.width,
            self@.wf(),
    {
        proof {
            use_type_invariant(self);
        }
        self.width
    }

    /// The number of rows.
    pub fn height(&self) -> (h: usize)
        ensures
            h == self@.height,
            self@.wf(),
    {
        proof {
            use_type_invariant(self);
        }
        self.height
    }

    /// Loads a texture from the contents of the file at `file_path`, `None`
    /// standing for a file that could not be read. The format is taken from
    /// the path's extension. A file that decodes gives the grid of its
    /// image; a file that cannot be read or decoded gives the black texture.
    pub fn new(file_path: &str, contents: Option<&[u8]>) -> (t: Texture)
        ensures
            t@ == TextureGrid::of_decoded(
                TextureGrid::decoding(
                    file_path@,
                    match contents {
                        Some(bytes) => Some(bytes@),
                        None => None,
                    },
                ),
            ),
    {
        match Texture::load(file_path, contents) {
            Ok(t) => t,
            Err(_) => Texture::black(),
        }
    }

    /// Loads a texture as `new` does, and says why where the file gives
    /// none, so that the caller can report it before it falls back.
    pub fn load(file_path: &str, contents: Option<&[u8]>) -> (loaded: Result<Texture, LoadError>)
        ensures
            match (
                loaded,
                TextureGrid::loaded(
                    file_path@,
                    match contents {
                        Some(bytes) => Some(bytes@),
                        None => None,
                    },
                ),
            ) {
                (Ok(t), Ok(grid)) => t@ == grid,
                (Err(e), Err(why)) => e == why,
                _ => false,
            },
    {
        match contents {
            None => Err(LoadError::Unreadable),
            Some(bytes) => match format_of_path(file_path) {
                None => Err(LoadError::UnknownFormat),
                Some(format) => match decode(bytes, format) {
                    None => Err(LoadError::Undecodable),
                    Some(img) => match Texture::from_image(&img) {
                        Some(t) => Ok(t),
                        None => Err(LoadError::TooLarge),
                    },
                },
            },
        }
    }

    /// The texture for the outcome of decoding an image file.
    pub fn from_decoded(decoded: Option<DynamicImage>) -> (t: Texture)
        ensures
            t@ == TextureGrid::of_decoded(decoded),
    {
        match decoded {
            None => Texture::black(),
            Some(img) => match Texture::from_image(&img) {
                Some(t) => t,
                None => Texture::black(),
            },
        }
    }

    /// The grid of a decoded image, unless it has more pixels than can be
    /// addressed.
    pub fn from_image(img: &DynamicImage) -> (t: Option<Texture>)
        ensures
            match t {
                Some(t) => TextureGrid::fits(*img) && t@ == TextureGrid::of_image(*img),
                None => !TextureGrid::fits(*img),
            },
    {
        let width = width_of(img) as usize;
        let height = height_of(img) as usize;
        match width.checked_mul(height) {
            None => None,
            Some(_) => {
                let color_array = Texture::load_color_array(img, width, height);
                Some(Texture { width, height, color_array })
            },
        }
    }

    /// Samples every pixel of `img`, row by row.
    fn load_color_array(img: &DynamicImage, width: usize, height: usize) -> (colors: Vec<Color>)
        requires
            width == image_width(*img),
            height == image_height(*img),
            width <= u32::MAX,
            height <= u32::MAX,
            width * height <= usize::MAX,
        ensures
            colors@ == TextureGrid::of_image(*img).colors,
    {
        let ghost target = TextureGrid::of_image(*img).colors;
        let mut colors: Vec<Color> = Vec::new();
        let mut y: usize = 0;
        while y < height
            invariant
                y <= height,
                width <= u32::MAX,
                height <= u32::MAX,
                width == image_width(*img),
                height == image_height(*img),
                width * height <= usize::MAX,
                target == TextureGrid::of_image(*img).colors,
                colors@.len() == y * width,
                forall|i: int| 0 <= i < colors@.len() ==> colors@[i] == target[i],
            decreases height - y,
        {
            let mut x: usize = 0;
            while x < width
                invariant
                    y < height,
                    x <= width,
                    width <= u32::MAX,
                    height <= u32::MAX,
                    width == image_width(*img),
                    height == image_height(*img),
                    width * height <= usize::MAX,
                    target == TextureGrid::of_image(*img).colors,
                    colors@.len() == y * width + x,
                    forall|i: int| 0 <= i < colors@.len() ==> colors@[i] == target[i],
                decreases width - x,
            {
                let rgb = pixel_of(img, x as u32, y as u32);
                let hex: u32 = ((rgb.0 as u32) << 16) | ((rgb.1 as u32) << 8) | (rgb.2 as u32);
                let color = Color::from_hex(hex);
                proof {
                    let (r, g, b) = rgb;
                    assert(((((r as u32) << 16) | ((g as u32) << 8) | (b as u32)) / 65536) % 256
                        == r && ((((r as u32) << 16) | ((g as u32) << 8) | (b as u32)) / 256) % 256
                        == g && (((r as u32) << 16) | ((g as u32) << 8) | (b as u32)) % 256 == b)
                        by (bit_vector);
                    let i = y * width + x;
                    let w = width as int;
                    assert(i % w == x && i / w == y && i < w * height) by (nonlinear_arith)
                        requires
                            i == y * w + x,
                            0 <= x < w,
                            0 <= y < height,
                    ;
                }
                colors.push(color);
                x += 1;
            }
            assert((y + 1) * width == y * width + width) by (nonlinear_arith);
            y += 1;
        }
        assert(colors@.len() == width * height) by (nonlinear_arith)
            requires
                colors@.len() == y * width,
                y == height,
        ;
        assert(colors@ =~= target);
        colors
    }

    /// The colour at column `x` and row `y`, or the sentinel magenta
    /// outside the grid.
    pub fn get_color(&self, x: usize, y: usize) -> (c: Color)
        ensures
            c == self@.color_at(x as int, y as int),
    {
        if x >= self.width || y >= self.height {
            Color::from_hex(0xFF00FF)
        } else {
            proof {
                use_type_invariant(self);
                let w = self.width as int;
                assert(0 <= y * w <= y * w + x < w * self.height) by (nonlinear_arith)
                    requires
                        0 <= x < w,
                        0 <= y < self.height,
                ;
                assert(self.color_array@.len() == self.color_array.len());
            }
            self.color_array[y * self.width + x]
        }
    }

    /// The one-pixel black texture.
    pub fn black() -> (t: Texture)
        ensures
            t@ == TextureGrid::black(),
    {
        let mut color_array: Vec<Color> = Vec::new();
        color_array.push(Color::new(0, 0, 0));
        let t = Texture { width: 1, height: 1, color_array };
        assert(t@.colors =~= TextureGrid::black().colors);
        t
    }
}

} // verus!
