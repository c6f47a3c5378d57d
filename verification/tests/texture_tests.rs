use image::DynamicImage;
use image::ImageFormat;
use image::Rgb;
use image::RgbImage;
use image::Rgba;
use image::RgbaImage;
use raytracer::color::Color;
use raytracer::texture::LoadError;
use raytracer::texture::Texture;
use std::io::Cursor;

const MAGENTA: Color = Color { r: 255, g: 0, b: 255 };

fn sample_image() -> RgbImage {
    // 3 columns, 2 rows; every pixel different in every channel.
    let mut img = RgbImage::new(3, 2);
    for y in 0..2u32 {
        for x in 0..3u32 {
            img.put_pixel(x, y, Rgb([(10 * x + y) as u8, (100 + 20 * x + y) as u8, (200 + x + 10 * y) as u8]));
        }
    }
    img
}

fn expected_at(x: u32, y: u32) -> Color {
    Color::new((10 * x + y) as i32, (100 + 20 * x + y) as i32, (200 + x + 10 * y) as i32)
}

fn encoded(img: &DynamicImage, format: ImageFormat) -> Vec<u8> {
    let mut bytes = Vec::new();
    img.write_to(&mut Cursor::new(&mut bytes), format).unwrap();
    bytes
}

#[test]
fn black_texture_is_one_black_pixel() {
    let t = Texture::black();
    assert_eq!((t.width(), t.height()), (1, 1));
    assert_eq!(t.get_color(0, 0), Color::black());
}

#[test]
fn out_of_range_is_magenta() {
    let t = Texture::black();
    assert_eq!(t.get_color(1, 0), MAGENTA);
    assert_eq!(t.get_color(0, 1), MAGENTA);
    assert_eq!(t.get_color(usize::MAX, usize::MAX), MAGENTA);
}

#[test]
fn unreadable_file_gives_the_black_texture() {
    let t = Texture::new("assets/missing.png", None);
    assert_eq!((t.width(), t.height()), (1, 1));
    assert_eq!(t.get_color(0, 0), Color::black());
}

#[test]
fn undecodable_bytes_give_the_black_texture() {
    let t = Texture::new("broken.png", Some(&[1u8, 2, 3, 4, 5][..]));
    assert_eq!((t.width(), t.height()), (1, 1));
    assert_eq!(t.get_color(0, 0), Color::black());
    let empty = Texture::new("empty.jpg", Some(&[][..]));
    assert_eq!((empty.width(), empty.height()), (1, 1));
}

#[test]
fn unknown_extension_gives_the_black_texture() {
    let bytes = encoded(&DynamicImage::ImageRgb8(sample_image()), ImageFormat::Png);
    let t = Texture::new("picture.unknown", Some(&bytes[..]));
    assert_eq!((t.width(), t.height()), (1, 1));
    assert_eq!(t.get_color(0, 0), Color::black());
    let bare = Texture::new("picture", Some(&bytes[..]));
    assert_eq!((bare.width(), bare.height()), (1, 1));
}

#[test]
fn format_comes_from_the_extension_not_the_contents() {
    let bytes = encoded(&DynamicImage::ImageRgb8(sample_image()), ImageFormat::Png);
    let t = Texture::new("picture.jpg", Some(&bytes[..]));
    assert_eq!((t.width(), t.height()), (1, 1));
    assert_eq!(t.get_color(0, 0), Color::black());
}

#[test]
fn png_is_sampled_pixel_by_pixel() {
    let bytes = encoded(&DynamicImage::ImageRgb8(sample_image()), ImageFormat::Png);
    let t = Texture::new("assets/sample.png", Some(&bytes[..]));
    assert_eq!((t.width(), t.height()), (3, 2));
    for y in 0..2u32 {
        for x in 0..3u32 {
            assert_eq!(t.get_color(x as usize, y as usize), expected_at(x, y));
        }
    }
    assert_eq!(t.get_color(3, 0), MAGENTA);
    assert_eq!(t.get_color(0, 2), MAGENTA);
}

#[test]
fn extension_case_does_not_matter() {
    let bytes = encoded(&DynamicImage::ImageRgb8(sample_image()), ImageFormat::Png);
    let t = Texture::new("SAMPLE.PNG", Some(&bytes[..]));
    assert_eq!((t.width(), t.height()), (3, 2));
    assert_eq!(t.get_color(2, 1), expected_at(2, 1));
}

#[test]
fn decoded_image_is_sampled_pixel_by_pixel() {
    let t = Texture::from_decoded(Some(DynamicImage::ImageRgb8(sample_image())));
    assert_eq!((t.width(), t.height()), (3, 2));
    for y in 0..2u32 {
        for x in 0..3u32 {
            assert_eq!(t.get_color(x as usize, y as usize), expected_at(x, y));
        }
    }
}

#[test]
fn alpha_is_dropped() {
    let mut img = RgbaImage::new(2, 1);
    img.put_pixel(0, 0, Rgba([1, 2, 3, 0]));
    img.put_pixel(1, 0, Rgba([4, 5, 6, 128]));
    let t = Texture::from_decoded(Some(DynamicImage::ImageRgba8(img)));
    assert_eq!((t.width(), t.height()), (2, 1));
    assert_eq!(t.get_color(0, 0), Color::new(1, 2, 3));
    assert_eq!(t.get_color(1, 0), Color::new(4, 5, 6));
}

#[test]
fn failed_decode_gives_the_black_texture() {
    let t = Texture::from_decoded(None);
    assert_eq!((t.width(), t.height()), (1, 1));
    assert_eq!(t.get_color(0, 0), Color::black());
}

#[test]
fn image_without_pixels_gives_an_empty_texture() {
    let t = Texture::from_decoded(Some(DynamicImage::new_rgb8(0, 4)));
    assert_eq!((t.width(), t.height()), (0, 4));
    assert_eq!(t.get_color(0, 0), MAGENTA);
}

#[test]
fn jpeg_of_one_flat_colour_is_decoded() {
    let mut img = RgbImage::new(8, 8);
    for pixel in img.pixels_mut() {
        *pixel = Rgb([255, 255, 255]);
    }
    let bytes = encoded(&DynamicImage::ImageRgb8(img), ImageFormat::Jpeg);
    let t = Texture::new("white.jpeg", Some(&bytes[..]));
    assert_eq!((t.width(), t.height()), (8, 8));
    let c = t.get_color(4, 4);
    assert!(c.r >= 250 && c.g >= 250 && c.b >= 250);
}

#[test]
fn clone_keeps_the_grid() {
    let t = Texture::from_decoded(Some(DynamicImage::ImageRgb8(sample_image())));
    let copy = t.clone();
    assert_eq!((copy.width(), copy.height()), (3, 2));
    assert_eq!(copy.get_color(1, 1), expected_at(1, 1));
}

#[test]
fn load_says_why_a_file_gives_no_texture() {
    let png = encoded(&DynamicImage::ImageRgb8(sample_image()), ImageFormat::Png);
    assert_eq!(Texture::load("assets/missing.png", None).err(), Some(LoadError::Unreadable));
    assert_eq!(Texture::load("picture.unknown", Some(&png[..])).err(), Some(LoadError::UnknownFormat));
    assert_eq!(Texture::load("picture", Some(&png[..])).err(), Some(LoadError::UnknownFormat));
    assert_eq!(Texture::load("picture.jpg", Some(&png[..])).err(), Some(LoadError::Undecodable));
    assert_eq!(Texture::load("broken.png", Some(&[1u8, 2, 3][..])).err(), Some(LoadError::Undecodable));
}

#[test]
fn unreadable_file_is_reported_before_its_format() {
    assert_eq!(Texture::load("picture.unknown", None).err(), Some(LoadError::Unreadable));
}

#[test]
fn load_gives_the_grid_of_the_image() {
    let png = encoded(&DynamicImage::ImageRgb8(sample_image()), ImageFormat::Png);
    let t = Texture::load("assets/sample.png", Some(&png[..])).expect("the file is a PNG image");
    assert_eq!((t.width(), t.height()), (3, 2));
    for y in 0..2u32 {
        for x in 0..3u32 {
            assert_eq!(t.get_color(x as usize, y as usize), expected_at(x, y));
        }
    }
}

#[test]
fn new_and_load_agree() {
    let png = encoded(&DynamicImage::ImageRgb8(sample_image()), ImageFormat::Png);
    let loaded = Texture::load("a.png", Some(&png[..])).expect("the file is a PNG image");
    let made = Texture::new("a.png", Some(&png[..]));
    assert_eq!((made.width(), made.height()), (loaded.width(), loaded.height()));
    for y in 0..3 {
        for x in 0..4 {
            assert_eq!(made.get_color(x, y), loaded.get_color(x, y));
        }
    }
}

#[test]
fn same_file_loads_to_the_same_texture_twice() {
    let mut img = RgbImage::new(8, 8);
    for (x, y, pixel) in img.enumerate_pixels_mut() {
        *pixel = Rgb([(30 * x) as u8, (30 * y) as u8, (x * y) as u8]);
    }
    let jpeg = encoded(&DynamicImage::ImageRgb8(img), ImageFormat::Jpeg);
    let first = Texture::new("photo.jpg", Some(&jpeg[..]));
    let second = Texture::new("photo.jpg", Some(&jpeg[..]));
    assert_eq!((first.width(), first.height()), (8, 8));
    for y in 0..8 {
        for x in 0..8 {
            assert_eq!(first.get_color(x, y), second.get_color(x, y));
        }
    }
}

#[test]
fn from_image_gives_the_grid() {
    let t = Texture::from_image(&DynamicImage::ImageRgb8(sample_image())).expect("six pixels fit");
    assert_eq!((t.width(), t.height()), (3, 2));
    assert_eq!(t.get_color(2, 0), expected_at(2, 0));
}
