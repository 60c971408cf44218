use cytryna::smdh::{
    TILE_ORDER, AgeRating, AgeRatingRegion, IconData, Language, RegionLockout, Rgb565Pixel, Rgb888,
    Smdh, SmdhBuilder, SmdhError, SmdhFlags,
};
use cytryna::string::SizedCStringError;
use cytryna::{CytrynaError, FromBytes};

fn image_to_pixels(image: &bmp::Image) -> Vec<Rgb888> {
    let mut pixels = Vec::new();
    for y in 0..image.get_height() {
        for x in 0..image.get_width() {
            let p = image.get_pixel(x, y);
            pixels.push(Rgb888 { r: p.r, g: p.g, b: p.b });
        }
    }
    pixels
}

fn pixels_to_image(width: u32, pixels: &[Rgb888]) -> bmp::Image {
    let mut image = bmp::Image::new(width, width);
    for (i, p) in pixels.iter().enumerate() {
        image.set_pixel(i as u32 % width, i as u32 / width, bmp::Pixel::new(p.r, p.g, p.b));
    }
    image
}

#[test]
fn bmp_to_smdh_to_bmp_24() {
    let mut src = bmp::Image::new(24, 24);
    for (x, y) in src.coordinates() {
        let r = (rand::random::<bool>() as u8) << 7;
        let g = (rand::random::<bool>() as u8) << 7;
        let b = (rand::random::<bool>() as u8) << 7;
        src.set_pixel(x, y, bmp::Pixel::new(r, g, b));
    }

    let dst: IconData<0x240> =
        IconData::from_rgb888(src.get_width(), src.get_height(), &image_to_pixels(&src)).unwrap();
    let other_src: bmp::Image = pixels_to_image(24, &dst.to_rgb888());

    assert_eq!(src, other_src);
}

#[test]
fn bmp_to_smdh_to_bmp_48() {
    let mut src = bmp::Image::new(48, 48);
    for (x, y) in src.coordinates() {
        let r = (rand::random::<bool>() as u8) << 7;
        let g = (rand::random::<bool>() as u8) << 7;
        let b = (rand::random::<bool>() as u8) << 7;
        src.set_pixel(x, y, bmp::Pixel::new(r, g, b));
    }

    let dst: IconData<0x900> =
        IconData::from_rgb888(src.get_width(), src.get_height(), &image_to_pixels(&src)).unwrap();
    let other_src: bmp::Image = pixels_to_image(48, &dst.to_rgb888());

    assert_eq!(src, other_src);
}

#[test]
fn pixels_are_stored_tile_by_tile() {
    assert_eq!(TILE_ORDER.len(), 64);
    assert_eq!(IconData::<0x240>::width(), 24);
    assert_eq!(IconData::<0x900>::width(), 48);
    assert_eq!(IconData::<0x240>::pixel_position(0), (0, 0));
    assert_eq!(IconData::<0x240>::pixel_position(1), (1, 0));
    assert_eq!(IconData::<0x240>::pixel_position(2), (0, 1));
    assert_eq!(IconData::<0x240>::pixel_position(3), (1, 1));
    assert_eq!(IconData::<0x240>::pixel_position(4), (2, 0));
    assert_eq!(IconData::<0x240>::pixel_position(63), (7, 7));
    assert_eq!(IconData::<0x240>::pixel_position(64), (8, 0));
    assert_eq!(IconData::<0x240>::pixel_position(128), (16, 0));
    assert_eq!(IconData::<0x240>::pixel_position(192), (0, 8));
    assert_eq!(IconData::<0x240>::pixel_position(0x23f), (23, 23));
    assert_eq!(IconData::<0x900>::pixel_position(64 * 5 + 2), (40, 1));
    assert_eq!(IconData::<0x900>::pixel_position(64 * 6), (0, 8));
    assert_eq!(IconData::<0x900>::pixel_position(0x8ff), (47, 47));
    // every place of the image is the place of exactly one pixel
    let mut seen = vec![false; 0x900];
    for n in 0..0x900 {
        let (x, y) = IconData::<0x900>::pixel_position(n);
        assert!(!seen[y as usize * 48 + x as usize]);
        seen[y as usize * 48 + x as usize] = true;
    }
}

#[test]
fn pixel_colours() {
    let p = Rgb565Pixel::new(0x1f, 0, 0);
    assert_eq!(p.bits, 0xf800);
    assert_eq!((p.r(), p.g(), p.b()), (0x1f, 0, 0));
    let p = Rgb565Pixel::new(1, 0x2a, 0x15);
    assert_eq!(p.bits, (1 << 11) | (0x2a << 5) | 0x15);
    assert_eq!((p.r(), p.g(), p.b()), (1, 0x2a, 0x15));
    assert_eq!(p.widen(), Rgb888 { r: 8, g: 0xa8, b: 0xa8 });
    assert_eq!(Rgb565Pixel::narrow(Rgb888 { r: 0xff, g: 0xff, b: 0xff }).bits, 0xffff);
    assert_eq!(Rgb565Pixel::narrow(Rgb888 { r: 0x87, g: 0x43, b: 0x0f }), Rgb565Pixel::new(0x10, 0x10, 1));
    for bits in [0u16, 1, 0x1234, 0xf81f, 0x07e0, 0xffff, 0x8410] {
        let p = Rgb565Pixel { bits };
        assert_eq!(Rgb565Pixel::narrow(p.widen()), p);
    }
    assert_eq!(Rgb565Pixel::from_image_pixel_subpixel_u8(1, 2, 3), Rgb565Pixel::new(8, 32, 24));
}

#[test]
fn image_that_does_not_fit_the_icon_is_refused() {
    let pixels = vec![Rgb888 { r: 0, g: 0, b: 0 }; 48 * 24];
    assert!(matches!(
        IconData::<0x240>::from_rgb888(48, 24, &pixels),
        Err(SmdhError::OnlySquaresAllowed)
    ));
    let pixels = vec![Rgb888 { r: 0, g: 0, b: 0 }; 48 * 48];
    assert!(matches!(
        IconData::<0x240>::from_rgb888(48, 48, &pixels),
        Err(SmdhError::InvalidImageSize { got: 0x900, expected: 0x240 })
    ));
    assert!(matches!(
        IconData::<0x900>::from_rgb888(0, 0, &[]),
        Err(SmdhError::InvalidImageSize { got: 0, expected: 0x900 })
    ));
    assert!(IconData::<0x900>::from_rgb888(48, 48, &pixels).is_ok());
}

fn gradient(width: u32) -> Vec<Rgb888> {
    let mut pixels = Vec::new();
    for y in 0..width {
        for x in 0..width {
            pixels.push(Rgb888 { r: (x * 5) as u8, g: (y * 5) as u8, b: (x + y) as u8 });
        }
    }
    pixels
}

#[test]
fn icon_walk_and_update() {
    let pixels = gradient(24);
    let mut icon = IconData::<0x240>::from_rgb888(24, 24, &pixels).unwrap();
    let mut iter = icon.pixel_iter();
    let mut count = 0;
    while let Some((x, y, pixel)) = iter.next() {
        assert_eq!((x, y), IconData::<0x240>::pixel_position(count));
        assert_eq!(pixel, Rgb565Pixel::narrow(pixels[y as usize * 24 + x as usize]));
        assert_eq!(pixel, icon.raw_data()[count]);
        count += 1;
    }
    assert_eq!(count, 0x240);
    assert!(iter.next().is_none());
    icon.set_pixel(3, Rgb565Pixel { bits: 0xabcd });
    assert_eq!(icon.raw_data()[3].bits, 0xabcd);
    assert_eq!(icon.to_rgb888()[24 + 1], Rgb565Pixel { bits: 0xabcd }.widen());
}

fn built(small: bool) -> Smdh<'static> {
    let big = IconData::<0x900>::from_rgb888(48, 48, &gradient(48)).unwrap();
    let mut builder = Smdh::builder();
    builder.with_short_desc("An example").unwrap();
    builder.with_long_desc("This is an example data").unwrap().with_publisher("Maya").unwrap();
    builder.with_icon(big);
    if small {
        let mut icon = IconData::<0x240>::from_rgb888(24, 24, &gradient(24)).unwrap();
        icon.set_pixel(0, Rgb565Pixel { bits: 0x1234 });
        builder.with_small_icon(icon);
    }
    builder.build().unwrap()
}

#[test]
fn built_data_reads_back() {
    let smdh = built(true);
    let bytes = smdh.as_bytes().to_vec();
    assert_eq!(bytes.len(), 0x36c0);
    assert_eq!(&bytes[..8], b"SMDH\0\0\0\0");
    let smdh = Smdh::from_bytes(&bytes).unwrap();
    assert!(smdh.looks_ok());
    for lang in [Language::Japanese, Language::English, Language::Korean, Language::TraditionalChinese] {
        let title = smdh.title(lang);
        assert_eq!(title.short_desc().to_string().unwrap().trim_end_matches('\0'), "An example");
        assert_eq!(title.long_desc_string().trim_end_matches('\0'), "This is an example data");
        assert_eq!(title.publisher().to_string_lossy().trim_end_matches('\0'), "Maya");
        assert_eq!(title.short_desc_string().len(), 0x40);
        assert_eq!(title.publisher_string().len(), 0x40);
        assert!(!title.short_desc().is_zero());
        assert_eq!(title.long_desc().data().len(), 0x80);
    }
    assert_eq!(&bytes[8 + 0x200 * 15..8 + 0x200 * 15 + 4], &[b'A', 0, b'n', 0]);
    let rated = AgeRating::NO_AGE_RESTRICTION | AgeRating::ENABLED;
    assert_eq!(smdh.age_rating(AgeRatingRegion::Cero).bits(), rated);
    assert_eq!(smdh.age_rating(AgeRatingRegion::Esrb).bits(), rated);
    assert_eq!(smdh.age_rating(AgeRatingRegion::Usk).bits(), rated);
    assert_eq!(smdh.age_rating(AgeRatingRegion::PegiPrt).bits(), 0);
    assert_eq!(smdh.age_rating(AgeRatingRegion::Cgsrr).bits(), rated);
    assert!(smdh.age_rating(AgeRatingRegion::Grb).contains(AgeRating::ENABLED));
    assert!(!smdh.age_rating(AgeRatingRegion::Cob).contains(AgeRating::PENDING));
    assert_eq!(&bytes[0x2008..0x2018], &[rated, rated, 0, rated, rated, 0, rated, rated, rated, rated, rated, rated, 0, 0, 0, 0]);
    assert_eq!(smdh.region_lockout().bits(), RegionLockout::REGION_FREE);
    assert!(smdh.region_lockout().contains(RegionLockout::EUROPE | RegionLockout::JAPAN));
    assert_eq!(smdh.matchmaker_id().id(), 0);
    assert_eq!(smdh.matchmaker_id().bit_id(), 0);
    assert_eq!(smdh.flags().bits(), 0x141);
    assert!(smdh.flags().contains(SmdhFlags::VISIBLE_IN_HOMEMENU));
    assert!(smdh.flags().contains(SmdhFlags::RECORD_USAGE | SmdhFlags::REGION_RATING_REQUIRED));
    assert!(!smdh.flags().contains(SmdhFlags::ALLOW_3D));
    assert_eq!(smdh.eula_version().major, 0);
    assert_eq!(smdh.eula_version().minor, 0);
    assert_eq!(f32::from_bits(smdh.optimal_animation_default_frame_bits()), 0f32);
    assert_eq!(smdh.cec_id(), 0);
    let big = smdh.big_icon();
    let expected = IconData::<0x900>::from_rgb888(48, 48, &gradient(48)).unwrap();
    assert_eq!(big.raw_data(), expected.raw_data());
    let small = smdh.small_icon();
    assert_eq!(small.raw_data()[0].bits, 0x1234);
    assert_eq!(small.raw_data()[1], Rgb565Pixel::narrow(gradient(24)[1]));
    assert_eq!(&bytes[0x2040..0x2042], &0x1234u16.to_le_bytes());
    assert_eq!(&bytes[0x24c0..0x24c2], &expected.raw_data()[0].bits.to_le_bytes());
}

#[test]
fn small_icon_is_shrunk_from_the_big_one() {
    let smdh = built(false);
    let small = smdh.small_icon();
    let big = smdh.big_icon();
    assert_eq!(SmdhBuilder::shrink(&big).raw_data(), small.raw_data());
    let image = big.to_rgb888();
    for n in [0usize, 1, 5, 63, 64, 200, 0x23f] {
        let (x, y) = IconData::<0x240>::pixel_position(n);
        let (x, y) = (x as usize, y as usize);
        let four = [image[y * 48 + x], image[(y + 1) * 48 + x], image[y * 48 + x + 1], image[(y + 1) * 48 + x + 1]];
        let r = four.iter().map(|p| p.r as u32).sum::<u32>() / 4;
        let g = four.iter().map(|p| p.g as u32).sum::<u32>() / 4;
        let b = four.iter().map(|p| p.b as u32).sum::<u32>() / 4;
        assert_eq!(small.raw_data()[n], Rgb565Pixel::new(r as u8 >> 3, g as u8 >> 2, b as u8 >> 3));
    }
}

#[test]
fn builder_of_data_misses_what_is_missing() {
    let big = IconData::<0x900>::from_rgb888(48, 48, &gradient(48)).unwrap();
    let mut builder = Smdh::builder();
    assert!(matches!(builder.build(), Err(SmdhError::MissingShortDesc)));
    builder.with_short_desc("short").unwrap();
    assert!(matches!(builder.build(), Err(SmdhError::MissingLongDesc)));
    // the short description went with the attempt
    builder.with_long_desc("long").unwrap();
    assert!(matches!(builder.build(), Err(SmdhError::MissingShortDesc)));
    builder.with_short_desc("short").unwrap().with_long_desc("long").unwrap();
    assert!(matches!(builder.build(), Err(SmdhError::MissingPublisher)));
    builder.with_short_desc("s").unwrap().with_long_desc("l").unwrap().with_publisher("p").unwrap();
    assert!(matches!(builder.build(), Err(SmdhError::MissingIcon)));
    builder.with_short_desc("s").unwrap().with_long_desc("l").unwrap().with_publisher("p").unwrap();
    builder.with_icon(big);
    assert!(builder.build().is_ok());
    assert!(matches!(builder.build(), Err(SmdhError::MissingShortDesc)));
    let long = "x".repeat(0x41);
    assert!(matches!(
        builder.with_short_desc(&long),
        Err(SmdhError::StringErr(SizedCStringError::TooBig))
    ));
    assert!(matches!(builder.with_publisher(&long), Err(SmdhError::StringErr(_))));
    assert!(builder.with_long_desc(&long).is_ok());
    assert!(builder.with_long_desc(&"y".repeat(0x81)).is_err());
    assert!(builder.with_short_desc(&"z".repeat(0x40)).is_ok());
    // a character outside the basic plane takes two units
    assert!(builder.with_short_desc(&"\u{1f600}".repeat(0x20)).is_ok());
    assert!(builder.with_short_desc(&"\u{1f600}".repeat(0x21)).is_err());
}

#[test]
fn data_with_wrong_magic_is_refused() {
    let mut bytes = built(true).as_bytes().to_vec();
    assert!(matches!(Smdh::from_bytes(&bytes[..0x36bf]), Err(CytrynaError::SliceTooSmall)));
    assert!(Smdh::bytes_ok(&bytes[..4]).is_ok());
    bytes[2] = b'd';
    assert!(matches!(Smdh::from_bytes(&bytes), Err(CytrynaError::InvalidMagic)));
    assert!(matches!(Smdh::from_bytes(&bytes[..0x10]), Err(CytrynaError::InvalidMagic)));
    assert!(matches!(Smdh::bytes_ok(&bytes[..3]), Err(CytrynaError::SliceTooSmall)));
    assert_eq!(Smdh::min_size(), 0x36c0);
    assert_eq!(AgeRatingRegion::PegiGen.index(), 4);
    assert_eq!(Language::Russian.index(), 10);
}
