use kerio_kvc_indicator::icon::{Icon, IconError, IconId, IconImage};

/// A picture two pixels wide and one high, with an alpha channel.
const WIDE: [u8; 74] = [
    137, 80, 78, 71, 13, 10, 26, 10, 0, 0, 0, 13, 73, 72, 68, 82, 0, 0, 0, 2, 0, 0, 0, 1, 8, 6, 0,
    0, 0, 244, 34, 127, 138, 0, 0, 0, 17, 73, 68, 65, 84, 120, 218, 99, 248, 207, 192, 240, 159,
    161, 225, 191, 3, 0, 16, 186, 3, 190, 58, 121, 191, 190, 0, 0, 0, 0, 73, 69, 78, 68, 174, 66,
    96, 130,
];

/// A picture one pixel wide and two high, without an alpha channel.
const TALL: [u8; 73] = [
    137, 80, 78, 71, 13, 10, 26, 10, 0, 0, 0, 13, 73, 72, 68, 82, 0, 0, 0, 1, 0, 0, 0, 2, 8, 2, 0,
    0, 0, 22, 227, 33, 112, 0, 0, 0, 16, 73, 68, 65, 84, 120, 218, 99, 224, 18, 145, 99, 208, 48,
    178, 1, 0, 2, 116, 0, 211, 150, 77, 204, 149, 0, 0, 0, 0, 73, 69, 78, 68, 174, 66, 96, 130,
];

fn parts(image: &IconImage) -> (Vec<u8>, u32, u32) {
    (image.rgba().clone(), image.width(), image.height())
}

#[test]
fn pixels_that_fill_the_image_make_an_icon() {
    let image = IconImage::from_rgba(vec![1, 2, 3, 4, 5, 6, 7, 8], 2, 1).ok().unwrap();
    assert_eq!(parts(&image), (vec![1, 2, 3, 4, 5, 6, 7, 8], 2, 1));
    assert!(IconImage::from_rgba(vec![], 0, 0).is_ok());
    assert!(IconImage::from_rgba(vec![], 0, 17).is_ok());
    assert!(IconImage::from_rgba(vec![0; 24], 2, 3).is_ok());
}

#[test]
fn byte_count_must_be_a_multiple_of_four() {
    for n in [1usize, 2, 3, 5, 7] {
        assert_eq!(
            IconImage::from_rgba(vec![0; n], 1, 1).err(),
            Some(IconError::ByteCountNotDivisibleBy4)
        );
    }
}

#[test]
fn pixel_count_must_match_the_dimensions() {
    assert_eq!(
        IconImage::from_rgba(vec![0; 8], 1, 1).err(),
        Some(IconError::DimensionsVsPixelCount)
    );
    assert_eq!(
        IconImage::from_rgba(vec![], 1, 1).err(),
        Some(IconError::DimensionsVsPixelCount)
    );
    assert_eq!(
        IconImage::from_rgba(vec![0; 4], 0, 1).err(),
        Some(IconError::DimensionsVsPixelCount)
    );
}

#[test]
fn dimensions_are_not_multiplied_in_thirty_two_bits() {
    // 65536 * 65536 is 0 in 32 bits and 65537 * 65537 is 131073.
    assert_eq!(
        IconImage::from_rgba(vec![], 65536, 65536).err(),
        Some(IconError::DimensionsVsPixelCount)
    );
    assert_eq!(
        IconImage::from_rgba(vec![0; 4 * 131073], 65537, 65537).err(),
        Some(IconError::DimensionsVsPixelCount)
    );
    assert_eq!(
        IconImage::from_rgba(vec![0; 4], u32::MAX, u32::MAX).err(),
        Some(IconError::DimensionsVsPixelCount)
    );
}

#[test]
fn image_file_is_decoded_to_rgba() {
    let image = Icon::load_icon(&WIDE).ok().unwrap();
    assert_eq!(parts(&image), (vec![255, 0, 0, 255, 0, 128, 255, 64], 2, 1));
}

#[test]
fn image_without_alpha_becomes_opaque() {
    let image = Icon::load_icon(&TALL).ok().unwrap();
    assert_eq!(parts(&image), (vec![10, 20, 30, 255, 40, 50, 60, 255], 1, 2));
}

#[test]
fn bytes_that_are_no_image_are_refused() {
    assert_eq!(Icon::load_icon(&[]).err(), Some(IconError::Undecodable));
    assert_eq!(Icon::load_icon(b"not an image").err(), Some(IconError::Undecodable));
    assert_eq!(Icon::load_icon(&WIDE[..40]).err(), Some(IconError::Undecodable));
    let mut damaged = WIDE;
    damaged[50] ^= 0xff;
    assert_eq!(Icon::load_icon(&damaged).err(), Some(IconError::Undecodable));
}

#[test]
fn pair_of_icons_follows_the_status() {
    let icons = Icon::new(&WIDE, &TALL).ok().unwrap();
    assert_eq!(parts(icons.get_actual_icon(true)), (vec![255, 0, 0, 255, 0, 128, 255, 64], 2, 1));
    assert_eq!(parts(icons.get_actual_icon(false)), (vec![10, 20, 30, 255, 40, 50, 60, 255], 1, 2));
    assert_eq!(parts(icons.image(IconId::Started)), parts(icons.get_actual_icon(true)));
    assert_eq!(parts(icons.image(IconId::Stopped)), parts(icons.get_actual_icon(false)));
}

#[test]
fn pair_fails_with_the_first_bad_file() {
    assert_eq!(Icon::new(b"", &TALL).err(), Some(IconError::Undecodable));
    assert_eq!(Icon::new(&WIDE, b"junk").err(), Some(IconError::Undecodable));
    assert_eq!(Icon::new(b"", b"").err(), Some(IconError::Undecodable));
}

#[test]
fn icon_files_lie_under_resources() {
    assert_eq!(
        Icon::resource_path("/opt/indicator", "kerio_active.png"),
        "/opt/indicator/resources/kerio_active.png"
    );
    assert_eq!(Icon::resource_path("", ""), "/resources/");
}
