use vivi::error::ErrorKind;
use vivi::image_plan::{check_raster_size, encoded_image_kind, plan_image, ImageEncoding, ImageError, ImagePlan};

const PNG_SIGNATURE: [u8; 8] = [0x89, b'P', b'N', b'G', b'\r', b'\n', 0x1a, b'\n'];

#[test]
fn only_png_and_jpeg_are_sent_encoded() {
    let mut png = PNG_SIGNATURE.to_vec();
    png.extend_from_slice(b"IHDR");
    assert_eq!(encoded_image_kind(&png), Some(ImageEncoding::Png));
    assert_eq!(encoded_image_kind(&[0xff, 0xd8, 0xff, 0xe0]), Some(ImageEncoding::Jpeg));
    assert_eq!(encoded_image_kind(b"GIF89a...."), None);
    assert_eq!(encoded_image_kind(&PNG_SIGNATURE[..7]), None);
    assert_eq!(encoded_image_kind(&[0xff, 0xd8]), None);
    assert_eq!(encoded_image_kind(&[]), None);
}

#[test]
fn encoded_plan_carries_length_and_sha256() {
    let plan = plan_image(b"abc", Some(ImageEncoding::Jpeg), true).unwrap();
    match plan {
        ImagePlan::Encoded { encoding, encoded_length, sha256 } => {
            assert_eq!(encoding, ImageEncoding::Jpeg);
            assert_eq!(encoded_length, 3);
            assert_eq!(
                sha256,
                [
                    0xba, 0x78, 0x16, 0xbf, 0x8f, 0x01, 0xcf, 0xea, 0x41, 0x41, 0x40, 0xde, 0x5d, 0xae, 0x22, 0x23,
                    0xb0, 0x03, 0x61, 0xa3, 0x96, 0x17, 0x7a, 0x9c, 0xb4, 0x10, 0xff, 0x61, 0xf2, 0x00, 0x15, 0xad,
                ]
            );
        }
        ImagePlan::Raster => panic!("expected an encoded plan"),
    }
    match plan_image(b"", Some(ImageEncoding::Png), true).unwrap() {
        ImagePlan::Encoded { encoded_length, sha256, .. } => {
            assert_eq!(encoded_length, 0);
            assert_eq!(&sha256[..4], &[0xe3, 0xb0, 0xc4, 0x42]);
        }
        ImagePlan::Raster => panic!("expected an encoded plan"),
    }
}

#[test]
fn other_images_and_presenters_fall_back_to_raster() {
    assert!(matches!(plan_image(b"abc", Some(ImageEncoding::Png), false), Ok(ImagePlan::Raster)));
    assert!(matches!(plan_image(b"abc", None, true), Ok(ImagePlan::Raster)));
}

#[test]
fn raster_must_fit_one_record() {
    assert_eq!(check_raster_size(400, 72 + 400), Ok(()));
    assert_eq!(check_raster_size(404, 72 + 400), Err(ImageError::RasterTooLarge));
    assert_eq!(check_raster_size(4, 71), Err(ImageError::RasterTooLarge));
    assert_eq!(check_raster_size(3, 71), Ok(()));
    assert_eq!(ImageError::RasterTooLarge.kind(), ErrorKind::InvalidInput);
}
