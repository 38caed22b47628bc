//! Tests of the texture pipeline: header validation, the resource table,
//! the block and uncompressed decoders, and mip dimensions.

use sorcent::vtf::error::{VTFError, VTFLoadError};
use sorcent::vtf::format::{
    Header, Header70, Header72, Header73, Resource, RootHeader, VTFFlags, VTFImageFormat,
    VTFResourceType,
};
use sorcent::vtf::image::{
    interp_alpha_6bit, interp_alpha_8bit, interp_color, Bgr8, Bgr8Image, Bgra8, Bgra8Image,
    ColorType, Dxt1, Dxt3, Dxt5, Rgb565, Rgb8, Rgba8, VTFImage, VTFImageWrapper,
};
use sorcent::vtf::VTFFile;

/// A minimal valid version-7.0 header: 4x4 thumbnail and image, both in
/// the first block-compressed format, one mip level.
fn header70(width: u16, height: u16) -> Vec<u8> {
    let mut b = vec![0u8; 63];
    b[0] = 86;
    b[1] = 84;
    b[2] = 70;
    b[3] = 0;
    b[4] = 7;
    b[8] = 0;
    b[12] = 63;
    b[16] = (width & 0xff) as u8;
    b[17] = (width >> 8) as u8;
    b[18] = (height & 0xff) as u8;
    b[19] = (height >> 8) as u8;
    b[52] = 13;
    b[56] = 1;
    b[57] = 13;
    b[61] = 4;
    b[62] = 4;
    b
}

#[test]
fn root_header_rejects_wrong_magic() {
    let mut b = header70(4, 4);
    b[0] = 88;
    match RootHeader::load(&b) {
        Err(VTFLoadError::VTF(e)) => assert_eq!(e, VTFError::HeaderSignature),
        _ => panic!("expected a signature error"),
    }
    match VTFFile::open(&b) {
        Err(VTFLoadError::VTF(e)) => assert_eq!(e, VTFError::HeaderSignature),
        _ => panic!("expected a signature error"),
    }
}

#[test]
fn root_header_rejects_bad_version() {
    let mut b = header70(4, 4);
    b[4] = 8;
    match RootHeader::load(&b) {
        Err(VTFLoadError::VTF(e)) => assert_eq!(e, VTFError::HeaderVersion),
        _ => panic!("expected a version error"),
    }
    let mut b2 = header70(4, 4);
    b2[8] = 6;
    match RootHeader::load(&b2) {
        Err(VTFLoadError::VTF(e)) => assert_eq!(e, VTFError::HeaderVersion),
        _ => panic!("expected a version error"),
    }
}

#[test]
fn header_rejects_non_power_of_two_width() {
    let b = header70(100, 4);
    match Header70::load(&b) {
        Err(VTFLoadError::VTF(e)) => assert_eq!(e, VTFError::ImageSize),
        _ => panic!("expected a dimension error"),
    }
    match VTFFile::open(&b) {
        Err(VTFLoadError::VTF(e)) => assert_eq!(e, VTFError::ImageSize),
        _ => panic!("expected a dimension error"),
    }
}

#[test]
fn header_rejects_unknown_format_code() {
    let mut b = header70(4, 4);
    b[52] = 99;
    match Header70::load(&b) {
        Err(VTFLoadError::VTF(e)) => assert_eq!(e, VTFError::HeaderImageFormat),
        _ => panic!("expected a format error"),
    }
}

#[test]
fn header_rejects_short_buffer() {
    let b = vec![0u8; 10];
    match Header70::load(&b) {
        Err(VTFLoadError::VTF(e)) => assert_eq!(e, VTFError::FileSize),
        _ => panic!("expected a size error"),
    }
}

#[test]
fn short_buffer_is_size_error_before_any_validation() {
    // A buffer below the minimum fixed header size is rejected as too
    // small whatever its first bytes hold: garbage bytes, a wrong
    // signature, or even a valid prefix never surface their own faults.
    let mut b = vec![0x58u8; 20];
    match RootHeader::load(&b) {
        Err(VTFLoadError::VTF(e)) => assert_eq!(e, VTFError::FileSize),
        _ => panic!("expected a size error"),
    }
    match VTFFile::open(&b) {
        Err(VTFLoadError::VTF(e)) => assert_eq!(e, VTFError::FileSize),
        _ => panic!("expected a size error"),
    }
    b[0] = 86;
    b[1] = 84;
    b[2] = 70;
    b[3] = 0;
    b[4] = 7;
    b.resize(62, 0);
    match VTFFile::open(&b) {
        Err(VTFLoadError::VTF(e)) => assert_eq!(e, VTFError::FileSize),
        _ => panic!("expected a size error"),
    }
}

#[test]
fn header_reads_fields() {
    let mut b = header70(8, 16);
    b.extend_from_slice(&[0u8; 9]);
    b[20] = 0x42;
    b[24] = 3;
    b[26] = 1;
    b[63] = 5;
    b[68] = 2;
    let h = Header70::load(&b).unwrap();
    assert_eq!(h.root.version[0], 7);
    assert_eq!(h.root.version[1], 0);
    assert_eq!(h.root.header_size, 63);
    assert_eq!(h.h70.width, 8);
    assert_eq!(h.h70.height, 16);
    assert_eq!(h.h70.flags, 0x42);
    assert_eq!(h.h70.frames, 3);
    assert_eq!(h.h70.start_frame, 1);
    assert_eq!(h.h70.image_format, VTFImageFormat::IMAGE_FORMAT_DXT1);
    assert_eq!(h.h70.mip_count, 1);
    assert_eq!(h.h70.thumbnail_width, 4);
    assert_eq!(h.h70.thumbnail_height, 4);
    let h72 = Header72::load(&b).unwrap();
    assert_eq!(h72.h72.depth, 5);
    let h73 = Header73::load(&b).unwrap();
    assert_eq!(h73.h73.resource_count, 2);
}

#[test]
fn resource_record_reads_fields() {
    let b = [0x30u8, 0, 0, 0x02, 0x58, 0, 0, 0];
    let r = Resource::load(&b, 0).unwrap();
    assert_eq!(r.rtype, 0x30);
    assert_eq!(r.flags, 0x02);
    assert_eq!(r.data, 0x58);
    assert_eq!(r.id(), Some(VTFResourceType::LegacyImage));
    match Resource::load(&b, 4) {
        Err(VTFLoadError::VTF(e)) => assert_eq!(e, VTFError::FileSize),
        _ => panic!("expected a size error"),
    }
}

#[test]
fn resource_type_codes() {
    assert_eq!(
        VTFResourceType::from_i64(0x01),
        Some(VTFResourceType::LegacyLowResImage),
    );
    assert_eq!(VTFResourceType::from_i64(0x30), Some(VTFResourceType::LegacyImage));
    assert_eq!(VTFResourceType::from_i64(0x435243), Some(VTFResourceType::Crc));
    assert_eq!(VTFResourceType::from_i64(0x10), Some(VTFResourceType::Sheet));
    assert_eq!(VTFResourceType::from_i64(7), None);
    assert_eq!(VTFResourceType::from_u64(32), Some(VTFResourceType::MaxDictionaryEntries));
}

#[test]
fn image_format_codes() {
    assert_eq!(VTFImageFormat::from_i64(0), Some(VTFImageFormat::IMAGE_FORMAT_RGBA8888));
    assert_eq!(VTFImageFormat::from_i64(13), Some(VTFImageFormat::IMAGE_FORMAT_DXT1));
    assert_eq!(VTFImageFormat::from_i64(14), Some(VTFImageFormat::IMAGE_FORMAT_DXT3));
    assert_eq!(VTFImageFormat::from_i64(15), Some(VTFImageFormat::IMAGE_FORMAT_DXT5));
    assert_eq!(VTFImageFormat::from_i64(-1), Some(VTFImageFormat::IMAGE_FORMAT_NONE));
    assert_eq!(VTFImageFormat::from_i64(40), None);
    assert_eq!(VTFImageFormat::from_i64(-2), None);
    assert_eq!(VTFImageFormat::from_u64(12), Some(VTFImageFormat::IMAGE_FORMAT_BGRA8888));
    assert_eq!(VTFImageFormat::from_u64(41), None);
}

#[test]
fn flag_masks() {
    assert_eq!(VTFFlags::TEXTUREFLAGS_POINTSAMPLE.mask(), 0x00000001);
    assert_eq!(VTFFlags::TEXTUREFLAGS_NOMIP.mask(), 0x00000100);
    assert_eq!(VTFFlags::TEXTUREFLAGS_UNUSED_80000000.mask(), 0x80000000);
}

#[test]
fn rgb565_unpack_and_expand() {
    let c = Rgb565::load(0xF800);
    assert_eq!((c.red, c.green, c.blue), (31, 0, 0));
    let rgb = c.to_rgb8();
    assert_eq!((rgb.red, rgb.green, rgb.blue), (255, 0, 0));
    let w = Rgb565 { red: 31, green: 63, blue: 31 };
    let rgb = w.to_rgb8();
    assert_eq!((rgb.red, rgb.green, rgb.blue), (255, 255, 255));
    let d = Rgb565 { red: 1, green: 1, blue: 1 };
    let rgb = d.to_rgb8();
    assert_eq!((rgb.red, rgb.green, rgb.blue), (8, 4, 8));
    let back = Rgb565::from_rgb888(Rgb8 { red: 255, green: 255, blue: 255 });
    assert_eq!((back.red, back.green, back.blue), (31, 63, 31));
    let a = w.to_rgba8();
    assert_eq!(a.alpha, 255);
}

#[test]
fn bgr_and_bgra_conversions() {
    let p = Bgr8 { blue: 1, green: 2, red: 3 };
    let rgb = p.to_rgb8();
    assert_eq!((rgb.red, rgb.green, rgb.blue), (3, 2, 1));
    let rgba = p.to_rgba8();
    assert_eq!((rgba.red, rgba.green, rgba.blue, rgba.alpha), (3, 2, 1, 255));
    let q = Bgra8 { blue: 4, green: 5, red: 6, alpha: 7 };
    let rgba = q.to_rgba8();
    assert_eq!((rgba.red, rgba.green, rgba.blue, rgba.alpha), (6, 5, 4, 7));
    let back = Bgra8::from_rgba8888(Rgba8 { red: 6, green: 5, blue: 4, alpha: 7 });
    assert_eq!(back, q);
    let b2 = Bgr8::from_rgb888(Rgb8 { red: 3, green: 2, blue: 1 });
    assert_eq!(b2, p);
}

#[test]
fn color_interpolation_thirds() {
    let c0 = Rgb8 { red: 255, green: 0, blue: 90 };
    let c1 = Rgb8 { red: 0, green: 255, blue: 0 };
    let two_thirds_c0 = interp_color(&c0, &c1, true);
    assert_eq!(
        (two_thirds_c0.red, two_thirds_c0.green, two_thirds_c0.blue),
        (170, 85, 60),
    );
    let two_thirds_c1 = interp_color(&c0, &c1, false);
    assert_eq!(
        (two_thirds_c1.red, two_thirds_c1.green, two_thirds_c1.blue),
        (85, 170, 30),
    );
}

#[test]
fn alpha_interpolation_formulas() {
    assert_eq!(interp_alpha_8bit(255, 0, 0), 219);
    assert_eq!(interp_alpha_8bit(255, 0, 5), 36);
    assert_eq!(interp_alpha_8bit(7, 7, 3), 7);
    assert_eq!(interp_alpha_6bit(255, 0, 0), 204);
    assert_eq!(interp_alpha_6bit(255, 0, 3), 51);
    assert_eq!(interp_alpha_6bit(10, 10, 2), 10);
}

#[test]
fn dxt1_degenerate_block_decodes_flat() {
    // Both endpoints name the same packed color, so every texel must
    // decode to that color whatever its index bits say.
    let bytes = [0x00u8, 0xF8, 0x00, 0xF8, 0xE4, 0x1B, 0xE4, 0x1B];
    let (img, next) = Dxt1::load(&bytes, 0, 4, 4).unwrap();
    assert_eq!(next, 8);
    assert_eq!(img.get_width(), 4);
    assert_eq!(img.get_height(), 4);
    let px = img.to_rgb8();
    assert_eq!(px.len(), 16);
    for p in &px {
        assert_eq!((p.red, p.green, p.blue), (255, 0, 0));
    }
    let pa = img.to_rgba8();
    for p in &pa {
        assert_eq!(p.alpha, 255);
    }
}

#[test]
fn dxt1_palette_selection() {
    // c0 pure red, c1 pure blue; first row indices 0,1,2,3.
    let bytes = [0x00u8, 0xF8, 0x1F, 0x00, 0b11100100, 0, 0, 0];
    let (img, _) = Dxt1::load(&bytes, 0, 4, 4).unwrap();
    let px = img.to_rgb8();
    assert_eq!((px[0].red, px[0].green, px[0].blue), (255, 0, 0));
    assert_eq!((px[1].red, px[1].green, px[1].blue), (0, 0, 255));
    // Two thirds red, one third blue.
    assert_eq!((px[2].red, px[2].green, px[2].blue), (170, 0, 85));
    assert_eq!((px[3].red, px[3].green, px[3].blue), (85, 0, 170));
    // The second row of the block used index 0 everywhere.
    assert_eq!((px[4].red, px[4].green, px[4].blue), (255, 0, 0));
}

#[test]
fn dxt1_small_dimensions_clamp_to_block() {
    let bytes = [0x00u8, 0xF8, 0x00, 0xF8, 0, 0, 0, 0];
    let (img, _) = Dxt1::load(&bytes, 0, 1, 2).unwrap();
    assert_eq!(img.get_width(), 4);
    assert_eq!(img.get_height(), 4);
}

#[test]
fn dxt1_short_buffer_fails() {
    let bytes = [0u8; 7];
    match Dxt1::load(&bytes, 0, 4, 4) {
        Err(e) => assert_eq!(e, VTFError::FileSize),
        _ => panic!("expected a size error"),
    }
}

#[test]
fn dxt3_explicit_alpha_nibbles() {
    let mut bytes = [0u8; 16];
    bytes[0] = 0xF0;
    let (img, next) = Dxt3::load(&bytes, 0, 4, 4).unwrap();
    assert_eq!(next, 16);
    let px = img.to_rgba8();
    // Low nibble 0 scales to 0; high nibble 15 scales to 255.
    assert_eq!(px[0].alpha, 0);
    assert_eq!(px[1].alpha, 255);
    assert_eq!(px[2].alpha, 0);
    let rgb = img.to_rgb8();
    assert_eq!(rgb.len(), 16);
}

#[test]
fn dxt5_alpha_table_endpoints() {
    // a0 > a1: the eight-entry table; indices 0 and 1 are the stored
    // endpoints themselves.
    let mut bytes = [0u8; 16];
    bytes[0] = 255;
    bytes[1] = 0;
    bytes[2] = 0b0000_1000;
    let (img, _) = Dxt5::load(&bytes, 0, 4, 4).unwrap();
    let px = img.to_rgba8();
    assert_eq!(px[0].alpha, 255);
    assert_eq!(px[1].alpha, 0);
    // a0 <= a1: the six-entry table; index 6 is the constant 0 and
    // index 7 the constant 255.
    let mut bytes = [0u8; 16];
    bytes[0] = 0;
    bytes[1] = 255;
    bytes[2] = 6 | (7 << 3);
    let (img, _) = Dxt5::load(&bytes, 0, 4, 4).unwrap();
    let px = img.to_rgba8();
    assert_eq!(px[0].alpha, 0);
    assert_eq!(px[1].alpha, 255);
    // And indices 0 and 1 still name the endpoints.
    let mut bytes = [0u8; 16];
    bytes[0] = 10;
    bytes[1] = 200;
    bytes[2] = 0 | (1 << 3);
    let (img, _) = Dxt5::load(&bytes, 0, 4, 4).unwrap();
    let px = img.to_rgba8();
    assert_eq!(px[0].alpha, 10);
    assert_eq!(px[1].alpha, 200);
}

#[test]
fn bgr_image_reorders_channels() {
    let bytes = [1u8, 2, 3, 4, 5, 6, 7, 8, 9, 10, 11, 12];
    let (img, next) = Bgr8Image::load(&bytes, 0, 2, 2).unwrap();
    assert_eq!(next, 12);
    let px = img.to_rgb8();
    assert_eq!((px[0].red, px[0].green, px[0].blue), (3, 2, 1));
    assert_eq!((px[3].red, px[3].green, px[3].blue), (12, 11, 10));
    let raw = img.to_rgb8_raw();
    assert_eq!(raw, vec![3, 2, 1, 6, 5, 4, 9, 8, 7, 12, 11, 10]);
    let rawa = img.to_rgba8_raw();
    assert_eq!(rawa[0..4], [3, 2, 1, 255]);
}

#[test]
fn bgra_image_keeps_alpha() {
    let bytes = [1u8, 2, 3, 4, 5, 6, 7, 8];
    let (img, next) = Bgra8Image::load(&bytes, 0, 2, 1).unwrap();
    assert_eq!(next, 8);
    let px = img.to_rgba8();
    assert_eq!((px[0].red, px[0].green, px[0].blue, px[0].alpha), (3, 2, 1, 4));
    assert_eq!((px[1].red, px[1].green, px[1].blue, px[1].alpha), (7, 6, 5, 8));
    let rgb = img.to_rgb8();
    assert_eq!((rgb[1].red, rgb[1].green, rgb[1].blue), (7, 6, 5));
}

#[test]
fn wrapper_rejects_unsupported_format() {
    let bytes = [0u8; 64];
    match VTFImageWrapper::load(&bytes, 0, 4, 4, VTFImageFormat::IMAGE_FORMAT_RGBA8888) {
        Err(e) => assert_eq!(e, VTFError::HeaderImageFormat),
        _ => panic!("expected a format error"),
    }
}

#[test]
fn mip_dimensions_halve_and_clamp() {
    for level in 0..=8u8 {
        let (w, h) = VTFFile::compute_mip_dimensions(256, 256, level);
        let expected = if 256u32 >> level >= 1 {
            (256u32 >> level) as u16
        } else {
            1
        };
        assert_eq!(w, expected);
        assert_eq!(h, expected);
    }
    assert_eq!(VTFFile::compute_mip_dimensions(256, 256, 9), (1, 1));
    assert_eq!(VTFFile::compute_mip_dimensions(16, 2, 3), (2, 1));
    assert_eq!(VTFFile::compute_mip_dimensions(1, 1, 20), (1, 1));
}

#[test]
fn open_version70_bgr_image() {
    // Header, then the 4x4 thumbnail (one color block), then the 2x2
    // uncompressed image; one mip level means no stored mips.
    let mut b = header70(2, 2);
    b[52] = 3;  // image format BGR888
    b.extend_from_slice(&[0x00, 0xF8, 0x00, 0xF8, 0, 0, 0, 0]);
    b.extend_from_slice(&[1, 2, 3, 4, 5, 6, 7, 8, 9, 10, 11, 12]);
    let f = VTFFile::open(&b).unwrap();
    assert!(f.resources.is_none());
    assert_eq!(f.thumb.get_width(), 4);
    assert_eq!(f.image.get_width(), 2);
    assert_eq!(f.mips.len(), 0);
    let px = f.image.to_rgb8();
    assert_eq!((px[0].red, px[0].green, px[0].blue), (3, 2, 1));
    let h70 = f.header.get_h70();
    assert_eq!(h70.image_format, VTFImageFormat::IMAGE_FORMAT_BGR888);
}

#[test]
fn open_version70_with_mips() {
    // An 8x8 image with two mip levels stores one 4x4 mip between the
    // thumbnail and the full image.
    let mut b = header70(8, 8);
    b[56] = 2;
    b.extend_from_slice(&[0x00, 0xF8, 0x00, 0xF8, 0, 0, 0, 0]);  // thumbnail
    b.extend_from_slice(&[0x1F, 0x00, 0x1F, 0x00, 0, 0, 0, 0]);  // 4x4 mip, blue
    for _ in 0..4 {
        b.extend_from_slice(&[0xE0, 0x07, 0xE0, 0x07, 0, 0, 0, 0]);  // 8x8 image, green
    }
    let f = VTFFile::open(&b).unwrap();
    assert_eq!(f.mips.len(), 1);
    assert_eq!(f.mips[0].get_width(), 4);
    assert_eq!(f.mips[0].get_height(), 4);
    let mip_px = f.mips[0].to_rgb8();
    assert_eq!((mip_px[0].red, mip_px[0].green, mip_px[0].blue), (0, 0, 255));
    let px = f.image.to_rgb8();
    assert_eq!(px.len(), 64);
    assert_eq!((px[0].red, px[0].green, px[0].blue), (0, 255, 0));
}

#[test]
fn open_version73_resource_table() {
    // A 7.3 file: the 72-byte header, a two-record resource table before
    // the header's nominal end at 88, the thumbnail at 88 and the image
    // at 96.
    let mut b = header70(4, 4);
    b[8] = 3;  // minor version
    b[12] = 88;  // header size
    b.extend_from_slice(&[0u8; 9]);  // depth, padding, resource count
    b[68] = 2;
    b.extend_from_slice(&[0x01, 0, 0, 0, 88, 0, 0, 0]);  // thumbnail resource
    b.extend_from_slice(&[0x30, 0, 0, 0, 96, 0, 0, 0]);  // image resource
    b.extend_from_slice(&[0x00, 0xF8, 0x00, 0xF8, 0, 0, 0, 0]);  // thumbnail
    b.extend_from_slice(&[0x1F, 0x00, 0x1F, 0x00, 0, 0, 0, 0]);  // image
    let f = VTFFile::open(&b).unwrap();
    let rs = f.resources.as_ref().expect("resource table present");
    assert_eq!(rs.len(), 2);
    assert_eq!(rs[0].rtype, 0x01);
    assert_eq!(rs[0].data, 88);
    assert_eq!(rs[1].rtype, 0x30);
    assert_eq!(rs[1].data, 96);
    let px = f.image.to_rgb8();
    assert_eq!((px[0].red, px[0].green, px[0].blue), (0, 0, 255));
    assert!(f.header.get_h73().is_some());
}

#[test]
fn open_version73_missing_image_resource() {
    let mut b = header70(4, 4);
    b[8] = 3;
    b[12] = 80;
    b.extend_from_slice(&[0u8; 9]);
    b[68] = 1;
    b.extend_from_slice(&[0x01, 0, 0, 0, 80, 0, 0, 0]);
    b.extend_from_slice(&[0u8; 16]);
    match VTFFile::open(&b) {
        Err(VTFLoadError::VTF(e)) => assert_eq!(e, VTFError::ResourceID),
        _ => panic!("expected a resource error"),
    }
}

#[test]
fn open_rejects_truncated_image_data() {
    let mut b = header70(4, 4);
    b.extend_from_slice(&[0u8; 10]);  // not enough for thumbnail and image
    match VTFFile::open(&b) {
        Err(VTFLoadError::VTF(e)) => assert_eq!(e, VTFError::FileSize),
        _ => panic!("expected a size error"),
    }
}

#[test]
fn open_rejects_non_power_of_two_thumbnail() {
    let mut b = header70(4, 4);
    b[61] = 3;
    match VTFFile::open(&b) {
        Err(VTFLoadError::VTF(e)) => assert_eq!(e, VTFError::ImageSize),
        _ => panic!("expected a dimension error"),
    }
}

#[test]
fn open_rejects_unsupported_stored_format() {
    let mut b = header70(4, 4);
    b[52] = 0;  // a known code outside the decodable subset
    match VTFFile::open(&b) {
        Err(VTFLoadError::VTF(e)) => assert_eq!(e, VTFError::HeaderImageFormat),
        _ => panic!("expected a format error"),
    }
}

#[test]
fn header_trait_reads_each_version() {
    let mut b = header70(4, 4);
    b.extend_from_slice(&[0u8; 9]);
    let h: Header70 = <Header70 as Header>::load(&b).unwrap();
    assert_eq!(h.h70.width, 4);
    let h: Header72 = <Header72 as Header>::load(&b).unwrap();
    assert_eq!(h.h72.depth, 0);
    let h: Header73 = <Header73 as Header>::load(&b).unwrap();
    assert_eq!(h.h73.resource_count, 0);
}

#[test]
fn dxt1_blocks_tile_left_to_right() {
    // An 8x4 image holds two blocks: a red one on the left, a blue one
    // on the right; and the decode starts at a nonzero cursor.
    let mut bytes = vec![0xAAu8, 0xBB];
    bytes.extend_from_slice(&[0x00, 0xF8, 0x00, 0xF8, 0, 0, 0, 0]);
    bytes.extend_from_slice(&[0x1F, 0x00, 0x1F, 0x00, 0, 0, 0, 0]);
    let (img, next) = Dxt1::load(&bytes, 2, 8, 4).unwrap();
    assert_eq!(next, 18);
    let px = img.to_rgb8();
    assert_eq!(px.len(), 32);
    for y in 0..4 {
        for x in 0..4 {
            let p = &px[y * 8 + x];
            assert_eq!((p.red, p.green, p.blue), (255, 0, 0));
        }
        for x in 4..8 {
            let p = &px[y * 8 + x];
            assert_eq!((p.red, p.green, p.blue), (0, 0, 255));
        }
    }
}

#[test]
fn rgb565_from_rgba_drops_alpha() {
    let c = Rgb565::from_rgba8888(Rgba8 { red: 255, green: 0, blue: 255, alpha: 3 });
    assert_eq!((c.red, c.green, c.blue), (31, 0, 31));
}

#[test]
fn vtf_error_descriptions() {
    assert_eq!(
        VTFError::HeaderSignature.get_description(),
        "Invalid Header; Signature does not match VTF",
    );
    assert_eq!(
        VTFError::HeaderVersion.get_description(),
        "Invalid Header; File version does not match 7.0 - 7.5",
    );
    assert_eq!(
        VTFError::HeaderImageFormat.get_description(),
        "Invalid Header; Invalid image format",
    );
    assert_eq!(
        VTFError::ImageSize.get_description(),
        "Image width or height is not power of two",
    );
    assert_eq!(VTFError::FileSize.get_description(), "File too small to contain header");
    assert_eq!(VTFError::ResourceID.get_description(), "Invalid Resource ID");
}
