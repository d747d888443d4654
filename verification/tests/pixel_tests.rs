use camview::ConversionError;
use camview::centered_offset;
use camview::convert;

// A square destination gives exactly dst_width * dst_height packed pixels,
// each confined to the low 24 bits.
#[test]
fn convert_size_and_range() {
    // src_width 2 -> stride 6; dst 2x2, scale 1, no offset: largest sample
    // index is 1*1*3 + 0 + 1*1*6 = 9, so 12 bytes suffice.
    let raw: Vec<u8> = vec![
        10, 20, 30, 40, 50, 60, //
        70, 80, 90, 100, 110, 120,
    ];
    let fb = convert(&raw, 2, 2, 2, 2, 1, 0).unwrap();
    assert_eq!(fb.len(), 4);
    for px in &fb {
        assert!(*px <= 0xFFFFFF);
    }
    assert_eq!(fb[0], 30 | (20 << 8) | (10 << 16));
    assert_eq!(fb[1], 60 | (50 << 8) | (40 << 16));
    assert_eq!(fb[2], 90 | (80 << 8) | (70 << 16));
    assert_eq!(fb[3], 120 | (110 << 8) | (100 << 16));
}

// A buffer where every triplet is the same color converts to a framebuffer
// where every pixel is that color packed, when the crop offset is aligned
// to triplets.
#[test]
fn convert_uniform_roundtrip() {
    let (r, g, b) = (17u8, 34u8, 51u8);
    // src_width 4 -> stride 12, centered offset 3 (a whole triplet).
    let mut raw: Vec<u8> = Vec::new();
    for _ in 0..8 {
        raw.push(r);
        raw.push(g);
        raw.push(b);
    }
    let offs = centered_offset(4);
    assert_eq!(offs, 3);
    let fb = convert(&raw, 4, 2, 2, 2, 1, offs).unwrap();
    assert_eq!(fb.len(), 4);
    let expect = (b as u32) | ((g as u32) << 8) | ((r as u32) << 16);
    for px in &fb {
        assert_eq!(*px, expect);
    }
}

// A raw buffer exactly sized for the sampled crop region converts without a
// range error; one byte short of it fails fast instead of reading out of
// bounds.
#[test]
fn convert_boundary_exact_crop() {
    // dst 2x2, scale 1, stride 6, no offset: bottom-right pixel samples
    // bytes 9..=11, so exactly 12 bytes are needed.
    let raw: Vec<u8> = vec![0u8; 12];
    assert!(convert(&raw, 2, 2, 2, 2, 1, 0).is_ok());
    let short: Vec<u8> = vec![0u8; 11];
    assert_eq!(
        convert(&short, 2, 2, 2, 2, 1, 0),
        Err(ConversionError::SourceIndexOutOfRange)
    );
}

#[test]
fn convert_empty_destination() {
    let raw: Vec<u8> = Vec::new();
    let fb = convert(&raw, 2, 2, 0, 0, 1, 0).unwrap();
    assert!(fb.is_empty());
}

#[test]
fn convert_scale_two_skips_pixels() {
    // src_width 4 -> stride 12; dst 2x2, scale 2, no offset: pixel (x, y)
    // samples byte 6x + 24y.
    let mut raw: Vec<u8> = Vec::new();
    for k in 0..48u32 {
        raw.push(k as u8);
    }
    let fb = convert(&raw, 4, 4, 2, 2, 2, 0).unwrap();
    assert_eq!(fb.len(), 4);
    assert_eq!(fb[0], 2 | (1 << 8) | (0 << 16));
    assert_eq!(fb[1], 8 | (7 << 8) | (6 << 16));
    assert_eq!(fb[2], 26 | (25 << 8) | (24 << 16));
    assert_eq!(fb[3], 32 | (31 << 8) | (30 << 16));
}

#[test]
fn convert_scale_zero_repeats_one_triplet() {
    // With scale 0 every destination pixel samples the triplet at the crop
    // offset itself.
    let raw: Vec<u8> = vec![1, 2, 3, 4, 5, 6];
    let fb = convert(&raw, 2, 1, 2, 2, 0, 3).unwrap();
    assert_eq!(fb, vec![6 | (5 << 8) | (4 << 16); 4]);
}

#[test]
fn centered_offset_quarter_stride() {
    assert_eq!(centered_offset(640), 480);
    assert_eq!(centered_offset(0), 0);
}
