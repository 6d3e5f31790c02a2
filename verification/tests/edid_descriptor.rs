use edid_gen::{
    calculate_crc, generate_edid, CvtMode, CvtModeFlags, EdidError, Version, XYRatio,
};

fn sample_mode() -> CvtMode {
    CvtMode::new(1920, 1080, 60, false, false, false)
}

// The checksum brings the unsigned sum of the whole block to zero.
#[test]
fn descriptor_sums_to_zero() {
    let m = sample_mode();
    let bytes = generate_edid(&m, Version::V1_4, "1080p60").unwrap();
    assert_eq!(bytes.len(), 128);
    let sum: u32 = bytes.iter().map(|b| *b as u32).sum();
    assert_eq!(sum % 256, 0);
    assert_eq!(bytes[127], calculate_crc(&bytes[..127]));
}

// Encoding the same record with the same name twice is byte-identical.
#[test]
fn encoding_is_deterministic() {
    let m = sample_mode();
    let a = generate_edid(&m, Version::V1_3, "panel").unwrap();
    let b = generate_edid(&m, Version::V1_3, "panel").unwrap();
    assert_eq!(a, b);
}

// A name of exactly 13 bytes encodes; one more byte is refused.
#[test]
fn name_length_boundary() {
    let m = sample_mode();
    assert!(generate_edid(&m, Version::V1_4, "ABCDEFGHIJKLM").is_ok());
    assert_eq!(
        generate_edid(&m, Version::V1_4, "ABCDEFGHIJKLMN"),
        Err(EdidError::NameTooLong)
    );
}

// A record whose totals or sync pulses are out of order is refused as
// defective rather than encoded.
#[test]
fn invariant_violation_is_refused() {
    let broken = CvtMode {
        clock: 25000,
        hdisplay: 640,
        hsync_start: 656,
        hsync_end: 720,
        htotal: 640,
        vdisplay: 480,
        vsync_start: 483,
        vsync_end: 487,
        vtotal: 500,
        vrefresh: 60,
        flags: CvtModeFlags {
            phsync: false,
            nhsync: true,
            pvsync: true,
            nvsync: false,
            interlace: false,
        },
        xy_ratio: XYRatio::Ratio4_3,
    };
    assert_eq!(
        generate_edid(&broken, Version::V1_4, "broken"),
        Err(EdidError::EncodingInvariantViolation)
    );
}

// The fixed sections and the computed fields of the block, byte by byte.
#[test]
fn descriptor_layout_1080p() {
    let m = sample_mode();
    let bytes = generate_edid(&m, Version::V1_4, "test").unwrap();
    // Header.
    assert_eq!(
        &bytes[..8],
        &[0x00, 0xff, 0xff, 0xff, 0xff, 0xff, 0xff, 0x00]
    );
    // Version pair.
    assert_eq!(bytes[18], 1);
    assert_eq!(bytes[19], 4);
    // Standard timing entry: width, 16:9 tag and 60 Hz.
    assert_eq!(bytes[38], (1920 / 8 - 31) as u8);
    assert_eq!(bytes[39], 0b11 << 6);
    assert_eq!(&bytes[40..42], &[0x01, 0x01]);
    // Detailed timing descriptor: pixel clock in 10 kHz units, little
    // endian.
    assert_eq!(bytes[54], 0x94);
    assert_eq!(bytes[55], 0x43);
    // Active and blanking, low bytes then packed high nibbles.
    assert_eq!(bytes[56], (1920 % 256) as u8);
    assert_eq!(bytes[57], (656 % 256) as u8);
    assert_eq!(bytes[58], 0x72);
    assert_eq!(bytes[59], (1080 % 256) as u8);
    assert_eq!(bytes[60], 40);
    assert_eq!(bytes[61], 0x40);
    // Sync offsets and widths.
    assert_eq!(bytes[62], 128);
    assert_eq!(bytes[63], 200);
    assert_eq!(bytes[64], 0x35);
    assert_eq!(bytes[65], 0x00);
    // Image size in millimetres at 96 dots per inch.
    assert_eq!(bytes[66], (500 % 256) as u8);
    assert_eq!(bytes[67], (281 % 256) as u8);
    assert_eq!(bytes[68], 0x11);
    // No borders; digital separate sync with positive vertical polarity.
    assert_eq!(bytes[69], 0);
    assert_eq!(bytes[70], 0);
    assert_eq!(bytes[71], 0x18 | 0x04);
    // Monitor range descriptor: refresh and line-rate windows.
    assert_eq!(&bytes[72..77], &[0, 0, 0, 0xfd, 0]);
    assert_eq!(bytes[77], 59);
    assert_eq!(bytes[78], 61);
    assert_eq!(bytes[79], 66);
    assert_eq!(bytes[80], 68);
    assert_eq!(bytes[81], 18);
    // Name descriptor: the name, a line feed, then space padding.
    assert_eq!(&bytes[90..95], &[0, 0, 0, 0xfc, 0]);
    assert_eq!(&bytes[95..99], b"test");
    assert_eq!(bytes[99], 0x0a);
    for i in 100..108 {
        assert_eq!(bytes[i], 0x20);
    }
    // No extension blocks.
    assert_eq!(bytes[126], 0);
}

// An unknown aspect ratio leaves the standard-timing entry unused.
#[test]
fn custom_ratio_omits_standard_timing() {
    let m = CvtMode::new(1000, 700, 60, false, false, false);
    let bytes = generate_edid(&m, Version::V1_0, "odd").unwrap();
    assert_eq!(&bytes[38..40], &[0x01, 0x01]);
    assert_eq!(bytes[19], 0);
}

// The interlace bit of the detailed descriptor follows the mode flag.
#[test]
fn interlace_bit_is_encoded() {
    let m = CvtMode::new(1920, 1080, 60, false, true, false);
    let bytes = generate_edid(&m, Version::V1_4, "i1080").unwrap();
    assert_eq!(bytes[71] & 0x80, 0x80);
    let p = sample_mode();
    let bytes = generate_edid(&p, Version::V1_4, "p1080").unwrap();
    assert_eq!(bytes[71] & 0x80, 0);
}

// Exact checksum values.
#[test]
fn crc_values() {
    assert_eq!(calculate_crc(&[]), 0);
    assert_eq!(calculate_crc(&[1, 2, 3]), 250);
    assert_eq!(calculate_crc(&[255, 255]), 2);
    assert_eq!(calculate_crc(&[0, 0, 0, 0]), 0);
}

// The version selector parses exactly the five spellings 1.0 to 1.4.
#[test]
fn version_parsing() {
    assert_eq!(Version::from_str("1.0").unwrap().minor(), 0);
    assert_eq!(Version::from_str("1.1").unwrap().minor(), 1);
    assert_eq!(Version::from_str("1.2").unwrap().minor(), 2);
    assert_eq!(Version::from_str("1.3").unwrap().minor(), 3);
    assert_eq!(Version::from_str("1.4").unwrap().minor(), 4);
    assert_eq!(Version::from_str("1.4").unwrap().major(), 1);
    assert_eq!(Version::from_str("1.5"), Err(EdidError::InvalidVersion));
    assert_eq!(Version::from_str("2.0"), Err(EdidError::InvalidVersion));
    assert_eq!(Version::from_str(""), Err(EdidError::InvalidVersion));
    assert_eq!(Version::from_str("1.40"), Err(EdidError::InvalidVersion));
}
