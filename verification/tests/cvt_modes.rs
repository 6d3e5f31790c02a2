use edid_gen::{validate_request, CvtMode, EdidError, XYRatio};

// Scenario: 1920x1080 at 60 Hz with standard blanking.  The resolution
// classifies as 16:9 (vertical sync width 5) and the whole geometry and
// pixel clock match the published CVT values for this mode.
#[test]
fn scenario_1920_1080_60_standard() {
    assert!(validate_request(1920, 1080, 60, false, false, false).is_ok());
    let m = CvtMode::new(1920, 1080, 60, false, false, false);
    assert_eq!(m.clock, 173000);
    assert_eq!(m.hdisplay, 1920);
    assert_eq!(m.hsync_start, 2048);
    assert_eq!(m.hsync_end, 2248);
    assert_eq!(m.htotal, 2576);
    assert_eq!(m.vdisplay, 1080);
    assert_eq!(m.vsync_start, 1083);
    assert_eq!(m.vsync_end, 1088);
    assert_eq!(m.vtotal, 1120);
    assert_eq!(m.vrefresh, 60);
    assert_eq!(m.xy_ratio, XYRatio::Ratio16_9);
    assert_eq!(m.vsync_end - m.vsync_start, 5);
    // Standard blanking: negative horizontal, positive vertical sync.
    assert!(m.flags.nhsync);
    assert!(m.flags.pvsync);
    assert!(!m.flags.phsync);
    assert!(!m.flags.nvsync);
    assert!(!m.flags.interlace);
    // Blanking is a whole number of double character cells.
    assert_eq!((m.htotal - m.hdisplay) % 16, 0);
}

// Scenario: the same request with reduced blanking.  Horizontal blanking
// is fixed at 160 clocks, the sync pulse at 32, and the polarities flip.
#[test]
fn scenario_1920_1080_60_reduced() {
    let m = CvtMode::new(1920, 1080, 60, true, false, false);
    assert_eq!(m.htotal - m.hdisplay, 160);
    assert_eq!(m.hsync_end - m.hsync_start, 32);
    assert_eq!(m.clock, 138500);
    assert_eq!(m.hdisplay, 1920);
    assert_eq!(m.hsync_start, 1968);
    assert_eq!(m.hsync_end, 2000);
    assert_eq!(m.htotal, 2080);
    assert_eq!(m.vsync_start, 1083);
    assert_eq!(m.vsync_end, 1088);
    assert_eq!(m.vtotal, 1111);
    // Reduced blanking: positive horizontal, negative vertical sync.
    assert!(m.flags.phsync);
    assert!(m.flags.nvsync);
    assert!(!m.flags.nhsync);
    assert!(!m.flags.pvsync);
}

// Scenario: an interlaced request doubles the internal field rate and the
// final vertical total relative to a progressive request for half the
// lines at the same field rate.
#[test]
fn scenario_interlaced_doubles_vertical_total() {
    let interlaced = CvtMode::new(1920, 1080, 60, false, true, false);
    let progressive = CvtMode::new(1920, 540, 120, false, false, false);
    assert!(interlaced.flags.interlace);
    assert!(!progressive.flags.interlace);
    assert_eq!(progressive.vtotal, 582);
    assert_eq!(interlaced.vtotal, 2 * progressive.vtotal);
    assert_eq!(interlaced.vdisplay, 1080);
}

// Margins add 1.8% borders: the horizontal pair rounded down to whole
// character cells, the vertical pair taken as computed.
#[test]
fn margins_expand_active_area() {
    let m = CvtMode::new(1920, 1080, 60, false, false, true);
    assert_eq!(m.hdisplay, 1920 + 2 * 32);
    assert_eq!(m.vdisplay, 1080 + 2 * 19);
    assert_eq!(m.vsync_start, m.vdisplay + 3);
    assert!(m.htotal > m.hdisplay);
    assert!(m.vtotal > m.vdisplay);
}

// A refresh rate of zero or below is treated as the CVT default of 60 Hz.
#[test]
fn non_positive_refresh_means_60() {
    let m = CvtMode::new(1920, 1080, 0, false, false, false);
    assert_eq!(m.vrefresh, 60);
    assert_eq!(m.clock, 173000);
    let m = CvtMode::new(1920, 1080, -5, false, false, false);
    assert_eq!(m.vrefresh, 60);
}

// Each classification branch, probed in priority order.
#[test]
fn aspect_ratio_4_3() {
    let m = CvtMode::new(640, 480, 60, false, false, false);
    assert_eq!(m.xy_ratio, XYRatio::Ratio4_3);
    assert_eq!(m.vsync_end - m.vsync_start, 4);
    assert_eq!(m.clock, 23750);
    assert_eq!(m.vtotal, 500);
    assert_eq!(m.htotal, 800);
}

#[test]
fn aspect_ratio_5_4() {
    let m = CvtMode::new(1280, 1024, 60, false, false, false);
    assert_eq!(m.xy_ratio, XYRatio::Ratio5_4);
    assert_eq!(m.vsync_end - m.vsync_start, 7);
}

#[test]
fn aspect_ratio_16_10() {
    let m = CvtMode::new(1920, 1200, 60, false, false, false);
    assert_eq!(m.xy_ratio, XYRatio::Ratio16_10);
    assert_eq!(m.vsync_end - m.vsync_start, 6);
}

// A 15:9 shape keeps the unknown classification but the narrower sync
// width of 7.
#[test]
fn aspect_ratio_15_9_is_unknown_with_width_7() {
    let m = CvtMode::new(1200, 720, 60, false, false, false);
    assert_eq!(m.xy_ratio, XYRatio::RatioUnknown);
    assert_eq!(m.vsync_end - m.vsync_start, 7);
}

#[test]
fn aspect_ratio_custom_width_10() {
    let m = CvtMode::new(1000, 700, 60, false, false, false);
    assert_eq!(m.xy_ratio, XYRatio::RatioUnknown);
    assert_eq!(m.vsync_end - m.vsync_start, 10);
}

// A reduced-blanking 4K mode: the fixed blanking applies unchanged at
// larger sizes.
#[test]
fn scenario_3840_2160_60_reduced() {
    let m = CvtMode::new(3840, 2160, 60, true, false, false);
    assert_eq!(m.xy_ratio, XYRatio::Ratio16_9);
    assert_eq!(m.htotal, 4000);
    assert_eq!(m.hsync_start, 3888);
    assert_eq!(m.hsync_end, 3920);
    assert_eq!(m.vtotal, 2222);
    assert_eq!(m.clock, 533000);
}

// Reduced blanking combined with interlacing.
#[test]
fn reduced_interlaced_mode() {
    let m = CvtMode::new(1920, 1080, 60, true, true, false);
    assert_eq!(m.htotal - m.hdisplay, 160);
    assert_eq!(m.vdisplay, 1080);
    assert_eq!(m.vtotal, 1144);
    assert_eq!(m.clock, 142500);
    assert!(m.flags.interlace);
    assert!(m.flags.phsync);
    assert!(m.flags.nvsync);
}

// The boundary validator rejects what the calculator is undefined for.
#[test]
fn validation_rejects_bad_dimensions() {
    assert_eq!(
        validate_request(0, 480, 60, false, false, false),
        Err(EdidError::InvalidDimension)
    );
    assert_eq!(
        validate_request(-640, 480, 60, false, false, false),
        Err(EdidError::InvalidDimension)
    );
    assert_eq!(
        validate_request(640, 0, 60, false, false, false),
        Err(EdidError::InvalidDimension)
    );
    // Not a multiple of the character cell granularity.
    assert_eq!(
        validate_request(1922, 1080, 60, false, false, false),
        Err(EdidError::InvalidDimension)
    );
}

#[test]
fn validation_rejects_excessive_refresh() {
    // A field rate this high leaves no time inside the field for the
    // reserved vertical interval.
    assert_eq!(
        validate_request(640, 480, 2000, false, false, false),
        Err(EdidError::InvalidDimension)
    );
    assert!(validate_request(640, 480, 240, false, false, false).is_ok());
}

#[test]
fn validation_accepts_common_requests() {
    assert!(validate_request(640, 480, 60, false, false, false).is_ok());
    assert!(validate_request(1920, 1080, 60, true, false, false).is_ok());
    assert!(validate_request(1920, 1080, 60, false, true, true).is_ok());
    assert!(validate_request(3840, 2160, 60, true, false, false).is_ok());
}
