//! The VESA Coordinated Video Timings (CVT 1.1) calculator.
//!
//! `CvtMode::new` derives a full display mode from a requested resolution,
//! refresh rate and the three policy flags (reduced blanking, interlaced,
//! margins).  The whole numeric procedure is mirrored, step for step, by the
//! spec functions of this module, and `CvtMode::new` is proved to return
//! exactly the record those spec functions describe.  All fractional
//! quantities (percentages, microseconds) are carried as unscaled integers
//! with an explicit 1000x fixed-point factor, and every division truncates;
//! both choices are load-bearing for bit-exact compatibility with existing
//! consumers of these timings.

use vstd::prelude::*;
use vstd::arithmetic::div_mod::{
    lemma_div_is_ordered, lemma_div_is_ordered_by_denominator, lemma_fundamental_div_mod,
};
use vstd::arithmetic::mul::lemma_mul_upper_bound;

use crate::EdidError;

verus! {

// The CVT configuration constants, named as in the published algorithm.

/// Fixed-point scaling factor: fractions are carried as thousandths.
pub const HV_FACTOR: u64 = 1000;
/// Margin size, as thousandths of the active size: 1.8%.
pub const CVT_MARGIN_PERCENTAGE: u64 = 18;
/// Character cell horizontal granularity, in pixels.
pub const CVT_H_GRANULARITY: u64 = 8;
/// Minimum vertical front porch, in lines.
pub const CVT_MIN_V_PORCH: u64 = 3;
/// Minimum vertical back porch, in lines (reduced blanking).
pub const CVT_MIN_V_BPORCH: u64 = 6;
/// Pixel clock step, in kHz: the computed clock is truncated to a multiple.
pub const CVT_CLOCK_STEP: u64 = 250;
/// Minimum time of vertical sync plus back porch, in microseconds.
pub const CVT_MIN_VSYNC_BP: u64 = 550;
/// Nominal horizontal sync width, as a percentage of the line period.
pub const CVT_HSYNC_PERCENTAGE: u64 = 8;
/// Blanking duty cycle model: gradient, in %/kHz.
pub const CVT_M_FACTOR: u64 = 600;
/// Blanking duty cycle model: offset, in %.
pub const CVT_C_FACTOR: u64 = 40;
/// Blanking duty cycle model: scaling factor.
pub const CVT_K_FACTOR: u64 = 128;
/// Blanking duty cycle model: scaling factor weighting.
pub const CVT_J_FACTOR: u64 = 20;
/// Gradient scaled by the blanking model's weighting: 300.
pub const CVT_M_PRIME: u64 = CVT_M_FACTOR * CVT_K_FACTOR / 256;
/// Offset scaled by the blanking model's weighting: 30.
pub const CVT_C_PRIME: u64 = (CVT_C_FACTOR - CVT_J_FACTOR) * CVT_K_FACTOR / 256 + CVT_J_FACTOR;
/// Minimum vertical blanking interval for reduced blanking, in microseconds.
pub const CVT_RB_MIN_VBLANK: u64 = 460;
/// Fixed number of clocks of horizontal sync for reduced blanking.
pub const CVT_RB_H_SYNC: u64 = 32;
/// Fixed number of clocks of horizontal blanking for reduced blanking.
pub const CVT_RB_H_BLANK: u64 = 160;
/// Fixed number of lines of vertical front porch for reduced blanking.
pub const CVT_RB_VFPORCH: u64 = 3;

/// Aspect-ratio classification of a requested resolution.
#[derive(Clone, Copy, Debug, PartialEq, Eq, Structural)]
pub enum XYRatio {
    Ratio16_10,
    Ratio4_3,
    Ratio5_4,
    Ratio16_9,
    RatioUnknown,
}

/// The sync-polarity and interlace flags of a computed mode.  The two
/// polarity pairs are fixed by the blanking policy: reduced blanking yields
/// a positive horizontal and negative vertical sync, standard blanking the
/// opposite pair.
#[derive(Clone, Copy, Debug, PartialEq, Eq, Structural)]
pub struct CvtModeFlags {
    pub phsync: bool,
    pub nhsync: bool,
    pub pvsync: bool,
    pub nvsync: bool,
    pub interlace: bool,
}

/// A computed display mode.  Produced once by `CvtMode::new` and never
/// mutated; `clock` is in kHz, all other geometry in pixels or lines.
#[derive(Clone, Copy, Debug, PartialEq, Eq, Structural)]
pub struct CvtMode {
    pub clock: u64,
    pub hdisplay: i32,
    pub hsync_start: i32,
    pub hsync_end: i32,
    pub htotal: i32,
    pub vdisplay: i32,
    pub vsync_start: i32,
    pub vsync_end: i32,
    pub vtotal: i32,
    pub vrefresh: i32,
    pub flags: CvtModeFlags,
    pub xy_ratio: XYRatio,
}

/// The mathematical image of a `CvtMode`: the same record over unbounded
/// integers, with the flags unpacked.
pub ghost struct TimingSpec {
    pub clock: int,
    pub hdisplay: int,
    pub hsync_start: int,
    pub hsync_end: int,
    pub htotal: int,
    pub vdisplay: int,
    pub vsync_start: int,
    pub vsync_end: int,
    pub vtotal: int,
    pub vrefresh: int,
    pub phsync: bool,
    pub nhsync: bool,
    pub pvsync: bool,
    pub nvsync: bool,
    pub interlace: bool,
    pub ratio: XYRatio,
}

impl View for CvtMode {
    type V = TimingSpec;

    open spec fn view(&self) -> TimingSpec {
        TimingSpec {
            clock: self.clock as int,
            hdisplay: self.hdisplay as int,
            hsync_start: self.hsync_start as int,
            hsync_end: self.hsync_end as int,
            htotal: self.htotal as int,
            vdisplay: self.vdisplay as int,
            vsync_start: self.vsync_start as int,
            vsync_end: self.vsync_end as int,
            vtotal: self.vtotal as int,
            vrefresh: self.vrefresh as int,
            phsync: self.flags.phsync,
            nhsync: self.flags.nhsync,
            pvsync: self.flags.pvsync,
            nvsync: self.flags.nvsync,
            interlace: self.flags.interlace,
            ratio: self.xy_ratio,
        }
    }
}

// The CVT numeric procedure, one spec function per step.  Each mirrors the
// corresponding integer computation exactly; all operands are non-negative
// on the domain admitted by `valid_request`, where truncating division and
// the mathematical division used here agree.

/// The nominal vertical refresh rate: a non-positive request means 60 Hz.
pub open spec fn nominal_refresh(r: int) -> int {
    if r <= 0 {
        60
    } else {
        r
    }
}

/// The required field refresh rate: interlaced modes are computed per field,
/// at twice the frame rate.
pub open spec fn field_refresh(r: int, interlaced: bool) -> int {
    if interlaced {
        2 * nominal_refresh(r)
    } else {
        nominal_refresh(r)
    }
}

/// Horizontal pixels rounded down to the character cell granularity.
pub open spec fn h_round(h: int) -> int {
    h - h % (CVT_H_GRANULARITY as int)
}

/// Left/right margin: 1.8% of the rounded width, itself rounded down to the
/// granularity; zero when margins are off.
pub open spec fn h_margin(h: int, margins: bool) -> int {
    if margins {
        let m = h_round(h) * (CVT_MARGIN_PERCENTAGE as int) / (HV_FACTOR as int);
        m - m % (CVT_H_GRANULARITY as int)
    } else {
        0
    }
}

/// Total active pixels per line, margins included.
pub open spec fn h_active(h: int, margins: bool) -> int {
    h_round(h) + 2 * h_margin(h, margins)
}

/// Lines per field: halved for interlaced modes.
pub open spec fn v_lines(v: int, interlaced: bool) -> int {
    if interlaced {
        v / 2
    } else {
        v
    }
}

/// Top/bottom margin: 1.8% of the lines per field; zero when margins are off.
pub open spec fn v_margin(v: int, interlaced: bool, margins: bool) -> int {
    if margins {
        v_lines(v, interlaced) * (CVT_MARGIN_PERCENTAGE as int) / (HV_FACTOR as int)
    } else {
        0
    }
}

/// Total active lines of the mode, margins included.
pub open spec fn v_active(v: int, interlaced: bool, margins: bool) -> int {
    v + 2 * v_margin(v, interlaced, margins)
}

/// Aspect-ratio classification, probed in a fixed priority order: narrower
/// ratios first, so that integer-division coincidences cannot misclassify.
pub open spec fn xy_ratio_of(h: int, v: int) -> XYRatio {
    if v % 3 == 0 && v * 4 / 3 == h {
        XYRatio::Ratio4_3
    } else if v % 9 == 0 && v * 16 / 9 == h {
        XYRatio::Ratio16_9
    } else if v % 10 == 0 && v * 16 / 10 == h {
        XYRatio::Ratio16_10
    } else if v % 4 == 0 && v * 5 / 4 == h {
        XYRatio::Ratio5_4
    } else {
        XYRatio::RatioUnknown
    }
}

/// Vertical sync width in lines, selected by the same priority chain as the
/// aspect-ratio classification; a 15:9 resolution keeps the unknown
/// classification but still gets the narrower width of 7.
pub open spec fn vsync_width_of(h: int, v: int) -> int {
    if v % 3 == 0 && v * 4 / 3 == h {
        4
    } else if v % 9 == 0 && v * 16 / 9 == h {
        5
    } else if v % 10 == 0 && v * 16 / 10 == h {
        6
    } else if v % 4 == 0 && v * 5 / 4 == h {
        7
    } else if v % 9 == 0 && v * 15 / 9 == h {
        7
    } else {
        10
    }
}

/// One for an interlaced request, zero otherwise: the extra half line of an
/// interlaced field.
pub open spec fn interlace_lines(interlaced: bool) -> int {
    if interlaced {
        1
    } else {
        0
    }
}

/// Estimated horizontal period, in nanoseconds.  Standard blanking reserves
/// the minimum vertical sync + back porch time; reduced blanking the minimum
/// vertical blanking interval.
pub open spec fn h_period(v: int, r: int, reduced: bool, interlaced: bool, margins: bool) -> int {
    let f = field_refresh(r, interlaced);
    let active = v_lines(v, interlaced) + 2 * v_margin(v, interlaced, margins);
    if reduced {
        let tmp1 = (HV_FACTOR as int) * 1000000 - (CVT_RB_MIN_VBLANK as int) * (HV_FACTOR as int)
            * f;
        tmp1 / (active * f)
    } else {
        let tmp1 = (HV_FACTOR as int) * 1000000 - (CVT_MIN_VSYNC_BP as int) * (HV_FACTOR as int)
            * f;
        let tmp2 = (active + (CVT_MIN_V_PORCH as int)) * 2 + interlace_lines(interlaced);
        tmp1 * 2 / (tmp2 * f)
    }
}

/// Standard blanking: lines of vertical sync plus back porch, at least the
/// sync width plus the minimum porch.
pub open spec fn v_sync_and_back_porch(
    h: int,
    v: int,
    r: int,
    interlaced: bool,
    margins: bool,
) -> int {
    let t = (CVT_MIN_VSYNC_BP as int) * (HV_FACTOR as int) / h_period(
        v,
        r,
        false,
        interlaced,
        margins,
    ) + 1;
    let floor = vsync_width_of(h, v) + (CVT_MIN_V_PORCH as int);
    if t < floor {
        floor
    } else {
        t
    }
}

/// Reduced blanking: lines of vertical blanking, at least front porch plus
/// sync width plus back porch.
pub open spec fn rb_v_blank_lines(
    h: int,
    v: int,
    r: int,
    interlaced: bool,
    margins: bool,
) -> int {
    let t = (CVT_RB_MIN_VBLANK as int) * (HV_FACTOR as int) / h_period(
        v,
        r,
        true,
        interlaced,
        margins,
    ) + 1;
    let floor = (CVT_RB_VFPORCH as int) + vsync_width_of(h, v) + (CVT_MIN_V_BPORCH as int);
    if t < floor {
        floor
    } else {
        t
    }
}

/// Total lines per field.
pub open spec fn v_total_field(
    h: int,
    v: int,
    r: int,
    reduced: bool,
    interlaced: bool,
    margins: bool,
) -> int {
    let active = v_lines(v, interlaced) + 2 * v_margin(v, interlaced, margins);
    if reduced {
        active + rb_v_blank_lines(h, v, r, interlaced, margins)
    } else {
        active + v_sync_and_back_porch(h, v, r, interlaced, margins) + (CVT_MIN_V_PORCH as int)
    }
}

/// Total lines per frame: an interlaced field total is doubled.
pub open spec fn v_total(
    h: int,
    v: int,
    r: int,
    reduced: bool,
    interlaced: bool,
    margins: bool,
) -> int {
    if interlaced {
        2 * v_total_field(h, v, r, reduced, interlaced, margins)
    } else {
        v_total_field(h, v, r, reduced, interlaced, margins)
    }
}

/// Standard blanking: ideal horizontal blanking duty cycle, in thousandths
/// of a percent, from the linear blanking model, clamped to the 20% floor.
pub open spec fn h_blank_percentage(
    v: int,
    r: int,
    interlaced: bool,
    margins: bool,
) -> int {
    let ideal = (CVT_C_PRIME as int) * (HV_FACTOR as int) - (CVT_M_PRIME as int) * h_period(
        v,
        r,
        false,
        interlaced,
        margins,
    ) / (HV_FACTOR as int);
    if ideal < 20 * (HV_FACTOR as int) {
        20 * (HV_FACTOR as int)
    } else {
        ideal
    }
}

/// Standard blanking: horizontal blanking in clocks, rounded down to twice
/// the character cell granularity.
pub open spec fn h_blank(
    h: int,
    v: int,
    r: int,
    interlaced: bool,
    margins: bool,
) -> int {
    let pct = h_blank_percentage(v, r, interlaced, margins);
    let raw = h_active(h, margins) * pct / (100 * (HV_FACTOR as int) - pct);
    raw - raw % (2 * (CVT_H_GRANULARITY as int))
}

/// Total clocks per line.
pub open spec fn h_total(
    h: int,
    v: int,
    r: int,
    reduced: bool,
    interlaced: bool,
    margins: bool,
) -> int {
    if reduced {
        h_active(h, margins) + (CVT_RB_H_BLANK as int)
    } else {
        h_active(h, margins) + h_blank(h, v, r, interlaced, margins)
    }
}

/// End of the horizontal sync pulse: the midpoint of the blanking interval.
pub open spec fn h_sync_end(
    h: int,
    v: int,
    r: int,
    reduced: bool,
    interlaced: bool,
    margins: bool,
) -> int {
    if reduced {
        h_active(h, margins) + (CVT_RB_H_BLANK as int) / 2
    } else {
        h_active(h, margins) + h_blank(h, v, r, interlaced, margins) / 2
    }
}

/// Start of the horizontal sync pulse.  Reduced blanking uses the fixed sync
/// width; standard blanking steps back by the nominal sync percentage of the
/// line and rounds up to the next multiple of the granularity.
pub open spec fn h_sync_start(
    h: int,
    v: int,
    r: int,
    reduced: bool,
    interlaced: bool,
    margins: bool,
) -> int {
    if reduced {
        h_sync_end(h, v, r, reduced, interlaced, margins) - (CVT_RB_H_SYNC as int)
    } else {
        let x = h_sync_end(h, v, r, reduced, interlaced, margins) - h_total(
            h,
            v,
            r,
            reduced,
            interlaced,
            margins,
        ) * (CVT_HSYNC_PERCENTAGE as int) / 100;
        x + ((CVT_H_GRANULARITY as int) - x % (CVT_H_GRANULARITY as int))
    }
}

/// First line of the vertical sync pulse: the minimum front porch below the
/// active region (both blanking policies use three lines).
pub open spec fn v_sync_start(v: int, interlaced: bool, margins: bool) -> int {
    v_active(v, interlaced, margins) + (CVT_MIN_V_PORCH as int)
}

/// Line past the vertical sync pulse.
pub open spec fn v_sync_end(h: int, v: int, interlaced: bool, margins: bool) -> int {
    v_sync_start(v, interlaced, margins) + vsync_width_of(h, v)
}

/// Pixel clock before the step truncation, in kHz.
pub open spec fn pixel_clock_raw(
    h: int,
    v: int,
    r: int,
    reduced: bool,
    interlaced: bool,
    margins: bool,
) -> int {
    h_total(h, v, r, reduced, interlaced, margins) * ((HV_FACTOR as int) * 1000) / h_period(
        v,
        r,
        reduced,
        interlaced,
        margins,
    )
}

/// Pixel clock, truncated down to a multiple of the clock step, in kHz.
pub open spec fn pixel_clock(
    h: int,
    v: int,
    r: int,
    reduced: bool,
    interlaced: bool,
    margins: bool,
) -> int {
    let raw = pixel_clock_raw(h, v, r, reduced, interlaced, margins);
    raw - raw % (CVT_CLOCK_STEP as int)
}

/// The complete timing record the CVT procedure assigns to a request.
pub open spec fn cvt_timing(
    h: int,
    v: int,
    r: int,
    reduced: bool,
    interlaced: bool,
    margins: bool,
) -> TimingSpec {
    TimingSpec {
        clock: pixel_clock(h, v, r, reduced, interlaced, margins),
        hdisplay: h_active(h, margins),
        hsync_start: h_sync_start(h, v, r, reduced, interlaced, margins),
        hsync_end: h_sync_end(h, v, r, reduced, interlaced, margins),
        htotal: h_total(h, v, r, reduced, interlaced, margins),
        vdisplay: v_active(v, interlaced, margins),
        vsync_start: v_sync_start(v, interlaced, margins),
        vsync_end: v_sync_end(h, v, interlaced, margins),
        vtotal: v_total(h, v, r, reduced, interlaced, margins),
        vrefresh: nominal_refresh(r),
        phsync: reduced,
        nhsync: !reduced,
        pvsync: !reduced,
        nvsync: reduced,
        interlace: interlaced,
        ratio: xy_ratio_of(h, v),
    }
}

/// The domain on which the CVT procedure is defined.  Beyond the stated
/// shape of a request (positive dimensions, a width on the character cell
/// granularity), the conjuncts keep every intermediate quantity of the
/// published CVT arithmetic inside its 32-bit range: the dimension caps bound
/// the products, and the remaining conditions are exactly a positive
/// reserved-interval budget, a positive horizontal period, a non-negative
/// blanking duty cycle, and a pixel clock that reaches the clock step.
/// Outside this domain the procedure has no defined result.
pub open spec fn valid_request(
    h: int,
    v: int,
    r: int,
    reduced: bool,
    interlaced: bool,
    margins: bool,
) -> bool {
    &&& 0 < h <= 131072
    &&& h % (CVT_H_GRANULARITY as int) == 0
    &&& 0 < v <= 131072
    &&& (reduced && interlaced) ==> 2 <= v
    &&& (if reduced {
        (CVT_RB_MIN_VBLANK as int) * (HV_FACTOR as int) * field_refresh(r, interlaced)
    } else {
        (CVT_MIN_VSYNC_BP as int) * (HV_FACTOR as int) * field_refresh(r, interlaced)
    }) < (HV_FACTOR as int) * 1000000
    &&& 1 <= h_period(v, r, reduced, interlaced, margins)
    &&& !reduced ==> (CVT_M_PRIME as int) * h_period(v, r, false, interlaced, margins) / (
    HV_FACTOR as int) <= (CVT_C_PRIME as int) * (HV_FACTOR as int)
    &&& (CVT_CLOCK_STEP as int) <= pixel_clock_raw(h, v, r, reduced, interlaced, margins)
}

/// A sane timing record: the sync pulse of each axis is non-empty and lies
/// inside the blanking interval after the active region, so in particular
/// each total strictly exceeds its active size, and the pixel clock is a
/// positive multiple of the clock step.  Every record the calculator
/// produces for a request of at least 104 active pixels satisfies this
/// (`lemma_new_well_formed`), and the encoder refuses records that do not.
pub open spec fn timing_well_formed(t: TimingSpec) -> bool {
    &&& 0 < t.hdisplay
    &&& 0 < t.vdisplay
    &&& t.hdisplay <= t.hsync_start
    &&& t.hsync_start < t.hsync_end
    &&& t.hsync_end <= t.htotal
    &&& t.vdisplay <= t.vsync_start
    &&& t.vsync_start < t.vsync_end
    &&& t.vsync_end <= t.vtotal
    &&& 0 < t.clock
    &&& t.clock % (CVT_CLOCK_STEP as int) == 0
}

/// Decide whether a request lies in the domain of the CVT procedure,
/// returning `InvalidDimension` exactly when it does not.  Callers are meant
/// to run this boundary check before `CvtMode::new`.
#[verifier::rlimit(100)]
pub fn validate_request(
    hdisplay: i32,
    vdisplay: i32,
    vrefresh: i32,
    reduced: bool,
    interlaced: bool,
    margins: bool,
) -> (r: Result<(), EdidError>)
    ensures
        r is Ok <==> valid_request(
            hdisplay as int,
            vdisplay as int,
            vrefresh as int,
            reduced,
            interlaced,
            margins,
        ),
        r is Err ==> r == Err::<(), EdidError>(EdidError::InvalidDimension),
{
    let ghost gh: int = hdisplay as int;
    let ghost gv: int = vdisplay as int;
    let ghost gr: int = vrefresh as int;

    if hdisplay <= 0 || hdisplay > 131072 {
        return Err(EdidError::InvalidDimension);
    }
    let h: u64 = hdisplay as u64;
    if h % CVT_H_GRANULARITY != 0 {
        return Err(EdidError::InvalidDimension);
    }
    if vdisplay <= 0 || vdisplay > 131072 {
        return Err(EdidError::InvalidDimension);
    }
    let v: u64 = vdisplay as u64;
    if reduced && interlaced && v < 2 {
        return Err(EdidError::InvalidDimension);
    }

    let vr: u64 = if vrefresh <= 0 {
        60
    } else {
        vrefresh as u64
    };
    let vfieldrate: u64 = if interlaced {
        vr * 2
    } else {
        vr
    };
    assert(vfieldrate == field_refresh(gr, interlaced));
    assert(vfieldrate <= 0xffffffff);

    // The reserved vertical interval must leave time inside the field.
    let reserve: u64 = if reduced {
        proof {
            lemma_mul_upper_bound(
                (CVT_RB_MIN_VBLANK * HV_FACTOR) as int,
                460000,
                vfieldrate as int,
                0xffffffffint,
            );
        }
        CVT_RB_MIN_VBLANK * HV_FACTOR * vfieldrate
    } else {
        proof {
            lemma_mul_upper_bound(
                (CVT_MIN_VSYNC_BP * HV_FACTOR) as int,
                550000,
                vfieldrate as int,
                0xffffffffint,
            );
        }
        CVT_MIN_VSYNC_BP * HV_FACTOR * vfieldrate
    };
    if reserve >= HV_FACTOR * 1000000 {
        return Err(EdidError::InvalidDimension);
    }
    proof {
        let f: int = field_refresh(gr, interlaced);
        if reduced {
            assert(f <= 2173) by (nonlinear_arith)
                requires
                    (CVT_RB_MIN_VBLANK as int) * (HV_FACTOR as int) * f < (HV_FACTOR as int)
                        * 1000000,
                    CVT_RB_MIN_VBLANK == 460,
                    HV_FACTOR == 1000,
            ;
        } else {
            assert(f <= 1818) by (nonlinear_arith)
                requires
                    (CVT_MIN_VSYNC_BP as int) * (HV_FACTOR as int) * f < (HV_FACTOR as int)
                        * 1000000,
                    CVT_MIN_VSYNC_BP == 550,
                    HV_FACTOR == 1000,
            ;
        }
    }
    assert(vfieldrate <= 2174);
    let tmp1: u64 = HV_FACTOR * 1000000 - reserve;
    assert(1 <= tmp1 <= 1000000000);

    // The estimated horizontal period must come out positive.
    let vdisplay_rnd: u64 = if interlaced {
        v / 2
    } else {
        v
    };
    assert(vdisplay_rnd == v_lines(gv, interlaced));
    let vmargin: u64 = if margins {
        proof {
            lemma_div_is_ordered(
                vdisplay_rnd * CVT_MARGIN_PERCENTAGE,
                131072int * 18,
                HV_FACTOR as int,
            );
        }
        vdisplay_rnd * CVT_MARGIN_PERCENTAGE / HV_FACTOR
    } else {
        0
    };
    assert(vmargin == v_margin(gv, interlaced, margins));
    assert(vmargin <= 2359);

    let hperiod: u64 = if reduced {
        let tmp2: u64 = vdisplay_rnd + 2 * vmargin;
        assert(1 <= tmp2 <= 135790);
        proof {
            lemma_mul_upper_bound(tmp2 as int, 135790, vfieldrate as int, 2174);
            assert(tmp2 * vfieldrate >= 1) by (nonlinear_arith)
                requires
                    tmp2 >= 1,
                    vfieldrate >= 1,
            ;
        }
        let d: u64 = tmp2 * vfieldrate;
        proof {
            lemma_div_is_ordered_by_denominator(tmp1 as int, 1, d as int);
        }
        tmp1 / d
    } else {
        let interlace: u64 = if interlaced {
            1
        } else {
            0
        };
        let tmp2: u64 = (vdisplay_rnd + 2 * vmargin + CVT_MIN_V_PORCH) * 2 + interlace;
        assert(6 <= tmp2 <= 271587);
        proof {
            lemma_mul_upper_bound(tmp2 as int, 271587, vfieldrate as int, 2174);
            assert(tmp2 * vfieldrate >= 1) by (nonlinear_arith)
                requires
                    tmp2 >= 1,
                    vfieldrate >= 1,
            ;
        }
        let d: u64 = tmp2 * vfieldrate;
        proof {
            lemma_div_is_ordered_by_denominator((tmp1 * 2) as int, 1, d as int);
        }
        tmp1 * 2 / d
    };
    assert(hperiod == h_period(gv, gr, reduced, interlaced, margins));
    if hperiod < 1 {
        return Err(EdidError::InvalidDimension);
    }
    assert(hperiod <= 2000000000);

    // Standard blanking: the blanking model must not leave the duty cycle
    // negative.
    if !reduced {
        proof {
            lemma_mul_upper_bound(CVT_M_PRIME as int, 300, hperiod as int, 2000000000);
        }
        let mp: u64 = CVT_M_PRIME * hperiod / HV_FACTOR;
        if mp > CVT_C_PRIME * HV_FACTOR {
            return Err(EdidError::InvalidDimension);
        }
    }

    // The resulting pixel clock must reach the clock step.
    let hdisplay_rnd: u64 = h - h % CVT_H_GRANULARITY;
    let hmargin: u64 = if margins {
        let m: u64 = hdisplay_rnd * CVT_MARGIN_PERCENTAGE / HV_FACTOR;
        proof {
            lemma_div_is_ordered(
                hdisplay_rnd * CVT_MARGIN_PERCENTAGE,
                131072int * 18,
                HV_FACTOR as int,
            );
        }
        assert(m <= 2359);
        m - m % CVT_H_GRANULARITY
    } else {
        0
    };
    assert(hmargin == h_margin(gh, margins));
    let mode_hdisplay: u64 = hdisplay_rnd + 2 * hmargin;
    assert(mode_hdisplay == h_active(gh, margins));
    assert(mode_hdisplay <= 135790);

    let htotal: u64 = if reduced {
        mode_hdisplay + CVT_RB_H_BLANK
    } else {
        let mp: u64 = CVT_M_PRIME * hperiod / HV_FACTOR;
        let mut hblank_percentage: u64 = CVT_C_PRIME * HV_FACTOR - mp;
        if hblank_percentage < 20 * HV_FACTOR {
            hblank_percentage = 20 * HV_FACTOR;
        }
        assert(hblank_percentage == h_blank_percentage(gv, gr, interlaced, margins));
        assert(20000 <= hblank_percentage <= 30000);
        proof {
            lemma_mul_upper_bound(mode_hdisplay as int, 135790, hblank_percentage as int, 30000);
            lemma_div_is_ordered(
                mode_hdisplay * hblank_percentage,
                135790int * 30000,
                (100 * HV_FACTOR - hblank_percentage) as int,
            );
            lemma_div_is_ordered_by_denominator(
                135790int * 30000,
                70000,
                (100 * HV_FACTOR - hblank_percentage) as int,
            );
        }
        let hblank0: u64 = mode_hdisplay * hblank_percentage / (100 * HV_FACTOR
            - hblank_percentage);
        assert(hblank0 <= 58196);
        let hblank: u64 = hblank0 - hblank0 % (2 * CVT_H_GRANULARITY);
        mode_hdisplay + hblank
    };
    assert(htotal == h_total(gh, gv, gr, reduced, interlaced, margins));
    assert(htotal <= 193986);
    let clock0: u64 = htotal * (HV_FACTOR * 1000) / hperiod;
    assert(clock0 == pixel_clock_raw(gh, gv, gr, reduced, interlaced, margins));
    if clock0 < CVT_CLOCK_STEP {
        return Err(EdidError::InvalidDimension);
    }
    Ok(())
}

impl CvtMode {
    /// Compute the CVT mode for a request.  The record returned is exactly
    /// `cvt_timing` of the request; every arithmetic step follows the
    /// published CVT procedure, truncation for truncation.
    #[verifier::rlimit(100)]
    pub fn new(
        hdisplay: i32,
        vdisplay: i32,
        vrefresh: i32,
        reduced: bool,
        interlaced: bool,
        margins: bool,
    ) -> (mode: CvtMode)
        requires
            valid_request(
                hdisplay as int,
                vdisplay as int,
                vrefresh as int,
                reduced,
                interlaced,
                margins,
            ),
        ensures
            mode@ == cvt_timing(
                hdisplay as int,
                vdisplay as int,
                vrefresh as int,
                reduced,
                interlaced,
                margins,
            ),
    {
        let ghost gh: int = hdisplay as int;
        let ghost gv: int = vdisplay as int;
        let ghost gr: int = vrefresh as int;

        let h: u64 = hdisplay as u64;
        let v: u64 = vdisplay as u64;

        // The CVT default refresh rate is 60 Hz.
        let vr: u64 = if vrefresh <= 0 {
            60
        } else {
            vrefresh as u64
        };
        assert(vr == nominal_refresh(gr));

        // The required field refresh rate.
        let vfieldrate: u64 = if interlaced {
            vr * 2
        } else {
            vr
        };
        assert(vfieldrate == field_refresh(gr, interlaced));
        proof {
            let f: int = field_refresh(gr, interlaced);
            if reduced {
                assert(f <= 2173) by (nonlinear_arith)
                    requires
                        (CVT_RB_MIN_VBLANK as int) * (HV_FACTOR as int) * f < (HV_FACTOR as int)
                            * 1000000,
                        CVT_RB_MIN_VBLANK == 460,
                        HV_FACTOR == 1000,
                ;
            } else {
                assert(f <= 1818) by (nonlinear_arith)
                    requires
                        (CVT_MIN_VSYNC_BP as int) * (HV_FACTOR as int) * f < (HV_FACTOR as int)
                            * 1000000,
                        CVT_MIN_VSYNC_BP == 550,
                        HV_FACTOR == 1000,
                ;
            }
        }
        assert(vfieldrate <= 2174);

        // Horizontal pixels on the character cell granularity.
        let hdisplay_rnd: u64 = h - h % CVT_H_GRANULARITY;
        assert(hdisplay_rnd == h_round(gh));

        // Left and right borders.
        let hmargin: u64 = if margins {
            let m: u64 = hdisplay_rnd * CVT_MARGIN_PERCENTAGE / HV_FACTOR;
            proof {
                lemma_div_is_ordered(
                    hdisplay_rnd * CVT_MARGIN_PERCENTAGE,
                    131072int * 18,
                    HV_FACTOR as int,
                );
            }
            assert(m <= 2359);
            m - m % CVT_H_GRANULARITY
        } else {
            0
        };
        assert(hmargin == h_margin(gh, margins));
        assert(hmargin <= 2359);

        // Total active pixels per line.
        let mode_hdisplay: u64 = hdisplay_rnd + 2 * hmargin;
        assert(mode_hdisplay == h_active(gh, margins));
        assert(mode_hdisplay <= 135790);

        // Lines per field.
        let vdisplay_rnd: u64 = if interlaced {
            v / 2
        } else {
            v
        };
        assert(vdisplay_rnd == v_lines(gv, interlaced));

        // Top and bottom borders.
        let vmargin: u64 = if margins {
            proof {
                lemma_div_is_ordered(
                    vdisplay_rnd * CVT_MARGIN_PERCENTAGE,
                    131072int * 18,
                    HV_FACTOR as int,
                );
            }
            vdisplay_rnd * CVT_MARGIN_PERCENTAGE / HV_FACTOR
        } else {
            0
        };
        assert(vmargin == v_margin(gv, interlaced, margins));
        assert(vmargin <= 2359);

        let mode_vdisplay: u64 = v + 2 * vmargin;
        assert(mode_vdisplay == v_active(gv, interlaced, margins));

        let interlace: u64 = if interlaced {
            1
        } else {
            0
        };

        // Vertical sync width and aspect-ratio classification, probed in
        // priority order.
        let xy_ratio: XYRatio;
        let vsync: u64;
        if v % 3 == 0 && v * 4 / 3 == h {
            xy_ratio = XYRatio::Ratio4_3;
            vsync = 4;
        } else if v % 9 == 0 && v * 16 / 9 == h {
            xy_ratio = XYRatio::Ratio16_9;
            vsync = 5;
        } else if v % 10 == 0 && v * 16 / 10 == h {
            xy_ratio = XYRatio::Ratio16_10;
            vsync = 6;
        } else if v % 4 == 0 && v * 5 / 4 == h {
            xy_ratio = XYRatio::Ratio5_4;
            vsync = 7;
        } else if v % 9 == 0 && v * 15 / 9 == h {
            xy_ratio = XYRatio::RatioUnknown;
            vsync = 7;
        } else {
            xy_ratio = XYRatio::RatioUnknown;
            vsync = 10;
        }
        assert(xy_ratio == xy_ratio_of(gh, gv));
        assert(vsync == vsync_width_of(gh, gv));
        assert(4 <= vsync <= 10);

        let (hperiod, vtotal_field, htotal, hsync_start, hsync_end, vsync_start, vsync_end): (
            u64,
            u64,
            u64,
            u64,
            u64,
            u64,
            u64,
        ) = if !reduced {
            // Standard blanking.
            let tmp1: u64 = HV_FACTOR * 1000000 - CVT_MIN_VSYNC_BP * HV_FACTOR * vfieldrate;
            assert(1 <= tmp1 <= 1000000000);
            let tmp2: u64 = (vdisplay_rnd + 2 * vmargin + CVT_MIN_V_PORCH) * 2 + interlace;
            assert(6 <= tmp2 <= 271587);
            proof {
                lemma_mul_upper_bound(tmp2 as int, 271587, vfieldrate as int, 2174);
                assert(tmp2 * vfieldrate >= 1) by (nonlinear_arith)
                    requires
                        tmp2 >= 1,
                        vfieldrate >= 1,
                ;
            }
            let denom: u64 = tmp2 * vfieldrate;
            let hperiod: u64 = tmp1 * 2 / denom;
            assert(hperiod == h_period(gv, gr, false, interlaced, margins));
            assert(1 <= hperiod);
            proof {
                lemma_div_is_ordered_by_denominator(tmp1 * 2 as int, 1, denom as int);
            }
            assert(hperiod <= 2000000000);

            // Lines of vertical sync plus back porch.
            proof {
                lemma_div_is_ordered_by_denominator(
                    (CVT_MIN_VSYNC_BP * HV_FACTOR) as int,
                    1,
                    hperiod as int,
                );
            }
            let t: u64 = CVT_MIN_VSYNC_BP * HV_FACTOR / hperiod + 1;
            assert(t <= 550001);
            let vsyncandback_porch: u64 = if t < vsync + CVT_MIN_V_PORCH {
                vsync + CVT_MIN_V_PORCH
            } else {
                t
            };
            assert(vsyncandback_porch == v_sync_and_back_porch(gh, gv, gr, interlaced, margins));
            let vtotal_field: u64 = vdisplay_rnd + 2 * vmargin + vsyncandback_porch
                + CVT_MIN_V_PORCH;
            assert(vtotal_field == v_total_field(gh, gv, gr, false, interlaced, margins));
            assert(vtotal_field <= 685794);

            // Ideal blanking duty cycle from the linear model, with the 20%
            // floor.
            let mp: u64 = CVT_M_PRIME * hperiod / HV_FACTOR;
            assert(mp <= CVT_C_PRIME * HV_FACTOR);
            let mut hblank_percentage: u64 = CVT_C_PRIME * HV_FACTOR - mp;
            if hblank_percentage < 20 * HV_FACTOR {
                hblank_percentage = 20 * HV_FACTOR;
            }
            assert(hblank_percentage == h_blank_percentage(gv, gr, interlaced, margins));
            assert(20000 <= hblank_percentage <= 30000);

            // Horizontal blanking, rounded down to twice the granularity.
            proof {
                lemma_mul_upper_bound(mode_hdisplay as int, 135790, hblank_percentage as int, 30000);
                lemma_div_is_ordered(
                    mode_hdisplay * hblank_percentage,
                    135790int * 30000,
                    (100 * HV_FACTOR - hblank_percentage) as int,
                );
                lemma_div_is_ordered_by_denominator(
                    135790int * 30000,
                    70000,
                    (100 * HV_FACTOR - hblank_percentage) as int,
                );
            }
            let hblank0: u64 = mode_hdisplay * hblank_percentage / (100 * HV_FACTOR
                - hblank_percentage);
            assert(hblank0 <= 58196);
            let hblank: u64 = hblank0 - hblank0 % (2 * CVT_H_GRANULARITY);
            assert(hblank == h_blank(gh, gv, gr, interlaced, margins));
            assert(hblank % 2 == 0) by {
                lemma_fundamental_div_mod(hblank0 as int, 16);
                assert(hblank == 16 * (hblank0 as int / 16));
            }

            // Total pixels per line, and the sync pulse around the blanking
            // midpoint.
            let htotal: u64 = mode_hdisplay + hblank;
            let hsync_end: u64 = mode_hdisplay + hblank / 2;
            let q: u64 = htotal * CVT_HSYNC_PERCENTAGE / 100;
            assert(q <= hsync_end) by (nonlinear_arith)
                requires
                    q == htotal * CVT_HSYNC_PERCENTAGE / 100,
                    htotal == mode_hdisplay + hblank,
                    hsync_end == mode_hdisplay + hblank / 2,
                    hblank % 2 == 0,
                    CVT_HSYNC_PERCENTAGE == 8,
            ;
            let x: u64 = hsync_end - q;
            let hsync_start: u64 = x + (CVT_H_GRANULARITY - x % CVT_H_GRANULARITY);
            assert(hsync_start == h_sync_start(gh, gv, gr, false, interlaced, margins));

            let vsync_start: u64 = mode_vdisplay + CVT_MIN_V_PORCH;
            let vsync_end: u64 = vsync_start + vsync;
            (hperiod, vtotal_field, htotal, hsync_start, hsync_end, vsync_start, vsync_end)
        } else {
            // Reduced blanking.
            let tmp1: u64 = HV_FACTOR * 1000000 - CVT_RB_MIN_VBLANK * HV_FACTOR * vfieldrate;
            assert(1 <= tmp1 <= 1000000000);
            let tmp2: u64 = vdisplay_rnd + 2 * vmargin;
            assert(1 <= tmp2 <= 135790);
            proof {
                lemma_mul_upper_bound(tmp2 as int, 135790, vfieldrate as int, 2174);
                assert(tmp2 * vfieldrate >= 1) by (nonlinear_arith)
                    requires
                        tmp2 >= 1,
                        vfieldrate >= 1,
                ;
            }
            let hperiod: u64 = tmp1 / (tmp2 * vfieldrate);
            assert(hperiod == h_period(gv, gr, true, interlaced, margins));
            assert(1 <= hperiod);

            // Lines of vertical blanking.
            proof {
                lemma_div_is_ordered_by_denominator(
                    (CVT_RB_MIN_VBLANK * HV_FACTOR) as int,
                    1,
                    hperiod as int,
                );
            }
            let mut vbilines: u64 = CVT_RB_MIN_VBLANK * HV_FACTOR / hperiod + 1;
            assert(vbilines <= 460001);
            if vbilines < CVT_RB_VFPORCH + vsync + CVT_MIN_V_BPORCH {
                vbilines = CVT_RB_VFPORCH + vsync + CVT_MIN_V_BPORCH;
            }
            assert(vbilines == rb_v_blank_lines(gh, gv, gr, interlaced, margins));
            let vtotal_field: u64 = vdisplay_rnd + 2 * vmargin + vbilines;
            assert(vtotal_field == v_total_field(gh, gv, gr, true, interlaced, margins));
            assert(vtotal_field <= 595791);

            // Fixed horizontal blanking and sync width.
            let htotal: u64 = mode_hdisplay + CVT_RB_H_BLANK;
            let hsync_end: u64 = mode_hdisplay + CVT_RB_H_BLANK / 2;
            let hsync_start: u64 = hsync_end - CVT_RB_H_SYNC;
            let vsync_start: u64 = mode_vdisplay + CVT_RB_VFPORCH;
            let vsync_end: u64 = vsync_start + vsync;
            (hperiod, vtotal_field, htotal, hsync_start, hsync_end, vsync_start, vsync_end)
        };
        assert(hperiod == h_period(gv, gr, reduced, interlaced, margins));
        assert(htotal == h_total(gh, gv, gr, reduced, interlaced, margins));
        assert(hsync_start == h_sync_start(gh, gv, gr, reduced, interlaced, margins));
        assert(hsync_end == h_sync_end(gh, gv, gr, reduced, interlaced, margins));
        assert(vsync_start == v_sync_start(gv, interlaced, margins));
        assert(vsync_end == v_sync_end(gh, gv, interlaced, margins));
        assert(htotal <= 193986);
        assert(hsync_start <= hsync_end + 8);
        assert(vtotal_field <= 685794);

        // Pixel clock, truncated down to the clock step.
        let clock0: u64 = htotal * (HV_FACTOR * 1000) / hperiod;
        assert(clock0 == pixel_clock_raw(gh, gv, gr, reduced, interlaced, margins));
        assert(CVT_CLOCK_STEP <= clock0);
        proof {
            lemma_div_is_ordered_by_denominator(
                (htotal * (HV_FACTOR * 1000)) as int,
                1,
                hperiod as int,
            );
        }
        let clock: u64 = clock0 - clock0 % CVT_CLOCK_STEP;
        assert(clock == pixel_clock(gh, gv, gr, reduced, interlaced, margins));

        // An interlaced field total becomes a frame total.
        let vtotal: u64 = if interlaced {
            vtotal_field * 2
        } else {
            vtotal_field
        };
        assert(vtotal == v_total(gh, gv, gr, reduced, interlaced, margins));

        let flags = CvtModeFlags {
            phsync: reduced,
            nhsync: !reduced,
            pvsync: !reduced,
            nvsync: reduced,
            interlace: interlaced,
        };

        let mode = CvtMode {
            clock,
            hdisplay: mode_hdisplay as i32,
            hsync_start: hsync_start as i32,
            hsync_end: hsync_end as i32,
            htotal: htotal as i32,
            vdisplay: mode_vdisplay as i32,
            vsync_start: vsync_start as i32,
            vsync_end: vsync_end as i32,
            vtotal: vtotal as i32,
            vrefresh: vr as i32,
            flags,
            xy_ratio,
        };
        assert(mode@ == cvt_timing(gh, gv, gr, reduced, interlaced, margins));
        mode
    }
}

// Basic facts about the geometry of a valid request, shared by the
// property lemmas below.
proof fn lemma_geometry_basics(h: int, v: int, interlaced: bool, margins: bool)
    requires
        0 < h,
        h % (CVT_H_GRANULARITY as int) == 0,
        0 < v,
    ensures
        h_round(h) == h,
        0 <= h_margin(h, margins),
        h_margin(h, margins) % 8 == 0,
        h <= h_active(h, margins),
        h_active(h, margins) % 8 == 0,
        0 <= v_lines(v, interlaced),
        0 <= v_margin(v, interlaced, margins),
        v <= v_active(v, interlaced, margins),
        v - 1 <= 2 * v_lines(v, interlaced),
{
    let hm = h_margin(h, margins);
    if margins {
        let m = h_round(h) * (CVT_MARGIN_PERCENTAGE as int) / (HV_FACTOR as int);
        assert(0 <= m) by (nonlinear_arith)
            requires
                m == h * 18 / 1000,
                0 < h,
        ;
        assert(0 <= hm && hm % 8 == 0) by (nonlinear_arith)
            requires
                hm == m - m % 8,
                0 <= m,
        ;
    }
    assert((h + 2 * hm) % 8 == 0) by (nonlinear_arith)
        requires
            h % 8 == 0,
            hm % 8 == 0,
    ;
    let vl = v_lines(v, interlaced);
    if interlaced {
        assert(0 <= vl && v - 1 <= 2 * vl) by (nonlinear_arith)
            requires
                vl == v / 2,
                0 < v,
        ;
    }
    if margins {
        let vm = v_margin(v, interlaced, margins);
        assert(0 <= vm) by (nonlinear_arith)
            requires
                vm == vl * 18 / 1000,
                0 <= vl,
        ;
    }
}

// Standard blanking: the horizontal blanking interval is a positive number
// of double character cells once the active width reaches 64 pixels, and it
// is at least a quarter of the active width less one cell.
proof fn lemma_std_h_blank_bounds(h: int, v: int, r: int, interlaced: bool, margins: bool)
    requires
        valid_request(h, v, r, false, interlaced, margins),
        64 <= h,
    ensures
        16 <= h_blank(h, v, r, interlaced, margins),
        h_blank(h, v, r, interlaced, margins) % 16 == 0,
        h_blank(h, v, r, interlaced, margins) % 2 == 0,
        h_active(h, margins) <= 4 * h_blank(h, v, r, interlaced, margins) + 60,
{
    lemma_geometry_basics(h, v, interlaced, margins);
    let hd = h_active(h, margins);
    let hp = h_period(v, r, false, interlaced, margins);
    let mp = (CVT_M_PRIME as int) * hp / (HV_FACTOR as int);
    assert(0 <= mp) by (nonlinear_arith)
        requires
            mp == (CVT_M_PRIME as int) * hp / (HV_FACTOR as int),
            CVT_M_PRIME == 300,
            HV_FACTOR == 1000,
            1 <= hp,
    ;
    let pct = h_blank_percentage(v, r, interlaced, margins);
    assert(20000 <= pct <= 30000);
    let hb0 = hd * pct / (100 * (HV_FACTOR as int) - pct);
    let hb = h_blank(h, v, r, interlaced, margins);
    assert(hb == hb0 - hb0 % 16);
    assert(hd / 4 <= hb0) by (nonlinear_arith)
        requires
            hb0 == hd * pct / (100000 - pct),
            20000 <= pct <= 30000,
            0 <= hd,
    ;
    assert(16 <= hd / 4) by (nonlinear_arith)
        requires
            64 <= hd,
    ;
    assert(16 <= hb && hb % 16 == 0 && hb % 2 == 0 && hb0 - 15 <= hb) by (nonlinear_arith)
        requires
            hb == hb0 - hb0 % 16,
            16 <= hb0,
    ;
    assert(hd <= 4 * hb0) by (nonlinear_arith)
        requires
            hd / 4 <= hb0,
            hd % 8 == 0,
            0 <= hd,
    ;
}

// Standard blanking: the horizontal sync pulse is non-empty and lies
// between the end of the active region and the end of the line, once the
// requested width reaches 104 pixels.
proof fn lemma_std_h_sync_bounds(h: int, v: int, r: int, interlaced: bool, margins: bool)
    requires
        valid_request(h, v, r, false, interlaced, margins),
        104 <= h,
    ensures
        h_active(h, margins) <= h_sync_start(h, v, r, false, interlaced, margins),
        h_sync_start(h, v, r, false, interlaced, margins) < h_sync_end(
            h,
            v,
            r,
            false,
            interlaced,
            margins,
        ),
        h_sync_end(h, v, r, false, interlaced, margins) <= h_total(
            h,
            v,
            r,
            false,
            interlaced,
            margins,
        ),
{
    lemma_geometry_basics(h, v, interlaced, margins);
    lemma_std_h_blank_bounds(h, v, r, interlaced, margins);
    let hd = h_active(h, margins);
    let hb = h_blank(h, v, r, interlaced, margins);
    let ht = h_total(h, v, r, false, interlaced, margins);
    let he = h_sync_end(h, v, r, false, interlaced, margins);
    let hs = h_sync_start(h, v, r, false, interlaced, margins);
    assert(ht == hd + hb);
    assert(he == hd + hb / 2);
    let q = ht * (CVT_HSYNC_PERCENTAGE as int) / 100;
    assert(9 <= q) by (nonlinear_arith)
        requires
            q == ht * 8 / 100,
            120 <= ht,
    ;
    assert(q <= hb / 2 + 8) by (nonlinear_arith)
        requires
            q == (hd + hb) * 8 / 100,
            hb % 2 == 0,
            hd <= 4 * hb + 60,
            0 <= hd,
            0 <= hb,
    ;
    let x = he - q;
    assert(hs == x + (8 - x % 8));
    assert(hb / 2 <= hb) by (nonlinear_arith)
        requires
            0 <= hb,
    ;
    assert(he <= ht);
    assert(hd - 8 <= x);
    assert(hd <= hs) by (nonlinear_arith)
        requires
            hs == x + (8 - x % 8),
            hd - 8 <= x,
            hd % 8 == 0,
            0 <= hd,
            0 <= x,
    ;
    assert(hs <= x + 8);
    assert(hs < he);
}

// The vertical sync pulse is non-empty and lies between the active region
// and the end of the field, for either blanking policy.
proof fn lemma_v_sync_bounds(h: int, v: int, r: int, reduced: bool, interlaced: bool, margins: bool)
    requires
        valid_request(h, v, r, reduced, interlaced, margins),
    ensures
        v_active(v, interlaced, margins) <= v_sync_start(v, interlaced, margins),
        v_sync_start(v, interlaced, margins) < v_sync_end(h, v, interlaced, margins),
        v_sync_end(h, v, interlaced, margins) <= v_total(h, v, r, reduced, interlaced, margins),
{
    lemma_geometry_basics(h, v, interlaced, margins);
    let vsync = vsync_width_of(h, v);
    assert(4 <= vsync <= 10);
    let vl = v_lines(v, interlaced);
    let vm = v_margin(v, interlaced, margins);
    let hp = h_period(v, r, reduced, interlaced, margins);
    let vtf = v_total_field(h, v, r, reduced, interlaced, margins);
    if reduced {
        let vbi = rb_v_blank_lines(h, v, r, interlaced, margins);
        assert(vsync + 9 <= vbi);
        assert(vtf == vl + 2 * vm + vbi);
    } else {
        let vsbp = v_sync_and_back_porch(h, v, r, interlaced, margins);
        assert(vsync + 3 <= vsbp);
        assert(vtf == vl + 2 * vm + vsbp + 3);
    }
}

/// For every valid request the
/// computed horizontal total strictly exceeds the active width and the
/// vertical total strictly exceeds the active height.  With standard
/// blanking the horizontal claim needs a width of at least 64 pixels:
/// below that the 20% blanking floor yields less than one double character
/// cell and rounds down to an empty blanking interval (a request of 8 x 8
/// is such an input).
pub proof fn lemma_totals_exceed_active(
    h: int,
    v: int,
    r: int,
    reduced: bool,
    interlaced: bool,
    margins: bool,
)
    requires
        valid_request(h, v, r, reduced, interlaced, margins),
        !reduced ==> 64 <= h,
    ensures
        cvt_timing(h, v, r, reduced, interlaced, margins).hdisplay < cvt_timing(
            h,
            v,
            r,
            reduced,
            interlaced,
            margins,
        ).htotal,
        cvt_timing(h, v, r, reduced, interlaced, margins).vdisplay < cvt_timing(
            h,
            v,
            r,
            reduced,
            interlaced,
            margins,
        ).vtotal,
{
    lemma_geometry_basics(h, v, interlaced, margins);
    if !reduced {
        lemma_std_h_blank_bounds(h, v, r, interlaced, margins);
    }
    lemma_v_sync_bounds(h, v, r, reduced, interlaced, margins);
    let t = cvt_timing(h, v, r, reduced, interlaced, margins);
    assert(t.vdisplay <= t.vsync_start < t.vsync_end <= t.vtotal);
}

/// For every valid request the
/// computed pixel clock is a positive multiple of the 250 kHz clock step.
pub proof fn lemma_clock_on_step(
    h: int,
    v: int,
    r: int,
    reduced: bool,
    interlaced: bool,
    margins: bool,
)
    requires
        valid_request(h, v, r, reduced, interlaced, margins),
    ensures
        cvt_timing(h, v, r, reduced, interlaced, margins).clock % (CVT_CLOCK_STEP as int) == 0,
        CVT_CLOCK_STEP <= cvt_timing(h, v, r, reduced, interlaced, margins).clock,
{
    let raw = pixel_clock_raw(h, v, r, reduced, interlaced, margins);
    let c = pixel_clock(h, v, r, reduced, interlaced, margins);
    assert(c % 250 == 0 && 250 <= c) by (nonlinear_arith)
        requires
            c == raw - raw % 250,
            250 <= raw,
    ;
}

/// Every reduced-blanking mode has
/// exactly 160 clocks of horizontal blanking and a 32 clock horizontal
/// sync pulse, with a positive horizontal and negative vertical sync
/// polarity.
pub proof fn lemma_reduced_blanking_shape(
    h: int,
    v: int,
    r: int,
    interlaced: bool,
    margins: bool,
)
    requires
        valid_request(h, v, r, true, interlaced, margins),
    ensures
        cvt_timing(h, v, r, true, interlaced, margins).htotal - cvt_timing(
            h,
            v,
            r,
            true,
            interlaced,
            margins,
        ).hdisplay == 160,
        cvt_timing(h, v, r, true, interlaced, margins).hsync_end - cvt_timing(
            h,
            v,
            r,
            true,
            interlaced,
            margins,
        ).hsync_start == 32,
        cvt_timing(h, v, r, true, interlaced, margins).phsync,
        cvt_timing(h, v, r, true, interlaced, margins).nvsync,
        !cvt_timing(h, v, r, true, interlaced, margins).nhsync,
        !cvt_timing(h, v, r, true, interlaced, margins).pvsync,
{
}

/// Every standard-blanking mode
/// has a horizontal blanking interval that is a multiple of 16 clocks
/// (twice the character cell granularity), with a negative horizontal and
/// positive vertical sync polarity.
pub proof fn lemma_standard_blanking_shape(
    h: int,
    v: int,
    r: int,
    interlaced: bool,
    margins: bool,
)
    requires
        valid_request(h, v, r, false, interlaced, margins),
    ensures
        (cvt_timing(h, v, r, false, interlaced, margins).htotal - cvt_timing(
            h,
            v,
            r,
            false,
            interlaced,
            margins,
        ).hdisplay) % 16 == 0,
        cvt_timing(h, v, r, false, interlaced, margins).nhsync,
        cvt_timing(h, v, r, false, interlaced, margins).pvsync,
        !cvt_timing(h, v, r, false, interlaced, margins).phsync,
        !cvt_timing(h, v, r, false, interlaced, margins).nvsync,
{
    let hb0 = h_active(h, margins) * h_blank_percentage(v, r, interlaced, margins) / (100 * (
    HV_FACTOR as int) - h_blank_percentage(v, r, interlaced, margins));
    let hb = h_blank(h, v, r, interlaced, margins);
    assert(hb == hb0 - hb0 % 16);
    assert(hb % 16 == 0) by (nonlinear_arith)
        requires
            hb == hb0 - hb0 % 16,
    ;
}

/// The aspect classification is a total function with a fixed priority: every
/// resolution pair gets exactly one of the five classifications, each
/// holding exactly when its divisibility test holds and every earlier test
/// failed; the vertical sync width is tied to the same chain, with the
/// 15:9 shape keeping the unknown classification at the narrower width.
pub proof fn lemma_aspect_classification(h: int, v: int)
    ensures
        xy_ratio_of(h, v) == XYRatio::Ratio4_3 <==> (v % 3 == 0 && v * 4 / 3 == h),
        xy_ratio_of(h, v) == XYRatio::Ratio16_9 <==> (!(v % 3 == 0 && v * 4 / 3 == h) && v % 9
            == 0 && v * 16 / 9 == h),
        xy_ratio_of(h, v) == XYRatio::Ratio16_10 <==> (!(v % 3 == 0 && v * 4 / 3 == h) && !(v % 9
            == 0 && v * 16 / 9 == h) && v % 10 == 0 && v * 16 / 10 == h),
        xy_ratio_of(h, v) == XYRatio::Ratio5_4 <==> (!(v % 3 == 0 && v * 4 / 3 == h) && !(v % 9
            == 0 && v * 16 / 9 == h) && !(v % 10 == 0 && v * 16 / 10 == h) && v % 4 == 0 && v * 5
            / 4 == h),
        xy_ratio_of(h, v) == XYRatio::RatioUnknown <==> (!(v % 3 == 0 && v * 4 / 3 == h) && !(v
            % 9 == 0 && v * 16 / 9 == h) && !(v % 10 == 0 && v * 16 / 10 == h) && !(v % 4 == 0 && v
            * 5 / 4 == h)),
        xy_ratio_of(h, v) == XYRatio::Ratio4_3 ==> vsync_width_of(h, v) == 4,
        xy_ratio_of(h, v) == XYRatio::Ratio16_9 ==> vsync_width_of(h, v) == 5,
        xy_ratio_of(h, v) == XYRatio::Ratio16_10 ==> vsync_width_of(h, v) == 6,
        xy_ratio_of(h, v) == XYRatio::Ratio5_4 ==> vsync_width_of(h, v) == 7,
        xy_ratio_of(h, v) == XYRatio::RatioUnknown ==> (vsync_width_of(h, v) == 7 <==> (v % 9
            == 0 && v * 15 / 9 == h)),
        xy_ratio_of(h, v) == XYRatio::RatioUnknown ==> (vsync_width_of(h, v) == 7
            || vsync_width_of(h, v) == 10),
{
}

/// For every valid request of at
/// least 104 pixels of width (any width, with reduced blanking) the
/// calculator's record satisfies `timing_well_formed`: both sync pulses
/// are non-empty and lie past their active regions inside their totals,
/// and the pixel clock is a positive multiple of the clock step.
pub proof fn lemma_new_well_formed(
    h: int,
    v: int,
    r: int,
    reduced: bool,
    interlaced: bool,
    margins: bool,
)
    requires
        valid_request(h, v, r, reduced, interlaced, margins),
        !reduced ==> 104 <= h,
    ensures
        timing_well_formed(cvt_timing(h, v, r, reduced, interlaced, margins)),
{
    lemma_geometry_basics(h, v, interlaced, margins);
    lemma_v_sync_bounds(h, v, r, reduced, interlaced, margins);
    lemma_clock_on_step(h, v, r, reduced, interlaced, margins);
    if !reduced {
        lemma_std_h_blank_bounds(h, v, r, interlaced, margins);
        lemma_std_h_sync_bounds(h, v, r, interlaced, margins);
    }
}

} // verus!
