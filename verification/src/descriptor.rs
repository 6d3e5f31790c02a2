//! Binary encoding of a computed mode into a self-checksummed EDID block.
//!
//! `generate_edid` serialises a `CvtMode` into the 128-byte EDID 1.x base
//! block: the fixed header and vendor section, the version pair, one
//! standard-timing entry carrying the aspect-ratio tag and nominal refresh
//! rate (when both are representable), the 18-byte detailed timing
//! descriptor holding the computed geometry, a monitor-range descriptor, a
//! display-name descriptor with a 13-byte text field, one unused
//! descriptor, and a trailing checksum byte that brings the unsigned sum of
//! the whole block to zero modulo 256.  The byte layout is mirrored exactly
//! by the spec functions of this module.

use vstd::prelude::*;
use vstd::string::StringSliceAdditionalSpecFns;

use crate::EdidError;
use crate::Version;
use crate::cvtmode::CVT_CLOCK_STEP;
use crate::cvtmode::CvtMode;
use crate::cvtmode::TimingSpec;
use crate::cvtmode::XYRatio;
use crate::cvtmode::timing_well_formed;

verus! {

/// The unsigned sum of a byte sequence.
pub open spec fn byte_sum(s: Seq<u8>) -> int
    decreases s.len(),
{
    if s.len() == 0 {
        0
    } else {
        byte_sum(s.drop_last()) + s.last()
    }
}

/// The sum of a byte sequence is never negative.
pub proof fn lemma_byte_sum_nonneg(s: Seq<u8>)
    ensures
        0 <= byte_sum(s),
    decreases s.len(),
{
    if s.len() > 0 {
        lemma_byte_sum_nonneg(s.drop_last());
    }
}

/// The checksum byte that brings the sum of `s` plus itself to zero modulo
/// 256: the two's-complement of the byte sum.
pub open spec fn crc_of(s: Seq<u8>) -> u8 {
    (((0x100 - byte_sum(s) % 0x100) % 0x100) as u8)
}

/// Compute the checksum byte of a byte sequence: the value that makes the
/// unsigned sum of the sequence followed by the checksum a multiple of 256.
pub fn calculate_crc(data: &[u8]) -> (crc: u8)
    ensures
        crc == crc_of(data@),
{
    let ghost gs: Seq<u8> = data@;
    let mut sum: u16 = 0;
    let mut i: usize = 0;
    while i < data.len()
        invariant
            i <= gs.len(),
            gs == data@,
            sum == byte_sum(gs.take(i as int)) % 0x100,
        decreases gs.len() - i,
    {
        proof {
            assert(gs.take(i + 1).drop_last() =~= gs.take(i as int));
            assert(gs.take(i + 1).last() == gs[i as int]);
            lemma_byte_sum_nonneg(gs.take(i as int));
            let a = byte_sum(gs.take(i as int));
            let b = gs[i as int] as int;
            assert((a % 0x100 + b) % 0x100 == (a + b) % 0x100) by (nonlinear_arith)
                requires
                    0 <= a,
                    0 <= b,
            ;
        }
        sum = (sum + data[i] as u16) % 0x100;
        i = i + 1;
    }
    proof {
        assert(gs.take(gs.len() as int) =~= gs);
        lemma_byte_sum_nonneg(gs);
    }
    (((0x100 - sum) % 0x100) as u8)
}

// The fixed-length block layout, one spec function per section.

/// The eight-byte EDID header.
pub open spec fn edid_header() -> Seq<u8> {
    seq![0x00u8, 0xffu8, 0xffu8, 0xffu8, 0xffu8, 0xffu8, 0xffu8, 0x00u8]
}

/// The vendor/product section: the "LNX" manufacturer code used for
/// generated blocks, a zero product code and serial number, and an
/// unspecified manufacture week of year 2020.
pub open spec fn edid_vendor() -> Seq<u8> {
    seq![0x31u8, 0xd8u8, 0u8, 0u8, 0u8, 0u8, 0u8, 0u8, 0u8, 30u8]
}

/// The version pair and basic display parameters: a digital input, the
/// screen size in centimetres at 96 dots per inch, a display gamma of 2.2,
/// and the preferred-timing feature bit.
pub open spec fn edid_display_params(t: TimingSpec, minor: int) -> Seq<u8> {
    seq![
        1u8,
        minor as u8,
        0x80u8,
        (t.hdisplay * 25 / 960) as u8,
        (t.vdisplay * 25 / 960) as u8,
        0x78u8,
        0x02u8,
    ]
}

/// Unspecified chromaticity coordinates and no established timings.
pub open spec fn edid_chroma() -> Seq<u8> {
    Seq::new(13, |i: int| 0u8)
}

/// The two-bit aspect code of a classified ratio in a standard-timing
/// entry.
pub open spec fn aspect_code(ratio: XYRatio) -> int {
    match ratio {
        XYRatio::Ratio16_10 => 0,
        XYRatio::Ratio4_3 => 1,
        XYRatio::Ratio5_4 => 2,
        XYRatio::Ratio16_9 => 3,
        XYRatio::RatioUnknown => 0,
    }
}

/// Whether the mode fits a standard-timing entry: a named aspect ratio
/// (the tag is omitted for the unknown/custom classification) and a width
/// and refresh rate inside the entry's representable ranges.
pub open spec fn std_timing_usable(t: TimingSpec) -> bool {
    &&& t.ratio != XYRatio::RatioUnknown
    &&& 256 <= t.hdisplay <= 2288
    &&& 60 <= t.vrefresh <= 123
}

/// The eight standard-timing entries: the first carries the mode's width,
/// aspect-ratio tag and nominal refresh rate when representable, and all
/// remaining entries are unused.
pub open spec fn edid_std_timings(t: TimingSpec) -> Seq<u8> {
    let first = if std_timing_usable(t) {
        seq![
            (t.hdisplay / 8 - 31) as u8,
            (aspect_code(t.ratio) * 64 + (t.vrefresh - 60)) as u8,
        ]
    } else {
        seq![0x01u8, 0x01u8]
    };
    first + seq![
        0x01u8, 0x01u8, 0x01u8, 0x01u8, 0x01u8, 0x01u8, 0x01u8, 0x01u8, 0x01u8, 0x01u8, 0x01u8,
        0x01u8, 0x01u8, 0x01u8,
    ]
}

/// The flags byte of the detailed timing descriptor: digital separate
/// sync, the vertical and horizontal polarity bits, and the interlace bit.
pub open spec fn dtd_flags(t: TimingSpec) -> int {
    0x18 + (if t.interlace {
        0x80int
    } else {
        0int
    }) + (if t.pvsync {
        4int
    } else {
        0int
    }) + (if t.phsync {
        2int
    } else {
        0int
    })
}

/// The 18-byte detailed timing descriptor: the pixel clock in 10 kHz
/// units, then the active/blanking pair, sync offset and width of each
/// axis, and the image size in millimetres at 96 dots per inch, packed in
/// the published low-byte/high-nibble layout.
pub open spec fn edid_dtd(t: TimingSpec) -> Seq<u8> {
    let clock10 = t.clock / 10;
    let hblank = t.htotal - t.hdisplay;
    let vblank = t.vtotal - t.vdisplay;
    let hso = t.hsync_start - t.hdisplay;
    let hsw = t.hsync_end - t.hsync_start;
    let vso = t.vsync_start - t.vdisplay;
    let vsw = t.vsync_end - t.vsync_start;
    let hmm = t.hdisplay * 25 / 96;
    let vmm = t.vdisplay * 25 / 96;
    seq![
        (clock10 % 256) as u8,
        (clock10 / 256) as u8,
        (t.hdisplay % 256) as u8,
        (hblank % 256) as u8,
        ((t.hdisplay / 256) * 16 + hblank / 256) as u8,
        (t.vdisplay % 256) as u8,
        (vblank % 256) as u8,
        ((t.vdisplay / 256) * 16 + vblank / 256) as u8,
        (hso % 256) as u8,
        (hsw % 256) as u8,
        ((vso % 16) * 16 + vsw % 16) as u8,
        ((hso / 256) * 64 + (hsw / 256) * 16 + (vso / 16) * 4 + vsw / 16) as u8,
        (hmm % 256) as u8,
        (vmm % 256) as u8,
        ((hmm / 256) * 16 + vmm / 256) as u8,
        0u8,
        0u8,
        dtd_flags(t) as u8,
    ]
}

/// A quantity forced into the 1..=255 range of a monitor-range byte.
pub open spec fn clamp_byte(x: int) -> int {
    if x < 1 {
        1
    } else if x > 255 {
        255
    } else {
        x
    }
}

/// The monitor-range descriptor: one refresh step around the nominal
/// vertical rate, one kHz around the line rate, and the pixel clock
/// rounded up to 10 MHz.
pub open spec fn edid_range_limits(t: TimingSpec) -> Seq<u8> {
    let hrate = t.clock / t.htotal;
    seq![
        0u8,
        0u8,
        0u8,
        0xfdu8,
        0u8,
        clamp_byte(t.vrefresh - 1) as u8,
        clamp_byte(t.vrefresh + 1) as u8,
        clamp_byte(hrate - 1) as u8,
        clamp_byte(hrate + 1) as u8,
        clamp_byte(t.clock / 10000 + 1) as u8,
        0u8,
        0x0au8,
        0x20u8,
        0x20u8,
        0x20u8,
        0x20u8,
        0x20u8,
        0x20u8,
    ]
}

/// The 13-byte text field of the display-name descriptor: the name's
/// bytes, a line feed terminator when the name is shorter than the field,
/// and space padding.
pub open spec fn name_field(name: Seq<u8>) -> Seq<u8> {
    Seq::new(
        13,
        |i: int|
            if i < name.len() {
                name[i]
            } else if i == name.len() {
                0x0au8
            } else {
                0x20u8
            },
    )
}

/// The display-name descriptor.
pub open spec fn edid_name_descriptor(name: Seq<u8>) -> Seq<u8> {
    seq![0u8, 0u8, 0u8, 0xfcu8, 0u8] + name_field(name)
}

/// An unused descriptor slot.
pub open spec fn edid_dummy_descriptor() -> Seq<u8> {
    seq![
        0u8, 0u8, 0u8, 0x10u8, 0u8, 0u8, 0u8, 0u8, 0u8, 0u8, 0u8, 0u8, 0u8, 0u8, 0u8, 0u8, 0u8,
        0u8,
    ]
}

/// The first 127 bytes of the block: everything but the checksum,
/// including the zero extension count.
pub open spec fn descriptor_body(t: TimingSpec, minor: int, name: Seq<u8>) -> Seq<u8> {
    edid_header() + edid_vendor() + edid_display_params(t, minor) + edid_chroma()
        + edid_std_timings(t) + edid_dtd(t) + edid_range_limits(t) + edid_name_descriptor(name)
        + edid_dummy_descriptor() + seq![0u8]
}

/// The complete 128-byte block: the body closed by its checksum byte.
pub open spec fn descriptor_bytes(t: TimingSpec, minor: int, name: Seq<u8>) -> Seq<u8> {
    descriptor_body(t, minor, name).push(crc_of(descriptor_body(t, minor, name)))
}

/// Whether a record's quantities fit the fixed field widths of the
/// detailed timing descriptor: twelve bits for each active/blanking size,
/// ten for the horizontal and six for the vertical sync offset and width,
/// and sixteen for the pixel clock in 10 kHz units.  Records beyond these
/// widths cannot be represented in the layout at all.
pub open spec fn fits_descriptor(t: TimingSpec) -> bool {
    &&& t.clock <= 655350
    &&& t.hdisplay <= 4095
    &&& t.htotal - t.hdisplay <= 4095
    &&& t.vdisplay <= 4095
    &&& t.vtotal - t.vdisplay <= 4095
    &&& t.hsync_start - t.hdisplay <= 1023
    &&& t.hsync_end - t.hsync_start <= 1023
    &&& t.vsync_start - t.vdisplay <= 63
    &&& t.vsync_end - t.vsync_start <= 63
}

// A division by a positive constant keeps both the order and the sign.
proof fn lemma_div_le(x: int, b: int, d: int)
    requires
        0 <= x <= b,
        1 <= d,
    ensures
        0 <= x / d <= b / d,
{
    vstd::arithmetic::div_mod::lemma_div_is_ordered(x, b, d);
    vstd::arithmetic::div_mod::lemma_div_pos_is_pos(x, d);
}

/// Decide whether a record's quantities fit the descriptor's field widths:
/// the condition `generate_edid` requires of its record.
pub fn descriptor_fits(mode: &CvtMode) -> (b: bool)
    ensures
        b == fits_descriptor(mode@),
{
    mode.clock <= 655350 && mode.hdisplay <= 4095 && (mode.htotal as i64) - (mode.hdisplay as i64)
        <= 4095 && mode.vdisplay <= 4095 && (mode.vtotal as i64) - (mode.vdisplay as i64) <= 4095
        && (mode.hsync_start as i64) - (mode.hdisplay as i64) <= 1023 && (mode.hsync_end as i64)
        - (mode.hsync_start as i64) <= 1023 && (mode.vsync_start as i64) - (mode.vdisplay as i64)
        <= 63 && (mode.vsync_end as i64) - (mode.vsync_start as i64) <= 63
}

// A monitor-range quantity forced into its byte range.
fn clamp_range_byte(x: i64) -> (b: u8)
    ensures
        b as int == clamp_byte(x as int),
{
    if x < 1 {
        1
    } else if x > 255 {
        255
    } else {
        x as u8
    }
}

/// Encode a computed mode, an EDID version and a display name into the
/// 128-byte self-checksummed block.  The record must fit the descriptor's
/// fixed field widths; a record that violates the timing invariant is
/// refused as defective, and a name longer than the 13-byte text field is
/// refused as too long.
#[verifier::rlimit(100)]
pub fn generate_edid(mode: &CvtMode, version: Version, timing_name: &str) -> (r: Result<
    Vec<u8>,
    EdidError,
>)
    requires
        fits_descriptor(mode@),
    ensures
        r is Ok <==> (timing_well_formed(mode@) && timing_name.spec_bytes().len() <= 13),
        r matches Ok(bytes) ==> bytes@ == descriptor_bytes(
            mode@,
            version.spec_minor(),
            timing_name.spec_bytes(),
        ),
        !timing_well_formed(mode@) ==> r == Err::<Vec<u8>, EdidError>(
            EdidError::EncodingInvariantViolation,
        ),
        timing_well_formed(mode@) && timing_name.spec_bytes().len() > 13 ==> r == Err::<
            Vec<u8>,
            EdidError,
        >(EdidError::NameTooLong),
{
    // The defensive invariant check: a record that fails it cannot have
    // come from the calculator.
    let wf: bool = 0 < mode.hdisplay && mode.hdisplay <= mode.hsync_start && mode.hsync_start
        < mode.hsync_end && mode.hsync_end <= mode.htotal && 0 < mode.vdisplay && mode.vdisplay
        <= mode.vsync_start && mode.vsync_start < mode.vsync_end && mode.vsync_end <= mode.vtotal
        && 0 < mode.clock && mode.clock % CVT_CLOCK_STEP == 0;
    if !wf {
        return Err(EdidError::EncodingInvariantViolation);
    }
    assert(timing_well_formed(mode@));

    let nb: &[u8] = timing_name.as_bytes();
    if nb.len() > 13 {
        return Err(EdidError::NameTooLong);
    }

    let ghost t: TimingSpec = mode@;
    let ghost name: Seq<u8> = timing_name.spec_bytes();
    let ghost gm: int = version.spec_minor();
    let ghost p2: Seq<u8> = edid_header() + edid_vendor();
    let ghost p3: Seq<u8> = p2 + edid_display_params(t, gm);
    let ghost p4: Seq<u8> = p3 + edid_chroma();
    let ghost p5: Seq<u8> = p4 + edid_std_timings(t);
    let ghost p6: Seq<u8> = p5 + edid_dtd(t);
    let ghost p7: Seq<u8> = p6 + edid_range_limits(t);
    let ghost p8: Seq<u8> = p7 + edid_name_descriptor(name);
    let ghost p9: Seq<u8> = p8 + edid_dummy_descriptor();

    let mut out: Vec<u8> = Vec::new();

    // Header and vendor section.
    let mut seg: Vec<u8> = Vec::new();
    seg.push(0x00);
    seg.push(0xff);
    seg.push(0xff);
    seg.push(0xff);
    seg.push(0xff);
    seg.push(0xff);
    seg.push(0xff);
    seg.push(0x00);
    assert(seg@ =~= edid_header());
    out.append(&mut seg);

    let mut seg: Vec<u8> = Vec::new();
    seg.push(0x31);
    seg.push(0xd8);
    seg.push(0);
    seg.push(0);
    seg.push(0);
    seg.push(0);
    seg.push(0);
    seg.push(0);
    seg.push(0);
    seg.push(30);
    assert(seg@ =~= edid_vendor());
    out.append(&mut seg);
    assert(out@ == p2);

    // Version pair and basic display parameters.
    let minor: u8 = version.minor();
    proof {
        lemma_div_le((mode.hdisplay * 25) as int, 4095int * 25, 960);
        lemma_div_le((mode.vdisplay * 25) as int, 4095int * 25, 960);
    }
    let hcm: u32 = (mode.hdisplay as u32) * 25 / 960;
    let vcm: u32 = (mode.vdisplay as u32) * 25 / 960;
    let mut seg: Vec<u8> = Vec::new();
    seg.push(1);
    seg.push(minor);
    seg.push(0x80);
    seg.push(hcm as u8);
    seg.push(vcm as u8);
    seg.push(0x78);
    seg.push(0x02);
    assert(seg@ =~= edid_display_params(t, gm));
    out.append(&mut seg);
    assert(out@ == p3);

    // Chromaticity and established timings: unspecified.
    let mut seg: Vec<u8> = Vec::new();
    seg.push(0);
    seg.push(0);
    seg.push(0);
    seg.push(0);
    seg.push(0);
    seg.push(0);
    seg.push(0);
    seg.push(0);
    seg.push(0);
    seg.push(0);
    seg.push(0);
    seg.push(0);
    seg.push(0);
    assert(seg@ =~= edid_chroma());
    out.append(&mut seg);
    assert(out@ == p4);

    // Standard timings: one entry when representable, the rest unused.
    let usable: bool = (match mode.xy_ratio {
        XYRatio::RatioUnknown => false,
        _ => true,
    }) && 256 <= mode.hdisplay && mode.hdisplay <= 2288 && 60 <= mode.vrefresh && mode.vrefresh
        <= 123;
    assert(usable == std_timing_usable(t));
    let mut seg: Vec<u8> = Vec::new();
    if usable {
        let code: u32 = match mode.xy_ratio {
            XYRatio::Ratio16_10 => 0,
            XYRatio::Ratio4_3 => 1,
            XYRatio::Ratio5_4 => 2,
            XYRatio::Ratio16_9 => 3,
            XYRatio::RatioUnknown => 0,
        };
        proof {
            lemma_div_le(mode.hdisplay as int, 2288, 8);
        }
        seg.push((mode.hdisplay as u32 / 8 - 31) as u8);
        seg.push((code * 64 + (mode.vrefresh as u32 - 60)) as u8);
    } else {
        seg.push(0x01);
        seg.push(0x01);
    }
    seg.push(0x01);
    seg.push(0x01);
    seg.push(0x01);
    seg.push(0x01);
    seg.push(0x01);
    seg.push(0x01);
    seg.push(0x01);
    seg.push(0x01);
    seg.push(0x01);
    seg.push(0x01);
    seg.push(0x01);
    seg.push(0x01);
    seg.push(0x01);
    seg.push(0x01);
    assert(seg@ =~= edid_std_timings(t));
    out.append(&mut seg);
    assert(out@ == p5);

    // The detailed timing descriptor.
    proof {
        lemma_div_le(mode.clock as int, 655350, 10);
        lemma_div_le(mode.hdisplay as int, 4095, 256);
        lemma_div_le((mode.htotal - mode.hdisplay) as int, 4095, 256);
        lemma_div_le(mode.vdisplay as int, 4095, 256);
        lemma_div_le((mode.vtotal - mode.vdisplay) as int, 4095, 256);
        lemma_div_le((mode.hsync_start - mode.hdisplay) as int, 1023, 256);
        lemma_div_le((mode.hsync_end - mode.hsync_start) as int, 1023, 256);
        lemma_div_le((mode.vsync_start - mode.vdisplay) as int, 63, 16);
        lemma_div_le((mode.vsync_end - mode.vsync_start) as int, 63, 16);
        lemma_div_le((mode.hdisplay * 25) as int, 4095int * 25, 96);
        lemma_div_le((mode.vdisplay * 25) as int, 4095int * 25, 96);
    }
    let clock10: u32 = (mode.clock / 10) as u32;
    let hdisp: u32 = mode.hdisplay as u32;
    let hblank: u32 = (mode.htotal - mode.hdisplay) as u32;
    let hso: u32 = (mode.hsync_start - mode.hdisplay) as u32;
    let hsw: u32 = (mode.hsync_end - mode.hsync_start) as u32;
    let vdisp: u32 = mode.vdisplay as u32;
    let vblank: u32 = (mode.vtotal - mode.vdisplay) as u32;
    let vso: u32 = (mode.vsync_start - mode.vdisplay) as u32;
    let vsw: u32 = (mode.vsync_end - mode.vsync_start) as u32;
    let hsize: u32 = hdisp * 25 / 96;
    let vsize: u32 = vdisp * 25 / 96;
    let fl: u32 = 0x18 + (if mode.flags.interlace {
        0x80
    } else {
        0
    }) + (if mode.flags.pvsync {
        4
    } else {
        0
    }) + (if mode.flags.phsync {
        2
    } else {
        0
    });
    let mut seg: Vec<u8> = Vec::new();
    seg.push((clock10 % 256) as u8);
    seg.push((clock10 / 256) as u8);
    seg.push((hdisp % 256) as u8);
    seg.push((hblank % 256) as u8);
    seg.push(((hdisp / 256) * 16 + hblank / 256) as u8);
    seg.push((vdisp % 256) as u8);
    seg.push((vblank % 256) as u8);
    seg.push(((vdisp / 256) * 16 + vblank / 256) as u8);
    seg.push((hso % 256) as u8);
    seg.push((hsw % 256) as u8);
    seg.push(((vso % 16) * 16 + vsw % 16) as u8);
    seg.push(((hso / 256) * 64 + (hsw / 256) * 16 + (vso / 16) * 4 + vsw / 16) as u8);
    seg.push((hsize % 256) as u8);
    seg.push((vsize % 256) as u8);
    seg.push(((hsize / 256) * 16 + vsize / 256) as u8);
    seg.push(0);
    seg.push(0);
    seg.push(fl as u8);
    assert(seg@ =~= edid_dtd(t));
    out.append(&mut seg);
    assert(out@ == p6);

    // The monitor-range descriptor.
    proof {
        vstd::arithmetic::div_mod::lemma_div_is_ordered_by_denominator(
            mode.clock as int,
            1,
            mode.htotal as int,
        );
        lemma_div_le(mode.clock as int, 655350, 10000);
    }
    let hrate: u64 = mode.clock / (mode.htotal as u64);
    let vr64: i64 = mode.vrefresh as i64;
    let mut seg: Vec<u8> = Vec::new();
    seg.push(0);
    seg.push(0);
    seg.push(0);
    seg.push(0xfd);
    seg.push(0);
    seg.push(clamp_range_byte(vr64 - 1));
    seg.push(clamp_range_byte(vr64 + 1));
    seg.push(clamp_range_byte(hrate as i64 - 1));
    seg.push(clamp_range_byte(hrate as i64 + 1));
    seg.push(clamp_range_byte((mode.clock / 10000) as i64 + 1));
    seg.push(0);
    seg.push(0x0a);
    seg.push(0x20);
    seg.push(0x20);
    seg.push(0x20);
    seg.push(0x20);
    seg.push(0x20);
    seg.push(0x20);
    assert(seg@ =~= edid_range_limits(t));
    out.append(&mut seg);
    assert(out@ == p7);

    // The display-name descriptor.
    let mut seg: Vec<u8> = Vec::new();
    seg.push(0);
    seg.push(0);
    seg.push(0);
    seg.push(0xfc);
    seg.push(0);
    let ghost headfc: Seq<u8> = seq![0u8, 0u8, 0u8, 0xfcu8, 0u8];
    assert(seg@ =~= headfc);
    let mut k: usize = 0;
    while k < 13
        invariant
            k <= 13,
            nb@ == name,
            name.len() <= 13,
            headfc == seq![0u8, 0u8, 0u8, 0xfcu8, 0u8],
            seg@ == headfc + name_field(name).take(k as int),
        decreases 13 - k,
    {
        let b: u8 = if k < nb.len() {
            nb[k]
        } else if k == nb.len() {
            0x0a
        } else {
            0x20
        };
        proof {
            assert(b == name_field(name)[k as int]);
            assert((headfc + name_field(name).take(k as int)).push(b) =~= headfc + name_field(
                name,
            ).take(k as int + 1));
        }
        seg.push(b);
        k = k + 1;
    }
    proof {
        assert(name_field(name).take(13) =~= name_field(name));
    }
    assert(seg@ == edid_name_descriptor(name));
    out.append(&mut seg);
    assert(out@ == p8);

    // The unused descriptor slot and the zero extension count.
    let mut seg: Vec<u8> = Vec::new();
    seg.push(0);
    seg.push(0);
    seg.push(0);
    seg.push(0x10);
    seg.push(0);
    seg.push(0);
    seg.push(0);
    seg.push(0);
    seg.push(0);
    seg.push(0);
    seg.push(0);
    seg.push(0);
    seg.push(0);
    seg.push(0);
    seg.push(0);
    seg.push(0);
    seg.push(0);
    seg.push(0);
    assert(seg@ =~= edid_dummy_descriptor());
    out.append(&mut seg);
    assert(out@ == p9);
    out.push(0);
    assert(out@ =~= descriptor_body(t, gm, name));

    // The trailing checksum byte closes the block.
    let crc: u8 = calculate_crc(out.as_slice());
    out.push(crc);
    assert(out@ == descriptor_bytes(t, gm, name));
    Ok(out)
}

/// The block is self-checking: for every record, version and name, the
/// unsigned sum of all 128 encoded bytes, the checksum included, is zero
/// modulo 256.
pub proof fn lemma_descriptor_checksum(t: TimingSpec, minor: int, name: Seq<u8>)
    ensures
        byte_sum(descriptor_bytes(t, minor, name)) % 0x100 == 0,
{
    let body = descriptor_body(t, minor, name);
    let c = crc_of(body);
    assert(body.push(c).drop_last() =~= body);
    assert(body.push(c).last() == c);
    assert(byte_sum(descriptor_bytes(t, minor, name)) == byte_sum(body) + c);
    lemma_byte_sum_nonneg(body);
    let s = byte_sum(body);
    assert((s + ((0x100 - s % 0x100) % 0x100)) % 0x100 == 0) by (nonlinear_arith)
        requires
            0 <= s,
    ;
}

/// Encoding is deterministic: any two encodings of the same record,
/// version and name are byte-identical: `generate_edid` promises its
/// result equals `descriptor_bytes` of its inputs, which is a function of
/// them alone.
pub proof fn lemma_encode_deterministic(
    t: TimingSpec,
    minor: int,
    name: Seq<u8>,
    b1: Seq<u8>,
    b2: Seq<u8>,
)
    requires
        b1 == descriptor_bytes(t, minor, name),
        b2 == descriptor_bytes(t, minor, name),
    ensures
        b1 == b2,
{
}

} // verus!
