//! CVT display timing generation and EDID descriptor encoding.
//!
//! The crate derives a complete display mode (pixel clock and the full
//! horizontal/vertical geometry) for a requested resolution and refresh rate
//! with the VESA Coordinated Video Timings algorithm, and serialises the
//! result into a self-checksummed EDID block.

use vstd::prelude::*;
use vstd::string::StringSliceAdditionalSpecFns;

pub mod cvtmode;
pub mod descriptor;

pub use cvtmode::CvtMode;
pub use cvtmode::CvtModeFlags;
pub use cvtmode::TimingSpec;
pub use cvtmode::XYRatio;
pub use cvtmode::cvt_timing;
pub use cvtmode::timing_well_formed;
pub use cvtmode::valid_request;
pub use cvtmode::validate_request;
pub use descriptor::calculate_crc;
pub use descriptor::descriptor_fits;
pub use descriptor::descriptor_bytes;
pub use descriptor::fits_descriptor;
pub use descriptor::generate_edid;

verus! {

/// The error kinds this library reports.
#[derive(Clone, Copy, Debug, PartialEq, Eq, Structural)]
pub enum EdidError {
    /// A version selector outside 1.0 through 1.4.
    InvalidVersion,
    /// A timing request outside the domain of the timing algorithm:
    /// a non-positive or mis-granular resolution, or a resolution/refresh
    /// combination whose intermediate quantities leave the 32-bit integer
    /// ranges of the CVT arithmetic.
    InvalidDimension,
    /// A descriptor name longer than the fixed text field of the descriptor.
    NameTooLong,
    /// A timing record whose totals do not exceed its active regions or whose
    /// sync pulses are empty or misplaced; such a record cannot come from the
    /// timing calculator and signals an internal defect in the caller.
    EncodingInvariantViolation,
}

/// EDID version enum (version 1.x)
#[derive(Clone, Copy, Debug, PartialEq, Eq, Structural)]
pub enum Version {
    V1_0,
    V1_1,
    V1_2,
    V1_3,
    V1_4,
}

/// The version selector a byte string denotes: the ASCII spellings "1.0"
/// through "1.4" and nothing else.
pub open spec fn spec_version_of(b: Seq<u8>) -> Option<Version> {
    if b.len() == 3 && b[0] == 0x31 && b[1] == 0x2e && b[2] == 0x30 {
        Some(Version::V1_0)
    } else if b.len() == 3 && b[0] == 0x31 && b[1] == 0x2e && b[2] == 0x31 {
        Some(Version::V1_1)
    } else if b.len() == 3 && b[0] == 0x31 && b[1] == 0x2e && b[2] == 0x32 {
        Some(Version::V1_2)
    } else if b.len() == 3 && b[0] == 0x31 && b[1] == 0x2e && b[2] == 0x33 {
        Some(Version::V1_3)
    } else if b.len() == 3 && b[0] == 0x31 && b[1] == 0x2e && b[2] == 0x34 {
        Some(Version::V1_4)
    } else {
        None
    }
}

impl Version {
    /// The minor number of this version, as a mathematical value.
    pub open spec fn spec_minor(self) -> int {
        match self {
            Version::V1_0 => 0,
            Version::V1_1 => 1,
            Version::V1_2 => 2,
            Version::V1_3 => 3,
            Version::V1_4 => 4,
        }
    }

    /// Major version: always 1.
    pub fn major(&self) -> (m: u8)
        ensures
            m == 1,
    {
        1
    }

    /// Minor version: 0 through 4.
    pub fn minor(&self) -> (m: u8)
        ensures
            m == self.spec_minor(),
    {
        match *self {
            Version::V1_0 => 0,
            Version::V1_1 => 1,
            Version::V1_2 => 2,
            Version::V1_3 => 3,
            Version::V1_4 => 4,
        }
    }

    /// Parse a version selector: the strings "1.0" through "1.4" and
    /// nothing else; everything outside that range is `InvalidVersion`.
    pub fn from_str(s: &str) -> (r: Result<Version, EdidError>)
        ensures
            r is Ok <==> spec_version_of(s.spec_bytes()) is Some,
            r matches Ok(v) ==> spec_version_of(s.spec_bytes()) == Some(v),
            r is Err ==> r == Err::<Version, EdidError>(EdidError::InvalidVersion),
    {
        let b: &[u8] = s.as_bytes();
        if b.len() == 3 && b[0] == 0x31 && b[1] == 0x2e {
            let c: u8 = b[2];
            if c == 0x30 {
                Ok(Version::V1_0)
            } else if c == 0x31 {
                Ok(Version::V1_1)
            } else if c == 0x32 {
                Ok(Version::V1_2)
            } else if c == 0x33 {
                Ok(Version::V1_3)
            } else if c == 0x34 {
                Ok(Version::V1_4)
            } else {
                Err(EdidError::InvalidVersion)
            }
        } else {
            Err(EdidError::InvalidVersion)
        }
    }
}

} // verus!
