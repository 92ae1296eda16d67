//! BMP: fixed-offset fields after the "BM" signature.
use crate::bytes::{le32, read_le32};
use crate::error::Error;
use vstd::prelude::*;

verus! {

/// Offset of the width and height fields.
pub const SIZE_OFFSET: usize = 0x12;

/// Offset of the two pixels-per-metre fields.
pub const PPM_OFFSET: usize = 0x26;

/// The header is read up to here.
pub const HEADER_END: usize = 0x2E;

#[derive(Debug, Clone, Copy, PartialEq, Eq, Structural)]
pub struct Bmp {
    pub width: u32,
    pub height: u32,
    pub x_ppm: u32,
    pub y_ppm: u32,
}

/// What a BMP stream decodes to.
pub open spec fn spec_bmp(d: Seq<u8>) -> Result<Bmp, Error> {
    if d.len() < 2 {
        Err(Error::Truncated)
    } else if d[0] != 0x42 || d[1] != 0x4D {
        Err(Error::FormatMismatch)
    } else if d.len() < HEADER_END {
        Err(Error::Truncated)
    } else {
        Ok(
            Bmp {
                width: le32(d, 0x12) as u32,
                height: le32(d, 0x16) as u32,
                x_ppm: le32(d, 0x26) as u32,
                y_ppm: le32(d, 0x2A) as u32,
            },
        )
    }
}

/// DPI for a pixels-per-metre value: 96 when it is zero, else the value
/// times 0.0254 rounded half away from zero.
pub open spec fn bmp_dpi(ppm: u32) -> u32 {
    if ppm == 0 {
        96
    } else {
        ((ppm as int * 254 + 5000) / 10000) as u32
    }
}

pub fn dpi(ppm: u32) -> (r: u32)
    ensures
        r == bmp_dpi(ppm),
{
    if ppm == 0 {
        return 96;
    }
    let q: u64 = ((ppm as u64) * 254 + 5000) / 10000;
    assert(q <= u32::MAX);
    q as u32
}

impl Bmp {
    /// Reads the signature, the size fields at 0x12 and the resolution
    /// fields at 0x26.
    pub fn new(d: &[u8]) -> (r: Result<Bmp, Error>)
        ensures
            r == spec_bmp(d@),
    {
        if d.len() < 2 {
            return Err(Error::Truncated);
        }
        if d[0] != 0x42 || d[1] != 0x4D {
            return Err(Error::FormatMismatch);
        }
        if d.len() < HEADER_END {
            return Err(Error::Truncated);
        }
        let width = read_le32(d, SIZE_OFFSET);
        let height = read_le32(d, SIZE_OFFSET + 4);
        let x_ppm = read_le32(d, PPM_OFFSET);
        let y_ppm = read_le32(d, PPM_OFFSET + 4);
        Ok(Bmp { width, height, x_ppm, y_ppm })
    }

    pub open spec fn spec_x_dpi(self) -> u32 {
        bmp_dpi(self.x_ppm)
    }

    pub open spec fn spec_y_dpi(self) -> u32 {
        bmp_dpi(self.y_ppm)
    }

    pub fn dimension(&self) -> (r: (u32, u32))
        ensures
            r == (self.width, self.height),
    {
        (self.width, self.height)
    }

    pub fn x_dpi(&self) -> (r: u32)
        ensures
            r == self.spec_x_dpi(),
    {
        dpi(self.x_ppm)
    }

    pub fn y_dpi(&self) -> (r: u32)
        ensures
            r == self.spec_y_dpi(),
    {
        dpi(self.y_ppm)
    }
}

} // verus!
