//! GIF: the "GIF" signature, a version tag and the logical screen size.
use crate::bytes::{le16, read_le16};
use crate::error::Error;
use vstd::prelude::*;

verus! {

/// The version tag after the signature.
#[derive(Debug, Clone, Copy, PartialEq, Eq, Structural)]
pub enum Type {
    /// "87a"
    Gif87a,
    /// "89a"
    Gif89a,
}

#[derive(Debug, Clone, Copy, PartialEq, Eq, Structural)]
pub struct Gif {
    pub version: Type,
    pub width: u16,
    pub height: u16,
}

/// GIF carries no resolution; every image reads as this many DPI.
pub const GIF_DPI: u32 = 72;

/// The version that the three bytes at 3..6 name, if any.
pub open spec fn version_of(d: Seq<u8>) -> Option<Type> {
    if d[3] == 0x38 && d[4] == 0x37 && d[5] == 0x61 {
        Some(Type::Gif87a)
    } else if d[3] == 0x38 && d[4] == 0x39 && d[5] == 0x61 {
        Some(Type::Gif89a)
    } else {
        None
    }
}

/// What a GIF stream decodes to.
pub open spec fn spec_gif(d: Seq<u8>) -> Result<Gif, Error> {
    if d.len() < 3 {
        Err(Error::Truncated)
    } else if d[0] != 0x47 || d[1] != 0x49 || d[2] != 0x46 {
        Err(Error::FormatMismatch)
    } else if d.len() < 6 {
        Err(Error::Truncated)
    } else if version_of(d) is None {
        Err(Error::FormatMismatch)
    } else if d.len() < 10 {
        Err(Error::Truncated)
    } else {
        Ok(
            Gif {
                version: version_of(d)->Some_0,
                width: le16(d, 6) as u16,
                height: le16(d, 8) as u16,
            },
        )
    }
}

impl Gif {
    /// Reads the signature, the version tag and the two 16-bit sizes.
    pub fn new(d: &[u8]) -> (r: Result<Gif, Error>)
        ensures
            r == spec_gif(d@),
    {
        if d.len() < 3 {
            return Err(Error::Truncated);
        }
        if d[0] != 0x47 || d[1] != 0x49 || d[2] != 0x46 {
            return Err(Error::FormatMismatch);
        }
        if d.len() < 6 {
            return Err(Error::Truncated);
        }
        let version = if d[3] == 0x38 && d[4] == 0x37 && d[5] == 0x61 {
            Type::Gif87a
        } else if d[3] == 0x38 && d[4] == 0x39 && d[5] == 0x61 {
            Type::Gif89a
        } else {
            return Err(Error::FormatMismatch);
        };
        if d.len() < 10 {
            return Err(Error::Truncated);
        }
        let width = read_le16(d, 6);
        let height = read_le16(d, 8);
        Ok(Gif { version, width, height })
    }

    pub fn dimension(&self) -> (r: (u32, u32))
        ensures
            r == (self.width as u32, self.height as u32),
    {
        (self.width as u32, self.height as u32)
    }

    pub fn x_dpi(&self) -> (r: u32)
        ensures
            r == GIF_DPI,
    {
        GIF_DPI
    }

    pub fn y_dpi(&self) -> (r: u32)
        ensures
            r == GIF_DPI,
    {
        GIF_DPI
    }
}

} // verus!
