//! PNG: the 8-byte signature, then length-prefixed chunks up to the end of
//! the source.
use crate::bytes::{be32, read_be32};
use crate::error::Error;
use vstd::prelude::*;

verus! {

/// Chunk type "IHDR" read as a big-endian integer.
pub const IHDR_TAG: u32 = 0x49484452;

/// Chunk type "IEND" read as a big-endian integer.
pub const IEND_TAG: u32 = 0x49454E44;

/// Chunk type "pHYs" read as a big-endian integer.
pub const PHYS_TAG: u32 = 0x70485973;

/// Length, type and checksum: the bytes of a chunk besides its payload.
pub const CHUNK_OVERHEAD: usize = 12;

/// Resolution default when a stream gives none in metres.
pub const DEFAULT_DPI: u32 = 72;

#[derive(Debug, Clone, Copy, PartialEq, Eq, Structural)]
pub struct IHDRChunk {
    pub length: u32,
    pub width: u32,
    pub height: u32,
    pub crc: u32,
}

#[derive(Debug, Clone, Copy, PartialEq, Eq, Structural)]
pub struct IENDChunk {
    pub length: u32,
    pub crc: u32,
}

#[derive(Debug, Clone, Copy, PartialEq, Eq, Structural)]
pub struct PHYSChunk {
    pub length: u32,
    pub x_ppm: u32,
    pub y_ppm: u32,
    pub unit: u8,
    pub crc: u32,
}

/// Any other chunk; its payload is skipped.
#[derive(Debug, Clone, Copy, PartialEq, Eq, Structural)]
pub struct OtherChunk {
    pub length: u32,
    pub chunk_type: u32,
    pub crc: u32,
}

#[derive(Debug, Clone, Copy, PartialEq, Eq, Structural)]
pub enum Chunk {
    IHDR(IHDRChunk),
    IEND(IENDChunk),
    PHYS(PHYSChunk),
    Other(OtherChunk),
}

/// The last size and resolution seen in the stream.
#[derive(Debug, Clone, Copy, PartialEq, Eq, Structural)]
pub struct Info {
    pub width: u32,
    pub height: u32,
    pub x_ppu: u32,
    pub y_ppu: u32,
    pub unit: u8,
}

#[derive(Debug)]
pub struct Png {
    pub info: Option<Info>,
    pub chunks: Vec<Chunk>,
}

/// The eight signature bytes.
pub open spec fn png_signature() -> Seq<u8> {
    seq![0x89u8, 0x50, 0x4E, 0x47, 0x0D, 0x0A, 0x1A, 0x0A]
}

/// Whether a whole chunk (its payload included) starts at `pos`.
pub open spec fn chunk_fits(d: Seq<u8>, pos: int) -> bool {
    pos + 12 <= d.len() && pos + 12 + be32(d, pos) <= d.len()
}

/// Where the chunk at `pos` ends.
pub open spec fn chunk_end(d: Seq<u8>, pos: int) -> int {
    pos + 12 + be32(d, pos)
}

/// The chunk at `pos`, which must fit. An IHDR shorter than 8 bytes or a
/// pHYs shorter than 9 is read as an ordinary chunk.
pub open spec fn chunk_at(d: Seq<u8>, pos: int) -> Chunk {
    let length = be32(d, pos) as u32;
    let tag = be32(d, pos + 4) as u32;
    let crc = be32(d, pos + 8 + length) as u32;
    if tag == IHDR_TAG && length >= 8 {
        Chunk::IHDR(
            IHDRChunk {
                length,
                width: be32(d, pos + 8) as u32,
                height: be32(d, pos + 12) as u32,
                crc,
            },
        )
    } else if tag == IEND_TAG {
        Chunk::IEND(IENDChunk { length, crc })
    } else if tag == PHYS_TAG && length >= 9 {
        Chunk::PHYS(
            PHYSChunk {
                length,
                x_ppm: be32(d, pos + 8) as u32,
                y_ppm: be32(d, pos + 12) as u32,
                unit: d[pos + 16],
                crc,
            },
        )
    } else {
        Chunk::Other(OtherChunk { length, chunk_type: tag, crc })
    }
}

/// The chunks from `pos` on; the scan stops where no whole chunk is left.
pub open spec fn chunks_from(d: Seq<u8>, pos: int) -> Seq<Chunk>
    decreases d.len() - pos,
{
    if pos >= 0 && chunk_fits(d, pos) {
        seq![chunk_at(d, pos)] + chunks_from(d, chunk_end(d, pos))
    } else {
        Seq::empty()
    }
}

pub open spec fn empty_info() -> Info {
    Info { width: 0, height: 0, x_ppu: 0, y_ppu: 0, unit: 0 }
}

/// The info after one more chunk.
pub open spec fn apply_chunk(i: Info, c: Chunk) -> Info {
    match c {
        Chunk::IHDR(h) => Info { width: h.width, height: h.height, ..i },
        Chunk::PHYS(p) => Info { x_ppu: p.x_ppm, y_ppu: p.y_ppm, unit: p.unit, ..i },
        _ => i,
    }
}

/// The info of a run of chunks read in order: the last IHDR and the last
/// pHYs win.
pub open spec fn info_of(cs: Seq<Chunk>) -> Info
    decreases cs.len(),
{
    if cs.len() == 0 {
        empty_info()
    } else {
        apply_chunk(info_of(cs.drop_last()), cs.last())
    }
}

/// What a PNG stream decodes to: `Err` only for a missing signature.
pub open spec fn spec_png(d: Seq<u8>) -> Result<Seq<Chunk>, Error> {
    if d.len() < 8 {
        Err(Error::Truncated)
    } else if d.subrange(0, 8) != png_signature() {
        Err(Error::FormatMismatch)
    } else {
        Ok(chunks_from(d, 8))
    }
}

/// DPI for a pixels-per-unit value: in metres (unit 1), the value times
/// 0.254 truncated; in any other unit, 72.
pub open spec fn png_dpi(unit: u8, ppu: u32) -> u32 {
    if unit == 1 {
        (ppu as int * 254 / 1000) as u32
    } else {
        DEFAULT_DPI
    }
}

pub fn dpi(unit: u8, ppu: u32) -> (r: u32)
    ensures
        r == png_dpi(unit, ppu),
{
    if unit == 1 {
        ((ppu as u64) * 254 / 1000) as u32
    } else {
        DEFAULT_DPI
    }
}

fn chunk_parse(d: &[u8], pos: usize) -> (r: Chunk)
    requires
        chunk_fits(d@, pos as int),
    ensures
        r == chunk_at(d@, pos as int),
{
    // the length of a slice fits in usize, which bounds the offsets below
    let _len = d.len();
    let length = read_be32(d, pos);
    let tag = read_be32(d, pos + 4);
    let crc = read_be32(d, pos + 8 + length as usize);
    if tag == IHDR_TAG && length >= 8 {
        let width = read_be32(d, pos + 8);
        let height = read_be32(d, pos + 12);
        Chunk::IHDR(IHDRChunk { length, width, height, crc })
    } else if tag == IEND_TAG {
        Chunk::IEND(IENDChunk { length, crc })
    } else if tag == PHYS_TAG && length >= 9 {
        let x_ppm = read_be32(d, pos + 8);
        let y_ppm = read_be32(d, pos + 12);
        let unit = d[pos + 16];
        Chunk::PHYS(PHYSChunk { length, x_ppm, y_ppm, unit, crc })
    } else {
        Chunk::Other(OtherChunk { length, chunk_type: tag, crc })
    }
}

impl Png {
    /// Reads the signature and every whole chunk after it, and merges the
    /// last IHDR and pHYs into `info`.
    pub fn new(d: &[u8]) -> (r: Result<Png, Error>)
        ensures
            r is Ok <==> spec_png(d@) is Ok,
            r is Err ==> r->Err_0 == spec_png(d@)->Err_0,
            r is Ok ==> r->Ok_0.chunks@ == spec_png(d@)->Ok_0,
            r is Ok ==> r->Ok_0.info == Some(info_of(spec_png(d@)->Ok_0)),
    {
        let len = d.len();
        if len < 8 {
            return Err(Error::Truncated);
        }
        let sig: [u8; 8] = [0x89, 0x50, 0x4E, 0x47, 0x0D, 0x0A, 0x1A, 0x0A];
        let mut k: usize = 0;
        while k < 8
            invariant
                len == d@.len(),
                len >= 8,
                k <= 8,
                sig@ == png_signature(),
                d@.subrange(0, k as int) == png_signature().subrange(0, k as int),
            decreases 8 - k,
        {
            if d[k] != sig[k] {
                assert(d@.subrange(0, 8)[k as int] != png_signature()[k as int]);
                return Err(Error::FormatMismatch);
            }
            assert(d@.subrange(0, k as int + 1) =~= png_signature().subrange(0, k as int + 1));
            k = k + 1;
        }
        assert(png_signature().subrange(0, 8) =~= png_signature());
        let ghost all = chunks_from(d@, 8);
        let mut chunks: Vec<Chunk> = Vec::new();
        let mut info = Info { width: 0, height: 0, x_ppu: 0, y_ppu: 0, unit: 0 };
        let mut pos: usize = 8;
        loop
            invariant
                len == d@.len(),
                8 <= pos <= len,
                all == chunks_from(d@, 8),
                all == chunks@ + chunks_from(d@, pos as int),
                info == info_of(chunks@),
            ensures
                chunks_from(d@, pos as int) =~= Seq::<Chunk>::empty(),
                all == chunks@ + chunks_from(d@, pos as int),
                info == info_of(chunks@),
            decreases len - pos,
        {
            if len - pos < CHUNK_OVERHEAD {
                assert(!chunk_fits(d@, pos as int));
                break;
            }
            let length = read_be32(d, pos);
            if length as usize > len - pos - CHUNK_OVERHEAD {
                assert(!chunk_fits(d@, pos as int));
                break;
            }
            let c = chunk_parse(d, pos);
            match c {
                Chunk::IHDR(h) => {
                    info.width = h.width;
                    info.height = h.height;
                },
                Chunk::PHYS(p) => {
                    info.x_ppu = p.x_ppm;
                    info.y_ppu = p.y_ppm;
                    info.unit = p.unit;
                },
                _ => {},
            }
            let ghost before = chunks@;
            chunks.push(c);
            assert(chunks@.drop_last() =~= before);
            assert(chunks@ + chunks_from(d@, (pos + CHUNK_OVERHEAD + length as usize) as int)
                =~= before + chunks_from(d@, pos as int));
            pos = pos + CHUNK_OVERHEAD + length as usize;
        }
        assert(chunks@ =~= all);
        Ok(Png { info: Some(info), chunks })
    }

    pub open spec fn spec_dimension(self) -> (u32, u32) {
        match self.info {
            Some(i) => (i.width, i.height),
            None => (0, 0),
        }
    }

    pub open spec fn spec_x_dpi(self) -> u32 {
        match self.info {
            Some(i) => png_dpi(i.unit, i.x_ppu),
            None => DEFAULT_DPI,
        }
    }

    pub open spec fn spec_y_dpi(self) -> u32 {
        match self.info {
            Some(i) => png_dpi(i.unit, i.y_ppu),
            None => DEFAULT_DPI,
        }
    }

    pub fn dimension(&self) -> (r: (u32, u32))
        ensures
            r == self.spec_dimension(),
    {
        match &self.info {
            Some(i) => (i.width, i.height),
            None => (0, 0),
        }
    }

    pub fn x_dpi(&self) -> (r: u32)
        ensures
            r == self.spec_x_dpi(),
    {
        match &self.info {
            Some(i) => dpi(i.unit, i.x_ppu),
            None => DEFAULT_DPI,
        }
    }

    pub fn y_dpi(&self) -> (r: u32)
        ensures
            r == self.spec_y_dpi(),
    {
        match &self.info {
            Some(i) => dpi(i.unit, i.y_ppu),
            None => DEFAULT_DPI,
        }
    }
}

} // verus!
