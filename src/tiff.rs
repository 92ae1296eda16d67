//! The TIFF tag directory: a byte-order mark, then an offset-addressed
//! directory of typed entries.
use crate::bytes::{read_u16, read_u32, u16_at, u32_at};
use crate::error::Error;
use vstd::prelude::*;

verus! {

/// What the first directory says of the image.
#[derive(Debug, Clone, Copy, PartialEq, Eq, Structural)]
pub struct Tiff {
    pub width: u32,
    pub height: u32,
    pub x_resolution: u32,
    pub y_resolution: u32,
    pub resolution_unit: u32,
}

#[derive(Debug, Clone, Copy, PartialEq, Eq, Structural)]
pub enum ByteOrder {
    /// "MM"
    Big,
    /// "II"
    Little,
}

#[derive(Debug, Clone, Copy, PartialEq, Eq, Structural)]
pub struct TiffHeader {
    pub byte_order: ByteOrder,
    pub version: u16,
    pub ifd0_offset: u32,
}

#[derive(Debug, Clone, Copy, PartialEq, Eq, Structural)]
pub enum EntryType {
    Short,
    Long,
    Rational,
    Other(u16),
}

#[derive(Debug, Clone, Copy, PartialEq, Eq, Structural)]
pub enum TagType {
    ImageWidth,
    ImageLength,
    XResolution,
    YResolution,
    ResolutionUnit,
    Other(u16),
}

/// One 12-byte directory entry. An inline value (count 1, type Short or
/// Long) is held in `data_value` and `data_offset` is 0; otherwise
/// `data_offset` holds the 4-byte field and `data_value` is `(0, 0)`.
#[derive(Debug, Clone, Copy, PartialEq, Eq)]
pub struct IfdEntry {
    pub tag: TagType,
    pub data_type: EntryType,
    pub data_count: u32,
    pub data_value: (u16, u16),
    pub data_offset: u32,
}

#[derive(Debug)]
pub struct Ifd {
    pub entry_count: u16,
    pub data: Vec<IfdEntry>,
    pub next_offset: u32,
}

/// Size in bytes of one directory entry.
pub const ENTRY_SIZE: usize = 12;

pub open spec fn entry_type_of(v: u16) -> EntryType {
    if v == 3 {
        EntryType::Short
    } else if v == 4 {
        EntryType::Long
    } else if v == 5 {
        EntryType::Rational
    } else {
        EntryType::Other(v)
    }
}

pub open spec fn tag_type_of(v: u16) -> TagType {
    if v == 0x0100 {
        TagType::ImageWidth
    } else if v == 0x0101 {
        TagType::ImageLength
    } else if v == 0x011A {
        TagType::XResolution
    } else if v == 0x011B {
        TagType::YResolution
    } else if v == 0x0128 {
        TagType::ResolutionUnit
    } else {
        TagType::Other(v)
    }
}

impl EntryType {
    pub fn from_raw(v: u16) -> (r: EntryType)
        ensures
            r == entry_type_of(v),
    {
        if v == 3 {
            EntryType::Short
        } else if v == 4 {
            EntryType::Long
        } else if v == 5 {
            EntryType::Rational
        } else {
            EntryType::Other(v)
        }
    }
}

impl TagType {
    pub fn from_raw(v: u16) -> (r: TagType)
        ensures
            r == tag_type_of(v),
    {
        if v == 0x0100 {
            TagType::ImageWidth
        } else if v == 0x0101 {
            TagType::ImageLength
        } else if v == 0x011A {
            TagType::XResolution
        } else if v == 0x011B {
            TagType::YResolution
        } else if v == 0x0128 {
            TagType::ResolutionUnit
        } else {
            TagType::Other(v)
        }
    }
}

/// Whether an entry of this type and count keeps its value inline.
pub open spec fn is_inline(data_type: EntryType, count: u32) -> bool {
    count == 1 && (data_type == EntryType::Short || data_type == EntryType::Long)
}

/// The entry whose 12 bytes start at `i`.
pub open spec fn entry_at(d: Seq<u8>, i: int, little: bool) -> IfdEntry {
    let data_type = entry_type_of(u16_at(d, i + 2, little) as u16);
    let data_count = u32_at(d, i + 4, little) as u32;
    if is_inline(data_type, data_count) {
        IfdEntry {
            tag: tag_type_of(u16_at(d, i, little) as u16),
            data_type,
            data_count,
            data_value: (u16_at(d, i + 8, little) as u16, u16_at(d, i + 10, little) as u16),
            data_offset: 0,
        }
    } else {
        IfdEntry {
            tag: tag_type_of(u16_at(d, i, little) as u16),
            data_type,
            data_count,
            data_value: (0, 0),
            data_offset: u32_at(d, i + 8, little) as u32,
        }
    }
}

impl IfdEntry {
    /// The inline value widened to 32 bits, or else the raw offset field.
    pub open spec fn spec_value(self) -> u32 {
        if is_inline(self.data_type, self.data_count) {
            self.data_value.0 as u32
        } else {
            self.data_offset
        }
    }

    pub fn parse(d: &[u8], i: usize, little: bool) -> (r: IfdEntry)
        requires
            i + ENTRY_SIZE <= d@.len(),
        ensures
            r == entry_at(d@, i as int, little),
    {
        // the length of a slice fits in usize, which bounds the offsets below
        let _len = d.len();
        let tag = TagType::from_raw(read_u16(d, i, little));
        let data_type = EntryType::from_raw(read_u16(d, i + 2, little));
        let data_count = read_u32(d, i + 4, little);
        let inline = data_count == 1 && (match data_type {
            EntryType::Short | EntryType::Long => true,
            _ => false,
        });
        if inline {
            let first = read_u16(d, i + 8, little);
            let second = read_u16(d, i + 10, little);
            IfdEntry { tag, data_type, data_count, data_value: (first, second), data_offset: 0 }
        } else {
            let data_offset = read_u32(d, i + 8, little);
            IfdEntry { tag, data_type, data_count, data_value: (0, 0), data_offset }
        }
    }

    pub fn read_value(&self) -> (r: u32)
        ensures
            r == self.spec_value(),
    {
        let inline = self.data_count == 1 && (match self.data_type {
            EntryType::Short | EntryType::Long => true,
            _ => false,
        });
        if inline {
            self.data_value.0 as u32
        } else {
            self.data_offset
        }
    }
}

impl TiffHeader {
    pub open spec fn spec_parse(d: Seq<u8>) -> Result<TiffHeader, Error> {
        if d.len() < 2 {
            Err(Error::Truncated)
        } else if !((d[0] == 0x4D && d[1] == 0x4D) || (d[0] == 0x49 && d[1] == 0x49)) {
            Err(Error::FormatMismatch)
        } else if d.len() < 8 {
            Err(Error::Truncated)
        } else {
            let little = d[0] == 0x49;
            Ok(
                TiffHeader {
                    byte_order: if little {
                        ByteOrder::Little
                    } else {
                        ByteOrder::Big
                    },
                    version: u16_at(d, 2, little) as u16,
                    ifd0_offset: u32_at(d, 4, little) as u32,
                },
            )
        }
    }

    pub open spec fn is_little(self) -> bool {
        self.byte_order == ByteOrder::Little
    }

    pub fn parse(d: &[u8]) -> (r: Result<TiffHeader, Error>)
        ensures
            r == Self::spec_parse(d@),
    {
        if d.len() < 2 {
            return Err(Error::Truncated);
        }
        let little = if d[0] == 0x49 && d[1] == 0x49 {
            true
        } else if d[0] == 0x4D && d[1] == 0x4D {
            false
        } else {
            return Err(Error::FormatMismatch);
        };
        if d.len() < 8 {
            return Err(Error::Truncated);
        }
        let byte_order = if little {
            ByteOrder::Little
        } else {
            ByteOrder::Big
        };
        let version = read_u16(d, 2, little);
        let ifd0_offset = read_u32(d, 4, little);
        Ok(TiffHeader { byte_order, version, ifd0_offset })
    }
}

/// Whether the whole directory at `off` (count, entries and next offset)
/// lies within the source.
pub open spec fn ifd_fits(d: Seq<u8>, off: int, little: bool) -> bool {
    off + 2 <= d.len() && off + 2 + 12 * u16_at(d, off, little) + 4 <= d.len()
}

/// The entries of the directory at `off`.
pub open spec fn ifd_entries(d: Seq<u8>, off: int, little: bool) -> Seq<IfdEntry> {
    Seq::new(u16_at(d, off, little) as nat, |k: int| entry_at(d, off + 2 + 12 * k, little))
}

impl Ifd {
    pub fn parse(d: &[u8], off: u32, little: bool) -> (r: Result<Ifd, Error>)
        ensures
            r is Ok <==> ifd_fits(d@, off as int, little),
            r is Err ==> r == Err::<Ifd, Error>(Error::Truncated),
            r is Ok ==> {
                let ifd = r->Ok_0;
                &&& ifd.entry_count == u16_at(d@, off as int, little)
                &&& ifd.data@ == ifd_entries(d@, off as int, little)
                &&& ifd.next_offset == u32_at(
                    d@,
                    off as int + 2 + 12 * u16_at(d@, off as int, little),
                    little,
                )
            },
    {
        let len = d.len();
        let off = off as usize;
        if off > len || len - off < 2 {
            return Err(Error::Truncated);
        }
        let entry_count = read_u16(d, off, little);
        let n = entry_count as usize;
        if len - off - 2 < ENTRY_SIZE * n + 4 {
            return Err(Error::Truncated);
        }
        let mut data: Vec<IfdEntry> = Vec::new();
        let mut k: usize = 0;
        while k < n
            invariant
                n == u16_at(d@, off as int, little),
                len == d@.len(),
                off + 2 + 12 * n + 4 <= d@.len(),
                k <= n,
                data@ =~= ifd_entries(d@, off as int, little).subrange(0, k as int),
            decreases n - k,
        {
            let e = IfdEntry::parse(d, off + 2 + ENTRY_SIZE * k, little);
            data.push(e);
            k = k + 1;
        }
        let next_offset = read_u32(d, off + 2 + ENTRY_SIZE * n, little);
        Ok(Ifd { entry_count, data, next_offset })
    }
}

/// The record after one more entry: a recognised tag takes the entry's value.
pub open spec fn apply_entry(t: Tiff, e: IfdEntry) -> Tiff {
    match e.tag {
        TagType::ImageWidth => Tiff { width: e.spec_value(), ..t },
        TagType::ImageLength => Tiff { height: e.spec_value(), ..t },
        TagType::XResolution => Tiff { x_resolution: e.spec_value(), ..t },
        TagType::YResolution => Tiff { y_resolution: e.spec_value(), ..t },
        TagType::ResolutionUnit => Tiff { resolution_unit: e.spec_value(), ..t },
        TagType::Other(_) => t,
    }
}

pub open spec fn empty_tiff() -> Tiff {
    Tiff { width: 0, height: 0, x_resolution: 0, y_resolution: 0, resolution_unit: 0 }
}

/// The record that a run of entries gives, read in order: the last entry of
/// each recognised tag wins.
pub open spec fn tiff_fold(es: Seq<IfdEntry>) -> Tiff
    decreases es.len(),
{
    if es.len() == 0 {
        empty_tiff()
    } else {
        apply_entry(tiff_fold(es.drop_last()), es.last())
    }
}

/// What a TIFF stream decodes to: the header, then the first directory.
pub open spec fn spec_tiff(d: Seq<u8>) -> Result<Tiff, Error> {
    match TiffHeader::spec_parse(d) {
        Err(e) => Err(e),
        Ok(h) => if ifd_fits(d, h.ifd0_offset as int, h.is_little()) {
            Ok(tiff_fold(ifd_entries(d, h.ifd0_offset as int, h.is_little())))
        } else {
            Err(Error::Truncated)
        },
    }
}

/// DPI for a resolution in the given unit: 72 for unit 1 (no absolute unit),
/// the value itself for unit 2 (inches), and the value times 2.54, truncated
/// and saturated, for any other unit.
pub open spec fn tiff_dpi(unit: u32, resolution: u32) -> u32 {
    if unit == 1 {
        72
    } else if unit == 2 {
        resolution
    } else if resolution as int * 254 / 100 > u32::MAX as int {
        u32::MAX
    } else {
        (resolution as int * 254 / 100) as u32
    }
}

pub fn dpi(unit: u32, resolution: u32) -> (r: u32)
    ensures
        r == tiff_dpi(unit, resolution),
{
    if unit == 1 {
        72
    } else if unit == 2 {
        resolution
    } else {
        let scaled: u64 = (resolution as u64) * 254 / 100;
        if scaled > u32::MAX as u64 {
            u32::MAX
        } else {
            scaled as u32
        }
    }
}

impl Tiff {
    /// Reads the header and the first directory of a TIFF stream.
    pub fn new(d: &[u8]) -> (r: Result<Tiff, Error>)
        ensures
            r == spec_tiff(d@),
    {
        let header = TiffHeader::parse(d)?;
        let little = match header.byte_order {
            ByteOrder::Little => true,
            ByteOrder::Big => false,
        };
        let ifd = Ifd::parse(d, header.ifd0_offset, little)?;
        let ghost es = ifd.data@;
        let mut t = Tiff { width: 0, height: 0, x_resolution: 0, y_resolution: 0, resolution_unit: 0 };
        let mut k: usize = 0;
        while k < ifd.data.len()
            invariant
                es == ifd.data@,
                k <= es.len(),
                t == tiff_fold(es.subrange(0, k as int)),
            decreases es.len() - k,
        {
            let e = ifd.data[k];
            let v = e.read_value();
            match e.tag {
                TagType::ImageWidth => t.width = v,
                TagType::ImageLength => t.height = v,
                TagType::XResolution => t.x_resolution = v,
                TagType::YResolution => t.y_resolution = v,
                TagType::ResolutionUnit => t.resolution_unit = v,
                TagType::Other(_) => {},
            }
            assert(es.subrange(0, k as int + 1).drop_last() =~= es.subrange(0, k as int));
            k = k + 1;
        }
        assert(es.subrange(0, es.len() as int) =~= es);
        Ok(t)
    }

    pub open spec fn spec_x_dpi(self) -> u32 {
        tiff_dpi(self.resolution_unit, self.x_resolution)
    }

    pub open spec fn spec_y_dpi(self) -> u32 {
        tiff_dpi(self.resolution_unit, self.y_resolution)
    }

    pub fn dimension(&self) -> (r: (u32, u32))
        ensures
            r == (self.width, self.height),
    {
        (self.width, self.height)
    }

    pub fn x_dpi(&self) -> (r: u32)
        ensures
            r == self.spec_x_dpi(),
    {
        dpi(self.resolution_unit, self.x_resolution)
    }

    pub fn y_dpi(&self) -> (r: u32)
        ensures
            r == self.spec_y_dpi(),
    {
        dpi(self.resolution_unit, self.y_resolution)
    }
}

} // verus!
