//! The closed set of formats, the decoded header of each, and the record
//! that a whole file gives.
use crate::bmp::{spec_bmp, Bmp};
use crate::bytes::be16;
use crate::error::Error;
use crate::gif::{spec_gif, Gif, GIF_DPI};
use crate::jpeg::{spec_jpeg, Jpeg};
use crate::length::Length;
use crate::png::{info_of, png_signature, spec_png, Png};
use crate::tiff::{spec_tiff, Tiff};
use vstd::prelude::*;
use vstd::string::StringSliceAdditionalSpecFns;

verus! {

#[derive(Debug, Clone, Copy, PartialEq, Eq, Structural)]
pub enum Format {
    Bmp,
    Gif,
    Jpeg,
    Png,
    Tiff,
}

#[derive(Debug)]
pub enum ImageType {
    Bmp(Bmp),
    Gif(Gif),
    Jpeg(Jpeg),
    Png(Png),
    Tiff(Tiff),
}

/// What a file gives: its checksum, its size in pixels and in inches, its
/// resolution, and its format's MIME type and usual extension.
#[derive(Debug)]
pub struct Image {
    pub crc32: u32,
    pub dimensions: (u32, u32),
    pub width: Length,
    pub height: Length,
    pub x_dpi: u32,
    pub y_dpi: u32,
    pub content_type: String,
    pub ext: String,
}

/// The CRC-32 (IEEE) of a byte sequence.
pub uninterp spec fn crc32_of(b: Seq<u8>) -> u32;

/// Relies on const_crc32::crc32: the checksum of the bytes, which depends on
/// them alone and is 0 for no bytes.
#[verifier::external_body]
fn checksum(data: &[u8]) -> (r: u32)
    ensures
        r == crc32_of(data@),
        data@.len() == 0 ==> r == 0,
{
    const_crc32::crc32(data)
}

pub open spec fn ascii_lower(c: u8) -> u8 {
    if 0x41 <= c <= 0x5A {
        (c + 0x20) as u8
    } else {
        c
    }
}

/// The index of the last '.' among the first `n` bytes, or -1.
pub open spec fn last_dot_before(b: Seq<u8>, n: int) -> int
    decreases n,
{
    if n <= 0 {
        -1
    } else if b[n - 1] == 0x2E {
        n - 1
    } else {
        last_dot_before(b, n - 1)
    }
}

/// The extension of a file name: the bytes after its last '.', or the whole
/// name if it has none.
pub open spec fn extension_of(b: Seq<u8>) -> Seq<u8> {
    b.subrange(last_dot_before(b, b.len() as int) + 1, b.len() as int)
}

/// Whether `e` spells `name` (lower case) without regard to ASCII case.
pub open spec fn spells(e: Seq<u8>, name: Seq<u8>) -> bool {
    e.len() == name.len() && forall|i: int| 0 <= i < e.len() ==> ascii_lower(#[trigger] e[i]) == name[i]
}

pub open spec fn bmp_name() -> Seq<u8> {
    seq![0x62u8, 0x6D, 0x70]
}

pub open spec fn gif_name() -> Seq<u8> {
    seq![0x67u8, 0x69, 0x66]
}

pub open spec fn jpeg_name() -> Seq<u8> {
    seq![0x6Au8, 0x70, 0x65, 0x67]
}

pub open spec fn jpg_name() -> Seq<u8> {
    seq![0x6Au8, 0x70, 0x67]
}

pub open spec fn png_name() -> Seq<u8> {
    seq![0x70u8, 0x6E, 0x67]
}

pub open spec fn tiff_name() -> Seq<u8> {
    seq![0x74u8, 0x69, 0x66, 0x66]
}

pub open spec fn tif_name() -> Seq<u8> {
    seq![0x74u8, 0x69, 0x66]
}

/// The format that an extension names.
pub open spec fn format_of_extension(e: Seq<u8>) -> Option<Format> {
    if spells(e, bmp_name()) {
        Some(Format::Bmp)
    } else if spells(e, gif_name()) {
        Some(Format::Gif)
    } else if spells(e, jpeg_name()) || spells(e, jpg_name()) {
        Some(Format::Jpeg)
    } else if spells(e, png_name()) {
        Some(Format::Png)
    } else if spells(e, tiff_name()) || spells(e, tif_name()) {
        Some(Format::Tiff)
    } else {
        None
    }
}

/// What a stream in the given format decodes to: width, height, x-DPI and
/// y-DPI.
pub open spec fn spec_record(f: Format, d: Seq<u8>) -> Result<(u32, u32, u32, u32), Error> {
    match f {
        Format::Bmp => match spec_bmp(d) {
            Ok(b) => Ok((b.width, b.height, b.spec_x_dpi(), b.spec_y_dpi())),
            Err(e) => Err(e),
        },
        Format::Gif => match spec_gif(d) {
            Ok(g) => Ok((g.width as u32, g.height as u32, GIF_DPI, GIF_DPI)),
            Err(e) => Err(e),
        },
        Format::Jpeg => spec_jpeg(d),
        Format::Png => match spec_png(d) {
            Ok(cs) => {
                let i = info_of(cs);
                Ok((i.width, i.height, crate::png::png_dpi(i.unit, i.x_ppu), crate::png::png_dpi(i.unit, i.y_ppu)))
            },
            Err(e) => Err(e),
        },
        Format::Tiff => match spec_tiff(d) {
            Ok(t) => Ok((t.width, t.height, t.spec_x_dpi(), t.spec_y_dpi())),
            Err(e) => Err(e),
        },
    }
}

/// Whether `d` opens with the signature that the format requires (for GIF,
/// with a known version tag too).
pub open spec fn has_signature(f: Format, d: Seq<u8>) -> bool {
    match f {
        Format::Bmp => d[0] == 0x42 && d[1] == 0x4D,
        Format::Gif => d[0] == 0x47 && d[1] == 0x49 && d[2] == 0x46 && crate::gif::version_of(d) is Some,
        Format::Jpeg => be16(d, 0) == 0xFFD8,
        Format::Png => d.subrange(0, 8) == png_signature(),
        Format::Tiff => (d[0] == 0x4D && d[1] == 0x4D) || (d[0] == 0x49 && d[1] == 0x49),
    }
}

/// How many bytes the signature check reads.
pub open spec fn signature_len(f: Format) -> int {
    match f {
        Format::Bmp => 2,
        Format::Gif => 6,
        Format::Jpeg => 2,
        Format::Png => 8,
        Format::Tiff => 2,
    }
}

impl Format {
    pub open spec fn spec_content_type(self) -> Seq<char> {
        match self {
            Format::Bmp => "image/bmp"@,
            Format::Gif => "image/gif"@,
            Format::Jpeg => "image/jpeg"@,
            Format::Png => "image/png"@,
            Format::Tiff => "image/tiff"@,
        }
    }

    pub open spec fn spec_default_ext(self) -> Seq<char> {
        match self {
            Format::Bmp => "bmp"@,
            Format::Gif => "gif"@,
            Format::Jpeg => "jpeg"@,
            Format::Png => "png"@,
            Format::Tiff => "tiff"@,
        }
    }

    pub fn content_type(&self) -> (r: &'static str)
        ensures
            r@ == self.spec_content_type(),
    {
        match self {
            Format::Bmp => "image/bmp",
            Format::Gif => "image/gif",
            Format::Jpeg => "image/jpeg",
            Format::Png => "image/png",
            Format::Tiff => "image/tiff",
        }
    }

    pub fn default_ext(&self) -> (r: &'static str)
        ensures
            r@ == self.spec_default_ext(),
    {
        match self {
            Format::Bmp => "bmp",
            Format::Gif => "gif",
            Format::Jpeg => "jpeg",
            Format::Png => "png",
            Format::Tiff => "tiff",
        }
    }
}

/// Whether the bytes of `b` from `start` on spell `name`, which is in lower
/// case, without regard to ASCII case.
fn spells_at(b: &[u8], start: usize, name: &[u8]) -> (r: bool)
    requires
        start <= b@.len(),
    ensures
        r == spells(b@.subrange(start as int, b@.len() as int), name@),
{
    let ghost e = b@.subrange(start as int, b@.len() as int);
    let len = b.len();
    if len - start != name.len() {
        return false;
    }
    let mut i: usize = 0;
    while i < name.len()
        invariant
            len == b@.len(),
            start <= len,
            len - start == name@.len(),
            e == b@.subrange(start as int, b@.len() as int),
            e.len() == name@.len(),
            i <= name@.len(),
            forall|j: int| 0 <= j < i ==> ascii_lower(#[trigger] e[j]) == name@[j],
        decreases name@.len() - i,
    {
        let c = b[start + i];
        let lower = if 0x41 <= c && c <= 0x5A {
            c + 0x20
        } else {
            c
        };
        if lower != name[i] {
            assert(ascii_lower(e[i as int]) != name@[i as int]);
            return false;
        }
        i = i + 1;
    }
    true
}

impl Format {
    /// The format that a file name's extension names, if any.
    pub fn from_path(path: &str) -> (r: Option<Format>)
        ensures
            r == format_of_extension(extension_of(path.spec_bytes())),
    {
        let b = path.as_bytes();
        let mut n: usize = b.len();
        while n > 0 && b[n - 1] != 0x2E
            invariant
                n <= b@.len(),
                last_dot_before(b@, b@.len() as int) == last_dot_before(b@, n as int),
            decreases n,
        {
            n = n - 1;
        }
        let start = n;
        if spells_at(b, start, &[0x62, 0x6D, 0x70]) {
            Some(Format::Bmp)
        } else if spells_at(b, start, &[0x67, 0x69, 0x66]) {
            Some(Format::Gif)
        } else if spells_at(b, start, &[0x6A, 0x70, 0x65, 0x67]) || spells_at(b, start, &[0x6A, 0x70, 0x67]) {
            Some(Format::Jpeg)
        } else if spells_at(b, start, &[0x70, 0x6E, 0x67]) {
            Some(Format::Png)
        } else if spells_at(b, start, &[0x74, 0x69, 0x66, 0x66]) || spells_at(b, start, &[0x74, 0x69, 0x66]) {
            Some(Format::Tiff)
        } else {
            None
        }
    }
}

impl ImageType {
    pub open spec fn format(self) -> Format {
        match self {
            ImageType::Bmp(_) => Format::Bmp,
            ImageType::Gif(_) => Format::Gif,
            ImageType::Jpeg(_) => Format::Jpeg,
            ImageType::Png(_) => Format::Png,
            ImageType::Tiff(_) => Format::Tiff,
        }
    }

    pub open spec fn spec_dimensions(self) -> (u32, u32) {
        match self {
            ImageType::Bmp(b) => (b.width, b.height),
            ImageType::Gif(g) => (g.width as u32, g.height as u32),
            ImageType::Jpeg(j) => (j.width, j.height),
            ImageType::Png(p) => p.spec_dimension(),
            ImageType::Tiff(t) => (t.width, t.height),
        }
    }

    pub open spec fn spec_x_dpi(self) -> u32 {
        match self {
            ImageType::Bmp(b) => b.spec_x_dpi(),
            ImageType::Gif(_) => GIF_DPI,
            ImageType::Jpeg(j) => j.x_dpi,
            ImageType::Png(p) => p.spec_x_dpi(),
            ImageType::Tiff(t) => t.spec_x_dpi(),
        }
    }

    pub open spec fn spec_y_dpi(self) -> u32 {
        match self {
            ImageType::Bmp(b) => b.spec_y_dpi(),
            ImageType::Gif(_) => GIF_DPI,
            ImageType::Jpeg(j) => j.y_dpi,
            ImageType::Png(p) => p.spec_y_dpi(),
            ImageType::Tiff(t) => t.spec_y_dpi(),
        }
    }

    /// Width, height, x-DPI and y-DPI.
    pub open spec fn record(self) -> (u32, u32, u32, u32) {
        (self.spec_dimensions().0, self.spec_dimensions().1, self.spec_x_dpi(), self.spec_y_dpi())
    }

    /// The width in inches: pixels over DPI.
    pub open spec fn spec_width(self) -> Length {
        Length::Inches(self.spec_dimensions().0 as u64, self.spec_x_dpi() as u64)
    }

    /// The height in inches: pixels over DPI.
    pub open spec fn spec_height(self) -> Length {
        Length::Inches(self.spec_dimensions().1 as u64, self.spec_y_dpi() as u64)
    }

    /// Decodes a stream in the given format.
    pub fn decode(format: Format, d: &[u8]) -> (r: Result<ImageType, Error>)
        ensures
            r is Ok <==> spec_record(format, d@) is Ok,
            r is Err ==> r->Err_0 == spec_record(format, d@)->Err_0,
            r is Ok ==> r->Ok_0.format() == format && r->Ok_0.record() == spec_record(
                format,
                d@,
            )->Ok_0,
    {
        match format {
            Format::Bmp => Ok(ImageType::Bmp(Bmp::new(d)?)),
            Format::Gif => Ok(ImageType::Gif(Gif::new(d)?)),
            Format::Jpeg => Ok(ImageType::Jpeg(Jpeg::new(d)?)),
            Format::Png => Ok(ImageType::Png(Png::new(d)?)),
            Format::Tiff => Ok(ImageType::Tiff(Tiff::new(d)?)),
        }
    }

    pub fn format_of(&self) -> (r: Format)
        ensures
            r == self.format(),
    {
        match self {
            ImageType::Bmp(_) => Format::Bmp,
            ImageType::Gif(_) => Format::Gif,
            ImageType::Jpeg(_) => Format::Jpeg,
            ImageType::Png(_) => Format::Png,
            ImageType::Tiff(_) => Format::Tiff,
        }
    }

    pub fn content_type(&self) -> (r: &'static str)
        ensures
            r@ == self.format().spec_content_type(),
    {
        self.format_of().content_type()
    }

    pub fn default_ext(&self) -> (r: &'static str)
        ensures
            r@ == self.format().spec_default_ext(),
    {
        self.format_of().default_ext()
    }

    pub fn dimensions(&self) -> (r: (u32, u32))
        ensures
            r == self.spec_dimensions(),
    {
        match self {
            ImageType::Bmp(b) => b.dimension(),
            ImageType::Gif(g) => g.dimension(),
            ImageType::Jpeg(j) => j.dimension(),
            ImageType::Png(p) => p.dimension(),
            ImageType::Tiff(t) => t.dimension(),
        }
    }

    pub fn x_dpi(&self) -> (r: u32)
        ensures
            r == self.spec_x_dpi(),
    {
        match self {
            ImageType::Bmp(b) => b.x_dpi(),
            ImageType::Gif(g) => g.x_dpi(),
            ImageType::Jpeg(j) => j.x_dpi,
            ImageType::Png(p) => p.x_dpi(),
            ImageType::Tiff(t) => t.x_dpi(),
        }
    }

    pub fn y_dpi(&self) -> (r: u32)
        ensures
            r == self.spec_y_dpi(),
    {
        match self {
            ImageType::Bmp(b) => b.y_dpi(),
            ImageType::Gif(g) => g.y_dpi(),
            ImageType::Jpeg(j) => j.y_dpi,
            ImageType::Png(p) => p.y_dpi(),
            ImageType::Tiff(t) => t.y_dpi(),
        }
    }

    pub fn width(&self) -> (r: Length)
        ensures
            r == self.spec_width(),
    {
        Length::Inches(self.dimensions().0 as u64, self.x_dpi() as u64)
    }

    pub fn height(&self) -> (r: Length)
        ensures
            r == self.spec_height(),
    {
        Length::Inches(self.dimensions().1 as u64, self.y_dpi() as u64)
    }
}

/// Whether `r` is what a file with this name and content gives, given its
/// checksum.
pub open spec fn image_of(name: Seq<u8>, d: Seq<u8>, crc32: u32, r: Result<Image, Error>) -> bool {
    match format_of_extension(extension_of(name)) {
        None => r == Err::<Image, Error>(Error::UnsupportedExtension),
        Some(f) => match spec_record(f, d) {
            Err(e) => r == Err::<Image, Error>(e),
            Ok((w, h, x, y)) => r is Ok && {
                let i = r->Ok_0;
                &&& i.crc32 == crc32
                &&& i.dimensions == (w, h)
                &&& i.width == Length::Inches(w as u64, x as u64)
                &&& i.height == Length::Inches(h as u64, y as u64)
                &&& i.x_dpi == x
                &&& i.y_dpi == y
                &&& i.content_type@ == f.spec_content_type()
                &&& i.ext@ == f.spec_default_ext()
            },
        },
    }
}

impl Image {
    /// The record of a file, given its name, its content and its checksum.
    pub fn from_checked(path: &str, data: &[u8], crc32: u32) -> (r: Result<Image, Error>)
        ensures
            image_of(path.spec_bytes(), data@, crc32, r),
    {
        let format = match Format::from_path(path) {
            Some(f) => f,
            None => return Err(Error::UnsupportedExtension),
        };
        let t = ImageType::decode(format, data)?;
        let dimensions = t.dimensions();
        let width = t.width();
        let height = t.height();
        let x_dpi = t.x_dpi();
        let y_dpi = t.y_dpi();
        let content_type = t.content_type().to_owned();
        let ext = t.default_ext().to_owned();
        Ok(Image { crc32, dimensions, width, height, x_dpi, y_dpi, content_type, ext })
    }

    /// The record of a file, given its name and its content.
    pub fn from_bytes(path: &str, data: &[u8]) -> (r: Result<Image, Error>)
        ensures
            image_of(path.spec_bytes(), data@, crc32_of(data@), r),
    {
        let crc32 = checksum(data);
        Image::from_checked(path, data, crc32)
    }
}

} // verus!
