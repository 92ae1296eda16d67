use imagesize::bmp::{self, Bmp};
use imagesize::gif::{Gif, Type};
use imagesize::jpeg::{App0, Jpeg, Segment};
use imagesize::png::{Chunk, Png};
use imagesize::tiff::{EntryType, IfdEntry, TagType, Tiff};
use imagesize::{Error, Format, Image, ImageType, Length};

fn bmp_bytes(width: u32, height: u32, x_ppm: u32, y_ppm: u32) -> Vec<u8> {
    let mut d = vec![0u8; 0x36];
    d[0] = b'B';
    d[1] = b'M';
    d[0x12..0x16].copy_from_slice(&width.to_le_bytes());
    d[0x16..0x1A].copy_from_slice(&height.to_le_bytes());
    d[0x26..0x2A].copy_from_slice(&x_ppm.to_le_bytes());
    d[0x2A..0x2E].copy_from_slice(&y_ppm.to_le_bytes());
    d
}

fn gif_bytes(version: &[u8], width: u16, height: u16) -> Vec<u8> {
    let mut d = b"GIF".to_vec();
    d.extend_from_slice(version);
    d.extend_from_slice(&width.to_le_bytes());
    d.extend_from_slice(&height.to_le_bytes());
    d.extend_from_slice(&[0, 0, 0]);
    d
}

const PNG_SIG: [u8; 8] = [0x89, b'P', b'N', b'G', 0x0D, 0x0A, 0x1A, 0x0A];

fn png_chunk(tag: &[u8], payload: &[u8]) -> Vec<u8> {
    let mut c = (payload.len() as u32).to_be_bytes().to_vec();
    c.extend_from_slice(tag);
    c.extend_from_slice(payload);
    c.extend_from_slice(&[0xAA, 0xBB, 0xCC, 0xDD]);
    c
}

fn ihdr(width: u32, height: u32) -> Vec<u8> {
    let mut p = width.to_be_bytes().to_vec();
    p.extend_from_slice(&height.to_be_bytes());
    p.extend_from_slice(&[8, 2, 0, 0, 0]);
    png_chunk(b"IHDR", &p)
}

fn phys(x: u32, y: u32, unit: u8) -> Vec<u8> {
    let mut p = x.to_be_bytes().to_vec();
    p.extend_from_slice(&y.to_be_bytes());
    p.push(unit);
    png_chunk(b"pHYs", &p)
}

fn app0(units: u8, x: u16, y: u16) -> Vec<u8> {
    let mut s = vec![0xFF, 0xE0, 0x00, 0x10];
    s.extend_from_slice(b"JFIF\0");
    s.extend_from_slice(&[1, 1, units]);
    s.extend_from_slice(&x.to_be_bytes());
    s.extend_from_slice(&y.to_be_bytes());
    s.extend_from_slice(&[0, 0]);
    s
}

fn sof0(width: u16, height: u16) -> Vec<u8> {
    let mut s = vec![0xFF, 0xC0, 0x00, 0x11, 8];
    s.extend_from_slice(&height.to_be_bytes());
    s.extend_from_slice(&width.to_be_bytes());
    s.extend_from_slice(&[3, 1, 0x22, 0, 2, 0x11, 1, 3, 0x11, 1]);
    s
}

fn sos() -> Vec<u8> {
    vec![0xFF, 0xDA, 0x00, 0x0C, 3, 1, 0, 2, 0x11, 3, 0x11, 0, 0x3F, 0]
}

/// A TIFF stream with one directory at offset 8; entries are
/// (tag, type, count, value field) and the value field is written as a u32.
fn tiff_bytes(little: bool, entries: &[(u16, u16, u32, u32)]) -> Vec<u8> {
    let w16 = |v: u16| if little { v.to_le_bytes() } else { v.to_be_bytes() };
    let w32 = |v: u32| if little { v.to_le_bytes() } else { v.to_be_bytes() };
    let mut d = if little { b"II".to_vec() } else { b"MM".to_vec() };
    d.extend_from_slice(&w16(42));
    d.extend_from_slice(&w32(8));
    d.extend_from_slice(&w16(entries.len() as u16));
    for &(tag, ty, count, value) in entries {
        d.extend_from_slice(&w16(tag));
        d.extend_from_slice(&w16(ty));
        d.extend_from_slice(&w32(count));
        d.extend_from_slice(&w32(value));
    }
    d.extend_from_slice(&w32(0));
    d
}

/// An inline Short value as it sits in the 4-byte field: first of the pair.
fn short_field(little: bool, v: u16) -> u32 {
    if little {
        v as u32
    } else {
        (v as u32) << 16
    }
}

fn jpeg_bytes(segments: &[Vec<u8>]) -> Vec<u8> {
    let mut d = vec![0xFF, 0xD8];
    for s in segments {
        d.extend_from_slice(s);
    }
    d
}

fn app1(tiff: &[u8]) -> Vec<u8> {
    let mut s = vec![0xFF, 0xE1];
    s.extend_from_slice(&((tiff.len() + 8) as u16).to_be_bytes());
    s.extend_from_slice(b"Exif\0\0");
    s.extend_from_slice(tiff);
    s
}

#[test]
fn test_bmp() {
    let d = bmp_bytes(100, 50, 3780, 3780);
    let img = Image::from_bytes("tests/images/bmp.bmp", &d).unwrap();
    assert_eq!(img.dimensions, (100, 50));
    assert_eq!((img.x_dpi, img.y_dpi), (96, 96));
    assert_eq!(img.content_type, "image/bmp");
    assert_eq!(img.ext, "bmp");
    println!("{:?}", img);
}

#[test]
fn test_gif() {
    let d = gif_bytes(b"89a", 10, 20);
    let img = Image::from_bytes("tests/images/gif.gif", &d).unwrap();
    assert_eq!(img.dimensions, (10, 20));
    assert_eq!((img.x_dpi, img.y_dpi), (72, 72));
    assert_eq!(img.content_type, "image/gif");
    println!("{:?}", img);
}

#[test]
fn test_png() {
    let mut d = PNG_SIG.to_vec();
    d.extend(ihdr(200, 100));
    d.extend(phys(3937, 3937, 1));
    d.extend(png_chunk(b"IEND", &[]));
    let img = Image::from_bytes("tests/images/png.png", &d).unwrap();
    assert_eq!(img.dimensions, (200, 100));
    assert_eq!((img.x_dpi, img.y_dpi), (999, 999));
    assert_eq!(img.ext, "png");
    println!("{:?}", img);
}

#[test]
fn test_jpeg() {
    let d = jpeg_bytes(&[app0(1, 300, 300), sof0(640, 480), sos()]);
    let img = Image::from_bytes("tests/images/jpeg.jpg", &d).unwrap();
    assert_eq!(img.dimensions, (640, 480));
    assert_eq!((img.x_dpi, img.y_dpi), (300, 300));
    assert_eq!(img.content_type, "image/jpeg");
    assert_eq!(img.ext, "jpeg");
    println!("{:?}", img);
}

#[test]
fn length_inches_and_points_truncate() {
    assert_eq!(Length::Inches(1, 1).value(), 914400);
    assert_eq!(Length::Pt(1, 1).value(), 12700);
    assert_eq!(Length::Cm(1, 1).value(), 360000);
    assert_eq!(Length::Mm(1, 1).value(), 36000);
    assert_eq!(Length::Twips(1, 1).value(), 635);
    assert_eq!(Length::Emu(7, 2).value(), 3);
    assert_eq!(Length::Inches(1, 3).value(), 304800);
    assert_eq!(Length::Pt(2, 3).value(), 8466);
}

#[test]
fn length_default_and_edges() {
    assert_eq!(Length::default(), Length::Emu(0, 1));
    assert_eq!(Length::default().value(), 0);
    assert_eq!(Length::Inches(0, 0).value(), 0);
    assert_eq!(Length::Inches(5, 0).value(), u32::MAX);
    assert_eq!(Length::Inches(1_000_000, 1).value(), u32::MAX);
}

#[test]
fn bmp_zero_ppm_defaults_to_96() {
    let b = Bmp::new(&bmp_bytes(100, 50, 0, 0)).unwrap();
    assert_eq!(b.dimension(), (100, 50));
    assert_eq!((b.x_dpi(), b.y_dpi()), (96, 96));
}

#[test]
fn bmp_ppm_2835_rounds_to_72() {
    let b = Bmp::new(&bmp_bytes(1, 1, 2835, 3780)).unwrap();
    assert_eq!(b.x_dpi(), 72);
    assert_eq!(b.y_dpi(), 96);
    assert_eq!(bmp::dpi(2854), 72);
    assert_eq!(bmp::dpi(2855), 73);
}

#[test]
fn bmp_errors() {
    let mut d = bmp_bytes(1, 1, 0, 0);
    assert_eq!(Bmp::new(&d[..0x2D]).unwrap_err(), Error::Truncated);
    assert_eq!(Bmp::new(&d[..1]).unwrap_err(), Error::Truncated);
    d[1] = b'X';
    assert_eq!(Bmp::new(&d).unwrap_err(), Error::FormatMismatch);
}

#[test]
fn gif_versions() {
    let g = Gif::new(&gif_bytes(b"87a", 300, 2)).unwrap();
    assert_eq!(g.version, Type::Gif87a);
    assert_eq!(g.dimension(), (300, 2));
    let g = Gif::new(&gif_bytes(b"89a", 1, 1)).unwrap();
    assert_eq!(g.version, Type::Gif89a);
    assert_eq!((g.x_dpi(), g.y_dpi()), (72, 72));
    assert_eq!(Gif::new(&gif_bytes(b"90a", 1, 1)).unwrap_err(), Error::FormatMismatch);
    assert_eq!(Gif::new(b"GIF89a\x01").unwrap_err(), Error::Truncated);
}

#[test]
fn png_without_phys_defaults_to_72() {
    let mut d = PNG_SIG.to_vec();
    d.extend(ihdr(200, 100));
    d.extend(png_chunk(b"IEND", &[]));
    let p = Png::new(&d).unwrap();
    assert_eq!(p.dimension(), (200, 100));
    assert_eq!((p.x_dpi(), p.y_dpi()), (72, 72));
    assert_eq!(p.chunks.len(), 2);
    assert!(matches!(p.chunks[1], Chunk::IEND(_)));
}

#[test]
fn png_phys_in_metres_truncates() {
    let mut d = PNG_SIG.to_vec();
    d.extend(ihdr(200, 100));
    d.extend(phys(3937, 3937, 1));
    let p = Png::new(&d).unwrap();
    assert_eq!((p.x_dpi(), p.y_dpi()), (999, 999));
    let mut d = PNG_SIG.to_vec();
    d.extend(phys(3937, 2835, 0));
    let p = Png::new(&d).unwrap();
    assert_eq!((p.x_dpi(), p.y_dpi()), (72, 72));
    assert_eq!(p.dimension(), (0, 0));
}

#[test]
fn png_last_chunk_wins_and_partial_tail_is_ignored() {
    let mut d = PNG_SIG.to_vec();
    d.extend(ihdr(1, 2));
    d.extend(png_chunk(b"tEXt", b"hello"));
    d.extend(ihdr(3, 4));
    d.extend_from_slice(&[0, 0, 0, 9, b'p']);
    let p = Png::new(&d).unwrap();
    assert_eq!(p.dimension(), (3, 4));
    assert_eq!(p.chunks.len(), 3);
    assert!(matches!(p.chunks[1], Chunk::Other(_)));
}

#[test]
fn png_bad_signature() {
    let mut d = PNG_SIG.to_vec();
    d[1] = b'Q';
    d.extend(ihdr(1, 1));
    assert_eq!(Png::new(&d).unwrap_err(), Error::FormatMismatch);
    assert_eq!(Png::new(&PNG_SIG[..5]).unwrap_err(), Error::Truncated);
}

#[test]
fn jpeg_app0_then_sof_then_sos() {
    let d = jpeg_bytes(&[app0(1, 300, 300), sof0(640, 480), sos(), vec![1, 2, 3]]);
    let j = Jpeg::new(&d).unwrap();
    assert_eq!(j.dimension(), (640, 480));
    assert_eq!((j.x_dpi, j.y_dpi), (300, 300));
    assert_eq!(j.segments.len(), 4);
    assert!(j.segments[3].is_sos());
    assert!(!j.segments[0].is_sos());
}

#[test]
fn jpeg_app0_units() {
    let d = jpeg_bytes(&[app0(2, 100, 3), sos()]);
    let j = Jpeg::new(&d).unwrap();
    assert_eq!((j.x_dpi, j.y_dpi), (254, 8));
    let d = jpeg_bytes(&[app0(0, 100, 3), sos()]);
    let j = Jpeg::new(&d).unwrap();
    assert_eq!((j.x_dpi, j.y_dpi), (72, 72));
    let a = App0 {
        length: 16,
        version_major: 1,
        version_minor: 1,
        units: 2,
        x_density: 1,
        y_density: 2,
        thumbnail_x_size: 0,
        thumbnail_y_size: 0,
    };
    assert_eq!((a.x_dpi(), a.y_dpi()), (3, 5));
}

#[test]
fn jpeg_without_resolution_defaults_to_72() {
    let d = jpeg_bytes(&[sof0(10, 20), sos()]);
    let j = Jpeg::new(&d).unwrap();
    assert_eq!((j.width, j.height, j.x_dpi, j.y_dpi), (10, 20, 72, 72));
}

#[test]
fn jpeg_app1_uses_x_resolution_on_both_axes() {
    let t = tiff_bytes(
        true,
        &[(0x011A, 3, 1, short_field(true, 300)), (0x011B, 3, 1, short_field(true, 150)), (0x0128, 3, 1, 2)],
    );
    let d = jpeg_bytes(&[app1(&t), sof0(8, 9), sos()]);
    let j = Jpeg::new(&d).unwrap();
    assert_eq!((j.x_dpi, j.y_dpi), (300, 300));
    match &j.segments[1] {
        Segment::App1(a) => assert_eq!(a.tiff().unwrap().x_resolution, 300),
        _ => panic!("expected an APP1 segment"),
    }
}

#[test]
fn jpeg_app0_takes_precedence_over_app1() {
    let t = tiff_bytes(true, &[(0x011A, 3, 1, 600), (0x0128, 3, 1, 2)]);
    let d = jpeg_bytes(&[app0(1, 96, 96), app1(&t), sos()]);
    let j = Jpeg::new(&d).unwrap();
    assert_eq!((j.x_dpi, j.y_dpi), (96, 96));
}

#[test]
fn jpeg_errors() {
    let t = b"XX\x2a\x00\x08\x00\x00\x00".to_vec();
    let d = jpeg_bytes(&[app1(&t), sos()]);
    assert_eq!(Jpeg::new(&d).unwrap_err(), Error::FormatMismatch);
    let d = jpeg_bytes(&[sof0(10, 20)]);
    assert_eq!(Jpeg::new(&d).unwrap_err(), Error::Truncated);
    let d = jpeg_bytes(&[vec![0xFF, 0xFE, 0x00, 0x01], sos()]);
    assert_eq!(Jpeg::new(&d).unwrap_err(), Error::ParseError);
    assert_eq!(Jpeg::new(&[0xFF, 0xD9, 0xFF, 0xDA]).unwrap_err(), Error::FormatMismatch);
}

#[test]
fn jpeg_other_segments_are_skipped() {
    let comment = vec![0xFF, 0xFE, 0x00, 0x05, b'a', b'b', b'c'];
    let xmp = vec![0xFF, 0xE1, 0x00, 0x04, 0, 0];
    let d = jpeg_bytes(&[comment, xmp, sof0(5, 6), sos()]);
    let j = Jpeg::new(&d).unwrap();
    assert_eq!(j.dimension(), (5, 6));
    assert!(matches!(j.segments[2], Segment::Other(_)));
}

#[test]
fn tiff_inches_inline_short() {
    for little in [true, false] {
        let d = tiff_bytes(
            little,
            &[
                (0x0100, 3, 1, short_field(little, 640)),
                (0x0101, 4, 1, short_field(little, 480)),
                (0x011A, 3, 1, short_field(little, 150)),
                (0x0128, 3, 1, short_field(little, 2)),
            ],
        );
        let t = Tiff::new(&d).unwrap();
        assert_eq!(t.dimension(), (640, 480));
        assert_eq!(t.x_dpi(), 150);
    }
}

#[test]
fn tiff_units() {
    let d = tiff_bytes(true, &[(0x011A, 3, 1, 300), (0x011B, 3, 1, 10), (0x0128, 3, 1, 1)]);
    let t = Tiff::new(&d).unwrap();
    assert_eq!((t.x_dpi(), t.y_dpi()), (72, 72));
    let d = tiff_bytes(true, &[(0x011A, 3, 1, 300), (0x011B, 3, 1, 10), (0x0128, 3, 1, 3)]);
    let t = Tiff::new(&d).unwrap();
    assert_eq!((t.x_dpi(), t.y_dpi()), (762, 25));
}

#[test]
fn tiff_offset_values_are_raw() {
    let d = tiff_bytes(false, &[(0x011A, 5, 1, 0x1234), (0x0100, 3, 2, 0x5678), (0x0101, 4, 1, 0x0001_0002)]);
    let t = Tiff::new(&d).unwrap();
    assert_eq!(t.x_resolution, 0x1234);
    assert_eq!(t.width, 0x5678);
    assert_eq!(t.height, 1);
}

#[test]
fn ifd_entry_read_value() {
    let inline = IfdEntry {
        tag: TagType::XResolution,
        data_type: EntryType::Short,
        data_count: 1,
        data_value: (150, 0),
        data_offset: 0,
    };
    assert_eq!(inline.read_value(), 150);
    let offset = IfdEntry {
        tag: TagType::Other(7),
        data_type: EntryType::Rational,
        data_count: 1,
        data_value: (0, 0),
        data_offset: 99,
    };
    assert_eq!(offset.read_value(), 99);
    let d = tiff_bytes(true, &[(0x011B, 4, 1, 0x0003_0005)]);
    let e = IfdEntry::parse(&d, 10, true);
    assert_eq!(e.tag, TagType::YResolution);
    assert_eq!(e.data_type, EntryType::Long);
    assert_eq!(e.data_value, (5, 3));
    assert_eq!(e.read_value(), 5);
}

#[test]
fn tiff_errors() {
    assert_eq!(Tiff::new(b"XY\x2a\x00\x08\x00\x00\x00").unwrap_err(), Error::FormatMismatch);
    let d = tiff_bytes(true, &[(0x011A, 3, 1, 300)]);
    assert_eq!(Tiff::new(&d[..d.len() - 1]).unwrap_err(), Error::Truncated);
    assert_eq!(Tiff::new(b"II\x2a").unwrap_err(), Error::Truncated);
}

#[test]
fn size_round_trip_in_inches() {
    let b = ImageType::decode(Format::Bmp, &bmp_bytes(300, 150, 3780, 3780)).unwrap();
    assert_eq!(b.width(), Length::Inches(300, 96));
    assert_eq!(b.width().value(), 2857500);
    assert_eq!(b.height().value(), 1428750);
    let mut d = PNG_SIG.to_vec();
    d.extend(ihdr(100, 7));
    let p = ImageType::decode(Format::Png, &d).unwrap();
    assert_eq!(p.width().value(), 1270000);
    assert_eq!(p.height().value(), 7 * 914400 / 72);
}

#[test]
fn bad_signature_for_every_format() {
    let junk = vec![0x00u8; 64];
    for f in [Format::Bmp, Format::Gif, Format::Jpeg, Format::Png, Format::Tiff] {
        assert_eq!(ImageType::decode(f, &junk).unwrap_err(), Error::FormatMismatch);
    }
}

#[test]
fn image_type_tables() {
    let g = ImageType::decode(Format::Gif, &gif_bytes(b"89a", 4, 5)).unwrap();
    assert_eq!(g.content_type(), "image/gif");
    assert_eq!(g.default_ext(), "gif");
    assert_eq!(g.dimensions(), (4, 5));
    assert_eq!((g.x_dpi(), g.y_dpi()), (72, 72));
    let t = ImageType::decode(Format::Tiff, &tiff_bytes(true, &[])).unwrap();
    assert_eq!(t.content_type(), "image/tiff");
    assert_eq!(t.default_ext(), "tiff");
}

#[test]
fn extension_dispatch() {
    assert_eq!(Format::from_path("a/b.JPG"), Some(Format::Jpeg));
    assert_eq!(Format::from_path("x.y.tif"), Some(Format::Tiff));
    assert_eq!(Format::from_path("photo.Jpeg"), Some(Format::Jpeg));
    assert_eq!(Format::from_path("png"), Some(Format::Png));
    assert_eq!(Format::from_path("a.webp"), None);
    assert_eq!(Format::from_path("a.bmp."), None);
    let d = gif_bytes(b"89a", 1, 1);
    assert_eq!(Image::from_bytes("a.webp", &d).unwrap_err(), Error::UnsupportedExtension);
}

#[test]
fn image_checksum() {
    let d = gif_bytes(b"89a", 10, 20);
    let img = Image::from_bytes("x.GIF", &d).unwrap();
    assert_eq!(img.crc32, 0x885af5d0);
    assert_eq!(img.width, Length::Inches(10, 72));
    let img = Image::from_checked("x.gif", &d, 7).unwrap();
    assert_eq!(img.crc32, 7);
}
