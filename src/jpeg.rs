//! JPEG: marker segments in file order, up to and including the start of
//! scan.
use crate::bytes::{be16, read_be16};
use crate::error::Error;
use crate::tiff::{spec_tiff, Tiff};
use vstd::prelude::*;

verus! {

pub const SOI_MARKER: u16 = 0xFFD8;

pub const EOI_MARKER: u16 = 0xFFD9;

pub const APP0_MARKER: u16 = 0xFFE0;

pub const APP1_MARKER: u16 = 0xFFE1;

pub const SOS_MARKER: u16 = 0xFFDA;

/// Resolution default when the stream has neither APP0 nor APP1.
pub const DEFAULT_DPI: u32 = 72;

/// The JFIF resolution block.
#[derive(Debug, Clone, Copy, PartialEq, Eq, Structural)]
pub struct App0 {
    pub length: u16,
    pub version_major: u8,
    pub version_minor: u8,
    pub units: u8,
    pub x_density: u16,
    pub y_density: u16,
    pub thumbnail_x_size: u8,
    pub thumbnail_y_size: u8,
}

/// An Exif block; `data` is the embedded TIFF stream.
#[derive(Debug)]
pub struct App1 {
    pub length: u16,
    pub data: Vec<u8>,
}

/// Start of scan. The component selectors are skipped.
#[derive(Debug, Clone, Copy, PartialEq, Eq, Structural)]
pub struct Sos {
    pub length: u16,
    pub num_components: u8,
    pub spectral_selection: u8,
    pub successive_high: u8,
    pub successive_low: u8,
}

/// Start of frame. The component descriptions are skipped.
#[derive(Debug, Clone, Copy, PartialEq, Eq, Structural)]
pub struct Sof {
    pub marker: u16,
    pub length: u16,
    pub precision: u8,
    pub height: u16,
    pub width: u16,
    pub num_components: u8,
}

/// Any other segment; its payload is skipped.
#[derive(Debug, Clone, Copy, PartialEq, Eq, Structural)]
pub struct OtherSegment {
    pub marker: u16,
    pub length: u16,
}

#[derive(Debug)]
pub enum Segment {
    SOI,
    App0(App0),
    App1(App1),
    EOI,
    SOS(Sos),
    SOF(Sof),
    Other(OtherSegment),
}

/// A segment with the APP1 payload seen as a sequence.
pub enum SegmentView {
    SOI,
    App0(App0),
    App1(u16, Seq<u8>),
    EOI,
    SOS(Sos),
    SOF(Sof),
    Other(OtherSegment),
}

impl View for Segment {
    type V = SegmentView;

    open spec fn view(&self) -> SegmentView {
        match self {
            Segment::SOI => SegmentView::SOI,
            Segment::App0(a) => SegmentView::App0(*a),
            Segment::App1(a) => SegmentView::App1(a.length, a.data@),
            Segment::EOI => SegmentView::EOI,
            Segment::SOS(s) => SegmentView::SOS(*s),
            Segment::SOF(s) => SegmentView::SOF(*s),
            Segment::Other(o) => SegmentView::Other(*o),
        }
    }
}

#[derive(Debug)]
pub struct Jpeg {
    pub width: u32,
    pub height: u32,
    pub x_dpi: u32,
    pub y_dpi: u32,
    pub segments: Vec<Segment>,
}

/// The start-of-frame markers: 0xFFC0 to 0xFFCF but for 0xFFC4, 0xFFC8 and
/// 0xFFCC.
pub open spec fn is_sof_marker(m: u16) -> bool {
    0xFFC0 <= m <= 0xFFCF && m != 0xFFC4 && m != 0xFFC8 && m != 0xFFCC
}

/// Whether "Exif\0\0" stands at `i`.
pub open spec fn exif_at(d: Seq<u8>, i: int) -> bool {
    i + 6 <= d.len() && d.subrange(i, i + 6) == seq![0x45u8, 0x78, 0x69, 0x66, 0, 0]
}

/// The segment whose marker starts at `pos`, and where it ends.
pub open spec fn segment_at(d: Seq<u8>, pos: int) -> Result<(SegmentView, int), Error> {
    let p = pos + 2;
    if p > d.len() {
        Err(Error::Truncated)
    } else {
        let m = be16(d, pos) as u16;
        if m == SOI_MARKER {
            Ok((SegmentView::SOI, p))
        } else if m == EOI_MARKER {
            Ok((SegmentView::EOI, p))
        } else if m == APP0_MARKER {
            if p + 16 > d.len() {
                Err(Error::Truncated)
            } else {
                let end = p + 16 + d[p + 14] as int * d[p + 15] as int * 3;
                if end > d.len() {
                    Err(Error::Truncated)
                } else {
                    Ok(
                        (
                            SegmentView::App0(
                                App0 {
                                    length: be16(d, p) as u16,
                                    version_major: d[p + 7],
                                    version_minor: d[p + 8],
                                    units: d[p + 9],
                                    x_density: be16(d, p + 10) as u16,
                                    y_density: be16(d, p + 12) as u16,
                                    thumbnail_x_size: d[p + 14],
                                    thumbnail_y_size: d[p + 15],
                                },
                            ),
                            end,
                        ),
                    )
                }
            }
        } else if m == SOS_MARKER {
            if p + 3 > d.len() {
                Err(Error::Truncated)
            } else {
                let n = d[p + 2] as int;
                let end = p + 3 + 2 * n + 3;
                if end > d.len() {
                    Err(Error::Truncated)
                } else {
                    Ok(
                        (
                            SegmentView::SOS(
                                Sos {
                                    length: be16(d, p) as u16,
                                    num_components: d[p + 2],
                                    spectral_selection: d[p + 3 + 2 * n],
                                    successive_high: d[p + 4 + 2 * n],
                                    successive_low: d[p + 5 + 2 * n],
                                },
                            ),
                            end,
                        ),
                    )
                }
            }
        } else if is_sof_marker(m) {
            if p + 8 > d.len() {
                Err(Error::Truncated)
            } else {
                let end = p + 8 + 3 * d[p + 7] as int;
                if end > d.len() {
                    Err(Error::Truncated)
                } else {
                    Ok(
                        (
                            SegmentView::SOF(
                                Sof {
                                    marker: m,
                                    length: be16(d, p) as u16,
                                    precision: d[p + 2],
                                    height: be16(d, p + 3) as u16,
                                    width: be16(d, p + 5) as u16,
                                    num_components: d[p + 7],
                                },
                            ),
                            end,
                        ),
                    )
                }
            }
        } else if p + 2 > d.len() {
            Err(Error::Truncated)
        } else {
            let l = be16(d, p);
            if m == APP1_MARKER && l >= 8 && p + l <= d.len() && exif_at(d, p + 2) {
                Ok((SegmentView::App1(l as u16, d.subrange(p + 8, p + l)), p + l))
            } else if l < 2 {
                Err(Error::ParseError)
            } else if p + l > d.len() {
                Err(Error::Truncated)
            } else {
                Ok((SegmentView::Other(OtherSegment { marker: m, length: l as u16 }), p + l))
            }
        }
    }
}

/// Puts `pre` in front of a successful scan.
pub open spec fn prepend(pre: Seq<SegmentView>, r: Result<Seq<SegmentView>, Error>) -> Result<
    Seq<SegmentView>,
    Error,
> {
    match r {
        Ok(s) => Ok(pre + s),
        Err(e) => Err(e),
    }
}

/// The segments from `pos` up to and including the first start of scan.
pub open spec fn scan_from(d: Seq<u8>, pos: int) -> Result<Seq<SegmentView>, Error>
    decreases d.len() - pos,
{
    match segment_at(d, pos) {
        Err(e) => Err(e),
        Ok((s, next)) => if s is SOS {
            Ok(seq![s])
        } else if pos < next <= d.len() {
            prepend(seq![s], scan_from(d, next))
        } else {
            Err(Error::ParseError)
        },
    }
}

/// The segments of a JPEG stream, which must open with a start of image.
pub open spec fn spec_segments(d: Seq<u8>) -> Result<Seq<SegmentView>, Error> {
    if d.len() < 2 {
        Err(Error::Truncated)
    } else if be16(d, 0) != SOI_MARKER as int {
        Err(Error::FormatMismatch)
    } else {
        scan_from(d, 0)
    }
}

/// DPI for a JFIF density: as is in inches (unit 1), times 2.54 rounded in
/// centimetres (unit 2), 72 otherwise.
pub open spec fn app0_dpi(units: u8, density: u32) -> u32 {
    if units == 1 {
        density
    } else if units == 2 {
        ((density as int * 254 + 50) / 100) as u32
    } else {
        DEFAULT_DPI
    }
}

/// What the segments read so far give: the last frame size, and the
/// resolution of the last APP0 and of the last APP1.
pub struct Summary {
    pub width: u32,
    pub height: u32,
    pub app0: Option<(u32, u32)>,
    pub app1: Option<(u32, u32)>,
}

pub open spec fn apply_segment(s: Summary, g: SegmentView) -> Result<Summary, Error> {
    match g {
        SegmentView::App0(a) => Ok(
            Summary {
                app0: Some(
                    (app0_dpi(a.units, a.x_density as u32), app0_dpi(a.units, a.y_density as u32)),
                ),
                ..s
            },
        ),
        SegmentView::App1(_, data) => match spec_tiff(data) {
            Ok(t) => Ok(Summary { app1: Some((t.spec_x_dpi(), t.spec_x_dpi())), ..s }),
            Err(e) => Err(e),
        },
        SegmentView::SOF(f) => Ok(Summary { width: f.width as u32, height: f.height as u32, ..s }),
        _ => Ok(s),
    }
}

/// The summary of a run of segments read in order; the first APP1 whose
/// TIFF stream fails makes the whole run fail.
pub open spec fn summary_of(gs: Seq<SegmentView>) -> Result<Summary, Error>
    decreases gs.len(),
{
    if gs.len() == 0 {
        Ok(Summary { width: 0, height: 0, app0: None, app1: None })
    } else {
        match summary_of(gs.drop_last()) {
            Err(e) => Err(e),
            Ok(s) => apply_segment(s, gs.last()),
        }
    }
}

/// The resolution a summary reports: APP0's if there is one, else APP1's,
/// else 72 on both axes.
pub open spec fn summary_dpi(s: Summary) -> (u32, u32) {
    match s.app0 {
        Some(r) => r,
        None => match s.app1 {
            Some(r) => r,
            None => (DEFAULT_DPI, DEFAULT_DPI),
        },
    }
}

/// What a JPEG stream decodes to: width, height, x-DPI and y-DPI.
pub open spec fn spec_jpeg(d: Seq<u8>) -> Result<(u32, u32, u32, u32), Error> {
    match spec_segments(d) {
        Err(e) => Err(e),
        Ok(gs) => match summary_of(gs) {
            Err(e) => Err(e),
            Ok(s) => Ok((s.width, s.height, summary_dpi(s).0, summary_dpi(s).1)),
        },
    }
}

impl Segment {
    pub fn is_sos(&self) -> (r: bool)
        ensures
            r == (self@ is SOS),
    {
        match self {
            Segment::SOS(_) => true,
            _ => false,
        }
    }

    /// Reads the segment whose marker starts at `pos`.
    pub fn parse(d: &[u8], pos: usize) -> (r: Result<(Segment, usize), Error>)
        ensures
            r is Ok <==> segment_at(d@, pos as int) is Ok,
            r is Err ==> r->Err_0 == segment_at(d@, pos as int)->Err_0,
            r is Ok ==> r->Ok_0.0@ == segment_at(d@, pos as int)->Ok_0.0 && r->Ok_0.1
                == segment_at(d@, pos as int)->Ok_0.1,
            r is Ok ==> pos + 2 <= r->Ok_0.1 <= d@.len(),
    {
        let len = d.len();
        if pos > len || len - pos < 2 {
            return Err(Error::Truncated);
        }
        let m = read_be16(d, pos);
        let p = pos + 2;
        if m == SOI_MARKER {
            Ok((Segment::SOI, p))
        } else if m == EOI_MARKER {
            Ok((Segment::EOI, p))
        } else if m == APP0_MARKER {
            if len - p < 16 {
                return Err(Error::Truncated);
            }
            let tx = d[p + 14];
            let ty = d[p + 15];
            assert((tx as int) * (ty as int) * 3 <= 255 * 255 * 3) by (nonlinear_arith)
                requires
                    tx <= 255,
                    ty <= 255,
            ;
            let thumb: usize = (tx as usize) * (ty as usize) * 3;
            if len - p - 16 < thumb {
                return Err(Error::Truncated);
            }
            let a = App0 {
                length: read_be16(d, p),
                version_major: d[p + 7],
                version_minor: d[p + 8],
                units: d[p + 9],
                x_density: read_be16(d, p + 10),
                y_density: read_be16(d, p + 12),
                thumbnail_x_size: tx,
                thumbnail_y_size: ty,
            };
            Ok((Segment::App0(a), p + 16 + thumb))
        } else if m == SOS_MARKER {
            if len - p < 3 {
                return Err(Error::Truncated);
            }
            let n = d[p + 2] as usize;
            if len - p - 3 < 2 * n + 3 {
                return Err(Error::Truncated);
            }
            let s = Sos {
                length: read_be16(d, p),
                num_components: d[p + 2],
                spectral_selection: d[p + 3 + 2 * n],
                successive_high: d[p + 4 + 2 * n],
                successive_low: d[p + 5 + 2 * n],
            };
            Ok((Segment::SOS(s), p + 3 + 2 * n + 3))
        } else if 0xFFC0 <= m && m <= 0xFFCF && m != 0xFFC4 && m != 0xFFC8 && m != 0xFFCC {
            if len - p < 8 {
                return Err(Error::Truncated);
            }
            let n = d[p + 7] as usize;
            if len - p - 8 < 3 * n {
                return Err(Error::Truncated);
            }
            let f = Sof {
                marker: m,
                length: read_be16(d, p),
                precision: d[p + 2],
                height: read_be16(d, p + 3),
                width: read_be16(d, p + 5),
                num_components: d[p + 7],
            };
            Ok((Segment::SOF(f), p + 8 + 3 * n))
        } else {
            if len - p < 2 {
                return Err(Error::Truncated);
            }
            let l = read_be16(d, p);
            let lu = l as usize;
            if m == APP1_MARKER && l >= 8 && lu <= len - p && d[p + 2] == 0x45 && d[p + 3] == 0x78
                && d[p + 4] == 0x69 && d[p + 5] == 0x66 && d[p + 6] == 0 && d[p + 7] == 0 {
                assert(d@.subrange(p + 2, p + 8) =~= seq![0x45u8, 0x78, 0x69, 0x66, 0, 0]);
                let mut data: Vec<u8> = Vec::new();
                let mut i: usize = p + 8;
                while i < p + lu
                    invariant
                        len == d@.len(),
                        p + 8 <= i <= p + lu <= len,
                        data@ =~= d@.subrange(p + 8, i as int),
                    decreases p + lu - i,
                {
                    data.push(d[i]);
                    i = i + 1;
                }
                return Ok((Segment::App1(App1 { length: l, data }), p + lu));
            }
            if m == APP1_MARKER && l >= 8 && lu <= len - p {
                assert(!exif_at(d@, p + 2)) by {
                    if exif_at(d@, p + 2) {
                        let s = d@.subrange(p + 2, p + 8);
                        assert(s[0] == d@[p + 2] && s[1] == d@[p + 3] && s[2] == d@[p + 4]);
                        assert(s[3] == d@[p + 5] && s[4] == d@[p + 6] && s[5] == d@[p + 7]);
                    }
                }
            }
            if l < 2 {
                return Err(Error::ParseError);
            }
            if lu > len - p {
                return Err(Error::Truncated);
            }
            Ok((Segment::Other(OtherSegment { marker: m, length: l }), p + lu))
        }
    }
}

/// Once a prefix of the segments fails, the whole run fails the same way.
proof fn lemma_summary_error_persists(gs: Seq<SegmentView>, k: int)
    requires
        0 <= k <= gs.len(),
        summary_of(gs.subrange(0, k)) is Err,
    ensures
        summary_of(gs) == summary_of(gs.subrange(0, k)),
    decreases gs.len() - k,
{
    if k < gs.len() {
        assert(gs.subrange(0, k + 1).drop_last() =~= gs.subrange(0, k));
        lemma_summary_error_persists(gs, k + 1);
    } else {
        assert(gs.subrange(0, k) =~= gs);
    }
}

impl Jpeg {
    /// Reads the segments up to the start of scan, then takes the size from
    /// the last frame header and the resolution from APP0, else from APP1.
    pub fn new(d: &[u8]) -> (r: Result<Jpeg, Error>)
        ensures
            r is Ok <==> spec_jpeg(d@) is Ok,
            r is Err ==> r->Err_0 == spec_jpeg(d@)->Err_0,
            r is Ok ==> (r->Ok_0.width, r->Ok_0.height, r->Ok_0.x_dpi, r->Ok_0.y_dpi)
                == spec_jpeg(d@)->Ok_0,
            r is Ok ==> {
                let gs = spec_segments(d@)->Ok_0;
                &&& r->Ok_0.segments@.len() == gs.len()
                &&& forall|i: int| 0 <= i < gs.len() ==> (#[trigger] r->Ok_0.segments@[i])@ == gs[i]
            },
    {
        let len = d.len();
        if len < 2 {
            return Err(Error::Truncated);
        }
        if read_be16(d, 0) != SOI_MARKER {
            return Err(Error::FormatMismatch);
        }
        let mut segments: Vec<Segment> = Vec::new();
        let ghost mut views: Seq<SegmentView> = Seq::empty();
        let mut pos: usize = 0;
        loop
            invariant_except_break
                scan_from(d@, 0) == prepend(views, scan_from(d@, pos as int)),
            invariant
                len == d@.len(),
                pos <= len,
                spec_segments(d@) == scan_from(d@, 0),
                segments@.len() == views.len(),
                forall|i: int| 0 <= i < views.len() ==> (#[trigger] segments@[i])@ == views[i],
            ensures
                spec_segments(d@) == Ok::<Seq<SegmentView>, Error>(views),
                segments@.len() == views.len(),
                forall|i: int| 0 <= i < views.len() ==> (#[trigger] segments@[i])@ == views[i],
            decreases len - pos,
        {
            let (seg, next) = Segment::parse(d, pos)?;
            let sos = seg.is_sos();
            let ghost g = seg@;
            segments.push(seg);
            proof {
                let ghost rest = scan_from(d@, next as int);
                if rest is Ok {
                    assert(views + (seq![g] + rest->Ok_0) =~= views.push(g) + rest->Ok_0);
                }
                assert(views + seq![g] =~= views.push(g));
                views = views.push(g);
            }
            if sos {
                break;
            }
            pos = next;
        }
        let ghost gs = views;
        let mut sum = Summary { width: 0, height: 0, app0: None, app1: None };
        let mut k: usize = 0;
        while k < segments.len()
            invariant
                gs == views,
                spec_segments(d@) == Ok::<Seq<SegmentView>, Error>(gs),
                segments@.len() == gs.len(),
                forall|i: int| 0 <= i < gs.len() ==> (#[trigger] segments@[i])@ == gs[i],
                k <= gs.len(),
                summary_of(gs.subrange(0, k as int)) == Ok::<Summary, Error>(sum),
            decreases gs.len() - k,
        {
            assert(gs.subrange(0, k as int + 1).drop_last() =~= gs.subrange(0, k as int));
            assert(gs.subrange(0, k as int + 1).last() == gs[k as int]);
            match &segments[k] {
                Segment::App0(a) => {
                    sum.app0 = Some((a.x_dpi(), a.y_dpi()));
                },
                Segment::App1(a) => {
                    match a.tiff() {
                        Ok(t) => {
                            let x = t.x_dpi();
                            sum.app1 = Some((x, x));
                        },
                        Err(e) => {
                            proof {
                                lemma_summary_error_persists(gs, k as int + 1);
                            }
                            return Err(e);
                        },
                    }
                },
                Segment::SOF(f) => {
                    sum.width = f.width as u32;
                    sum.height = f.height as u32;
                },
                _ => {},
            }
            k = k + 1;
        }
        assert(gs.subrange(0, gs.len() as int) =~= gs);
        let (x_dpi, y_dpi) = match sum.app0 {
            Some(r) => r,
            None => match sum.app1 {
                Some(r) => r,
                None => (DEFAULT_DPI, DEFAULT_DPI),
            },
        };
        Ok(Jpeg { width: sum.width, height: sum.height, x_dpi, y_dpi, segments })
    }

    pub fn dimension(&self) -> (r: (u32, u32))
        ensures
            r == (self.width, self.height),
    {
        (self.width, self.height)
    }
}

impl App0 {
    pub fn dpi(&self, density: u32) -> (r: u32)
        ensures
            r == app0_dpi(self.units, density),
    {
        if self.units == 1 {
            density
        } else if self.units == 2 {
            (((density as u64) * 254 + 50) / 100) as u32
        } else {
            DEFAULT_DPI
        }
    }

    pub fn x_dpi(&self) -> (r: u32)
        ensures
            r == app0_dpi(self.units, self.x_density as u32),
    {
        self.dpi(self.x_density as u32)
    }

    pub fn y_dpi(&self) -> (r: u32)
        ensures
            r == app0_dpi(self.units, self.y_density as u32),
    {
        self.dpi(self.y_density as u32)
    }
}

impl App1 {
    /// Decodes the embedded TIFF stream.
    pub fn tiff(&self) -> (r: Result<Tiff, Error>)
        ensures
            r == spec_tiff(self.data@),
    {
        Tiff::new(self.data.as_slice())
    }
}

} // verus!
