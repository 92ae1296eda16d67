//! Properties that hold across the decoders and the length model.
use crate::error::Error;
use crate::gif::GIF_DPI;
use crate::image::{has_signature, signature_len, spec_record, Format, ImageType};
use crate::length::{Length, EMUS_PER_INCH};
use vstd::prelude::*;

verus! {

/// Any length converts to its quantity times the unit's multiplier,
/// truncated: the result never exceeds the exact product, and falls short of
/// it by less than one EMU (unless it saturates).
pub proof fn lemma_value_truncates(l: Length)
    requires
        l.denominator() > 0,
        l.numerator() * l.emus_per_unit() / l.denominator() <= u32::MAX,
    ensures
        l.spec_value() * l.denominator() <= l.numerator() * l.emus_per_unit(),
        l.numerator() * l.emus_per_unit() < (l.spec_value() + 1) * l.denominator(),
{
    let x = l.numerator() * l.emus_per_unit();
    let d = l.denominator();
    assert(x / d * d <= x && x < (x / d + 1) * d) by (nonlinear_arith)
        requires
            d > 0,
    ;
}

/// Reading a decoded image's width and height back as inches and converting
/// them gives the pixel count times 914400 over the DPI, truncated.
pub proof fn lemma_size_round_trip(img: ImageType)
    requires
        img.spec_x_dpi() > 0,
        img.spec_y_dpi() > 0,
        img.spec_dimensions().0 as int * EMUS_PER_INCH / img.spec_x_dpi() as int <= u32::MAX,
        img.spec_dimensions().1 as int * EMUS_PER_INCH / img.spec_y_dpi() as int <= u32::MAX,
    ensures
        img.spec_width().spec_value() == img.spec_dimensions().0 as int * EMUS_PER_INCH
            / img.spec_x_dpi() as int,
        img.spec_height().spec_value() == img.spec_dimensions().1 as int * EMUS_PER_INCH
            / img.spec_y_dpi() as int,
{
    lemma_value_truncates(img.spec_width());
    lemma_value_truncates(img.spec_height());
}

/// A stream that lacks its format's signature decodes to `FormatMismatch`,
/// whatever follows.
pub proof fn lemma_bad_signature(f: Format, d: Seq<u8>)
    requires
        d.len() >= signature_len(f),
        !has_signature(f, d),
    ensures
        spec_record(f, d) == Err::<(u32, u32, u32, u32), Error>(Error::FormatMismatch),
{
}

/// Every GIF that decodes reads as 72 DPI on both axes.
pub proof fn lemma_gif_fixed_dpi(d: Seq<u8>)
    requires
        spec_record(Format::Gif, d) is Ok,
    ensures
        spec_record(Format::Gif, d)->Ok_0.2 == GIF_DPI,
        spec_record(Format::Gif, d)->Ok_0.3 == GIF_DPI,
{
}

} // verus!
