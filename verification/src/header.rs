//! Derivation of the output header that describes a cutout.
//!
//! The header values of interest are either whole numbers (axis lengths),
//! text (projection type names), or floating header cards.  The library
//! never computes with a floating card: such a value is carried opaquely as
//! the 64 bits of its IEEE-754 representation, and the only question ever
//! asked of it is whether it encodes zero (either sign), which decides
//! whether the image has a usable pixel scale.

use vstd::prelude::*;

verus! {

/// Bit patterns of the two floating-point zeros; a pixel scale card
/// carrying either makes the image unusable for cutouts.
pub open spec fn is_zero_bits(b: u64) -> bool {
    b == 0u64 || b == 0x8000_0000_0000_0000u64
}

/// A pixel scale card is usable when it is present and does not encode
/// zero.
pub open spec fn usable_scale(c: Option<u64>) -> bool {
    c is Some && !is_zero_bits(c.unwrap())
}

/// The fatal configuration errors: a pixel scale card that is missing from
/// the source header or encodes zero.  Either aborts the whole run.
#[derive(Clone, Copy, PartialEq, Eq, Structural, Debug)]
pub enum ScaleError {
    MissingOrZeroCdelt1,
    MissingOrZeroCdelt2,
}

/// Check the two pixel scale cards of the source image.
///
/// Returns the two scales exactly when both are present and non-zero;
/// otherwise the error names the first offending card, the first axis
/// being checked first.
pub fn validate_scales(cdelt1: Option<u64>, cdelt2: Option<u64>) -> (r: Result<
    (u64, u64),
    ScaleError,
>)
    ensures
        r is Ok <==> usable_scale(cdelt1) && usable_scale(cdelt2),
        r matches Ok(p) ==> p.0 == cdelt1.unwrap() && p.1 == cdelt2.unwrap(),
        !usable_scale(cdelt1) ==> r == Err::<(u64, u64), ScaleError>(
            ScaleError::MissingOrZeroCdelt1,
        ),
        usable_scale(cdelt1) && !usable_scale(cdelt2) ==> r == Err::<(u64, u64), ScaleError>(
            ScaleError::MissingOrZeroCdelt2,
        ),
{
    let c1 = match cdelt1 {
        Some(b) => {
            if b == 0u64 || b == 0x8000_0000_0000_0000u64 {
                return Err(ScaleError::MissingOrZeroCdelt1);
            }
            b
        },
        None => {
            return Err(ScaleError::MissingOrZeroCdelt1);
        },
    };
    let c2 = match cdelt2 {
        Some(b) => {
            if b == 0u64 || b == 0x8000_0000_0000_0000u64 {
                return Err(ScaleError::MissingOrZeroCdelt2);
            }
            b
        },
        None => {
            return Err(ScaleError::MissingOrZeroCdelt2);
        },
    };
    Ok((c1, c2))
}

/// The diagnostic for a fatal pixel scale error, naming the offending card.
pub fn scale_error_text(e: &ScaleError) -> (r: String)
    ensures
        *e == ScaleError::MissingOrZeroCdelt1 ==> r@ == "CDELT1 is missing or zero"@,
        *e == ScaleError::MissingOrZeroCdelt2 ==> r@ == "CDELT2 is missing or zero"@,
{
    match e {
        ScaleError::MissingOrZeroCdelt1 => "CDELT1 is missing or zero".to_owned(),
        ScaleError::MissingOrZeroCdelt2 => "CDELT2 is missing or zero".to_owned(),
    }
}

/// The cards read from the source image header that the cutout logic
/// consumes.  A card that could not be read is `None`; a text card that was
/// read as empty is kept as the empty string, as the source presents it.
#[derive(Clone, Debug)]
pub struct SourceKeys {
    pub ctype1: String,
    pub ctype2: String,
    pub ctype3: Option<String>,
    pub ctype4: Option<String>,
    pub radesys: Option<String>,
    pub lonpole: Option<u64>,
    pub latpole: Option<u64>,
}

/// The description of the cutout image: its square shape, the adjusted
/// reference pixel and value, and the projection cards carried over from
/// the source.  A `None` field is omitted from the written header rather
/// than written as a synthetic default.
#[derive(Clone, Debug)]
pub struct OutputHeader {
    pub naxis1: i64,
    pub naxis2: i64,
    pub crval1: u64,
    pub crval2: u64,
    pub crpix1: i64,
    pub crpix2: i64,
    pub cdelt1: u64,
    pub cdelt2: u64,
    pub ctype1: String,
    pub ctype2: String,
    pub ctype3: Option<String>,
    pub ctype4: Option<String>,
    pub radesys: Option<String>,
    pub lonpole: Option<u64>,
    pub latpole: Option<u64>,
}

/// What the header derivation promises, as one predicate: the cutout is
/// declared square of side `imsize` with its reference pixel at the
/// rounded-up midpoint; the recomputed reference value and the validated
/// scales are carried as given; the sky axis types are carried over; the
/// third and fourth axis types only where the source holds them non-empty;
/// the frame cards exactly where the source has them.
pub open spec fn describes(
    r: OutputHeader,
    imsize: int,
    crval1: u64,
    crval2: u64,
    cdelt1: u64,
    cdelt2: u64,
    src: SourceKeys,
) -> bool {
    &&& r.naxis1 == imsize
    &&& r.naxis2 == imsize
    &&& r.crval1 == crval1
    &&& r.crval2 == crval2
    &&& r.crpix1 == (imsize + 1) / 2
    &&& r.crpix2 == (imsize + 1) / 2
    &&& r.cdelt1 == cdelt1
    &&& r.cdelt2 == cdelt2
    &&& r.ctype1@ == src.ctype1@
    &&& r.ctype2@ == src.ctype2@
    &&& (r.ctype3 is Some <==> src.ctype3 is Some && src.ctype3.unwrap()@.len() > 0)
    &&& (r.ctype3 is Some ==> r.ctype3.unwrap()@ == src.ctype3.unwrap()@)
    &&& (r.ctype4 is Some <==> src.ctype4 is Some && src.ctype4.unwrap()@.len() > 0)
    &&& (r.ctype4 is Some ==> r.ctype4.unwrap()@ == src.ctype4.unwrap()@)
    &&& (r.radesys is Some <==> src.radesys is Some)
    &&& (r.radesys is Some ==> r.radesys.unwrap()@ == src.radesys.unwrap()@)
    &&& r.lonpole == src.lonpole
    &&& r.latpole == src.latpole
}

/// The derivation leaves the output no freedom: two headers that both
/// describe the same window of the same source agree on every card, the
/// text cards compared by their characters.  Together with the planner
/// being a pure function, repeating a cutout reproduces the same
/// description.
pub proof fn lemma_header_deterministic(
    h1: OutputHeader,
    h2: OutputHeader,
    imsize: int,
    crval1: u64,
    crval2: u64,
    cdelt1: u64,
    cdelt2: u64,
    src: SourceKeys,
)
    requires
        describes(h1, imsize, crval1, crval2, cdelt1, cdelt2, src),
        describes(h2, imsize, crval1, crval2, cdelt1, cdelt2, src),
    ensures
        h1.naxis1 == h2.naxis1,
        h1.naxis2 == h2.naxis2,
        h1.crval1 == h2.crval1,
        h1.crval2 == h2.crval2,
        h1.crpix1 == h2.crpix1,
        h1.crpix2 == h2.crpix2,
        h1.cdelt1 == h2.cdelt1,
        h1.cdelt2 == h2.cdelt2,
        h1.ctype1@ == h2.ctype1@,
        h1.ctype2@ == h2.ctype2@,
        h1.ctype3 is Some <==> h2.ctype3 is Some,
        h1.ctype3 is Some ==> h1.ctype3.unwrap()@ == h2.ctype3.unwrap()@,
        h1.ctype4 is Some <==> h2.ctype4 is Some,
        h1.ctype4 is Some ==> h1.ctype4.unwrap()@ == h2.ctype4.unwrap()@,
        h1.radesys is Some <==> h2.radesys is Some,
        h1.radesys is Some ==> h1.radesys.unwrap()@ == h2.radesys.unwrap()@,
        h1.lonpole == h2.lonpole,
        h1.latpole == h2.latpole,
{
}

/// Derive the header of a cutout of `imsize` pixels per axis.
///
/// `crval1` and `crval2` are the reference value recomputed at the rounded
/// window center; `cdelt1` and `cdelt2` are the validated pixel scales.
pub fn derive_header(
    imsize: i64,
    crval1: u64,
    crval2: u64,
    cdelt1: u64,
    cdelt2: u64,
    src: SourceKeys,
) -> (r: OutputHeader)
    requires
        0 <= imsize < i64::MAX,
    ensures
        describes(r, imsize as int, crval1, crval2, cdelt1, cdelt2, src),
{
    let crpix: i64 = (imsize + 1) / 2;
    OutputHeader {
        naxis1: imsize,
        naxis2: imsize,
        crval1,
        crval2,
        crpix1: crpix,
        crpix2: crpix,
        cdelt1,
        cdelt2,
        ctype1: src.ctype1,
        ctype2: src.ctype2,
        ctype3: keep_nonempty(src.ctype3),
        ctype4: keep_nonempty(src.ctype4),
        radesys: src.radesys,
        lonpole: src.lonpole,
        latpole: src.latpole,
    }
}

/// Keep a text card only when it was read and is non-empty; the original
/// image presents a missing card and an empty one alike as unusable.
fn keep_nonempty(card: Option<String>) -> (r: Option<String>)
    ensures
        r is Some <==> card is Some && card.unwrap()@.len() > 0,
        r is Some ==> r.unwrap()@ == card.unwrap()@,
{
    match card {
        Some(s) => {
            if !s.as_str().is_empty() {
                Some(s)
            } else {
                None
            }
        },
        None => None,
    }
}

impl OutputHeader {
    /// Number of axes of the pixel region to read and write: two sky axes,
    /// plus a degenerate third and possibly fourth axis exactly when the
    /// source declares their projection types.
    pub fn rank(&self) -> (r: u8)
        ensures
            r == (if self.ctype3 is Some {
                if self.ctype4 is Some {
                    4u8
                } else {
                    3u8
                }
            } else {
                2u8
            }),
            2 <= r <= 4,
    {
        if self.ctype3.is_some() {
            if self.ctype4.is_some() {
                4
            } else {
                3
            }
        } else {
            2
        }
    }
}

} // verus!
