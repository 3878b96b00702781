//! Scalar values that travel as one string: a resolution `WIDTHxHEIGHT` and a
//! crop region `LEFT:RIGHT:TOP:BOTTOM`.
use vstd::prelude::*;

use crate::text::{
    append_decimal, append_literal, chars_of, decimal_text, decimal_value, is_digit,
    lemma_decimal_has_no, lemma_decimal_round_trip, lemma_pieces_join, lemma_pieces_single,
    parse_decimal, piece_bounds, pieces,
};

verus! {

/// Why a scalar string was refused.
#[derive(Clone, Copy, Debug, PartialEq, Eq, Structural)]
pub enum FormatError {
    /// The string does not cut into the expected number of segments.
    InvalidFormat,
    /// A segment is not a decimal number of the field's range.
    NotANumber,
}

/// The value of a numeral if it fits in a `u32`.
pub open spec fn u32_value(s: Seq<char>) -> Option<u32> {
    match decimal_value(s) {
        Some(n) => if n <= u32::MAX {
            Some(n as u32)
        } else {
            None
        },
        None => None,
    }
}

/// The value of a numeral if it fits in a `usize`.
pub open spec fn usize_value(s: Seq<char>) -> Option<usize> {
    match decimal_value(s) {
        Some(n) => if n <= usize::MAX {
            Some(n as usize)
        } else {
            None
        },
        None => None,
    }
}

#[derive(Clone, Copy, Debug, Default, PartialEq, Eq, Structural)]
pub struct Resolution {
    pub width: u32,
    pub height: u32,
}

/// The canonical text of a resolution.
pub open spec fn resolution_text(r: Resolution) -> Seq<char> {
    decimal_text(r.width as nat).push('x') + decimal_text(r.height as nat)
}

/// What a string reads as: two numerals around exactly one `x`.
pub open spec fn resolution_of(s: Seq<char>) -> Result<Resolution, FormatError> {
    let p = pieces(s, 'x');
    if p.len() != 2 {
        Err(FormatError::InvalidFormat)
    } else if u32_value(p[0]) is Some && u32_value(p[1]) is Some {
        Ok(Resolution { width: u32_value(p[0])->0, height: u32_value(p[1])->0 })
    } else {
        Err(FormatError::NotANumber)
    }
}

impl Resolution {
    pub fn parse(s: &str) -> (r: Result<Resolution, FormatError>)
        ensures
            r == resolution_of(s@),
    {
        let cs = chars_of(s);
        let bounds = piece_bounds(&cs, 'x');
        if bounds.len() != 2 {
            return Err(FormatError::InvalidFormat);
        }
        let (a0, a1) = bounds[0];
        let (b0, b1) = bounds[1];
        let w = parse_decimal(&cs, a0, a1, u32::MAX as u64);
        let h = parse_decimal(&cs, b0, b1, u32::MAX as u64);
        match (w, h) {
            (Some(w), Some(h)) => Ok(Resolution { width: w as u32, height: h as u32 }),
            _ => Err(FormatError::NotANumber),
        }
    }

    /// The canonical text, `WIDTHxHEIGHT`.
    pub fn to_text(&self) -> (r: String)
        ensures
            r@ == resolution_text(*self),
    {
        let mut out = String::new();
        append_decimal(&mut out, self.width as u64);
        proof {
            reveal_strlit("x");
        }
        append_literal(&mut out, "x");
        append_decimal(&mut out, self.height as u64);
        proof {
            assert(out@ =~= resolution_text(*self));
        }
        out
    }
}

impl core::str::FromStr for Resolution {
    type Err = FormatError;

    fn from_str(s: &str) -> Result<Self, Self::Err> {
        Resolution::parse(s)
    }
}

/// Reading back the canonical text of a resolution gives the same resolution.
pub proof fn lemma_resolution_round_trip(r: Resolution)
    ensures
        resolution_of(resolution_text(r)) == Ok::<Resolution, FormatError>(r),
{
    let w = decimal_text(r.width as nat);
    let h = decimal_text(r.height as nat);
    assert(!is_digit('x'));
    lemma_decimal_has_no(r.width as nat, 'x');
    lemma_decimal_has_no(r.height as nat, 'x');
    lemma_pieces_single(w, 'x');
    lemma_pieces_join(w, h, 'x');
    assert(pieces(resolution_text(r), 'x') =~= seq![w, h]);
    lemma_decimal_round_trip(r.width as nat);
    lemma_decimal_round_trip(r.height as nat);
}

/// A crop region: pixels cut from each edge.
#[derive(Clone, Copy, Debug, Default, PartialEq, Eq, Structural)]
pub struct Crop {
    /// Number of pixels to crop from the top.
    pub top: usize,
    /// Number of pixels to crop from the bottom.
    pub bottom: usize,
    /// Number of pixels to crop from the left.
    pub left: usize,
    /// Number of pixels to crop from the right.
    pub right: usize,
}

/// The canonical text of a crop region; the order is left, right, top, bottom.
pub open spec fn crop_text(c: Crop) -> Seq<char> {
    decimal_text(c.left as nat).push(':') + decimal_text(c.right as nat).push(':')
        + decimal_text(c.top as nat).push(':') + decimal_text(c.bottom as nat)
}

/// What a string reads as: four numerals separated by exactly three `:`.
pub open spec fn crop_of(s: Seq<char>) -> Result<Crop, FormatError> {
    let p = pieces(s, ':');
    if p.len() != 4 {
        Err(FormatError::InvalidFormat)
    } else if usize_value(p[0]) is Some && usize_value(p[1]) is Some && usize_value(p[2]) is Some
        && usize_value(p[3]) is Some {
        Ok(
            Crop {
                left: usize_value(p[0])->0,
                right: usize_value(p[1])->0,
                top: usize_value(p[2])->0,
                bottom: usize_value(p[3])->0,
            },
        )
    } else {
        Err(FormatError::NotANumber)
    }
}

impl Crop {
    pub fn parse(s: &str) -> (r: Result<Crop, FormatError>)
        ensures
            r == crop_of(s@),
    {
        let cs = chars_of(s);
        let bounds = piece_bounds(&cs, ':');
        if bounds.len() != 4 {
            return Err(FormatError::InvalidFormat);
        }
        let max = usize::MAX as u64;
        let (l0, l1) = bounds[0];
        let (r0, r1) = bounds[1];
        let (t0, t1) = bounds[2];
        let (b0, b1) = bounds[3];
        let left = parse_decimal(&cs, l0, l1, max);
        let right = parse_decimal(&cs, r0, r1, max);
        let top = parse_decimal(&cs, t0, t1, max);
        let bottom = parse_decimal(&cs, b0, b1, max);
        match (left, right, top, bottom) {
            (Some(left), Some(right), Some(top), Some(bottom)) => Ok(
                Crop {
                    top: top as usize,
                    bottom: bottom as usize,
                    left: left as usize,
                    right: right as usize,
                },
            ),
            _ => Err(FormatError::NotANumber),
        }
    }

    /// The canonical text, `LEFT:RIGHT:TOP:BOTTOM`.
    pub fn to_text(&self) -> (r: String)
        ensures
            r@ == crop_text(*self),
    {
        let mut out = String::new();
        proof {
            reveal_strlit(":");
        }
        append_decimal(&mut out, self.left as u64);
        append_literal(&mut out, ":");
        append_decimal(&mut out, self.right as u64);
        append_literal(&mut out, ":");
        append_decimal(&mut out, self.top as u64);
        append_literal(&mut out, ":");
        append_decimal(&mut out, self.bottom as u64);
        proof {
            assert(out@ =~= crop_text(*self));
        }
        out
    }
}

impl core::str::FromStr for Crop {
    type Err = FormatError;

    fn from_str(s: &str) -> Result<Self, Self::Err> {
        Crop::parse(s)
    }
}

/// Reading back the canonical text of a crop region gives the same region.
pub proof fn lemma_crop_round_trip(c: Crop)
    ensures
        crop_of(crop_text(c)) == Ok::<Crop, FormatError>(c),
{
    let l = decimal_text(c.left as nat);
    let r = decimal_text(c.right as nat);
    let t = decimal_text(c.top as nat);
    let b = decimal_text(c.bottom as nat);
    assert(!is_digit(':'));
    lemma_decimal_has_no(c.left as nat, ':');
    lemma_decimal_has_no(c.right as nat, ':');
    lemma_decimal_has_no(c.top as nat, ':');
    lemma_decimal_has_no(c.bottom as nat, ':');
    lemma_pieces_single(l, ':');
    lemma_pieces_join(l, r, ':');
    let lr = l.push(':') + r;
    lemma_pieces_join(lr, t, ':');
    let lrt = lr.push(':') + t;
    lemma_pieces_join(lrt, b, ':');
    assert(lrt.push(':') + b =~= crop_text(c));
    assert(pieces(crop_text(c), ':') =~= seq![l, r, t, b]);
    lemma_decimal_round_trip(c.left as nat);
    lemma_decimal_round_trip(c.right as nat);
    lemma_decimal_round_trip(c.top as nat);
    lemma_decimal_round_trip(c.bottom as nat);
}

} // verus!
