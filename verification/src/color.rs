//! From measured values to colours, and from colours to bytes.
//!
//! A gradient turns a value into a colour by arithmetic on real numbers,
//! which has no place here. This module takes the values as encodings and the
//! gradient's answers as colours, decides which values get another colour
//! than the gradient's answer, and lays the result out as the bytes that a
//! renderer takes.

use vstd::prelude::*;
use colorous::Color;
use crate::binary32::{is_nan, is_not_a_number};
use crate::error::{BrainviewError, Result};
use crate::util::{has_number, is_flat, plan_for, plan_of, ScalePlan};

verus! {

/// A colour of the gradient: red, green and blue.
#[verifier::external_type_specification]
#[verifier::external_body]
pub struct ExColor(Color);

/// The red, green and blue of a colour, in this order.
pub uninterp spec fn color_channels(color: Color) -> Seq<u8>;

/// `Color::into_array`: the fields `r`, `g` and `b`, in this order.
#[verifier::external_body]
pub(crate) fn channels_of(color: Color) -> (rgb: [u8; 3])
    ensures
        rgb@ == color_channels(color),
{
    color.into_array()
}

/// A `Color` made of its three fields.
#[verifier::external_body]
pub(crate) fn color_of(r: u8, g: u8, b: u8) -> (color: Color)
    ensures
        color_channels(color) == seq![r, g, b],
{
    Color { r, g, b }
}

/// The channels of the colour that the viridis gradient has at step `i` of
/// `n` even steps from its first colour to its last.
pub uninterp spec fn viridis_at(i: usize, n: usize) -> Seq<u8>;

/// `Gradient::eval_rational` of `colorous::VIRIDIS`: the gradient's colour at
/// step `i` of `n`. It panics where `n` is 0.
#[verifier::external_body]
pub(crate) fn viridis_rational(i: usize, n: usize) -> (color: Color)
    requires
        n > 0,
    ensures
        color_channels(color) == viridis_at(i, n),
{
    colorous::VIRIDIS.eval_rational(i, n)
}

/// Red, green and blue of a vertex whose value is not a number.
pub const NAN_SHADE: u8 = 245;

/// The alpha of every vertex of a mesh: opaque.
pub const MESH_ALPHA: u8 = 255;

/// The channels of the colour of a value that is not a number.
pub open spec fn nan_channels() -> Seq<u8> {
    seq![245u8, 245u8, 245u8]
}

/// The channels of the colour in the middle of the gradient: the second of
/// three even steps.
pub open spec fn mid_gradient() -> Seq<u8> {
    viridis_at(1, 3)
}

/// The channels of the colour that the vertex at `i` gets: the fixed colour
/// where the value is not a number; the middle of the gradient where all
/// numbers of the data set are the same, so that there is no range to place
/// the value in; and else the gradient's answer.
pub open spec fn shade_channels(data: Seq<u32>, shades: Seq<Color>, i: int) -> Seq<u8> {
    if is_nan(data[i]) {
        nan_channels()
    } else if is_flat(data) {
        mid_gradient()
    } else {
        color_channels(shades[i])
    }
}

/// Whether the gradient's answers are needed for a data set: they are where
/// its numbers have a range.
pub open spec fn needs_shades(data: Seq<u32>) -> bool {
    plan_of(data) == ScalePlan::Stretch
}

/// The bytes of `n` colours: four for each, red, green, blue and `alpha`.
pub open spec fn rgba_bytes(colors: Seq<Color>, alpha: u8) -> Seq<u8> {
    Seq::new(
        4 * colors.len(),
        |k: int|
            if k % 4 == 3 {
                alpha
            } else {
                color_channels(colors[k / 4])[k % 4]
            },
    )
}

/// The bytes that encode a data set: four for each value, the three channels
/// of its colour and the opaque alpha.
pub open spec fn encoded(data: Seq<u32>, shades: Seq<Color>) -> Seq<u8> {
    Seq::new(
        4 * data.len(),
        |k: int|
            if k % 4 == 3 {
                MESH_ALPHA
            } else {
                shade_channels(data, shades, k / 4)[k % 4]
            },
    )
}

/// Apply a colormap to the given data, i.e., map the values to colors:
/// `shades` holds what the gradient gave for each value. A value that is not
/// a number gets the fixed colour, whatever the gradient gave. Where all
/// numbers are the same, each gets the middle of the gradient and the shades
/// are not looked at; else as many shades as values are needed.
pub fn apply_colormap(data: &Vec<u32>, shades: &Vec<Color>) -> (colors: Result<Vec<Color>>)
    ensures
        needs_shades(data@) && data@.len() != shades@.len() ==> colors == Err::<
            Vec<Color>,
            BrainviewError,
        >(BrainviewError::ShapeMismatch),
        !(needs_shades(data@) && data@.len() != shades@.len()) ==> colors is Ok
            && colors->Ok_0@.len() == data@.len() && forall|i: int|
            0 <= i < data@.len() ==> color_channels(#[trigger] colors->Ok_0@[i]) == shade_channels(
                data@,
                shades@,
                i,
            ),
{
    let plan = plan_for(data);
    let stretch = match plan {
        ScalePlan::Stretch => true,
        _ => false,
    };
    if stretch && data.len() != shades.len() {
        return Err(BrainviewError::ShapeMismatch);
    }
    let nan_color = color_of(NAN_SHADE, NAN_SHADE, NAN_SHADE);
    let mid_color = viridis_rational(1, 3);
    let mut colors: Vec<Color> = Vec::new();
    let mut i: usize = 0;
    while i < data.len()
        invariant
            i <= data@.len(),
            stretch <==> plan_of(data@) == ScalePlan::Stretch,
            stretch ==> data@.len() == shades@.len(),
            color_channels(nan_color) == nan_channels(),
            color_channels(mid_color) == mid_gradient(),
            colors@.len() == i,
            forall|k: int|
                0 <= k < i ==> color_channels(#[trigger] colors@[k]) == shade_channels(
                    data@,
                    shades@,
                    k,
                ),
        decreases data@.len() - i,
    {
        if is_not_a_number(data[i]) {
            colors.push(nan_color);
        } else if stretch {
            colors.push(shades[i]);
        } else {
            assert(has_number(data@));
            colors.push(mid_color);
        }
        i = i + 1;
    }
    Ok(colors)
}

/// Translate `n` colors to `4n` u8 values.
pub fn colors_as_u8_4(colors: Vec<Color>, alpha: u8) -> (col_255: Vec<u8>)
    ensures
        col_255@ == rgba_bytes(colors@, alpha),
{
    let mut col_255: Vec<u8> = Vec::new();
    let mut i: usize = 0;
    while i < colors.len()
        invariant
            i <= colors@.len(),
            col_255@.len() == 4 * i,
            forall|k: int| 0 <= k < 4 * i ==> col_255@[k] == #[trigger] rgba_bytes(colors@, alpha)[k],
        decreases colors@.len() - i,
    {
        let rgb = channels_of(colors[i]);
        col_255.push(rgb[0]);
        col_255.push(rgb[1]);
        col_255.push(rgb[2]);
        col_255.push(alpha);
        i = i + 1;
    }
    assert(col_255@ =~= rgba_bytes(colors@, alpha));
    col_255
}

/// What encoding a data set gives: without a value there is no range to
/// colour, and where the numbers have a range, the number of shades must be
/// the number of values.
pub open spec fn encoding_of(data: Seq<u32>, shades: Seq<Color>) -> Result<Seq<u8>> {
    if data.len() == 0 {
        Err(BrainviewError::DegenerateRange)
    } else if needs_shades(data) && data.len() != shades.len() {
        Err(BrainviewError::ShapeMismatch)
    } else {
        Ok(encoded(data, shades))
    }
}

/// Apply a colormap and return colors as required for rendering: `shades`
/// holds what the gradient gave for each value of `data`.
pub fn color_from_data(data: &Vec<u32>, shades: &Vec<Color>) -> (rgba: Result<Vec<u8>>)
    ensures
        encoding_of(data@, shades@) is Ok ==> rgba is Ok && rgba->Ok_0@ == encoded(data@, shades@),
        encoding_of(data@, shades@) is Err ==> rgba is Err && rgba->Err_0 == encoding_of(
            data@,
            shades@,
        )->Err_0,
{
    if data.len() == 0 {
        return Err(BrainviewError::DegenerateRange);
    }
    match apply_colormap(data, shades) {
        Err(e) => Err(e),
        Ok(colors) => {
            let ghost picked = colors@;
            let rgba = colors_as_u8_4(colors, MESH_ALPHA);
            proof {
                assert forall|k: int| 0 <= k < 4 * data@.len() implies rgba@[k] == encoded(
                    data@,
                    shades@,
                )[k] by {
                    assert(color_channels(picked[k / 4]) == shade_channels(data@, shades@, k / 4));
                }
                assert(rgba@ =~= encoded(data@, shades@));
            }
            Ok(rgba)
        },
    }
}

/// An encoding has four bytes for each value, and every fourth byte, the
/// alpha, is opaque.
pub proof fn lemma_encoded_shape(data: Seq<u32>, shades: Seq<Color>)
    ensures
        encoded(data, shades).len() == 4 * data.len(),
        forall|i: int| 0 <= i < data.len() ==> #[trigger] encoded(data, shades)[4 * i + 3] == 255,
{
}

/// A value that is not a number gets the fixed colour, whatever the other
/// values are and whatever the gradient gave.
pub proof fn lemma_nan_gets_fixed_color(data: Seq<u32>, shades: Seq<Color>, i: int)
    requires
        0 <= i < data.len(),
        is_nan(data[i]),
    ensures
        encoded(data, shades).subrange(4 * i, 4 * i + 4) == seq![245u8, 245u8, 245u8, 255u8],
{
    let out = encoded(data, shades);
    let four = out.subrange(4 * i, 4 * i + 4);
    assert(four.len() == 4);
    assert forall|c: int| 0 <= c < 4 implies four[c] == seq![245u8, 245u8, 245u8, 255u8][c] by {
        assert(four[c] == out[4 * i + c]);
        assert((4 * i + c) / 4 == i);
        assert((4 * i + c) % 4 == c);
    }
    assert(four =~= seq![245u8, 245u8, 245u8, 255u8]);
}

/// A data set whose numbers are all the same, so that its least number
/// is its greatest, encodes without a division by the width of its range:
/// every number gets one colour, the middle of the gradient, whatever shades
/// are given.
pub proof fn lemma_flat_data_has_one_color(data: Seq<u32>, shades: Seq<Color>, i: int)
    requires
        is_flat(data),
        0 <= i < data.len(),
        !is_nan(data[i]),
    ensures
        encoding_of(data, shades) == Ok::<Seq<u8>, BrainviewError>(encoded(data, shades)),
        encoded(data, shades)[4 * i] == mid_gradient()[0],
        encoded(data, shades)[4 * i + 1] == mid_gradient()[1],
        encoded(data, shades)[4 * i + 2] == mid_gradient()[2],
        encoded(data, shades)[4 * i + 3] == 255,
{
    assert((4 * i) / 4 == i && (4 * i) % 4 == 0);
    assert((4 * i + 1) / 4 == i && (4 * i + 1) % 4 == 1);
    assert((4 * i + 2) / 4 == i && (4 * i + 2) % 4 == 2);
    assert((4 * i + 3) / 4 == i && (4 * i + 3) % 4 == 3);
}

} // verus!
