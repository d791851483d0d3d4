//! Conversions of mesh indices, and the plan for bringing measured values
//! into the range of a gradient.

use vstd::prelude::*;
use crate::binary32::{is_nan, is_not_a_number, is_same_number, less_than, same_number};
use crate::error::{BrainviewError, Result};

verus! {

/// An `i32` read as a `u32`: itself where it is not negative, and 2^32 more
/// where it is.
pub open spec fn reinterpreted(v: i32) -> int {
    if v >= 0 {
        v as int
    } else {
        v + 0x1_0000_0000
    }
}

/// Convert a vector of `i32` values to `u32`.
pub fn f32tou32(data: Vec<i32>) -> (u: Vec<u32>)
    ensures
        u@.len() == data@.len(),
        forall|i: int| 0 <= i < data@.len() ==> #[trigger] u@[i] == reinterpreted(data@[i]),
{
    let mut u: Vec<u32> = Vec::new();
    let mut i: usize = 0;
    while i < data.len()
        invariant
            i <= data@.len(),
            u@.len() == i,
            forall|k: int| 0 <= k < i ==> #[trigger] u@[k] == reinterpreted(data@[k]),
        decreases data@.len() - i,
    {
        let v: i32 = data[i];
        let w: u32 = #[verifier::truncate]
        (v as u32);
        assert(w == reinterpreted(v)) by {
            assert(v >= 0 ==> (v as u32) as int == v as int) by (bit_vector);
            assert(v < 0 ==> (v as u32) as int == v + 0x1_0000_0000) by (bit_vector);
        }
        u.push(w);
        i = i + 1;
    }
    u
}

/// How the values of a data set are brought into the range from 0 to 1
/// before the gradient is asked.
#[derive(Debug, Clone, Copy, PartialEq, Eq, Structural)]
pub enum ScalePlan {
    /// No value is a number: nothing to scale, every vertex gets the colour
    /// of a missing value.
    AllMissing,
    /// All numbers are the same: the range has no width and nothing may be
    /// divided by it. Every number gets the middle of the gradient.
    Flat,
    /// The least number goes to 0, the greatest to 1, the others in between.
    Stretch,
}

/// Whether at least one value is a number.
pub open spec fn has_number(data: Seq<u32>) -> bool {
    exists|i: int| 0 <= i < data.len() && !is_nan(#[trigger] data[i])
}

/// Whether the numbers among the values are all the same number.
pub open spec fn is_flat(data: Seq<u32>) -> bool {
    forall|i: int, j: int|
        0 <= i < data.len() && 0 <= j < data.len() && !is_nan(#[trigger] data[i]) && !is_nan(
            #[trigger] data[j],
        ) ==> same_number(data[i], data[j])
}

/// The plan for a data set.
pub open spec fn plan_of(data: Seq<u32>) -> ScalePlan {
    if !has_number(data) {
        ScalePlan::AllMissing
    } else if is_flat(data) {
        ScalePlan::Flat
    } else {
        ScalePlan::Stretch
    }
}

/// The plan for a data set. Values that are not numbers take no part in the
/// range.
pub fn plan_for(data: &Vec<u32>) -> (plan: ScalePlan)
    ensures
        plan == plan_of(data@),
{
    let mut first: Option<u32> = None;
    let mut flat = true;
    let mut i: usize = 0;
    while i < data.len()
        invariant
            i <= data@.len(),
            first is None ==> forall|k: int| 0 <= k < i ==> is_nan(#[trigger] data@[k]),
            first matches Some(f) ==> !is_nan(f) && exists|k: int|
                0 <= k < i && #[trigger] data@[k] == f,
            first is None ==> flat,
            first matches Some(f) ==> (flat <==> forall|k: int|
                0 <= k < i && !is_nan(#[trigger] data@[k]) ==> same_number(data@[k], f)),
        decreases data@.len() - i,
    {
        let v = data[i];
        if !is_not_a_number(v) {
            match first {
                None => {
                    first = Some(v);
                },
                Some(f) => {
                    if !is_same_number(v, f) {
                        flat = false;
                    }
                },
            }
        }
        i = i + 1;
    }
    match first {
        None => {
            assert(!has_number(data@));
            ScalePlan::AllMissing
        },
        Some(f) => {
            proof {
                let k = choose|k: int| 0 <= k < data@.len() && #[trigger] data@[k] == f;
                assert(!is_nan(data@[k]));
                assert(has_number(data@));
                if is_flat(data@) {
                    assert forall|j: int|
                        0 <= j < data@.len() && !is_nan(#[trigger] data@[j]) implies same_number(
                        data@[j],
                        f,
                    ) by {
                        assert(same_number(data@[j], data@[k]));
                    }
                }
            }
            if flat {
                ScalePlan::Flat
            } else {
                ScalePlan::Stretch
            }
        },
    }
}

/// Decides how a data set is scaled. An empty data set has no range: an
/// error.
pub fn scaling_plan(data: &Vec<u32>) -> (plan: Result<ScalePlan>)
    ensures
        data@.len() == 0 ==> plan == Err::<ScalePlan, BrainviewError>(
            BrainviewError::DegenerateRange,
        ),
        data@.len() > 0 ==> plan == Ok::<ScalePlan, BrainviewError>(plan_of(data@)),
{
    if data.len() == 0 {
        Err(BrainviewError::DegenerateRange)
    } else {
        Ok(plan_for(data))
    }
}

/// A data set of one value throughout has no range to divide by: its plan is
/// never to stretch.
pub proof fn lemma_constant_data_is_not_stretched(data: Seq<u32>)
    requires
        forall|i: int| 0 <= i < data.len() ==> #[trigger] data[i] == data[0],
    ensures
        plan_of(data) != ScalePlan::Stretch,
        !is_nan(data[0]) && data.len() > 0 ==> plan_of(data) == ScalePlan::Flat,
{
    if data.len() > 0 && !is_nan(data[0]) {
        assert(has_number(data));
    }
    assert(is_flat(data));
}

/// The plan is to stretch exactly when two of the values are numbers and
/// differ: then the least is below the greatest, and the range has a width.
pub proof fn lemma_stretch_has_width(data: Seq<u32>)
    ensures
        plan_of(data) == ScalePlan::Stretch <==> exists|i: int, j: int|
            0 <= i < data.len() && 0 <= j < data.len() && less_than(
                #[trigger] data[i],
                #[trigger] data[j],
            ),
{
    if plan_of(data) == ScalePlan::Stretch {
        let (i, j) = choose|i: int, j: int|
            0 <= i < data.len() && 0 <= j < data.len() && !is_nan(#[trigger] data[i]) && !is_nan(
                #[trigger] data[j],
            ) && !same_number(data[i], data[j]);
        if less_than(data[i], data[j]) {
        } else {
            assert(less_than(data[j], data[i]));
        }
    }
    if exists|i: int, j: int|
        0 <= i < data.len() && 0 <= j < data.len() && less_than(
            #[trigger] data[i],
            #[trigger] data[j],
        ) {
        let (i, j) = choose|i: int, j: int|
            0 <= i < data.len() && 0 <= j < data.len() && less_than(
                #[trigger] data[i],
                #[trigger] data[j],
            );
        assert(!is_nan(data[i]));
        assert(has_number(data));
        assert(!same_number(data[i], data[j]));
    }
}

} // verus!
