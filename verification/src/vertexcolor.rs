//! The vertexcolor trait and implementations.

use vstd::prelude::*;
use neuroformats::{FsAnnot, FsLabel};
use crate::color::{color_from_data, encoding_of};
use crate::error::{BrainviewError, Result};
use crate::fs_display::{
    all_matched, annot_num_regions, annot_region_label_at, annot_regions, annot_vertex_colors,
    annot_vertex_count, annot_vertex_label_at, annot_vertex_labels, curv_len, curv_value_at,
    curv_values, fits_surface, has_region, is_binary, label_index_at, label_indices,
    label_is_binary, label_len, label_membership, label_values, membership, region_colors,
    FsAnnotDisplay, FsCurvDisplay, FsLabelDisplay,
};

verus! {

/// Per-vertex data that can be shown as colours on a surface.
pub trait VertexColor {
    /// The colours of the vertices, four bytes for each (red, green, blue,
    /// alpha), or the reason why the data cannot be shown.
    spec fn rgba(&self) -> Result<Seq<u8>>;

    /// Computes the colours of the vertices.
    fn vertex_color_rgba(&self) -> (colors: Result<Vec<u8>>)
        ensures
            self.rgba() is Ok ==> colors is Ok && colors->Ok_0@ == self.rgba()->Ok_0,
            self.rgba() is Err ==> colors is Err && colors->Err_0 == self.rgba()->Err_0,
    ;
}

/// The colours of a binary mask: for each vertex the four bytes of the
/// inside colour where the mask holds, and of the outside colour where it
/// does not.
pub open spec fn binary_colors(mask: Seq<bool>, inside: Seq<u8>, outside: Seq<u8>) -> Seq<u8> {
    Seq::new(
        4 * mask.len(),
        |k: int|
            if mask[k / 4] {
                inside[k % 4]
            } else {
                outside[k % 4]
            },
    )
}

/// The four bytes of the vertex `v`.
pub open spec fn vertex_color(colors: Seq<u8>, v: int) -> Seq<u8> {
    colors.subrange(4 * v, 4 * v + 4)
}

/// The number of vertices that the mask holds of.
pub open spec fn count_inside(mask: Seq<bool>) -> nat
    decreases mask.len(),
{
    if mask.len() == 0 {
        0
    } else {
        count_inside(mask.drop_last()) + if mask.last() {
            1nat
        } else {
            0nat
        }
    }
}

/// The number of vertices among the first `n` that have the given colour.
pub open spec fn count_colored(colors: Seq<u8>, color: Seq<u8>, n: nat) -> nat
    decreases n,
{
    if n == 0 {
        0
    } else {
        count_colored(colors, color, (n - 1) as nat) + if vertex_color(colors, n - 1) == color {
            1nat
        } else {
            0nat
        }
    }
}

/// Colours each vertex by whether the mask holds of it.
pub fn binary_colors_for_data(data: Vec<bool>, inside_color: [u8; 4], outside_color: [u8; 4]) -> (col:
    Vec<u8>)
    ensures
        col@ == binary_colors(data@, inside_color@, outside_color@),
{
    let mut col: Vec<u8> = Vec::new();
    let mut i: usize = 0;
    while i < data.len()
        invariant
            i <= data@.len(),
            col@.len() == 4 * i,
            forall|k: int|
                0 <= k < 4 * i ==> col@[k] == #[trigger] binary_colors(
                    data@,
                    inside_color@,
                    outside_color@,
                )[k],
        decreases data@.len() - i,
    {
        if data[i] {
            col.push(inside_color[0]);
            col.push(inside_color[1]);
            col.push(inside_color[2]);
            col.push(inside_color[3]);
        } else {
            col.push(outside_color[0]);
            col.push(outside_color[1]);
            col.push(outside_color[2]);
            col.push(outside_color[3]);
        }
        i = i + 1;
    }
    assert(col@ =~= binary_colors(data@, inside_color@, outside_color@));
    col
}

/// A label is shown as a binary mask: the inside colour on its vertices, the
/// outside colour on the others. A label without entries, or with entries of
/// different values, is not binary. A label that has more entries than the
/// surface has vertices, or an entry that is no vertex of the surface, does
/// not fit the surface.
pub open spec fn label_rgba(
    label: FsLabel,
    num_surface_verts: int,
    inside: Seq<u8>,
    outside: Seq<u8>,
) -> Result<Seq<u8>> {
    if label_values(label).len() == 0 || !is_binary(label_values(label)) {
        Err(BrainviewError::LabelNotBinary)
    } else if !fits_surface(label_indices(label), num_surface_verts) {
        Err(BrainviewError::ShapeMismatch)
    } else {
        Ok(binary_colors(membership(label_indices(label), num_surface_verts), inside, outside))
    }
}

/// A parcellation is shown in the colours of its regions. The region for
/// unmatched vertices has to be one of the table where it is needed: where
/// some vertex has the label of no region.
pub open spec fn annot_rgba(annot: FsAnnot, unmatched_region_index: usize) -> Result<Seq<u8>> {
    if unmatched_region_index >= annot_regions(annot).len() && !all_matched(
        annot_vertex_labels(annot),
        annot_regions(annot),
    ) {
        Err(BrainviewError::RegionIndexOutOfRange { index: unmatched_region_index })
    } else {
        Ok(
            region_colors(
                annot_vertex_labels(annot),
                annot_regions(annot),
                unmatched_region_index as int,
            ),
        )
    }
}

/// Whether a region of the parcellation's colour table has the label.
pub fn region_has_label(annot: &FsAnnot, label: i32) -> (found: bool)
    ensures
        found == has_region(annot_regions(*annot), label),
{
    let regions = annot_num_regions(annot);
    let mut i: usize = 0;
    while i < regions
        invariant
            i <= regions,
            regions == annot_regions(*annot).len(),
            forall|k: int| 0 <= k < i ==> (#[trigger] annot_regions(*annot)[k]).0 != label,
        decreases regions - i,
    {
        if annot_region_label_at(annot, i) == label {
            return true;
        }
        i = i + 1;
    }
    false
}

/// Whether every vertex of the parcellation has the label of a region of
/// its colour table.
pub fn all_vertices_matched(annot: &FsAnnot) -> (all: bool)
    ensures
        all == all_matched(annot_vertex_labels(*annot), annot_regions(*annot)),
{
    let vertices = annot_vertex_count(annot);
    let mut v: usize = 0;
    while v < vertices
        invariant
            v <= vertices,
            vertices == annot_vertex_labels(*annot).len(),
            forall|k: int|
                0 <= k < v ==> has_region(
                    annot_regions(*annot),
                    #[trigger] annot_vertex_labels(*annot)[k],
                ),
        decreases vertices - v,
    {
        if !region_has_label(annot, annot_vertex_label_at(annot, v)) {
            return false;
        }
        v = v + 1;
    }
    true
}

impl VertexColor for FsLabelDisplay {
    open spec fn rgba(&self) -> Result<Seq<u8>> {
        label_rgba(
            self.label,
            self.num_surface_verts as int,
            self.color_bin_inside@,
            self.color_bin_outside@,
        )
    }

    fn vertex_color_rgba(&self) -> (colors: Result<Vec<u8>>) {
        let n = label_len(&self.label);
        if n == 0 {
            return Err(BrainviewError::LabelNotBinary);
        }
        if !label_is_binary(&self.label) {
            return Err(BrainviewError::LabelNotBinary);
        }
        if n > self.num_surface_verts {
            return Err(BrainviewError::ShapeMismatch);
        }
        let mut j: usize = 0;
        while j < n
            invariant
                j <= n,
                n == label_indices(self.label).len(),
                n <= self.num_surface_verts,
                label_values(self.label).len() > 0,
                is_binary(label_values(self.label)),
                forall|k: int|
                    0 <= k < j ==> 0 <= #[trigger] label_indices(self.label)[k]
                        < self.num_surface_verts,
            decreases n - j,
        {
            let index = label_index_at(&self.label, j);
            if index < 0 || index as usize >= self.num_surface_verts {
                assert(!(0 <= label_indices(self.label)[j as int] < self.num_surface_verts));
                return Err(BrainviewError::ShapeMismatch);
            }
            j = j + 1;
        }
        let mask = label_membership(&self.label, self.num_surface_verts);
        Ok(binary_colors_for_data(mask, self.color_bin_inside, self.color_bin_outside))
    }
}

impl VertexColor for FsAnnotDisplay {
    open spec fn rgba(&self) -> Result<Seq<u8>> {
        annot_rgba(self.annot, self.unmatched_region_index)
    }

    fn vertex_color_rgba(&self) -> (colors: Result<Vec<u8>>) {
        let regions = annot_num_regions(&self.annot);
        if self.unmatched_region_index >= regions && !all_vertices_matched(&self.annot) {
            return Err(
                BrainviewError::RegionIndexOutOfRange { index: self.unmatched_region_index },
            );
        }
        Ok(annot_vertex_colors(&self.annot, self.unmatched_region_index))
    }
}

impl VertexColor for FsCurvDisplay {
    /// Morphometry data is shown in the shades of the gradient, and in the
    /// fixed colour where a value is not a number.
    open spec fn rgba(&self) -> Result<Seq<u8>> {
        encoding_of(curv_values(self.curv), self.shades@)
    }

    fn vertex_color_rgba(&self) -> (colors: Result<Vec<u8>>) {
        let n = curv_len(&self.curv);
        let mut data: Vec<u32> = Vec::new();
        let mut i: usize = 0;
        while i < n
            invariant
                i <= n,
                n == curv_values(self.curv).len(),
                data@ == curv_values(self.curv).take(i as int),
            decreases n - i,
        {
            data.push(curv_value_at(&self.curv, i));
            assert(data@ =~= curv_values(self.curv).take(i + 1));
            i = i + 1;
        }
        assert(data@ =~= curv_values(self.curv));
        color_from_data(&data, &self.shades)
    }
}

/// A binary colouring is total: every vertex has the inside colour or the
/// outside colour, by the mask alone.
pub proof fn lemma_binary_colors_total(mask: Seq<bool>, inside: Seq<u8>, outside: Seq<u8>, v: int)
    requires
        inside.len() == 4,
        outside.len() == 4,
        0 <= v < mask.len(),
    ensures
        binary_colors(mask, inside, outside).len() == 4 * mask.len(),
        vertex_color(binary_colors(mask, inside, outside), v) == if mask[v] {
            inside
        } else {
            outside
        },
{
    let four = vertex_color(binary_colors(mask, inside, outside), v);
    let want = if mask[v] {
        inside
    } else {
        outside
    };
    assert forall|c: int| 0 <= c < 4 implies four[c] == want[c] by {
        assert((4 * v + c) / 4 == v);
        assert((4 * v + c) % 4 == c);
    }
    assert(four =~= want);
}

/// Where the two colours differ, as many vertices have the inside colour as
/// the mask holds of.
pub proof fn lemma_inside_count(mask: Seq<bool>, inside: Seq<u8>, outside: Seq<u8>)
    requires
        inside.len() == 4,
        outside.len() == 4,
        inside != outside,
    ensures
        count_colored(binary_colors(mask, inside, outside), inside, mask.len()) == count_inside(
            mask,
        ),
{
    lemma_inside_count_upto(mask, inside, outside, mask.len());
    assert(mask.take(mask.len() as int) == mask);
}

/// The count of inside-coloured vertices among the first `n`.
proof fn lemma_inside_count_upto(mask: Seq<bool>, inside: Seq<u8>, outside: Seq<u8>, n: nat)
    requires
        inside.len() == 4,
        outside.len() == 4,
        inside != outside,
        n <= mask.len(),
    ensures
        count_colored(binary_colors(mask, inside, outside), inside, n) == count_inside(
            mask.take(n as int),
        ),
    decreases n,
{
    if n > 0 {
        lemma_inside_count_upto(mask, inside, outside, (n - 1) as nat);
        lemma_binary_colors_total(mask, inside, outside, n - 1);
        assert(mask.take(n as int).drop_last() == mask.take(n - 1));
        assert(mask.take(n as int).last() == mask[n - 1]);
    }
}

/// Setting one more vertex of a mask raises the count by one.
proof fn lemma_count_inside_update(mask: Seq<bool>, v: int)
    requires
        0 <= v < mask.len(),
        !mask[v],
    ensures
        count_inside(mask.update(v, true)) == count_inside(mask) + 1,
    decreases mask.len(),
{
    let set = mask.update(v, true);
    if v == mask.len() - 1 {
        assert(set.drop_last() == mask.drop_last());
    } else {
        lemma_count_inside_update(mask.drop_last(), v);
        assert(set.drop_last() == mask.drop_last().update(v, true));
    }
}

/// A mask that holds of no vertex counts none.
proof fn lemma_count_inside_none(mask: Seq<bool>)
    requires
        forall|v: int| 0 <= v < mask.len() ==> !#[trigger] mask[v],
    ensures
        count_inside(mask) == 0,
    decreases mask.len(),
{
    if mask.len() > 0 {
        lemma_count_inside_none(mask.drop_last());
    }
}

/// A label that enters no vertex twice holds of as many vertices of the
/// surface as it has entries.
pub proof fn lemma_label_inside_count(indices: Seq<i32>, n: int)
    requires
        fits_surface(indices, n),
        forall|i: int, j: int|
            0 <= i < j < indices.len() ==> #[trigger] indices[i] != #[trigger] indices[j],
    ensures
        count_inside(membership(indices, n)) == indices.len(),
    decreases indices.len(),
{
    if indices.len() == 0 {
        lemma_count_inside_none(membership(indices, n));
    } else {
        let earlier = indices.drop_last();
        let last = indices.last() as int;
        assert forall|j: int| 0 <= j < earlier.len() implies 0 <= #[trigger] earlier[j] < n by {
            assert(earlier[j] == indices[j]);
        }
        assert forall|i: int, j: int| 0 <= i < j < earlier.len() implies #[trigger] earlier[i]
            != #[trigger] earlier[j] by {
            assert(earlier[i] == indices[i] && earlier[j] == indices[j]);
        }
        lemma_label_inside_count(earlier, n);
        let before = membership(earlier, n);
        let after = membership(indices, n);
        assert(!before[last]) by {
            if crate::fs_display::in_label(earlier, last) {
                let j = choose|j: int| 0 <= j < earlier.len() && #[trigger] earlier[j] == last;
                assert(earlier[j] == indices[j]);
                assert(indices[j] != indices[indices.len() - 1]);
            }
        }
        assert forall|v: int| 0 <= v < n implies after[v] == before.update(last, true)[v] by {
            if crate::fs_display::in_label(indices, v) {
                let j = choose|j: int| 0 <= j < indices.len() && #[trigger] indices[j] == v;
                if j < earlier.len() {
                    assert(earlier[j] == v);
                }
            }
            if crate::fs_display::in_label(earlier, v) {
                let j = choose|j: int| 0 <= j < earlier.len() && #[trigger] earlier[j] == v;
                assert(indices[j] == v);
            }
            if v == last {
                assert(indices[indices.len() - 1] == v);
            }
        }
        assert(after =~= before.update(last, true));
        lemma_count_inside_update(before, last);
    }
}

} // verus!
