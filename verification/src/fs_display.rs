//! Wrappers around neuroformats structs representing FreeSurfer data.
//! These wrappers contain aditional information required for visualizing the
//! data.

use vstd::prelude::*;
use colorous::Color;
use neuroformats::{FsAnnot, FsCurv, FsLabel};

verus! {

/// A label: some vertices of a surface, each with a value.
#[verifier::external_type_specification]
#[verifier::external_body]
pub struct ExFsLabel(FsLabel);

/// A parcellation: a region label for each vertex of a surface, and the
/// table of the regions with their colours.
#[verifier::external_type_specification]
#[verifier::external_body]
pub struct ExFsAnnot(FsAnnot);

/// Per-vertex morphometry data: one value for each vertex of a surface.
#[verifier::external_type_specification]
#[verifier::external_body]
pub struct ExFsCurv(FsCurv);

/// The surface vertex indices of the entries of a label, in their order.
pub uninterp spec fn label_indices(label: FsLabel) -> Seq<i32>;

/// The values of the entries of a label, in their order, each as the bits
/// of its encoding.
pub uninterp spec fn label_values(label: FsLabel) -> Seq<u32>;

/// The region label of each vertex of a parcellation.
pub uninterp spec fn annot_vertex_labels(annot: FsAnnot) -> Seq<i32>;

/// The regions of a parcellation's colour table, in their order: the label
/// of each, then its red, green, blue and alpha.
pub uninterp spec fn annot_regions(annot: FsAnnot) -> Seq<(i32, i32, i32, i32, i32)>;

/// The values of a morphometry data set, each as the bits of its encoding.
pub uninterp spec fn curv_values(curv: FsCurv) -> Seq<u32>;

/// The length of the field `vertexes` of an `FsLabel`: every entry has an
/// index and a value.
#[verifier::external_body]
pub(crate) fn label_len(label: &FsLabel) -> (n: usize)
    ensures
        n == label_indices(*label).len(),
        n == label_values(*label).len(),
{
    label.vertexes.len()
}

/// The field `index` of one entry of an `FsLabel`.
#[verifier::external_body]
pub(crate) fn label_index_at(label: &FsLabel, i: usize) -> (index: i32)
    requires
        i < label_indices(*label).len(),
    ensures
        index == label_indices(*label)[i as int],
{
    label.vertexes[i].index
}

/// `FsLabel::is_binary`: whether every value after the first equals the
/// first, as numbers compare. It panics on a label without entries.
#[verifier::external_body]
pub(crate) fn label_is_binary(label: &FsLabel) -> (binary: bool)
    requires
        label_values(*label).len() > 0,
    ensures
        binary == is_binary(label_values(*label)),
{
    label.is_binary()
}

/// `FsLabel::is_surface_vertex_in_label`: for each of the surface's vertices
/// whether an entry of the label has its index. It panics where the label
/// has more entries than the surface has vertices, and where an entry's
/// index is not a vertex of the surface.
#[verifier::external_body]
pub(crate) fn label_membership(label: &FsLabel, num_surface_verts: usize) -> (mask: Vec<bool>)
    requires
        fits_surface(label_indices(*label), num_surface_verts as int),
    ensures
        mask@ == membership(label_indices(*label), num_surface_verts as int),
{
    label.is_surface_vertex_in_label(num_surface_verts)
}

/// `FsAnnot::num_regions`: the number of regions in the colour table.
#[verifier::external_body]
pub(crate) fn annot_num_regions(annot: &FsAnnot) -> (n: usize)
    ensures
        n == annot_regions(*annot).len(),
{
    annot.num_regions()
}

/// The field `label` of one region of the colour table of an `FsAnnot`.
#[verifier::external_body]
pub(crate) fn annot_region_label_at(annot: &FsAnnot, i: usize) -> (label: i32)
    requires
        i < annot_regions(*annot).len(),
    ensures
        label == annot_regions(*annot)[i as int].0,
{
    annot.colortable.regions[i].label
}

/// The length of the field `vertex_labels` of an `FsAnnot`.
#[verifier::external_body]
pub(crate) fn annot_vertex_count(annot: &FsAnnot) -> (n: usize)
    ensures
        n == annot_vertex_labels(*annot).len(),
{
    annot.vertex_labels.len()
}

/// One entry of the field `vertex_labels` of an `FsAnnot`.
#[verifier::external_body]
pub(crate) fn annot_vertex_label_at(annot: &FsAnnot, i: usize) -> (label: i32)
    requires
        i < annot_vertex_labels(*annot).len(),
    ensures
        label == annot_vertex_labels(*annot)[i as int],
{
    annot.vertex_labels[i]
}

/// `FsAnnot::vertex_colors` with alpha: for each vertex the four colour
/// values of its region, each cut to a byte; the region is the first of the
/// table with the vertex's label, and the one at `unmatched_region_index`
/// where there is none. It panics where a vertex has a label of no region
/// and that index is not in the table.
#[verifier::external_body]
pub(crate) fn annot_vertex_colors(annot: &FsAnnot, unmatched_region_index: usize) -> (colors: Vec<
    u8,
>)
    requires
        unmatched_region_index < annot_regions(*annot).len() || all_matched(
            annot_vertex_labels(*annot),
            annot_regions(*annot),
        ),
    ensures
        colors@ == region_colors(
            annot_vertex_labels(*annot),
            annot_regions(*annot),
            unmatched_region_index as int,
        ),
{
    annot.vertex_colors(true, unmatched_region_index)
}

/// The length of the field `data` of an `FsCurv`.
#[verifier::external_body]
pub(crate) fn curv_len(curv: &FsCurv) -> (n: usize)
    ensures
        n == curv_values(*curv).len(),
{
    curv.data.len()
}

/// One entry of the field `data` of an `FsCurv`, through `to_bits`.
#[verifier::external_body]
pub(crate) fn curv_value_at(curv: &FsCurv, i: usize) -> (bits: u32)
    requires
        i < curv_values(*curv).len(),
    ensures
        bits == curv_values(*curv)[i as int],
{
    curv.data[i].to_bits()
}

/// Whether a label is binary: all its entries have the value of the first.
pub open spec fn is_binary(values: Seq<u32>) -> bool {
    forall|i: int| 1 <= i < values.len() ==> crate::binary32::same_number(#[trigger] values[i], values[0])
}

/// Whether a label can belong to a surface of `n` vertices: it has no more
/// entries than that, and every entry is a vertex of the surface.
pub open spec fn fits_surface(indices: Seq<i32>, n: int) -> bool {
    &&& indices.len() <= n
    &&& forall|j: int| 0 <= j < indices.len() ==> 0 <= #[trigger] indices[j] < n
}

/// Whether the vertex `v` is in the label.
pub open spec fn in_label(indices: Seq<i32>, v: int) -> bool {
    exists|j: int| 0 <= j < indices.len() && #[trigger] indices[j] == v
}

/// For each vertex of a surface of `n` vertices, whether it is in the label.
pub open spec fn membership(indices: Seq<i32>, n: int) -> Seq<bool> {
    Seq::new(n as nat, |v: int| in_label(indices, v))
}

/// Whether a region of the table has the label.
pub open spec fn has_region(regions: Seq<(i32, i32, i32, i32, i32)>, label: i32) -> bool {
    exists|i: int| 0 <= i < regions.len() && (#[trigger] regions[i]).0 == label
}

/// Whether every vertex has the label of a region of the table.
pub open spec fn all_matched(
    vertex_labels: Seq<i32>,
    regions: Seq<(i32, i32, i32, i32, i32)>,
) -> bool {
    forall|v: int| 0 <= v < vertex_labels.len() ==> has_region(regions, #[trigger] vertex_labels[v])
}

/// Whether the region at `i` is the first of the table with the label.
pub open spec fn is_first_match(regions: Seq<(i32, i32, i32, i32, i32)>, label: i32, i: int) -> bool {
    &&& 0 <= i < regions.len()
    &&& regions[i].0 == label
    &&& forall|j: int| 0 <= j < i ==> (#[trigger] regions[j]).0 != label
}

/// The region of a vertex: the first of the table with the vertex's label,
/// and the one at `unmatched` where there is none.
pub open spec fn region_index(regions: Seq<(i32, i32, i32, i32, i32)>, label: i32, unmatched: int) -> int {
    if exists|i: int| is_first_match(regions, label, i) {
        choose|i: int| is_first_match(regions, label, i)
    } else {
        unmatched
    }
}

/// One colour value of a region, cut to a byte: 0 for red, 1 for green, 2
/// for blue, 3 for alpha.
pub open spec fn region_channel(region: (i32, i32, i32, i32, i32), channel: int) -> u8 {
    let value = if channel == 0 {
        region.1
    } else if channel == 1 {
        region.2
    } else if channel == 2 {
        region.3
    } else {
        region.4
    };
    (value % 256) as u8
}

/// The colours of a parcellation's vertices: four bytes for each vertex, the
/// red, green, blue and alpha of its region.
pub open spec fn region_colors(
    vertex_labels: Seq<i32>,
    regions: Seq<(i32, i32, i32, i32, i32)>,
    unmatched: int,
) -> Seq<u8> {
    Seq::new(
        4 * vertex_labels.len(),
        |k: int|
            region_channel(regions[region_index(regions, vertex_labels[k / 4], unmatched)], k % 4),
    )
}

/// A label with what it takes to show it on a surface: the number of the
/// surface's vertices, and the colours inside and outside the label.
#[derive(Debug, PartialEq)]
pub struct FsLabelDisplay {
    pub label: FsLabel,
    pub num_surface_verts: usize,
    pub color_bin_inside: [u8; 4],
    pub color_bin_outside: [u8; 4],
}

/// A parcellation with the region that stands for vertices whose label
/// matches no region.
#[derive(Debug, PartialEq)]
pub struct FsAnnotDisplay {
    pub annot: FsAnnot,
    pub unmatched_region_index: usize,
}

/// Morphometry data with what the gradient gave for each of its values. The
/// shades are looked at only where the numbers of the data have a range.
pub struct FsCurvDisplay {
    pub curv: FsCurv,
    pub shades: Vec<Color>,
}

} // verus!
