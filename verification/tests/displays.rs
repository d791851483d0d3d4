use colorous::Color;
use libbrainview::{BrainviewError, FsAnnotDisplay, FsCurvDisplay, FsLabelDisplay, VertexColor};
use neuroformats::fs_annot::FsAnnotColorRegion;
use neuroformats::fs_label::FsLabelVertex;
use neuroformats::{FsAnnot, FsAnnotColortable, FsCurv, FsCurvHeader, FsLabel};

fn label(entries: &[(i32, f32)]) -> FsLabel {
    FsLabel {
        vertexes: entries
            .iter()
            .map(|(index, value)| FsLabelVertex {
                index: *index,
                coord1: 0.5,
                coord2: -0.5,
                coord3: 1.5,
                value: *value,
            })
            .collect(),
    }
}

fn shown(entries: &[(i32, f32)], num_surface_verts: usize) -> FsLabelDisplay {
    FsLabelDisplay {
        label: label(entries),
        num_surface_verts,
        color_bin_inside: [255, 0, 0, 255],
        color_bin_outside: [255, 255, 255, 255],
    }
}

fn region(id: i32, label: i32, rgba: (i32, i32, i32, i32)) -> FsAnnotColorRegion {
    FsAnnotColorRegion {
        id,
        name: format!("region{}", id),
        r: rgba.0,
        g: rgba.1,
        b: rgba.2,
        a: rgba.3,
        label,
    }
}

fn annot(vertex_labels: Vec<i32>, regions: Vec<FsAnnotColorRegion>) -> FsAnnot {
    FsAnnot {
        vertex_indices: (0..vertex_labels.len() as i32).collect(),
        vertex_labels,
        colortable: FsAnnotColortable { regions },
    }
}

#[test]
fn a_binary_label_is_red_on_white() {
    let display = shown(&[(2, 0.0), (0, 0.0)], 4);
    assert_eq!(
        display.vertex_color_rgba(),
        Ok(vec![255, 0, 0, 255, 255, 255, 255, 255, 255, 0, 0, 255, 255, 255, 255, 255])
    );
}

#[test]
fn as_many_vertices_are_red_as_the_label_has_entries() {
    let display = shown(&[(4, 0.0), (0, 0.0), (3, 0.0)], 6);
    let rgba = display.vertex_color_rgba().unwrap();
    assert_eq!(rgba.len(), 24);
    let red = (0..6).filter(|v| rgba[4 * v..4 * v + 4] == [255, 0, 0, 255]).count();
    let white = (0..6).filter(|v| rgba[4 * v..4 * v + 4] == [255, 255, 255, 255]).count();
    assert_eq!(red, 3);
    assert_eq!(red + white, 6);
}

#[test]
fn a_label_uses_the_colours_it_is_given() {
    let display = FsLabelDisplay {
        label: label(&[(1, 1.0)]),
        num_surface_verts: 2,
        color_bin_inside: [1, 2, 3, 4],
        color_bin_outside: [5, 6, 7, 8],
    };
    assert_eq!(display.vertex_color_rgba(), Ok(vec![5, 6, 7, 8, 1, 2, 3, 4]));
}

#[test]
fn a_label_with_an_entry_twice_colours_the_vertex_once() {
    let display = shown(&[(1, 0.0), (1, 0.0)], 3);
    assert_eq!(
        display.vertex_color_rgba(),
        Ok(vec![255, 255, 255, 255, 255, 0, 0, 255, 255, 255, 255, 255])
    );
}

#[test]
fn zeros_of_either_sign_are_one_value() {
    let display = shown(&[(0, 0.0), (1, -0.0)], 2);
    assert_eq!(display.vertex_color_rgba(), Ok(vec![255, 0, 0, 255, 255, 0, 0, 255]));
}

#[test]
fn a_label_of_different_values_is_not_binary() {
    let display = shown(&[(0, 0.0), (1, 0.5)], 4);
    assert_eq!(display.vertex_color_rgba(), Err(BrainviewError::LabelNotBinary));
}

#[test]
fn a_label_with_a_missing_value_among_others_is_not_binary() {
    let display = shown(&[(0, f32::NAN), (1, f32::NAN)], 4);
    assert_eq!(display.vertex_color_rgba(), Err(BrainviewError::LabelNotBinary));
}

#[test]
fn a_label_without_entries_is_not_binary() {
    let display = shown(&[], 4);
    assert_eq!(display.vertex_color_rgba(), Err(BrainviewError::LabelNotBinary));
}

#[test]
fn a_label_beyond_the_surface_does_not_fit() {
    assert_eq!(shown(&[(4, 0.0)], 4).vertex_color_rgba(), Err(BrainviewError::ShapeMismatch));
    assert_eq!(shown(&[(-1, 0.0)], 4).vertex_color_rgba(), Err(BrainviewError::ShapeMismatch));
    assert_eq!(shown(&[(0, 0.0), (9, 0.0)], 4).vertex_color_rgba(), Err(BrainviewError::ShapeMismatch));
}

#[test]
fn a_label_with_more_entries_than_vertices_does_not_fit() {
    let display = shown(&[(0, 0.0), (0, 0.0), (1, 0.0)], 2);
    assert_eq!(display.vertex_color_rgba(), Err(BrainviewError::ShapeMismatch));
}

#[test]
fn a_label_that_is_not_binary_and_does_not_fit_is_not_binary() {
    let display = shown(&[(0, 0.0), (9, 1.0)], 2);
    assert_eq!(display.vertex_color_rgba(), Err(BrainviewError::LabelNotBinary));
}

#[test]
fn a_parcellation_has_the_colours_of_its_regions() {
    let regions =
        vec![region(0, 100, (25, 5, 25, 0)), region(1, 200, (10, 20, 30, 40)), region(2, 300, (255, 254, 253, 252))];
    let display =
        FsAnnotDisplay { annot: annot(vec![300, 100, 200, 100], regions), unmatched_region_index: 0 };
    assert_eq!(
        display.vertex_color_rgba(),
        Ok(vec![255, 254, 253, 252, 25, 5, 25, 0, 10, 20, 30, 40, 25, 5, 25, 0])
    );
}

#[test]
fn an_unmatched_vertex_gets_the_configured_region() {
    let regions = vec![region(0, 100, (1, 2, 3, 4)), region(1, 200, (5, 6, 7, 8))];
    let first = FsAnnotDisplay { annot: annot(vec![999, 200], regions.clone()), unmatched_region_index: 0 };
    assert_eq!(first.vertex_color_rgba(), Ok(vec![1, 2, 3, 4, 5, 6, 7, 8]));
    let second = FsAnnotDisplay { annot: annot(vec![999, 100], regions), unmatched_region_index: 1 };
    assert_eq!(second.vertex_color_rgba(), Ok(vec![5, 6, 7, 8, 1, 2, 3, 4]));
}

#[test]
fn the_first_region_with_the_label_counts() {
    let regions = vec![region(0, 100, (1, 1, 1, 1)), region(1, 100, (2, 2, 2, 2))];
    let display = FsAnnotDisplay { annot: annot(vec![100], regions), unmatched_region_index: 1 };
    assert_eq!(display.vertex_color_rgba(), Ok(vec![1, 1, 1, 1]));
}

#[test]
fn colour_values_are_cut_to_a_byte() {
    let regions = vec![region(0, 1, (256, 511, -1, 1000))];
    let display = FsAnnotDisplay { annot: annot(vec![1], regions), unmatched_region_index: 0 };
    assert_eq!(display.vertex_color_rgba(), Ok(vec![0, 255, 255, 232]));
}

#[test]
fn the_unmatched_region_must_be_in_the_table_where_a_vertex_is_unmatched() {
    let regions = vec![region(0, 100, (1, 2, 3, 4)), region(1, 200, (5, 6, 7, 8))];
    let display =
        FsAnnotDisplay { annot: annot(vec![100, 999], regions.clone()), unmatched_region_index: 2 };
    assert_eq!(display.vertex_color_rgba(), Err(BrainviewError::RegionIndexOutOfRange { index: 2 }));
    let far = FsAnnotDisplay { annot: annot(vec![999], regions), unmatched_region_index: usize::MAX };
    assert_eq!(
        far.vertex_color_rgba(),
        Err(BrainviewError::RegionIndexOutOfRange { index: usize::MAX })
    );
    let empty = FsAnnotDisplay { annot: annot(vec![100], Vec::new()), unmatched_region_index: 0 };
    assert_eq!(empty.vertex_color_rgba(), Err(BrainviewError::RegionIndexOutOfRange { index: 0 }));
}

#[test]
fn the_unmatched_region_is_not_asked_for_where_every_vertex_is_matched() {
    let regions = vec![region(0, 100, (1, 2, 3, 4)), region(1, 200, (5, 6, 7, 8))];
    let display =
        FsAnnotDisplay { annot: annot(vec![100], regions.clone()), unmatched_region_index: 2 };
    assert_eq!(display.vertex_color_rgba(), Ok(vec![1, 2, 3, 4]));
    let far =
        FsAnnotDisplay { annot: annot(vec![200, 100, 200], regions), unmatched_region_index: 77 };
    assert_eq!(far.vertex_color_rgba(), Ok(vec![5, 6, 7, 8, 1, 2, 3, 4, 5, 6, 7, 8]));
}

#[test]
fn a_parcellation_without_vertices_has_no_colours() {
    let no_table = FsAnnotDisplay { annot: annot(Vec::new(), Vec::new()), unmatched_region_index: 0 };
    assert_eq!(no_table.vertex_color_rgba(), Ok(Vec::new()));
    let regions = vec![region(0, 100, (1, 2, 3, 4))];
    let beyond = FsAnnotDisplay { annot: annot(Vec::new(), regions), unmatched_region_index: 5 };
    assert_eq!(beyond.vertex_color_rgba(), Ok(Vec::new()));
}

#[test]
fn matching_is_told_region_by_region() {
    let regions = vec![region(0, 100, (1, 2, 3, 4)), region(1, 200, (5, 6, 7, 8))];
    let matched = annot(vec![200, 100], regions.clone());
    assert!(libbrainview::vertexcolor::all_vertices_matched(&matched));
    assert!(libbrainview::vertexcolor::region_has_label(&matched, 200));
    assert!(!libbrainview::vertexcolor::region_has_label(&matched, 201));
    let unmatched = annot(vec![200, 100, 300], regions);
    assert!(!libbrainview::vertexcolor::all_vertices_matched(&unmatched));
    assert!(libbrainview::vertexcolor::all_vertices_matched(&annot(Vec::new(), Vec::new())));
    assert!(!libbrainview::vertexcolor::all_vertices_matched(&annot(vec![0], Vec::new())));
}

#[test]
fn morphometry_is_shown_in_its_shades() {
    let display = FsCurvDisplay {
        curv: FsCurv { header: FsCurvHeader::default(), data: vec![0.5, f32::NAN, 2.5] },
        shades: vec![Color { r: 1, g: 2, b: 3 }, Color { r: 4, g: 5, b: 6 }, Color { r: 7, g: 8, b: 9 }],
    };
    assert_eq!(
        display.vertex_color_rgba(),
        Ok(vec![1, 2, 3, 255, 245, 245, 245, 255, 7, 8, 9, 255])
    );
}

#[test]
fn constant_morphometry_is_shown_in_the_middle_of_the_gradient() {
    let display = FsCurvDisplay {
        curv: FsCurv { header: FsCurvHeader::default(), data: vec![-2.0, -2.0] },
        shades: Vec::new(),
    };
    let middle = colorous::VIRIDIS.eval_continuous(0.5);
    assert_eq!(
        display.vertex_color_rgba(),
        Ok(vec![middle.r, middle.g, middle.b, 255, middle.r, middle.g, middle.b, 255])
    );
}

#[test]
fn morphometry_without_values_has_no_range() {
    let display =
        FsCurvDisplay { curv: FsCurv { header: FsCurvHeader::default(), data: Vec::new() }, shades: Vec::new() };
    assert_eq!(display.vertex_color_rgba(), Err(BrainviewError::DegenerateRange));
}

#[test]
fn morphometry_needs_a_shade_for_each_value() {
    let display = FsCurvDisplay {
        curv: FsCurv { header: FsCurvHeader::default(), data: vec![0.5, 1.5] },
        shades: vec![Color { r: 1, g: 2, b: 3 }],
    };
    assert_eq!(display.vertex_color_rgba(), Err(BrainviewError::ShapeMismatch));
}
