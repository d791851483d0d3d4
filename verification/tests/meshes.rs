use colorous::Color;
use libbrainview::{BrainviewError, ColoredBrain, ColoredBrainMesh, FsDisplayable, FsVisData};
use neuroformats::fs_annot::FsAnnotColorRegion;
use neuroformats::fs_label::FsLabelVertex;
use neuroformats::{BrainMesh, FsAnnot, FsAnnotColortable, FsCurv, FsCurvHeader, FsLabel};

/// A mesh of three vertices and one face.
fn triangle() -> BrainMesh {
    BrainMesh { vertices: vec![0.0, 0.0, 0.0, 1.0, 0.0, 0.0, 0.0, 1.0, 0.0], faces: vec![0, 1, 2] }
}

/// A mesh of two vertices.
fn edge() -> BrainMesh {
    BrainMesh { vertices: vec![0.0, 0.0, 0.0, 1.0, 1.0, 1.0], faces: Vec::new() }
}

fn curv(data: Vec<f32>) -> FsCurv {
    FsCurv { header: FsCurvHeader::default(), data }
}

fn shades(n: u8) -> Vec<Color> {
    (0..n).map(|i| Color { r: 10 * i, g: 10 * i + 1, b: 10 * i + 2 }).collect()
}

fn label(indices: &[i32]) -> FsLabel {
    FsLabel {
        vertexes: indices
            .iter()
            .map(|index| FsLabelVertex { index: *index, coord1: 0.0, coord2: 0.0, coord3: 0.0, value: 0.0 })
            .collect(),
    }
}

fn annot(vertex_labels: Vec<i32>) -> FsAnnot {
    let regions = vec![
        FsAnnotColorRegion { id: 0, name: "unknown".to_string(), r: 25, g: 5, b: 25, a: 0, label: 1639705 },
        FsAnnotColorRegion { id: 1, name: "bankssts".to_string(), r: 25, g: 100, b: 40, a: 0, label: 2647065 },
    ];
    FsAnnot {
        vertex_indices: (0..vertex_labels.len() as i32).collect(),
        vertex_labels,
        colortable: FsAnnotColortable { regions },
    }
}

#[test]
fn a_mesh_takes_four_bytes_for_each_vertex() {
    let colors: Vec<u8> = (0..12).collect();
    let cbm = ColoredBrainMesh::from_brainmesh_and_colors(&triangle(), colors.clone()).unwrap();
    assert_eq!(cbm.colors_rgba_u8(), colors);
    assert_eq!(cbm.mesh(), &triangle());
}

#[test]
fn any_other_number_of_bytes_is_a_shape_mismatch() {
    for n in [0usize, 1, 8, 11, 13, 16, 9] {
        let built = ColoredBrainMesh::from_brainmesh_and_colors(&triangle(), vec![0; n]);
        assert_eq!(built, Err(BrainviewError::ShapeMismatch), "{}", n);
    }
}

#[test]
fn a_mesh_without_vertices_takes_no_colours() {
    let nothing = BrainMesh { vertices: Vec::new(), faces: Vec::new() };
    let cbm = ColoredBrainMesh::from_brainmesh_and_colors(&nothing, Vec::new()).unwrap();
    assert_eq!(cbm.colors_rgba_u8(), Vec::<u8>::new());
    let two_coordinates = BrainMesh { vertices: vec![1.0, 2.0], faces: Vec::new() };
    assert!(ColoredBrainMesh::from_brainmesh_and_colors(&two_coordinates, Vec::new()).is_ok());
}

#[test]
fn colours_of_data_are_the_encoding_of_the_data() {
    let values = [0.5f32, f32::NAN, 2.5];
    let data: Vec<u32> = values.iter().map(|v| v.to_bits()).collect();
    let direct = libbrainview::color_from_data(&data, &shades(3)).unwrap();
    let cbm = ColoredBrainMesh::from_brainmesh_and_data(&triangle(), &data, &shades(3)).unwrap();
    assert_eq!(cbm.colors_rgba_u8(), direct);
    assert_eq!(cbm.colors_rgba_u8(), vec![0, 1, 2, 255, 245, 245, 245, 255, 20, 21, 22, 255]);
    assert_eq!(cbm.mesh(), &triangle());
}

#[test]
fn data_for_another_number_of_vertices_does_not_fit() {
    let data: Vec<u32> = vec![1.0f32.to_bits(), 2.0f32.to_bits()];
    let built = ColoredBrainMesh::from_brainmesh_and_data(&triangle(), &data, &shades(2));
    assert_eq!(built, Err(BrainviewError::ShapeMismatch));
    let none = ColoredBrainMesh::from_brainmesh_and_data(&triangle(), &Vec::new(), &Vec::new());
    assert_eq!(none, Err(BrainviewError::DegenerateRange));
}

#[test]
fn morphometry_colours_a_mesh() {
    let cbm = ColoredBrainMesh::from_freesurfer_curv(&edge(), curv(vec![1.0, 2.0]), shades(2)).unwrap();
    assert_eq!(cbm.colors_rgba_u8(), vec![0, 1, 2, 255, 10, 11, 12, 255]);
}

#[test]
fn a_parcellation_colours_a_mesh() {
    let cbm = ColoredBrainMesh::from_freesurfer_annot(&triangle(), annot(vec![2647065, 7, 1639705])).unwrap();
    assert_eq!(cbm.colors_rgba_u8(), vec![25, 100, 40, 0, 25, 5, 25, 0, 25, 5, 25, 0]);
}

#[test]
fn a_parcellation_without_vertices_colours_a_mesh_without_vertices() {
    let nothing = BrainMesh { vertices: Vec::new(), faces: Vec::new() };
    let empty = FsAnnot {
        vertex_indices: Vec::new(),
        vertex_labels: Vec::new(),
        colortable: FsAnnotColortable { regions: Vec::new() },
    };
    let cbm = ColoredBrainMesh::from_freesurfer_annot(&nothing, empty).unwrap();
    assert_eq!(cbm.colors_rgba_u8(), Vec::<u8>::new());
    assert_eq!(cbm.mesh(), &nothing);
}

#[test]
fn a_parcellation_with_an_unmatched_vertex_needs_a_region_for_it() {
    let no_table = FsAnnot {
        vertex_indices: vec![0, 1, 2],
        vertex_labels: vec![1, 2, 3],
        colortable: FsAnnotColortable { regions: Vec::new() },
    };
    let built = ColoredBrainMesh::from_freesurfer_annot(&triangle(), no_table);
    assert_eq!(built, Err(BrainviewError::RegionIndexOutOfRange { index: 0 }));
}

#[test]
fn a_parcellation_of_another_surface_does_not_fit() {
    let built = ColoredBrainMesh::from_freesurfer_annot(&triangle(), annot(vec![2647065, 7]));
    assert_eq!(built, Err(BrainviewError::ShapeMismatch));
}

#[test]
fn a_label_colours_a_mesh_red_on_white() {
    let cbm = ColoredBrainMesh::from_freesurfer_label(&triangle(), label(&[1])).unwrap();
    assert_eq!(
        cbm.colors_rgba_u8(),
        vec![255, 255, 255, 255, 255, 0, 0, 255, 255, 255, 255, 255]
    );
}

#[test]
fn a_label_of_a_larger_surface_does_not_fit() {
    let built = ColoredBrainMesh::from_freesurfer_label(&triangle(), label(&[3]));
    assert_eq!(built, Err(BrainviewError::ShapeMismatch));
}

#[test]
fn the_kind_of_the_data_selects_the_colouring() {
    let by_curv = ColoredBrainMesh::from_freesurfer_type(&edge(), FsVisData::Curv(curv(vec![1.0, 2.0]), shades(2)));
    assert_eq!(by_curv.unwrap().colors_rgba_u8(), vec![0, 1, 2, 255, 10, 11, 12, 255]);
    let by_annot = ColoredBrainMesh::from_freesurfer_type(&edge(), FsVisData::Annot(annot(vec![1639705, 2647065])));
    assert_eq!(by_annot.unwrap().colors_rgba_u8(), vec![25, 5, 25, 0, 25, 100, 40, 0]);
    let by_label = ColoredBrainMesh::from_freesurfer_type(&edge(), FsVisData::Label(label(&[0])));
    assert_eq!(by_label.unwrap().colors_rgba_u8(), vec![255, 0, 0, 255, 255, 255, 255, 255]);
}

#[test]
fn data_knows_its_kind() {
    assert_eq!(FsVisData::Curv(curv(Vec::new()), Vec::new()).kind(), FsDisplayable::Curv);
    assert_eq!(FsVisData::Annot(annot(Vec::new())).kind(), FsDisplayable::Annot);
    assert_eq!(FsVisData::Label(label(&[])).kind(), FsDisplayable::Label);
}

#[test]
fn a_brain_has_both_hemispheres() {
    let brain = ColoredBrain::from_freesurfer_type(
        &triangle(),
        &edge(),
        FsVisData::Label(label(&[0, 2])),
        FsVisData::Label(label(&[1])),
    )
    .unwrap();
    assert_eq!(brain.lh.mesh(), &triangle());
    assert_eq!(brain.rh.mesh(), &edge());
    assert_eq!(
        brain.lh.colors_rgba_u8(),
        vec![255, 0, 0, 255, 255, 255, 255, 255, 255, 0, 0, 255]
    );
    assert_eq!(brain.rh.colors_rgba_u8(), vec![255, 255, 255, 255, 255, 0, 0, 255]);
    let both = brain.to_vec();
    assert_eq!(both.len(), 2);
    assert_eq!(both[0], brain.lh);
    assert_eq!(both[1], brain.rh);
}

#[test]
fn half_a_brain_is_no_brain() {
    let right_fails = ColoredBrain::from_freesurfer_type(
        &triangle(),
        &edge(),
        FsVisData::Label(label(&[0])),
        FsVisData::Label(label(&[])),
    );
    assert_eq!(right_fails, Err(BrainviewError::LabelNotBinary));
    let left_fails = ColoredBrain::from_freesurfer_type(
        &triangle(),
        &edge(),
        FsVisData::Label(label(&[5])),
        FsVisData::Label(label(&[0])),
    );
    assert_eq!(left_fails, Err(BrainviewError::ShapeMismatch));
    let both_fail = ColoredBrain::from_freesurfer_type(
        &triangle(),
        &edge(),
        FsVisData::Label(label(&[5])),
        FsVisData::Label(label(&[])),
    );
    assert_eq!(both_fail, Err(BrainviewError::ShapeMismatch));
}

#[test]
fn a_copy_of_a_coloured_mesh_is_the_same_mesh() {
    let cbm = ColoredBrainMesh::from_brainmesh_and_colors(&edge(), vec![1, 2, 3, 4, 5, 6, 7, 8]).unwrap();
    let copy = cbm.clone();
    assert_eq!(copy, cbm);
    assert_eq!(copy.colors_rgba_u8(), vec![1, 2, 3, 4, 5, 6, 7, 8]);
}
