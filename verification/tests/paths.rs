use libbrainview::fs_filepath::{
    found_or_error, fs_annot_file_from_base, fs_curv_file_from_base, fs_file_from_base,
    fs_label_file_from_base, fs_surf_file_from_base, join_path, BrainSource, MeshSource,
};
use libbrainview::{BrainviewError, FileRole, FsDisplayable};
use std::path::Path;

#[test]
fn surfaces_lie_under_surf() {
    assert_eq!(fs_surf_file_from_base("/data/subject1", "lh.white"), "/data/subject1/surf/lh.white");
}

#[test]
fn morphometry_lies_under_surf() {
    assert_eq!(
        fs_curv_file_from_base("/data/subject1", "rh.thickness"),
        "/data/subject1/surf/rh.thickness"
    );
}

#[test]
fn labels_lie_under_label() {
    assert_eq!(
        fs_label_file_from_base("subjects/s1", "lh.entorhinal_exvivo.label"),
        "subjects/s1/label/lh.entorhinal_exvivo.label"
    );
}

#[test]
fn parcellations_lie_under_label() {
    assert_eq!(
        fs_annot_file_from_base("subjects/s1/", "lh.aparc.annot"),
        "subjects/s1/label/lh.aparc.annot"
    );
}

#[test]
fn no_subdirectory_means_the_base_directory() {
    assert_eq!(fs_file_from_base("/data", "lh.white", ""), "/data/lh.white");
}

#[test]
fn a_file_given_from_the_root_stands_alone() {
    assert_eq!(fs_surf_file_from_base("/data/subject1", "/tmp/lh.white"), "/tmp/lh.white");
}

#[test]
fn joining_agrees_with_the_standard_library() {
    let cases = [
        ("", ""),
        ("", "a"),
        ("a", ""),
        ("a", "b"),
        ("a/", "b"),
        ("a//", "b"),
        ("/", "b"),
        ("/a/b", "c/d"),
        ("a", "/b"),
        ("a/", "/"),
        (".", "surf"),
        ("resources/subjects_dir/subject1/", "lh.white"),
        ("\u{e4}\u{f6}", "\u{fc}.label"),
    ];
    for (base, rest) in cases {
        let expected = Path::new(base).join(rest);
        assert_eq!(join_path(base, rest), expected.to_str().unwrap(), "{:?} {:?}", base, rest);
    }
}

#[test]
fn a_missing_file_that_must_exist_is_an_error_with_path_and_role() {
    let found = found_or_error("/data/s1/surf/lh.white".to_string(), FileRole::Surface, true, false);
    assert_eq!(
        found,
        Err(BrainviewError::FileNotFound {
            path: "/data/s1/surf/lh.white".to_string(),
            role: FileRole::Surface,
        })
    );
}

#[test]
fn a_path_passes_where_the_file_exists_or_need_not() {
    for (must_exist, exists) in [(true, true), (false, true), (false, false)] {
        let found = found_or_error("p".to_string(), FileRole::Label, must_exist, exists);
        assert_eq!(found, Ok("p".to_string()));
    }
}

#[test]
fn the_surface_is_missed_before_the_data() {
    let source =
        MeshSource::from_freesurfer_type_base("/s", "lh.white", "lh.thickness", &FsDisplayable::Curv);
    assert_eq!(
        source.missing(false, false),
        Some(BrainviewError::FileNotFound {
            path: "/s/surf/lh.white".to_string(),
            role: FileRole::Surface,
        })
    );
    assert_eq!(
        source.missing(true, false),
        Some(BrainviewError::FileNotFound {
            path: "/s/surf/lh.thickness".to_string(),
            role: FileRole::Curvature,
        })
    );
    assert_eq!(source.missing(true, true), None);
}

#[test]
fn each_kind_has_its_role_and_directory() {
    let curv = MeshSource::from_freesurfer_curv_base("/s", "lh.white", "lh.curv");
    assert_eq!(curv.vis_file, "/s/surf/lh.curv");
    assert_eq!(curv.vis_type, FsDisplayable::Curv);
    assert_eq!(curv.role(), FileRole::Curvature);
    let annot = MeshSource::from_freesurfer_annot_base("/s", "lh.white", "lh.aparc.annot");
    assert_eq!(annot.vis_file, "/s/label/lh.aparc.annot");
    assert_eq!(annot.vis_type, FsDisplayable::Annot);
    assert_eq!(annot.role(), FileRole::Annotation);
    let label = MeshSource::from_freesurfer_label_base("/s", "lh.white", "lh.cortex.label");
    assert_eq!(label.vis_file, "/s/label/lh.cortex.label");
    assert_eq!(label.vis_type, FsDisplayable::Label);
    assert_eq!(label.role(), FileRole::Label);
    assert_eq!(label.surface_file, "/s/surf/lh.white");
}

#[test]
fn explicit_paths_are_taken_as_they_are() {
    let source = MeshSource::from_freesurfer_type("/a/lh.white", "b/lh.x.label", &FsDisplayable::Label);
    assert_eq!(source.surface_file, "/a/lh.white");
    assert_eq!(source.vis_file, "b/lh.x.label");
    assert_eq!(source.vis_type, FsDisplayable::Label);
}

#[test]
fn a_brain_has_both_hemispheres_by_prefix() {
    let brain =
        BrainSource::from_freesurfer_type_base("/s", "white", "thickness", &FsDisplayable::Curv);
    assert_eq!(brain.lh.surface_file, "/s/surf/lh.white");
    assert_eq!(brain.rh.surface_file, "/s/surf/rh.white");
    assert_eq!(brain.lh.vis_file, "/s/surf/lh.thickness");
    assert_eq!(brain.rh.vis_file, "/s/surf/rh.thickness");
    assert_eq!(brain.lh.vis_type, FsDisplayable::Curv);
    assert_eq!(brain.rh.vis_type, FsDisplayable::Curv);
}

#[test]
fn a_brain_from_explicit_paths_keeps_each_path() {
    let brain = BrainSource::from_freesurfer_type("l.s", "r.s", "l.v", "r.v", &FsDisplayable::Annot);
    assert_eq!(brain.lh.surface_file, "l.s");
    assert_eq!(brain.rh.surface_file, "r.s");
    assert_eq!(brain.lh.vis_file, "l.v");
    assert_eq!(brain.rh.vis_file, "r.v");
    assert_eq!(brain.rh.vis_type, FsDisplayable::Annot);
}
