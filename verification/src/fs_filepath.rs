//! Functions for constructing paths to files, based on the standard
//! FreeSurfer recon-all ouput directory strucure: surfaces and morphometry
//! data under `surf`, labels and parcellations under `label`.
//!
//! Whether a file exists is for the caller to find out; what follows from
//! the answer is decided here.

use vstd::prelude::*;
use vstd::string::*;
use crate::brainmesh::FsDisplayable;
use crate::error::{BrainviewError, FileRole, Result};

verus! {

/// A path with another adjoined: the other alone where it starts at the
/// root, and else both with one separator between them, which is not added
/// where the first is empty or ends in one.
pub open spec fn joined(base: Seq<char>, rest: Seq<char>) -> Seq<char> {
    if rest.len() > 0 && rest[0] == '/' {
        rest
    } else if base.len() == 0 || base.last() == '/' {
        base + rest
    } else {
        base + seq!['/'] + rest
    }
}

/// The path of a file in a subdirectory of a base directory; in the base
/// directory itself where no subdirectory is named.
pub open spec fn file_from_base(base: Seq<char>, fs_file: Seq<char>, subdir: Seq<char>) -> Seq<
    char,
> {
    if subdir.len() == 0 {
        joined(base, fs_file)
    } else {
        joined(joined(base, subdir), fs_file)
    }
}

/// The subdirectory for surfaces and morphometry data.
pub open spec fn surf_dir() -> Seq<char> {
    seq!['s', 'u', 'r', 'f']
}

/// The subdirectory for labels and parcellations.
pub open spec fn label_dir() -> Seq<char> {
    seq!['l', 'a', 'b', 'e', 'l']
}

/// The subdirectory in which data of a display kind lies.
pub open spec fn vis_dir(vis_type: FsDisplayable) -> Seq<char> {
    match vis_type {
        FsDisplayable::Curv => surf_dir(),
        FsDisplayable::Annot => label_dir(),
        FsDisplayable::Label => label_dir(),
    }
}

/// What a file with data of a display kind is read as.
pub open spec fn vis_role(vis_type: FsDisplayable) -> FileRole {
    match vis_type {
        FsDisplayable::Curv => FileRole::Curvature,
        FsDisplayable::Annot => FileRole::Annotation,
        FsDisplayable::Label => FileRole::Label,
    }
}

/// Adjoins a path to another.
pub fn join_path(base: &str, rest: &str) -> (path: String)
    ensures
        path@ == joined(base@, rest@),
{
    proof {
        reveal_strlit("/");
    }
    let rest_len = rest.unicode_len();
    if rest_len > 0 && rest.get_char(0) == '/' {
        return rest.to_owned();
    }
    let base_len = base.unicode_len();
    let mut path = base.to_owned();
    if base_len > 0 && base.get_char(base_len - 1) != '/' {
        path.append("/");
        assert("/"@ =~= seq!['/']);
    }
    path.append(rest);
    path
}

/// The path of a file in a subdirectory of a base directory.
pub fn fs_file_from_base(base_path: &str, fs_file: &str, subdir: &str) -> (path: String)
    ensures
        path@ == file_from_base(base_path@, fs_file@, subdir@),
{
    if subdir.unicode_len() == 0 {
        join_path(base_path, fs_file)
    } else {
        let dir = join_path(base_path, subdir);
        join_path(dir.as_str(), fs_file)
    }
}

/// The path of a surface file.
pub fn fs_surf_file_from_base(base_path: &str, fs_file: &str) -> (path: String)
    ensures
        path@ == file_from_base(base_path@, fs_file@, surf_dir()),
{
    proof {
        reveal_strlit("surf");
    }
    assert("surf"@ =~= surf_dir());
    fs_file_from_base(base_path, fs_file, "surf")
}

/// The path of a morphometry data file.
pub fn fs_curv_file_from_base(base_path: &str, fs_file: &str) -> (path: String)
    ensures
        path@ == file_from_base(base_path@, fs_file@, surf_dir()),
{
    proof {
        reveal_strlit("surf");
    }
    assert("surf"@ =~= surf_dir());
    fs_file_from_base(base_path, fs_file, "surf")
}

/// The path of a label file.
pub fn fs_label_file_from_base(base_path: &str, fs_file: &str) -> (path: String)
    ensures
        path@ == file_from_base(base_path@, fs_file@, label_dir()),
{
    proof {
        reveal_strlit("label");
    }
    assert("label"@ =~= label_dir());
    fs_file_from_base(base_path, fs_file, "label")
}

/// The path of a parcellation file.
pub fn fs_annot_file_from_base(base_path: &str, fs_file: &str) -> (path: String)
    ensures
        path@ == file_from_base(base_path@, fs_file@, label_dir()),
{
    proof {
        reveal_strlit("label");
    }
    assert("label"@ =~= label_dir());
    fs_file_from_base(base_path, fs_file, "label")
}

/// What to make of a path once it is known whether the file exists: a file
/// that must exist and does not is an error that names the path and what the
/// file was to be read as.
pub fn found_or_error(path: String, role: FileRole, must_exist: bool, exists: bool) -> (found:
    Result<String>)
    ensures
        !must_exist || exists ==> found == Ok::<String, BrainviewError>(path),
        must_exist && !exists ==> found == Err::<String, BrainviewError>(
            BrainviewError::FileNotFound { path, role },
        ),
{
    if must_exist && !exists {
        Err(BrainviewError::FileNotFound { path, role })
    } else {
        Ok(path)
    }
}

/// The two files that a coloured mesh is made of, and the kind of the data.
#[derive(Debug, Clone, PartialEq, Eq)]
pub struct MeshSource {
    pub surface_file: String,
    pub vis_file: String,
    pub vis_type: FsDisplayable,
}

impl MeshSource {
    /// The files of a label, annot or curv file and its surface in a
    /// FreeSurfer directory. This typically represents a single hemisphere.
    pub fn from_freesurfer_type_base(
        base_path: &str,
        surface_file: &str,
        vis_file: &str,
        vis_type: &FsDisplayable,
    ) -> (source: MeshSource)
        ensures
            source.surface_file@ == file_from_base(base_path@, surface_file@, surf_dir()),
            source.vis_file@ == file_from_base(base_path@, vis_file@, vis_dir(*vis_type)),
            source.vis_type == *vis_type,
    {
        let surface = fs_surf_file_from_base(base_path, surface_file);
        let vis = match vis_type {
            FsDisplayable::Annot => fs_annot_file_from_base(base_path, vis_file),
            FsDisplayable::Curv => fs_curv_file_from_base(base_path, vis_file),
            FsDisplayable::Label => fs_label_file_from_base(base_path, vis_file),
        };
        MeshSource { surface_file: surface, vis_file: vis, vis_type: *vis_type }
    }

    /// The files of morphometry data and its surface in a FreeSurfer
    /// directory.
    pub fn from_freesurfer_curv_base(base_path: &str, surface_file: &str, curv_file: &str) -> (source:
        MeshSource)
        ensures
            source.surface_file@ == file_from_base(base_path@, surface_file@, surf_dir()),
            source.vis_file@ == file_from_base(base_path@, curv_file@, surf_dir()),
            source.vis_type == FsDisplayable::Curv,
    {
        MeshSource::from_freesurfer_type_base(
            base_path,
            surface_file,
            curv_file,
            &FsDisplayable::Curv,
        )
    }

    /// The files of a parcellation and its surface in a FreeSurfer
    /// directory.
    pub fn from_freesurfer_annot_base(base_path: &str, surface_file: &str, annot_file: &str) -> (source:
        MeshSource)
        ensures
            source.surface_file@ == file_from_base(base_path@, surface_file@, surf_dir()),
            source.vis_file@ == file_from_base(base_path@, annot_file@, label_dir()),
            source.vis_type == FsDisplayable::Annot,
    {
        MeshSource::from_freesurfer_type_base(
            base_path,
            surface_file,
            annot_file,
            &FsDisplayable::Annot,
        )
    }

    /// The files of a label and its surface in a FreeSurfer directory.
    pub fn from_freesurfer_label_base(base_path: &str, surface_file: &str, label_file: &str) -> (source:
        MeshSource)
        ensures
            source.surface_file@ == file_from_base(base_path@, surface_file@, surf_dir()),
            source.vis_file@ == file_from_base(base_path@, label_file@, label_dir()),
            source.vis_type == FsDisplayable::Label,
    {
        MeshSource::from_freesurfer_type_base(
            base_path,
            surface_file,
            label_file,
            &FsDisplayable::Label,
        )
    }

    /// The files of a coloured mesh, given by their own paths.
    pub fn from_freesurfer_type(surface_file: &str, vis_file: &str, vis_type: &FsDisplayable) -> (source:
        MeshSource)
        ensures
            source.surface_file@ == surface_file@,
            source.vis_file@ == vis_file@,
            source.vis_type == *vis_type,
    {
        MeshSource {
            surface_file: surface_file.to_owned(),
            vis_file: vis_file.to_owned(),
            vis_type: *vis_type,
        }
    }

    /// The files of a coloured mesh in a FreeSurfer directory, with the
    /// display kind as text. Text that names no display kind is an error,
    /// whatever the directory and the files are.
    pub fn resolve(base_path: &str, surface_file: &str, vis_file: &str, vis_type: &str) -> (source:
        Result<MeshSource>)
        ensures
            match FsDisplayable::parse(vis_type@) {
                Some(kind) => source matches Ok(s) && s.surface_file@ == file_from_base(
                    base_path@,
                    surface_file@,
                    surf_dir(),
                ) && s.vis_file@ == file_from_base(base_path@, vis_file@, vis_dir(kind))
                    && s.vis_type == kind,
                None => source matches Err(BrainviewError::StringNotFsDisplayable { given })
                    && given@ == vis_type@,
            },
    {
        match FsDisplayable::from_str(vis_type) {
            Err(e) => Err(e),
            Ok(kind) => Ok(
                MeshSource::from_freesurfer_type_base(base_path, surface_file, vis_file, &kind),
            ),
        }
    }

    /// What the file with the data is read as.
    pub fn role(&self) -> (role: FileRole)
        ensures
            role == vis_role(self.vis_type),
    {
        match self.vis_type {
            FsDisplayable::Curv => FileRole::Curvature,
            FsDisplayable::Annot => FileRole::Annotation,
            FsDisplayable::Label => FileRole::Label,
        }
    }

    /// The first of the two files that does not exist, as an error: the
    /// surface before the data.
    pub fn missing(&self, surface_exists: bool, vis_exists: bool) -> (missing: Option<
        BrainviewError,
    >)
        ensures
            !surface_exists ==> (missing matches Some(BrainviewError::FileNotFound { path, role })
                && path@ == self.surface_file@ && role == FileRole::Surface),
            surface_exists && !vis_exists ==> (missing matches Some(
                BrainviewError::FileNotFound { path, role },
            ) && path@ == self.vis_file@ && role == vis_role(self.vis_type)),
            surface_exists && vis_exists ==> missing is None,
    {
        if !surface_exists {
            Some(
                BrainviewError::FileNotFound {
                    path: self.surface_file.clone(),
                    role: FileRole::Surface,
                },
            )
        } else if !vis_exists {
            Some(BrainviewError::FileNotFound { path: self.vis_file.clone(), role: self.role() })
        } else {
            None
        }
    }
}

/// The name of a file with the prefix of the left hemisphere.
pub open spec fn left(name: Seq<char>) -> Seq<char> {
    seq!['l', 'h', '.'] + name
}

/// The name of a file with the prefix of the right hemisphere.
pub open spec fn right(name: Seq<char>) -> Seq<char> {
    seq!['r', 'h', '.'] + name
}

/// The files of both hemispheres of a brain.
#[derive(Debug, Clone, PartialEq, Eq)]
pub struct BrainSource {
    pub lh: MeshSource,
    pub rh: MeshSource,
}

impl BrainSource {
    /// The files of a brain in a FreeSurfer directory, from the names of the
    /// surface and of the data without the hemisphere: `lh.` is put before
    /// them for the left hemisphere and `rh.` for the right.
    pub fn from_freesurfer_type_base(
        base_path: &str,
        surface_file_no_hemi: &str,
        vis_file_no_hemi: &str,
        vis_type: &FsDisplayable,
    ) -> (source: BrainSource)
        ensures
            source.lh.surface_file@ == file_from_base(
                base_path@,
                left(surface_file_no_hemi@),
                surf_dir(),
            ),
            source.lh.vis_file@ == file_from_base(
                base_path@,
                left(vis_file_no_hemi@),
                vis_dir(*vis_type),
            ),
            source.rh.surface_file@ == file_from_base(
                base_path@,
                right(surface_file_no_hemi@),
                surf_dir(),
            ),
            source.rh.vis_file@ == file_from_base(
                base_path@,
                right(vis_file_no_hemi@),
                vis_dir(*vis_type),
            ),
            source.lh.vis_type == *vis_type,
            source.rh.vis_type == *vis_type,
    {
        proof {
            reveal_strlit("lh.");
            reveal_strlit("rh.");
        }
        assert("lh."@ =~= seq!['l', 'h', '.']);
        assert("rh."@ =~= seq!['r', 'h', '.']);
        let lh_surface_file = "lh.".to_owned().concat(surface_file_no_hemi);
        let rh_surface_file = "rh.".to_owned().concat(surface_file_no_hemi);
        let lh_vis_file = "lh.".to_owned().concat(vis_file_no_hemi);
        let rh_vis_file = "rh.".to_owned().concat(vis_file_no_hemi);
        let lh = MeshSource::from_freesurfer_type_base(
            base_path,
            lh_surface_file.as_str(),
            lh_vis_file.as_str(),
            vis_type,
        );
        let rh = MeshSource::from_freesurfer_type_base(
            base_path,
            rh_surface_file.as_str(),
            rh_vis_file.as_str(),
            vis_type,
        );
        BrainSource { lh, rh }
    }

    /// The files of a brain, given by their own paths for both hemispheres.
    pub fn from_freesurfer_type(
        lh_surface_file: &str,
        rh_surface_file: &str,
        lh_vis_file: &str,
        rh_vis_file: &str,
        vis_type: &FsDisplayable,
    ) -> (source: BrainSource)
        ensures
            source.lh.surface_file@ == lh_surface_file@,
            source.lh.vis_file@ == lh_vis_file@,
            source.rh.surface_file@ == rh_surface_file@,
            source.rh.vis_file@ == rh_vis_file@,
            source.lh.vis_type == *vis_type,
            source.rh.vis_type == *vis_type,
    {
        BrainSource {
            lh: MeshSource::from_freesurfer_type(lh_surface_file, lh_vis_file, vis_type),
            rh: MeshSource::from_freesurfer_type(rh_surface_file, rh_vis_file, vis_type),
        }
    }
}

} // verus!
