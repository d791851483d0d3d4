//! Datastructures modeling brain meshes.

use vstd::prelude::*;
use vstd::string::*;
use colorous::Color;
use neuroformats::{BrainMesh, FsAnnot, FsCurv, FsLabel};
use crate::color::{color_from_data, encoding_of};
use crate::error::{BrainviewError, Result};
use crate::fs_display::{FsAnnotDisplay, FsCurvDisplay, FsLabelDisplay};
use crate::vertexcolor::{annot_rgba, label_rgba, VertexColor};

verus! {

/// A triangular mesh as the decoder gives it: the coordinates of the
/// vertices, three to a vertex, and the vertex indices of the faces.
#[verifier::external_type_specification]
#[verifier::external_body]
pub struct ExBrainMesh(BrainMesh);

/// The coordinates that a mesh holds, x, y and z of each vertex in turn,
/// each as the bits of its encoding.
pub uninterp spec fn mesh_coords(mesh: BrainMesh) -> Seq<u32>;

/// The number of vertices of a mesh: a third of its coordinates.
pub open spec fn mesh_vertex_count(mesh: BrainMesh) -> nat {
    mesh_coords(mesh).len() / 3
}

/// `BrainMesh::num_vertices`: the length of the coordinate vector, divided
/// by three.
#[verifier::external_body]
pub(crate) fn num_vertices(mesh: &BrainMesh) -> (n: usize)
    ensures
        n == mesh_vertex_count(*mesh),
{
    mesh.num_vertices()
}

/// The length of the field `vertices` of a `BrainMesh`.
#[verifier::external_body]
pub(crate) fn coord_count(mesh: &BrainMesh) -> (n: usize)
    ensures
        n == mesh_coords(*mesh).len(),
{
    mesh.vertices.len()
}

/// One entry of the field `vertices` of a `BrainMesh`, through `to_bits`.
#[verifier::external_body]
pub(crate) fn coord_at(mesh: &BrainMesh, i: usize) -> (bits: u32)
    requires
        i < mesh_coords(*mesh).len(),
    ensures
        bits == mesh_coords(*mesh)[i as int],
{
    mesh.vertices[i].to_bits()
}

/// The derived `Clone` of `BrainMesh` copies both vectors.
pub assume_specification[ <BrainMesh as Clone>::clone ](mesh: &BrainMesh) -> (copy: BrainMesh)
    ensures
        copy == *mesh,
;

/// The kinds of per-vertex data that can be shown on a surface.
#[derive(Debug, Clone, Copy, PartialEq, Eq, Structural)]
pub enum FsDisplayable {
    Curv,
    Annot,
    Label,
}

impl FsDisplayable {
    /// The kind that a text names, if it names one.
    pub open spec fn parse(text: Seq<char>) -> Option<FsDisplayable> {
        if text == "annot"@ {
            Some(FsDisplayable::Annot)
        } else if text == "curv"@ {
            Some(FsDisplayable::Curv)
        } else if text == "label"@ {
            Some(FsDisplayable::Label)
        } else {
            None
        }
    }

    /// Reads a display kind: exactly `curv`, `annot` or `label`. Any other
    /// text is an error that carries the text.
    pub fn from_str(fd_str: &str) -> (fsd: Result<FsDisplayable>)
        ensures
            match Self::parse(fd_str@) {
                Some(kind) => fsd == Ok::<FsDisplayable, BrainviewError>(kind),
                None => fsd matches Err(BrainviewError::StringNotFsDisplayable { given })
                    && given@ == fd_str@,
            },
    {
        let given = fd_str.to_owned();
        if given == "annot".to_owned() {
            Ok(FsDisplayable::Annot)
        } else if given == "curv".to_owned() {
            Ok(FsDisplayable::Curv)
        } else if given == "label".to_owned() {
            Ok(FsDisplayable::Label)
        } else {
            Err(BrainviewError::StringNotFsDisplayable { given })
        }
    }
}

/// What was read to be shown on a surface, one variant for each display
/// kind: morphometry data with the gradient's shades, a parcellation, or a
/// label.
pub enum FsVisData {
    Curv(FsCurv, Vec<Color>),
    Annot(FsAnnot),
    Label(FsLabel),
}

impl FsVisData {
    /// The display kind of the data.
    pub open spec fn spec_kind(&self) -> FsDisplayable {
        match self {
            FsVisData::Curv(_, _) => FsDisplayable::Curv,
            FsVisData::Annot(_) => FsDisplayable::Annot,
            FsVisData::Label(_) => FsDisplayable::Label,
        }
    }

    /// The display kind of the data.
    pub fn kind(&self) -> (kind: FsDisplayable)
        ensures
            kind == self.spec_kind(),
    {
        match self {
            FsVisData::Curv(_, _) => FsDisplayable::Curv,
            FsVisData::Annot(_) => FsDisplayable::Annot,
            FsVisData::Label(_) => FsDisplayable::Label,
        }
    }
}

/// The colour inside a label: opaque red.
pub open spec fn inside_red() -> Seq<u8> {
    seq![255u8, 0u8, 0u8, 255u8]
}

/// The colour outside a label: opaque white.
pub open spec fn outside_white() -> Seq<u8> {
    seq![255u8, 255u8, 255u8, 255u8]
}

/// The colours that data gives on a mesh: morphometry data in the shades of
/// the gradient, a parcellation in the colours of its regions with the first
/// region for unmatched vertices, a label in red on white over the vertices
/// of the mesh.
pub open spec fn vis_rgba(mesh: BrainMesh, vis: FsVisData) -> Result<Seq<u8>> {
    match vis {
        FsVisData::Curv(curv, shades) => encoding_of(crate::fs_display::curv_values(curv), shades@),
        FsVisData::Annot(annot) => annot_rgba(annot, 0),
        FsVisData::Label(label) => label_rgba(
            label,
            mesh_vertex_count(mesh) as int,
            inside_red(),
            outside_white(),
        ),
    }
}

/// What comes of a mesh and colours for it: the error of the colours where
/// they have one, a shape mismatch where they are not four bytes for each
/// vertex, and else the mesh with the colours.
pub open spec fn outcome(mesh: BrainMesh, rgba: Result<Seq<u8>>) -> Result<(BrainMesh, Seq<u8>)> {
    match rgba {
        Err(e) => Err(e),
        Ok(bytes) => if bytes.len() == 4 * mesh_vertex_count(mesh) {
            Ok((mesh, bytes))
        } else {
            Err(BrainviewError::ShapeMismatch)
        },
    }
}

/// A construction's result, with the mesh and the colours in place of the
/// coloured mesh.
pub open spec fn shown(cb_mesh: Result<ColoredBrainMesh>) -> Result<(BrainMesh, Seq<u8>)> {
    match cb_mesh {
        Err(e) => Err(e),
        Ok(m) => Ok((m.geometry(), m.colors())),
    }
}

/// Models a vertex-colored BrainMesh for a single hemisphere.
#[derive(Debug, PartialEq)]
pub struct ColoredBrainMesh {
    mesh: BrainMesh,
    vertex_colors: Vec<u8>,
}

impl ColoredBrainMesh {
    /// Four colour bytes for each vertex of the mesh.
    #[verifier::type_invariant]
    spec fn fits(&self) -> bool {
        self.vertex_colors@.len() == 4 * mesh_vertex_count(self.mesh)
    }

    /// The mesh that the colours belong to.
    pub closed spec fn geometry(&self) -> BrainMesh {
        self.mesh
    }

    /// The colours: red, green, blue and alpha of each vertex in turn.
    pub closed spec fn colors(&self) -> Seq<u8> {
        self.vertex_colors@
    }

    /// Construct a ColoredBrainMesh from a BrainMesh with n vertices and
    /// vertex colors given as n*4 u8 values representing RGBA color values
    /// for each vertex. Any other number of values is a shape mismatch.
    pub fn from_brainmesh_and_colors(b_mesh: &BrainMesh, colors: Vec<u8>) -> (cb_mesh: Result<
        ColoredBrainMesh,
    >)
        ensures
            shown(cb_mesh) == outcome(*b_mesh, Ok(colors@)),
    {
        let n = num_vertices(b_mesh);
        if colors.len() % 4 == 0 && colors.len() / 4 == n {
            let mesh = b_mesh.clone();
            assert(colors@.len() == 4 * mesh_vertex_count(mesh));
            Ok(ColoredBrainMesh { mesh, vertex_colors: colors })
        } else {
            Err(BrainviewError::ShapeMismatch)
        }
    }

    /// Construct a ColoredBrainMesh from a BrainMesh and any per-vertex data
    /// that can be shown as colours. The data's own error comes first; data
    /// that gives another number of colours than four for each vertex of the
    /// mesh is a shape mismatch.
    pub fn from_vertex_colors<V: VertexColor>(b_mesh: &BrainMesh, source: &V) -> (cb_mesh: Result<
        ColoredBrainMesh,
    >)
        ensures
            shown(cb_mesh) == outcome(*b_mesh, source.rgba()),
    {
        match source.vertex_color_rgba() {
            Err(e) => Err(e),
            Ok(colors) => ColoredBrainMesh::from_brainmesh_and_colors(b_mesh, colors),
        }
    }

    /// Construct a ColoredBrainMesh from a BrainMesh and per-vertex data:
    /// the values, and what the gradient gave for each of them.
    pub fn from_brainmesh_and_data(b_mesh: &BrainMesh, data: &Vec<u32>, shades: &Vec<Color>) -> (cb_mesh:
        Result<ColoredBrainMesh>)
        ensures
            shown(cb_mesh) == outcome(*b_mesh, encoding_of(data@, shades@)),
    {
        match color_from_data(data, shades) {
            Err(e) => Err(e),
            Ok(colors) => ColoredBrainMesh::from_brainmesh_and_colors(b_mesh, colors),
        }
    }

    /// Construct a ColoredBrainMesh from a surface and morphometry data as
    /// they were read, with what the gradient gave for each value. This
    /// typically represents a single hemisphere.
    pub fn from_freesurfer_curv(b_mesh: &BrainMesh, curv: FsCurv, shades: Vec<Color>) -> (cb_mesh:
        Result<ColoredBrainMesh>)
        ensures
            shown(cb_mesh) == outcome(*b_mesh, vis_rgba(*b_mesh, FsVisData::Curv(curv, shades))),
    {
        let display = FsCurvDisplay { curv, shades };
        ColoredBrainMesh::from_vertex_colors(b_mesh, &display)
    }

    /// Construct a ColoredBrainMesh from a surface and a brain atlas surface
    /// parcellation as they were read. Vertices that match no region get the
    /// colour of the table's first region. This typically represents a
    /// single hemisphere.
    pub fn from_freesurfer_annot(b_mesh: &BrainMesh, annot: FsAnnot) -> (cb_mesh: Result<
        ColoredBrainMesh,
    >)
        ensures
            shown(cb_mesh) == outcome(*b_mesh, vis_rgba(*b_mesh, FsVisData::Annot(annot))),
    {
        let display = FsAnnotDisplay { annot, unmatched_region_index: 0 };
        ColoredBrainMesh::from_vertex_colors(b_mesh, &display)
    }

    /// Construct a ColoredBrainMesh from a surface and a label as they were
    /// read: red inside the label, white outside. This typically represents
    /// a single hemisphere.
    pub fn from_freesurfer_label(b_mesh: &BrainMesh, label: FsLabel) -> (cb_mesh: Result<
        ColoredBrainMesh,
    >)
        ensures
            shown(cb_mesh) == outcome(*b_mesh, vis_rgba(*b_mesh, FsVisData::Label(label))),
    {
        let red: [u8; 4] = [255, 0, 0, 255];
        let white: [u8; 4] = [255, 255, 255, 255];
        let label_display = FsLabelDisplay {
            label,
            num_surface_verts: num_vertices(b_mesh),
            color_bin_inside: red,
            color_bin_outside: white,
        };
        assert(red@ =~= inside_red());
        assert(white@ =~= outside_white());
        ColoredBrainMesh::from_vertex_colors(b_mesh, &label_display)
    }

    /// Construct a ColoredBrainMesh from a surface and a label, annot or
    /// curv data as they were read. This typically represents a single
    /// hemisphere.
    pub fn from_freesurfer_type(b_mesh: &BrainMesh, vis: FsVisData) -> (cb_mesh: Result<
        ColoredBrainMesh,
    >)
        ensures
            shown(cb_mesh) == outcome(*b_mesh, vis_rgba(*b_mesh, vis)),
    {
        match vis {
            FsVisData::Annot(annot) => ColoredBrainMesh::from_freesurfer_annot(b_mesh, annot),
            FsVisData::Curv(curv, shades) => ColoredBrainMesh::from_freesurfer_curv(
                b_mesh,
                curv,
                shades,
            ),
            FsVisData::Label(label) => ColoredBrainMesh::from_freesurfer_label(b_mesh, label),
        }
    }

    /// The mesh that the colours belong to.
    pub fn mesh(&self) -> (mesh: &BrainMesh)
        ensures
            *mesh == self.geometry(),
    {
        &self.mesh
    }

    /// Get the vertex colors as u8 vector. For each vertex, 4 consecutive u8
    /// values represent the red, green, blue, and alpha channel values,
    /// respectively.
    pub fn colors_rgba_u8(&self) -> (colors: Vec<u8>)
        ensures
            colors@ == self.colors(),
            colors@.len() == 4 * mesh_vertex_count(self.geometry()),
    {
        proof {
            use_type_invariant(self);
        }
        self.vertex_colors.clone()
    }
}

impl Clone for ColoredBrainMesh {
    /// A copy with the same mesh and the same colours.
    fn clone(&self) -> (copy: Self)
        ensures
            copy.geometry() == self.geometry(),
            copy.colors() == self.colors(),
    {
        proof {
            use_type_invariant(self);
        }
        ColoredBrainMesh { mesh: self.mesh.clone(), vertex_colors: self.vertex_colors.clone() }
    }
}

/// Models two vertex-colored BrainMeshes, one per hemisphere.
#[derive(Debug, PartialEq)]
pub struct ColoredBrain {
    pub lh: ColoredBrainMesh,
    pub rh: ColoredBrainMesh,
}

/// A simple wrapper struct around two ColoredBrainMesh instances, for both
/// hemispheres of a brain.
impl ColoredBrain {
    /// What comes of two hemispheres: both, or the error of the left one,
    /// or, where the left one has none, the error of the right one.
    pub open spec fn both(
        lh: Result<(BrainMesh, Seq<u8>)>,
        rh: Result<(BrainMesh, Seq<u8>)>,
    ) -> Result<((BrainMesh, Seq<u8>), (BrainMesh, Seq<u8>))> {
        match (lh, rh) {
            (Err(e), _) => Err(e),
            (Ok(_), Err(e)) => Err(e),
            (Ok(l), Ok(r)) => Ok((l, r)),
        }
    }

    /// A construction's result, with meshes and colours in place of the
    /// coloured meshes.
    pub open spec fn shown_both(cb: Result<ColoredBrain>) -> Result<
        ((BrainMesh, Seq<u8>), (BrainMesh, Seq<u8>)),
    > {
        match cb {
            Err(e) => Err(e),
            Ok(brain) => Ok(
                (
                    (brain.lh.geometry(), brain.lh.colors()),
                    (brain.rh.geometry(), brain.rh.colors()),
                ),
            ),
        }
    }

    /// Construct a ColoredBrain from the surfaces and the data of both
    /// hemispheres as they were read. Where either hemisphere fails there is
    /// no brain.
    pub fn from_freesurfer_type(
        lh_mesh: &BrainMesh,
        rh_mesh: &BrainMesh,
        lh_vis: FsVisData,
        rh_vis: FsVisData,
    ) -> (cb: Result<ColoredBrain>)
        ensures
            Self::shown_both(cb) == Self::both(
                outcome(*lh_mesh, vis_rgba(*lh_mesh, lh_vis)),
                outcome(*rh_mesh, vis_rgba(*rh_mesh, rh_vis)),
            ),
    {
        let lh = match ColoredBrainMesh::from_freesurfer_type(lh_mesh, lh_vis) {
            Err(e) => {
                return Err(e);
            },
            Ok(lh) => lh,
        };
        let rh = match ColoredBrainMesh::from_freesurfer_type(rh_mesh, rh_vis) {
            Err(e) => {
                return Err(e);
            },
            Ok(rh) => rh,
        };
        Ok(ColoredBrain { lh, rh })
    }

    /// Return a vector of owned (cloned) ColoredBrainMeshes from this
    /// ColoredBrain. The order is lh, rh.
    pub fn to_vec(&self) -> (v: Vec<ColoredBrainMesh>)
        ensures
            v@.len() == 2,
            v@[0].geometry() == self.lh.geometry(),
            v@[0].colors() == self.lh.colors(),
            v@[1].geometry() == self.rh.geometry(),
            v@[1].colors() == self.rh.colors(),
    {
        let mut v: Vec<ColoredBrainMesh> = Vec::new();
        v.push(self.lh.clone());
        v.push(self.rh.clone());
        v
    }
}

/// Building a coloured mesh from a mesh and data, and reading its colours,
/// gives exactly the encoding of the data.
pub proof fn lemma_colors_round_trip(
    mesh: BrainMesh,
    data: Seq<u32>,
    shades: Seq<Color>,
    cb_mesh: Result<ColoredBrainMesh>,
)
    requires
        shown(cb_mesh) == outcome(mesh, encoding_of(data, shades)),
        cb_mesh is Ok,
    ensures
        encoding_of(data, shades) == Ok::<Seq<u8>, BrainviewError>(cb_mesh->Ok_0.colors()),
        cb_mesh->Ok_0.colors() == crate::color::encoded(data, shades),
        cb_mesh->Ok_0.geometry() == mesh,
        data.len() == mesh_vertex_count(mesh),
{
}

} // verus!
