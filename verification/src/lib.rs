//! Colour-encoded cortical surface meshes and the decisions of the viewer
//! that shows them: per-vertex colours for morphometry, parcellation and
//! label data, the bounds of a scene, and the camera's reaction to input.

pub mod binary32;
pub mod brainmesh;
pub mod camera;
pub mod color;
pub mod error;
pub mod fs_display;
pub mod fs_filepath;
pub mod scene;
pub mod util;
pub mod vertexcolor;

pub use brainmesh::{ColoredBrain, ColoredBrainMesh, FsDisplayable, FsVisData};
pub use camera::{CameraAction, CameraController, InputEvent};
pub use color::{apply_colormap, color_from_data, colors_as_u8_4};
pub use error::{BrainviewError, FileRole};
pub use fs_display::{FsAnnotDisplay, FsCurvDisplay, FsLabelDisplay};
pub use fs_filepath::{BrainSource, MeshSource};
pub use scene::{compute_meshes_minmax_coords, largest_extent, SceneBounds, SceneSettings};
pub use util::{f32tou32, scaling_plan, ScalePlan};
pub use vertexcolor::{binary_colors_for_data, VertexColor};
