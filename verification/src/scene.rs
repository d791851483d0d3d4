//! The settings of a scene, and the axis-aligned box around all vertices of
//! all its meshes.

use vstd::prelude::*;
use vstd::string::*;
use neuroformats::BrainMesh;
use crate::binary32::{
    is_less, is_nan, is_zero, lemma_same_number_bits, less_than, same_number, INFINITY,
    NEG_INFINITY,
};
use crate::brainmesh::{coord_at, coord_count, mesh_coords, ColoredBrainMesh};
use crate::error::{BrainviewError, Result};

verus! {

/// The encoding of 1.
pub const ONE: u32 = 0x3f80_0000;

/// The encoding of 3.
pub const THREE: u32 = 0x4040_0000;

/// The encoding of 5.
pub const FIVE: u32 = 0x40a0_0000;

/// The double-precision encoding of 0.0005.
pub const HALF_A_THOUSANDTH: u64 = 0x3f40_624d_d2f1_a9fc;

/// Settings, like background color, that can be used to customize the
/// appearance of a scene. The colour and the speeds are numbers, each held
/// as the bits of its encoding.
#[derive(Debug, PartialEq, Eq)]
pub struct SceneSettings {
    /// Red, green, blue and alpha of the background, each from 0 to 1.
    pub bg_color: [u32; 4],
    /// Width and height of the window in pixels.
    pub window_size: (u32, u32),
    pub window_title: String,
    /// The factor between the pointer's way and the camera's rotation.
    pub mouse_rotate_speed_factor: u32,
    /// The step of a pan by key.
    pub cam_pan_speed: u32,
    /// The step of a zoom by key.
    pub cam_zoom_speed_keys: u32,
    /// The angle by which the meshes turn in a millisecond, in double
    /// precision.
    pub auto_rotate_speed_factor: u64,
}

impl SceneSettings {
    /// The default scene settings: an opaque white background, a window of
    /// 1280 by 720 pixels with the title `Scene`, rotation at three times the
    /// pointer's way, pan and zoom by key in steps of five, and 0.0005 for
    /// the turning of the meshes.
    pub fn default() -> (settings: Self)
        ensures
            settings.bg_color@ == seq![ONE, ONE, ONE, ONE],
            settings.window_size == (1280u32, 720u32),
            settings.window_title@ == "Scene"@,
            settings.mouse_rotate_speed_factor == THREE,
            settings.cam_pan_speed == FIVE,
            settings.cam_zoom_speed_keys == FIVE,
            settings.auto_rotate_speed_factor == HALF_A_THOUSANDTH,
    {
        let bg_color: [u32; 4] = [ONE, ONE, ONE, ONE];
        assert(bg_color@ =~= seq![ONE, ONE, ONE, ONE]);
        SceneSettings {
            bg_color,
            window_size: (1280, 720),
            window_title: "Scene".to_owned(),
            mouse_rotate_speed_factor: THREE,
            cam_pan_speed: FIVE,
            cam_zoom_speed_keys: FIVE,
            auto_rotate_speed_factor: HALF_A_THOUSANDTH,
        }
    }
}

/// The coordinates on one axis (0 for x, 1 for y, 2 for z) among the first
/// `n` coordinates of a mesh.
pub open spec fn on_axis_upto(coords: Seq<u32>, axis: int, n: int) -> Set<u32> {
    Set::new(
        |v: u32|
            exists|k: int| 0 <= k < n && k < coords.len() && k % 3 == axis && #[trigger] coords[k] == v,
    )
}

/// The coordinates of a mesh on one axis.
pub open spec fn on_axis(coords: Seq<u32>, axis: int) -> Set<u32> {
    on_axis_upto(coords, axis, coords.len() as int)
}

/// The coordinates on one axis of the first `n` meshes of a scene.
pub open spec fn scene_on_axis_upto(meshes: Seq<ColoredBrainMesh>, axis: int, n: int) -> Set<u32> {
    Set::new(
        |v: u32|
            exists|m: int|
                0 <= m < n && m < meshes.len() && on_axis(
                    mesh_coords(#[trigger] meshes[m].geometry()),
                    axis,
                ).contains(v),
    )
}

/// The coordinates on one axis of all vertices of all meshes of a scene.
pub open spec fn scene_on_axis(meshes: Seq<ColoredBrainMesh>, axis: int) -> Set<u32> {
    scene_on_axis_upto(meshes, axis, meshes.len() as int)
}

/// `low` is what `start` becomes when it is lowered to the least number
/// among `values`: `start` itself, or a number of `values`, not above
/// `start` and not above any number of `values`. A start that is not a
/// number stays.
pub open spec fn lowered(start: u32, low: u32, values: Set<u32>) -> bool {
    &&& low == start || (values.contains(low) && !is_nan(low) && !is_nan(start))
    &&& !less_than(start, low)
    &&& forall|v: u32| values.contains(v) ==> !less_than(v, low)
}

/// `high` is what `start` becomes when it is raised to the greatest number
/// among `values`. A start that is not a number stays.
pub open spec fn raised(start: u32, high: u32, values: Set<u32>) -> bool {
    &&& high == start || (values.contains(high) && !is_nan(high) && !is_nan(start))
    &&& !less_than(high, start)
    &&& forall|v: u32| values.contains(v) ==> !less_than(high, v)
}

/// `low` is the least number among `values`; positive infinity where
/// `values` holds no number.
pub open spec fn is_least(low: u32, values: Set<u32>) -> bool {
    lowered(INFINITY, low, values)
}

/// `high` is the greatest number among `values`; negative infinity where
/// `values` holds no number.
pub open spec fn is_greatest(high: u32, values: Set<u32>) -> bool {
    raised(NEG_INFINITY, high, values)
}

/// The lesser of two numbers; the first where they do not compare.
spec fn lower(low: u32, v: u32) -> u32 {
    if less_than(v, low) {
        v
    } else {
        low
    }
}

/// The greater of two numbers; the first where they do not compare.
pub open spec fn higher(high: u32, v: u32) -> u32 {
    if less_than(high, v) {
        v
    } else {
        high
    }
}

/// The least and the greatest coordinate of a scene on each axis, each as
/// the bits of its encoding.
#[derive(Debug, Clone, Copy, PartialEq, Eq, Structural)]
pub struct SceneBounds {
    pub min_x: u32,
    pub max_x: u32,
    pub min_y: u32,
    pub max_y: u32,
    pub min_z: u32,
    pub max_z: u32,
}

impl SceneBounds {
    /// The box is the union box of the meshes: on each axis its corners are
    /// the least and the greatest number among the coordinates of all
    /// vertices of all meshes.
    pub open spec fn encloses(&self, meshes: Seq<ColoredBrainMesh>) -> bool {
        &&& is_least(self.min_x, scene_on_axis(meshes, 0))
        &&& is_greatest(self.max_x, scene_on_axis(meshes, 0))
        &&& is_least(self.min_y, scene_on_axis(meshes, 1))
        &&& is_greatest(self.max_y, scene_on_axis(meshes, 1))
        &&& is_least(self.min_z, scene_on_axis(meshes, 2))
        &&& is_greatest(self.max_z, scene_on_axis(meshes, 2))
    }

    /// `wider` is this box, widened to hold the first `n` coordinates of
    /// `coords` too.
    pub open spec fn widened_upto(&self, wider: SceneBounds, coords: Seq<u32>, n: int) -> bool {
        &&& lowered(self.min_x, wider.min_x, on_axis_upto(coords, 0, n))
        &&& raised(self.max_x, wider.max_x, on_axis_upto(coords, 0, n))
        &&& lowered(self.min_y, wider.min_y, on_axis_upto(coords, 1, n))
        &&& raised(self.max_y, wider.max_y, on_axis_upto(coords, 1, n))
        &&& lowered(self.min_z, wider.min_z, on_axis_upto(coords, 2, n))
        &&& raised(self.max_z, wider.max_z, on_axis_upto(coords, 2, n))
    }

    /// `wider` is this box, widened to hold all of `coords` too.
    pub open spec fn widened(&self, wider: SceneBounds, coords: Seq<u32>) -> bool {
        self.widened_upto(wider, coords, coords.len() as int)
    }

    /// The box that holds nothing: every least corner at positive infinity,
    /// every greatest corner at negative infinity.
    pub fn empty() -> (nothing: SceneBounds)
        ensures
            nothing == (SceneBounds {
                min_x: INFINITY,
                max_x: NEG_INFINITY,
                min_y: INFINITY,
                max_y: NEG_INFINITY,
                min_z: INFINITY,
                max_z: NEG_INFINITY,
            }),
            nothing.encloses(Seq::<ColoredBrainMesh>::empty()),
    {
        SceneBounds {
            min_x: INFINITY,
            max_x: NEG_INFINITY,
            min_y: INFINITY,
            max_y: NEG_INFINITY,
            min_z: INFINITY,
            max_z: NEG_INFINITY,
        }
    }

    /// Widens the box to hold every vertex of a mesh. Coordinates that are
    /// not numbers are passed over.
    pub fn expand(self, mesh: &BrainMesh) -> (wider: SceneBounds)
        ensures
            self.widened(wider, mesh_coords(*mesh)),
    {
        let n = coord_count(mesh);
        let mut wider = self;
        let mut i: usize = 0;
        while i < n
            invariant
                i <= n,
                n == mesh_coords(*mesh).len(),
                self.widened_upto(wider, mesh_coords(*mesh), i as int),
            decreases n - i,
        {
            let c = coord_at(mesh, i);
            let ghost before = wider;
            let axis: usize = i % 3;
            if axis == 0 {
                if is_less(c, wider.min_x) {
                    wider.min_x = c;
                }
                if is_less(wider.max_x, c) {
                    wider.max_x = c;
                }
            } else if axis == 1 {
                if is_less(c, wider.min_y) {
                    wider.min_y = c;
                }
                if is_less(wider.max_y, c) {
                    wider.max_y = c;
                }
            } else {
                if is_less(c, wider.min_z) {
                    wider.min_z = c;
                }
                if is_less(wider.max_z, c) {
                    wider.max_z = c;
                }
            }
            proof {
                let coords = mesh_coords(*mesh);
                lemma_lowered_step(self.min_x, before.min_x, coords, 0, i as int);
                lemma_lowered_step(self.min_y, before.min_y, coords, 1, i as int);
                lemma_lowered_step(self.min_z, before.min_z, coords, 2, i as int);
                lemma_raised_step(self.max_x, before.max_x, coords, 0, i as int);
                lemma_raised_step(self.max_y, before.max_y, coords, 1, i as int);
                lemma_raised_step(self.max_z, before.max_z, coords, 2, i as int);
            }
            i = i + 1;
        }
        wider
    }
}

/// One more coordinate: the least so far is lowered by it where it lies on
/// the axis, and stays where it does not.
proof fn lemma_lowered_step(start: u32, low: u32, coords: Seq<u32>, axis: int, n: int)
    requires
        0 <= n < coords.len(),
        lowered(start, low, on_axis_upto(coords, axis, n)),
    ensures
        n % 3 == axis ==> lowered(start, lower(low, coords[n]), on_axis_upto(coords, axis, n + 1)),
        n % 3 != axis ==> lowered(start, low, on_axis_upto(coords, axis, n + 1)),
{
    let before = on_axis_upto(coords, axis, n);
    let after = on_axis_upto(coords, axis, n + 1);
    assert forall|v: u32| after.contains(v) implies before.contains(v) || (n % 3 == axis
        && v == coords[n]) by {
        let k = choose|k: int|
            0 <= k < n + 1 && k < coords.len() && k % 3 == axis && #[trigger] coords[k] == v;
        if k < n {
            assert(before.contains(v));
        }
    }
    assert forall|v: u32| before.contains(v) implies after.contains(v) by {
        let k = choose|k: int|
            0 <= k < n && k < coords.len() && k % 3 == axis && #[trigger] coords[k] == v;
        assert(0 <= k < n + 1 && coords[k] == v);
    }
    if n % 3 == axis {
        assert(after.contains(coords[n]));
    }
}

/// One more coordinate: the greatest so far is raised by it where it lies on
/// the axis, and stays where it does not.
proof fn lemma_raised_step(start: u32, high: u32, coords: Seq<u32>, axis: int, n: int)
    requires
        0 <= n < coords.len(),
        raised(start, high, on_axis_upto(coords, axis, n)),
    ensures
        n % 3 == axis ==> raised(start, higher(high, coords[n]), on_axis_upto(coords, axis, n + 1)),
        n % 3 != axis ==> raised(start, high, on_axis_upto(coords, axis, n + 1)),
{
    let before = on_axis_upto(coords, axis, n);
    let after = on_axis_upto(coords, axis, n + 1);
    assert forall|v: u32| after.contains(v) implies before.contains(v) || (n % 3 == axis
        && v == coords[n]) by {
        let k = choose|k: int|
            0 <= k < n + 1 && k < coords.len() && k % 3 == axis && #[trigger] coords[k] == v;
        if k < n {
            assert(before.contains(v));
        }
    }
    assert forall|v: u32| before.contains(v) implies after.contains(v) by {
        let k = choose|k: int|
            0 <= k < n && k < coords.len() && k % 3 == axis && #[trigger] coords[k] == v;
        assert(0 <= k < n + 1 && coords[k] == v);
    }
    if n % 3 == axis {
        assert(after.contains(coords[n]));
    }
}

/// Lowering in two steps is lowering by both sets of values at once.
proof fn lemma_lowered_union(start: u32, mid: u32, low: u32, first: Set<u32>, second: Set<u32>)
    requires
        lowered(start, mid, first),
        lowered(mid, low, second),
    ensures
        lowered(start, low, first.union(second)),
{
}

/// Raising in two steps is raising by both sets of values at once.
proof fn lemma_raised_union(start: u32, mid: u32, high: u32, first: Set<u32>, second: Set<u32>)
    requires
        raised(start, mid, first),
        raised(mid, high, second),
    ensures
        raised(start, high, first.union(second)),
{
}

/// The coordinates of the first `n + 1` meshes are those of the first `n`
/// and those of the mesh at `n`.
proof fn lemma_scene_on_axis_step(meshes: Seq<ColoredBrainMesh>, axis: int, n: int)
    requires
        0 <= n < meshes.len(),
    ensures
        scene_on_axis_upto(meshes, axis, n + 1) == scene_on_axis_upto(meshes, axis, n).union(
            on_axis(mesh_coords(meshes[n].geometry()), axis),
        ),
{
    let before = scene_on_axis_upto(meshes, axis, n);
    let after = scene_on_axis_upto(meshes, axis, n + 1);
    let added = on_axis(mesh_coords(meshes[n].geometry()), axis);
    assert forall|v: u32| after.contains(v) implies before.union(added).contains(v) by {
        let m = choose|m: int|
            0 <= m < n + 1 && m < meshes.len() && on_axis(
                mesh_coords(#[trigger] meshes[m].geometry()),
                axis,
            ).contains(v);
        if m < n {
            assert(before.contains(v));
        }
    }
    assert forall|v: u32| before.union(added).contains(v) implies after.contains(v) by {
        if added.contains(v) {
            assert(on_axis(mesh_coords(meshes[n].geometry()), axis).contains(v));
        } else {
            let m = choose|m: int|
                0 <= m < n && m < meshes.len() && on_axis(
                    mesh_coords(#[trigger] meshes[m].geometry()),
                    axis,
                ).contains(v);
            assert(on_axis(mesh_coords(meshes[m].geometry()), axis).contains(v));
        }
    }
    assert(after =~= before.union(added));
}

/// Compute the min max coords (like an axis-aligned bounding box) for the
/// whole scene, i.e., over all vertices of all meshes. Used to determine how
/// far the camera should be from the scene center to see everything. A scene
/// without a mesh has no bounds.
pub fn compute_meshes_minmax_coords(cb_meshes: &Vec<ColoredBrainMesh>) -> (bounds: Result<
    SceneBounds,
>)
    ensures
        cb_meshes@.len() == 0 ==> bounds == Err::<SceneBounds, BrainviewError>(
            BrainviewError::EmptyScene,
        ),
        cb_meshes@.len() > 0 ==> bounds is Ok && bounds->Ok_0.encloses(cb_meshes@),
{
    let count = cb_meshes.len();
    if count == 0 {
        return Err(BrainviewError::EmptyScene);
    }
    let mut bounds = SceneBounds::empty();
    let mut m: usize = 0;
    while m < count
        invariant
            m <= count,
            count == cb_meshes@.len(),
            is_least(bounds.min_x, scene_on_axis_upto(cb_meshes@, 0, m as int)),
            is_greatest(bounds.max_x, scene_on_axis_upto(cb_meshes@, 0, m as int)),
            is_least(bounds.min_y, scene_on_axis_upto(cb_meshes@, 1, m as int)),
            is_greatest(bounds.max_y, scene_on_axis_upto(cb_meshes@, 1, m as int)),
            is_least(bounds.min_z, scene_on_axis_upto(cb_meshes@, 2, m as int)),
            is_greatest(bounds.max_z, scene_on_axis_upto(cb_meshes@, 2, m as int)),
        decreases count - m,
    {
        let wider = bounds.expand(cb_meshes[m].mesh());
        proof {
            let coords = mesh_coords(cb_meshes@[m as int].geometry());
            let at = m as int;
            lemma_scene_on_axis_step(cb_meshes@, 0, at);
            lemma_scene_on_axis_step(cb_meshes@, 1, at);
            lemma_scene_on_axis_step(cb_meshes@, 2, at);
            lemma_lowered_union(
                INFINITY,
                bounds.min_x,
                wider.min_x,
                scene_on_axis_upto(cb_meshes@, 0, at),
                on_axis(coords, 0),
            );
            lemma_lowered_union(
                INFINITY,
                bounds.min_y,
                wider.min_y,
                scene_on_axis_upto(cb_meshes@, 1, at),
                on_axis(coords, 1),
            );
            lemma_lowered_union(
                INFINITY,
                bounds.min_z,
                wider.min_z,
                scene_on_axis_upto(cb_meshes@, 2, at),
                on_axis(coords, 2),
            );
            lemma_raised_union(
                NEG_INFINITY,
                bounds.max_x,
                wider.max_x,
                scene_on_axis_upto(cb_meshes@, 0, at),
                on_axis(coords, 0),
            );
            lemma_raised_union(
                NEG_INFINITY,
                bounds.max_y,
                wider.max_y,
                scene_on_axis_upto(cb_meshes@, 1, at),
                on_axis(coords, 1),
            );
            lemma_raised_union(
                NEG_INFINITY,
                bounds.max_z,
                wider.max_z,
                scene_on_axis_upto(cb_meshes@, 2, at),
                on_axis(coords, 2),
            );
        }
        bounds = wider;
        m = m + 1;
    }
    Ok(bounds)
}

/// Every vertex of every mesh lies in the box of the scene: none of its
/// coordinates is below the least corner or above the greatest.
pub proof fn lemma_vertices_in_bounds(
    bounds: SceneBounds,
    meshes: Seq<ColoredBrainMesh>,
    m: int,
    vertex: int,
)
    requires
        bounds.encloses(meshes),
        0 <= m < meshes.len(),
        0 <= vertex < crate::brainmesh::mesh_vertex_count(meshes[m].geometry()),
    ensures
        ({
            let coords = mesh_coords(meshes[m].geometry());
            &&& !less_than(coords[3 * vertex], bounds.min_x)
            &&& !less_than(bounds.max_x, coords[3 * vertex])
            &&& !less_than(coords[3 * vertex + 1], bounds.min_y)
            &&& !less_than(bounds.max_y, coords[3 * vertex + 1])
            &&& !less_than(coords[3 * vertex + 2], bounds.min_z)
            &&& !less_than(bounds.max_z, coords[3 * vertex + 2])
        }),
{
    let coords = mesh_coords(meshes[m].geometry());
    assert((3 * vertex) % 3 == 0 && (3 * vertex + 1) % 3 == 1 && (3 * vertex + 2) % 3 == 2);
    assert(on_axis(coords, 0).contains(coords[3 * vertex]));
    assert(on_axis(coords, 1).contains(coords[3 * vertex + 1]));
    assert(on_axis(coords, 2).contains(coords[3 * vertex + 2]));
    assert(scene_on_axis(meshes, 0).contains(coords[3 * vertex]));
    assert(scene_on_axis(meshes, 1).contains(coords[3 * vertex + 1]));
    assert(scene_on_axis(meshes, 2).contains(coords[3 * vertex + 2]));
}

/// The largest of the three extents of a box, by which a scene is framed.
/// The extent along y gives way to a greater one along x, and the extent
/// along z to a greater one of these; an extent that is no number does not
/// compare, so that the later one stays.
pub fn largest_extent(dx: u32, dy: u32, dz: u32) -> (max: u32)
    ensures
        max == higher(dz, higher(dy, dx)),
        !is_nan(dx) && !is_nan(dy) && !is_nan(dz) ==> (max == dx || max == dy || max == dz)
            && !less_than(max, dx) && !less_than(max, dy) && !less_than(max, dz),
{
    let maxd_xy = if is_less(dy, dx) {
        dx
    } else {
        dy
    };
    if is_less(dz, maxd_xy) {
        maxd_xy
    } else {
        dz
    }
}

/// The least number among a set of values is one number: two answers differ
/// at most in the sign of a zero.
pub proof fn lemma_least_is_unique(a: u32, b: u32, values: Set<u32>)
    requires
        is_least(a, values),
        is_least(b, values),
    ensures
        same_number(a, b),
        a == b || (is_zero(a) && is_zero(b)),
{
    lemma_same_number_bits(a, b);
}

/// The greatest number among a set of values is one number: two answers
/// differ at most in the sign of a zero.
pub proof fn lemma_greatest_is_unique(a: u32, b: u32, values: Set<u32>)
    requires
        is_greatest(a, values),
        is_greatest(b, values),
    ensures
        same_number(a, b),
        a == b || (is_zero(a) && is_zero(b)),
{
    lemma_same_number_bits(a, b);
}

/// Whether a scene has a mesh with the given geometry.
pub open spec fn holds_mesh(meshes: Seq<ColoredBrainMesh>, mesh: BrainMesh) -> bool {
    exists|j: int| 0 <= j < meshes.len() && #[trigger] meshes[j].geometry() == mesh
}

/// The bounds of a scene do not depend on the order of its meshes, nor on
/// how often a mesh occurs: two scenes of the same meshes have the same box.
pub proof fn lemma_bounds_order_independent(
    a: SceneBounds,
    first: Seq<ColoredBrainMesh>,
    b: SceneBounds,
    second: Seq<ColoredBrainMesh>,
)
    requires
        a.encloses(first),
        b.encloses(second),
        forall|mesh: BrainMesh| holds_mesh(first, mesh) <==> holds_mesh(second, mesh),
    ensures
        same_number(a.min_x, b.min_x),
        same_number(a.max_x, b.max_x),
        same_number(a.min_y, b.min_y),
        same_number(a.max_y, b.max_y),
        same_number(a.min_z, b.min_z),
        same_number(a.max_z, b.max_z),
{
    lemma_same_meshes_same_coords(first, second, 0);
    lemma_same_meshes_same_coords(first, second, 1);
    lemma_same_meshes_same_coords(first, second, 2);
    lemma_same_meshes_same_coords(second, first, 0);
    lemma_same_meshes_same_coords(second, first, 1);
    lemma_same_meshes_same_coords(second, first, 2);
    assert(scene_on_axis(first, 0) =~= scene_on_axis(second, 0));
    assert(scene_on_axis(first, 1) =~= scene_on_axis(second, 1));
    assert(scene_on_axis(first, 2) =~= scene_on_axis(second, 2));
}

/// Where every mesh of one scene is a mesh of another, the other scene has
/// every coordinate of the first.
proof fn lemma_same_meshes_same_coords(
    first: Seq<ColoredBrainMesh>,
    second: Seq<ColoredBrainMesh>,
    axis: int,
)
    requires
        forall|mesh: BrainMesh| holds_mesh(first, mesh) ==> holds_mesh(second, mesh),
    ensures
        scene_on_axis(first, axis).subset_of(scene_on_axis(second, axis)),
{
    assert forall|v: u32| scene_on_axis(first, axis).contains(v) implies scene_on_axis(
        second,
        axis,
    ).contains(v) by {
        let i = choose|m: int|
            0 <= m < first.len() && m < first.len() && on_axis(
                mesh_coords(#[trigger] first[m].geometry()),
                axis,
            ).contains(v);
        assert(holds_mesh(first, first[i].geometry()));
        let j = choose|j: int|
            0 <= j < second.len() && #[trigger] second[j].geometry() == first[i].geometry();
        assert(on_axis(mesh_coords(second[j].geometry()), axis).contains(v));
    }
}

} // verus!
