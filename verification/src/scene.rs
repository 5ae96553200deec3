//! The derived entity graph and its conditional rebuild.
//!
//! [`SceneGraphBuilder::rebuild_if_needed`] is the single consumer of the
//! parameter store's change signal. When a change is pending it replaces the
//! whole generated entity graph atomically with one derived afresh from the
//! current parameters: one plane per depth `1..=plane_count`, `point_count`
//! points sampled inside the base rectangle at depth 1, and one projected
//! sub-point per point per deeper plane. All graphics resources come from the
//! memoizing [`ResourceCache`], so a rebuild never reallocates a resource it
//! has requested before.

use vstd::prelude::*;

use vstd::arithmetic::div_mod::lemma_fundamental_div_mod_converse;

use crate::cache::{
    cache_preserved, lemma_cache_preserved_trans, Archetype, Handle, MaterialKey, ResourceCache,
};
use crate::params::{ParameterStore, Params};
use crate::rng::sample_symmetric;
use crate::units::{coord_bounded, scale_vec, Rgba, Vec3i, WORLD_UNIT};

verus! {

/// Red channel of the shared translucent plane overlay color.
pub const OVERLAY_R: u8 = 134;

/// Green channel of the shared plane overlay color.
pub const OVERLAY_G: u8 = 239;

/// Blue channel of the shared plane overlay color.
pub const OVERLAY_B: u8 = 172;

/// Alpha of the shared plane overlay color (around 5% opacity).
pub const OVERLAY_A: u8 = 13;

/// The fixed explicit color every image plane's material uses.
pub open spec fn overlay_color() -> Rgba {
    Rgba { r: OVERLAY_R, g: OVERLAY_G, b: OVERLAY_B, a: OVERLAY_A }
}

/// The single material key shared by all plane instances.
pub open spec fn overlay_key() -> MaterialKey {
    MaterialKey::Explicit(overlay_color())
}

/// One generated image plane at depth `depth`, scaled proportionally to its
/// depth so a unit projected footprint appears constant under perspective.
#[derive(Clone, Copy, PartialEq, Eq, Structural, Debug)]
pub struct PlaneEntity {
    /// Plane index and depth in world units, `1..=plane_count`.
    pub depth: u32,
    /// In-plane width, `base_width * depth` coordinate units.
    pub scale_x: u64,
    /// In-plane height, `base_height * depth` coordinate units.
    pub scale_y: u64,
    /// Shared plane geometry handle.
    pub geometry: Handle,
    /// Shared translucent overlay material handle.
    pub material: Handle,
}

/// One generated base point at depth 1, sampled inside the base rectangle.
#[derive(Clone, Copy, PartialEq, Eq, Structural, Debug)]
pub struct PointEntity {
    /// Stable identity: the generation index, also the material key.
    pub index: u64,
    /// Sampled position; `z` is exactly one world unit.
    pub position: Vec3i,
    /// Point diameter in coordinate units.
    pub scale: u32,
    /// Shared point geometry handle.
    pub geometry: Handle,
    /// Cached material handle for `MaterialKey::Index(index)`.
    pub material: Handle,
    /// The cached color associated with that key.
    pub color: Rgba,
}

/// One projected copy of a base point on a deeper plane.
#[derive(Clone, Copy, PartialEq, Eq, Structural, Debug)]
pub struct SubPointEntity {
    /// The parent point's identity.
    pub index: u64,
    /// The plane it sits on, `2..=plane_count`.
    pub depth: u32,
    /// The parent's position dilated by `depth`, componentwise.
    pub position: Vec3i,
    /// Same diameter as the parent point.
    pub scale: u32,
    /// The parent's geometry handle.
    pub geometry: Handle,
    /// The parent's material handle.
    pub material: Handle,
}

/// The generated entity graph, owned and rebuilt as a unit.
pub struct SceneGraph {
    pub planes: Vec<PlaneEntity>,
    pub points: Vec<PointEntity>,
    pub sub_points: Vec<SubPointEntity>,
}

/// The graph holds no generated entities.
pub open spec fn empty_graph(g: SceneGraph) -> bool {
    &&& g.planes@.len() == 0
    &&& g.points@.len() == 0
    &&& g.sub_points@.len() == 0
}

/// The plane entity at index `i` is exactly what a fresh generation derives
/// for depth `i + 1` under `p`, referencing the cache's shared handles.
pub open spec fn plane_at(e: PlaneEntity, p: Params, cache: ResourceCache, i: int) -> bool {
    &&& cache.geometry_known(Archetype::Plane)
    &&& cache.material_known(overlay_key())
    &&& e.depth == i + 1
    &&& e.scale_x == p.base_width * (i + 1)
    &&& e.scale_y == p.base_height * (i + 1)
    &&& e.geometry == cache.geometry_handle(Archetype::Plane)
    &&& e.material == cache.material_handle(overlay_key())
}

pub open spec fn planes_built(planes: Seq<PlaneEntity>, p: Params, cache: ResourceCache) -> bool {
    &&& planes.len() == p.plane_count
    &&& forall|i: int| 0 <= i < planes.len() ==> plane_at(#[trigger] planes[i], p, cache, i)
}

/// The position lies inside the base rectangle, centred on the axis, at a
/// depth of exactly one world unit.
pub open spec fn within_base_rect(v: Vec3i, p: Params) -> bool {
    &&& -(p.base_width / 2) <= v.x <= p.base_width / 2
    &&& -(p.base_height / 2) <= v.y <= p.base_height / 2
    &&& v.z == WORLD_UNIT
}

/// The point entity at index `j` is exactly what a fresh generation derives
/// for identity `j` under `p`: sampled inside the base rectangle, sized by
/// `point_size`, with the cache's shared point geometry and the stable
/// material entry for key `Index(j)`.
pub open spec fn point_at(e: PointEntity, p: Params, cache: ResourceCache, j: int) -> bool {
    &&& cache.geometry_known(Archetype::Point)
    &&& cache.material_known(MaterialKey::Index(j as u64))
    &&& e.index == j
    &&& within_base_rect(e.position, p)
    &&& e.scale == p.point_size
    &&& e.geometry == cache.geometry_handle(Archetype::Point)
    &&& e.material == cache.material_handle(MaterialKey::Index(j as u64))
    &&& e.color == cache.material_color(MaterialKey::Index(j as u64))
}

pub open spec fn points_built(points: Seq<PointEntity>, p: Params, cache: ResourceCache) -> bool {
    &&& points.len() == p.point_count
    &&& forall|j: int| 0 <= j < points.len() ==> point_at(#[trigger] points[j], p, cache, j)
}

/// `e` is the projection of `base` onto the plane at depth `d`: the position
/// is the base position dilated by `d` exactly, componentwise, and identity,
/// size and resources are the parent's.
pub open spec fn sub_point_at(e: SubPointEntity, base: PointEntity, d: int) -> bool {
    &&& e.index == base.index
    &&& e.depth == d
    &&& e.position.x == base.position.x * d
    &&& e.position.y == base.position.y * d
    &&& e.position.z == base.position.z * d
    &&& e.scale == base.scale
    &&& e.geometry == base.geometry
    &&& e.material == base.material
}

/// The sub-point sequence holds, for each point `j` and each depth `d` in
/// `2..=plane_count`, exactly one projected entity, grouped by point and
/// ordered by depth; it is empty when there is a single plane.
pub open spec fn sub_points_built(
    subs: Seq<SubPointEntity>,
    points: Seq<PointEntity>,
    p: Params,
) -> bool {
    if p.plane_count < 2 {
        subs.len() == 0
    } else {
        let per_point = p.plane_count - 1;
        &&& subs.len() == points.len() * per_point
        &&& forall|m: int|
            0 <= m < subs.len() ==> sub_point_at(
                #[trigger] subs[m],
                points[m / (per_point as int)],
                m % (per_point as int) + 2,
            )
    }
}

/// The whole graph is exactly one fresh generation from `p` against `cache`.
pub open spec fn scene_built(g: SceneGraph, p: Params, cache: ResourceCache) -> bool {
    &&& planes_built(g.planes@, p, cache)
    &&& points_built(g.points@, p, cache)
    &&& sub_points_built(g.sub_points@, g.points@, p)
}

/// Owns the generated entity graph; nothing else creates or destroys
/// generated entities.
pub struct SceneGraphBuilder {
    graph: SceneGraph,
}

impl View for SceneGraphBuilder {
    type V = SceneGraph;

    closed spec fn view(&self) -> SceneGraph {
        self.graph
    }
}

impl SceneGraphBuilder {
    /// A builder with no generated entities yet.
    pub fn new() -> (s: SceneGraphBuilder)
        ensures
            empty_graph(s@),
    {
        SceneGraphBuilder {
            graph: SceneGraph { planes: Vec::new(), points: Vec::new(), sub_points: Vec::new() },
        }
    }

    /// Read-only access to the generated entity graph.
    pub fn graph(&self) -> (g: &SceneGraph)
        ensures
            *g == self@,
    {
        &self.graph
    }

    /// Checks the parameter store's change signal once and, when a change is
    /// pending, atomically replaces the generated entity graph with one
    /// derived afresh from the current parameters. Returns whether a rebuild
    /// ran. When nothing changed, graph and cache are left untouched; either
    /// way the cache keeps every entry it already had.
    pub fn rebuild_if_needed(
        &mut self,
        params: &mut ParameterStore,
        cache: &mut ResourceCache,
    ) -> (rebuilt: bool)
        requires
            old(params).wf(),
            old(cache).wf(),
        ensures
            rebuilt == old(params).pending_change(),
            final(params).params() == old(params).params(),
            final(params).observed() == Some(old(params).params()),
            final(params).wf(),
            !final(params).pending_change(),
            final(cache).wf(),
            cache_preserved(*old(cache), *final(cache)),
            !rebuilt ==> *final(self) == *old(self) && *final(cache) == *old(cache),
            rebuilt ==> scene_built(final(self)@, old(params).params(), *final(cache)),
    {
        let ghost p = params.params();
        let changed = params.changed_since_last_check();
        if !changed {
            return false;
        }
        let plane_count = params.plane_count();
        let point_count = params.point_count();
        let point_size = params.point_size();
        let (base_width, base_height) = params.base_plane_size();

        // Request the shared resources first; every entity below references
        // these cached handles.
        let plane_geom = cache.get_or_create_geometry(Archetype::Plane);
        let ghost cache_a = *cache;
        let (plane_mat, _overlay) = cache.get_or_create_material(
            MaterialKey::Explicit(
                Rgba { r: OVERLAY_R, g: OVERLAY_G, b: OVERLAY_B, a: OVERLAY_A },
            ),
        );
        let ghost cache_b = *cache;
        let point_geom = cache.get_or_create_geometry(Archetype::Point);
        let ghost cache_c = *cache;

        let planes = generate_planes(plane_count, base_width, base_height, plane_geom, plane_mat);
        let points = generate_points(
            point_count,
            point_size,
            base_width,
            base_height,
            point_geom,
            cache,
        );
        proof {
            // The cache only grew since the shared handles were requested.
            lemma_cache_preserved_trans(*old(cache), cache_a, cache_b);
            lemma_cache_preserved_trans(*old(cache), cache_b, cache_c);
            lemma_cache_preserved_trans(*old(cache), cache_c, *cache);
            lemma_cache_preserved_trans(cache_a, cache_b, cache_c);
            lemma_cache_preserved_trans(cache_a, cache_c, *cache);
            lemma_cache_preserved_trans(cache_b, cache_c, *cache);
            assert(cache.geometry_known(Archetype::Plane)
                && cache.geometry_handle(Archetype::Plane) == plane_geom) by {
                assert(cache_a.geometry_known(Archetype::Plane));
            }
            assert(cache.material_known(overlay_key()) && cache.material_handle(overlay_key())
                == plane_mat) by {
                assert(cache_b.material_known(overlay_key()));
            }
            assert forall|j: int| 0 <= j < points@.len() implies coord_bounded(
                (#[trigger] points@[j]).position,
            ) by {
                assert(point_at(
                    points@[j],
                    (Params { plane_count: 0, point_count, point_size, base_width, base_height }),
                    *cache,
                    j,
                ));
            }
        }
        let sub_points = generate_sub_points(plane_count, &points);

        proof {
            assert forall|i: int| 0 <= i < planes@.len() implies plane_at(
                #[trigger] planes@[i],
                p,
                *cache,
                i,
            ) by {
                assert(raw_plane_at(planes@[i], base_width, base_height, plane_geom, plane_mat, i));
            }
            assert(planes_built(planes@, p, *cache));
            assert forall|j: int| 0 <= j < points@.len() implies point_at(
                #[trigger] points@[j],
                p,
                *cache,
                j,
            ) by {
                assert(point_at(
                    points@[j],
                    (Params { plane_count: 0, point_count, point_size, base_width, base_height }),
                    *cache,
                    j,
                ));
            }
            assert(points_built(points@, p, *cache));
            assert(sub_points_built(sub_points@, points@, p)) by {
                assert(sub_points_built(sub_points@, points@, (Params {
                    plane_count,
                    point_count: 0,
                    point_size: 0,
                    base_width: 0,
                    base_height: 0,
                })));
            }
        }

        self.graph = SceneGraph { planes, points, sub_points };
        true
    }
}

impl Default for SceneGraphBuilder {
    fn default() -> (s: SceneGraphBuilder)
        ensures
            empty_graph(s@),
    {
        SceneGraphBuilder::new()
    }
}

/// The plane entity derived for index `i`, expressed over given shared
/// handles rather than the cache state.
spec fn raw_plane_at(
    e: PlaneEntity,
    base_width: u32,
    base_height: u32,
    geometry: Handle,
    material: Handle,
    i: int,
) -> bool {
    &&& e.depth == i + 1
    &&& e.scale_x == base_width * (i + 1)
    &&& e.scale_y == base_height * (i + 1)
    &&& e.geometry == geometry
    &&& e.material == material
}

/// Derives the plane entities: one per depth `1..=plane_count`, scaled
/// proportionally to depth, all sharing the given geometry and overlay
/// material handles.
fn generate_planes(
    plane_count: u32,
    base_width: u32,
    base_height: u32,
    geometry: Handle,
    material: Handle,
) -> (planes: Vec<PlaneEntity>)
    ensures
        planes@.len() == plane_count,
        forall|i: int|
            0 <= i < planes@.len() ==> raw_plane_at(
                #[trigger] planes@[i],
                base_width,
                base_height,
                geometry,
                material,
                i,
            ),
{
    let mut planes: Vec<PlaneEntity> = Vec::new();
    let mut i: u32 = 0;
    while i < plane_count
        invariant
            0 <= i <= plane_count,
            planes@.len() == i,
            forall|k: int|
                0 <= k < planes@.len() ==> raw_plane_at(
                    #[trigger] planes@[k],
                    base_width,
                    base_height,
                    geometry,
                    material,
                    k,
                ),
        decreases plane_count - i,
    {
        let depth = i + 1;
        proof {
            assert((base_width as int) * (depth as int) < 0x1_0000_0000_0000_0000
                && (base_height as int) * (depth as int) < 0x1_0000_0000_0000_0000)
                by (nonlinear_arith)
                requires
                    base_width <= 0xffff_ffffu32,
                    base_height <= 0xffff_ffffu32,
                    depth <= 0xffff_ffffu32,
            ;
        }
        let scale_x = (base_width as u64) * (depth as u64);
        let scale_y = (base_height as u64) * (depth as u64);
        planes.push(PlaneEntity { depth, scale_x, scale_y, geometry, material });
        i += 1;
    }
    planes
}

/// Derives the point entities: `point_count` points with stable identities
/// `0..point_count`, each sampled afresh inside the base rectangle at depth
/// 1, colored by the cache's stable material entry for its index.
fn generate_points(
    point_count: u32,
    point_size: u32,
    base_width: u32,
    base_height: u32,
    point_geom: Handle,
    cache: &mut ResourceCache,
) -> (points: Vec<PointEntity>)
    requires
        old(cache).wf(),
        old(cache).geometry_known(Archetype::Point),
        old(cache).geometry_handle(Archetype::Point) == point_geom,
    ensures
        final(cache).wf(),
        cache_preserved(*old(cache), *final(cache)),
        points@.len() == point_count,
        forall|j: int|
            0 <= j < points@.len() ==> point_at(
                #[trigger] points@[j],
                (Params {
                    plane_count: 0,
                    point_count,
                    point_size,
                    base_width,
                    base_height,
                }),
                *final(cache),
                j,
            ),
{
    let ghost p = Params { plane_count: 0, point_count, point_size, base_width, base_height };
    let half_w: i64 = (base_width / 2) as i64;
    let half_h: i64 = (base_height / 2) as i64;
    let mut points: Vec<PointEntity> = Vec::new();
    let mut j: u32 = 0;
    while j < point_count
        invariant
            0 <= j <= point_count,
            points@.len() == j,
            half_w == p.base_width / 2,
            half_h == p.base_height / 2,
            p.point_size == point_size,
            p.base_width == base_width,
            p.base_height == base_height,
            cache.wf(),
            cache.geometry_known(Archetype::Point),
            cache.geometry_handle(Archetype::Point) == point_geom,
            cache_preserved(*old(cache), *cache),
            forall|k: int| 0 <= k < points@.len() ==> point_at(#[trigger] points@[k], p, *cache, k),
        decreases point_count - j,
    {
        let x = sample_symmetric(half_w);
        let y = sample_symmetric(half_h);
        let ghost cache_prev = *cache;
        let (material, color) = cache.get_or_create_material(MaterialKey::Index(j as u64));
        proof {
            lemma_cache_preserved_trans(*old(cache), cache_prev, *cache);
            assert forall|k: int| 0 <= k < points@.len() implies point_at(
                #[trigger] points@[k],
                p,
                *cache,
                k,
            ) by {
                assert(point_at(points@[k], p, cache_prev, k));
                assert(cache_prev.material_known(MaterialKey::Index(k as u64)));
                assert(cache_prev.geometry_known(Archetype::Point));
            }
        }
        points.push(
            PointEntity {
                index: j as u64,
                position: Vec3i { x, y, z: WORLD_UNIT },
                scale: point_size,
                geometry: point_geom,
                material,
                color,
            },
        );
        j += 1;
    }
    points
}

/// Derives the projected sub-points: for each point and each depth `d` in
/// `2..=plane_count`, one entity at the base position dilated by `d`, with
/// the parent's identity, size and resources. Skipped entirely for a single
/// plane.
fn generate_sub_points(plane_count: u32, points: &Vec<PointEntity>) -> (subs: Vec<SubPointEntity>)
    requires
        forall|j: int|
            0 <= j < points@.len() ==> coord_bounded((#[trigger] points@[j]).position),
    ensures
        sub_points_built(subs@, points@, (Params {
            plane_count,
            point_count: 0,
            point_size: 0,
            base_width: 0,
            base_height: 0,
        })),
{
    let mut subs: Vec<SubPointEntity> = Vec::new();
    if plane_count < 2 {
        return subs;
    }
    let per_point = plane_count - 1;
    let point_total = points.len();
    let mut j: usize = 0;
    while j < point_total
        invariant
            plane_count >= 2,
            per_point == plane_count - 1,
            point_total == points@.len(),
            0 <= j <= point_total,
            subs@.len() == j * (per_point as int),
            forall|jj: int|
                0 <= jj < points@.len() ==> coord_bounded((#[trigger] points@[jj]).position),
            forall|m: int|
                0 <= m < subs@.len() ==> sub_point_at(
                    #[trigger] subs@[m],
                    points@[m / (per_point as int)],
                    m % (per_point as int) + 2,
                ),
        decreases point_total - j,
    {
        let mut di: u32 = 1;
        while di < plane_count
            invariant
                plane_count >= 2,
                per_point == plane_count - 1,
                point_total == points@.len(),
                0 <= j < point_total,
                1 <= di <= plane_count,
                subs@.len() == j * (per_point as int) + (di - 1),
                forall|jj: int|
                    0 <= jj < points@.len() ==> coord_bounded((#[trigger] points@[jj]).position),
                forall|m: int|
                    0 <= m < subs@.len() ==> sub_point_at(
                        #[trigger] subs@[m],
                        points@[m / (per_point as int)],
                        m % (per_point as int) + 2,
                    ),
            decreases plane_count - di,
        {
            let d = di + 1;
            let base = &points[j];
            let position = scale_vec(&base.position, d);
            let ghost m0 = subs@.len() as int;
            subs.push(
                SubPointEntity {
                    index: base.index,
                    depth: d,
                    position,
                    scale: base.scale,
                    geometry: base.geometry,
                    material: base.material,
                },
            );
            proof {
                lemma_fundamental_div_mod_converse(
                    m0,
                    per_point as int,
                    j as int,
                    (di - 1) as int,
                );
                assert(sub_point_at(subs@[m0], points@[j as int], (di + 1) as int));
            }
            di += 1;
        }
        proof {
            assert((j + 1) * (per_point as int) == j * (per_point as int) + (per_point as int))
                by (nonlinear_arith);
        }
        j += 1;
    }
    subs
}

/// Law: completeness of rebuild — a built scene holds exactly `plane_count`
/// planes, `point_count` points, and `point_count * (plane_count - 1)`
/// sub-points (none when there is a single plane).
pub proof fn lemma_rebuild_completeness(g: SceneGraph, p: Params, cache: ResourceCache)
    requires
        scene_built(g, p, cache),
    ensures
        g.planes@.len() == p.plane_count,
        g.points@.len() == p.point_count,
        g.sub_points@.len() == if p.plane_count < 2 {
            0int
        } else {
            p.point_count * (p.plane_count - 1)
        },
{
}

/// Law: projection correctness — in a built scene, the sub-point of point
/// `j` at depth `d` sits at exactly the base position dilated by `d`,
/// componentwise, with the parent's identity, size and resources.
pub proof fn lemma_sub_point_projection(
    g: SceneGraph,
    p: Params,
    cache: ResourceCache,
    j: int,
    d: int,
)
    requires
        scene_built(g, p, cache),
        0 <= j < g.points@.len(),
        2 <= d <= p.plane_count,
    ensures
        0 <= j * (p.plane_count - 1) + (d - 2) < g.sub_points@.len(),
        sub_point_at(
            g.sub_points@[j * (p.plane_count - 1) + (d - 2)],
            g.points@[j],
            d,
        ),
{
    let per = (p.plane_count - 1) as int;
    let m = j * per + (d - 2);
    assert(0 <= m && m + (per - (d - 2)) <= g.points@.len() * per) by (nonlinear_arith)
        requires
            0 <= j < g.points@.len(),
            0 <= d - 2 < per,
            m == j * per + (d - 2),
    ;
    lemma_fundamental_div_mod_converse(m, per, j, d - 2);
    assert(sub_point_at(g.sub_points@[m], g.points@[m / per], m % per + 2));
}

} // verus!
