use image_planes::cache::{Archetype, MaterialKey, ResourceCache};
use image_planes::params::ParameterStore;
use image_planes::scene::SceneGraphBuilder;
use image_planes::units::Rgba;

fn fresh() -> (ParameterStore, ResourceCache, SceneGraphBuilder) {
    (ParameterStore::new(), ResourceCache::new(), SceneGraphBuilder::new())
}

#[test]
fn first_check_reports_change_and_builds() {
    let (mut params, mut cache, mut builder) = fresh();
    let rebuilt = builder.rebuild_if_needed(&mut params, &mut cache);
    assert!(rebuilt);
    let g = builder.graph();
    assert_eq!(g.planes.len(), 7);
    assert_eq!(g.points.len(), 10);
    assert_eq!(g.sub_points.len(), 60);
}

#[test]
fn noop_rebuild_is_idempotent() {
    let (mut params, mut cache, mut builder) = fresh();
    assert!(builder.rebuild_if_needed(&mut params, &mut cache));
    let planes_before = builder.graph().planes.clone();
    let points_before = builder.graph().points.clone();
    let subs_before = builder.graph().sub_points.clone();
    let rebuilt = builder.rebuild_if_needed(&mut params, &mut cache);
    assert!(!rebuilt);
    assert_eq!(builder.graph().planes, planes_before);
    assert_eq!(builder.graph().points, points_before);
    assert_eq!(builder.graph().sub_points, subs_before);
    // The cache is untouched too: every key still yields the identical pair.
    for p in &points_before {
        let (handle, color) = cache.get_or_create_material(MaterialKey::Index(p.index));
        assert_eq!(handle, p.material);
        assert_eq!(color, p.color);
    }
}

#[test]
fn rebuild_counts_match_parameters() {
    let (mut params, mut cache, mut builder) = fresh();
    params.set_plane_count(3);
    params.set_point_count(4);
    assert!(builder.rebuild_if_needed(&mut params, &mut cache));
    let g = builder.graph();
    assert_eq!(g.planes.len(), 3);
    assert_eq!(g.points.len(), 4);
    assert_eq!(g.sub_points.len(), 4 * 2);
}

#[test]
fn single_plane_has_no_sub_points() {
    let (mut params, mut cache, mut builder) = fresh();
    params.set_plane_count(1);
    assert!(builder.rebuild_if_needed(&mut params, &mut cache));
    let g = builder.graph();
    assert_eq!(g.planes.len(), 1);
    assert_eq!(g.points.len(), 10);
    assert_eq!(g.sub_points.len(), 0);
}

#[test]
fn zero_points_is_allowed() {
    let (mut params, mut cache, mut builder) = fresh();
    params.set_point_count(0);
    assert!(builder.rebuild_if_needed(&mut params, &mut cache));
    let g = builder.graph();
    assert_eq!(g.planes.len(), 7);
    assert_eq!(g.points.len(), 0);
    assert_eq!(g.sub_points.len(), 0);
}

#[test]
fn plane_scales_grow_with_depth() {
    let (mut params, mut cache, mut builder) = fresh();
    params.set_plane_count(4);
    assert!(builder.rebuild_if_needed(&mut params, &mut cache));
    let g = builder.graph();
    for (i, plane) in g.planes.iter().enumerate() {
        let depth = i as u64 + 1;
        assert_eq!(plane.depth as u64, depth);
        assert_eq!(plane.scale_x, 1360 * depth);
        assert_eq!(plane.scale_y, 765 * depth);
    }
    // One shared geometry and one shared overlay material across all planes.
    for plane in &g.planes {
        assert_eq!(plane.geometry, g.planes[0].geometry);
        assert_eq!(plane.material, g.planes[0].material);
    }
}

#[test]
fn points_sampled_inside_base_rectangle() {
    let (mut params, mut cache, mut builder) = fresh();
    params.set_point_count(50);
    assert!(builder.rebuild_if_needed(&mut params, &mut cache));
    for (j, point) in builder.graph().points.iter().enumerate() {
        assert_eq!(point.index, j as u64);
        assert!(-680 <= point.position.x && point.position.x <= 680);
        assert!(-382 <= point.position.y && point.position.y <= 382);
        assert_eq!(point.position.z, 1000);
        assert_eq!(point.scale, 50);
    }
}

#[test]
fn sub_points_are_exact_projections() {
    let (mut params, mut cache, mut builder) = fresh();
    params.set_plane_count(5);
    params.set_point_count(6);
    assert!(builder.rebuild_if_needed(&mut params, &mut cache));
    let g = builder.graph();
    let per_point = 4;
    assert_eq!(g.sub_points.len(), 6 * per_point);
    for j in 0..6usize {
        let base = &g.points[j];
        for d in 2..=5u32 {
            let sub = &g.sub_points[j * per_point + (d as usize - 2)];
            assert_eq!(sub.index, base.index);
            assert_eq!(sub.depth, d);
            assert_eq!(sub.position.x, base.position.x * d as i64);
            assert_eq!(sub.position.y, base.position.y * d as i64);
            assert_eq!(sub.position.z, base.position.z * d as i64);
            assert_eq!(sub.scale, base.scale);
            assert_eq!(sub.geometry, base.geometry);
            assert_eq!(sub.material, base.material);
        }
    }
}

#[test]
fn colors_stable_across_rebuilds() {
    let (mut params, mut cache, mut builder) = fresh();
    params.set_point_count(5);
    assert!(builder.rebuild_if_needed(&mut params, &mut cache));
    let first: Vec<(u64, Rgba)> =
        builder.graph().points.iter().map(|p| (p.index, p.color)).collect();
    assert_eq!(first.len(), 5);
    // Trigger a second rebuild by changing an unrelated parameter.
    params.set_point_size(60);
    assert!(builder.rebuild_if_needed(&mut params, &mut cache));
    let second: Vec<(u64, Rgba)> =
        builder.graph().points.iter().map(|p| (p.index, p.color)).collect();
    assert_eq!(first, second);
}

#[test]
fn material_handles_stable_across_rebuilds() {
    let (mut params, mut cache, mut builder) = fresh();
    assert!(builder.rebuild_if_needed(&mut params, &mut cache));
    let first: Vec<_> = builder.graph().points.iter().map(|p| p.material).collect();
    params.set_plane_count(2);
    assert!(builder.rebuild_if_needed(&mut params, &mut cache));
    let second: Vec<_> = builder.graph().points.iter().map(|p| p.material).collect();
    assert_eq!(first, second);
}

#[test]
fn geometry_shared_across_points_and_rebuilds() {
    let (mut params, mut cache, mut builder) = fresh();
    assert!(builder.rebuild_if_needed(&mut params, &mut cache));
    let point_geom = builder.graph().points[0].geometry;
    for point in &builder.graph().points {
        assert_eq!(point.geometry, point_geom);
    }
    for sub in &builder.graph().sub_points {
        assert_eq!(sub.geometry, point_geom);
    }
    params.set_point_count(3);
    assert!(builder.rebuild_if_needed(&mut params, &mut cache));
    for point in &builder.graph().points {
        assert_eq!(point.geometry, point_geom);
    }
    // The plane geometry is a different shared resource.
    assert_ne!(builder.graph().planes[0].geometry, point_geom);
}

#[test]
fn change_gating_triggers_exactly_one_rebuild() {
    let (mut params, mut cache, mut builder) = fresh();
    assert!(builder.rebuild_if_needed(&mut params, &mut cache));
    assert!(!builder.rebuild_if_needed(&mut params, &mut cache));
    params.set_plane_count(8);
    assert!(builder.rebuild_if_needed(&mut params, &mut cache));
    assert_eq!(builder.graph().planes.len(), 8);
    assert!(!builder.rebuild_if_needed(&mut params, &mut cache));
}

#[test]
fn setting_equal_value_triggers_no_rebuild() {
    let (mut params, mut cache, mut builder) = fresh();
    assert!(builder.rebuild_if_needed(&mut params, &mut cache));
    params.set_plane_count(7);
    assert!(!builder.rebuild_if_needed(&mut params, &mut cache));
}

#[test]
fn cache_memoizes_geometry_handles() {
    let mut cache = ResourceCache::new();
    let plane1 = cache.get_or_create_geometry(Archetype::Plane);
    let point1 = cache.get_or_create_geometry(Archetype::Point);
    let plane2 = cache.get_or_create_geometry(Archetype::Plane);
    let point2 = cache.get_or_create_geometry(Archetype::Point);
    assert_eq!(plane1, plane2);
    assert_eq!(point1, point2);
    assert_ne!(plane1, point1);
}

#[test]
fn cache_uses_explicit_color_verbatim() {
    let mut cache = ResourceCache::new();
    let overlay = Rgba { r: 134, g: 239, b: 172, a: 13 };
    let (h1, c1) = cache.get_or_create_material(MaterialKey::Explicit(overlay));
    assert_eq!(c1, overlay);
    let (h2, c2) = cache.get_or_create_material(MaterialKey::Explicit(overlay));
    assert_eq!(h1, h2);
    assert_eq!(c2, overlay);
}

#[test]
fn cache_never_rerandomizes_integer_keys() {
    let mut cache = ResourceCache::new();
    let (h1, c1) = cache.get_or_create_material(MaterialKey::Index(3));
    assert_eq!(c1.a, 255);
    let (h2, c2) = cache.get_or_create_material(MaterialKey::Index(3));
    assert_eq!(h1, h2);
    assert_eq!(c1, c2);
    let (h3, _c3) = cache.get_or_create_material(MaterialKey::Index(4));
    assert_ne!(h1, h3);
    assert_eq!(cache.color(MaterialKey::Index(3)), c1);
    assert_eq!(cache.material(MaterialKey::Index(3)), h1);
}

#[test]
fn forced_change_retriggers_one_rebuild() {
    let (mut params, mut cache, mut builder) = fresh();
    assert!(builder.rebuild_if_needed(&mut params, &mut cache));
    assert!(!builder.rebuild_if_needed(&mut params, &mut cache));
    params.force_change();
    assert!(builder.rebuild_if_needed(&mut params, &mut cache));
    assert!(!builder.rebuild_if_needed(&mut params, &mut cache));
}

#[test]
fn material_keys_from_conversions() {
    assert_eq!(MaterialKey::from(5u64), MaterialKey::Index(5));
    let c = Rgba { r: 1, g: 2, b: 3, a: 4 };
    assert_eq!(MaterialKey::from(c), MaterialKey::Explicit(c));
}

#[test]
fn default_parameters() {
    let params = ParameterStore::new();
    assert_eq!(params.plane_count(), 7);
    assert_eq!(params.point_count(), 10);
    assert_eq!(params.point_size(), 50);
    assert_eq!(params.base_plane_size(), (1360, 765));
}
