//! The memoizing resource cache.
//!
//! [`ResourceCache`] maps geometry archetypes and material keys to shared
//! handles. An entry is created lazily on the first request for its key and
//! is never evicted or replaced, so repeated lookups with the same key return
//! the identical handle (and, for materials, the identical color) for the
//! lifetime of the cache — the color-stability and geometry-sharing
//! guarantees the scene rebuild depends on.

use vstd::prelude::*;

use crate::rng::random_color;
use crate::units::Rgba;

verus! {

/// A distinct geometry category; all entities of one archetype share one
/// cached geometry handle.
#[derive(Clone, Copy, PartialEq, Eq, Structural, Debug)]
pub enum Archetype {
    /// The flat rectangle used by every image plane.
    Plane,
    /// The ball used by every point and sub-point.
    Point,
}

/// A cache key for a material: either a stable integer identity (a point's
/// generation index, colored pseudo-randomly on first request) or an explicit
/// color used verbatim.
#[derive(Clone, Copy, PartialEq, Eq, Structural, Debug)]
pub enum MaterialKey {
    Index(u64),
    Explicit(Rgba),
}

impl From<u64> for MaterialKey {
    /// An integer identity used directly as a material key.
    fn from(v: u64) -> (k: MaterialKey)
        ensures
            k == MaterialKey::Index(v),
    {
        MaterialKey::Index(v)
    }
}

impl vstd::std_specs::convert::FromSpecImpl<u64> for MaterialKey {
    open spec fn obeys_from_spec() -> bool {
        true
    }

    open spec fn from_spec(v: u64) -> MaterialKey {
        MaterialKey::Index(v)
    }
}

impl From<Rgba> for MaterialKey {
    /// An explicit color used directly as a material key.
    fn from(c: Rgba) -> (k: MaterialKey)
        ensures
            k == MaterialKey::Explicit(c),
    {
        MaterialKey::Explicit(c)
    }
}

impl vstd::std_specs::convert::FromSpecImpl<Rgba> for MaterialKey {
    open spec fn obeys_from_spec() -> bool {
        true
    }

    open spec fn from_spec(c: Rgba) -> MaterialKey {
        MaterialKey::Explicit(c)
    }
}

/// A shared, non-owning reference to a cached graphics resource. Two handles
/// refer to the same resource exactly when they are equal.
#[derive(Clone, Copy, PartialEq, Eq, Structural, Debug)]
pub struct Handle {
    pub id: u128,
}

struct GeometryEntry {
    archetype: Archetype,
    handle: Handle,
}

struct MaterialEntry {
    key: MaterialKey,
    handle: Handle,
    color: Rgba,
}

/// The process-lifetime resource pool: entries are inserted on first miss and
/// never removed.
pub struct ResourceCache {
    geometries: Vec<GeometryEntry>,
    materials: Vec<MaterialEntry>,
    next_id: u128,
}

impl ResourceCache {
    /// A geometry entry exists for this archetype.
    pub closed spec fn geometry_known(self, a: Archetype) -> bool {
        exists|i: int| 0 <= i < self.geometries@.len() && self.geometries@[i].archetype == a
    }

    spec fn geo_index(self, a: Archetype) -> int {
        choose|i: int| 0 <= i < self.geometries@.len() && self.geometries@[i].archetype == a
    }

    /// The handle stored for this archetype (meaningful when it is known).
    pub closed spec fn geometry_handle(self, a: Archetype) -> Handle {
        self.geometries@[self.geo_index(a)].handle
    }

    /// A material entry exists for this key.
    pub closed spec fn material_known(self, k: MaterialKey) -> bool {
        exists|i: int| 0 <= i < self.materials@.len() && self.materials@[i].key == k
    }

    spec fn mat_index(self, k: MaterialKey) -> int {
        choose|i: int| 0 <= i < self.materials@.len() && self.materials@[i].key == k
    }

    /// The handle stored for this key (meaningful when it is known).
    pub closed spec fn material_handle(self, k: MaterialKey) -> Handle {
        self.materials@[self.mat_index(k)].handle
    }

    /// The color stored for this key (meaningful when it is known).
    pub closed spec fn material_color(self, k: MaterialKey) -> Rgba {
        self.materials@[self.mat_index(k)].color
    }

    /// Some entry, of either kind, already holds this handle.
    pub closed spec fn handle_in_use(self, h: Handle) -> bool {
        ||| exists|i: int| 0 <= i < self.geometries@.len() && self.geometries@[i].handle == h
        ||| exists|i: int| 0 <= i < self.materials@.len() && self.materials@[i].handle == h
    }

    /// Internal invariant: keys are unique, handles are pairwise distinct,
    /// and every stored id is below the allocation counter, which counts the
    /// entries.
    pub closed spec fn wf(self) -> bool {
        &&& forall|i: int, j: int|
            0 <= i < j < self.geometries@.len() ==> self.geometries@[i].archetype
                != self.geometries@[j].archetype
        &&& forall|i: int, j: int|
            0 <= i < j < self.materials@.len() ==> self.materials@[i].key
                != self.materials@[j].key
        &&& forall|i: int, j: int|
            0 <= i < j < self.geometries@.len() ==> self.geometries@[i].handle
                != self.geometries@[j].handle
        &&& forall|i: int, j: int|
            0 <= i < j < self.materials@.len() ==> self.materials@[i].handle
                != self.materials@[j].handle
        &&& forall|i: int, j: int|
            0 <= i < self.geometries@.len() && 0 <= j < self.materials@.len()
                ==> self.geometries@[i].handle != self.materials@[j].handle
        &&& forall|i: int|
            0 <= i < self.geometries@.len() ==> (#[trigger] self.geometries@[i]).handle.id
                < self.next_id
        &&& forall|i: int|
            0 <= i < self.materials@.len() ==> (#[trigger] self.materials@[i]).handle.id
                < self.next_id
        &&& self.next_id == self.geometries@.len() + self.materials@.len()
    }

    /// An empty cache.
    pub fn new() -> (c: ResourceCache)
        ensures
            c.wf(),
            forall|a: Archetype| !c.geometry_known(a),
            forall|k: MaterialKey| !c.material_known(k),
    {
        ResourceCache { geometries: Vec::new(), materials: Vec::new(), next_id: 0 }
    }

    /// Returns the cached geometry handle for `archetype`, creating and
    /// storing a fresh one on the first request. Existing entries — of both
    /// kinds — are never touched.
    pub fn get_or_create_geometry(&mut self, archetype: Archetype) -> (h: Handle)
        requires
            old(self).wf(),
        ensures
            final(self).wf(),
            cache_preserved(*old(self), *final(self)),
            final(self).geometry_known(archetype),
            h == final(self).geometry_handle(archetype),
            old(self).geometry_known(archetype) ==> *final(self) == *old(self),
            !old(self).geometry_known(archetype) ==> !old(self).handle_in_use(h),
            forall|a: Archetype|
                a != archetype ==> final(self).geometry_known(a) == old(self).geometry_known(a),
            forall|k: MaterialKey| final(self).material_known(k) == old(self).material_known(k),
    {
        let n = self.geometries.len();
        let mut i: usize = 0;
        while i < n
            invariant
                *self == *old(self),
                self.wf(),
                n == self.geometries@.len(),
                0 <= i <= n,
                forall|j: int| 0 <= j < i ==> self.geometries@[j].archetype != archetype,
            decreases n - i,
        {
            if self.geometries[i].archetype == archetype {
                proof {
                    self.lemma_geo_lookup_at(archetype, i as int);
                }
                return self.geometries[i].handle;
            }
            i += 1;
        }
        let _material_count = self.materials.len();
        proof {
            assert(self.next_id < u128::MAX);
        }
        let h = Handle { id: self.next_id };
        let ghost pre = *self;
        self.geometries.push(GeometryEntry { archetype, handle: h });
        self.next_id = self.next_id + 1;
        proof {
            pre.lemma_geometry_push(*self, archetype, h);
        }
        h
    }

    /// Returns the cached `(handle, color)` pair for `key`, creating and
    /// storing a fresh one on the first request: a pseudo-random opaque color
    /// for an integer key, the given color verbatim for an explicit key.
    /// Subsequent requests return the stored pair unchanged — no
    /// re-randomization, ever.
    pub fn get_or_create_material(&mut self, key: MaterialKey) -> (res: (Handle, Rgba))
        requires
            old(self).wf(),
        ensures
            final(self).wf(),
            cache_preserved(*old(self), *final(self)),
            final(self).material_known(key),
            res.0 == final(self).material_handle(key),
            res.1 == final(self).material_color(key),
            old(self).material_known(key) ==> *final(self) == *old(self),
            !old(self).material_known(key) ==> !old(self).handle_in_use(res.0),
            !old(self).material_known(key) ==> (key matches MaterialKey::Explicit(c) ==> res.1
                == c),
            !old(self).material_known(key) ==> (key matches MaterialKey::Index(_) ==> res.1.a
                == 255),
            forall|k: MaterialKey|
                k != key ==> final(self).material_known(k) == old(self).material_known(k),
            forall|a: Archetype| final(self).geometry_known(a) == old(self).geometry_known(a),
    {
        let n = self.materials.len();
        let mut i: usize = 0;
        while i < n
            invariant
                *self == *old(self),
                self.wf(),
                n == self.materials@.len(),
                0 <= i <= n,
                forall|j: int| 0 <= j < i ==> self.materials@[j].key != key,
            decreases n - i,
        {
            if self.materials[i].key == key {
                proof {
                    self.lemma_mat_lookup_at(key, i as int);
                }
                return (self.materials[i].handle, self.materials[i].color);
            }
            i += 1;
        }
        let _geometry_count = self.geometries.len();
        proof {
            assert(self.next_id < u128::MAX);
        }
        let color = match key {
            MaterialKey::Index(_) => random_color(),
            MaterialKey::Explicit(c) => c,
        };
        let h = Handle { id: self.next_id };
        let ghost pre = *self;
        self.materials.push(MaterialEntry { key, handle: h, color });
        self.next_id = self.next_id + 1;
        proof {
            pre.lemma_material_push(*self, key, h, color);
        }
        (h, color)
    }

    /// The cached material handle for `key`, creating the entry on its first
    /// request.
    pub fn material(&mut self, key: MaterialKey) -> (h: Handle)
        requires
            old(self).wf(),
        ensures
            final(self).wf(),
            cache_preserved(*old(self), *final(self)),
            final(self).material_known(key),
            h == final(self).material_handle(key),
            old(self).material_known(key) ==> *final(self) == *old(self),
    {
        self.get_or_create_material(key).0
    }

    /// The cached color for `key`, creating the entry on its first request.
    /// For a key that already has an entry this never re-randomizes.
    pub fn color(&mut self, key: MaterialKey) -> (c: Rgba)
        requires
            old(self).wf(),
        ensures
            final(self).wf(),
            cache_preserved(*old(self), *final(self)),
            final(self).material_known(key),
            c == final(self).material_color(key),
            old(self).material_known(key) ==> *final(self) == *old(self),
    {
        self.get_or_create_material(key).1
    }

    /// The stored geometry entry at a given index is the one every lookup of
    /// its archetype returns.
    proof fn lemma_geo_lookup_at(self, a: Archetype, i: int)
        requires
            self.wf(),
            0 <= i < self.geometries@.len(),
            self.geometries@[i].archetype == a,
        ensures
            self.geometry_known(a),
            self.geo_index(a) == i,
            self.geometry_handle(a) == self.geometries@[i].handle,
    {
        assert(self.geometry_known(a));
        let j = self.geo_index(a);
        assert(0 <= j < self.geometries@.len() && self.geometries@[j].archetype == a);
        if i < j {
            assert(self.geometries@[i].archetype != self.geometries@[j].archetype);
        } else if j < i {
            assert(self.geometries@[j].archetype != self.geometries@[i].archetype);
        }
    }

    /// The stored material entry at a given index is the one every lookup of
    /// its key returns.
    proof fn lemma_mat_lookup_at(self, k: MaterialKey, i: int)
        requires
            self.wf(),
            0 <= i < self.materials@.len(),
            self.materials@[i].key == k,
        ensures
            self.material_known(k),
            self.mat_index(k) == i,
            self.material_handle(k) == self.materials@[i].handle,
            self.material_color(k) == self.materials@[i].color,
    {
        assert(self.material_known(k));
        let j = self.mat_index(k);
        assert(0 <= j < self.materials@.len() && self.materials@[j].key == k);
        if i < j {
            assert(self.materials@[i].key != self.materials@[j].key);
        } else if j < i {
            assert(self.materials@[j].key != self.materials@[i].key);
        }
    }

    /// Appending a fresh geometry entry keeps every existing lookup intact.
    proof fn lemma_geometry_push(self, post: ResourceCache, a: Archetype, h: Handle)
        requires
            self.wf(),
            post.geometries@ == self.geometries@.push(GeometryEntry { archetype: a, handle: h }),
            post.materials@ == self.materials@,
            post.next_id == self.next_id + 1,
            h.id == self.next_id,
            forall|j: int| 0 <= j < self.geometries@.len() ==> self.geometries@[j].archetype != a,
        ensures
            post.wf(),
            cache_preserved(self, post),
            post.geometry_known(a),
            post.geometry_handle(a) == h,
            !self.handle_in_use(h),
            forall|a2: Archetype| a2 != a ==> post.geometry_known(a2) == self.geometry_known(a2),
            forall|k: MaterialKey| post.material_known(k) == self.material_known(k),
    {
        let n = self.geometries@.len() as int;
        assert(post.geometries@[n].archetype == a);
        assert(forall|i: int| 0 <= i < n ==> post.geometries@[i] == self.geometries@[i]);
        assert(post.wf());
        post.lemma_geo_lookup_at(a, n);
        assert(!self.handle_in_use(h)) by {
            assert(forall|i: int|
                0 <= i < self.geometries@.len() ==> (#[trigger] self.geometries@[i]).handle != h);
            assert(forall|i: int|
                0 <= i < self.materials@.len() ==> (#[trigger] self.materials@[i]).handle != h);
        }
        assert forall|a2: Archetype| self.geometry_known(a2) implies post.geometry_known(a2)
            && post.geometry_handle(a2) == self.geometry_handle(a2) by {
            let i = self.geo_index(a2);
            assert(0 <= i < self.geometries@.len() && self.geometries@[i].archetype == a2);
            self.lemma_geo_lookup_at(a2, i);
            post.lemma_geo_lookup_at(a2, i);
        }
        assert forall|a2: Archetype| a2 != a && post.geometry_known(a2) implies self.geometry_known(
            a2,
        ) by {
            let i = post.geo_index(a2);
            assert(0 <= i < post.geometries@.len() && post.geometries@[i].archetype == a2);
            assert(i != n);
            assert(self.geometries@[i].archetype == a2);
        }
        assert forall|k: MaterialKey| self.material_known(k) implies post.material_known(k)
            && post.material_handle(k) == self.material_handle(k) && post.material_color(k)
            == self.material_color(k) by {
            let i = self.mat_index(k);
            assert(0 <= i < self.materials@.len() && self.materials@[i].key == k);
            self.lemma_mat_lookup_at(k, i);
            post.lemma_mat_lookup_at(k, i);
        }
        assert forall|k: MaterialKey| post.material_known(k) implies self.material_known(k) by {
            let i = post.mat_index(k);
            assert(0 <= i < post.materials@.len() && post.materials@[i].key == k);
        }
    }

    /// Appending a fresh material entry keeps every existing lookup intact.
    proof fn lemma_material_push(self, post: ResourceCache, k: MaterialKey, h: Handle, c: Rgba)
        requires
            self.wf(),
            post.materials@ == self.materials@.push(MaterialEntry { key: k, handle: h, color: c }),
            post.geometries@ == self.geometries@,
            post.next_id == self.next_id + 1,
            h.id == self.next_id,
            forall|j: int| 0 <= j < self.materials@.len() ==> self.materials@[j].key != k,
        ensures
            post.wf(),
            cache_preserved(self, post),
            post.material_known(k),
            post.material_handle(k) == h,
            post.material_color(k) == c,
            !self.handle_in_use(h),
            forall|k2: MaterialKey| k2 != k ==> post.material_known(k2) == self.material_known(k2),
            forall|a: Archetype| post.geometry_known(a) == self.geometry_known(a),
    {
        let n = self.materials@.len() as int;
        assert(post.materials@[n].key == k);
        assert(forall|i: int| 0 <= i < n ==> post.materials@[i] == self.materials@[i]);
        assert(post.wf());
        post.lemma_mat_lookup_at(k, n);
        assert(!self.handle_in_use(h)) by {
            assert(forall|i: int|
                0 <= i < self.geometries@.len() ==> (#[trigger] self.geometries@[i]).handle != h);
            assert(forall|i: int|
                0 <= i < self.materials@.len() ==> (#[trigger] self.materials@[i]).handle != h);
        }
        assert forall|k2: MaterialKey| self.material_known(k2) implies post.material_known(k2)
            && post.material_handle(k2) == self.material_handle(k2) && post.material_color(k2)
            == self.material_color(k2) by {
            let i = self.mat_index(k2);
            assert(0 <= i < self.materials@.len() && self.materials@[i].key == k2);
            self.lemma_mat_lookup_at(k2, i);
            post.lemma_mat_lookup_at(k2, i);
        }
        assert forall|k2: MaterialKey| k2 != k && post.material_known(k2) implies
            self.material_known(k2) by {
            let i = post.mat_index(k2);
            assert(0 <= i < post.materials@.len() && post.materials@[i].key == k2);
            assert(i != n);
            assert(self.materials@[i].key == k2);
        }
        assert forall|a: Archetype| self.geometry_known(a) implies post.geometry_known(a)
            && post.geometry_handle(a) == self.geometry_handle(a) by {
            let i = self.geo_index(a);
            assert(0 <= i < self.geometries@.len() && self.geometries@[i].archetype == a);
            self.lemma_geo_lookup_at(a, i);
            post.lemma_geo_lookup_at(a, i);
        }
        assert forall|a: Archetype| post.geometry_known(a) implies self.geometry_known(a) by {
            let i = post.geo_index(a);
            assert(0 <= i < post.geometries@.len() && post.geometries@[i].archetype == a);
        }
    }
}

impl Default for ResourceCache {
    fn default() -> (c: ResourceCache)
        ensures
            c.wf(),
            forall|a: Archetype| !c.geometry_known(a),
            forall|k: MaterialKey| !c.material_known(k),
    {
        ResourceCache::new()
    }
}

/// Every entry of `c1`, of either kind, is still present in `c2` with the
/// identical handle and color. The cache's operations only ever grow it, so
/// this relates any cache state to any later one.
pub open spec fn cache_preserved(c1: ResourceCache, c2: ResourceCache) -> bool {
    &&& forall|a: Archetype|
        #[trigger] c1.geometry_known(a) ==> c2.geometry_known(a) && c2.geometry_handle(a)
            == c1.geometry_handle(a)
    &&& forall|k: MaterialKey|
        #[trigger] c1.material_known(k) ==> c2.material_known(k) && c2.material_handle(k)
            == c1.material_handle(k) && c2.material_color(k) == c1.material_color(k)
}

/// `cache_preserved` composes transitively: a chain of growing cache states
/// preserves every entry of the first.
pub proof fn lemma_cache_preserved_trans(c1: ResourceCache, c2: ResourceCache, c3: ResourceCache)
    requires
        cache_preserved(c1, c2),
        cache_preserved(c2, c3),
    ensures
        cache_preserved(c1, c3),
{
    assert forall|a: Archetype| #[trigger] c1.geometry_known(a) implies c3.geometry_known(a)
        && c3.geometry_handle(a) == c1.geometry_handle(a) by {
        assert(c2.geometry_known(a));
    }
    assert forall|k: MaterialKey| #[trigger] c1.material_known(k) implies c3.material_known(k)
        && c3.material_handle(k) == c1.material_handle(k) && c3.material_color(k)
        == c1.material_color(k) by {
        assert(c2.material_known(k));
    }
}

/// Law: color stability — once a material key has an entry, every later cache
/// state reached through the library's operations returns the identical
/// handle and color for it; in particular the colors of point indices survive
/// any number of rebuilds.
pub proof fn lemma_color_stability(c1: ResourceCache, c2: ResourceCache, k: MaterialKey)
    requires
        cache_preserved(c1, c2),
        c1.material_known(k),
    ensures
        c2.material_known(k),
        c2.material_handle(k) == c1.material_handle(k),
        c2.material_color(k) == c1.material_color(k),
{
}

/// Law: geometry sharing — once an archetype has a cached geometry, every
/// later cache state returns the identical handle for it, so all entities of
/// that archetype, across all rebuilds, reference one shared geometry.
pub proof fn lemma_geometry_sharing(c1: ResourceCache, c2: ResourceCache, a: Archetype)
    requires
        cache_preserved(c1, c2),
        c1.geometry_known(a),
    ensures
        c2.geometry_known(a),
        c2.geometry_handle(a) == c1.geometry_handle(a),
{
}

/// Distinct material keys never share a handle.
pub proof fn lemma_distinct_keys_distinct_handles(c: ResourceCache, k1: MaterialKey, k2: MaterialKey)
    requires
        c.wf(),
        c.material_known(k1),
        c.material_known(k2),
        k1 != k2,
    ensures
        c.material_handle(k1) != c.material_handle(k2),
{
    let i1 = c.mat_index(k1);
    let i2 = c.mat_index(k2);
    assert(0 <= i1 < c.materials@.len() && c.materials@[i1].key == k1);
    assert(0 <= i2 < c.materials@.len() && c.materials@[i2].key == k2);
}

/// Distinct archetypes never share a geometry handle.
pub proof fn lemma_distinct_archetypes_distinct_handles(c: ResourceCache, a1: Archetype, a2: Archetype)
    requires
        c.wf(),
        c.geometry_known(a1),
        c.geometry_known(a2),
        a1 != a2,
    ensures
        c.geometry_handle(a1) != c.geometry_handle(a2),
{
    let i1 = c.geo_index(a1);
    let i2 = c.geo_index(a2);
    assert(0 <= i1 < c.geometries@.len() && c.geometries@[i1].archetype == a1);
    assert(0 <= i2 < c.geometries@.len() && c.geometries@[i2].archetype == a2);
}

} // verus!
