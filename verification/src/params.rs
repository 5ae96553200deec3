//! The tunable scene parameters and their change signal.
//!
//! [`ParameterStore`] holds the current parameter values together with the
//! values observed at the previous change check. The change signal is a pure
//! value comparison: a check reports whether anything differs from the last
//! observation and then resets the baseline, so the signal is consumed by
//! exactly one observer per regeneration cycle.

use vstd::prelude::*;

verus! {

/// Default number of image planes.
pub const DEFAULT_PLANE_COUNT: u32 = 7;

/// Default number of sampled points.
pub const DEFAULT_POINT_COUNT: u32 = 10;

/// Default point diameter, in coordinate units (0.05 world units).
pub const DEFAULT_POINT_SIZE: u32 = 50;

/// Default base-plane width, in coordinate units (1.36 world units).
pub const DEFAULT_BASE_WIDTH: u32 = 1360;

/// Default base-plane height, in coordinate units (0.765 world units).
pub const DEFAULT_BASE_HEIGHT: u32 = 765;

/// One complete assignment of the tunable parameters.
///
/// Sizes are fixed-point coordinate units (see [`crate::units::WORLD_UNIT`]).
#[derive(Clone, Copy, PartialEq, Eq, Structural, Debug)]
pub struct Params {
    /// Number of image planes, at least 1.
    pub plane_count: u32,
    /// Number of sampled points, possibly 0.
    pub point_count: u32,
    /// Diameter of a point entity, positive.
    pub point_size: u32,
    /// Width of the base (depth 1) plane, positive.
    pub base_width: u32,
    /// Height of the base (depth 1) plane, positive.
    pub base_height: u32,
}

impl Params {
    /// Every field marked positive is positive.
    pub open spec fn wf(self) -> bool {
        &&& self.plane_count >= 1
        &&& self.point_size >= 1
        &&& self.base_width >= 1
        &&& self.base_height >= 1
    }

    pub open spec fn default_spec() -> Params {
        Params {
            plane_count: DEFAULT_PLANE_COUNT,
            point_count: DEFAULT_POINT_COUNT,
            point_size: DEFAULT_POINT_SIZE,
            base_width: DEFAULT_BASE_WIDTH,
            base_height: DEFAULT_BASE_HEIGHT,
        }
    }
}

/// The current parameters plus the baseline observed at the previous change
/// check (`None` before the first check, so the first check always reports a
/// change and triggers the initial build).
pub struct ParameterStore {
    current: Params,
    baseline: Option<Params>,
}

impl ParameterStore {
    /// The current parameter values.
    pub closed spec fn params(self) -> Params {
        self.current
    }

    /// The values observed at the previous change check, if any.
    pub closed spec fn observed(self) -> Option<Params> {
        self.baseline
    }

    /// A change check performed now would report a change.
    pub open spec fn pending_change(self) -> bool {
        self.observed() != Some(self.params())
    }

    pub open spec fn wf(self) -> bool {
        &&& self.params().wf()
        &&& self.observed() matches Some(b) ==> b.wf()
    }

    /// A store with the default parameters and no observation yet.
    pub fn new() -> (s: ParameterStore)
        ensures
            s.params() == Params::default_spec(),
            s.observed() is None,
            s.pending_change(),
            s.wf(),
    {
        ParameterStore {
            current: Params {
                plane_count: DEFAULT_PLANE_COUNT,
                point_count: DEFAULT_POINT_COUNT,
                point_size: DEFAULT_POINT_SIZE,
                base_width: DEFAULT_BASE_WIDTH,
                base_height: DEFAULT_BASE_HEIGHT,
            },
            baseline: None,
        }
    }

    pub fn plane_count(&self) -> (r: u32)
        ensures
            r == self.params().plane_count,
    {
        self.current.plane_count
    }

    pub fn point_count(&self) -> (r: u32)
        ensures
            r == self.params().point_count,
    {
        self.current.point_count
    }

    pub fn point_size(&self) -> (r: u32)
        ensures
            r == self.params().point_size,
    {
        self.current.point_size
    }

    pub fn base_plane_size(&self) -> (r: (u32, u32))
        ensures
            r.0 == self.params().base_width,
            r.1 == self.params().base_height,
    {
        (self.current.base_width, self.current.base_height)
    }

    /// A copy of the current parameter values.
    pub fn snapshot(&self) -> (p: Params)
        ensures
            p == self.params(),
    {
        self.current
    }

    pub fn set_plane_count(&mut self, v: u32)
        requires
            v >= 1,
        ensures
            final(self).params() == (Params { plane_count: v, ..old(self).params() }),
            final(self).observed() == old(self).observed(),
            old(self).wf() ==> final(self).wf(),
    {
        self.current.plane_count = v;
    }

    pub fn set_point_count(&mut self, v: u32)
        ensures
            final(self).params() == (Params { point_count: v, ..old(self).params() }),
            final(self).observed() == old(self).observed(),
            old(self).wf() ==> final(self).wf(),
    {
        self.current.point_count = v;
    }

    pub fn set_point_size(&mut self, v: u32)
        requires
            v >= 1,
        ensures
            final(self).params() == (Params { point_size: v, ..old(self).params() }),
            final(self).observed() == old(self).observed(),
            old(self).wf() ==> final(self).wf(),
    {
        self.current.point_size = v;
    }

    pub fn set_base_plane_size(&mut self, width: u32, height: u32)
        requires
            width >= 1,
            height >= 1,
        ensures
            final(self).params() == (Params {
                base_width: width,
                base_height: height,
                ..old(self).params()
            }),
            final(self).observed() == old(self).observed(),
            old(self).wf() ==> final(self).wf(),
    {
        self.current.base_width = width;
        self.current.base_height = height;
    }

    /// Forces the next change check to report a change even though no value
    /// differs — used to retry a build that had to be skipped (for instance
    /// while the surface was unavailable) after its check had already
    /// consumed the signal.
    pub fn force_change(&mut self)
        ensures
            final(self).params() == old(self).params(),
            final(self).observed() is None,
            final(self).pending_change(),
            old(self).wf() ==> final(self).wf(),
    {
        self.baseline = None;
    }

    /// Reports whether any parameter differs from the values observed at the
    /// previous check, then resets the baseline to the current values. The
    /// scene-graph rebuild is the single consumer of this signal.
    pub fn changed_since_last_check(&mut self) -> (changed: bool)
        ensures
            changed == old(self).pending_change(),
            final(self).params() == old(self).params(),
            final(self).observed() == Some(old(self).params()),
            !final(self).pending_change(),
            old(self).wf() ==> final(self).wf(),
    {
        let changed = match &self.baseline {
            Some(b) => !(*b == self.current),
            None => true,
        };
        self.baseline = Some(self.current);
        changed
    }
}

impl Default for ParameterStore {
    fn default() -> (s: ParameterStore)
        ensures
            s.params() == Params::default_spec(),
            s.observed() is None,
            s.pending_change(),
            s.wf(),
    {
        ParameterStore::new()
    }
}

/// Law: after a change check (and so after any rebuild pass) the store is
/// settled — a second check with no mutation in between reports no change, so
/// the rebuild that gates on it is a no-op.
pub proof fn lemma_settled_store_reports_no_change(s: ParameterStore)
    requires
        s.observed() == Some(s.params()),
    ensures
        !s.pending_change(),
{
}

/// Law: change gating — mutating `plane_count` alone to a different value
/// makes exactly the next change check report a change. The hypotheses mirror
/// what `set_plane_count` ensures when applied to a settled store.
pub proof fn lemma_change_gating(before: ParameterStore, after: ParameterStore, v: u32)
    requires
        !before.pending_change(),
        v != before.params().plane_count,
        after.params() == (Params { plane_count: v, ..before.params() }),
        after.observed() == before.observed(),
    ensures
        after.pending_change(),
{
}

} // verus!
