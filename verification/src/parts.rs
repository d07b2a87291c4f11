//! Particle storage: the shared position/velocity/force store indexed by
//! soldier id, and the per-soldier skeleton with its verlet integrator.

use vstd::prelude::*;
use crate::fx::{Vec2, FX_ONE, abs_s, fx_mul_s, fx_mul, lemma_fx_mul_abs};

verus! {

/// Number of skeleton joints (index 0 is unused, as in the source data).
pub const NUM_JOINTS: usize = 31;

/// Coordinate bound under which the skeleton integrator is exact.
pub const SK_LIM: i64 = 0x40_0000_0000_0000;

/// The shared store of per-soldier position, previous position, velocity
/// and accumulated force, indexed by soldier id.
pub struct ParticleStore {
    pub pos: Vec<Vec2>,
    pub old_pos: Vec<Vec2>,
    pub velocity: Vec<Vec2>,
    pub forces: Vec<Vec2>,
}

/// All four arrays cover the same ids.
pub open spec fn ps_wf(p: ParticleStore) -> bool {
    &&& p.pos@.len() == p.old_pos@.len()
    &&& p.pos@.len() == p.velocity@.len()
    &&& p.pos@.len() == p.forces@.len()
}

impl ParticleStore {
    /// A store for `n` soldiers, all entries zero.
    pub fn new(n: usize) -> (r: ParticleStore)
        ensures
            ps_wf(r),
            r.pos@.len() == n,
            forall|i: int|
                0 <= i < n ==> (#[trigger] r.pos@[i]) == (Vec2 { x: 0, y: 0 })
                    && r.old_pos@[i] == (Vec2 { x: 0, y: 0 }) && r.velocity@[i] == (Vec2 {
                    x: 0,
                    y: 0,
                }) && r.forces@[i] == (Vec2 { x: 0, y: 0 }),
    {
        let mut pos: Vec<Vec2> = Vec::new();
        let mut i: usize = 0;
        while i < n
            invariant
                i <= n,
                pos@.len() == i,
                forall|t: int| 0 <= t < i ==> (#[trigger] pos@[t]) == (Vec2 { x: 0, y: 0 }),
            decreases n - i,
        {
            pos.push(Vec2 { x: 0, y: 0 });
            i = i + 1;
        }
        let old_pos = pos.clone();
        let velocity = pos.clone();
        let forces = pos.clone();
        ParticleStore { pos, old_pos, velocity, forces }
    }

    /// Register a soldier: position and previous position start at `p`,
    /// velocity at `v`, accumulated force at zero.
    pub fn create_part(&mut self, p: Vec2, v: Vec2, num: usize)
        requires
            ps_wf(*old(self)),
            num < old(self).pos@.len(),
        ensures
            ps_wf(*final(self)),
            final(self).pos@ == old(self).pos@.update(num as int, p),
            final(self).old_pos@ == old(self).old_pos@.update(num as int, p),
            final(self).velocity@ == old(self).velocity@.update(num as int, v),
            final(self).forces@ == old(self).forces@.update(num as int, (Vec2 { x: 0, y: 0 })),
    {
        self.pos.set(num, p);
        self.old_pos.set(num, p);
        self.velocity.set(num, v);
        self.forces.set(num, Vec2 { x: 0, y: 0 });
    }
}

/// The soldier's skeleton: one position/previous-position pair per joint,
/// an active flag per joint, and the integrator's gravity and damping.
pub struct ParticleSystem {
    pub pos: Vec<Vec2>,
    pub old_pos: Vec<Vec2>,
    pub active: Vec<bool>,
    pub gravity: i64,
    pub v_damping: i64,
}

/// Well-formed skeleton: full joint arrays, damping at most one, a small
/// gravity step.
pub open spec fn sk_wf(s: ParticleSystem) -> bool {
    &&& s.pos@.len() == NUM_JOINTS
    &&& s.old_pos@.len() == NUM_JOINTS
    &&& s.active@.len() == NUM_JOINTS
    &&& 0 <= s.v_damping <= FX_ONE
    &&& abs_s(s.gravity as int) <= FX_ONE as int
}

/// Every joint coordinate (current and previous) within `b`.
pub open spec fn sk_in(s: ParticleSystem, b: int) -> bool {
    forall|j: int|
        0 <= j < NUM_JOINTS ==> abs_s((#[trigger] s.pos@[j]).x as int) <= b && abs_s(
            s.pos@[j].y as int,
        ) <= b && abs_s(s.old_pos@[j].x as int) <= b && abs_s(s.old_pos@[j].y as int) <= b
}

/// One verlet step of a coordinate: damped motion continues.
pub open spec fn verlet_x_s(p: int, o: int, damping: int) -> int {
    p + fx_mul_s(p - o, damping)
}

/// One verlet step of a vertical coordinate: damped motion plus gravity.
pub open spec fn verlet_y_s(p: int, o: int, damping: int, gravity: int) -> int {
    p + fx_mul_s(p - o, damping) + gravity
}

/// One verlet pass over the active joints of an inclusive range, as a
/// relation between skeleton states: each such joint moves on by its
/// damped previous motion plus gravity and banks its previous position;
/// everything else is untouched.
pub open spec fn verlet_rel(lo: int, hi: int, sk0: ParticleSystem, sk1: ParticleSystem) -> bool {
    &&& sk1.active == sk0.active
    &&& sk1.gravity == sk0.gravity
    &&& sk1.v_damping == sk0.v_damping
    &&& sk1.pos@.len() == sk0.pos@.len()
    &&& sk1.old_pos@.len() == sk0.old_pos@.len()
    &&& forall|j: int|
        0 <= j < NUM_JOINTS && !(lo <= j <= hi && sk0.active@[j]) ==> (#[trigger] sk1.pos@[j])
            == sk0.pos@[j] && sk1.old_pos@[j] == sk0.old_pos@[j]
    &&& forall|j: int|
        lo <= j <= hi && sk0.active@[j] ==> (#[trigger] sk1.pos@[j]).x as int == verlet_x_s(
            sk0.pos@[j].x as int,
            sk0.old_pos@[j].x as int,
            sk0.v_damping as int,
        ) && sk1.pos@[j].y as int == verlet_y_s(
            sk0.pos@[j].y as int,
            sk0.old_pos@[j].y as int,
            sk0.v_damping as int,
            sk0.gravity as int,
        ) && sk1.old_pos@[j] == sk0.pos@[j]
}

/// Widening a skeleton coordinate bound.
pub proof fn lemma_sk_widen(s: ParticleSystem, a: int, b: int)
    requires
        sk_in(s, a),
        a <= b,
    ensures
        sk_in(s, b),
{
    assert forall|j: int|
        0 <= j < NUM_JOINTS implies abs_s((#[trigger] s.pos@[j]).x as int) <= b && abs_s(
        s.pos@[j].y as int,
    ) <= b && abs_s(s.old_pos@[j].x as int) <= b && abs_s(s.old_pos@[j].y as int) <= b by {
        assert(abs_s((s.pos@[j]).x as int) <= a);
    }
}

impl ParticleSystem {
    /// The soldier's skeleton at rest: all joints active at the origin,
    /// secondary-motion gravity and damping preset.
    pub fn new() -> (r: ParticleSystem)
        ensures
            sk_wf(r),
            sk_in(r, 0),
            forall|j: int| 0 <= j < NUM_JOINTS ==> (#[trigger] r.active@[j]) == true,
            r.gravity == 636,
            r.v_damping == 9945,
    {
        let mut pos: Vec<Vec2> = Vec::new();
        let mut active: Vec<bool> = Vec::new();
        let mut i: usize = 0;
        while i < NUM_JOINTS
            invariant
                i <= NUM_JOINTS,
                pos@.len() == i,
                active@.len() == i,
                forall|t: int| 0 <= t < i ==> (#[trigger] pos@[t]) == (Vec2 { x: 0, y: 0 }),
                forall|t: int| 0 <= t < i ==> (#[trigger] active@[t]) == true,
            decreases NUM_JOINTS - i,
        {
            pos.push(Vec2 { x: 0, y: 0 });
            active.push(true);
            i = i + 1;
        }
        let old_pos = pos.clone();
        ParticleSystem { pos, old_pos, active, gravity: 636, v_damping: 9945 }
    }

    /// Verlet-integrate the active joints from `lo` to `hi` inclusive:
    /// each moves on by its damped previous motion plus gravity, and its
    /// previous position becomes its current one. Other joints, the active
    /// flags and the integrator constants are untouched.
    pub fn do_verlet_timestep_for(&mut self, lo: usize, hi: usize)
        requires
            sk_wf(*old(self)),
            sk_in(*old(self), 32 * (SK_LIM as int)),
            1 <= lo,
            lo <= hi,
            hi < NUM_JOINTS,
        ensures
            sk_wf(*final(self)),
            sk_in(*final(self), 128 * (SK_LIM as int)),
            final(self).active == old(self).active,
            final(self).gravity == old(self).gravity,
            final(self).v_damping == old(self).v_damping,
            forall|j: int|
                0 <= j < NUM_JOINTS && !(lo <= j <= hi && old(self).active@[j]) ==> (
                #[trigger] final(self).pos@[j]) == old(self).pos@[j] && final(self).old_pos@[j]
                    == old(self).old_pos@[j],
            forall|j: int|
                lo <= j <= hi && old(self).active@[j] ==> (#[trigger] final(self).pos@[j]).x as int
                    == verlet_x_s(old(self).pos@[j].x as int, old(self).old_pos@[j].x as int,
                old(self).v_damping as int) && final(self).pos@[j].y as int == verlet_y_s(
                old(self).pos@[j].y as int, old(self).old_pos@[j].y as int,
                old(self).v_damping as int, old(self).gravity as int) && final(self).old_pos@[j]
                    == old(self).pos@[j],
            verlet_rel(lo as int, hi as int, *old(self), *final(self)),
    {
        let mut j: usize = lo;
        while j <= hi
            invariant
                sk_wf(*old(self)),
                sk_wf(*self),
                sk_in(*self, 128 * (SK_LIM as int)),
                lo <= j <= hi + 1,
                hi < NUM_JOINTS,
                1 <= lo,
                self.active == old(self).active,
                self.gravity == old(self).gravity,
                self.v_damping == old(self).v_damping,
                sk_in(*old(self), 32 * (SK_LIM as int)),
                forall|t: int|
                    0 <= t < NUM_JOINTS && !(lo <= t < j && old(self).active@[t]) ==> (
                    #[trigger] self.pos@[t]) == old(self).pos@[t] && self.old_pos@[t] == old(
                        self,
                    ).old_pos@[t],
                forall|t: int|
                    lo <= t < j && old(self).active@[t] ==> (#[trigger] self.pos@[t]).x as int
                        == verlet_x_s(old(self).pos@[t].x as int, old(self).old_pos@[t].x as int,
                    old(self).v_damping as int) && self.pos@[t].y as int == verlet_y_s(
                    old(self).pos@[t].y as int, old(self).old_pos@[t].y as int,
                    old(self).v_damping as int, old(self).gravity as int) && self.old_pos@[t]
                        == old(self).pos@[t],
            decreases hi + 1 - j,
        {
            let ghost pre = *self;
            if self.active[j] {
                let p = self.pos[j];
                let o = self.old_pos[j];
                proof {
                    assert(self.pos@[j as int] == old(self).pos@[j as int]);
                    assert(self.old_pos@[j as int] == old(self).old_pos@[j as int]);
                    lemma_fx_mul_abs(
                        p.x - o.x,
                        self.v_damping as int,
                        64 * (SK_LIM as int),
                        FX_ONE as int,
                    );
                    lemma_fx_mul_abs(
                        p.y - o.y,
                        self.v_damping as int,
                        64 * (SK_LIM as int),
                        FX_ONE as int,
                    );
                }
                let mx = fx_mul(p.x - o.x, self.v_damping);
                let my = fx_mul(p.y - o.y, self.v_damping);
                let np = Vec2 { x: p.x + mx, y: p.y + my + self.gravity };
                self.old_pos.set(j, p);
                self.pos.set(j, np);
            }
            proof {
                assert forall|t: int|
                    0 <= t < NUM_JOINTS && t != j as int implies (self.pos@[t]) == pre.pos@[t]
                    && self.old_pos@[t] == pre.old_pos@[t] by {}
            }
            j = j + 1;
        }
    }

    /// Verlet-integrate the whole skeleton (ragdoll mode).
    pub fn do_verlet_timestep(&mut self)
        requires
            sk_wf(*old(self)),
            sk_in(*old(self), 32 * (SK_LIM as int)),
        ensures
            sk_wf(*final(self)),
            sk_in(*final(self), 128 * (SK_LIM as int)),
            final(self).active == old(self).active,
            final(self).gravity == old(self).gravity,
            final(self).v_damping == old(self).v_damping,
            final(self).pos@[0] == old(self).pos@[0],
            final(self).old_pos@[0] == old(self).old_pos@[0],
            forall|j: int|
                1 <= j < NUM_JOINTS && !old(self).active@[j] ==> (#[trigger] final(self).pos@[j])
                    == old(self).pos@[j] && final(self).old_pos@[j] == old(self).old_pos@[j],
            forall|j: int|
                1 <= j < NUM_JOINTS && old(self).active@[j] ==> (
                #[trigger] final(self).pos@[j]).x as int == verlet_x_s(old(self).pos@[j].x as int,
                old(self).old_pos@[j].x as int, old(self).v_damping as int)
                    && final(self).pos@[j].y as int == verlet_y_s(old(self).pos@[j].y as int,
                old(self).old_pos@[j].y as int, old(self).v_damping as int,
                old(self).gravity as int) && final(self).old_pos@[j] == old(self).pos@[j],
            verlet_rel(1, NUM_JOINTS - 1, *old(self), *final(self)),
    {
        self.do_verlet_timestep_for(1, NUM_JOINTS - 1);
        proof {
            assert(self.pos@[0] == old(self).pos@[0]);
            assert(self.old_pos@[0] == old(self).old_pos@[0]);
        }
    }
}

} // verus!
