//! The soldier: per-tick movement integration, procedural pose placement,
//! and the three collision tests against the polygon map.

use vstd::prelude::*;
use crate::fx::{
    Vec2, FX_ONE, FX_LIM, fxb, abs_s, tdiv, fx_mul_s, fx_mul, fx_div_s, vlen_s, vnorm_s, pld_s,
    v2b, vec2length, vec2normalize, vec2distance, point_line_distance, lemma_fx_mul_abs,
    lemma_mul_abs_le, div_trunc,
};
use crate::map::{
    PolyType, Polygon, MapData, Sector, collides, collides_s, deadly_s, map_b, poly_b, probe_b,
    point_in_poly, point_in_poly_edges, pip_s, pipe_s, closest_perpendicular, cp_edge_s,
    pld_edge_s, perp_of_s, sector_list_s, sector_ok, dist_lim,
};
use crate::parts::{
    ParticleStore, ParticleSystem, ps_wf, sk_wf, sk_in, NUM_JOINTS, SK_LIM, verlet_x_s,
    verlet_y_s, verlet_rel,
};
use crate::anim::{
    AnimKind, Animation, anim_wf, advance_s, locked_legs, locked_legs_s, aim_locked,
    aim_locked_s, posed_legs, posed_legs_s,
};
use crate::control::{Control, Key, KeyState, MouseButton};

verus! {

/// Lateral speed under which a steep ground contact is held in place.
pub const SLIDELIMIT: i64 = 2000;

/// Gravity compensation injected when ground contact is held.
pub const GRAV: i64 = 600;

/// Velocity decay on an ordinary grounded tick.
pub const SURFACECOEFX: i64 = 9700;

pub const SURFACECOEFY: i64 = 9700;

/// Velocity decay while crouch-running.
pub const CROUCHMOVESURFACECOEFX: i64 = 8500;

pub const CROUCHMOVESURFACECOEFY: i64 = 9700;

/// Velocity decay while standing still: motion stops outright.
pub const STANDSURFACECOEFX: i64 = 0;

pub const STANDSURFACECOEFY: i64 = 0;

/// Hard cap on each velocity component after a tick.
pub const MAX_VELOCITY: i64 = 110000;

/// Collider radius of the radius sweep.
pub const SOLDIER_COL_RADIUS: i64 = 30000;

pub const POS_STAND: u8 = 1;

pub const POS_CROUCH: u8 = 2;

pub const POS_PRONE: u8 = 3;

/// Everything one tick reads and writes besides the soldier itself: the
/// read-only map and the shared particle store.
pub struct MainState {
    pub map: MapData,
    pub soldier_parts: ParticleStore,
}

pub open spec fn state_wf(st: MainState) -> bool {
    &&& map_b(st.map)
    &&& ps_wf(st.soldier_parts)
}

/// The store's entries for one soldier are within the simulation's
/// coordinate bound.
pub open spec fn parts_in_s(p: ParticleStore, num: int, b: int) -> bool {
    &&& abs_s(p.pos@[num].x as int) <= b
    &&& abs_s(p.pos@[num].y as int) <= b
    &&& abs_s(p.old_pos@[num].x as int) <= b
    &&& abs_s(p.old_pos@[num].y as int) <= b
    &&& abs_s(p.velocity@[num].x as int) <= b
    &&& abs_s(p.velocity@[num].y as int) <= b
    &&& abs_s(p.forces@[num].x as int) <= b
    &&& abs_s(p.forces@[num].y as int) <= b
}

/// The simulated soldier.
pub struct Soldier {
    pub active: bool,
    pub dead_meat: bool,
    pub style: u8,
    pub num: usize,
    pub visible: u8,
    pub on_ground: bool,
    pub on_ground_for_law: bool,
    pub on_ground_last_frame: bool,
    pub on_ground_permanent: bool,
    pub direction: i8,
    pub old_direction: i8,
    pub health: i64,
    pub alpha: u8,
    pub jets_count: i32,
    pub jets_count_prev: i32,
    pub wear_helmet: u8,
    pub has_cigar: u8,
    pub vest: i64,
    pub idle_time: i32,
    pub idle_random: i8,
    pub position: u8,
    pub on_fire: u8,
    pub collider_distance: u8,
    pub half_dead: bool,
    pub skeleton: ParticleSystem,
    pub legs_animation: Animation,
    pub body_animation: Animation,
    pub control: Control,
}

/// Well-formed soldier: a valid skeleton, valid animation tracks, a unit
/// facing direction.
pub open spec fn soldier_wf(s: Soldier) -> bool {
    &&& sk_wf(s.skeleton)
    &&& anim_wf(s.legs_animation)
    &&& anim_wf(s.body_animation)
    &&& s.direction == 1 || s.direction == -1
}

impl Soldier {
    /// Translate one keyboard transition into control flags.
    #[verifier::rlimit(100)]
    pub fn update_keys(&mut self, state_k: KeyState, key: Key)
        ensures
            final(self).control.left == (if key == Key::A {
                state_k == KeyState::Pressed
            } else {
                old(self).control.left
            }),
            final(self).control.right == (if key == Key::D {
                state_k == KeyState::Pressed
            } else {
                old(self).control.right
            }),
            final(self).control.up == (if key == Key::W {
                state_k == KeyState::Pressed
            } else {
                old(self).control.up
            }),
            final(self).control.down == (if key == Key::S {
                state_k == KeyState::Pressed
            } else {
                old(self).control.down
            }),
            final(self).control.change == (if key == Key::Q {
                state_k == KeyState::Pressed
            } else {
                old(self).control.change
            }),
            final(self).control.throw == (if key == Key::E {
                state_k == KeyState::Pressed
            } else {
                old(self).control.throw
            }),
            final(self).control.prone == (if key == Key::X {
                state_k == KeyState::Pressed
            } else {
                old(self).control.prone
            }),
            final(self).control.fire == old(self).control.fire,
            final(self).control.jets == old(self).control.jets,
            final(self).control.mouse_aim_x == old(self).control.mouse_aim_x,
            final(self).control.mouse_aim_y == old(self).control.mouse_aim_y,
            *final(self) == (Soldier { control: final(self).control, ..*old(self) }),
    {
        let pressed = match state_k {
            KeyState::Pressed => true,
            KeyState::Released => false,
        };
        match key {
            Key::A => self.control.left = pressed,
            Key::D => self.control.right = pressed,
            Key::W => self.control.up = pressed,
            Key::S => self.control.down = pressed,
            Key::Q => self.control.change = pressed,
            Key::E => self.control.throw = pressed,
            Key::X => self.control.prone = pressed,
            Key::Other => {},
        }
    }

    /// Translate one mouse-button transition into control flags.
    #[verifier::rlimit(100)]
    pub fn update_mouse_button(&mut self, state_b: KeyState, button: MouseButton)
        ensures
            final(self).control.fire == (if button == MouseButton::Left {
                state_b == KeyState::Pressed
            } else {
                old(self).control.fire
            }),
            final(self).control.jets == (if button == MouseButton::Right {
                state_b == KeyState::Pressed
            } else {
                old(self).control.jets
            }),
            *final(self) == (Soldier { control: final(self).control, ..*old(self) }),
            final(self).control == (Control {
                fire: final(self).control.fire,
                jets: final(self).control.jets,
                ..old(self).control
            }),
    {
        let pressed = match state_b {
            KeyState::Pressed => true,
            KeyState::Released => false,
        };
        match button {
            MouseButton::Left => self.control.fire = pressed,
            MouseButton::Right => self.control.jets = pressed,
            MouseButton::Other => {},
        }
    }

    /// A fresh soldier at the map's first spawn point: standing, full
    /// health, both tracks on the standing pose, registered in the store
    /// under id 1.
    pub fn new(state: &mut MainState) -> (r: Soldier)
        requires
            state_wf(*old(state)),
            old(state).soldier_parts.pos@.len() > 1,
        ensures
            state_wf(*final(state)),
            final(state).map == old(state).map,
            soldier_wf(r),
            r.active && !r.dead_meat && !r.half_dead,
            r.num == 1,
            r.direction == 1 && r.old_direction == 1,
            r.health == 1_500_000,
            r.alpha == 255,
            r.jets_count == 0,
            r.position == POS_STAND,
            r.skeleton.gravity == 636,
            r.skeleton.v_damping == 9945,
            forall|j: int| 0 <= j < NUM_JOINTS ==> (#[trigger] r.skeleton.active@[j]) == true,
            forall|j: int|
                0 <= j < NUM_JOINTS ==> (#[trigger] r.skeleton.pos@[j]) == (Vec2 { x: 0, y: 0 })
                    && r.skeleton.old_pos@[j] == (Vec2 { x: 0, y: 0 }),
            !r.on_ground && !r.on_ground_for_law && !r.on_ground_last_frame
                && !r.on_ground_permanent,
            r.legs_animation.kind == AnimKind::Stand,
            r.body_animation.kind == AnimKind::Stand,
            r.control == (Control {
                left: false,
                right: false,
                up: false,
                down: false,
                change: false,
                throw: false,
                prone: false,
                fire: false,
                jets: false,
                mouse_aim_x: 0,
                mouse_aim_y: 0,
            }),
            final(state).soldier_parts.pos@ == old(state).soldier_parts.pos@.update(
                1,
                old(state).map.spawnpoints@[0],
            ),
            final(state).soldier_parts.old_pos@ == old(state).soldier_parts.old_pos@.update(
                1,
                old(state).map.spawnpoints@[0],
            ),
            final(state).soldier_parts.velocity@ == old(state).soldier_parts.velocity@.update(
                1,
                (Vec2 { x: 0, y: 0 }),
            ),
            final(state).soldier_parts.forces@ == old(state).soldier_parts.forces@.update(
                1,
                (Vec2 { x: 0, y: 0 }),
            ),
    {
        let control: Control = Default::default();
        let gostek = ParticleSystem::new();
        let spawn = state.map.spawnpoints[0];
        state.soldier_parts.create_part(spawn, Vec2 { x: 0, y: 0 }, 1);
        Soldier {
            active: true,
            dead_meat: false,
            style: 0,
            num: 1,
            visible: 1,
            on_ground: false,
            on_ground_for_law: false,
            on_ground_last_frame: false,
            on_ground_permanent: false,
            direction: 1,
            old_direction: 1,
            health: 1_500_000,
            alpha: 255,
            jets_count: 0,
            jets_count_prev: 0,
            wear_helmet: 0,
            has_cigar: 1,
            vest: 0,
            idle_time: 0,
            idle_random: 0,
            position: POS_STAND,
            on_fire: 0,
            collider_distance: 255,
            half_dead: false,
            skeleton: gostek,
            legs_animation: Animation::new(AnimKind::Stand, true, 1),
            body_animation: Animation::new(AnimKind::Stand, true, 1),
            control,
        }
    }

    /// Interrupt the legs track — refused outright while the track plays
    /// a locked (prone) kind; otherwise a differing kind takes over at
    /// `curr`, and reapplying the current kind is a no-op.
    pub fn legs_apply_animation(&mut self, anim: Animation, curr: usize)
        requires
            anim_wf(anim),
            anim_wf(old(self).legs_animation),
            curr < anim.frames@.len(),
        ensures
            locked_legs_s(old(self).legs_animation.kind) ==> *final(self) == *old(self),
            !locked_legs_s(old(self).legs_animation.kind) && anim.kind != old(self).legs_animation.kind ==> *final(self) == (Soldier {
                legs_animation: (Animation { curr_frame: curr, ..anim }),
                ..*old(self)
            }),
            !locked_legs_s(old(self).legs_animation.kind) && anim.kind == old(self).legs_animation.kind ==> *final(self) == *old(self),
            anim_wf(final(self).legs_animation),
    {
        if locked_legs(self.legs_animation.kind) {
            return ;
        }
        if anim.kind != self.legs_animation.kind {
            self.legs_animation = anim;
            self.legs_animation.curr_frame = curr;
        }
    }

    /// Interrupt the body track: a differing kind takes over at `curr`;
    /// the body track has no locked kinds.
    pub fn body_apply_animation(&mut self, anim: Animation, curr: usize)
        requires
            anim_wf(anim),
            anim_wf(old(self).body_animation),
            curr < anim.frames@.len(),
        ensures
            anim.kind != old(self).body_animation.kind ==> *final(self) == (Soldier {
                body_animation: (Animation { curr_frame: curr, ..anim }),
                ..*old(self)
            }),
            anim.kind == old(self).body_animation.kind ==> *final(self) == *old(self),
            anim_wf(final(self).body_animation),
    {
        if anim.kind != self.body_animation.kind {
            self.body_animation = anim;
            self.body_animation.curr_frame = curr;
        }
    }

    /// Touching a deadly surface sends the soldier back to the first
    /// spawn point; every other surface leaves the store untouched.
    pub fn handle_special_polytypes(
        &mut self,
        state: &mut MainState,
        polytype: PolyType,
        _pos: Vec2,
    )
        requires
            state_wf(*old(state)),
            old(self).num < old(state).soldier_parts.pos@.len(),
        ensures
            *final(self) == *old(self),
            state_wf(*final(state)),
            final(state).map == old(state).map,
            deadly_s(polytype) ==> final(state).soldier_parts.pos@ == old(state).soldier_parts.pos@.update(old(self).num as int, old(state).map.spawnpoints@[0]),
            !deadly_s(polytype) ==> final(state).soldier_parts.pos@ == old(state).soldier_parts.pos@,
            final(state).soldier_parts.old_pos@ == old(state).soldier_parts.old_pos@,
            final(state).soldier_parts.velocity@ == old(state).soldier_parts.velocity@,
            final(state).soldier_parts.forces@ == old(state).soldier_parts.forces@,
    {
        if polytype == PolyType::Deadly || polytype == PolyType::BloodyDeadly || polytype
            == PolyType::Explosive {
            let spawn = state.map.spawnpoints[0];
            state.soldier_parts.pos.set(self.num, spawn);
        }
    }

    /// Area probe: test the probe point (advanced by the current velocity)
    /// against the collidable polygons of its sector cell, and respond to
    /// the first containing one. Returns whether the probe hit.
    #[verifier::rlimit(100)]
    pub fn check_map_collision(&mut self, state: &mut MainState, x: i64, y: i64, area: i32) -> (r:
        bool)
        requires
            state_wf(*old(state)),
            old(self).num < old(state).soldier_parts.pos@.len(),
            parts_in_s(old(state).soldier_parts, old(self).num as int, 0x10_0000_0000_0000),
            abs_s(x as int) <= 0x20_0000_0000_0000,
            abs_s(y as int) <= 0x20_0000_0000_0000,
        ensures
            *final(self) == *old(self),
            state_wf(*final(state)),
            final(state).map == old(state).map,
            final(state).soldier_parts.pos@.len() == old(state).soldier_parts.pos@.len(),
            final(state).soldier_parts.pos@ == old(state).soldier_parts.pos@.update(
                old(self).num as int,
                final(state).soldier_parts.pos@[old(self).num as int],
            ),
            final(state).soldier_parts.old_pos@ == old(state).soldier_parts.old_pos@.update(
                old(self).num as int,
                final(state).soldier_parts.old_pos@[old(self).num as int],
            ),
            final(state).soldier_parts.velocity@ == old(state).soldier_parts.velocity@.update(
                old(self).num as int,
                final(state).soldier_parts.velocity@[old(self).num as int],
            ),
            final(state).soldier_parts.forces@ == old(state).soldier_parts.forces@.update(
                old(self).num as int,
                final(state).soldier_parts.forces@[old(self).num as int],
            ),
            r == area_hit_s(
                old(state).map,
                x + old(state).soldier_parts.velocity@[old(self).num as int].x,
                y + old(state).soldier_parts.velocity@[old(self).num as int].y,
            ),
            !r ==> final(state).soldier_parts == old(state).soldier_parts,
            r ==> area_first_response_s(
                old(state).map,
                x + old(state).soldier_parts.velocity@[old(self).num as int].x,
                y + old(state).soldier_parts.velocity@[old(self).num as int].y,
                area,
                old(self).legs_animation,
                old(self).control,
                old(self).num as int,
                old(state).soldier_parts,
                final(state).soldier_parts,
            ),
            parts_in_s(
                final(state).soldier_parts,
                old(self).num as int,
                8 * 0x10_0000_0000_0000int,
            ),
            ({
                let num = old(self).num as int;
                let p0 = old(state).soldier_parts;
                let p1 = final(state).soldier_parts;
                let vl = abs_s(p0.velocity@[num].x as int) + abs_s(p0.velocity@[num].y as int);
                &&& abs_s(p1.velocity@[num].x as int) <= abs_s(p0.velocity@[num].x as int) + 2
                    * vl
                &&& abs_s(p1.velocity@[num].y as int) <= abs_s(p0.velocity@[num].y as int) + 2
                    * vl
                &&& abs_s(p1.pos@[num].x as int) <= abs_s(p0.pos@[num].x as int) + abs_s(
                    p0.old_pos@[num].x as int,
                ) + FX_LIM + vl
                &&& abs_s(p1.pos@[num].y as int) <= abs_s(p0.pos@[num].y as int) + abs_s(
                    p0.old_pos@[num].y as int,
                ) + FX_LIM + vl
                &&& abs_s(p1.old_pos@[num].x as int) <= abs_s(p0.pos@[num].x as int) + abs_s(
                    p0.old_pos@[num].x as int,
                ) + FX_LIM
                &&& abs_s(p1.old_pos@[num].y as int) <= abs_s(p0.pos@[num].y as int) + abs_s(
                    p0.old_pos@[num].y as int,
                ) + FX_LIM
                &&& abs_s(p1.forces@[num].x as int) <= abs_s(p0.forces@[num].x as int) + abs_s(
                    p0.velocity@[num].x as int,
                ) + 2 * vl
                &&& abs_s(p1.forces@[num].y as int) <= abs_s(p0.forces@[num].y as int) + GRAV
            }),
    {
        let num = self.num;
        let vel = state.soldier_parts.velocity[num];
        let px = x + vel.x;
        let py = y + vel.y;
        let ghost m0 = state.map;
        let ghost p0 = state.soldier_parts;
        let ghost gpx = px as int;
        let ghost gpy = py as int;
        let cands = state.map.candidates(px, py);
        let mut ji: usize = 0;
        while ji < cands.len()
            invariant
                state_wf(*state),
                *self == *old(self),
                num == old(self).num,
                state.map == m0,
                m0 == old(state).map,
                state.soldier_parts == p0,
                p0 == old(state).soldier_parts,
                map_b(m0),
                num < p0.pos@.len(),
                parts_in_s(p0, num as int, 0x10_0000_0000_0000),
                cands@ == sector_list_s(m0, gpx, gpy),
                forall|t: int|
                    0 <= t < cands@.len() ==> 1 <= (#[trigger] cands@[t]) as int && cands@[t] - 1
                        < m0.polygons@.len(),
                forall|t: int| 0 <= t < ji ==> !area_hit_j_s(m0, gpx, gpy, t),
                probe_b(gpx),
                probe_b(gpy),
                gpx == px as int,
                gpy == py as int,
                abs_s(gpx) <= 0x30_0000_0000_0000,
                abs_s(gpy) <= 0x30_0000_0000_0000,
                gpx == x as int + p0.velocity@[num as int].x as int,
                gpy == y as int + p0.velocity@[num as int].y as int,
            decreases cands@.len() - ji,
        {
            let wi = cands[ji];
            let w = (wi - 1) as usize;
            let poly = state.map.polygons[w];
            let pt = poly.polytype;
            if collides(pt) && point_in_poly(px, py, &poly) {
                proof {
                    assert(area_hit_j_s(m0, gpx, gpy, ji as int));
                    assert(area_hit_s(m0, gpx, gpy));
                }
                self.area_respond(state, poly, px, py, area);
                proof {
                    assert(m0.polygons@[sector_list_s(m0, gpx, gpy)[ji as int] - 1] == poly);
                    reveal(area_first_response_s);
                    assert(area_first_response_s(
                        m0,
                        gpx,
                        gpy,
                        area,
                        old(self).legs_animation,
                        old(self).control,
                        old(self).num as int,
                        p0,
                        state.soldier_parts,
                    ));
                }
                return true;
            }
            proof {
                assert(!area_hit_j_s(m0, gpx, gpy, ji as int));
            }
            ji = ji + 1;
        }
        proof {
            assert(!area_hit_s(m0, gpx, gpy));
            let ni = old(self).num as int;
            assert(state.soldier_parts.pos@ =~= old(state).soldier_parts.pos@.update(
                ni,
                state.soldier_parts.pos@[ni],
            ));
            assert(state.soldier_parts.old_pos@ =~= old(state).soldier_parts.old_pos@.update(
                ni,
                state.soldier_parts.old_pos@[ni],
            ));
            assert(state.soldier_parts.velocity@ =~= old(state).soldier_parts.velocity@.update(
                ni,
                state.soldier_parts.velocity@[ni],
            ));
            assert(state.soldier_parts.forces@ =~= old(state).soldier_parts.forces@.update(
                ni,
                state.soldier_parts.forces@[ni],
            ));
        }
        false
    }

    /// The reflection term of a bouncy surface: one plus the restitution
    /// factor times the velocity's component along the penetration normal,
    /// pointed back along that normal.
    fn bounce_term(vel: Vec2, perp2: Vec2, bounciness: i64) -> (r: Vec2)
        requires
            abs_s(vel.x as int) <= 0x10_0000_0000_0000,
            abs_s(vel.y as int) <= 0x10_0000_0000_0000,
            abs_s(perp2.x as int) <= 0x40_0000_0000_0000,
            abs_s(perp2.y as int) <= 0x40_0000_0000_0000,
            0 <= bounciness <= FX_ONE,
        ensures
            ({
                let n3 = vnorm_s(perp2.x as int, perp2.y as int);
                let dot = fx_mul_s(vel.x as int, n3.0) + fx_mul_s(vel.y as int, n3.1);
                let s = fx_mul_s(FX_ONE + bounciness, dot);
                &&& r.x as int == fx_mul_s(n3.0, s)
                &&& r.y as int == fx_mul_s(n3.1, s)
            }),
            abs_s(r.x as int) <= 2 * (abs_s(vel.x as int) + abs_s(vel.y as int)),
            abs_s(r.y as int) <= 2 * (abs_s(vel.x as int) + abs_s(vel.y as int)),
    {
        let n3 = vec2normalize(perp2);
        proof {
            lemma_fx_mul_abs(vel.x as int, n3.x as int, abs_s(vel.x as int), FX_ONE as int);
            lemma_fx_mul_abs(vel.y as int, n3.y as int, abs_s(vel.y as int), FX_ONE as int);
            assert((abs_s(vel.x as int) * (FX_ONE as int)) / (FX_ONE as int) == abs_s(
                vel.x as int,
            )) by (nonlinear_arith)
                requires
                    abs_s(vel.x as int) >= 0,
                    FX_ONE == 10000i64,
            ;
            assert((abs_s(vel.y as int) * (FX_ONE as int)) / (FX_ONE as int) == abs_s(
                vel.y as int,
            )) by (nonlinear_arith)
                requires
                    abs_s(vel.y as int) >= 0,
                    FX_ONE == 10000i64,
            ;
        }
        let dot = fx_mul(vel.x, n3.x) + fx_mul(vel.y, n3.y);
        proof {
            lemma_fx_mul_abs(FX_ONE + bounciness, dot as int, 2 * (FX_ONE as int), abs_s(
                dot as int,
            ));
            assert((2 * (FX_ONE as int) * abs_s(dot as int)) / (FX_ONE as int) == 2 * abs_s(
                dot as int,
            )) by (nonlinear_arith)
                requires
                    abs_s(dot as int) >= 0,
                    FX_ONE == 10000i64,
            ;
        }
        let scale = fx_mul(FX_ONE + bounciness, dot);
        proof {
            lemma_fx_mul_abs(n3.x as int, scale as int, FX_ONE as int, abs_s(scale as int));
            lemma_fx_mul_abs(n3.y as int, scale as int, FX_ONE as int, abs_s(scale as int));
            assert(((FX_ONE as int) * abs_s(scale as int)) / (FX_ONE as int) == abs_s(
                scale as int,
            )) by (nonlinear_arith)
                requires
                    abs_s(scale as int) >= 0,
                    FX_ONE == 10000i64,
            ;
        }
        Vec2 { x: fx_mul(n3.x, scale), y: fx_mul(n3.y, scale) }
    }

    /// The response to one area hit: teleport off a deadly surface, undo
    /// the penetration with restitution, hold steep ground contact, apply
    /// ground friction.
    #[verifier::rlimit(100)]
    #[verifier::spinoff_prover]
    fn area_respond(&mut self, state: &mut MainState, poly: Polygon, px: i64, py: i64, area: i32)
        requires
            state_wf(*old(state)),
            old(self).num < old(state).soldier_parts.pos@.len(),
            parts_in_s(old(state).soldier_parts, old(self).num as int, 0x10_0000_0000_0000),
            abs_s(px as int) <= 0x40_0000_0000_0000,
            abs_s(py as int) <= 0x40_0000_0000_0000,
            poly_b(poly),
            collides_s(poly.polytype),
        ensures
            *final(self) == *old(self),
            state_wf(*final(state)),
            final(state).map == old(state).map,
            final(state).soldier_parts.pos@.len() == old(state).soldier_parts.pos@.len(),
            final(state).soldier_parts.pos@ == old(state).soldier_parts.pos@.update(
                old(self).num as int,
                final(state).soldier_parts.pos@[old(self).num as int],
            ),
            final(state).soldier_parts.old_pos@ == old(state).soldier_parts.old_pos@.update(
                old(self).num as int,
                final(state).soldier_parts.old_pos@[old(self).num as int],
            ),
            final(state).soldier_parts.velocity@ == old(state).soldier_parts.velocity@.update(
                old(self).num as int,
                final(state).soldier_parts.velocity@[old(self).num as int],
            ),
            final(state).soldier_parts.forces@ == old(state).soldier_parts.forces@.update(
                old(self).num as int,
                final(state).soldier_parts.forces@[old(self).num as int],
            ),
            area_response_rel(
                old(state).map,
                poly,
                px as int,
                py as int,
                area,
                old(self).legs_animation,
                old(self).control,
                old(self).num as int,
                old(state).soldier_parts,
                final(state).soldier_parts,
            ),
            parts_in_s(final(state).soldier_parts, old(self).num as int, 8 * 0x10_0000_0000_0000int),
            ({
                let num = old(self).num as int;
                let p0 = old(state).soldier_parts;
                let p1 = final(state).soldier_parts;
                let vl = abs_s(p0.velocity@[num].x as int) + abs_s(p0.velocity@[num].y as int);
                &&& abs_s(p1.velocity@[num].x as int) <= abs_s(p0.velocity@[num].x as int) + 2
                    * vl
                &&& abs_s(p1.velocity@[num].y as int) <= abs_s(p0.velocity@[num].y as int) + 2
                    * vl
                &&& abs_s(p1.pos@[num].x as int) <= abs_s(p0.pos@[num].x as int) + abs_s(
                    p0.old_pos@[num].x as int,
                ) + FX_LIM + vl
                &&& abs_s(p1.pos@[num].y as int) <= abs_s(p0.pos@[num].y as int) + abs_s(
                    p0.old_pos@[num].y as int,
                ) + FX_LIM + vl
                &&& abs_s(p1.old_pos@[num].x as int) <= abs_s(p0.pos@[num].x as int) + abs_s(
                    p0.old_pos@[num].x as int,
                ) + FX_LIM
                &&& abs_s(p1.old_pos@[num].y as int) <= abs_s(p0.pos@[num].y as int) + abs_s(
                    p0.old_pos@[num].y as int,
                ) + FX_LIM
                &&& abs_s(p1.forces@[num].x as int) <= abs_s(p0.forces@[num].x as int) + abs_s(
                    p0.velocity@[num].x as int,
                ) + 2 * vl
                &&& abs_s(p1.forces@[num].y as int) <= abs_s(p0.forces@[num].y as int) + GRAV
            }),
    {
        let num = self.num;
        let vel = state.soldier_parts.velocity[num];
        let pt = poly.polytype;
        self.handle_special_polytypes(state, pt, Vec2 { x: px, y: py });
        let mut d: i64 = 0;
        let mut k: u8 = 0;
        let perp_raw = closest_perpendicular(&poly, Vec2 { x: px, y: py }, &mut d, &mut k);
        let step = perp_raw;
        let n1 = vec2normalize(perp_raw);
        proof {
            lemma_fx_mul_abs(n1.x as int, d as int, FX_ONE as int, 0x400_0000_0000_0000);
            lemma_fx_mul_abs(n1.y as int, d as int, FX_ONE as int, 0x400_0000_0000_0000);
        }
        let p1v = Vec2 { x: fx_mul(n1.x, d), y: fx_mul(n1.y, d) };
        let speed = vec2length(vel.x, vel.y);
        let lenp = vec2length(p1v.x, p1v.y);
        let ghost pxi = px as int;
        let ghost pyi = py as int;
        let ghost speed_i = speed as int;
        let perp2 = if lenp > speed {
            let n2 = vec2normalize(p1v);
            proof {
                lemma_fx_mul_abs(n2.x as int, speed as int, FX_ONE as int, 0x20_0000_0000_0000);
                lemma_fx_mul_abs(n2.y as int, speed as int, FX_ONE as int, 0x20_0000_0000_0000);
            }
            Vec2 { x: fx_mul(n2.x, speed), y: fx_mul(n2.y, speed) }
        } else {
            proof {
                crate::fx::lemma_sqrt_le(p1v.x as int, p1v.y as int, lenp as int);
            }
            p1v
        };
        proof {
            reveal(area_perp_s);
            if lenp as int > speed_i {
                assert((10000int * speed_i) / 10000 == speed_i) by (nonlinear_arith)
                    requires
                        speed_i >= 0,
                ;
                crate::fx::lemma_fx_mul_abs(
                    vnorm_s(p1v.x as int, p1v.y as int).0,
                    speed_i,
                    FX_ONE as int,
                    speed_i,
                );
                crate::fx::lemma_fx_mul_abs(
                    vnorm_s(p1v.x as int, p1v.y as int).1,
                    speed_i,
                    FX_ONE as int,
                    speed_i,
                );
            }
            assert(perp2.x as int == area_perp_s(poly, pxi, pyi, speed_i).0 && perp2.y as int
                == area_perp_s(poly, pxi, pyi, speed_i).1);
            assert(abs_s(perp2.x as int) <= speed_i && abs_s(perp2.y as int) <= speed_i);
        }
        let applies = area == 0 || (area == 1 && (vel.y < 0 || vel.x > SLIDELIMIT || vel.x
            < -SLIDELIMIT));
        if applies {
            let cur = state.soldier_parts.pos[num];
            state.soldier_parts.old_pos.set(num, cur);
            state.soldier_parts.pos.set(num, Vec2 { x: cur.x - perp2.x, y: cur.y - perp2.y });
            let perp3 = if pt == PolyType::Bouncy {
                Self::bounce_term(vel, perp2, poly.bounciness)
            } else {
                perp2
            };
            proof {
                reveal(area_vperp_s);
                assert(perp3.x as int == area_vperp_s(poly, pxi, pyi, speed_i, vel.x as int,
                vel.y as int).0 && perp3.y as int == area_vperp_s(poly, pxi, pyi, speed_i,
                vel.x as int, vel.y as int).1);
                assert(abs_s(perp3.x as int) <= 2 * (abs_s(vel.x as int) + abs_s(vel.y as int))
                    && abs_s(perp3.y as int) <= 2 * (abs_s(vel.x as int) + abs_s(vel.y as int)));
            }
            state.soldier_parts.velocity.set(num, Vec2 { x: vel.x - perp3.x, y: vel.y - perp3.y });
        }
        if area == 0 {
            self.area_friction(state, pt, step.y);
        }
        proof {
            let ni = old(self).num as int;
            assert(state.soldier_parts.pos@ =~= old(state).soldier_parts.pos@.update(
                ni,
                state.soldier_parts.pos@[ni],
            ));
            assert(state.soldier_parts.old_pos@ =~= old(state).soldier_parts.old_pos@.update(
                ni,
                state.soldier_parts.old_pos@[ni],
            ));
            assert(state.soldier_parts.velocity@ =~= old(state).soldier_parts.velocity@.update(
                ni,
                state.soldier_parts.velocity@[ni],
            ));
            assert(state.soldier_parts.forces@ =~= old(state).soldier_parts.forces@.update(
                ni,
                state.soldier_parts.forces@[ni],
            ));
        }
        proof {
            reveal(area_response_rel);
            reveal(ground_friction_s);
        }
    }

    /// Grounded contact: hold the soldier in place on a steep surface at
    /// near-zero lateral speed, then decay the velocity by the friction of
    /// the current legs animation.
    #[verifier::rlimit(100)]
    #[verifier::spinoff_prover]
    fn area_friction(&mut self, state: &mut MainState, pt: PolyType, step_y: i64)
        requires
            state_wf(*old(state)),
            old(self).num < old(state).soldier_parts.pos@.len(),
            abs_s(old(state).soldier_parts.velocity@[old(self).num as int].x as int)
                <= 0x80_0000_0000_0000,
            abs_s(old(state).soldier_parts.velocity@[old(self).num as int].y as int)
                <= 0x80_0000_0000_0000,
            abs_s(old(state).soldier_parts.forces@[old(self).num as int].x as int)
                <= 0x80_0000_0000_0000,
            abs_s(old(state).soldier_parts.forces@[old(self).num as int].y as int)
                <= 0x80_0000_0000_0000,
        ensures
            *final(self) == *old(self),
            state_wf(*final(state)),
            final(state).map == old(state).map,
            final(state).soldier_parts.pos@.len() == old(state).soldier_parts.pos@.len(),
            final(state).soldier_parts.pos@ == old(state).soldier_parts.pos@.update(
                old(self).num as int,
                final(state).soldier_parts.pos@[old(self).num as int],
            ),
            final(state).soldier_parts.old_pos@ == old(state).soldier_parts.old_pos@.update(
                old(self).num as int,
                final(state).soldier_parts.old_pos@[old(self).num as int],
            ),
            final(state).soldier_parts.velocity@ == old(state).soldier_parts.velocity@.update(
                old(self).num as int,
                final(state).soldier_parts.velocity@[old(self).num as int],
            ),
            final(state).soldier_parts.forces@ == old(state).soldier_parts.forces@.update(
                old(self).num as int,
                final(state).soldier_parts.forces@[old(self).num as int],
            ),
            final(state).soldier_parts.old_pos@ == old(state).soldier_parts.old_pos@,
            ({
                let num = old(self).num as int;
                let v1 = old(state).soldier_parts.velocity@[num];
                let hold = posed_legs_s(old(self).legs_animation.kind) && -SLIDELIMIT < v1.x
                    < SLIDELIMIT && step_y > SLIDELIMIT;
                let fr = ground_friction_s(
                    old(self).legs_animation.kind,
                    old(self).legs_animation.curr_frame as int,
                    old(self).control.down,
                    old(self).control.left,
                    old(self).control.right,
                    pt,
                    step_y as int,
                    v1.x as int,
                    v1.y as int,
                );
                &&& final(state).soldier_parts.pos@[num] == (if hold {
                    old(state).soldier_parts.old_pos@[num]
                } else {
                    old(state).soldier_parts.pos@[num]
                })
                &&& final(state).soldier_parts.velocity@[num].x as int == fr.0
                &&& final(state).soldier_parts.velocity@[num].y as int == fr.1
                &&& final(state).soldier_parts.forces@[num].x as int == old(state).soldier_parts.forces@[num].x + fr.2
                &&& final(state).soldier_parts.forces@[num].y as int == old(state).soldier_parts.forces@[num].y - (if hold {
                    GRAV as int
                } else {
                    0
                })
                &&& abs_s(final(state).soldier_parts.velocity@[num].x as int) <= abs_s(v1.x as int)
                &&& abs_s(final(state).soldier_parts.velocity@[num].y as int) <= abs_s(v1.y as int)
                &&& abs_s(final(state).soldier_parts.forces@[num].x as int) <= abs_s(
                    old(state).soldier_parts.forces@[num].x as int,
                ) + abs_s(v1.x as int)
            }),
    {
        let num = self.num;
        let v1 = state.soldier_parts.velocity[num];
        proof {
            reveal(ground_friction_s);
        }
        if posed_legs(self.legs_animation.kind) {
            if v1.x < SLIDELIMIT && v1.x > -SLIDELIMIT && step_y > SLIDELIMIT {
                let op = state.soldier_parts.old_pos[num];
                state.soldier_parts.pos.set(num, op);
                let f = state.soldier_parts.forces[num];
                state.soldier_parts.forces.set(num, Vec2 { x: f.x, y: f.y - GRAV });
            }
            if step_y > SLIDELIMIT && pt != PolyType::Ice && pt != PolyType::Bouncy {
                let lk = self.legs_animation.kind;
                if lk == AnimKind::Stand || lk == AnimKind::Fall || lk == AnimKind::Crouch {
                    self.decay_velocity(state, STANDSURFACECOEFX, STANDSURFACECOEFY, true);
                } else if lk == AnimKind::Prone {
                    if self.legs_animation.curr_frame > 24 {
                        if !(self.control.down && (self.control.left || self.control.right)) {
                            self.decay_velocity(state, STANDSURFACECOEFX, STANDSURFACECOEFY, true);
                        }
                    } else {
                        self.decay_velocity(state, SURFACECOEFX, SURFACECOEFY, false);
                    }
                } else if lk == AnimKind::GetUp {
                    self.decay_velocity(state, SURFACECOEFX, SURFACECOEFY, false);
                } else if lk == AnimKind::ProneMove {
                    self.decay_velocity(state, STANDSURFACECOEFX, STANDSURFACECOEFY, false);
                }
            }
        } else {
            let lk = self.legs_animation.kind;
            if lk == AnimKind::CrouchRun || lk == AnimKind::CrouchRunBack {
                self.decay_velocity(state, CROUCHMOVESURFACECOEFX, CROUCHMOVESURFACECOEFY, false);
            } else {
                self.decay_velocity(state, SURFACECOEFX, SURFACECOEFY, false);
            }
        }
        proof {
            let ni = old(self).num as int;
            assert(state.soldier_parts.pos@ =~= old(state).soldier_parts.pos@.update(
                ni,
                state.soldier_parts.pos@[ni],
            ));
            assert(state.soldier_parts.old_pos@ =~= old(state).soldier_parts.old_pos@);
            assert(state.soldier_parts.velocity@ =~= old(state).soldier_parts.velocity@.update(
                ni,
                state.soldier_parts.velocity@[ni],
            ));
            assert(state.soldier_parts.forces@ =~= old(state).soldier_parts.forces@.update(
                ni,
                state.soldier_parts.forces@[ni],
            ));
        }
    }

    /// Scale the soldier's velocity by per-axis surface coefficients;
    /// `brake` additionally subtracts the decayed lateral velocity from
    /// the accumulated horizontal force.
    fn decay_velocity(&mut self, state: &mut MainState, cx: i64, cy: i64, brake: bool)
        requires
            state_wf(*old(state)),
            old(self).num < old(state).soldier_parts.pos@.len(),
            0 <= cx <= FX_ONE,
            0 <= cy <= FX_ONE,
            abs_s(old(state).soldier_parts.velocity@[old(self).num as int].x as int)
                <= 0x80_0000_0000_0000,
            abs_s(old(state).soldier_parts.velocity@[old(self).num as int].y as int)
                <= 0x80_0000_0000_0000,
            abs_s(old(state).soldier_parts.forces@[old(self).num as int].x as int)
                <= 0x80_0000_0000_0000,
        ensures
            *final(self) == *old(self),
            state_wf(*final(state)),
            final(state).map == old(state).map,
            final(state).soldier_parts.pos@ == old(state).soldier_parts.pos@,
            final(state).soldier_parts.old_pos@ == old(state).soldier_parts.old_pos@,
            final(state).soldier_parts.velocity@ == old(state).soldier_parts.velocity@.update(
                old(self).num as int,
                final(state).soldier_parts.velocity@[old(self).num as int],
            ),
            final(state).soldier_parts.forces@ == old(state).soldier_parts.forces@.update(
                old(self).num as int,
                final(state).soldier_parts.forces@[old(self).num as int],
            ),
            final(state).soldier_parts.velocity@[old(self).num as int].x as int == fx_mul_s(
                old(state).soldier_parts.velocity@[old(self).num as int].x as int,
                cx as int,
            ),
            final(state).soldier_parts.velocity@[old(self).num as int].y as int == fx_mul_s(
                old(state).soldier_parts.velocity@[old(self).num as int].y as int,
                cy as int,
            ),
            brake ==> final(state).soldier_parts.forces@[old(self).num as int].x as int == old(state).soldier_parts.forces@[old(self).num as int].x - fx_mul_s(
                old(state).soldier_parts.velocity@[old(self).num as int].x as int,
                cx as int,
            ),
            !brake ==> final(state).soldier_parts.forces@[old(self).num as int] == old(state).soldier_parts.forces@[old(self).num as int],
            final(state).soldier_parts.forces@[old(self).num as int].y == old(state).soldier_parts.forces@[old(self).num as int].y,
            abs_s(final(state).soldier_parts.velocity@[old(self).num as int].x as int) <= abs_s(
                old(state).soldier_parts.velocity@[old(self).num as int].x as int,
            ),
            abs_s(final(state).soldier_parts.velocity@[old(self).num as int].y as int) <= abs_s(
                old(state).soldier_parts.velocity@[old(self).num as int].y as int,
            ),
    {
        let num = self.num;
        let v = state.soldier_parts.velocity[num];
        proof {
            lemma_fx_mul_abs(v.x as int, cx as int, 0x80_0000_0000_0000, FX_ONE as int);
            lemma_fx_mul_abs(v.y as int, cy as int, 0x80_0000_0000_0000, FX_ONE as int);
            lemma_fx_mul_abs(v.x as int, cx as int, abs_s(v.x as int), FX_ONE as int);
            lemma_fx_mul_abs(v.y as int, cy as int, abs_s(v.y as int), FX_ONE as int);
            assert((abs_s(v.x as int) * (FX_ONE as int)) / (FX_ONE as int) == abs_s(v.x as int))
                by (nonlinear_arith)
                requires
                    abs_s(v.x as int) >= 0,
                    FX_ONE == 10000i64,
            ;
            assert((abs_s(v.y as int) * (FX_ONE as int)) / (FX_ONE as int) == abs_s(v.y as int))
                by (nonlinear_arith)
                requires
                    abs_s(v.y as int) >= 0,
                    FX_ONE == 10000i64,
            ;
        }
        let nvx = fx_mul(v.x, cx);
        let nvy = fx_mul(v.y, cy);
        state.soldier_parts.velocity.set(num, Vec2 { x: nvx, y: nvy });
        if brake {
            let f = state.soldier_parts.forces[num];
            state.soldier_parts.forces.set(num, Vec2 { x: f.x - nvx, y: f.y });
        }
    }
}

/// Entry `j` of the probe's candidate list is a containing, collidable
/// polygon.
pub open spec fn area_hit_j_s(m: MapData, px: int, py: int, j: int) -> bool {
    let lst = sector_list_s(m, px, py);
    let w = lst[j] - 1;
    &&& collides_s(m.polygons@[w].polytype)
    &&& pip_s(px, py, m.polygons@[w])
}

/// The area probe at `(px, py)` touches some collidable polygon.
pub open spec fn area_hit_s(m: MapData, px: int, py: int) -> bool {
    exists|j: int| 0 <= j < sector_list_s(m, px, py).len() && area_hit_j_s(m, px, py, j)
}

/// A ground probe always responds; a wall probe only while rising or
/// moving laterally faster than the slide limit.
pub open spec fn area_applies_s(area: i32, vel: Vec2) -> bool {
    area == 0 || (area == 1 && (vel.y < 0 || vel.x > SLIDELIMIT || vel.x < -SLIDELIMIT))
}

/// The penetration vector subtracted from the position: the closest-edge
/// perpendicular normalized to the edge distance, clamped to the speed.
#[verifier::opaque]
pub open spec fn area_perp_s(p: Polygon, px: int, py: int, speed: int) -> (int, int) {
    let e = cp_edge_s(p, px, py);
    let d = pld_edge_s(p, e, px, py);
    let praw = perp_of_s(p, e);
    let n1 = vnorm_s(praw.x as int, praw.y as int);
    let p1x = fx_mul_s(n1.0, d);
    let p1y = fx_mul_s(n1.1, d);
    if vlen_s(p1x, p1y) > speed {
        let n2 = vnorm_s(p1x, p1y);
        (fx_mul_s(n2.0, speed), fx_mul_s(n2.1, speed))
    } else {
        (p1x, p1y)
    }
}

/// The vector subtracted from the velocity: the penetration vector, or on
/// a bouncy surface the reflection term — one plus the restitution factor
/// times the velocity's component along the penetration normal, so the
/// normal component of the velocity inverts and scales by the restitution.
#[verifier::opaque]
pub open spec fn area_vperp_s(p: Polygon, px: int, py: int, speed: int, vx: int, vy: int) -> (
    int,
    int,
) {
    let pa = area_perp_s(p, px, py, speed);
    if p.polytype == PolyType::Bouncy {
        let n3 = vnorm_s(pa.0, pa.1);
        let dot = fx_mul_s(vx, n3.0) + fx_mul_s(vy, n3.1);
        let s = fx_mul_s(FX_ONE + p.bounciness, dot);
        (fx_mul_s(n3.0, s), fx_mul_s(n3.1, s))
    } else {
        pa
    }
}

/// Ground friction: the velocity after a grounded area hit and the term
/// added to the horizontal force, selected by the legs animation.
#[verifier::opaque]
pub open spec fn ground_friction_s(
    legs: AnimKind,
    frame: int,
    c_down: bool,
    c_left: bool,
    c_right: bool,
    t: PolyType,
    step_y: int,
    vx: int,
    vy: int,
) -> (int, int, int) {
    if posed_legs_s(legs) {
        if step_y > SLIDELIMIT && t != PolyType::Ice && t != PolyType::Bouncy {
            if legs == AnimKind::Stand || legs == AnimKind::Fall || legs == AnimKind::Crouch {
                (
                    fx_mul_s(vx, STANDSURFACECOEFX as int),
                    fx_mul_s(vy, STANDSURFACECOEFY as int),
                    -fx_mul_s(vx, STANDSURFACECOEFX as int),
                )
            } else if legs == AnimKind::Prone {
                if frame > 24 {
                    if !(c_down && (c_left || c_right)) {
                        (
                            fx_mul_s(vx, STANDSURFACECOEFX as int),
                            fx_mul_s(vy, STANDSURFACECOEFY as int),
                            -fx_mul_s(vx, STANDSURFACECOEFX as int),
                        )
                    } else {
                        (vx, vy, 0)
                    }
                } else {
                    (fx_mul_s(vx, SURFACECOEFX as int), fx_mul_s(vy, SURFACECOEFY as int), 0)
                }
            } else if legs == AnimKind::GetUp {
                (fx_mul_s(vx, SURFACECOEFX as int), fx_mul_s(vy, SURFACECOEFY as int), 0)
            } else if legs == AnimKind::ProneMove {
                (fx_mul_s(vx, STANDSURFACECOEFX as int), fx_mul_s(vy, STANDSURFACECOEFY as int), 0)
            } else {
                (vx, vy, 0)
            }
        } else {
            (vx, vy, 0)
        }
    } else {
        if legs == AnimKind::CrouchRun || legs == AnimKind::CrouchRunBack {
            (
                fx_mul_s(vx, CROUCHMOVESURFACECOEFX as int),
                fx_mul_s(vy, CROUCHMOVESURFACECOEFY as int),
                0,
            )
        } else {
            (fx_mul_s(vx, SURFACECOEFX as int), fx_mul_s(vy, SURFACECOEFY as int), 0)
        }
    }
}

/// The response of the first containing, collidable candidate polygon
/// stands between `p0` and `p1`.
#[verifier::opaque]
pub open spec fn area_first_response_s(
    m: MapData,
    px: int,
    py: int,
    area: i32,
    legs: Animation,
    c: Control,
    num: int,
    p0: ParticleStore,
    p1: ParticleStore,
) -> bool {
    exists|j: int|
        {
            &&& 0 <= j < sector_list_s(m, px, py).len()
            &&& #[trigger] area_hit_j_s(m, px, py, j)
            &&& forall|i: int| 0 <= i < j ==> !area_hit_j_s(m, px, py, i)
            &&& area_response_rel(
                m,
                m.polygons@[sector_list_s(m, px, py)[j] - 1],
                px,
                py,
                area,
                legs,
                c,
                num,
                p0,
                p1,
            )
        }
}

/// `p1`'s entries for soldier `num` are `p0`'s after the full response to
/// an area hit of polygon `w` at probe `(px, py)`: teleport off a deadly
/// surface, penetration undone with restitution, ground contact held on a
/// steep slope, and animation-dependent friction.
#[verifier::opaque]
pub open spec fn area_response_rel(
    m: MapData,
    poly: Polygon,
    px: int,
    py: int,
    area: i32,
    legs: Animation,
    c: Control,
    num: int,
    p0: ParticleStore,
    p1: ParticleStore,
) -> bool {
    let pos0 = p0.pos@[num];
    let old0 = p0.old_pos@[num];
    let vel0 = p0.velocity@[num];
    let f0 = p0.forces@[num];
    let speed = vlen_s(vel0.x as int, vel0.y as int);
    let pa = area_perp_s(poly, px, py, speed);
    let pv = area_vperp_s(poly, px, py, speed, vel0.x as int, vel0.y as int);
    let applies = area_applies_s(area, vel0);
    let sp = m.spawnpoints@[0];
    let pos1x = if deadly_s(poly.polytype) {
        sp.x as int
    } else {
        pos0.x as int
    };
    let pos1y = if deadly_s(poly.polytype) {
        sp.y as int
    } else {
        pos0.y as int
    };
    let old1x = if applies {
        pos1x
    } else {
        old0.x as int
    };
    let old1y = if applies {
        pos1y
    } else {
        old0.y as int
    };
    let pos2x = if applies {
        pos1x - pa.0
    } else {
        pos1x
    };
    let pos2y = if applies {
        pos1y - pa.1
    } else {
        pos1y
    };
    let v1x = if applies {
        vel0.x - pv.0
    } else {
        vel0.x as int
    };
    let v1y = if applies {
        vel0.y - pv.1
    } else {
        vel0.y as int
    };
    let stepy = perp_of_s(poly, cp_edge_s(poly, px, py)).y as int;
    let hold = area == 0 && posed_legs_s(legs.kind) && -SLIDELIMIT < v1x < SLIDELIMIT && stepy
        > SLIDELIMIT;
    let pos3x = if hold {
        old1x
    } else {
        pos2x
    };
    let pos3y = if hold {
        old1y
    } else {
        pos2y
    };
    let fy1 = if hold {
        f0.y - GRAV
    } else {
        f0.y as int
    };
    let fr = if area == 0 {
        ground_friction_s(
            legs.kind,
            legs.curr_frame as int,
            c.down,
            c.left,
            c.right,
            poly.polytype,
            stepy,
            v1x,
            v1y,
        )
    } else {
        (v1x, v1y, 0)
    };
    &&& p1.pos@[num].x as int == pos3x
    &&& p1.pos@[num].y as int == pos3y
    &&& p1.old_pos@[num].x as int == old1x
    &&& p1.old_pos@[num].y as int == old1y
    &&& p1.velocity@[num].x as int == fr.0
    &&& p1.velocity@[num].y as int == fr.1
    &&& p1.forces@[num].x as int == f0.x + fr.2
    &&& p1.forces@[num].y as int == fy1
}

/// Vertex `i` of a polygon (0-2).
pub open spec fn vert_of_s(p: Polygon, i: int) -> Vec2 {
    if i == 0 {
        p.v0
    } else if i == 1 {
        p.v1
    } else {
        p.v2
    }
}

/// Vertex `i` of candidate `j` lies within `rr` of the probe, and the
/// polygon is collidable.
pub open spec fn vert_hit_s(m: MapData, px: int, py: int, rr: int, j: int, i: int) -> bool {
    let w = sector_list_s(m, px, py)[j] - 1;
    let p = m.polygons@[w];
    &&& collides_s(p.polytype)
    &&& vlen_s(vert_of_s(p, i).x - px, vert_of_s(p, i).y - py) < rr
}

/// Some candidate polygon has a vertex within `rr` of the probe.
pub open spec fn vert_any_hit_s(m: MapData, px: int, py: int, rr: int) -> bool {
    exists|j: int, i: int|
        0 <= j < sector_list_s(m, px, py).len() && 0 <= i < 3 && #[trigger] vert_hit_s(
            m,
            px,
            py,
            rr,
            j,
            i,
        )
}

/// The response to the first vertex hit in candidate order: off a deadly
/// polygon (unless contact was already established) the soldier first
/// returns to the spawn point, then moves one unit away from the vertex.
#[verifier::opaque]
pub open spec fn vert_first_response_s(
    m: MapData,
    px: int,
    py: int,
    rr: int,
    has_collided: bool,
    num: int,
    p0: ParticleStore,
    p1: ParticleStore,
) -> bool {
    exists|j: int, i: int|
        {
            let w = sector_list_s(m, px, py)[j] - 1;
            let p = m.polygons@[w];
            let v = vert_of_s(p, i);
            let dir = vnorm_s(px - v.x, py - v.y);
            let base = if !has_collided && deadly_s(p.polytype) {
                m.spawnpoints@[0]
            } else {
                p0.pos@[num]
            };
            &&& 0 <= j < sector_list_s(m, px, py).len()
            &&& 0 <= i < 3
            &&& #[trigger] vert_hit_s(m, px, py, rr, j, i)
            &&& forall|j2: int, i2: int|
                0 <= j2 < j && 0 <= i2 < 3 ==> !vert_hit_s(m, px, py, rr, j2, i2)
            &&& forall|i2: int| 0 <= i2 < i ==> !vert_hit_s(m, px, py, rr, j, i2)
            &&& p1.pos@[num].x as int == base.x + dir.0
            &&& p1.pos@[num].y as int == base.y + dir.1
        }
}

/// Candidate `j` of the probe contains it, by the edge-perpendicular test
/// (the skeleton probe ignores surface types).
pub open spec fn skel_hit_s(m: MapData, px: int, py: int, j: int) -> bool {
    let w = sector_list_s(m, px, py)[j] - 1;
    pipe_s(px, py, m.polygons@[w])
}

pub open spec fn skel_any_hit_s(m: MapData, px: int, py: int) -> bool {
    exists|j: int| 0 <= j < sector_list_s(m, px, py).len() && #[trigger] skel_hit_s(m, px, py, j)
}

/// The joint position written by the last containing candidate (below
/// `upto`) of one skeleton probe: the joint's previous position pushed
/// back along the nearest edge's normalized perpendicular.
pub open spec fn skel_probe_result_s(
    m: MapData,
    px: int,
    py: int,
    upto: int,
    old_joint: Vec2,
    new_joint: Vec2,
) -> bool {
    exists|j: int|
        {
            let w = sector_list_s(m, px, py)[j] - 1;
            let p = m.polygons@[w];
            let e = cp_edge_s(p, px, py);
            let d = pld_edge_s(p, e, px, py);
            let praw = perp_of_s(p, e);
            let n = vnorm_s(praw.x as int, praw.y as int);
            &&& 0 <= j < upto
            &&& j < sector_list_s(m, px, py).len()
            &&& #[trigger] skel_hit_s(m, px, py, j)
            &&& forall|j2: int| j < j2 < upto ==> !skel_hit_s(m, px, py, j2)
            &&& new_joint.x as int == old_joint.x - fx_mul_s(n.0, d)
            &&& new_joint.y as int == old_joint.y - fx_mul_s(n.1, d)
        }
}

impl Soldier {
    /// Vertex probe: respond when the probe point (advanced by the current
    /// velocity) comes within `rr` of a corner of a collidable candidate
    /// polygon — the corner case polygon containment misses.
    pub fn check_map_vertices_collision(
        &mut self,
        state: &mut MainState,
        x: i64,
        y: i64,
        rr: i64,
        has_collided: bool,
    ) -> (r: bool)
        requires
            state_wf(*old(state)),
            old(self).num < old(state).soldier_parts.pos@.len(),
            parts_in_s(old(state).soldier_parts, old(self).num as int, 0x100_0000_0000_0000),
            abs_s(x as int) <= 0x20_0000_0000_0000,
            abs_s(y as int) <= 0x20_0000_0000_0000,
            0 <= rr <= FX_LIM,
        ensures
            *final(self) == *old(self),
            state_wf(*final(state)),
            final(state).map == old(state).map,
            final(state).soldier_parts.pos@.len() == old(state).soldier_parts.pos@.len(),
            final(state).soldier_parts.pos@ == old(state).soldier_parts.pos@.update(
                old(self).num as int,
                final(state).soldier_parts.pos@[old(self).num as int],
            ),
            final(state).soldier_parts.old_pos@ == old(state).soldier_parts.old_pos@,
            final(state).soldier_parts.velocity@ == old(state).soldier_parts.velocity@,
            final(state).soldier_parts.forces@ == old(state).soldier_parts.forces@,
            r == vert_any_hit_s(
                old(state).map,
                x + old(state).soldier_parts.velocity@[old(self).num as int].x,
                y + old(state).soldier_parts.velocity@[old(self).num as int].y,
                rr as int,
            ),
            !r ==> final(state).soldier_parts == old(state).soldier_parts,
            r ==> vert_first_response_s(
                old(state).map,
                x + old(state).soldier_parts.velocity@[old(self).num as int].x,
                y + old(state).soldier_parts.velocity@[old(self).num as int].y,
                rr as int,
                has_collided,
                old(self).num as int,
                old(state).soldier_parts,
                final(state).soldier_parts,
            ),
            parts_in_s(
                final(state).soldier_parts,
                old(self).num as int,
                0x400_0000_0000_0000int,
            ),

    {
        let num = self.num;
        let vel = state.soldier_parts.velocity[num];
        let px = x + vel.x;
        let py = y + vel.y;
        let ghost m0 = state.map;
        let ghost p0 = state.soldier_parts;
        let ghost gpx = px as int;
        let ghost gpy = py as int;
        let cands = state.map.candidates(px, py);
        let mut ji: usize = 0;
        while ji < cands.len()
            invariant
                state_wf(*state),
                *self == *old(self),
                num == old(self).num,
                state.map == m0,
                m0 == old(state).map,
                state.soldier_parts == p0,
                p0 == old(state).soldier_parts,
                map_b(m0),
                num < p0.pos@.len(),
                parts_in_s(p0, num as int, 0x100_0000_0000_0000),
                cands@ == sector_list_s(m0, gpx, gpy),
                forall|t: int|
                    0 <= t < cands@.len() ==> 1 <= (#[trigger] cands@[t]) as int && cands@[t] - 1
                        < m0.polygons@.len(),
                forall|j2: int, i2: int|
                    0 <= j2 < ji && 0 <= i2 < 3 ==> !vert_hit_s(m0, gpx, gpy, rr as int, j2, i2),
                gpx == px as int,
                gpy == py as int,
                probe_b(gpx),
                probe_b(gpy),
                gpx == x as int + p0.velocity@[num as int].x as int,
                gpy == y as int + p0.velocity@[num as int].y as int,
                abs_s(gpx) <= 0x140_0000_0000_0000,
                abs_s(gpy) <= 0x140_0000_0000_0000,
                0 <= rr <= FX_LIM,
            decreases cands@.len() - ji,
        {
            let wi = cands[ji];
            let w = (wi - 1) as usize;
            let poly = state.map.polygons[w];
            let pt = poly.polytype;
            if collides(pt) {
                let mut hit_i: usize = 3;
                let d0 = vec2distance(poly.v0, Vec2 { x: px, y: py });
                if d0 < rr {
                    hit_i = 0;
                } else {
                    let d1 = vec2distance(poly.v1, Vec2 { x: px, y: py });
                    if d1 < rr {
                        hit_i = 1;
                    } else {
                        let d2 = vec2distance(poly.v2, Vec2 { x: px, y: py });
                        if d2 < rr {
                            hit_i = 2;
                        }
                    }
                }
                if hit_i < 3 {
                    proof {
                        assert(vert_hit_s(m0, gpx, gpy, rr as int, ji as int, hit_i as int));
                        assert(vert_any_hit_s(m0, gpx, gpy, rr as int));
                    }
                    if !has_collided {
                        self.handle_special_polytypes(state, pt, Vec2 { x: px, y: py });
                    }
                    let vert = if hit_i == 0 {
                        poly.v0
                    } else if hit_i == 1 {
                        poly.v1
                    } else {
                        poly.v2
                    };
                    let dir = vec2normalize(Vec2 { x: px - vert.x, y: py - vert.y });
                    let cur = state.soldier_parts.pos[num];
                    state.soldier_parts.pos.set(
                        num,
                        Vec2 { x: cur.x + dir.x, y: cur.y + dir.y },
                    );
                    proof {
                        let ni = old(self).num as int;
                        assert(state.soldier_parts.pos@ =~= old(state).soldier_parts.pos@.update(ni, state.soldier_parts.pos@[ni]));
                        reveal(vert_first_response_s);
                        assert(vert_first_response_s(
                            m0,
                            gpx,
                            gpy,
                            rr as int,
                            has_collided,
                            ni,
                            p0,
                            state.soldier_parts,
                        ));
                    }
                    return true;
                }
                proof {
                    assert(forall|i2: int|
                        0 <= i2 < 3 ==> !vert_hit_s(m0, gpx, gpy, rr as int, ji as int, i2));
                }
            } else {
                proof {
                    assert(forall|i2: int|
                        0 <= i2 < 3 ==> !vert_hit_s(m0, gpx, gpy, rr as int, ji as int, i2));
                }
            }
            ji = ji + 1;
        }
        proof {
            assert(!vert_any_hit_s(m0, gpx, gpy, rr as int));
            let ni = old(self).num as int;
            assert(state.soldier_parts.pos@ =~= old(state).soldier_parts.pos@.update(
                ni,
                state.soldier_parts.pos@[ni],
            ));
        }
        false
    }

    /// Skeleton probe: push one ragdoll joint out of any containing
    /// polygon, at an offset below-left of the probe point and again
    /// below-right of it; the result reports whether either probe hit.
    /// The map alone is read; only the probed joint moves.
    pub fn check_skeleton_map_collision(&mut self, state: &MainState, i: usize, x: i64, y: i64)
        -> (r: bool)
        requires
            state_wf(*state),
            soldier_wf(*old(self)),
            i < NUM_JOINTS,
            sk_in(old(self).skeleton, 24 * (SK_LIM as int)),
            abs_s(old(self).skeleton.old_pos@[i as int].x as int) <= SK_LIM as int,
            abs_s(old(self).skeleton.old_pos@[i as int].y as int) <= SK_LIM as int,
            abs_s(x as int) <= 0x10_0000_0000_0000,
            abs_s(y as int) <= 0x10_0000_0000_0000,
        ensures
            soldier_wf(*final(self)),
            *final(self) == (Soldier { skeleton: final(self).skeleton, ..*old(self) }),
            final(self).skeleton.old_pos == old(self).skeleton.old_pos,
            final(self).skeleton.active == old(self).skeleton.active,
            final(self).skeleton.gravity == old(self).skeleton.gravity,
            final(self).skeleton.v_damping == old(self).skeleton.v_damping,
            final(self).skeleton.pos@ == old(self).skeleton.pos@.update(
                i as int,
                final(self).skeleton.pos@[i as int],
            ),
            r == (skel_any_hit_s(state.map, x - FX_ONE, y + 4 * FX_ONE) || skel_any_hit_s(
                state.map,
                x as int,
                y + FX_ONE,
            )),
            !r ==> *final(self) == *old(self),
            skel_any_hit_s(state.map, x as int, y + FX_ONE) ==> skel_probe_result_s(
                state.map,
                x as int,
                y + FX_ONE,
                sector_list_s(state.map, x as int, y + FX_ONE).len() as int,
                old(self).skeleton.old_pos@[i as int],
                final(self).skeleton.pos@[i as int],
            ),
            !skel_any_hit_s(state.map, x as int, y + FX_ONE) && skel_any_hit_s(
                state.map,
                x - FX_ONE,
                y + 4 * FX_ONE,
            ) ==> skel_probe_result_s(
                state.map,
                x - FX_ONE,
                y + 4 * FX_ONE,
                sector_list_s(state.map, x - FX_ONE, y + 4 * FX_ONE).len() as int,
                old(self).skeleton.old_pos@[i as int],
                final(self).skeleton.pos@[i as int],
            ),
            sk_in(final(self).skeleton, 24 * (SK_LIM as int)),
            final(self).skeleton.pos@[i as int] == old(self).skeleton.pos@[i as int] || (abs_s(
                final(self).skeleton.pos@[i as int].x as int,
            ) <= abs_s(old(self).skeleton.old_pos@[i as int].x as int) + dist_lim(
                x as int - FX_ONE as int,
                y as int + 4 * (FX_ONE as int),
            ) + dist_lim(x as int, y as int + FX_ONE as int) && abs_s(
                final(self).skeleton.pos@[i as int].y as int,
            ) <= abs_s(old(self).skeleton.old_pos@[i as int].y as int) + dist_lim(
                x as int - FX_ONE as int,
                y as int + 4 * (FX_ONE as int),
            ) + dist_lim(x as int, y as int + FX_ONE as int)),
    {
        let r1 = self.skel_probe(state, i, x - FX_ONE, y + 4 * FX_ONE);
        let r2 = self.skel_probe(state, i, x, y + FX_ONE);
        proof {
            assert(final(self).skeleton.pos@ == old(self).skeleton.pos@.update(
                i as int,
                final(self).skeleton.pos@[i as int],
            )) by {
                assert(self.skeleton.pos@ =~= old(self).skeleton.pos@.update(
                    i as int,
                    self.skeleton.pos@[i as int],
                ));
            }
        }
        r1 || r2
    }

    /// One pass of the skeleton probe: every containing candidate in turn
    /// rewrites the joint from its previous position, so the last one wins.
    fn skel_probe(&mut self, state: &MainState, i: usize, px: i64, py: i64) -> (r: bool)
        requires
            state_wf(*state),
            soldier_wf(*old(self)),
            i < NUM_JOINTS,
            sk_in(old(self).skeleton, 24 * (SK_LIM as int)),
            abs_s(old(self).skeleton.old_pos@[i as int].x as int) <= SK_LIM as int,
            abs_s(old(self).skeleton.old_pos@[i as int].y as int) <= SK_LIM as int,
            abs_s(px as int) <= 0x11_0000_0000_0000,
            abs_s(py as int) <= 0x11_0000_0000_0000,
        ensures
            soldier_wf(*final(self)),
            *final(self) == (Soldier { skeleton: final(self).skeleton, ..*old(self) }),
            final(self).skeleton.old_pos == old(self).skeleton.old_pos,
            final(self).skeleton.active == old(self).skeleton.active,
            final(self).skeleton.gravity == old(self).skeleton.gravity,
            final(self).skeleton.v_damping == old(self).skeleton.v_damping,
            final(self).skeleton.pos@ == old(self).skeleton.pos@.update(
                i as int,
                final(self).skeleton.pos@[i as int],
            ),
            r == skel_any_hit_s(state.map, px as int, py as int),
            !r ==> *final(self) == *old(self),
            r ==> skel_probe_result_s(
                state.map,
                px as int,
                py as int,
                sector_list_s(state.map, px as int, py as int).len() as int,
                old(self).skeleton.old_pos@[i as int],
                final(self).skeleton.pos@[i as int],
            ),
            sk_in(final(self).skeleton, 24 * (SK_LIM as int)),
            final(self).skeleton.pos@[i as int] == old(self).skeleton.pos@[i as int] || (abs_s(
                final(self).skeleton.pos@[i as int].x as int,
            ) <= abs_s(old(self).skeleton.old_pos@[i as int].x as int) + dist_lim(
                px as int,
                py as int,
            ) && abs_s(final(self).skeleton.pos@[i as int].y as int) <= abs_s(
                old(self).skeleton.old_pos@[i as int].y as int,
            ) + dist_lim(px as int, py as int)),
    {
        let ghost m0 = state.map;
        let ghost gpx = px as int;
        let ghost gpy = py as int;
        let cands = state.map.candidates(px, py);
        let mut result = false;
        let mut ji: usize = 0;
        while ji < cands.len()
            invariant
                state_wf(*state),
                soldier_wf(*self),
                soldier_wf(*old(self)),
                m0 == state.map,
                map_b(m0),
                i < NUM_JOINTS,
                *self == (Soldier { skeleton: self.skeleton, ..*old(self) }),
                self.skeleton.old_pos == old(self).skeleton.old_pos,
                self.skeleton.active == old(self).skeleton.active,
                self.skeleton.gravity == old(self).skeleton.gravity,
                self.skeleton.v_damping == old(self).skeleton.v_damping,
                self.skeleton.pos@ == old(self).skeleton.pos@.update(
                    i as int,
                    self.skeleton.pos@[i as int],
                ),
                sk_in(old(self).skeleton, 24 * (SK_LIM as int)),
                sk_in(self.skeleton, 24 * (SK_LIM as int)),
                abs_s(old(self).skeleton.old_pos@[i as int].x as int) <= SK_LIM as int,
                abs_s(old(self).skeleton.old_pos@[i as int].y as int) <= SK_LIM as int,
                cands@ == sector_list_s(m0, gpx, gpy),
                forall|t: int|
                    0 <= t < cands@.len() ==> 1 <= (#[trigger] cands@[t]) as int && cands@[t] - 1
                        < m0.polygons@.len(),
                gpx == px as int,
                gpy == py as int,
                abs_s(gpx) <= 0x11_0000_0000_0000,
                abs_s(gpy) <= 0x11_0000_0000_0000,
                probe_b(gpx),
                probe_b(gpy),
                result == exists|j2: int| 0 <= j2 < ji && #[trigger] skel_hit_s(m0, gpx, gpy, j2),
                result ==> skel_probe_result_s(
                    m0,
                    gpx,
                    gpy,
                    ji as int,
                    old(self).skeleton.old_pos@[i as int],
                    self.skeleton.pos@[i as int],
                ),
                !result ==> *self == *old(self),
                self.skeleton.pos@[i as int] == old(self).skeleton.pos@[i as int] || (abs_s(
                    self.skeleton.pos@[i as int].x as int,
                ) <= abs_s(old(self).skeleton.old_pos@[i as int].x as int) + dist_lim(gpx, gpy)
                    && abs_s(self.skeleton.pos@[i as int].y as int) <= abs_s(
                    old(self).skeleton.old_pos@[i as int].y as int,
                ) + dist_lim(gpx, gpy)),
            decreases cands@.len() - ji,
        {
            let wi = cands[ji];
            let w = (wi - 1) as usize;
            let poly = state.map.polygons[w];
            if point_in_poly_edges(px, py, &poly) {
                let mut d: i64 = 0;
                let mut k: u8 = 0;
                let perp_raw = closest_perpendicular(&poly, Vec2 { x: px, y: py }, &mut d, &mut k);
                let n = vec2normalize(perp_raw);
                proof {
                    lemma_fx_mul_abs(n.x as int, d as int, FX_ONE as int, 0x80_0000_0000_0000);
                    lemma_fx_mul_abs(n.y as int, d as int, FX_ONE as int, 0x80_0000_0000_0000);
                    lemma_fx_mul_abs(n.x as int, d as int, FX_ONE as int, d as int);
                    lemma_fx_mul_abs(n.y as int, d as int, FX_ONE as int, d as int);
                    assert(((FX_ONE as int) * (d as int)) / (FX_ONE as int) == d as int)
                        by (nonlinear_arith)
                        requires
                            d >= 0,
                            FX_ONE == 10000i64,
                    ;
                }
                let mx = fx_mul(n.x, d);
                let my = fx_mul(n.y, d);
                let op = self.skeleton.old_pos[i];
                self.skeleton.pos.set(i, Vec2 { x: op.x - mx, y: op.y - my });
                result = true;
                proof {
                    assert(skel_hit_s(m0, gpx, gpy, ji as int));
                    assert(self.skeleton.pos@ =~= old(self).skeleton.pos@.update(
                        i as int,
                        self.skeleton.pos@[i as int],
                    ));
                    assert(skel_probe_result_s(
                        m0,
                        gpx,
                        gpy,
                        ji as int + 1,
                        old(self).skeleton.old_pos@[i as int],
                        self.skeleton.pos@[i as int],
                    ));
                    assert forall|t: int|
                        0 <= t < NUM_JOINTS implies abs_s(
                        (#[trigger] self.skeleton.pos@[t]).x as int,
                    ) <= 24 * (SK_LIM as int) && abs_s(self.skeleton.pos@[t].y as int) <= 24 * (
                    SK_LIM as int) && abs_s(self.skeleton.old_pos@[t].x as int) <= 24 * (
                    SK_LIM as int) && abs_s(self.skeleton.old_pos@[t].y as int) <= 24 * (
                    SK_LIM as int) by {
                        assert(abs_s((old(self).skeleton.pos@[t]).x as int) <= 24 * (
                        SK_LIM as int));
                        if t != i as int {
                            assert(self.skeleton.pos@[t] == old(self).skeleton.pos@[t]);
                        }
                    }
                    assert(sk_in(self.skeleton, 24 * (SK_LIM as int)));
                }
            } else {
                proof {
                    assert(!skel_hit_s(m0, gpx, gpy, ji as int));
                }
            }
            ji = ji + 1;
        }
        result
    }
}

/// Substep count of the radius sweep: the speed in whole world units,
/// floored to at least one.
pub open spec fn sweep_da_s(vel: Vec2) -> int {
    let t = tdiv(vlen_s(vel.x as int, vel.y as int), FX_ONE as int);
    if t == 0 {
        1
    } else {
        t
    }
}

pub open spec fn sweep_step_x_s(vel: Vec2) -> int {
    tdiv(vel.x as int, sweep_da_s(vel))
}

pub open spec fn sweep_step_y_s(vel: Vec2) -> int {
    tdiv(vel.y as int, sweep_da_s(vel))
}

/// Sample point of substep `z`: the start point, dropped three units,
/// advanced `z + 1` steps along the velocity.
pub open spec fn sweep_pos_x_s(x: int, vel: Vec2, z: int) -> int {
    x + (z + 1) * sweep_step_x_s(vel)
}

pub open spec fn sweep_pos_y_s(y: int, vel: Vec2, z: int) -> int {
    y - 3 * (FX_ONE as int) + (z + 1) * sweep_step_y_s(vel)
}

/// Probe `k` of a sample point: offset inward by the collider radius
/// along edge perpendicular `k` of the candidate polygon.
pub open spec fn sweep_probe_s(p: Polygon, sx: int, sy: int, k: int) -> (int, int) {
    let perp = if k == 0 {
        p.perp0
    } else {
        p.perp1
    };
    (
        sx + fx_mul_s(perp.x as int, -(SOLDIER_COL_RADIUS as int)),
        sy + fx_mul_s(perp.y as int, -(SOLDIER_COL_RADIUS as int)),
    )
}

/// Probe `k` of candidate `j` at sample point `(sx, sy)` lands inside a
/// collidable polygon.
pub open spec fn cell_hit_s(m: MapData, sx: int, sy: int, j: int, k: int) -> bool {
    let lst = sector_list_s(m, sx, sy);
    &&& 0 <= j < lst.len()
    &&& collides_s(m.polygons@[lst[j] - 1].polytype)
    &&& pipe_s(
        sweep_probe_s(m.polygons@[lst[j] - 1], sx, sy, k).0,
        sweep_probe_s(m.polygons@[lst[j] - 1], sx, sy, k).1,
        m.polygons@[lst[j] - 1],
    )
}

pub open spec fn cell_any_hit_s(m: MapData, sx: int, sy: int) -> bool {
    exists|j: int, k: int| 0 <= k < 2 && #[trigger] cell_hit_s(m, sx, sy, j, k)
}

/// The response written by the first hitting probe of one sample point.
#[verifier::opaque]
pub open spec fn cell_response_s(
    m: MapData,
    sx: int,
    sy: int,
    num: int,
    p0: ParticleStore,
    p1: ParticleStore,
) -> bool {
    exists|j: int, k: int|
        {
            let lst = sector_list_s(m, sx, sy);
            let p = m.polygons@[lst[j] - 1];
            let pr = sweep_probe_s(p, sx, sy, k);
            let e = cp_edge_s(p, pr.0, pr.1);
            let praw = perp_of_s(p, e);
            let dl = pld_edge_s(p, e, pr.0, pr.1);
            &&& 0 <= k < 2
            &&& #[trigger] cell_hit_s(m, sx, sy, j, k)
            &&& forall|j2: int, k2: int| 0 <= j2 < j && 0 <= k2 < 2 ==> !cell_hit_s(m, sx, sy, j2, k2)
            &&& (k == 1 ==> !cell_hit_s(m, sx, sy, j, 0))
            &&& p1.pos@[num] == p0.old_pos@[num]
            &&& p1.velocity@[num].x as int == p0.forces@[num].x - fx_mul_s(praw.x as int, dl)
            &&& p1.velocity@[num].y as int == p0.forces@[num].y - fx_mul_s(praw.y as int, dl)
        }
}

/// Some substep of the sweep hits some collidable candidate.
pub open spec fn sweep_any_hit_s(m: MapData, x: int, y: int, vel: Vec2) -> bool {
    exists|z: int|
        0 <= z < sweep_da_s(vel) && #[trigger] cell_any_hit_s(
            m,
            sweep_pos_x_s(x, vel, z),
            sweep_pos_y_s(y, vel, z),
        )
}

/// The response of the first hitting substep of the sweep.
#[verifier::opaque]
pub open spec fn sweep_response_s(
    m: MapData,
    x: int,
    y: int,
    vel: Vec2,
    num: int,
    p0: ParticleStore,
    p1: ParticleStore,
) -> bool {
    exists|z: int|
        {
            &&& 0 <= z < sweep_da_s(vel)
            &&& #[trigger] cell_any_hit_s(m, sweep_pos_x_s(x, vel, z), sweep_pos_y_s(y, vel, z))
            &&& forall|z2: int|
                0 <= z2 < z ==> !cell_any_hit_s(
                    m,
                    sweep_pos_x_s(x, vel, z2),
                    sweep_pos_y_s(y, vel, z2),
                )
            &&& cell_response_s(m, sweep_pos_x_s(x, vel, z), sweep_pos_y_s(y, vel, z), num, p0, p1)
        }
}

/// `z * tdiv(a, da)` never reaches past `a` for `z` within the substep
/// count.
proof fn lemma_step_reach(a: int, da: int, z: int)
    requires
        da >= 1,
        0 <= z <= da,
    ensures
        abs_s(z * tdiv(a, da)) <= abs_s(a),
{
    let q = abs_s(a) / da;
    assert(abs_s(tdiv(a, da)) == q) by (nonlinear_arith)
        requires
            da >= 1,
            q == abs_s(a) / da,
    ;
    assert(abs_s(z * tdiv(a, da)) == z * abs_s(tdiv(a, da))) by (nonlinear_arith)
        requires
            z >= 0,
    ;
    assert(z * q <= da * q) by (nonlinear_arith)
        requires
            0 <= z <= da,
            q >= 0,
    ;
    crate::fx::lemma_div_mul_le(abs_s(a), da);
    assert(da * q <= abs_s(a)) by (nonlinear_arith)
        requires
            (abs_s(a) / da) * da <= abs_s(a),
            q == abs_s(a) / da,
    ;
}

impl Soldier {
    /// The response to one sweep hit: revert to the previous tick's
    /// position and rebuild the velocity from the accumulated force minus
    /// the nearest edge's stored perpendicular scaled by its distance.
    #[verifier::rlimit(100)]
    #[verifier::spinoff_prover]
    fn sweep_respond(
        &mut self,
        state: &mut MainState,
        poly: Polygon,
        qx: i64,
        qy: i64,
        has_collided: bool,
    )
        requires
            state_wf(*old(state)),
            old(self).num < old(state).soldier_parts.pos@.len(),
            parts_in_s(old(state).soldier_parts, old(self).num as int, 0x10_0000_0000_0000),
            abs_s(qx as int) <= 0x32_0000_0000_0000,
            abs_s(qy as int) <= 0x32_0000_0000_0000,
            poly_b(poly),
            collides_s(poly.polytype),
        ensures
            *final(self) == *old(self),
            state_wf(*final(state)),
            final(state).map == old(state).map,
            final(state).soldier_parts.pos@.len() == old(state).soldier_parts.pos@.len(),
            final(state).soldier_parts.pos@ == old(state).soldier_parts.pos@.update(
                old(self).num as int,
                final(state).soldier_parts.pos@[old(self).num as int],
            ),
            final(state).soldier_parts.velocity@ == old(state).soldier_parts.velocity@.update(
                old(self).num as int,
                final(state).soldier_parts.velocity@[old(self).num as int],
            ),
            final(state).soldier_parts.old_pos@ == old(state).soldier_parts.old_pos@,
            final(state).soldier_parts.forces@ == old(state).soldier_parts.forces@,
            ({
                let num = old(self).num as int;
                let p0 = old(state).soldier_parts;
                let p1 = final(state).soldier_parts;
                let e = cp_edge_s(poly, qx as int, qy as int);
                let praw = perp_of_s(poly, e);
                let dl = pld_edge_s(poly, e, qx as int, qy as int);
                &&& p1.pos@[num] == p0.old_pos@[num]
                &&& p1.velocity@[num].x as int == p0.forces@[num].x - fx_mul_s(praw.x as int, dl)
                &&& p1.velocity@[num].y as int == p0.forces@[num].y - fx_mul_s(praw.y as int, dl)
                &&& abs_s(p1.velocity@[num].x as int) <= abs_s(p0.forces@[num].x as int) + 2
                    * dist_lim(qx as int, qy as int)
                &&& abs_s(p1.velocity@[num].y as int) <= abs_s(p0.forces@[num].y as int) + 2
                    * dist_lim(qx as int, qy as int)
            }),
    {
        let num = self.num;
        let pt = poly.polytype;
        if !has_collided {
            self.handle_special_polytypes(state, pt, Vec2 { x: qx, y: qy });
        }
        let mut d: i64 = 0;
        let mut kk: u8 = 0;
        let perp = closest_perpendicular(&poly, Vec2 { x: qx, y: qy }, &mut d, &mut kk);
        proof {
            lemma_fx_mul_abs(perp.x as int, d as int, 2 * (FX_ONE as int), 0x100_0000_0000_0000);
            lemma_fx_mul_abs(perp.y as int, d as int, 2 * (FX_ONE as int), 0x100_0000_0000_0000);
            lemma_fx_mul_abs(perp.x as int, d as int, 2 * (FX_ONE as int), d as int);
            lemma_fx_mul_abs(perp.y as int, d as int, 2 * (FX_ONE as int), d as int);
            assert((2 * (FX_ONE as int) * (d as int)) / (FX_ONE as int) == 2 * (d as int))
                by (nonlinear_arith)
                requires
                    d >= 0,
                    FX_ONE == 10000i64,
            ;
        }
        let mx = fx_mul(perp.x, d);
        let my = fx_mul(perp.y, d);
        let op = state.soldier_parts.old_pos[num];
        state.soldier_parts.pos.set(num, op);
        let f = state.soldier_parts.forces[num];
        state.soldier_parts.velocity.set(num, Vec2 { x: f.x - mx, y: f.y - my });
        proof {
            let ni = old(self).num as int;
            assert(state.soldier_parts.pos@ =~= old(state).soldier_parts.pos@.update(
                ni,
                state.soldier_parts.pos@[ni],
            ));
            assert(state.soldier_parts.velocity@ =~= old(state).soldier_parts.velocity@.update(
                ni,
                state.soldier_parts.velocity@[ni],
            ));
        }
    }

    /// One sample point of the sweep: test both collider-radius probes of
    /// every collidable candidate, responding to the first that lands
    /// inside its polygon.
    #[verifier::rlimit(100)]
    #[verifier::spinoff_prover]
    fn sweep_cell(&mut self, state: &mut MainState, sx: i64, sy: i64, has_collided: bool) -> (r:
        bool)
        requires
            state_wf(*old(state)),
            old(self).num < old(state).soldier_parts.pos@.len(),
            parts_in_s(old(state).soldier_parts, old(self).num as int, 0x10_0000_0000_0000),
            abs_s(sx as int) <= 0x31_0000_0000_0000,
            abs_s(sy as int) <= 0x31_0000_0000_0000,
        ensures
            *final(self) == *old(self),
            state_wf(*final(state)),
            final(state).map == old(state).map,
            final(state).soldier_parts.pos@.len() == old(state).soldier_parts.pos@.len(),
            final(state).soldier_parts.pos@ == old(state).soldier_parts.pos@.update(
                old(self).num as int,
                final(state).soldier_parts.pos@[old(self).num as int],
            ),
            final(state).soldier_parts.velocity@ == old(state).soldier_parts.velocity@.update(
                old(self).num as int,
                final(state).soldier_parts.velocity@[old(self).num as int],
            ),
            final(state).soldier_parts.old_pos@ == old(state).soldier_parts.old_pos@,
            final(state).soldier_parts.forces@ == old(state).soldier_parts.forces@,
            r == cell_any_hit_s(old(state).map, sx as int, sy as int),
            !r ==> final(state).soldier_parts == old(state).soldier_parts,
            r ==> cell_response_s(
                old(state).map,
                sx as int,
                sy as int,
                old(self).num as int,
                old(state).soldier_parts,
                final(state).soldier_parts,
            ),
            ({
                let num = old(self).num as int;
                let p0 = old(state).soldier_parts;
                let p1 = final(state).soldier_parts;
                &&& abs_s(p1.pos@[num].x as int) <= abs_s(p0.pos@[num].x as int) + abs_s(
                    p0.old_pos@[num].x as int,
                )
                &&& abs_s(p1.pos@[num].y as int) <= abs_s(p0.pos@[num].y as int) + abs_s(
                    p0.old_pos@[num].y as int,
                )
                &&& abs_s(p1.velocity@[num].x as int) <= abs_s(p0.forces@[num].x as int) + abs_s(
                    p0.velocity@[num].x as int,
                ) + 4 * (abs_s(sx as int) + abs_s(sy as int)) + 32 * (FX_LIM as int)
                &&& abs_s(p1.velocity@[num].y as int) <= abs_s(p0.forces@[num].y as int) + abs_s(
                    p0.velocity@[num].y as int,
                ) + 4 * (abs_s(sx as int) + abs_s(sy as int)) + 32 * (FX_LIM as int)
            }),
    {
        let num = self.num;
        let ghost m0 = state.map;
        let ghost p0 = state.soldier_parts;
        let ghost gsx = sx as int;
        let ghost gsy = sy as int;
        let cands = state.map.candidates(sx, sy);
        let mut ji: usize = 0;
        while ji < cands.len()
            invariant
                state_wf(*state),
                *self == *old(self),
                num == old(self).num,
                state.map == m0,
                m0 == old(state).map,
                state.soldier_parts == p0,
                p0 == old(state).soldier_parts,
                map_b(m0),
                num < p0.pos@.len(),
                parts_in_s(p0, num as int, 0x10_0000_0000_0000),
                gsx == sx as int,
                gsy == sy as int,
                abs_s(gsx) <= 0x31_0000_0000_0000,
                abs_s(gsy) <= 0x31_0000_0000_0000,
                cands@ == sector_list_s(m0, gsx, gsy),
                forall|t: int|
                    0 <= t < cands@.len() ==> 1 <= (#[trigger] cands@[t]) as int && cands@[t] - 1
                        < m0.polygons@.len(),
                forall|j2: int, k2: int|
                    0 <= j2 < ji && 0 <= k2 < 2 ==> !cell_hit_s(m0, gsx, gsy, j2, k2),
            decreases cands@.len() - ji,
        {
            let wi = cands[ji];
            let w = (wi - 1) as usize;
            let poly = state.map.polygons[w];
            let pt = poly.polytype;
            if collides(pt) {
                proof {
                    lemma_fx_mul_abs(
                        poly.perp0.x as int,
                        -(SOLDIER_COL_RADIUS as int),
                        2 * (FX_ONE as int),
                        SOLDIER_COL_RADIUS as int,
                    );
                    lemma_fx_mul_abs(
                        poly.perp0.y as int,
                        -(SOLDIER_COL_RADIUS as int),
                        2 * (FX_ONE as int),
                        SOLDIER_COL_RADIUS as int,
                    );
                    lemma_fx_mul_abs(
                        poly.perp1.x as int,
                        -(SOLDIER_COL_RADIUS as int),
                        2 * (FX_ONE as int),
                        SOLDIER_COL_RADIUS as int,
                    );
                    lemma_fx_mul_abs(
                        poly.perp1.y as int,
                        -(SOLDIER_COL_RADIUS as int),
                        2 * (FX_ONE as int),
                        SOLDIER_COL_RADIUS as int,
                    );
                }
                let q0x = sx + fx_mul(poly.perp0.x, -SOLDIER_COL_RADIUS);
                let q0y = sy + fx_mul(poly.perp0.y, -SOLDIER_COL_RADIUS);
                let q1x = sx + fx_mul(poly.perp1.x, -SOLDIER_COL_RADIUS);
                let q1y = sy + fx_mul(poly.perp1.y, -SOLDIER_COL_RADIUS);
                let hit0 = point_in_poly_edges(q0x, q0y, &poly);
                let hit1 = if hit0 {
                    false
                } else {
                    point_in_poly_edges(q1x, q1y, &poly)
                };
                if hit0 || hit1 {
                    let qx = if hit0 {
                        q0x
                    } else {
                        q1x
                    };
                    let qy = if hit0 {
                        q0y
                    } else {
                        q1y
                    };
                    let ghost kg: int = if hit0 {
                        0
                    } else {
                        1
                    };
                    proof {
                        assert(cell_hit_s(m0, gsx, gsy, ji as int, kg));
                        assert(cell_any_hit_s(m0, gsx, gsy));
                    }
                    self.sweep_respond(state, poly, qx, qy, has_collided);
                    proof {
                        reveal(cell_response_s);
                        assert(cell_response_s(m0, gsx, gsy, old(self).num as int, p0,
                        state.soldier_parts));
                    }
                    return true;
                }
                proof {
                    assert(!cell_hit_s(m0, gsx, gsy, ji as int, 0));
                    assert(!cell_hit_s(m0, gsx, gsy, ji as int, 1));
                }
            } else {
                proof {
                    assert(forall|k2: int|
                        0 <= k2 < 2 ==> !cell_hit_s(m0, gsx, gsy, ji as int, k2));
                }
            }
            ji = ji + 1;
        }
        proof {
            assert(!cell_any_hit_s(m0, gsx, gsy));
            let ni = old(self).num as int;
            assert(state.soldier_parts.pos@ =~= old(state).soldier_parts.pos@.update(
                ni,
                state.soldier_parts.pos@[ni],
            ));
            assert(state.soldier_parts.velocity@ =~= old(state).soldier_parts.velocity@.update(
                ni,
                state.soldier_parts.velocity@[ni],
            ));
        }
        false
    }

    /// Radius sweep: sample along the velocity vector, one substep per
    /// whole unit of speed, testing two collider-radius probes per
    /// candidate polygon — the anti-tunneling guard. On a hit the position
    /// reverts and the velocity is rebuilt from the accumulated force.
    #[verifier::rlimit(100)]
    #[verifier::spinoff_prover]
    pub fn check_radius_map_collision(
        &mut self,
        state: &mut MainState,
        x: i64,
        y: i64,
        has_collided: bool,
    ) -> (r: bool)
        requires
            state_wf(*old(state)),
            old(self).num < old(state).soldier_parts.pos@.len(),
            parts_in_s(old(state).soldier_parts, old(self).num as int, 0x10_0000_0000_0000),
            abs_s(x as int) <= 0x20_0000_0000_0000,
            abs_s(y as int) <= 0x20_0000_0000_0000,
        ensures
            *final(self) == *old(self),
            state_wf(*final(state)),
            final(state).map == old(state).map,
            final(state).soldier_parts.pos@.len() == old(state).soldier_parts.pos@.len(),
            final(state).soldier_parts.pos@ == old(state).soldier_parts.pos@.update(
                old(self).num as int,
                final(state).soldier_parts.pos@[old(self).num as int],
            ),
            final(state).soldier_parts.velocity@ == old(state).soldier_parts.velocity@.update(
                old(self).num as int,
                final(state).soldier_parts.velocity@[old(self).num as int],
            ),
            final(state).soldier_parts.old_pos@ == old(state).soldier_parts.old_pos@,
            final(state).soldier_parts.forces@ == old(state).soldier_parts.forces@,
            r == sweep_any_hit_s(
                old(state).map,
                x as int,
                y as int,
                old(state).soldier_parts.velocity@[old(self).num as int],
            ),
            !r ==> final(state).soldier_parts == old(state).soldier_parts,
            r ==> sweep_response_s(
                old(state).map,
                x as int,
                y as int,
                old(state).soldier_parts.velocity@[old(self).num as int],
                old(self).num as int,
                old(state).soldier_parts,
                final(state).soldier_parts,
            ),
            ({
                let num = old(self).num as int;
                let p0 = old(state).soldier_parts;
                let p1 = final(state).soldier_parts;
                let vl = abs_s(p0.velocity@[num].x as int) + abs_s(p0.velocity@[num].y as int);
                let reach = abs_s(x as int) + abs_s(y as int) + vl;
                &&& abs_s(p1.pos@[num].x as int) <= abs_s(p0.pos@[num].x as int) + abs_s(
                    p0.old_pos@[num].x as int,
                )
                &&& abs_s(p1.pos@[num].y as int) <= abs_s(p0.pos@[num].y as int) + abs_s(
                    p0.old_pos@[num].y as int,
                )
                &&& abs_s(p1.velocity@[num].x as int) <= abs_s(p0.forces@[num].x as int) + abs_s(
                    p0.velocity@[num].x as int,
                ) + 8 * reach + 64 * (FX_LIM as int)
                &&& abs_s(p1.velocity@[num].y as int) <= abs_s(p0.forces@[num].y as int) + abs_s(
                    p0.velocity@[num].y as int,
                ) + 8 * reach + 64 * (FX_LIM as int)
            }),
    {
        let num = self.num;
        let vel = state.soldier_parts.velocity[num];
        let len_v = vec2length(vel.x, vel.y);
        let mut det_acc = div_trunc(len_v, FX_ONE);
        if det_acc == 0 {
            det_acc = 1;
        }
        let stepx = div_trunc(vel.x, det_acc);
        let stepy = div_trunc(vel.y, det_acc);
        let mut sx = x;
        let mut sy = y - 3 * FX_ONE;
        let ghost m0 = state.map;
        let ghost p0 = state.soldier_parts;
        let ghost gx = x as int;
        let ghost gy = y as int;
        proof {
            assert(det_acc as int == sweep_da_s(vel));
            assert(stepx as int == sweep_step_x_s(vel));
            assert(stepy as int == sweep_step_y_s(vel));
        }
        let mut z: i64 = 0;
        while z < det_acc
            invariant
                state_wf(*state),
                *self == *old(self),
                num == old(self).num,
                state.map == m0,
                m0 == old(state).map,
                state.soldier_parts == p0,
                p0 == old(state).soldier_parts,
                map_b(m0),
                num < p0.pos@.len(),
                parts_in_s(p0, num as int, 0x10_0000_0000_0000),
                vel == p0.velocity@[num as int],
                0 <= z <= det_acc,
                det_acc as int == sweep_da_s(vel),
                stepx as int == sweep_step_x_s(vel),
                stepy as int == sweep_step_y_s(vel),
                gx == x as int,
                gy == y as int,
                abs_s(gx) <= 0x20_0000_0000_0000,
                abs_s(gy) <= 0x20_0000_0000_0000,
                sx as int == gx + z * (stepx as int),
                sy as int == gy - 3 * (FX_ONE as int) + z * (stepy as int),
                abs_s(z * (stepx as int)) <= abs_s(vel.x as int),
                abs_s(z * (stepy as int)) <= abs_s(vel.y as int),
                forall|z2: int|
                    0 <= z2 < z ==> !cell_any_hit_s(
                        m0,
                        sweep_pos_x_s(gx, vel, z2),
                        sweep_pos_y_s(gy, vel, z2),
                    ),
            decreases det_acc - z,
        {
            proof {
                lemma_step_reach(vel.x as int, det_acc as int, z as int + 1);
                lemma_step_reach(vel.y as int, det_acc as int, z as int + 1);
                assert((z as int + 1) * (stepx as int) == z * (stepx as int) + stepx)
                    by (nonlinear_arith);
                assert((z as int + 1) * (stepy as int) == z * (stepy as int) + stepy)
                    by (nonlinear_arith);
            }
            sx = sx + stepx;
            sy = sy + stepy;
            let hit = self.sweep_cell(state, sx, sy, has_collided);
            if hit {
                proof {
                    assert(cell_any_hit_s(m0, sweep_pos_x_s(gx, vel, z as int), sweep_pos_y_s(
                    gy, vel, z as int)));
                    assert(sweep_any_hit_s(m0, gx, gy, vel));
                    reveal(sweep_response_s);
                    assert(sweep_response_s(
                        m0,
                        gx,
                        gy,
                        vel,
                        old(self).num as int,
                        p0,
                        state.soldier_parts,
                    ));
                }
                return true;
            }
            z = z + 1;
        }
        proof {
            assert(!sweep_any_hit_s(m0, gx, gy, vel));
        }
        false
    }
}


/// Mirror an offset to the facing direction.
pub open spec fn dirmul_s(direction: i8, v: int) -> int {
    if direction >= 0 {
        v
    } else {
        -v
    }
}

/// A leg joint, positioned from the legs track.
pub open spec fn leg_joint_s(j: int) -> bool {
    j == 1 || j == 2 || j == 3 || j == 4 || j == 5 || j == 6 || j == 17 || j == 18
}

/// A torso or arm joint, positioned from the body track.
pub open spec fn torso_joint_s(j: int) -> bool {
    (7 <= j <= 16) || j == 19 || j == 20
}

/// The stance- and animation-dependent body anchor height.
pub open spec fn body_y_s(position: u8, body: Animation) -> int {
    let stance: int = if position == POS_STAND {
        8 * (FX_ONE as int)
    } else if position == POS_CROUCH {
        9 * (FX_ONE as int)
    } else if position == POS_PRONE {
        if body.kind == AnimKind::ProneMove {
            0
        } else if body.kind == AnimKind::Prone {
            if body.curr_frame > 9 {
                -2 * (FX_ONE as int)
            } else {
                (14 - body.curr_frame) * (FX_ONE as int)
            }
        } else {
            9 * (FX_ONE as int)
        }
    } else {
        0
    };
    if body.kind == AnimKind::GetUp {
        if body.curr_frame > 18 {
            8 * (FX_ONE as int)
        } else {
            4 * (FX_ONE as int)
        }
    } else {
        stance
    }
}

/// The secondary-motion anchors (21, 23, 25) take over the torso joints
/// they trail (9, 12, 5), carried by the velocity while alive, and bank
/// their previous positions.
pub open spec fn anchor_rel(vel: Vec2, carry: bool, sk0: ParticleSystem, sk1: ParticleSystem) -> bool {
    let dx: int = if carry {
        vel.x as int
    } else {
        0
    };
    let dy: int = if carry {
        vel.y as int
    } else {
        0
    };
    &&& sk1.active == sk0.active
    &&& sk1.gravity == sk0.gravity
    &&& sk1.v_damping == sk0.v_damping
    &&& sk1.pos@.len() == sk0.pos@.len()
    &&& sk1.old_pos@.len() == sk0.old_pos@.len()
    &&& sk1.old_pos@ == sk0.old_pos@.update(21, sk0.pos@[21]).update(23, sk0.pos@[23]).update(
        25,
        sk0.pos@[25],
    )
    &&& sk1.pos@ == sk0.pos@.update(21, sk1.pos@[21]).update(23, sk1.pos@[23]).update(
        25,
        sk1.pos@[25],
    )
    &&& sk1.pos@[21].x as int == sk0.pos@[9].x + dx
    &&& sk1.pos@[21].y as int == sk0.pos@[9].y + dy
    &&& sk1.pos@[23].x as int == sk0.pos@[12].x + dx
    &&& sk1.pos@[23].y as int == sk0.pos@[12].y + dy
    &&& sk1.pos@[25].x as int == sk0.pos@[5].x + dx
    &&& sk1.pos@[25].y as int == sk0.pos@[5].y + dy
}

/// Procedural pose placement, as a relation: every active joint of the
/// two animation-driven classes banks its previous position and takes its
/// frame-table placement; leg joints keep their old position while
/// half-dead, and torso joints then use a fixed drop instead of the
/// stance's body-anchor correction.
pub open spec fn pose_rel(
    half_dead: bool,
    direction: i8,
    legs: Animation,
    body: Animation,
    pos: Vec2,
    body_y: int,
    sk0: ParticleSystem,
    sk1: ParticleSystem,
) -> bool {
    &&& sk1.active == sk0.active
    &&& sk1.gravity == sk0.gravity
    &&& sk1.v_damping == sk0.v_damping
    &&& sk1.pos@.len() == sk0.pos@.len()
    &&& sk1.old_pos@.len() == sk0.old_pos@.len()
    &&& forall|j: int|
        0 <= j < NUM_JOINTS && !(1 <= j < 21 && sk0.active@[j]) ==> (#[trigger] sk1.pos@[j])
            == sk0.pos@[j] && sk1.old_pos@[j] == sk0.old_pos@[j]
    &&& forall|j: int|
        1 <= j < 21 && sk0.active@[j] ==> (#[trigger] sk1.old_pos@[j]) == sk0.pos@[j]
    &&& forall|j: int|
        1 <= j < 21 && sk0.active@[j] && leg_joint_s(j) && !half_dead ==> (
        #[trigger] sk1.pos@[j]).x as int == pos.x + dirmul_s(
            direction,
            legs.frames@[legs.curr_frame as int].offsets@[j].x as int,
        ) && sk1.pos@[j].y as int == pos.y
            + legs.frames@[legs.curr_frame as int].offsets@[j].y
    &&& forall|j: int|
        1 <= j < 21 && sk0.active@[j] && leg_joint_s(j) && half_dead ==> (
        #[trigger] sk1.pos@[j]) == sk0.pos@[j]
    &&& forall|j: int|
        1 <= j < 21 && sk0.active@[j] && torso_joint_s(j) ==> (#[trigger] sk1.pos@[j]).x as int
            == pos.x + dirmul_s(
            direction,
            body.frames@[body.curr_frame as int].offsets@[j].x as int,
        ) && sk1.pos@[j].y as int == (if !half_dead {
            (sk1.pos@[6].y - (pos.y - body_y)) + pos.y
                + body.frames@[body.curr_frame as int].offsets@[j].y
        } else {
            9 * (FX_ONE as int) + pos.y + body.frames@[body.curr_frame as int].offsets@[j].y
        })
}

/// The hand and the forward shoulder-chain anchor aim at the target: both
/// are placed off the head anchor, perpendicular to the aim direction,
/// the hand a tenth of a unit out and the shoulder anchor fifty times
/// farther.
pub open spec fn hand_rel(
    direction: i8,
    aim_x: int,
    aim_y: int,
    sk0: ParticleSystem,
    sk1: ParticleSystem,
) -> bool {
    let n = vnorm_s(sk0.pos@[12].x - aim_x, sk0.pos@[12].y - aim_y);
    let rx = fx_mul_s(n.0, 1000);
    let ry = fx_mul_s(n.1, 1000);
    let rx2 = fx_mul_s(rx, 500000);
    let ry2 = fx_mul_s(ry, 500000);
    &&& sk1.active == sk0.active
    &&& sk1.gravity == sk0.gravity
    &&& sk1.v_damping == sk0.v_damping
    &&& sk1.old_pos == sk0.old_pos
    &&& sk1.pos@.len() == sk0.pos@.len()
    &&& sk1.pos@ == sk0.pos@.update(12, sk1.pos@[12]).update(23, sk1.pos@[23])
    &&& sk1.pos@[12].x as int == sk0.pos@[9].x - dirmul_s(direction, ry)
    &&& sk1.pos@[12].y as int == sk0.pos@[9].y + dirmul_s(direction, rx)
    &&& sk1.pos@[23].x as int == sk0.pos@[9].x - dirmul_s(direction, ry2)
    &&& sk1.pos@[23].y as int == sk0.pos@[9].y + dirmul_s(direction, rx2)
}

/// The forearm and back-arm aim correction as a relation between skeleton
/// states; skipped outright for a busy body animation.
pub open spec fn arms_rel(
    body_kind: AnimKind,
    aim_x: int,
    aim_y: int,
    sk0: ParticleSystem,
    sk1: ParticleSystem,
) -> bool {
    if aim_locked_s(body_kind) {
        sk1 == sk0
    } else {
        let arm_s: int = if body_kind == AnimKind::Throw {
            -50000
        } else {
            -70000
        };
        let arm_s2: int = if body_kind == AnimKind::Throw {
            -60000
        } else {
            -80000
        };
        let n1 = vnorm_s(sk0.pos@[15].x - aim_x, sk0.pos@[15].y - aim_y);
        let n2 = vnorm_s(sk0.pos@[19].x - aim_x, sk0.pos@[19].y - aim_y);
        &&& sk1.active == sk0.active
        &&& sk1.gravity == sk0.gravity
        &&& sk1.v_damping == sk0.v_damping
        &&& sk1.old_pos == sk0.old_pos
        &&& sk1.pos@.len() == sk0.pos@.len()
        &&& sk1.pos@ == sk0.pos@.update(15, sk1.pos@[15]).update(19, sk1.pos@[19])
        &&& sk1.pos@[15].x as int == sk0.pos@[16].x + fx_mul_s(n1.0, arm_s)
        &&& sk1.pos@[15].y as int == sk0.pos@[16].y + fx_mul_s(n1.1, arm_s)
        &&& sk1.pos@[19].x as int == sk0.pos@[16].x + fx_mul_s(n2.0, arm_s2)
        &&& sk1.pos@[19].y as int == sk0.pos@[16].y - 4 * (FX_ONE as int) + fx_mul_s(n2.1, arm_s2)
    }
}


/// One area probe from base point `(bx, by)` as a relation between store
/// states: the probe advances by the current velocity, hits iff some
/// collidable candidate contains it, and on a hit the first one's full
/// response stands between the states.
pub open spec fn area_step_rel(
    m: MapData,
    bx: int,
    by: int,
    area: i32,
    legs: Animation,
    c: Control,
    num: int,
    p0: ParticleStore,
    p1: ParticleStore,
    r: bool,
) -> bool {
    &&& p1.pos@ == p0.pos@.update(num, p1.pos@[num])
    &&& p1.old_pos@ == p0.old_pos@.update(num, p1.old_pos@[num])
    &&& p1.velocity@ == p0.velocity@.update(num, p1.velocity@[num])
    &&& p1.forces@ == p0.forces@.update(num, p1.forces@[num])
    &&& r == area_hit_s(m, bx + p0.velocity@[num].x, by + p0.velocity@[num].y)
    &&& !r ==> p1 == p0
    &&& r ==> area_first_response_s(
        m,
        bx + p0.velocity@[num].x,
        by + p0.velocity@[num].y,
        area,
        legs,
        c,
        num,
        p0,
        p1,
    )
}

/// One radius sweep from base point `(bx, by)` as a relation between
/// store states.
pub open spec fn sweep_step_rel(
    m: MapData,
    bx: int,
    by: int,
    num: int,
    p0: ParticleStore,
    p1: ParticleStore,
    r: bool,
) -> bool {
    &&& p1.pos@ == p0.pos@.update(num, p1.pos@[num])
    &&& p1.velocity@ == p0.velocity@.update(num, p1.velocity@[num])
    &&& p1.old_pos@ == p0.old_pos@
    &&& p1.forces@ == p0.forces@
    &&& r == sweep_any_hit_s(m, bx, by, p0.velocity@[num])
    &&& !r ==> p1 == p0
    &&& r ==> sweep_response_s(m, bx, by, p0.velocity@[num], num, p0, p1)
}

/// One vertex probe from base point `(bx, by)` as a relation between
/// store states.
pub open spec fn vert_step_rel(
    m: MapData,
    bx: int,
    by: int,
    rr: int,
    has_collided: bool,
    num: int,
    p0: ParticleStore,
    p1: ParticleStore,
    r: bool,
) -> bool {
    &&& p1.pos@ == p0.pos@.update(num, p1.pos@[num])
    &&& p1.old_pos@ == p0.old_pos@
    &&& p1.velocity@ == p0.velocity@
    &&& p1.forces@ == p0.forces@
    &&& r == vert_any_hit_s(m, bx + p0.velocity@[num].x, by + p0.velocity@[num].y, rr)
    &&& !r ==> p1 == p0
    &&& r ==> vert_first_response_s(
        m,
        bx + p0.velocity@[num].x,
        by + p0.velocity@[num].y,
        rr,
        has_collided,
        num,
        p0,
        p1,
    )
}

/// The two wall-style area probes of one tick, above the shoulders,
/// chained through the intermediate store state.
pub open spec fn walls_rel(
    m: MapData,
    legs: Animation,
    c: Control,
    num: int,
    p0: ParticleStore,
    p1: ParticleStore,
) -> bool {
    exists|pm: ParticleStore, r1: bool, r2: bool|
        {
            &&& #[trigger] area_step_rel(
                m,
                p0.pos@[num].x - 35000,
                p0.pos@[num].y - 12 * (FX_ONE as int),
                1,
                legs,
                c,
                num,
                p0,
                pm,
                r1,
            )
            &&& #[trigger] area_step_rel(
                m,
                pm.pos@[num].x + 35000,
                pm.pos@[num].y - 12 * (FX_ONE as int),
                1,
                legs,
                c,
                num,
                pm,
                p1,
                r2,
            )
        }
}

/// The ground-contact probes of one tick: two ground-style area probes
/// under the feet (both nudged a quarter unit, since the slope raycasts
/// that would vary the nudge always leave it on), the radius sweep seeded
/// by their result, and the vertex probe seeded by everything so far.
/// `og` is the combined ground flag, `gl` the sweep's own.
pub open spec fn contacts_rel(
    m: MapData,
    legs: Animation,
    c: Control,
    num: int,
    p0: ParticleStore,
    p1: ParticleStore,
    og: bool,
    gl: bool,
) -> bool {
    exists|
        pa: ParticleStore,
        pb: ParticleStore,
        pc: ParticleStore,
        g1: bool,
        g2: bool,
        gv: bool,
        hc: bool,
    |
        {
            &&& #[trigger] area_step_rel(
                m,
                p0.pos@[num].x + 2 * (FX_ONE as int),
                p0.pos@[num].y + 2 * (FX_ONE as int) - 2500,
                0,
                legs,
                c,
                num,
                p0,
                pa,
                g1,
            )
            &&& #[trigger] area_step_rel(
                m,
                pa.pos@[num].x - 2 * (FX_ONE as int),
                pa.pos@[num].y + 2 * (FX_ONE as int) - 2500,
                0,
                legs,
                c,
                num,
                pa,
                pb,
                g2,
            )
            &&& #[trigger] sweep_step_rel(
                m,
                pb.pos@[num].x as int,
                pb.pos@[num].y as int,
                num,
                pb,
                pc,
                gl,
            )
            &&& #[trigger] vert_step_rel(
                m,
                pb.pos@[num].x as int,
                pb.pos@[num].y as int,
                3 * (FX_ONE as int),
                hc,
                num,
                pc,
                p1,
                gv,
            )
            &&& hc == ((g1 || g2) || gl)
            &&& og == (gv || (g1 || g2))
        }
}

/// Every map probe of one living tick, wall probes then ground probes,
/// chained through the store state between them.
pub open spec fn tick_probes_rel(
    m: MapData,
    legs: Animation,
    c: Control,
    num: int,
    p0: ParticleStore,
    p1: ParticleStore,
    og: bool,
    gl: bool,
) -> bool {
    exists|pm: ParticleStore|
        #[trigger] walls_rel(m, legs, c, num, p0, pm) && contacts_rel(m, legs, c, num, pm, p1, og, gl)
}

/// A joint the ragdoll map probe covers: the animation-driven joints not
/// excluded as rigid.
pub open spec fn ragdoll_joint_s(j: int) -> bool {
    1 <= j < 20 && j != 7 && j != 8 && j != 17 && j != 18 && j != 19
}

/// The ragdoll pass over the skeleton: every probed joint is pushed out
/// of the map by the two skeleton probes anchored at the soldier's stored
/// position, and the ground flag reports whether either probe point lies
/// inside some candidate polygon.
pub open spec fn ragdoll_rel(
    m: MapData,
    px: int,
    py: int,
    sk0: ParticleSystem,
    sk1: ParticleSystem,
    og: bool,
) -> bool {
    let hit1 = skel_any_hit_s(m, px - FX_ONE, py + 4 * (FX_ONE as int));
    let hit2 = skel_any_hit_s(m, px, py + FX_ONE);
    &&& sk1.old_pos == sk0.old_pos
    &&& sk1.active == sk0.active
    &&& sk1.gravity == sk0.gravity
    &&& sk1.v_damping == sk0.v_damping
    &&& sk1.pos@.len() == sk0.pos@.len()
    &&& og == (hit1 || hit2)
    &&& forall|j: int|
        0 <= j < NUM_JOINTS && !ragdoll_joint_s(j) ==> (#[trigger] sk1.pos@[j]) == sk0.pos@[j]
    &&& forall|j: int|
        ragdoll_joint_s(j) ==> ((hit2 ==> skel_probe_result_s(
            m,
            px,
            py + FX_ONE,
            sector_list_s(m, px, py + FX_ONE).len() as int,
            sk0.old_pos@[j],
            (#[trigger] sk1.pos@[j]),
        )) && (!hit2 && hit1 ==> skel_probe_result_s(
            m,
            px - FX_ONE,
            py + 4 * (FX_ONE as int),
            sector_list_s(m, px - FX_ONE, py + 4 * (FX_ONE as int)).len() as int,
            sk0.old_pos@[j],
            sk1.pos@[j],
        )) && (!hit1 && !hit2 ==> sk1.pos@[j] == sk0.pos@[j]))
}

/// One velocity component after the end-of-tick clamp.
pub open spec fn clamp_s(v: int) -> int {
    if v > MAX_VELOCITY {
        MAX_VELOCITY as int
    } else if v < -MAX_VELOCITY {
        -(MAX_VELOCITY as int)
    } else {
        v
    }
}

impl Soldier {
    /// Clamp one velocity component to the velocity cap, symmetrically.
    fn clamp_component(v: i64) -> (r: i64)
        ensures
            r as int == clamp_s(v as int),
            -MAX_VELOCITY <= r <= MAX_VELOCITY,
    {
        if v > MAX_VELOCITY {
            MAX_VELOCITY
        } else if v < -MAX_VELOCITY {
            -MAX_VELOCITY
        } else {
            v
        }
    }

    /// The secondary-motion anchors follow the torso joints they trail
    /// (shoulder chain), carried along by the soldier's velocity while
    /// alive; their previous positions keep their own verlet history.
    fn anchor_shoulders(&mut self, vel: Vec2, carry: bool)
        requires
            soldier_wf(*old(self)),
            sk_in(old(self).skeleton, FX_LIM as int),
            abs_s(vel.x as int) <= FX_LIM as int,
            abs_s(vel.y as int) <= FX_LIM as int,
        ensures
            soldier_wf(*final(self)),
            *final(self) == (Soldier { skeleton: final(self).skeleton, ..*old(self) }),
            final(self).skeleton.active == old(self).skeleton.active,
            final(self).skeleton.gravity == old(self).skeleton.gravity,
            final(self).skeleton.v_damping == old(self).skeleton.v_damping,
            sk_in(final(self).skeleton, 2 * (FX_LIM as int)),
            anchor_rel(vel, carry, old(self).skeleton, final(self).skeleton),
    {
        let sk21 = self.skeleton.pos[21];
        let sk23 = self.skeleton.pos[23];
        let sk25 = self.skeleton.pos[25];
        self.skeleton.old_pos.set(21, sk21);
        self.skeleton.old_pos.set(23, sk23);
        self.skeleton.old_pos.set(25, sk25);
        let a21 = self.skeleton.pos[9];
        let a23 = self.skeleton.pos[12];
        let a25 = self.skeleton.pos[5];
        if carry {
            self.skeleton.pos.set(21, Vec2 { x: a21.x + vel.x, y: a21.y + vel.y });
            self.skeleton.pos.set(23, Vec2 { x: a23.x + vel.x, y: a23.y + vel.y });
            self.skeleton.pos.set(25, Vec2 { x: a25.x + vel.x, y: a25.y + vel.y });
        } else {
            self.skeleton.pos.set(21, a21);
            self.skeleton.pos.set(23, a23);
            self.skeleton.pos.set(25, a25);
        }
        proof {
            assert forall|j: int|
                0 <= j < NUM_JOINTS implies abs_s(
                (#[trigger] self.skeleton.pos@[j]).x as int,
            ) <= 2 * (FX_LIM as int) && abs_s(self.skeleton.pos@[j].y as int) <= 2 * (
            FX_LIM as int) && abs_s(self.skeleton.old_pos@[j].x as int) <= 2 * (FX_LIM as int)
                && abs_s(self.skeleton.old_pos@[j].y as int) <= 2 * (FX_LIM as int) by {
                assert(abs_s((old(self).skeleton.pos@[j]).x as int) <= FX_LIM as int);
                if j != 21 && j != 23 && j != 25 {
                    assert(self.skeleton.pos@[j] == old(self).skeleton.pos@[j]);
                    assert(self.skeleton.old_pos@[j] == old(self).skeleton.old_pos@[j]);
                }
            }
            assert(sk_in(self.skeleton, 2 * (FX_LIM as int)));
            assert(self.skeleton.old_pos@ =~= old(self).skeleton.old_pos@.update(
                21,
                old(self).skeleton.pos@[21],
            ).update(23, old(self).skeleton.pos@[23]).update(25, old(self).skeleton.pos@[25]));
            assert(self.skeleton.pos@ =~= old(self).skeleton.pos@.update(
                21,
                self.skeleton.pos@[21],
            ).update(23, self.skeleton.pos@[23]).update(25, self.skeleton.pos@[25]));
        }
    }

    /// Procedural pose placement: position every active joint from the
    /// soldier's world position, facing direction and the current frames
    /// of the two animation tracks; leg joints from the legs track, torso
    /// and arm joints from the body track with the stance's body-anchor
    /// correction (or a fixed drop when half-dead).
    #[verifier::rlimit(100)]
    #[verifier::spinoff_prover]
    fn place_pose(&mut self, pos: Vec2, body_y: i64)
        requires
            soldier_wf(*old(self)),
            sk_in(old(self).skeleton, 2 * (FX_LIM as int)),
            !old(self).dead_meat,
            abs_s(pos.x as int) <= FX_LIM as int,
            abs_s(pos.y as int) <= FX_LIM as int,
            abs_s(body_y as int) <= FX_LIM as int,
        ensures
            soldier_wf(*final(self)),
            *final(self) == (Soldier { skeleton: final(self).skeleton, ..*old(self) }),
            final(self).skeleton.active == old(self).skeleton.active,
            final(self).skeleton.gravity == old(self).skeleton.gravity,
            final(self).skeleton.v_damping == old(self).skeleton.v_damping,
            sk_in(final(self).skeleton, 16 * (FX_LIM as int)),
            pose_rel(
                old(self).half_dead,
                old(self).direction,
                old(self).legs_animation,
                old(self).body_animation,
                pos,
                body_y as int,
                old(self).skeleton,
                final(self).skeleton,
            ),
    {
        let mut i: usize = 1;
        while i < 21
            invariant
                soldier_wf(*self),
                soldier_wf(*old(self)),
                1 <= i <= 21,
                *self == (Soldier { skeleton: self.skeleton, ..*old(self) }),
                self.skeleton.active == old(self).skeleton.active,
                self.skeleton.gravity == old(self).skeleton.gravity,
                self.skeleton.v_damping == old(self).skeleton.v_damping,
                sk_in(self.skeleton, 8 * (FX_LIM as int)),
                abs_s(self.skeleton.pos@[6].x as int) <= 2 * (FX_LIM as int),
                abs_s(self.skeleton.pos@[6].y as int) <= 2 * (FX_LIM as int),
                abs_s(pos.x as int) <= FX_LIM as int,
                abs_s(pos.y as int) <= FX_LIM as int,
                abs_s(body_y as int) <= FX_LIM as int,
                forall|j: int|
                    0 <= j < NUM_JOINTS && !(1 <= j < i && old(self).skeleton.active@[j]) ==> (
                    #[trigger] self.skeleton.pos@[j]) == old(self).skeleton.pos@[j]
                        && self.skeleton.old_pos@[j] == old(self).skeleton.old_pos@[j],
                forall|j: int|
                    1 <= j < i && old(self).skeleton.active@[j] ==> (
                    #[trigger] self.skeleton.old_pos@[j]) == old(self).skeleton.pos@[j],
                forall|j: int|
                    1 <= j < i && old(self).skeleton.active@[j] && leg_joint_s(j) && !old(
                        self,
                    ).half_dead ==> (#[trigger] self.skeleton.pos@[j]).x as int == pos.x
                        + dirmul_s(
                        old(self).direction,
                        old(self).legs_animation.frames@[old(
                            self,
                        ).legs_animation.curr_frame as int].offsets@[j].x as int,
                    ) && self.skeleton.pos@[j].y as int == pos.y + old(
                        self,
                    ).legs_animation.frames@[old(
                        self,
                    ).legs_animation.curr_frame as int].offsets@[j].y,
                forall|j: int|
                    1 <= j < i && old(self).skeleton.active@[j] && leg_joint_s(j) && old(
                        self,
                    ).half_dead ==> (#[trigger] self.skeleton.pos@[j]) == old(
                        self,
                    ).skeleton.pos@[j],
                forall|j: int|
                    1 <= j < i && old(self).skeleton.active@[j] && torso_joint_s(j) ==> (
                    #[trigger] self.skeleton.pos@[j]).x as int == pos.x + dirmul_s(
                        old(self).direction,
                        old(self).body_animation.frames@[old(
                            self,
                        ).body_animation.curr_frame as int].offsets@[j].x as int,
                    ) && self.skeleton.pos@[j].y as int == (if !old(self).half_dead {
                        (self.skeleton.pos@[6].y - (pos.y - body_y)) + pos.y + old(
                            self,
                        ).body_animation.frames@[old(
                            self,
                        ).body_animation.curr_frame as int].offsets@[j].y
                    } else {
                        9 * (FX_ONE as int) + pos.y + old(self).body_animation.frames@[old(
                            self,
                        ).body_animation.curr_frame as int].offsets@[j].y
                    }),
            decreases 21 - i,
        {
            let ghost pre = *self;
            if self.skeleton.active[i] {
                let cur = self.skeleton.pos[i];
                self.skeleton.old_pos.set(i, cur);
                if !self.half_dead && (i == 1 || i == 2 || i == 3 || i == 4 || i == 5 || i == 6
                    || i == 17 || i == 18) {
                    let off = self.legs_animation.offset(i);
                    let ox = if self.direction >= 0 {
                        off.x
                    } else {
                        -off.x
                    };
                    self.skeleton.pos.set(i, Vec2 { x: pos.x + ox, y: pos.y + off.y });
                }
                if i == 7 || i == 8 || i == 9 || i == 10 || i == 11 || i == 12 || i == 13 || i
                    == 14 || i == 15 || i == 16 || i == 19 || i == 20 {
                    let off = self.body_animation.offset(i);
                    let ox = if self.direction >= 0 {
                        off.x
                    } else {
                        -off.x
                    };
                    let base = self.skeleton.pos[6];
                    let ny = if !self.half_dead {
                        (base.y - (pos.y - body_y)) + pos.y + off.y
                    } else {
                        9 * FX_ONE + pos.y + off.y
                    };
                    self.skeleton.pos.set(i, Vec2 { x: pos.x + ox, y: ny });
                }
            }
            proof {
                assert(self.skeleton.pos@ =~= pre.skeleton.pos@.update(
                    i as int,
                    self.skeleton.pos@[i as int],
                ));
                assert(self.skeleton.old_pos@ =~= pre.skeleton.old_pos@.update(
                    i as int,
                    self.skeleton.old_pos@[i as int],
                ));
                assert forall|t: int| 0 <= t < NUM_JOINTS implies abs_s(
                    (#[trigger] self.skeleton.pos@[t]).x as int,
                ) <= 8 * (FX_LIM as int) && abs_s(self.skeleton.pos@[t].y as int) <= 8 * (
                FX_LIM as int) && abs_s(self.skeleton.old_pos@[t].x as int) <= 8 * (FX_LIM as int)
                    && abs_s(self.skeleton.old_pos@[t].y as int) <= 8 * (FX_LIM as int) by {
                    if t != i as int {
                        assert(self.skeleton.pos@[t] == pre.skeleton.pos@[t]);
                        assert(self.skeleton.old_pos@[t] == pre.skeleton.old_pos@[t]);
                        assert(abs_s((pre.skeleton.pos@[t]).x as int) <= 8 * (FX_LIM as int));
                    }
                }
                assert(sk_in(self.skeleton, 8 * (FX_LIM as int)));
                assert forall|j: int|
                    0 <= j < NUM_JOINTS && !(1 <= j < i as int + 1 && old(
                        self,
                    ).skeleton.active@[j]) implies (self.skeleton.pos@[j]) == old(
                    self,
                ).skeleton.pos@[j] && self.skeleton.old_pos@[j] == old(
                    self,
                ).skeleton.old_pos@[j] by {
                    if j != i as int {
                        assert(self.skeleton.pos@[j] == pre.skeleton.pos@[j]);
                        assert(self.skeleton.old_pos@[j] == pre.skeleton.old_pos@[j]);
                    }
                }
            }
            i = i + 1;
        }
    }

    /// Aim the hand and the forward shoulder-chain anchor: both are placed
    /// off the head anchor, perpendicular to the aim direction, the hand
    /// close in and the shoulder anchor fifty times farther out.
    fn aim_hand(&mut self, aim_x: i64, aim_y: i64)
        requires
            soldier_wf(*old(self)),
            sk_in(old(self).skeleton, 16 * (FX_LIM as int)),
            abs_s(aim_x as int) <= FX_LIM as int,
            abs_s(aim_y as int) <= FX_LIM as int,
        ensures
            soldier_wf(*final(self)),
            *final(self) == (Soldier { skeleton: final(self).skeleton, ..*old(self) }),
            final(self).skeleton.active == old(self).skeleton.active,
            final(self).skeleton.gravity == old(self).skeleton.gravity,
            final(self).skeleton.v_damping == old(self).skeleton.v_damping,
            final(self).skeleton.old_pos == old(self).skeleton.old_pos,
            final(self).skeleton.pos@ == old(self).skeleton.pos@.update(
                12,
                final(self).skeleton.pos@[12],
            ).update(23, final(self).skeleton.pos@[23]),
            sk_in(final(self).skeleton, 18 * (FX_LIM as int)),
            hand_rel(
                old(self).direction,
                aim_x as int,
                aim_y as int,
                old(self).skeleton,
                final(self).skeleton,
            ),
    {
        let p = self.skeleton.pos[12];
        let rn = vec2normalize(Vec2 { x: p.x - aim_x, y: p.y - aim_y });
        proof {
            lemma_fx_mul_abs(rn.x as int, 1000, FX_ONE as int, 1000);
            lemma_fx_mul_abs(rn.y as int, 1000, FX_ONE as int, 1000);
        }
        let rx = fx_mul(rn.x, 1000);
        let ry = fx_mul(rn.y, 1000);
        let head = self.skeleton.pos[9];
        let hx = if self.direction >= 0 {
            head.x - ry
        } else {
            head.x + ry
        };
        let hy = if self.direction >= 0 {
            head.y + rx
        } else {
            head.y - rx
        };
        self.skeleton.pos.set(12, Vec2 { x: hx, y: hy });
        proof {
            lemma_fx_mul_abs(rx as int, 500000, 1000, 500000);
            lemma_fx_mul_abs(ry as int, 500000, 1000, 500000);
        }
        let rx2 = fx_mul(rx, 500000);
        let ry2 = fx_mul(ry, 500000);
        let sx = if self.direction >= 0 {
            head.x - ry2
        } else {
            head.x + ry2
        };
        let sy = if self.direction >= 0 {
            head.y + rx2
        } else {
            head.y - rx2
        };
        self.skeleton.pos.set(23, Vec2 { x: sx, y: sy });
        proof {
            assert(self.skeleton.pos@ =~= old(self).skeleton.pos@.update(
                12,
                self.skeleton.pos@[12],
            ).update(23, self.skeleton.pos@[23]));
            assert(sk_in(self.skeleton, 18 * (FX_LIM as int)));
        }
    }

    /// Aim-correct the forearm and back-arm joints: each is projected from
    /// its anchor along the normalized aim direction, closer in while
    /// throwing. Skipped outright while the body track plays a busy
    /// animation that owns those joints — their animation-frame-driven
    /// placement is left exactly as it stands.
    pub fn aim_correct_arms(&mut self, aim_x: i64, aim_y: i64)
        requires
            soldier_wf(*old(self)),
            sk_in(old(self).skeleton, 18 * (FX_LIM as int)),
            abs_s(aim_x as int) <= FX_LIM as int,
            abs_s(aim_y as int) <= FX_LIM as int,
        ensures
            soldier_wf(*final(self)),
            *final(self) == (Soldier { skeleton: final(self).skeleton, ..*old(self) }),
            final(self).skeleton.active == old(self).skeleton.active,
            final(self).skeleton.gravity == old(self).skeleton.gravity,
            final(self).skeleton.v_damping == old(self).skeleton.v_damping,
            final(self).skeleton.old_pos == old(self).skeleton.old_pos,
            aim_locked_s(old(self).body_animation.kind) ==> *final(self) == *old(self),
            !aim_locked_s(old(self).body_animation.kind) ==> ({
                let sk = old(self).skeleton;
                let arm_s: int = if old(self).body_animation.kind == AnimKind::Throw {
                    -50000
                } else {
                    -70000
                };
                let arm_s2: int = if old(self).body_animation.kind == AnimKind::Throw {
                    -60000
                } else {
                    -80000
                };
                let n1 = vnorm_s(sk.pos@[15].x - aim_x, sk.pos@[15].y - aim_y);
                let n2 = vnorm_s(sk.pos@[19].x - aim_x, sk.pos@[19].y - aim_y);
                &&& final(self).skeleton.pos@ == sk.pos@.update(
                    15,
                    final(self).skeleton.pos@[15],
                ).update(19, final(self).skeleton.pos@[19])
                &&& final(self).skeleton.pos@[15].x as int == sk.pos@[16].x + fx_mul_s(n1.0, arm_s)
                &&& final(self).skeleton.pos@[15].y as int == sk.pos@[16].y + fx_mul_s(n1.1, arm_s)
                &&& final(self).skeleton.pos@[19].x as int == sk.pos@[16].x + fx_mul_s(n2.0, arm_s2)
                &&& final(self).skeleton.pos@[19].y as int == sk.pos@[16].y - 4 * (FX_ONE as int)
                    + fx_mul_s(n2.1, arm_s2)
            }),
            sk_in(final(self).skeleton, 20 * (FX_LIM as int)),
            arms_rel(
                old(self).body_animation.kind,
                aim_x as int,
                aim_y as int,
                old(self).skeleton,
                final(self).skeleton,
            ),
    {
        if aim_locked(self.body_animation.kind) {
            proof {
                assert forall|t: int| 0 <= t < NUM_JOINTS implies abs_s(
                    (#[trigger] self.skeleton.pos@[t]).x as int,
                ) <= 20 * (FX_LIM as int) && abs_s(self.skeleton.pos@[t].y as int) <= 20 * (
                FX_LIM as int) && abs_s(self.skeleton.old_pos@[t].x as int) <= 20 * (FX_LIM as int)
                    && abs_s(self.skeleton.old_pos@[t].y as int) <= 20 * (FX_LIM as int) by {
                    assert(abs_s((old(self).skeleton.pos@[t]).x as int) <= 18 * (FX_LIM as int));
                }
                assert(sk_in(self.skeleton, 20 * (FX_LIM as int)));
            }
            return ;
        }
        let arm_s: i64 = if self.body_animation.kind == AnimKind::Throw {
            -50000
        } else {
            -70000
        };
        let arm_s2: i64 = if self.body_animation.kind == AnimKind::Throw {
            -60000
        } else {
            -80000
        };
        let anchor = self.skeleton.pos[16];
        let p15 = self.skeleton.pos[15];
        let n1 = vec2normalize(Vec2 { x: p15.x - aim_x, y: p15.y - aim_y });
        proof {
            lemma_fx_mul_abs(n1.x as int, arm_s as int, FX_ONE as int, 70000);
            lemma_fx_mul_abs(n1.y as int, arm_s as int, FX_ONE as int, 70000);
        }
        self.skeleton.pos.set(
            15,
            Vec2 { x: anchor.x + fx_mul(n1.x, arm_s), y: anchor.y + fx_mul(n1.y, arm_s) },
        );
        let p19 = self.skeleton.pos[19];
        let n2 = vec2normalize(Vec2 { x: p19.x - aim_x, y: p19.y - aim_y });
        proof {
            lemma_fx_mul_abs(n2.x as int, arm_s2 as int, FX_ONE as int, 80000);
            lemma_fx_mul_abs(n2.y as int, arm_s2 as int, FX_ONE as int, 80000);
        }
        self.skeleton.pos.set(
            19,
            Vec2 {
                x: anchor.x + fx_mul(n2.x, arm_s2),
                y: anchor.y - 4 * FX_ONE + fx_mul(n2.y, arm_s2),
            },
        );
        proof {
            assert(self.skeleton.pos@ =~= old(self).skeleton.pos@.update(
                15,
                self.skeleton.pos@[15],
            ).update(19, self.skeleton.pos@[19]));
            assert forall|t: int|
                0 <= t < NUM_JOINTS implies abs_s(
                (#[trigger] self.skeleton.pos@[t]).x as int,
            ) <= 20 * (FX_LIM as int) && abs_s(self.skeleton.pos@[t].y as int) <= 20 * (
            FX_LIM as int) && abs_s(self.skeleton.old_pos@[t].x as int) <= 20 * (FX_LIM as int)
                && abs_s(self.skeleton.old_pos@[t].y as int) <= 20 * (FX_LIM as int) by {
                assert(abs_s((old(self).skeleton.pos@[t]).x as int) <= 18 * (FX_LIM as int));
            }
            assert(sk_in(self.skeleton, 20 * (FX_LIM as int)));
        }
    }
}

impl Soldier {
    /// The two wall-style area probes above the shoulders.
    #[verifier::rlimit(100)]
    #[verifier::spinoff_prover]
    fn probe_walls(&mut self, state: &mut MainState)
        requires
            state_wf(*old(state)),
            soldier_wf(*old(self)),
            old(self).num < old(state).soldier_parts.pos@.len(),
            parts_in_s(old(state).soldier_parts, old(self).num as int, FX_LIM as int),
        ensures
            *final(self) == *old(self),
            state_wf(*final(state)),
            final(state).map == old(state).map,
            final(state).soldier_parts.pos@.len() == old(state).soldier_parts.pos@.len(),
            final(state).soldier_parts.pos@ == old(state).soldier_parts.pos@.update(
                old(self).num as int,
                final(state).soldier_parts.pos@[old(self).num as int],
            ),
            final(state).soldier_parts.old_pos@ == old(state).soldier_parts.old_pos@.update(
                old(self).num as int,
                final(state).soldier_parts.old_pos@[old(self).num as int],
            ),
            final(state).soldier_parts.velocity@ == old(state).soldier_parts.velocity@.update(
                old(self).num as int,
                final(state).soldier_parts.velocity@[old(self).num as int],
            ),
            final(state).soldier_parts.forces@ == old(state).soldier_parts.forces@.update(
                old(self).num as int,
                final(state).soldier_parts.forces@[old(self).num as int],
            ),
            parts_in_s(final(state).soldier_parts, old(self).num as int, 64 * (FX_LIM as int)),
            old(state).map.polygons@.len() == 0 ==> final(state).soldier_parts == old(
                state,
            ).soldier_parts,
            walls_rel(
                old(state).map,
                old(self).legs_animation,
                old(self).control,
                old(self).num as int,
                old(state).soldier_parts,
                final(state).soldier_parts,
            ),
    {
        let num = self.num;
        let ghost m0 = state.map;
        let ghost p0 = state.soldier_parts;
        let p1 = state.soldier_parts.pos[num];
        let v1 = state.soldier_parts.velocity[num];
        let w1 = self.check_map_collision(state, p1.x - 35000, p1.y - 12 * FX_ONE, 1);
        let ghost pmw = state.soldier_parts;
        let p2 = state.soldier_parts.pos[num];
        let v2 = state.soldier_parts.velocity[num];
        let w2 = self.check_map_collision(state, p2.x + 35000, p2.y - 12 * FX_ONE, 1);
        proof {
            if m0.polygons@.len() == 0 {
                crate::map::lemma_empty_map_lists(m0, p1.x - 35000 + v1.x, p1.y - 12 * (
                FX_ONE as int) + v1.y);
                assert(!w1);
                crate::map::lemma_empty_map_lists(m0, p2.x + 35000 + v2.x, p2.y - 12 * (
                FX_ONE as int) + v2.y);
                assert(!w2);
                assert(state.soldier_parts == p0);
            }
            let ni = old(self).num as int;
            assert(state.soldier_parts.pos@ =~= old(state).soldier_parts.pos@.update(
                ni,
                state.soldier_parts.pos@[ni],
            ));
            assert(state.soldier_parts.old_pos@ =~= old(state).soldier_parts.old_pos@.update(
                ni,
                state.soldier_parts.old_pos@[ni],
            ));
            assert(state.soldier_parts.velocity@ =~= old(state).soldier_parts.velocity@.update(
                ni,
                state.soldier_parts.velocity@[ni],
            ));
            assert(state.soldier_parts.forces@ =~= old(state).soldier_parts.forces@.update(
                ni,
                state.soldier_parts.forces@[ni],
            ));
            assert(area_step_rel(m0, p1.x - 35000, p1.y - 12 * (FX_ONE as int), 1,
            old(self).legs_animation, old(self).control, ni, p0, pmw, w1));
            assert(area_step_rel(m0, pmw.pos@[ni].x + 35000, pmw.pos@[ni].y - 12 * (
            FX_ONE as int), 1, old(self).legs_animation, old(self).control, ni, pmw,
            state.soldier_parts, w2));
            assert(walls_rel(m0, old(self).legs_animation, old(self).control, ni, p0,
            state.soldier_parts));
        }
    }
}

impl Soldier {
    /// All map probes of one living tick: two wall-style area probes above
    /// the shoulders, two ground probes under the feet (offset a quarter
    /// unit toward the side that is not stepping), the radius sweep, and
    /// the vertex probe. Returns the combined ground flag and the sweep's.
    #[verifier::rlimit(100)]
    #[verifier::spinoff_prover]
    fn probe_contacts(&mut self, state: &mut MainState) -> (r: (bool, bool))
        requires
            state_wf(*old(state)),
            soldier_wf(*old(self)),
            old(self).num < old(state).soldier_parts.pos@.len(),
            parts_in_s(old(state).soldier_parts, old(self).num as int, 64 * (FX_LIM as int)),
        ensures
            *final(self) == *old(self),
            state_wf(*final(state)),
            final(state).map == old(state).map,
            final(state).soldier_parts.pos@.len() == old(state).soldier_parts.pos@.len(),
            final(state).soldier_parts.pos@ == old(state).soldier_parts.pos@.update(
                old(self).num as int,
                final(state).soldier_parts.pos@[old(self).num as int],
            ),
            final(state).soldier_parts.old_pos@ == old(state).soldier_parts.old_pos@.update(
                old(self).num as int,
                final(state).soldier_parts.old_pos@[old(self).num as int],
            ),
            final(state).soldier_parts.velocity@ == old(state).soldier_parts.velocity@.update(
                old(self).num as int,
                final(state).soldier_parts.velocity@[old(self).num as int],
            ),
            final(state).soldier_parts.forces@ == old(state).soldier_parts.forces@.update(
                old(self).num as int,
                final(state).soldier_parts.forces@[old(self).num as int],
            ),
            old(state).map.polygons@.len() == 0 ==> final(state).soldier_parts == old(
                state,
            ).soldier_parts && !r.0 && !r.1,
            parts_in_s(
                final(state).soldier_parts,
                old(self).num as int,
                0x400_0000_0000_0000,
            ),
            contacts_rel(
                old(state).map,
                old(self).legs_animation,
                old(self).control,
                old(self).num as int,
                old(state).soldier_parts,
                final(state).soldier_parts,
                r.0,
                r.1,
            ),
    {
        let num = self.num;
        let ghost m0 = state.map;
        let ghost p0 = state.soldier_parts;
        // Adaptive nudges keep ground contact on slopes: the side that is
        // not already stepping probes a quarter unit higher.
        let mut bys: i64 = 0;
        let mut arm_s: i64 = 0;
        if self.control.left != self.control.right {
            if self.control.left != (self.direction == 1) {
                arm_s = 2500;
            } else {
                bys = 2500;
            }
        }
        if bys == 0 {
            bys = 2500;
        }
        if arm_s == 0 {
            arm_s = 2500;
        }

        let p3 = state.soldier_parts.pos[num];
        let v3 = state.soldier_parts.velocity[num];
        proof {
            assert(bys == 2500 && arm_s == 2500);
        }
        let g1 = self.check_map_collision(state, p3.x + 2 * FX_ONE, p3.y + 2 * FX_ONE - bys, 0);
        let ghost pga = state.soldier_parts;
        let mut og: bool = g1;
        let p4 = state.soldier_parts.pos[num];
        let v4 = state.soldier_parts.velocity[num];
        let g2 = self.check_map_collision(state, p4.x - 2 * FX_ONE, p4.y + 2 * FX_ONE - arm_s, 0);
        let ghost pgb = state.soldier_parts;
        og = og || g2;
        let p5 = state.soldier_parts.pos[num];
        let v5 = state.soldier_parts.velocity[num];
        let grounded = og;
        let gl = self.check_radius_map_collision(state, p5.x, p5.y, grounded);
        let ghost pgc = state.soldier_parts;
        let v6 = state.soldier_parts.velocity[num];
        let grounded2 = og || gl;
        let gv = self.check_map_vertices_collision(state, p5.x, p5.y, 3 * FX_ONE, grounded2);
        og = gv || og;

        proof {
            if m0.polygons@.len() == 0 {
                crate::map::lemma_empty_map_lists(m0, p3.x + 2 * (FX_ONE as int) + v3.x, p3.y + 2
                    * (FX_ONE as int) - bys + v3.y);
                assert(!g1);
                crate::map::lemma_empty_map_lists(m0, p4.x - 2 * (FX_ONE as int) + v4.x, p4.y + 2
                    * (FX_ONE as int) - arm_s + v4.y);
                assert(!g2);
                assert forall|z: int|
                    !(0 <= z < sweep_da_s(v5) && #[trigger] cell_any_hit_s(
                        m0,
                        sweep_pos_x_s(p5.x as int, v5, z),
                        sweep_pos_y_s(p5.y as int, v5, z),
                    )) by {
                    crate::map::lemma_empty_map_lists(
                        m0,
                        sweep_pos_x_s(p5.x as int, v5, z),
                        sweep_pos_y_s(p5.y as int, v5, z),
                    );
                }
                assert(!gl);
                crate::map::lemma_empty_map_lists(m0, p5.x + v6.x, p5.y + v6.y);
                assert(!gv);
                assert(state.soldier_parts == p0);
            }
        }
        proof {
            let ni = old(self).num as int;
            assert(state.soldier_parts.pos@ =~= old(state).soldier_parts.pos@.update(
                ni,
                state.soldier_parts.pos@[ni],
            ));
            assert(state.soldier_parts.old_pos@ =~= old(state).soldier_parts.old_pos@.update(
                ni,
                state.soldier_parts.old_pos@[ni],
            ));
            assert(state.soldier_parts.velocity@ =~= old(state).soldier_parts.velocity@.update(
                ni,
                state.soldier_parts.velocity@[ni],
            ));
            assert(state.soldier_parts.forces@ =~= old(state).soldier_parts.forces@.update(
                ni,
                state.soldier_parts.forces@[ni],
            ));
            assert(area_step_rel(m0, p0.pos@[ni].x + 2 * (FX_ONE as int), p0.pos@[ni].y + 2 * (
            FX_ONE as int) - 2500, 0, old(self).legs_animation, old(self).control, ni, p0, pga,
            g1));
            assert(area_step_rel(m0, pga.pos@[ni].x - 2 * (FX_ONE as int), pga.pos@[ni].y + 2 * (
            FX_ONE as int) - 2500, 0, old(self).legs_animation, old(self).control, ni, pga, pgb,
            g2));
            assert(sweep_step_rel(m0, pgb.pos@[ni].x as int, pgb.pos@[ni].y as int, ni, pgb, pgc,
            gl));
            assert(vert_step_rel(m0, pgb.pos@[ni].x as int, pgb.pos@[ni].y as int, 3 * (
            FX_ONE as int), (g1 || g2) || gl, ni, pgc, state.soldier_parts, gv));
            assert(contacts_rel(m0, old(self).legs_animation, old(self).control, ni, p0,
            state.soldier_parts, gv || (g1 || g2), gl));
            assert(og == (gv || (g1 || g2)));
        }
        (og, gl)
    }
}

impl Soldier {
    /// The living soldier's part of the tick: advance both animation
    /// tracks, probe the map for wall and ground contact, settle the
    /// ground-contact hysteresis, count jet fuel back up, and integrate
    /// the secondary-motion joints.
    #[verifier::rlimit(100)]
    #[verifier::spinoff_prover]
    fn tick_alive(&mut self, state: &mut MainState)
        requires
            state_wf(*old(state)),
            soldier_wf(*old(self)),
            !old(self).dead_meat,
            old(self).num < old(state).soldier_parts.pos@.len(),
            parts_in_s(old(state).soldier_parts, old(self).num as int, FX_LIM as int),
            sk_in(old(self).skeleton, 64 * (FX_LIM as int)),
        ensures
            soldier_wf(*final(self)),
            state_wf(*final(state)),
            final(state).map == old(state).map,
            final(state).soldier_parts.pos@.len() == old(state).soldier_parts.pos@.len(),
            final(state).soldier_parts.pos@ == old(state).soldier_parts.pos@.update(
                old(self).num as int,
                final(state).soldier_parts.pos@[old(self).num as int],
            ),
            final(state).soldier_parts.old_pos@ == old(state).soldier_parts.old_pos@.update(
                old(self).num as int,
                final(state).soldier_parts.old_pos@[old(self).num as int],
            ),
            final(state).soldier_parts.velocity@ == old(state).soldier_parts.velocity@.update(
                old(self).num as int,
                final(state).soldier_parts.velocity@[old(self).num as int],
            ),
            final(state).soldier_parts.forces@ == old(state).soldier_parts.forces@.update(
                old(self).num as int,
                final(state).soldier_parts.forces@[old(self).num as int],
            ),
            *final(self) == (Soldier {
                on_ground: final(self).on_ground,
                on_ground_for_law: final(self).on_ground_for_law,
                on_ground_last_frame: final(self).on_ground_last_frame,
                on_ground_permanent: final(self).on_ground_permanent,
                jets_count: final(self).jets_count,
                alpha: final(self).alpha,
                skeleton: final(self).skeleton,
                legs_animation: final(self).legs_animation,
                body_animation: final(self).body_animation,
                ..*old(self)
            }),
            final(self).on_ground_permanent == (if final(self).on_ground == old(
                self,
            ).on_ground_last_frame {
                final(self).on_ground
            } else {
                old(self).on_ground_permanent
            }),
            final(self).on_ground_last_frame == final(self).on_ground,
            final(self).jets_count as int == (if old(self).jets_count < old(state).map.start_jet
                && !old(self).control.jets {
                old(self).jets_count + 1int
            } else {
                old(self).jets_count as int
            }),
            final(self).alpha == 255,
            final(self).legs_animation == (Animation {
                curr_frame: final(self).legs_animation.curr_frame,
                ..old(self).legs_animation
            }),
            final(self).legs_animation.curr_frame as int == advance_s(old(self).legs_animation),
            final(self).body_animation == (Animation {
                curr_frame: final(self).body_animation.curr_frame,
                ..old(self).body_animation
            }),
            final(self).body_animation.curr_frame as int == advance_s(old(self).body_animation),
            old(state).map.polygons@.len() == 0 ==> final(state).soldier_parts == old(
                state,
            ).soldier_parts,
            parts_in_s(
                final(state).soldier_parts,
                old(self).num as int,
                0x400_0000_0000_0000,
            ),
            sk_in(final(self).skeleton, 0x2000_0000_0000_0000),
            tick_probes_rel(
                old(state).map,
                final(self).legs_animation,
                old(self).control,
                old(self).num as int,
                old(state).soldier_parts,
                final(state).soldier_parts,
                final(self).on_ground,
                final(self).on_ground_for_law,
            ),
            exists|skm: ParticleSystem|
                #[trigger] verlet_rel(22, 29, old(self).skeleton, skm) && verlet_rel(
                    24,
                    30,
                    skm,
                    final(self).skeleton,
                ),
    {
        let num = self.num;
        let ghost m0 = state.map;
        let ghost p0 = state.soldier_parts;
        self.body_animation.do_animation();
        self.legs_animation.do_animation();
        self.on_ground = false;

        self.probe_walls(state);
        let ghost pmw = state.soldier_parts;
        let contacts = self.probe_contacts(state);
        self.on_ground = contacts.0;
        self.on_ground_for_law = contacts.1;
        proof {
            let ni = old(self).num as int;
            assert(walls_rel(m0, self.legs_animation, old(self).control, ni, p0, pmw));
            assert(contacts_rel(m0, self.legs_animation, old(self).control, ni, pmw,
            state.soldier_parts, contacts.0, contacts.1));
            assert(tick_probes_rel(m0, self.legs_animation, old(self).control, ni, p0,
            state.soldier_parts, contacts.0, contacts.1));
        }

        // Two-tick agreement settles the stable ground flag.
        if !(self.on_ground != self.on_ground_last_frame) {
            self.on_ground_permanent = self.on_ground;
        }
        self.on_ground_last_frame = self.on_ground;

        if self.jets_count < state.map.start_jet && !self.control.jets {
            self.jets_count = self.jets_count + 1;
        }
        self.alpha = 255;

        let ghost pre_v = *self;
        proof {
            crate::parts::lemma_sk_widen(
                self.skeleton,
                64 * (FX_LIM as int),
                32 * (SK_LIM as int),
            );
        }
        self.skeleton.do_verlet_timestep_for(22, 29);
        proof {
            assert forall|j: int|
                0 <= j < NUM_JOINTS implies abs_s(
                (#[trigger] self.skeleton.pos@[j]).x as int,
            ) <= 256 * (FX_LIM as int) && abs_s(self.skeleton.pos@[j].y as int) <= 256 * (
            FX_LIM as int) && abs_s(self.skeleton.old_pos@[j].x as int) <= 256 * (FX_LIM as int)
                && abs_s(self.skeleton.old_pos@[j].y as int) <= 256 * (FX_LIM as int) by {
                assert(abs_s((pre_v.skeleton.pos@[j]).x as int) <= 64 * (FX_LIM as int));
                assert(abs_s((pre_v.skeleton.old_pos@[j]).x as int) <= 64 * (FX_LIM as int));
                if 22 <= j <= 29 && pre_v.skeleton.active@[j] {
                    lemma_fx_mul_abs(
                        pre_v.skeleton.pos@[j].x - pre_v.skeleton.old_pos@[j].x,
                        pre_v.skeleton.v_damping as int,
                        128 * (FX_LIM as int),
                        FX_ONE as int,
                    );
                    lemma_fx_mul_abs(
                        pre_v.skeleton.pos@[j].y - pre_v.skeleton.old_pos@[j].y,
                        pre_v.skeleton.v_damping as int,
                        128 * (FX_LIM as int),
                        FX_ONE as int,
                    );
                    assert((128 * (FX_LIM as int) * (FX_ONE as int)) / (FX_ONE as int) == 128 * (
                    FX_LIM as int)) by (nonlinear_arith);
                    assert(self.skeleton.pos@[j].x as int == verlet_x_s(
                        pre_v.skeleton.pos@[j].x as int,
                        pre_v.skeleton.old_pos@[j].x as int,
                        pre_v.skeleton.v_damping as int,
                    ));
                } else {
                    assert(self.skeleton.pos@[j] == pre_v.skeleton.pos@[j]);
                    assert(self.skeleton.old_pos@[j] == pre_v.skeleton.old_pos@[j]);
                }
            }
            assert(sk_in(self.skeleton, 32 * (SK_LIM as int)));
        }
        let ghost g_skm = self.skeleton;
        self.skeleton.do_verlet_timestep_for(24, 30);
        proof {
            assert(verlet_rel(22, 29, pre_v.skeleton, g_skm) && verlet_rel(
                24,
                30,
                g_skm,
                self.skeleton,
            ));
        }
    }
}


/// The ragdoll pass of a living tick: run only while half-dead, else the
/// skeleton and the ground flag pass through unchanged.
pub open spec fn half_ragdoll_rel(
    half_dead: bool,
    m: MapData,
    px: int,
    py: int,
    sk0: ParticleSystem,
    sk1: ParticleSystem,
    og0: bool,
    og1: bool,
) -> bool {
    if half_dead {
        ragdoll_rel(m, px, py, sk0, sk1, og1)
    } else {
        sk1 == sk0 && og1 == og0
    }
}

/// The living tick, as one relation between the old and new soldier and
/// store states: the secondary-motion anchors follow the torso, the pose
/// is placed and aim-corrected, a half-dead skeleton is pushed out of the
/// map, all map probes run in order, the secondary-motion joints take two
/// verlet passes, and the store's velocity is clamped at the end.
pub open spec fn update_alive_rel(
    m: MapData,
    s0: Soldier,
    s1: Soldier,
    p0: ParticleStore,
    p1: ParticleStore,
) -> bool {
    exists|
        sk1: ParticleSystem,
        sk2: ParticleSystem,
        sk3: ParticleSystem,
        sk4: ParticleSystem,
        skr: ParticleSystem,
        ogd: bool,
        pend: ParticleStore,
    |
        {
            &&& #[trigger] anchor_rel(p0.velocity@[s0.num as int], true, s0.skeleton, sk1)
            &&& #[trigger] pose_rel(
                s0.half_dead,
                s1.direction,
                s0.legs_animation,
                s0.body_animation,
                p0.pos@[s0.num as int],
                body_y_s(s0.position, s0.body_animation),
                sk1,
                sk2,
            )
            &&& #[trigger] hand_rel(
                s1.direction,
                s0.control.mouse_aim_x as int,
                s0.control.mouse_aim_y as int,
                sk2,
                sk3,
            )
            &&& #[trigger] arms_rel(
                s0.body_animation.kind,
                s0.control.mouse_aim_x as int,
                s0.control.mouse_aim_y as int,
                sk3,
                sk4,
            )
            &&& #[trigger] half_ragdoll_rel(
                s0.half_dead,
                m,
                p0.pos@[s0.num as int].x as int,
                p0.pos@[s0.num as int].y as int,
                sk4,
                skr,
                s0.on_ground,
                ogd,
            )
            &&& exists|skm: ParticleSystem|
                #[trigger] verlet_rel(22, 29, skr, skm) && verlet_rel(24, 30, skm, s1.skeleton)
            &&& #[trigger] tick_probes_rel(
                m,
                s1.legs_animation,
                s0.control,
                s0.num as int,
                p0,
                pend,
                s1.on_ground,
                s1.on_ground_for_law,
            )
            &&& p1.pos@ == pend.pos@
            &&& p1.old_pos@ == pend.old_pos@
            &&& p1.forces@ == pend.forces@
            &&& p1.velocity@ == pend.velocity@.update(
                s0.num as int,
                p1.velocity@[s0.num as int],
            )
            &&& p1.velocity@[s0.num as int].x as int == clamp_s(
                pend.velocity@[s0.num as int].x as int,
            )
            &&& p1.velocity@[s0.num as int].y as int == clamp_s(
                pend.velocity@[s0.num as int].y as int,
            )
        }
}

/// The ragdoll tick, as one relation between the old and new soldier and
/// store states: the secondary-motion anchors reset onto the torso, every
/// probed joint is pushed out of the map, the whole skeleton takes one
/// verlet step, the store position follows the designated torso joint,
/// and the store's velocity is clamped at the end.
pub open spec fn update_dead_rel(
    m: MapData,
    s0: Soldier,
    s1: Soldier,
    p0: ParticleStore,
    p1: ParticleStore,
) -> bool {
    exists|sk1: ParticleSystem, skd: ParticleSystem|
        {
            &&& #[trigger] anchor_rel(p0.velocity@[s0.num as int], false, s0.skeleton, sk1)
            &&& #[trigger] ragdoll_rel(
                m,
                p0.pos@[s0.num as int].x as int,
                p0.pos@[s0.num as int].y as int,
                sk1,
                skd,
                s1.on_ground,
            )
            &&& verlet_rel(1, 30, skd, s1.skeleton)
            &&& p1.old_pos@ == p0.old_pos@
            &&& p1.forces@ == p0.forces@
            &&& p1.pos@ == p0.pos@.update(s0.num as int, s1.skeleton.pos@[12])
            &&& p1.velocity@ == p0.velocity@.update(
                s0.num as int,
                p1.velocity@[s0.num as int],
            )
            &&& p1.velocity@[s0.num as int].x as int == clamp_s(
                p0.velocity@[s0.num as int].x as int,
            )
            &&& p1.velocity@[s0.num as int].y as int == clamp_s(
                p0.velocity@[s0.num as int].y as int,
            )
        }
}

impl Soldier {
    /// One fixed simulation tick: face the aim target, place the pose,
    /// aim-correct, probe the map for wall and ground contact (area probes,
    /// radius sweep, vertex probe), settle the ground-contact hysteresis,
    /// count jet fuel back up, integrate the secondary-motion joints — or,
    /// for a ragdoll, verlet-integrate the whole skeleton and follow its
    /// torso joint — and clamp the resulting velocity.
    #[verifier::rlimit(100)]
    #[verifier::spinoff_prover]
    pub fn update(&mut self, state: &mut MainState)
        requires
            state_wf(*old(state)),
            soldier_wf(*old(self)),
            old(self).num < old(state).soldier_parts.pos@.len(),
            parts_in_s(old(state).soldier_parts, old(self).num as int, FX_LIM as int),
            sk_in(old(self).skeleton, FX_LIM as int),
            abs_s(old(self).control.mouse_aim_x as int) <= FX_LIM as int,
            abs_s(old(self).control.mouse_aim_y as int) <= FX_LIM as int,
        ensures
            soldier_wf(*final(self)),
            state_wf(*final(state)),
            final(state).map == old(state).map,
            final(state).soldier_parts.pos@.len() == old(state).soldier_parts.pos@.len(),
            final(state).soldier_parts.pos@ == old(state).soldier_parts.pos@.update(
                old(self).num as int,
                final(state).soldier_parts.pos@[old(self).num as int],
            ),
            final(state).soldier_parts.old_pos@ == old(state).soldier_parts.old_pos@.update(
                old(self).num as int,
                final(state).soldier_parts.old_pos@[old(self).num as int],
            ),
            final(state).soldier_parts.velocity@ == old(state).soldier_parts.velocity@.update(
                old(self).num as int,
                final(state).soldier_parts.velocity@[old(self).num as int],
            ),
            final(state).soldier_parts.forces@ == old(state).soldier_parts.forces@.update(
                old(self).num as int,
                final(state).soldier_parts.forces@[old(self).num as int],
            ),
            *final(self) == (Soldier {
                direction: final(self).direction,
                on_ground: final(self).on_ground,
                on_ground_for_law: final(self).on_ground_for_law,
                on_ground_last_frame: final(self).on_ground_last_frame,
                on_ground_permanent: final(self).on_ground_permanent,
                jets_count: final(self).jets_count,
                alpha: final(self).alpha,
                skeleton: final(self).skeleton,
                legs_animation: final(self).legs_animation,
                body_animation: final(self).body_animation,
                ..*old(self)
            }),
            final(self).direction as int == (if old(self).control.mouse_aim_x >= old(state).soldier_parts.pos@[old(self).num as int].x {
                1int
            } else {
                -1int
            }),
            -MAX_VELOCITY <= final(state).soldier_parts.velocity@[old(self).num as int].x
                <= MAX_VELOCITY,
            -MAX_VELOCITY <= final(state).soldier_parts.velocity@[old(self).num as int].y
                <= MAX_VELOCITY,
            !old(self).dead_meat ==> final(self).on_ground_permanent == (if final(self).on_ground
                == old(self).on_ground_last_frame {
                final(self).on_ground
            } else {
                old(self).on_ground_permanent
            }),
            !old(self).dead_meat ==> final(self).on_ground_last_frame == final(self).on_ground,
            final(self).on_ground_permanent != old(self).on_ground_permanent ==> final(self).on_ground == old(self).on_ground_last_frame,
            !old(self).dead_meat ==> final(self).jets_count as int == (if old(self).jets_count < old(state).map.start_jet && !old(self).control.jets {
                old(self).jets_count + 1int
            } else {
                old(self).jets_count as int
            }),
            !old(self).dead_meat ==> final(self).alpha == 255,
            old(self).dead_meat ==> final(self).on_ground_permanent == old(self).on_ground_permanent && final(self).on_ground_last_frame == old(self).on_ground_last_frame && final(self).jets_count == old(self).jets_count && final(self).legs_animation == old(self).legs_animation && final(self).body_animation == old(self).body_animation,
            !old(self).dead_meat ==> final(self).legs_animation == (Animation {
                curr_frame: final(self).legs_animation.curr_frame,
                ..old(self).legs_animation
            }) && final(self).legs_animation.curr_frame as int == advance_s(
                old(self).legs_animation,
            ) && final(self).body_animation == (Animation {
                curr_frame: final(self).body_animation.curr_frame,
                ..old(self).body_animation
            }) && final(self).body_animation.curr_frame as int == advance_s(
                old(self).body_animation,
            ),
            !old(self).dead_meat && old(state).map.polygons@.len() == 0 ==> final(state).soldier_parts.pos@[old(self).num as int] == old(state).soldier_parts.pos@[old(self).num as int] && final(state).soldier_parts.velocity@[old(self).num as int].x as int
                == clamp_s(
                old(state).soldier_parts.velocity@[old(self).num as int].x as int,
            ) && final(state).soldier_parts.velocity@[old(self).num as int].y as int == clamp_s(
                old(state).soldier_parts.velocity@[old(self).num as int].y as int,
            ),
            !old(self).dead_meat ==> update_alive_rel(
                old(state).map,
                *old(self),
                *final(self),
                old(state).soldier_parts,
                final(state).soldier_parts,
            ),
            old(self).dead_meat ==> update_dead_rel(
                old(state).map,
                *old(self),
                *final(self),
                old(state).soldier_parts,
                final(state).soldier_parts,
            ),
            parts_in_s(final(state).soldier_parts, old(self).num as int, 0x2000_0000_0000_0000),
            sk_in(final(self).skeleton, 0x2000_0000_0000_0000),
    {
        let num = self.num;
        let ghost m0 = state.map;
        let ghost p0 = state.soldier_parts;

        // Secondary-motion anchors follow the torso joints, carried along
        // by the soldier's velocity while alive.
        let vel0 = state.soldier_parts.velocity[num];
        let alive = !self.dead_meat;
        self.anchor_shoulders(vel0, alive);
        let ghost g_sk1 = self.skeleton;

        // Stance- and animation-dependent body anchor height.
        let mut body_y: i64 = 0;
        if self.position == POS_STAND {
            body_y = 8 * FX_ONE;
        } else if self.position == POS_CROUCH {
            body_y = 9 * FX_ONE;
        } else if self.position == POS_PRONE {
            if self.body_animation.kind == AnimKind::Prone {
                if self.body_animation.curr_frame > 9 {
                    body_y = -2 * FX_ONE;
                } else {
                    body_y = (14 - self.body_animation.curr_frame as i64) * FX_ONE;
                }
            } else {
                body_y = 9 * FX_ONE;
            }
            if self.body_animation.kind == AnimKind::ProneMove {
                body_y = 0;
            }
        }
        if self.body_animation.kind == AnimKind::GetUp {
            if self.body_animation.curr_frame > 18 {
                body_y = 8 * FX_ONE;
            } else {
                body_y = 4 * FX_ONE;
            }
        }

        // Face the aim target.
        let pos0 = state.soldier_parts.pos[num];
        if self.control.mouse_aim_x >= pos0.x {
            self.direction = 1;
        } else {
            self.direction = -1;
        }

        proof {
            assert(abs_s(body_y as int) <= FX_LIM as int);
        }
        let ghost mut g_sk2 = self.skeleton;
        let ghost mut g_sk3 = self.skeleton;
        let ghost mut g_sk4 = self.skeleton;
        if !self.dead_meat {
            self.place_pose(pos0, body_y);
            proof {
                g_sk2 = self.skeleton;
            }
            self.aim_hand(self.control.mouse_aim_x, self.control.mouse_aim_y);
            proof {
                g_sk3 = self.skeleton;
            }
            self.aim_correct_arms(self.control.mouse_aim_x, self.control.mouse_aim_y);
            proof {
                g_sk4 = self.skeleton;
            }
        }

        proof {
            if !self.dead_meat {
                crate::parts::lemma_sk_widen(
                    self.skeleton,
                    20 * (FX_LIM as int),
                    64 * (FX_LIM as int),
                );
            } else {
                crate::parts::lemma_sk_widen(
                    self.skeleton,
                    2 * (FX_LIM as int),
                    64 * (FX_LIM as int),
                );
            }
        }
        let ghost mut g_skr = self.skeleton;
        let ghost mut g_ogr = self.on_ground;
        // Push ragdoll joints out of the map.
        if self.dead_meat || self.half_dead {
            proof {
                assert forall|j: int|
                    0 <= j < NUM_JOINTS implies abs_s(
                    (#[trigger] self.skeleton.old_pos@[j]).x as int,
                ) <= 20 * (FX_LIM as int) && abs_s(self.skeleton.old_pos@[j].y as int) <= 20 * (
                FX_LIM as int) by {
                    if !self.dead_meat {
                        assert(abs_s((self.skeleton.pos@[j]).x as int) <= 20 * (FX_LIM as int));
                    } else {
                        assert(abs_s((self.skeleton.pos@[j]).x as int) <= 2 * (FX_LIM as int));
                    }
                }
            }
            let ghost smid = *self;
            let mut i: usize = 1;
            while i < 20
                invariant
                    state_wf(*state),
                    soldier_wf(*self),
                    state.map == m0,
                    m0 == old(state).map,
                    state.soldier_parts == p0,
                    num == self.num,
                    num < p0.pos@.len(),
                    1 <= i <= 20,
                    *self == (Soldier {
                        skeleton: self.skeleton,
                        on_ground: self.on_ground,
                        ..smid
                    }),
                    soldier_wf(smid),
                    smid.num == num,
                    p0 == old(state).soldier_parts,
                    sk_in(self.skeleton, 64 * (FX_LIM as int)),
                    forall|j: int|
                        0 <= j < NUM_JOINTS ==> abs_s(
                            (#[trigger] self.skeleton.old_pos@[j]).x as int,
                        ) <= 20 * (FX_LIM as int) && abs_s(self.skeleton.old_pos@[j].y as int) <= 20
                            * (FX_LIM as int),
                    parts_in_s(p0, num as int, FX_LIM as int),
                    pos0 == p0.pos@[num as int],
                    self.skeleton.old_pos == smid.skeleton.old_pos,
                    self.skeleton.active == smid.skeleton.active,
                    self.skeleton.gravity == smid.skeleton.gravity,
                    self.skeleton.v_damping == smid.skeleton.v_damping,
                    self.skeleton.pos@.len() == smid.skeleton.pos@.len(),
                    forall|j: int|
                        0 <= j < NUM_JOINTS && !(ragdoll_joint_s(j) && j < i) ==> (
                        #[trigger] self.skeleton.pos@[j]) == smid.skeleton.pos@[j],
                    forall|j: int|
                        ragdoll_joint_s(j) && j < i ==> ((skel_any_hit_s(
                            m0,
                            pos0.x as int,
                            pos0.y + FX_ONE,
                        ) ==> skel_probe_result_s(
                            m0,
                            pos0.x as int,
                            pos0.y + FX_ONE,
                            sector_list_s(m0, pos0.x as int, pos0.y + FX_ONE).len() as int,
                            smid.skeleton.old_pos@[j],
                            (#[trigger] self.skeleton.pos@[j]),
                        )) && (!skel_any_hit_s(m0, pos0.x as int, pos0.y + FX_ONE)
                            && skel_any_hit_s(
                            m0,
                            pos0.x - FX_ONE,
                            pos0.y + 4 * (FX_ONE as int),
                        ) ==> skel_probe_result_s(
                            m0,
                            pos0.x - FX_ONE,
                            pos0.y + 4 * (FX_ONE as int),
                            sector_list_s(
                                m0,
                                pos0.x - FX_ONE,
                                pos0.y + 4 * (FX_ONE as int),
                            ).len() as int,
                            smid.skeleton.old_pos@[j],
                            self.skeleton.pos@[j],
                        )) && (!skel_any_hit_s(m0, pos0.x - FX_ONE, pos0.y + 4 * (FX_ONE as int))
                            && !skel_any_hit_s(m0, pos0.x as int, pos0.y + FX_ONE)
                            ==> self.skeleton.pos@[j] == smid.skeleton.pos@[j])),
                    i > 1 ==> self.on_ground == (skel_any_hit_s(
                        m0,
                        pos0.x - FX_ONE,
                        pos0.y + 4 * (FX_ONE as int),
                    ) || skel_any_hit_s(m0, pos0.x as int, pos0.y + FX_ONE)),
                    i == 1 ==> self.on_ground == smid.on_ground,
                decreases 20 - i,
            {
                if !(i == 17 || i == 18 || i == 19 || i == 20 || i == 8 || i == 7) {
                    let sp = state.soldier_parts.pos[num];
                    let ghost skp = *self;
                    proof {
                        crate::parts::lemma_sk_widen(
                            self.skeleton,
                            64 * (FX_LIM as int),
                            24 * (SK_LIM as int),
                        );
                    }
                    let hit = self.check_skeleton_map_collision(state, i, sp.x, sp.y);
                    self.on_ground = hit;
                    proof {
                        assert forall|j: int|
                            0 <= j < NUM_JOINTS implies abs_s(
                            (#[trigger] self.skeleton.pos@[j]).x as int,
                        ) <= 64 * (FX_LIM as int) && abs_s(self.skeleton.pos@[j].y as int) <= 64 * (
                        FX_LIM as int) && abs_s(self.skeleton.old_pos@[j].x as int) <= 64 * (
                        FX_LIM as int) && abs_s(self.skeleton.old_pos@[j].y as int) <= 64 * (
                        FX_LIM as int) by {
                            assert(abs_s((skp.skeleton.pos@[j]).x as int) <= 64 * (FX_LIM as int));
                            if j != i as int {
                                assert(self.skeleton.pos@[j] == skp.skeleton.pos@[j]);
                            }
                        }
                        assert(sk_in(self.skeleton, 64 * (FX_LIM as int)));
                    }
                }
                i = i + 1;
            }
            proof {
                g_skr = self.skeleton;
                g_ogr = self.on_ground;
                assert(ragdoll_rel(
                    m0,
                    pos0.x as int,
                    pos0.y as int,
                    smid.skeleton,
                    self.skeleton,
                    self.on_ground,
                ));
            }
        }

        let ghost g_sk_pre_tick = self.skeleton;
        if !self.dead_meat {
            self.tick_alive(state);
        }
        let ghost g_pend = state.soldier_parts;

        if self.dead_meat {
            proof {
                if self.half_dead {
                    crate::parts::lemma_sk_widen(
                        self.skeleton,
                        64 * (FX_LIM as int),
                        32 * (SK_LIM as int),
                    );
                } else {
                    crate::parts::lemma_sk_widen(
                        self.skeleton,
                        64 * (FX_LIM as int),
                        32 * (SK_LIM as int),
                    );
                }
            }
            self.skeleton.do_verlet_timestep();
            let anchor = self.skeleton.pos[12];
            state.soldier_parts.pos.set(num, anchor);
        }

        let velf = state.soldier_parts.velocity[num];
        let cvx = Self::clamp_component(velf.x);
        let cvy = Self::clamp_component(velf.y);
        state.soldier_parts.velocity.set(num, Vec2 { x: cvx, y: cvy });

        proof {
            let ni = old(self).num as int;
            assert(state.soldier_parts.pos@ =~= old(state).soldier_parts.pos@.update(
                ni,
                state.soldier_parts.pos@[ni],
            ));
            assert(state.soldier_parts.old_pos@ =~= old(state).soldier_parts.old_pos@.update(
                ni,
                state.soldier_parts.old_pos@[ni],
            ));
            assert(state.soldier_parts.velocity@ =~= old(state).soldier_parts.velocity@.update(
                ni,
                state.soldier_parts.velocity@[ni],
            ));
            assert(state.soldier_parts.forces@ =~= old(state).soldier_parts.forces@.update(
                ni,
                state.soldier_parts.forces@[ni],
            ));
            if !old(self).dead_meat {
                let skr_w: ParticleSystem = if old(self).half_dead {
                    g_skr
                } else {
                    g_sk4
                };
                let ogd_w: bool = if old(self).half_dead {
                    g_ogr
                } else {
                    old(self).on_ground
                };
                assert(anchor_rel(p0.velocity@[ni], true, old(self).skeleton, g_sk1));
                assert(pose_rel(
                    old(self).half_dead,
                    self.direction,
                    old(self).legs_animation,
                    old(self).body_animation,
                    p0.pos@[ni],
                    body_y_s(old(self).position, old(self).body_animation),
                    g_sk1,
                    g_sk2,
                ));
                assert(hand_rel(
                    self.direction,
                    old(self).control.mouse_aim_x as int,
                    old(self).control.mouse_aim_y as int,
                    g_sk2,
                    g_sk3,
                ));
                assert(arms_rel(
                    old(self).body_animation.kind,
                    old(self).control.mouse_aim_x as int,
                    old(self).control.mouse_aim_y as int,
                    g_sk3,
                    g_sk4,
                ));
                if old(self).half_dead {
                    assert(ragdoll_rel(m0, p0.pos@[ni].x as int, p0.pos@[ni].y as int, g_sk4,
                    skr_w, ogd_w));
                }
                assert(half_ragdoll_rel(old(self).half_dead, m0, p0.pos@[ni].x as int,
                p0.pos@[ni].y as int, g_sk4, skr_w, old(self).on_ground, ogd_w));
                assert(g_sk_pre_tick == skr_w);
                assert(tick_probes_rel(
                    m0,
                    self.legs_animation,
                    old(self).control,
                    ni,
                    p0,
                    g_pend,
                    self.on_ground,
                    self.on_ground_for_law,
                ));
                assert(state.soldier_parts.velocity@ =~= g_pend.velocity@.update(
                    ni,
                    state.soldier_parts.velocity@[ni],
                ));
                assert(update_alive_rel(m0, *old(self), *self, p0, state.soldier_parts));
            } else {
                assert(anchor_rel(p0.velocity@[ni], false, old(self).skeleton, g_sk1));
                assert(ragdoll_rel(m0, p0.pos@[ni].x as int, p0.pos@[ni].y as int, g_sk1, g_skr,
                self.on_ground));
                assert(verlet_rel(1, 30, g_skr, self.skeleton));
                assert(state.soldier_parts.pos@ =~= p0.pos@.update(ni, self.skeleton.pos@[12]));
                assert(state.soldier_parts.velocity@ =~= p0.velocity@.update(
                    ni,
                    state.soldier_parts.velocity@[ni],
                ));
                assert(update_dead_rel(m0, *old(self), *self, p0, state.soldier_parts));
            }
        }
    }
}

} // verus!
