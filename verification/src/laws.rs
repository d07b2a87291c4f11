//! The simulation's cross-cutting laws, stated and proved once over the
//! spec functions that the collision tests' contracts use.

use vstd::prelude::*;
use crate::fx::{Vec2, vlen_s};
use crate::map::{MapData, Polygon, collides_s, deadly_s, map_b, sector_list_s, sector_ok};
use crate::anim::Animation;
use crate::control::Control;
use crate::parts::ParticleStore;
use crate::soldier::{
    area_hit_s, area_hit_j_s, vert_any_hit_s, vert_hit_s, cell_any_hit_s, cell_hit_s,
    sweep_any_hit_s, sweep_pos_x_s, sweep_pos_y_s, area_response_rel, area_perp_s,
    tick_probes_rel, walls_rel, contacts_rel, area_step_rel, sweep_step_rel, vert_step_rel,
    update_alive_rel, anchor_rel, pose_rel, hand_rel, arms_rel, half_ragdoll_rel, body_y_s,
    clamp_s, Soldier, MAX_VELOCITY,
};
use crate::parts::{ParticleSystem, verlet_rel};
use crate::fx::FX_ONE;

verus! {

/// Touching a deadly surface resets the soldier to the first spawn point,
/// for the ground probe and the wall probe alike: whatever else the area
/// response does, the position it leaves is the spawn point, less at most
/// the speed-clamped penetration vector (and nothing at all when the
/// contact is held or the wall probe declines to respond).
pub proof fn law_deadly_reset(
    m: MapData,
    poly: Polygon,
    px: int,
    py: int,
    area: i32,
    legs: Animation,
    c: Control,
    num: int,
    p0: ParticleStore,
    p1: ParticleStore,
)
    requires
        deadly_s(poly.polytype),
        area_response_rel(m, poly, px, py, area, legs, c, num, p0, p1),
    ensures
        ({
            let speed = vlen_s(p0.velocity@[num].x as int, p0.velocity@[num].y as int);
            let pa = area_perp_s(poly, px, py, speed);
            ||| (p1.pos@[num].x as int == m.spawnpoints@[0].x - pa.0 && p1.pos@[num].y as int
                == m.spawnpoints@[0].y - pa.1)
            ||| p1.pos@[num] == m.spawnpoints@[0]
        }),
{
    reveal(area_response_rel);
}

/// A tick whose every probe misses leaves the particle store untouched
/// and reports no contact: the no-contact round trip, shown over the full
/// probe chain of one living tick. Every probe point is taken from the
/// store's unchanged position and velocity, as each miss passes the state
/// through unchanged.
pub proof fn law_no_contact_tick(
    m: MapData,
    legs: Animation,
    c: Control,
    num: int,
    p0: ParticleStore,
    p1: ParticleStore,
    og: bool,
    gl: bool,
)
    requires
        tick_probes_rel(m, legs, c, num, p0, p1, og, gl),
        !area_hit_s(
            m,
            p0.pos@[num].x - 35000 + p0.velocity@[num].x,
            p0.pos@[num].y - 12 * (FX_ONE as int) + p0.velocity@[num].y,
        ),
        !area_hit_s(
            m,
            p0.pos@[num].x + 35000 + p0.velocity@[num].x,
            p0.pos@[num].y - 12 * (FX_ONE as int) + p0.velocity@[num].y,
        ),
        !area_hit_s(
            m,
            p0.pos@[num].x + 2 * (FX_ONE as int) + p0.velocity@[num].x,
            p0.pos@[num].y + 2 * (FX_ONE as int) - 2500 + p0.velocity@[num].y,
        ),
        !area_hit_s(
            m,
            p0.pos@[num].x - 2 * (FX_ONE as int) + p0.velocity@[num].x,
            p0.pos@[num].y + 2 * (FX_ONE as int) - 2500 + p0.velocity@[num].y,
        ),
        !sweep_any_hit_s(m, p0.pos@[num].x as int, p0.pos@[num].y as int, p0.velocity@[num]),
        !vert_any_hit_s(
            m,
            p0.pos@[num].x + p0.velocity@[num].x,
            p0.pos@[num].y + p0.velocity@[num].y,
            3 * (FX_ONE as int),
        ),
    ensures
        p1 == p0,
        !og,
        !gl,
{
    let pm = choose|pm: ParticleStore|
        walls_rel(m, legs, c, num, p0, pm) && contacts_rel(m, legs, c, num, pm, p1, og, gl);
    let (pw1, r1, r2) = choose|pw1: ParticleStore, r1: bool, r2: bool|
        {
            &&& #[trigger] area_step_rel(
                m,
                p0.pos@[num].x - 35000,
                p0.pos@[num].y - 12 * (FX_ONE as int),
                1,
                legs,
                c,
                num,
                p0,
                pw1,
                r1,
            )
            &&& #[trigger] area_step_rel(
                m,
                pw1.pos@[num].x + 35000,
                pw1.pos@[num].y - 12 * (FX_ONE as int),
                1,
                legs,
                c,
                num,
                pw1,
                pm,
                r2,
            )
        };
    assert(!r1);
    assert(pw1 == p0);
    assert(!r2);
    assert(pm == p0);
    let (pa, pb, pc, g1, g2, gv, hc) = choose|
        pa: ParticleStore,
        pb: ParticleStore,
        pc: ParticleStore,
        g1: bool,
        g2: bool,
        gv: bool,
        hc: bool,
    |
        {
            &&& #[trigger] area_step_rel(
                m,
                pm.pos@[num].x + 2 * (FX_ONE as int),
                pm.pos@[num].y + 2 * (FX_ONE as int) - 2500,
                0,
                legs,
                c,
                num,
                pm,
                pa,
                g1,
            )
            &&& #[trigger] area_step_rel(
                m,
                pa.pos@[num].x - 2 * (FX_ONE as int),
                pa.pos@[num].y + 2 * (FX_ONE as int) - 2500,
                0,
                legs,
                c,
                num,
                pa,
                pb,
                g2,
            )
            &&& #[trigger] sweep_step_rel(m, pb.pos@[num].x as int, pb.pos@[num].y as int, num,
            pb, pc, gl)
            &&& #[trigger] vert_step_rel(
                m,
                pb.pos@[num].x as int,
                pb.pos@[num].y as int,
                3 * (FX_ONE as int),
                hc,
                num,
                pc,
                p1,
                gv,
            )
            &&& hc == ((g1 || g2) || gl)
            &&& og == (gv || (g1 || g2))
        };
    assert(!g1);
    assert(pa == pm);
    assert(!g2);
    assert(pb == pm);
    assert(!gl);
    assert(pc == pm);
    assert(!gv);
    assert(p1 == pm);
}


/// The no-contact round trip at the tick level: a living tick whose every
/// probe misses, taken with an in-range velocity, returns the particle
/// store exactly as it found it — position, previous position, velocity
/// and force — and reports no ground contact.
pub proof fn law_still_tick(m: MapData, s0: Soldier, s1: Soldier, p0: ParticleStore, p1: ParticleStore)
    requires
        update_alive_rel(m, s0, s1, p0, p1),
        0 <= s0.num < p0.velocity@.len(),
        -MAX_VELOCITY <= p0.velocity@[s0.num as int].x <= MAX_VELOCITY,
        -MAX_VELOCITY <= p0.velocity@[s0.num as int].y <= MAX_VELOCITY,
        !area_hit_s(
            m,
            p0.pos@[s0.num as int].x - 35000 + p0.velocity@[s0.num as int].x,
            p0.pos@[s0.num as int].y - 12 * (FX_ONE as int) + p0.velocity@[s0.num as int].y,
        ),
        !area_hit_s(
            m,
            p0.pos@[s0.num as int].x + 35000 + p0.velocity@[s0.num as int].x,
            p0.pos@[s0.num as int].y - 12 * (FX_ONE as int) + p0.velocity@[s0.num as int].y,
        ),
        !area_hit_s(
            m,
            p0.pos@[s0.num as int].x + 2 * (FX_ONE as int) + p0.velocity@[s0.num as int].x,
            p0.pos@[s0.num as int].y + 2 * (FX_ONE as int) - 2500 + p0.velocity@[s0.num as int].y,
        ),
        !area_hit_s(
            m,
            p0.pos@[s0.num as int].x - 2 * (FX_ONE as int) + p0.velocity@[s0.num as int].x,
            p0.pos@[s0.num as int].y + 2 * (FX_ONE as int) - 2500 + p0.velocity@[s0.num as int].y,
        ),
        !sweep_any_hit_s(
            m,
            p0.pos@[s0.num as int].x as int,
            p0.pos@[s0.num as int].y as int,
            p0.velocity@[s0.num as int],
        ),
        !vert_any_hit_s(
            m,
            p0.pos@[s0.num as int].x + p0.velocity@[s0.num as int].x,
            p0.pos@[s0.num as int].y + p0.velocity@[s0.num as int].y,
            3 * (FX_ONE as int),
        ),
    ensures
        p1.pos@ == p0.pos@,
        p1.old_pos@ == p0.old_pos@,
        p1.velocity@ == p0.velocity@,
        p1.forces@ == p0.forces@,
        !s1.on_ground,
        !s1.on_ground_for_law,
{
    let ni = s0.num as int;
    let (sk1, sk2, sk3, sk4, skr, ogd, pend) = choose|
        sk1: ParticleSystem,
        sk2: ParticleSystem,
        sk3: ParticleSystem,
        sk4: ParticleSystem,
        skr: ParticleSystem,
        ogd: bool,
        pend: ParticleStore,
    |
        {
            &&& #[trigger] anchor_rel(p0.velocity@[s0.num as int], true, s0.skeleton, sk1)
            &&& #[trigger] pose_rel(
                s0.half_dead,
                s1.direction,
                s0.legs_animation,
                s0.body_animation,
                p0.pos@[s0.num as int],
                body_y_s(s0.position, s0.body_animation),
                sk1,
                sk2,
            )
            &&& #[trigger] hand_rel(
                s1.direction,
                s0.control.mouse_aim_x as int,
                s0.control.mouse_aim_y as int,
                sk2,
                sk3,
            )
            &&& #[trigger] arms_rel(
                s0.body_animation.kind,
                s0.control.mouse_aim_x as int,
                s0.control.mouse_aim_y as int,
                sk3,
                sk4,
            )
            &&& #[trigger] half_ragdoll_rel(
                s0.half_dead,
                m,
                p0.pos@[s0.num as int].x as int,
                p0.pos@[s0.num as int].y as int,
                sk4,
                skr,
                s0.on_ground,
                ogd,
            )
            &&& exists|skm: ParticleSystem|
                #[trigger] verlet_rel(22, 29, skr, skm) && verlet_rel(24, 30, skm, s1.skeleton)
            &&& #[trigger] tick_probes_rel(
                m,
                s1.legs_animation,
                s0.control,
                s0.num as int,
                p0,
                pend,
                s1.on_ground,
                s1.on_ground_for_law,
            )
            &&& p1.pos@ == pend.pos@
            &&& p1.old_pos@ == pend.old_pos@
            &&& p1.forces@ == pend.forces@
            &&& p1.velocity@ == pend.velocity@.update(
                s0.num as int,
                p1.velocity@[s0.num as int],
            )
            &&& p1.velocity@[s0.num as int].x as int == clamp_s(
                pend.velocity@[s0.num as int].x as int,
            )
            &&& p1.velocity@[s0.num as int].y as int == clamp_s(
                pend.velocity@[s0.num as int].y as int,
            )
        };
    law_no_contact_tick(
        m,
        s1.legs_animation,
        s0.control,
        ni,
        p0,
        pend,
        s1.on_ground,
        s1.on_ground_for_law,
    );
    assert(p1.velocity@[ni].x == p0.velocity@[ni].x);
    assert(p1.velocity@[ni].y == p0.velocity@[ni].y);
    assert(p1.velocity@ =~= p0.velocity@);
}

/// No surface marked pass-through or bullets-only ever draws a collision
/// response: on a map whose every polygon carries such a type, the area
/// probe, the vertex probe and the radius sweep all miss, whatever the
/// probe point — and a miss leaves the particle store untouched, by the
/// collision tests' contracts.
pub proof fn law_no_collide_no_response(m: MapData, px: int, py: int, rr: int, vel: Vec2, x: int, y: int)
    requires
        map_b(m),
        forall|w: int| 0 <= w < m.polygons@.len() ==> !collides_s((#[trigger] m.polygons@[w]).polytype),
    ensures
        !area_hit_s(m, px, py),
        !vert_any_hit_s(m, px, py, rr),
        !sweep_any_hit_s(m, x, y, vel),
{
    assert forall|j: int| !(0 <= j < sector_list_s(m, px, py).len() && area_hit_j_s(m, px, py, j)) by {
        if 0 <= j < sector_list_s(m, px, py).len() {
            lemma_entry_indexes(m, px, py, j);
        }
    }
    assert forall|j: int, i: int|
        !(0 <= j < sector_list_s(m, px, py).len() && 0 <= i < 3 && vert_hit_s(m, px, py, rr, j, i)) by {
        if 0 <= j < sector_list_s(m, px, py).len() {
            lemma_entry_indexes(m, px, py, j);
        }
    }
    assert forall|z: int|
        !(0 <= z < crate::soldier::sweep_da_s(vel) && cell_any_hit_s(
            m,
            sweep_pos_x_s(x, vel, z),
            sweep_pos_y_s(y, vel, z),
        )) by {
        let sx = sweep_pos_x_s(x, vel, z);
        let sy = sweep_pos_y_s(y, vel, z);
        assert forall|j: int, k: int| !(0 <= k < 2 && cell_hit_s(m, sx, sy, j, k)) by {
            if 0 <= j < sector_list_s(m, sx, sy).len() {
                lemma_entry_indexes(m, sx, sy, j);
            }
        }
    }
}

/// Every candidate-list entry names a polygon of the table.
proof fn lemma_entry_indexes(m: MapData, px: int, py: int, j: int)
    requires
        map_b(m),
        0 <= j < sector_list_s(m, px, py).len(),
    ensures
        1 <= sector_list_s(m, px, py)[j],
        sector_list_s(m, px, py)[j] - 1 < m.polygons@.len(),
{
    let lst = sector_list_s(m, px, py);
    if crate::map::sec_in_s(m, px, py) {
        let rx = crate::map::sec_s(px, m.sectors_division as int);
        let ry = crate::map::sec_s(py, m.sectors_division as int);
        assert(sector_ok(m.sectors_poly@[rx]@[ry], m.polygons@.len() as int));
        assert(1 <= lst[j] && lst[j] - 1 < m.polygons@.len());
    }
}

} // verus!
