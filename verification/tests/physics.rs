use soldier_sim::anim::{AnimKind, Animation};
use soldier_sim::control::{Control, Key, KeyState, MouseButton};
use soldier_sim::fx::Vec2;
use soldier_sim::map::{MapData, PolyType, Polygon, Sector};
use soldier_sim::parts::ParticleStore;
use soldier_sim::soldier::{MainState, Soldier, POS_STAND};

fn empty_map() -> MapData {
    let mut rows = Vec::new();
    for _ in 0..32 {
        let mut row = Vec::new();
        for _ in 0..32 {
            row.push(Sector { polys: Vec::new() });
        }
        rows.push(row);
    }
    MapData {
        polygons: Vec::new(),
        sectors_num: 7,
        sectors_division: 25,
        sectors_poly: rows,
        spawnpoints: vec![Vec2 { x: 160000, y: 90000 }],
        start_jet: 100,
    }
}

fn map_with(poly: Polygon) -> MapData {
    let mut m = empty_map();
    m.polygons.push(poly);
    for row in m.sectors_poly.iter_mut() {
        for cell in row.iter_mut() {
            cell.polys.push(1);
        }
    }
    m
}

fn ground_poly(polytype: PolyType, bounciness: i64) -> Polygon {
    // Triangle (50,99)-(150,99)-(100,130) in world units, top edge at y=99,
    // with unit-scale outward perpendiculars per edge.
    Polygon {
        v0: Vec2 { x: 500000, y: 990000 },
        v1: Vec2 { x: 1500000, y: 990000 },
        v2: Vec2 { x: 1000000, y: 1300000 },
        perp0: Vec2 { x: 0, y: -10000 },
        perp1: Vec2 { x: 5270, y: 8500 },
        perp2: Vec2 { x: -5270, y: 8500 },
        polytype,
        bounciness,
    }
}

fn state_with(map: MapData) -> (MainState, Soldier) {
    let mut st = MainState { map, soldier_parts: ParticleStore::new(4) };
    let mut soldier = Soldier::new(&mut st);
    // Place the soldier at (100, 100) world units.
    st.soldier_parts
        .create_part(Vec2 { x: 1000000, y: 1000000 }, Vec2 { x: 0, y: 0 }, 1);
    soldier.control.mouse_aim_x = 1000000;
    soldier
        .legs_apply_animation(Animation::new(AnimKind::Stand, true, 1), 0);
    (st, soldier)
}

#[test]
fn fresh_soldier_stands() {
    let (st, soldier) = state_with(empty_map());
    assert_eq!(soldier.position, POS_STAND);
    assert_eq!(soldier.skeleton.gravity, 636);
    assert_eq!(soldier.skeleton.v_damping, 9945);
    assert_eq!(st.soldier_parts.velocity[1], Vec2 { x: 0, y: 0 });
}

#[test]
fn still_tick_keeps_position_and_velocity() {
    let (mut st, mut soldier) = state_with(empty_map());
    soldier.update(&mut st);
    assert_eq!(st.soldier_parts.pos[1], Vec2 { x: 1000000, y: 1000000 });
    assert_eq!(st.soldier_parts.velocity[1], Vec2 { x: 0, y: 0 });
}

#[test]
fn velocity_clamped_symmetrically() {
    let (mut st, mut soldier) = state_with(empty_map());
    st.soldier_parts.velocity[1] = Vec2 { x: 300000, y: -300000 };
    soldier.update(&mut st);
    assert_eq!(st.soldier_parts.velocity[1], Vec2 { x: 110000, y: -110000 });
}

#[test]
fn ground_permanent_needs_two_tick_agreement() {
    let (mut st, mut soldier) = state_with(empty_map());
    soldier.on_ground_permanent = true;
    soldier.on_ground_last_frame = true;
    // This tick finds no ground: disagreement with the previous tick, so
    // the stable flag keeps its old value.
    soldier.update(&mut st);
    assert!(!soldier.on_ground);
    assert!(soldier.on_ground_permanent);
    assert!(!soldier.on_ground_last_frame);
    // A second groundless tick agrees, and the stable flag follows.
    soldier.update(&mut st);
    assert!(!soldier.on_ground_permanent);
}

#[test]
fn deadly_surface_resets_to_spawn() {
    let (mut st, mut soldier) = state_with(empty_map());
    soldier.handle_special_polytypes(&mut st, PolyType::Deadly, Vec2 { x: 0, y: 0 });
    assert_eq!(st.soldier_parts.pos[1], Vec2 { x: 160000, y: 90000 });
    soldier.handle_special_polytypes(&mut st, PolyType::Normal, Vec2 { x: 0, y: 0 });
    assert_eq!(st.soldier_parts.pos[1], Vec2 { x: 160000, y: 90000 });
}

#[test]
fn no_collide_surfaces_never_respond() {
    let (mut st, mut soldier) = state_with(map_with(ground_poly(PolyType::NoCollide, 0)));
    st.soldier_parts.velocity[1] = Vec2 { x: 0, y: 50000 };
    let hit = soldier.check_map_collision(&mut st, 1000000, 1000000, 0);
    assert!(!hit);
    assert_eq!(st.soldier_parts.velocity[1], Vec2 { x: 0, y: 50000 });
    assert_eq!(st.soldier_parts.pos[1], Vec2 { x: 1000000, y: 1000000 });
    let hit2 = soldier.check_radius_map_collision(&mut st, 1000000, 1000000, false);
    assert!(!hit2);
    let hit3 = soldier.check_map_vertices_collision(&mut st, 990000, 990000, 30000, false);
    assert!(!hit3);
}

#[test]
fn radius_sweep_finds_ground_below() {
    // Standing on a horizontal surface directly below: the sweep's probe
    // lands inside the polygon, the position reverts to the previous
    // tick's, and the velocity becomes the accumulated force minus the
    // edge perpendicular scaled by the edge distance.
    let (mut st, mut soldier) = state_with(map_with(ground_poly(PolyType::Normal, 0)));
    let hit = soldier.check_radius_map_collision(&mut st, 1000000, 1000000, false);
    assert!(hit);
    assert_eq!(st.soldier_parts.pos[1], Vec2 { x: 1000000, y: 1000000 });
    assert_eq!(st.soldier_parts.velocity[1], Vec2 { x: 0, y: 10000 });
}

#[test]
fn bouncy_surface_scales_velocity_by_restitution() {
    // Falling at (0, 5) into a bouncy surface with restitution one half:
    // the penetration (clamped to the speed, 5 units) is undone, and the
    // velocity's normal component reflects, scaled by the restitution:
    // the vertical velocity leaves as -2.5, half the incoming speed.
    let (mut st, mut soldier) = state_with(map_with(ground_poly(PolyType::Bouncy, 5000)));
    st.soldier_parts.velocity[1] = Vec2 { x: 0, y: 50000 };
    let hit = soldier.check_map_collision(&mut st, 1000000, 1000000, 0);
    assert!(hit);
    assert_eq!(st.soldier_parts.pos[1], Vec2 { x: 1000000, y: 1050000 });
    assert_eq!(st.soldier_parts.velocity[1], Vec2 { x: 0, y: -25000 });
}

#[test]
fn prone_legs_refuse_interruption() {
    let (_st, mut soldier) = state_with(empty_map());
    soldier.legs_apply_animation(Animation::new(AnimKind::Prone, false, 30), 0);
    assert!(matches!(soldier.legs_animation.kind, AnimKind::Prone));
    soldier.legs_apply_animation(Animation::new(AnimKind::Run, true, 10), 3);
    assert!(matches!(soldier.legs_animation.kind, AnimKind::Prone));
    soldier.body_apply_animation(Animation::new(AnimKind::Run, true, 10), 3);
    assert!(matches!(soldier.body_animation.kind, AnimKind::Run));
    assert_eq!(soldier.body_animation.curr_frame, 3);
}

#[test]
fn reload_skips_forearm_aim_correction() {
    let (_st, mut soldier) = state_with(empty_map());
    soldier.body_apply_animation(Animation::new(AnimKind::Reload, false, 20), 0);
    soldier.skeleton.pos[15] = Vec2 { x: 123456, y: 654321 };
    let before = soldier.skeleton.pos[15];
    soldier.aim_correct_arms(500000, 500000);
    assert_eq!(soldier.skeleton.pos[15], before);
    // An unlocked body animation does move the forearm.
    soldier.body_apply_animation(Animation::new(AnimKind::Stand, true, 1), 0);
    soldier.aim_correct_arms(500000, 500000);
    assert_ne!(soldier.skeleton.pos[15], before);
}

#[test]
fn key_and_mouse_translation() {
    let (_st, mut soldier) = state_with(empty_map());
    soldier.update_keys(KeyState::Pressed, Key::A);
    assert!(soldier.control.left);
    soldier.update_keys(KeyState::Released, Key::A);
    assert!(!soldier.control.left);
    soldier.update_keys(KeyState::Pressed, Key::X);
    assert!(soldier.control.prone);
    soldier.update_mouse_button(KeyState::Pressed, MouseButton::Left);
    assert!(soldier.control.fire);
    soldier.update_mouse_button(KeyState::Released, MouseButton::Right);
    assert!(!soldier.control.jets);
    let d: Control = Default::default();
    assert!(!d.fire && !d.jets && d.mouse_aim_x == 0);
}

#[test]
fn animation_playback_wraps_only_when_looped() {
    let mut looped = Animation::new(AnimKind::Run, true, 2);
    looped.do_animation();
    assert_eq!(looped.curr_frame, 1);
    looped.do_animation();
    assert_eq!(looped.curr_frame, 0);
    let mut held = Animation::new(AnimKind::Reload, false, 2);
    held.do_animation();
    held.do_animation();
    assert_eq!(held.curr_frame, 1);
}
