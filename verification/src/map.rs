//! The polygon map the soldier collides with: surface-typed triangles with
//! precomputed outward edge perpendiculars, indexed by a spatial sector grid.
//!
//! The map is read-only for the whole simulation; collision never mutates it.

use vstd::prelude::*;
use crate::fx::{
    Vec2, FX_ONE, FX_LIM, fxb, abs_s, tdiv, rdiv_s, vlen_s, pld_s, v2b, div_round,
    point_line_distance,
};

verus! {

/// Per-polygon surface behaviour tag.
#[derive(Clone, Copy, PartialEq, Eq, Structural, Debug)]
pub enum PolyType {
    Normal,
    OnlyBulletsCollide,
    NoCollide,
    Ice,
    Deadly,
    BloodyDeadly,
    Explosive,
    Bouncy,
    OneWay,
}

/// Surfaces the soldier's collision tests respond to.
pub open spec fn collides_s(t: PolyType) -> bool {
    t != PolyType::NoCollide && t != PolyType::OnlyBulletsCollide
}

/// Surfaces that send the soldier back to the spawn point on contact.
pub open spec fn deadly_s(t: PolyType) -> bool {
    t == PolyType::Deadly || t == PolyType::BloodyDeadly || t == PolyType::Explosive
}

pub fn collides(t: PolyType) -> (r: bool)
    ensures
        r == collides_s(t),
{
    t != PolyType::NoCollide && t != PolyType::OnlyBulletsCollide
}

/// A map triangle: vertices, surface type, restitution factor, and the
/// stored outward perpendicular of each edge (edge `k` joins vertex `k`
/// to vertex `(k + 1) mod 3`).
#[derive(Clone, Copy, PartialEq, Eq, Structural, Debug)]
pub struct Polygon {
    pub v0: Vec2,
    pub v1: Vec2,
    pub v2: Vec2,
    pub perp0: Vec2,
    pub perp1: Vec2,
    pub perp2: Vec2,
    pub polytype: PolyType,
    pub bounciness: i64,
}

/// Well-formed polygon: bounded coordinates, distinct vertices (every edge
/// has positive length), unit-scale stored perpendiculars, a restitution
/// factor of at most one.
pub open spec fn poly_b(p: Polygon) -> bool {
    &&& v2b(p.v0)
    &&& v2b(p.v1)
    &&& v2b(p.v2)
    &&& abs_s(p.perp0.x as int) <= 2 * (FX_ONE as int)
    &&& abs_s(p.perp0.y as int) <= 2 * (FX_ONE as int)
    &&& abs_s(p.perp1.x as int) <= 2 * (FX_ONE as int)
    &&& abs_s(p.perp1.y as int) <= 2 * (FX_ONE as int)
    &&& abs_s(p.perp2.x as int) <= 2 * (FX_ONE as int)
    &&& abs_s(p.perp2.y as int) <= 2 * (FX_ONE as int)
    &&& p.v0 != p.v1
    &&& p.v1 != p.v2
    &&& p.v2 != p.v0
    &&& 0 <= p.bounciness <= FX_ONE as int
}

/// Probe points reach at most this far: a position plus a velocity that
/// may have grown over the tick's successive collision responses.
pub open spec fn probe_b(a: int) -> bool {
    -0x200_0000_0000_0000 <= a <= 0x200_0000_0000_0000
}

/// Signed area cross product of edge `(x1,y1)->(x2,y2)` with the probe.
pub open spec fn edge_cross_s(x1: int, y1: int, x2: int, y2: int, px: int, py: int) -> int {
    (x2 - x1) * (py - y1) - (y2 - y1) * (px - x1)
}

/// Point-in-triangle: the probe lies on one common side of all three edges.
pub open spec fn pip_s(px: int, py: int, p: Polygon) -> bool {
    let c0 = edge_cross_s(p.v0.x as int, p.v0.y as int, p.v1.x as int, p.v1.y as int, px, py);
    let c1 = edge_cross_s(p.v1.x as int, p.v1.y as int, p.v2.x as int, p.v2.y as int, px, py);
    let c2 = edge_cross_s(p.v2.x as int, p.v2.y as int, p.v0.x as int, p.v0.y as int, px, py);
    (c0 >= 0 && c1 >= 0 && c2 >= 0) || (c0 <= 0 && c1 <= 0 && c2 <= 0)
}

/// Point-in-triangle through the stored outward perpendiculars: the probe
/// lies on the inner side of every edge.
pub open spec fn pipe_s(px: int, py: int, p: Polygon) -> bool {
    &&& (px - p.v0.x) * (p.perp0.x as int) + (py - p.v0.y) * (p.perp0.y as int) <= 0
    &&& (px - p.v1.x) * (p.perp1.x as int) + (py - p.v1.y) * (p.perp1.y as int) <= 0
    &&& (px - p.v2.x) * (p.perp2.x as int) + (py - p.v2.y) * (p.perp2.y as int) <= 0
}

/// One edge cross product, evaluated exactly in 128 bits.
fn edge_cross(a: Vec2, b: Vec2, px: i64, py: i64) -> (r: i128)
    requires
        v2b(a),
        v2b(b),
        probe_b(px as int),
        probe_b(py as int),
    ensures
        r as int == edge_cross_s(a.x as int, a.y as int, b.x as int, b.y as int, px as int,
            py as int),
{
    let dx: i64 = b.x - a.x;
    let dy: i64 = b.y - a.y;
    let qx: i64 = px - a.x;
    let qy: i64 = py - a.y;
    proof {
        crate::fx::lemma_mul_abs_le(dx as int, qy as int, 0x4000_0000_0000, 0x400_0000_0000_0000);
        crate::fx::lemma_mul_abs_le(dy as int, qx as int, 0x4000_0000_0000, 0x400_0000_0000_0000);
    }
    (dx as i128) * (qy as i128) - (dy as i128) * (qx as i128)
}

/// Point-in-polygon by edge cross products.
pub fn point_in_poly(px: i64, py: i64, p: &Polygon) -> (r: bool)
    requires
        poly_b(*p),
        probe_b(px as int),
        probe_b(py as int),
    ensures
        r == pip_s(px as int, py as int, *p),
{
    let c0 = edge_cross(p.v0, p.v1, px, py);
    let c1 = edge_cross(p.v1, p.v2, px, py);
    let c2 = edge_cross(p.v2, p.v0, px, py);
    (c0 >= 0 && c1 >= 0 && c2 >= 0) || (c0 <= 0 && c1 <= 0 && c2 <= 0)
}

/// Point-in-polygon by the stored outward edge perpendiculars.
pub fn point_in_poly_edges(px: i64, py: i64, p: &Polygon) -> (r: bool)
    requires
        poly_b(*p),
        probe_b(px as int),
        probe_b(py as int),
    ensures
        r == pipe_s(px as int, py as int, *p),
{
    let d0 = edge_dot(p.v0, p.perp0, px, py);
    let d1 = edge_dot(p.v1, p.perp1, px, py);
    let d2 = edge_dot(p.v2, p.perp2, px, py);
    d0 <= 0 && d1 <= 0 && d2 <= 0
}

/// Dot product of the offset from a vertex with that edge's perpendicular.
fn edge_dot(v: Vec2, perp: Vec2, px: i64, py: i64) -> (r: i128)
    requires
        v2b(v),
        abs_s(perp.x as int) <= 2 * (FX_ONE as int),
        abs_s(perp.y as int) <= 2 * (FX_ONE as int),
        probe_b(px as int),
        probe_b(py as int),
    ensures
        r as int == (px - v.x) * (perp.x as int) + (py - v.y) * (perp.y as int),
{
    let qx: i64 = px - v.x;
    let qy: i64 = py - v.y;
    proof {
        crate::fx::lemma_mul_abs_le(qx as int, perp.x as int, 0x400_0000_0000_0000, 20000);
        crate::fx::lemma_mul_abs_le(qy as int, perp.y as int, 0x400_0000_0000_0000, 20000);
    }
    (qx as i128) * (perp.x as i128) + (qy as i128) * (perp.y as i128)
}

/// Distance from the probe to the line of edge `e` of `p` (edges count 1-3).
pub open spec fn pld_edge_s(p: Polygon, e: int, px: int, py: int) -> int {
    if e == 1 {
        pld_s(p.v0.x as int, p.v0.y as int, p.v1.x as int, p.v1.y as int, px, py)
    } else if e == 2 {
        pld_s(p.v1.x as int, p.v1.y as int, p.v2.x as int, p.v2.y as int, px, py)
    } else {
        pld_s(p.v2.x as int, p.v2.y as int, p.v0.x as int, p.v0.y as int, px, py)
    }
}

/// The edge of `p` nearest to the probe: the first edge whose line distance
/// is minimal.
pub open spec fn cp_edge_s(p: Polygon, px: int, py: int) -> int {
    let d1 = pld_edge_s(p, 1, px, py);
    let d2 = pld_edge_s(p, 2, px, py);
    let d3 = pld_edge_s(p, 3, px, py);
    if d1 <= d2 && d1 <= d3 {
        1
    } else if d2 <= d3 {
        2
    } else {
        3
    }
}

/// The stored perpendicular of edge `e` of `p`.
pub open spec fn perp_of_s(p: Polygon, e: int) -> Vec2 {
    if e == 1 {
        p.perp0
    } else if e == 2 {
        p.perp1
    } else {
        p.perp2
    }
}

/// An upper bound on any edge-line distance from a probe at `(px, py)`.
pub open spec fn dist_lim(px: int, py: int) -> int {
    2 * (abs_s(px) + abs_s(py) + 2 * (FX_LIM as int)) + 2
}

/// The stored perpendicular of the edge nearest to the probe; `d` receives
/// the distance to that edge's line, `k` the edge number (1-3).
pub fn closest_perpendicular(p: &Polygon, pos: Vec2, d: &mut i64, k: &mut u8) -> (r: Vec2)
    requires
        poly_b(*p),
        probe_b(pos.x as int),
        probe_b(pos.y as int),
    ensures
        *final(k) as int == cp_edge_s(*p, pos.x as int, pos.y as int),
        *final(d) == pld_edge_s(*p, cp_edge_s(*p, pos.x as int, pos.y as int), pos.x as int,
            pos.y as int),
        r == perp_of_s(*p, cp_edge_s(*p, pos.x as int, pos.y as int)),
        0 <= *final(d) <= dist_lim(pos.x as int, pos.y as int),
        1 <= *final(k) <= 3,
{
    let d1 = point_line_distance(p.v0, p.v1, pos);
    let d2 = point_line_distance(p.v1, p.v2, pos);
    let d3 = point_line_distance(p.v2, p.v0, pos);
    if d1 <= d2 && d1 <= d3 {
        *d = d1;
        *k = 1;
        p.perp0
    } else if d2 <= d3 {
        *d = d2;
        *k = 2;
        p.perp1
    } else {
        *d = d3;
        *k = 3;
        p.perp2
    }
}

/// One cell of the sector grid: the (1-based) indices of the polygons that
/// overlap it.
#[derive(Clone, Debug)]
pub struct Sector {
    pub polys: Vec<u16>,
}

/// Every entry of a sector cell indexes a polygon (entries are 1-based).
pub open spec fn sector_ok(s: Sector, n_polys: int) -> bool {
    forall|t: int|
        0 <= t < s.polys@.len() ==> 1 <= (#[trigger] s.polys@[t]) as int && s.polys@[t] - 1
            < n_polys
}

/// The polygon map: polygon table, sector grid, spawn points.
pub struct MapData {
    pub polygons: Vec<Polygon>,
    pub sectors_num: i64,
    pub sectors_division: i64,
    pub sectors_poly: Vec<Vec<Sector>>,
    pub spawnpoints: Vec<Vec2>,
    pub start_jet: i32,
}

/// Well-formed map: a positive sector size, a grid large enough for every
/// in-range sector coordinate, sector entries that index the polygon table,
/// well-formed polygons, and at least one spawn point.
pub open spec fn map_b(m: MapData) -> bool {
    &&& 1 <= m.sectors_division <= 0x10000
    &&& 0 <= m.sectors_num <= 0x10000
    &&& m.sectors_poly@.len() >= m.sectors_num + 25
    &&& forall|i: int|
        0 <= i < m.sectors_poly@.len() ==> (#[trigger] m.sectors_poly@[i])@.len() >= m.sectors_num
            + 25
    &&& forall|i: int, j: int|
        0 <= i < m.sectors_poly@.len() && 0 <= j < m.sectors_poly@[i]@.len() ==> sector_ok(
            #[trigger] m.sectors_poly@[i]@[j],
            m.polygons@.len() as int,
        )
    &&& forall|w: int| 0 <= w < m.polygons@.len() ==> poly_b(#[trigger] m.polygons@[w])
    &&& m.spawnpoints@.len() >= 1
    &&& forall|s: int| 0 <= s < m.spawnpoints@.len() ==> v2b(#[trigger] m.spawnpoints@[s])
}

/// A world coordinate's sector-grid coordinate: the nearest multiple of the
/// sector size, shifted by the grid's center offset.
pub open spec fn sec_s(c: int, division: int) -> int {
    rdiv_s(c, division * (FX_ONE as int)) + 25
}

/// Both grid coordinates of a probe point.
pub open spec fn sec_xy_s(m: MapData, px: int, py: int) -> (int, int) {
    (sec_s(px, m.sectors_division as int), sec_s(py, m.sectors_division as int))
}

/// The probe's grid cell lies inside the indexed range.
pub open spec fn sec_in_s(m: MapData, px: int, py: int) -> bool {
    let (rx, ry) = sec_xy_s(m, px, py);
    0 < rx < m.sectors_num + 25 && 0 < ry < m.sectors_num + 25
}

/// The candidate polygon list for a probe: its grid cell's entries, or
/// empty when the probe falls outside the indexed range.
pub open spec fn sector_list_s(m: MapData, px: int, py: int) -> Seq<u16> {
    if sec_in_s(m, px, py) {
        let (rx, ry) = sec_xy_s(m, px, py);
        m.sectors_poly@[rx]@[ry].polys@
    } else {
        Seq::empty()
    }
}

/// On a map without polygons every candidate list is empty: sector cells
/// may only hold indices into the polygon table.
pub proof fn lemma_empty_map_lists(m: MapData, px: int, py: int)
    requires
        map_b(m),
        m.polygons@.len() == 0,
    ensures
        sector_list_s(m, px, py).len() == 0,
{
    if sec_in_s(m, px, py) {
        let rx = sec_s(px, m.sectors_division as int);
        let ry = sec_s(py, m.sectors_division as int);
        let lst = sector_list_s(m, px, py);
        if lst.len() > 0 {
            assert(sector_ok(m.sectors_poly@[rx]@[ry], m.polygons@.len() as int));
            assert(1 <= lst[0] && lst[0] - 1 < 0);
        }
    }
}

impl MapData {
    /// Grid coordinate of one world coordinate.
    pub fn sector_coord(&self, c: i64) -> (r: i64)
        requires
            map_b(*self),
            probe_b(c as int),
        ensures
            r as int == sec_s(c as int, self.sectors_division as int),
    {
        let cell = div_round(c, self.sectors_division * FX_ONE);
        cell + 25
    }

    /// The candidate polygon list for a probe point, empty when the probe
    /// is outside the indexed range. Out-of-range probes are a normal
    /// boundary condition: collision tests simply skip them.
    pub fn candidates(&self, px: i64, py: i64) -> (r: Vec<u16>)
        requires
            map_b(*self),
            probe_b(px as int),
            probe_b(py as int),
        ensures
            r@ == sector_list_s(*self, px as int, py as int),
            forall|t: int|
                0 <= t < r@.len() ==> 1 <= (#[trigger] r@[t]) as int && r@[t] - 1
                    < self.polygons@.len(),
    {
        let rx = self.sector_coord(px);
        let ry = self.sector_coord(py);
        if rx > 0 && rx < self.sectors_num + 25 && ry > 0 && ry < self.sectors_num + 25 {
            let row = &self.sectors_poly[rx as usize];
            let cell = &row[ry as usize];
            let out = cell.polys.clone();
            proof {
                assert(out@ =~= sector_list_s(*self, px as int, py as int));
            }
            out
        } else {
            let out: Vec<u16> = Vec::new();
            proof {
                assert(out@ =~= sector_list_s(*self, px as int, py as int));
            }
            out
        }
    }
}

} // verus!
