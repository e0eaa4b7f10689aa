use crate::color::Rgb;
use vstd::prelude::*;

verus! {

/// The determinant of the 3x3 matrix with rows `u`, `v`, `w`.
pub open spec fn det3(ux: int, uy: int, uz: int, vx: int, vy: int, vz: int, wx: int, wy: int, wz: int) -> int {
    ux * (vy * wz - vz * wy) - uy * (vx * wz - vz * wx) + uz * (vx * wy - vy * wx)
}

/// Six times the signed volume of the tetrahedron `a b c d`: the
/// determinant of the edges `b - a`, `c - a`, `d - a`.
pub open spec fn volume6(a: Rgb, b: Rgb, c: Rgb, d: Rgb) -> int {
    det3(
        b.red - a.red, b.green - a.green, b.blue - a.blue,
        c.red - a.red, c.green - a.green, c.blue - a.blue,
        d.red - a.red, d.green - a.green, d.blue - a.blue,
    )
}

/// Some four of the points bound a tetrahedron of positive volume, so
/// that the convex region they span is a solid.
pub open spec fn spans_volume(pts: Seq<Rgb>) -> bool {
    exists|i: int, j: int, k: int, l: int|
        0 <= i < pts.len() && 0 <= j < pts.len() && 0 <= k < pts.len() && 0 <= l < pts.len()
            && #[trigger] volume6(pts[i], pts[j], pts[k], pts[l]) != 0
}

/// A 2x2 minor of edge coordinates, each in `-255..=255`.
fn minor(p: i64, q: i64, r: i64, s: i64) -> (m: i64)
    requires
        -255 <= p <= 255,
        -255 <= q <= 255,
        -255 <= r <= 255,
        -255 <= s <= 255,
    ensures
        m == p * q - r * s,
        -130050 <= m <= 130050,
{
    assert(-65025 <= p * q <= 65025) by (nonlinear_arith)
        requires
            -255 <= p <= 255,
            -255 <= q <= 255,
    ;
    assert(-65025 <= r * s <= 65025) by (nonlinear_arith)
        requires
            -255 <= r <= 255,
            -255 <= s <= 255,
    ;
    p * q - r * s
}

fn scaled(e: i64, m: i64) -> (t: i64)
    requires
        -255 <= e <= 255,
        -130050 <= m <= 130050,
    ensures
        t == e * m,
        -33162750 <= t <= 33162750,
{
    assert(-33162750 <= e * m <= 33162750) by (nonlinear_arith)
        requires
            -255 <= e <= 255,
            -130050 <= m <= 130050,
    ;
    e * m
}

/// Six times the signed volume of the tetrahedron `a b c d`.
pub fn signed_volume(a: Rgb, b: Rgb, c: Rgb, d: Rgb) -> (v: i64)
    ensures
        v == volume6(a, b, c, d),
{
    let ux = b.red as i64 - a.red as i64;
    let uy = b.green as i64 - a.green as i64;
    let uz = b.blue as i64 - a.blue as i64;
    let vx = c.red as i64 - a.red as i64;
    let vy = c.green as i64 - a.green as i64;
    let vz = c.blue as i64 - a.blue as i64;
    let wx = d.red as i64 - a.red as i64;
    let wy = d.green as i64 - a.green as i64;
    let wz = d.blue as i64 - a.blue as i64;
    let t1 = scaled(ux, minor(vy, wz, vz, wy));
    let t2 = scaled(uy, minor(vx, wz, vz, wx));
    let t3 = scaled(uz, minor(vx, wy, vy, wx));
    t1 - t2 + t3
}

/// Whether some `l` makes `pts[i] pts[j] pts[k] pts[l]` a solid.
fn solid_with(pts: &Vec<Rgb>, i: usize, j: usize, k: usize) -> (r: bool)
    requires
        i < pts.len(),
        j < pts.len(),
        k < pts.len(),
    ensures
        r == exists|l: int| 0 <= l < pts.len() && #[trigger] volume6(pts@[i as int], pts@[j as int], pts@[k as int], pts@[l]) != 0,
{
    let mut l: usize = 0;
    while l < pts.len()
        invariant
            i < pts.len(),
            j < pts.len(),
            k < pts.len(),
            l <= pts.len(),
            forall|m: int| 0 <= m < l ==> #[trigger] volume6(pts@[i as int], pts@[j as int], pts@[k as int], pts@[m]) == 0,
        decreases pts.len() - l,
    {
        if signed_volume(pts[i], pts[j], pts[k], pts[l]) != 0 {
            return true;
        }
        l = l + 1;
    }
    false
}

/// Whether some `k`, `l` make `pts[i] pts[j] pts[k] pts[l]` a solid.
fn solid_with_pair(pts: &Vec<Rgb>, i: usize, j: usize) -> (r: bool)
    requires
        i < pts.len(),
        j < pts.len(),
    ensures
        r == exists|k: int, l: int| 0 <= k < pts.len() && 0 <= l < pts.len() && #[trigger] volume6(pts@[i as int], pts@[j as int], pts@[k], pts@[l]) != 0,
{
    let mut k: usize = 0;
    while k < pts.len()
        invariant
            i < pts.len(),
            j < pts.len(),
            k <= pts.len(),
            forall|m: int, l: int| 0 <= m < k && 0 <= l < pts.len() ==> #[trigger] volume6(pts@[i as int], pts@[j as int], pts@[m], pts@[l]) == 0,
        decreases pts.len() - k,
    {
        if solid_with(pts, i, j, k) {
            return true;
        }
        k = k + 1;
    }
    false
}

/// Whether some `j`, `k`, `l` make `pts[i] pts[j] pts[k] pts[l]` a solid.
fn solid_with_one(pts: &Vec<Rgb>, i: usize) -> (r: bool)
    requires
        i < pts.len(),
    ensures
        r == exists|j: int, k: int, l: int| 0 <= j < pts.len() && 0 <= k < pts.len() && 0 <= l < pts.len() && #[trigger] volume6(pts@[i as int], pts@[j], pts@[k], pts@[l]) != 0,
{
    let mut j: usize = 0;
    while j < pts.len()
        invariant
            i < pts.len(),
            j <= pts.len(),
            forall|m: int, k: int, l: int| 0 <= m < j && 0 <= k < pts.len() && 0 <= l < pts.len() ==> #[trigger] volume6(pts@[i as int], pts@[m], pts@[k], pts@[l]) == 0,
        decreases pts.len() - j,
    {
        if solid_with_pair(pts, i, j) {
            return true;
        }
        j = j + 1;
    }
    false
}

/// Whether the points span a region of positive volume.
pub fn has_volume(pts: &Vec<Rgb>) -> (r: bool)
    ensures
        r == spans_volume(pts@),
{
    let mut i: usize = 0;
    while i < pts.len()
        invariant
            i <= pts.len(),
            forall|m: int, j: int, k: int, l: int| 0 <= m < i && 0 <= j < pts.len() && 0 <= k < pts.len() && 0 <= l < pts.len() ==> #[trigger] volume6(pts@[m], pts@[j], pts@[k], pts@[l]) == 0,
        decreases pts.len() - i,
    {
        if solid_with_one(pts, i) {
            return true;
        }
        i = i + 1;
    }
    false
}

} // verus!
