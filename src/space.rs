use crate::color::Rgb;
use crate::error::TransferError;
use crate::hex::{hex_color, parse_color};
use crate::hull::{det3, has_volume, spans_volume, volume6};
use vstd::prelude::*;

verus! {

/// The Nord palette, the default when no colors are given.
pub const NORD: [&'static str; 16] = [
    "#2E3440", "#3B4252", "#434C5E", "#4C566A", "#D8DEE9", "#E5E9F0", "#ECEFF4", "#8FBCBB",
    "#88C0D0", "#81A1C1", "#5E81AC", "#BF616A", "#D08770", "#EBCB8B", "#A3BE8C", "#B48EAD",
];

/// The colors of a palette, if every hex code in `codes` names one.
pub open spec fn decoded(codes: Seq<&str>) -> Option<Seq<Rgb>> {
    if forall|i: int| 0 <= i < codes.len() ==> (#[trigger] hex_color(codes[i]@)) is Some {
        Some(Seq::new(codes.len(), |i: int| hex_color(codes[i]@)->Some_0))
    } else {
        None
    }
}

/// A palette whose colors span a solid region of RGB space.
pub struct Palette {
    points: Vec<Rgb>,
}

impl View for Palette {
    type V = Seq<Rgb>;

    closed spec fn view(&self) -> Seq<Rgb> {
        self.points@
    }
}

impl Palette {
    pub open spec fn wf(&self) -> bool {
        spans_volume(self@)
    }

    /// Takes the colors as the palette when they span a solid region.
    pub fn from_points(points: Vec<Rgb>) -> (r: Result<Palette, TransferError>)
        ensures
            r is Ok <==> spans_volume(points@),
            r matches Ok(p) ==> p@ == points@ && p.wf(),
            r matches Err(e) ==> e is ConvexHullError,
    {
        if has_volume(&points) {
            Ok(Palette { points })
        } else {
            Err(TransferError::ConvexHullError)
        }
    }

    /// Decodes the hex codes in order, then checks that their colors span
    /// a solid region. A code that is no color is reported first.
    pub fn new(palette: &[&str]) -> (r: Result<Palette, TransferError>)
        requires
            forall|i: int| 0 <= i < palette@.len() ==> (#[trigger] palette@[i]).is_ascii(),
        ensures
            decoded(palette@) is None <==> r matches Err(TransferError::HexError(_)),
            decoded(palette@) matches Some(pts) ==> {
                &&& (r is Ok <==> spans_volume(pts))
                &&& r matches Ok(p) ==> p@ == pts && p.wf()
                &&& r matches Err(e) ==> e is ConvexHullError
            },
    {
        let mut points: Vec<Rgb> = Vec::new();
        let mut i: usize = 0;
        while i < palette.len()
            invariant
                i <= palette@.len(),
                points@.len() == i,
                forall|m: int| 0 <= m < palette@.len() ==> (#[trigger] palette@[m]).is_ascii(),
                forall|m: int| 0 <= m < i ==> hex_color(palette@[m]@) == Some(#[trigger] points@[m]),
            decreases palette@.len() - i,
        {
            match parse_color(palette[i]) {
                Ok(c) => points.push(c),
                Err(e) => {
                    assert(hex_color(palette@[i as int]@) is None);
                    return Err(TransferError::HexError(e));
                },
            }
            i = i + 1;
        }
        assert forall|m: int| 0 <= m < palette@.len() implies (#[trigger] hex_color(palette@[m]@)) is Some by {
            assert(hex_color(palette@[m]@) == Some(points@[m]));
        }
        assert(points@ =~= Seq::new(palette@.len(), |m: int| hex_color(palette@[m]@)->Some_0));
        Palette::from_points(points)
    }

    /// The palette's colors, in the order given.
    pub fn points(&self) -> (r: &Vec<Rgb>)
        ensures
            r@ == self@,
    {
        &self.points
    }
}

/// A determinant with a zero row, or with two equal rows, is zero.
proof fn lemma_det_degenerate(ux: int, uy: int, uz: int, vx: int, vy: int, vz: int, wx: int, wy: int, wz: int)
    ensures
        det3(0, 0, 0, vx, vy, vz, wx, wy, wz) == 0,
        det3(ux, uy, uz, 0, 0, 0, wx, wy, wz) == 0,
        det3(ux, uy, uz, vx, vy, vz, 0, 0, 0) == 0,
        det3(ux, uy, uz, ux, uy, uz, wx, wy, wz) == 0,
        det3(ux, uy, uz, vx, vy, vz, ux, uy, uz) == 0,
        det3(ux, uy, uz, vx, vy, vz, vx, vy, vz) == 0,
        det3(ux, uy, 0, vx, vy, 0, wx, wy, 0) == 0,
{
    assert(det3(ux, uy, uz, ux, uy, uz, wx, wy, wz) == 0) by (nonlinear_arith);
    assert(det3(ux, uy, uz, vx, vy, vz, ux, uy, uz) == 0) by (nonlinear_arith);
    assert(det3(ux, uy, uz, vx, vy, vz, vx, vy, vz) == 0) by (nonlinear_arith);
    assert(det3(0, 0, 0, vx, vy, vz, wx, wy, wz) == 0) by (nonlinear_arith);
    assert(det3(ux, uy, uz, 0, 0, 0, wx, wy, wz) == 0) by (nonlinear_arith);
    assert(det3(ux, uy, uz, vx, vy, vz, 0, 0, 0) == 0) by (nonlinear_arith);
    assert(det3(ux, uy, 0, vx, vy, 0, wx, wy, 0) == 0) by (nonlinear_arith);
}

/// A tetrahedron with a repeated corner has no volume.
proof fn lemma_repeated_corner_flat(a: Rgb, b: Rgb, c: Rgb, d: Rgb)
    requires
        a == b || a == c || a == d || b == c || b == d || c == d,
    ensures
        volume6(a, b, c, d) == 0,
{
    lemma_det_degenerate(
        b.red - a.red, b.green - a.green, b.blue - a.blue,
        c.red - a.red, c.green - a.green, c.blue - a.blue,
        d.red - a.red, d.green - a.green, d.blue - a.blue,
    );
}

/// Fewer than four colors never span a solid region.
pub proof fn lemma_few_points_flat(pts: Seq<Rgb>)
    requires
        pts.len() < 4,
    ensures
        !spans_volume(pts),
{
    assert forall|i: int, j: int, k: int, l: int|
        0 <= i < pts.len() && 0 <= j < pts.len() && 0 <= k < pts.len() && 0 <= l < pts.len()
        implies #[trigger] volume6(pts[i], pts[j], pts[k], pts[l]) == 0 by {
        lemma_repeated_corner_flat(pts[i], pts[j], pts[k], pts[l]);
    }
}

/// Colors that all share one blue value lie in one plane and span no
/// solid region.
pub proof fn lemma_one_blue_flat(pts: Seq<Rgb>)
    requires
        forall|i: int| 0 <= i < pts.len() ==> (#[trigger] pts[i]).blue == pts[0].blue,
    ensures
        !spans_volume(pts),
{
    assert forall|i: int, j: int, k: int, l: int|
        0 <= i < pts.len() && 0 <= j < pts.len() && 0 <= k < pts.len() && 0 <= l < pts.len()
        implies #[trigger] volume6(pts[i], pts[j], pts[k], pts[l]) == 0 by {
        assert(pts[i].blue == pts[0].blue);
        assert(pts[j].blue == pts[0].blue);
        assert(pts[k].blue == pts[0].blue);
        assert(pts[l].blue == pts[0].blue);
        lemma_det_degenerate(
            pts[j].red - pts[i].red, pts[j].green - pts[i].green, 0,
            pts[k].red - pts[i].red, pts[k].green - pts[i].green, 0,
            pts[l].red - pts[i].red, pts[l].green - pts[i].green, 0,
        );
    }
}

} // verus!
