use crate::color::Rgb;
use crate::error::TransferError;
use vstd::prelude::*;

verus! {

/// How far a nearest-point query may search for the palette's region.
pub const SEARCH_MARGIN: u32 = 99999;

/// The squared distance between two colors.
pub open spec fn dist2(a: Rgb, b: Rgb) -> int {
    let (dr, dg, db) = (a.red - b.red, a.green - b.green, a.blue - b.blue);
    dr * dr + dg * dg + db * db
}

/// No two colors of the RGB cube are as far apart as the search margin,
/// so a query from any color always finds the palette's region.
pub proof fn lemma_margin_covers_cube(a: Rgb, b: Rgb)
    ensures
        dist2(a, b) < SEARCH_MARGIN as int * SEARCH_MARGIN as int,
{
    let (dr, dg, db) = (a.red - b.red, a.green - b.green, a.blue - b.blue);
    assert(dr * dr <= 65025 && dg * dg <= 65025 && db * db <= 65025) by (nonlinear_arith)
        requires
            -255 <= dr <= 255,
            -255 <= dg <= 255,
            -255 <= db <= 255,
    ;
}

/// The answer of a nearest-point query between one color and the
/// palette's region, with the nearest point already cut to whole channels.
#[derive(Clone, Copy, Debug, PartialEq, Eq, Structural)]
pub enum Proximity {
    /// The color lies inside the region or on its boundary.
    Intersecting,
    /// The color lies outside; this is the nearest point of the boundary.
    WithinMargin(Rgb),
    /// The region lies farther away than the search margin.
    Disjoint,
}

/// The color that `query` maps to, given what the nearest-point query
/// found: the query itself when it lies in the region, else the nearest
/// point. A region beyond the margin is reported, never mapped.
pub fn settle(query: Rgb, found: Proximity) -> (r: Result<Rgb, TransferError>)
    ensures
        found is Intersecting ==> r == Ok::<Rgb, TransferError>(query),
        found matches Proximity::WithinMargin(p) ==> r == Ok::<Rgb, TransferError>(p),
        found is Disjoint ==> r matches Err(TransferError::GeometryInvariant),
{
    match found {
        Proximity::Intersecting => Ok(query),
        Proximity::WithinMargin(p) => Ok(p),
        Proximity::Disjoint => Err(TransferError::GeometryInvariant),
    }
}

} // verus!
