//! How stone and liquids move between columns; neither moves yet.
use vstd::prelude::*;
use crate::utils::Point2D;
use crate::worldgen::Unit;

verus! {

/// The columns after stone settles around `pnt`: stone does not move, so
/// there is nothing new.
pub fn solid_physics(pnt: Point2D, aj: Vec<Unit>) -> (r: Option<Vec<Unit>>)
    ensures
        r is None,
{
    None
}

/// The columns after liquid settles around `pnt`: here liquid does not
/// move either.
pub fn liquid_physics(pnt: Point2D, aj: Vec<Unit>) -> (r: Option<Vec<Unit>>)
    ensures
        r is None,
{
    None
}

} // verus!
