use std::sync::Arc;
use vstd::prelude::*;

use crate::dispatch::DistanceCall;
use crate::marshal::{
    array2_to_linestring, array2_to_polygon, polygon_error, polygon_of, ring_of, Array2, Coord,
    PolygonArrays, PolygonRecord, ShapeError,
};
use crate::shapes::{RustPoint, RustPolygon};

verus! {

/// A boolean operation over polygons, ready for the geometry kernel.
#[derive(Clone, Debug)]
pub enum SetOperation {
    /// The union of all the polygons, taken as an unordered collection.
    Union(Vec<Arc<PolygonRecord>>),
    /// The area that both polygons cover.
    Intersection(Arc<PolygonRecord>, Arc<PolygonRecord>),
    /// The area of the first polygon that the second does not cover.
    Difference(Arc<PolygonRecord>, Arc<PolygonRecord>),
}

/// A point-in-polygon test, ready for the geometry kernel.
#[derive(Clone, Debug)]
pub struct ContainsCall {
    pub point: Arc<Coord>,
    pub polygon: Arc<PolygonRecord>,
}

/// The containment test of a point against a polygon. Whether the boundary
/// counts as inside is the kernel's definition.
pub fn point_in_polygon(rust_point: &RustPoint, rust_polygon: &RustPolygon) -> (r: ContainsCall)
    ensures
        r.point == rust_point.point,
        r.polygon == rust_polygon.polygon,
{
    ContainsCall { point: rust_point.point.clone(), polygon: rust_polygon.polygon.clone() }
}

/// The intersection of two polygons, sharing their values.
pub fn intersection(polygon_lhs: &RustPolygon, polygon_rhs: &RustPolygon) -> (r: SetOperation)
    ensures
        r == SetOperation::Intersection(polygon_lhs.polygon, polygon_rhs.polygon),
{
    SetOperation::Intersection(polygon_lhs.polygon.clone(), polygon_rhs.polygon.clone())
}

/// The union of a collection of polygons, sharing their values.
pub fn union(rust_polygons: &Vec<RustPolygon>) -> (r: SetOperation)
    ensures
        r matches SetOperation::Union(ps) && ps@.len() == rust_polygons@.len() && forall|i: int|
            0 <= i < ps@.len() ==> #[trigger] ps@[i] == rust_polygons@[i].polygon,
{
    let mut ps: Vec<Arc<PolygonRecord>> = Vec::new();
    let mut i: usize = 0;
    while i < rust_polygons.len()
        invariant
            i <= rust_polygons@.len(),
            ps@.len() == i,
            forall|k: int| 0 <= k < i ==> #[trigger] ps@[k] == rust_polygons@[k].polygon,
        decreases rust_polygons@.len() - i,
    {
        ps.push(rust_polygons[i].polygon.clone());
        i = i + 1;
    }
    SetOperation::Union(ps)
}

/// The union of the polygons that each entry's arrays describe. Fails with
/// the error of the first entry that describes no polygon.
pub fn union_set_shapes(pyarrays: &Vec<PolygonArrays>) -> (r: Result<SetOperation, ShapeError>)
    requires
        forall|i: int| 0 <= i < pyarrays@.len() ==> (#[trigger] pyarrays@[i]).wf(),
    ensures
        match r {
            Ok(op) => op matches SetOperation::Union(ps) && ps@.len() == pyarrays@.len()
                && (forall|i: int|
                0 <= i < pyarrays@.len() ==> (#[trigger] polygon_error(
                    pyarrays@[i].exterior,
                    pyarrays@[i].interiors@,
                )) is None) && forall|i: int|
                0 <= i < ps@.len() ==> (#[trigger] ps@[i])@ == polygon_of(
                    pyarrays@[i].exterior,
                    pyarrays@[i].interiors@,
                ),
            Err(e) => exists|k: int|
                0 <= k < pyarrays@.len() && polygon_error(
                    pyarrays@[k].exterior,
                    pyarrays@[k].interiors@,
                ) == Some(e) && forall|j: int|
                    0 <= j < k ==> (#[trigger] polygon_error(
                        pyarrays@[j].exterior,
                        pyarrays@[j].interiors@,
                    )) is None,
        },
{
    let mut ps: Vec<Arc<PolygonRecord>> = Vec::new();
    let mut i: usize = 0;
    while i < pyarrays.len()
        invariant
            forall|k: int| 0 <= k < pyarrays@.len() ==> (#[trigger] pyarrays@[k]).wf(),
            i <= pyarrays@.len(),
            ps@.len() == i,
            forall|k: int|
                0 <= k < i ==> (#[trigger] polygon_error(
                    pyarrays@[k].exterior,
                    pyarrays@[k].interiors@,
                )) is None,
            forall|k: int|
                0 <= k < i ==> (#[trigger] ps@[k])@ == polygon_of(
                    pyarrays@[k].exterior,
                    pyarrays@[k].interiors@,
                ),
        decreases pyarrays@.len() - i,
    {
        let x = &pyarrays[i];
        match array2_to_polygon(&x.exterior, &x.interiors) {
            Ok(p) => {
                ps.push(Arc::new(p));
            },
            Err(e) => {
                return Err(e);
            },
        }
        i = i + 1;
    }
    Ok(SetOperation::Union(ps))
}

/// The error of the first of two polygons in array form that describes no
/// polygon, if either does.
pub open spec fn pair_error(x: PolygonArrays, y: PolygonArrays) -> Option<ShapeError> {
    match polygon_error(x.exterior, x.interiors@) {
        Some(e) => Some(e),
        None => polygon_error(y.exterior, y.interiors@),
    }
}

/// `a` and `b` are the polygons that `x` and `y` describe.
pub open spec fn pair_matches(
    a: Arc<PolygonRecord>,
    b: Arc<PolygonRecord>,
    x: PolygonArrays,
    y: PolygonArrays,
) -> bool {
    &&& a@ == polygon_of(x.exterior, x.interiors@)
    &&& b@ == polygon_of(y.exterior, y.interiors@)
}

fn polygon_pair(x: &PolygonArrays, y: &PolygonArrays) -> (r: Result<
    (Arc<PolygonRecord>, Arc<PolygonRecord>),
    ShapeError,
>)
    requires
        x.wf(),
        y.wf(),
    ensures
        match pair_error(*x, *y) {
            Some(e) => r == Err::<(Arc<PolygonRecord>, Arc<PolygonRecord>), ShapeError>(e),
            None => r matches Ok((a, b)) && pair_matches(a, b, *x, *y),
        },
{
    let a = match array2_to_polygon(&x.exterior, &x.interiors) {
        Ok(p) => p,
        Err(e) => {
            return Err(e);
        },
    };
    let b = match array2_to_polygon(&y.exterior, &y.interiors) {
        Ok(p) => p,
        Err(e) => {
            return Err(e);
        },
    };
    Ok((Arc::new(a), Arc::new(b)))
}

/// The intersection of the two polygons that the arrays describe.
pub fn intersection_shapes(pyarray_x: &PolygonArrays, pyarray_y: &PolygonArrays) -> (r: Result<
    SetOperation,
    ShapeError,
>)
    requires
        pyarray_x.wf(),
        pyarray_y.wf(),
    ensures
        match pair_error(*pyarray_x, *pyarray_y) {
            Some(e) => r == Err::<SetOperation, ShapeError>(e),
            None => r matches Ok(SetOperation::Intersection(a, b)) && pair_matches(
                a,
                b,
                *pyarray_x,
                *pyarray_y,
            ),
        },
{
    match polygon_pair(pyarray_x, pyarray_y) {
        Ok((a, b)) => Ok(SetOperation::Intersection(a, b)),
        Err(e) => Err(e),
    }
}

/// The first polygon that the arrays describe, less the area of the second.
pub fn difference_shapes(pyarray_x: &PolygonArrays, pyarray_y: &PolygonArrays) -> (r: Result<
    SetOperation,
    ShapeError,
>)
    requires
        pyarray_x.wf(),
        pyarray_y.wf(),
    ensures
        match pair_error(*pyarray_x, *pyarray_y) {
            Some(e) => r == Err::<SetOperation, ShapeError>(e),
            None => r matches Ok(SetOperation::Difference(a, b)) && pair_matches(
                a,
                b,
                *pyarray_x,
                *pyarray_y,
            ),
        },
{
    match polygon_pair(pyarray_x, pyarray_y) {
        Ok((a, b)) => Ok(SetOperation::Difference(a, b)),
        Err(e) => Err(e),
    }
}

/// The distance from the point `[x, y]` to the path whose points are the rows
/// of `y`.
pub fn point_poly_distance(x: &Vec<u64>, y: &Array2) -> (r: Result<DistanceCall, ShapeError>)
    requires
        y.wf(),
    ensures
        x@.len() != 2 || y.cols != 2 ==> r == Err::<DistanceCall, ShapeError>(
            ShapeError::BadWidth,
        ),
        x@.len() == 2 && y.cols == 2 ==> (r matches Ok(DistanceCall::PointLineString(p, path))
            && *p == (Coord { x: x@[0], y: x@[1] }) && path@ == ring_of(*y)),
{
    if x.len() != 2 {
        return Err(ShapeError::BadWidth);
    }
    let path = match array2_to_linestring(y) {
        Ok(ring) => ring,
        Err(e) => {
            return Err(e);
        },
    };
    Ok(DistanceCall::PointLineString(Arc::new(Coord { x: x[0], y: x[1] }), Arc::new(path)))
}

/// The distance from each row of `x`, as a point, to the path whose points are
/// the rows of `y`: entry `i` is the call for row `i`, and every call shares
/// the one path.
pub fn points_poly_distance(x: &Array2, y: &Array2) -> (r: Result<Vec<DistanceCall>, ShapeError>)
    requires
        x.wf(),
        y.wf(),
    ensures
        x.cols != 2 || y.cols != 2 ==> r == Err::<Vec<DistanceCall>, ShapeError>(
            ShapeError::BadWidth,
        ),
        x.cols == 2 && y.cols == 2 ==> (r matches Ok(calls) && calls@.len() == x.rows && forall|
            i: int,
        |
            0 <= i < x.rows ==> (#[trigger] calls@[i] matches DistanceCall::PointLineString(
                p,
                path,
            ) && *p == ring_of(*x)[i] && path@ == ring_of(*y))),
{
    let points = match array2_to_linestring(x) {
        Ok(ring) => ring,
        Err(e) => {
            return Err(e);
        },
    };
    let path = match array2_to_linestring(y) {
        Ok(ring) => Arc::new(ring),
        Err(e) => {
            return Err(e);
        },
    };
    let mut calls: Vec<DistanceCall> = Vec::new();
    let mut i: usize = 0;
    while i < points.points.len()
        invariant
            points@ == ring_of(*x),
            path@ == ring_of(*y),
            i <= points@.len(),
            calls@.len() == i,
            forall|k: int|
                0 <= k < i ==> (#[trigger] calls@[k] matches DistanceCall::PointLineString(p, l)
                    && *p == points@[k] && l@ == path@),
        decreases points@.len() - i,
    {
        calls.push(DistanceCall::PointLineString(Arc::new(points.points[i]), path.clone()));
        i = i + 1;
    }
    Ok(calls)
}

/// The distance between the two paths whose points are the rows of `x` and
/// of `y`.
pub fn poly_poly_distance(x: &Array2, y: &Array2) -> (r: Result<DistanceCall, ShapeError>)
    requires
        x.wf(),
        y.wf(),
    ensures
        x.cols != 2 || y.cols != 2 ==> r == Err::<DistanceCall, ShapeError>(ShapeError::BadWidth),
        x.cols == 2 && y.cols == 2 ==> (r matches Ok(DistanceCall::LineStringLineString(a, b))
            && a@ == ring_of(*x) && b@ == ring_of(*y)),
{
    let a = match array2_to_linestring(x) {
        Ok(ring) => ring,
        Err(e) => {
            return Err(e);
        },
    };
    let b = match array2_to_linestring(y) {
        Ok(ring) => ring,
        Err(e) => {
            return Err(e);
        },
    };
    Ok(DistanceCall::LineStringLineString(Arc::new(a), Arc::new(b)))
}

} // verus!
