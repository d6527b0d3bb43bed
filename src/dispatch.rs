use std::sync::Arc;
use vstd::prelude::*;

use crate::marshal::{Coord, PolygonRecord, Ring};
use crate::shapes::{Shape, ShapeKind, Shapes};

verus! {

/// The kernel call that a distance between two shapes comes down to: one
/// formula per unordered pair of kinds, the lower kind first (in the order
/// point, line string, multi line string, polygon, multi polygon).
#[derive(Clone, Debug)]
pub enum DistanceCall {
    PointPoint(Arc<Coord>, Arc<Coord>),
    PointLineString(Arc<Coord>, Arc<Ring>),
    PointMultiLineString(Arc<Coord>, Arc<Vec<Ring>>),
    PointPolygon(Arc<Coord>, Arc<PolygonRecord>),
    PointMultiPolygon(Arc<Coord>, Arc<Vec<PolygonRecord>>),
    LineStringLineString(Arc<Ring>, Arc<Ring>),
    LineStringMultiLineString(Arc<Ring>, Arc<Vec<Ring>>),
    LineStringPolygon(Arc<Ring>, Arc<PolygonRecord>),
    LineStringMultiPolygon(Arc<Ring>, Arc<Vec<PolygonRecord>>),
    MultiLineStringMultiLineString(Arc<Vec<Ring>>, Arc<Vec<Ring>>),
    MultiLineStringPolygon(Arc<Vec<Ring>>, Arc<PolygonRecord>),
    MultiLineStringMultiPolygon(Arc<Vec<Ring>>, Arc<Vec<PolygonRecord>>),
    PolygonPolygon(Arc<PolygonRecord>, Arc<PolygonRecord>),
    PolygonMultiPolygon(Arc<PolygonRecord>, Arc<Vec<PolygonRecord>>),
    MultiPolygonMultiPolygon(Arc<Vec<PolygonRecord>>, Arc<Vec<PolygonRecord>>),
}

/// The place of a kind in the order of operands.
pub open spec fn rank(k: ShapeKind) -> nat {
    match k {
        ShapeKind::Point => 0,
        ShapeKind::LineString => 1,
        ShapeKind::MultiLineString => 2,
        ShapeKind::Polygon => 3,
        ShapeKind::MultiPolygon => 4,
    }
}

/// The two shapes that a call measures between, in its order.
pub open spec fn operands(c: DistanceCall) -> (Shapes, Shapes) {
    match c {
        DistanceCall::PointPoint(a, b) => (Shapes::Point(a), Shapes::Point(b)),
        DistanceCall::PointLineString(a, b) => (Shapes::Point(a), Shapes::LineString(b)),
        DistanceCall::PointMultiLineString(a, b) => (Shapes::Point(a), Shapes::MultiLineString(b)),
        DistanceCall::PointPolygon(a, b) => (Shapes::Point(a), Shapes::Polygon(b)),
        DistanceCall::PointMultiPolygon(a, b) => (Shapes::Point(a), Shapes::MultiPolygon(b)),
        DistanceCall::LineStringLineString(a, b) => (Shapes::LineString(a), Shapes::LineString(b)),
        DistanceCall::LineStringMultiLineString(a, b) => {
            (Shapes::LineString(a), Shapes::MultiLineString(b))
        },
        DistanceCall::LineStringPolygon(a, b) => (Shapes::LineString(a), Shapes::Polygon(b)),
        DistanceCall::LineStringMultiPolygon(a, b) => {
            (Shapes::LineString(a), Shapes::MultiPolygon(b))
        },
        DistanceCall::MultiLineStringMultiLineString(a, b) => {
            (Shapes::MultiLineString(a), Shapes::MultiLineString(b))
        },
        DistanceCall::MultiLineStringPolygon(a, b) => {
            (Shapes::MultiLineString(a), Shapes::Polygon(b))
        },
        DistanceCall::MultiLineStringMultiPolygon(a, b) => {
            (Shapes::MultiLineString(a), Shapes::MultiPolygon(b))
        },
        DistanceCall::PolygonPolygon(a, b) => (Shapes::Polygon(a), Shapes::Polygon(b)),
        DistanceCall::PolygonMultiPolygon(a, b) => (Shapes::Polygon(a), Shapes::MultiPolygon(b)),
        DistanceCall::MultiPolygonMultiPolygon(a, b) => {
            (Shapes::MultiPolygon(a), Shapes::MultiPolygon(b))
        },
    }
}

/// Two shapes in the order that a distance call takes them: lower kind first,
/// and as given when both are of one kind.
pub open spec fn canonical(a: Shapes, b: Shapes) -> (Shapes, Shapes) {
    if rank(a.kind_spec()) <= rank(b.kind_spec()) {
        (a, b)
    } else {
        (b, a)
    }
}

/// Picks the kernel call for the distance between two shapes. Defined for
/// every pair of kinds: no pair is left out and none fails.
pub fn distance_call(a: &Shape, b: &Shape) -> (r: DistanceCall)
    ensures
        operands(r) == canonical(a.inner, b.inner),
{
    match (&a.inner, &b.inner) {
        (Shapes::Point(p), Shapes::Point(q)) => DistanceCall::PointPoint(p.clone(), q.clone()),
        (Shapes::Point(p), Shapes::LineString(q)) => {
            DistanceCall::PointLineString(p.clone(), q.clone())
        },
        (Shapes::Point(p), Shapes::MultiLineString(q)) => {
            DistanceCall::PointMultiLineString(p.clone(), q.clone())
        },
        (Shapes::Point(p), Shapes::Polygon(q)) => DistanceCall::PointPolygon(p.clone(), q.clone()),
        (Shapes::Point(p), Shapes::MultiPolygon(q)) => {
            DistanceCall::PointMultiPolygon(p.clone(), q.clone())
        },
        (Shapes::LineString(p), Shapes::Point(q)) => {
            DistanceCall::PointLineString(q.clone(), p.clone())
        },
        (Shapes::LineString(p), Shapes::LineString(q)) => {
            DistanceCall::LineStringLineString(p.clone(), q.clone())
        },
        (Shapes::LineString(p), Shapes::MultiLineString(q)) => {
            DistanceCall::LineStringMultiLineString(p.clone(), q.clone())
        },
        (Shapes::LineString(p), Shapes::Polygon(q)) => {
            DistanceCall::LineStringPolygon(p.clone(), q.clone())
        },
        (Shapes::LineString(p), Shapes::MultiPolygon(q)) => {
            DistanceCall::LineStringMultiPolygon(p.clone(), q.clone())
        },
        (Shapes::MultiLineString(p), Shapes::Point(q)) => {
            DistanceCall::PointMultiLineString(q.clone(), p.clone())
        },
        (Shapes::MultiLineString(p), Shapes::LineString(q)) => {
            DistanceCall::LineStringMultiLineString(q.clone(), p.clone())
        },
        (Shapes::MultiLineString(p), Shapes::MultiLineString(q)) => {
            DistanceCall::MultiLineStringMultiLineString(p.clone(), q.clone())
        },
        (Shapes::MultiLineString(p), Shapes::Polygon(q)) => {
            DistanceCall::MultiLineStringPolygon(p.clone(), q.clone())
        },
        (Shapes::MultiLineString(p), Shapes::MultiPolygon(q)) => {
            DistanceCall::MultiLineStringMultiPolygon(p.clone(), q.clone())
        },
        (Shapes::Polygon(p), Shapes::Point(q)) => DistanceCall::PointPolygon(q.clone(), p.clone()),
        (Shapes::Polygon(p), Shapes::LineString(q)) => {
            DistanceCall::LineStringPolygon(q.clone(), p.clone())
        },
        (Shapes::Polygon(p), Shapes::MultiLineString(q)) => {
            DistanceCall::MultiLineStringPolygon(q.clone(), p.clone())
        },
        (Shapes::Polygon(p), Shapes::Polygon(q)) => {
            DistanceCall::PolygonPolygon(p.clone(), q.clone())
        },
        (Shapes::Polygon(p), Shapes::MultiPolygon(q)) => {
            DistanceCall::PolygonMultiPolygon(p.clone(), q.clone())
        },
        (Shapes::MultiPolygon(p), Shapes::Point(q)) => {
            DistanceCall::PointMultiPolygon(q.clone(), p.clone())
        },
        (Shapes::MultiPolygon(p), Shapes::LineString(q)) => {
            DistanceCall::LineStringMultiPolygon(q.clone(), p.clone())
        },
        (Shapes::MultiPolygon(p), Shapes::MultiLineString(q)) => {
            DistanceCall::MultiLineStringMultiPolygon(q.clone(), p.clone())
        },
        (Shapes::MultiPolygon(p), Shapes::Polygon(q)) => {
            DistanceCall::PolygonMultiPolygon(q.clone(), p.clone())
        },
        (Shapes::MultiPolygon(p), Shapes::MultiPolygon(q)) => {
            DistanceCall::MultiPolygonMultiPolygon(p.clone(), q.clone())
        },
    }
}

/// Distance asks the same of the kernel in either order: for shapes of two
/// different kinds both orders make the very same call, and for two shapes of
/// one kind the two calls use the same formula with the operands swapped.
pub proof fn lemma_distance_call_symmetric(
    a: Shapes,
    b: Shapes,
    ab: DistanceCall,
    ba: DistanceCall,
)
    requires
        operands(ab) == canonical(a, b),
        operands(ba) == canonical(b, a),
    ensures
        a.kind_spec() != b.kind_spec() ==> ab == ba,
        a.kind_spec() == b.kind_spec() ==> operands(ab) == (a, b) && operands(ba) == (b, a),
{
}

} // verus!
