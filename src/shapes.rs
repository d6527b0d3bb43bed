use std::sync::Arc;
use vstd::prelude::*;

use crate::marshal::{
    array2_to_linestring, array2_to_polygon, polygon_error, polygon_of, polygons_from_arrays,
    ring_of, Array2, Coord, PolygonArrays, PolygonRecord, Ring, ShapeError,
};

verus! {

/// The five kinds of shape.
#[derive(Clone, Copy, Debug, PartialEq, Eq, Structural)]
pub enum ShapeKind {
    Point,
    LineString,
    MultiLineString,
    Polygon,
    MultiPolygon,
}

/// One shape of any kind. The geometry sits behind an `Arc`, so the generic
/// handle and the kind's own handle share one value.
#[derive(Clone, Debug)]
pub enum Shapes {
    Point(Arc<Coord>),
    LineString(Arc<Ring>),
    MultiLineString(Arc<Vec<Ring>>),
    Polygon(Arc<PolygonRecord>),
    MultiPolygon(Arc<Vec<PolygonRecord>>),
}

impl Shapes {
    /// Which kind of shape this is.
    pub open spec fn kind_spec(&self) -> ShapeKind {
        match self {
            Shapes::Point(_) => ShapeKind::Point,
            Shapes::LineString(_) => ShapeKind::LineString,
            Shapes::MultiLineString(_) => ShapeKind::MultiLineString,
            Shapes::Polygon(_) => ShapeKind::Polygon,
            Shapes::MultiPolygon(_) => ShapeKind::MultiPolygon,
        }
    }
}

/// The generic handle on a shape.
#[derive(Clone, Debug)]
pub struct Shape {
    pub inner: Shapes,
}

impl Shape {
    /// Which kind of shape this is.
    pub fn kind(&self) -> (r: ShapeKind)
        ensures
            r == self.inner.kind_spec(),
    {
        match &self.inner {
            Shapes::Point(_) => ShapeKind::Point,
            Shapes::LineString(_) => ShapeKind::LineString,
            Shapes::MultiLineString(_) => ShapeKind::MultiLineString,
            Shapes::Polygon(_) => ShapeKind::Polygon,
            Shapes::MultiPolygon(_) => ShapeKind::MultiPolygon,
        }
    }
}

/// A point.
#[derive(Clone, Debug)]
pub struct RustPoint {
    pub point: Arc<Coord>,
}

impl RustPoint {
    /// Builds a point from a one-dimensional array `[x, y]`.
    pub fn new(xy: &Vec<u64>) -> (r: Result<RustPoint, ShapeError>)
        ensures
            xy@.len() != 2 ==> r == Err::<RustPoint, ShapeError>(ShapeError::BadWidth),
            xy@.len() == 2 ==> (r matches Ok(p) && *p.point == Coord { x: xy@[0], y: xy@[1] }),
    {
        if xy.len() != 2 {
            return Err(ShapeError::BadWidth);
        }
        Ok(RustPoint { point: Arc::new(Coord { x: xy[0], y: xy[1] }) })
    }

    /// The generic handle on this point, sharing its value.
    pub fn shape(&self) -> (r: Shape)
        ensures
            r.inner == Shapes::Point(self.point),
    {
        Shape { inner: Shapes::Point(self.point.clone()) }
    }
}

/// A line string: an ordered path of points.
#[derive(Clone, Debug)]
pub struct RustLineString {
    pub linestring: Arc<Ring>,
}

impl RustLineString {
    /// Builds a line string from an array with one point per row.
    pub fn new(x: &Array2) -> (r: Result<RustLineString, ShapeError>)
        requires
            x.wf(),
        ensures
            x.cols != 2 ==> r == Err::<RustLineString, ShapeError>(ShapeError::BadWidth),
            x.cols == 2 ==> (r matches Ok(l) && l.linestring@ == ring_of(*x)),
    {
        match array2_to_linestring(x) {
            Ok(ring) => Ok(RustLineString { linestring: Arc::new(ring) }),
            Err(e) => Err(e),
        }
    }

    /// The generic handle on this line string, sharing its value.
    pub fn shape(&self) -> (r: Shape)
        ensures
            r.inner == Shapes::LineString(self.linestring),
    {
        Shape { inner: Shapes::LineString(self.linestring.clone()) }
    }
}

/// Several line strings, in order.
#[derive(Clone, Debug)]
pub struct RustMultiLineString {
    pub multilinestring: Arc<Vec<Ring>>,
}

impl RustMultiLineString {
    /// Builds one line string per array, keeping their order.
    pub fn new(xs: &Vec<Array2>) -> (r: Result<RustMultiLineString, ShapeError>)
        requires
            forall|i: int| 0 <= i < xs@.len() ==> (#[trigger] xs@[i]).wf(),
        ensures
            (exists|i: int| 0 <= i < xs@.len() && (#[trigger] xs@[i]).cols != 2) ==> r
                == Err::<RustMultiLineString, ShapeError>(ShapeError::BadWidth),
            (forall|i: int| 0 <= i < xs@.len() ==> (#[trigger] xs@[i]).cols == 2) ==> (r matches Ok(
                m,
            ) && m.multilinestring@.len() == xs@.len() && forall|i: int|
                0 <= i < xs@.len() ==> (#[trigger] m.multilinestring@[i])@ == ring_of(xs@[i])),
    {
        let mut rings: Vec<Ring> = Vec::new();
        let mut i: usize = 0;
        while i < xs.len()
            invariant
                forall|k: int| 0 <= k < xs@.len() ==> (#[trigger] xs@[k]).wf(),
                i <= xs@.len(),
                rings@.len() == i,
                forall|k: int| 0 <= k < i ==> (#[trigger] xs@[k]).cols == 2,
                forall|k: int| 0 <= k < i ==> (#[trigger] rings@[k])@ == ring_of(xs@[k]),
            decreases xs@.len() - i,
        {
            match array2_to_linestring(&xs[i]) {
                Ok(ring) => {
                    rings.push(ring);
                },
                Err(e) => {
                    assert(xs@[i as int].cols != 2);
                    return Err(e);
                },
            }
            i = i + 1;
        }
        Ok(RustMultiLineString { multilinestring: Arc::new(rings) })
    }

    /// The generic handle on these line strings, sharing their value.
    pub fn shape(&self) -> (r: Shape)
        ensures
            r.inner == Shapes::MultiLineString(self.multilinestring),
    {
        Shape { inner: Shapes::MultiLineString(self.multilinestring.clone()) }
    }
}

/// A polygon: an exterior ring and its holes.
#[derive(Clone, Debug)]
pub struct RustPolygon {
    pub polygon: Arc<PolygonRecord>,
}

impl RustPolygon {
    /// Builds a polygon from its exterior array and its hole arrays.
    pub fn new(x: &Array2, ys: &Vec<Array2>) -> (r: Result<RustPolygon, ShapeError>)
        requires
            x.wf(),
            forall|i: int| 0 <= i < ys@.len() ==> (#[trigger] ys@[i]).wf(),
        ensures
            match polygon_error(*x, ys@) {
                Some(e) => r == Err::<RustPolygon, ShapeError>(e),
                None => r matches Ok(p) && p.polygon@ == polygon_of(*x, ys@),
            },
    {
        match array2_to_polygon(x, ys) {
            Ok(p) => Ok(RustPolygon { polygon: Arc::new(p) }),
            Err(e) => Err(e),
        }
    }

    /// The generic handle on this polygon, sharing its value.
    pub fn shape(&self) -> (r: Shape)
        ensures
            r.inner == Shapes::Polygon(self.polygon),
    {
        Shape { inner: Shapes::Polygon(self.polygon.clone()) }
    }
}

/// A set of polygons, as a set operation hands it back.
#[derive(Clone, Debug)]
pub struct RustMultiPolygon {
    pub multipolygon: Arc<Vec<PolygonRecord>>,
}

impl RustMultiPolygon {
    /// Builds one polygon per entry, keeping their order.
    pub fn new(xs: &Vec<PolygonArrays>) -> (r: Result<RustMultiPolygon, ShapeError>)
        requires
            forall|i: int| 0 <= i < xs@.len() ==> (#[trigger] xs@[i]).wf(),
        ensures
            match r {
                Ok(m) => {
                    &&& m.multipolygon@.len() == xs@.len()
                    &&& forall|i: int|
                        0 <= i < xs@.len() ==> (#[trigger] polygon_error(
                            xs@[i].exterior,
                            xs@[i].interiors@,
                        )) is None
                    &&& forall|i: int|
                        0 <= i < xs@.len() ==> (#[trigger] m.multipolygon@[i])@ == polygon_of(
                            xs@[i].exterior,
                            xs@[i].interiors@,
                        )
                },
                Err(e) => exists|k: int|
                    0 <= k < xs@.len() && polygon_error(xs@[k].exterior, xs@[k].interiors@) == Some(
                        e,
                    ) && forall|j: int|
                        0 <= j < k ==> (#[trigger] polygon_error(
                            xs@[j].exterior,
                            xs@[j].interiors@,
                        )) is None,
            },
    {
        match polygons_from_arrays(xs) {
            Ok(ps) => {
                let m = RustMultiPolygon { multipolygon: Arc::new(ps) };
                assert(m.multipolygon@ == ps@);
                Ok(m)
            },
            Err(e) => Err(e),
        }
    }

    /// Wraps the parts that a set operation computed. The two handles share the
    /// one value: nothing is copied, and it lives on while either handle does.
    pub fn with_shape(parts: Vec<PolygonRecord>) -> (r: (RustMultiPolygon, Shape))
        ensures
            *r.0.multipolygon == parts,
            r.1.inner == Shapes::MultiPolygon(r.0.multipolygon),
    {
        let shared = Arc::new(parts);
        let m = RustMultiPolygon { multipolygon: shared.clone() };
        let s = Shape { inner: Shapes::MultiPolygon(shared) };
        (m, s)
    }

    /// The generic handle on this polygon set, sharing its value.
    pub fn shape(&self) -> (r: Shape)
        ensures
            r.inner == Shapes::MultiPolygon(self.multipolygon),
    {
        Shape { inner: Shapes::MultiPolygon(self.multipolygon.clone()) }
    }
}

} // verus!
