use vstd::prelude::*;

verus! {

/// A planar coordinate. Each component is the IEEE-754 bit pattern of a
/// double: the library moves coordinates around and never computes with them,
/// so a value comes back out exactly as it went in.
#[derive(Clone, Copy, Debug, PartialEq, Eq, Structural)]
pub struct Coord {
    pub x: u64,
    pub y: u64,
}

/// Why a numeric array could not be turned into a shape.
#[derive(Clone, Copy, Debug, PartialEq, Eq, Structural)]
pub enum ShapeError {
    /// The array's second dimension is not 2.
    BadWidth,
    /// A polygon's exterior ring has no points.
    EmptyExterior,
}

/// A row-major numeric array of `rows` × `cols` values.
#[derive(Clone, Debug)]
pub struct Array2 {
    pub rows: usize,
    pub cols: usize,
    pub data: Vec<u64>,
}

impl Array2 {
    /// The data holds exactly one value per cell.
    pub open spec fn wf(&self) -> bool {
        self.data@.len() == self.rows * self.cols
    }

    /// Builds an array from its shape and its row-major values.
    pub fn new(rows: usize, cols: usize, data: Vec<u64>) -> (r: Option<Array2>)
        ensures
            r is Some <==> data@.len() == rows * cols,
            r matches Some(a) ==> a.wf() && a.rows == rows && a.cols == cols && a.data@ == data@,
    {
        let len = data.len();
        match rows.checked_mul(cols) {
            Some(n) => {
                if len == n {
                    Some(Array2 { rows, cols, data })
                } else {
                    None
                }
            },
            None => {
                None
            },
        }
    }
}

/// An ordered sequence of points: a path, or the boundary of a polygon.
#[derive(Clone, Debug)]
pub struct Ring {
    pub points: Vec<Coord>,
}

impl View for Ring {
    type V = Seq<Coord>;

    open spec fn view(&self) -> Seq<Coord> {
        self.points@
    }
}

/// What a polygon is made of: its exterior ring and its holes, in order.
pub ghost struct PolygonModel {
    pub exterior: Seq<Coord>,
    pub interiors: Seq<Seq<Coord>>,
}

/// An exterior ring and zero or more interior rings (holes).
#[derive(Clone, Debug)]
pub struct PolygonRecord {
    pub exterior: Ring,
    pub interiors: Vec<Ring>,
}

/// The points of each ring, in order.
pub open spec fn rings_view(rs: Seq<Ring>) -> Seq<Seq<Coord>> {
    rs.map_values(|r: Ring| r@)
}

impl View for PolygonRecord {
    type V = PolygonModel;

    open spec fn view(&self) -> PolygonModel {
        PolygonModel { exterior: self.exterior@, interiors: rings_view(self.interiors@) }
    }
}

/// The points that a width-2 array's rows spell: row `i` is point `i`.
pub open spec fn ring_from_data(rows: nat, data: Seq<u64>) -> Seq<Coord> {
    Seq::new(rows, |i: int| Coord { x: data[2 * i], y: data[2 * i + 1] })
}

/// The row-major values of a ring laid out one point per row.
pub open spec fn data_from_ring(r: Seq<Coord>) -> Seq<u64> {
    Seq::new(2 * r.len(), |k: int| if k % 2 == 0 { r[k / 2].x } else { r[k / 2].y })
}

/// The ring that a well-formed width-2 array describes.
pub open spec fn ring_of(a: Array2) -> Seq<Coord> {
    ring_from_data(a.rows as nat, a.data@)
}

/// Turns an array with one point per row into a ring, keeping row order.
pub fn array2_to_linestring(x: &Array2) -> (r: Result<Ring, ShapeError>)
    requires
        x.wf(),
    ensures
        x.cols != 2 ==> r == Err::<Ring, ShapeError>(ShapeError::BadWidth),
        x.cols == 2 ==> (r matches Ok(ring) && ring@ == ring_of(*x)),
{
    if x.cols != 2 {
        return Err(ShapeError::BadWidth);
    }
    let n = x.data.len();
    let mut points: Vec<Coord> = Vec::new();
    let mut i: usize = 0;
    while i < x.rows
        invariant
            x.wf(),
            n == x.data@.len(),
            x.cols == 2,
            i <= x.rows,
            points@ =~= ring_from_data(i as nat, x.data@),
        decreases x.rows - i,
    {
        assert(2 * i + 1 < x.data@.len()) by (nonlinear_arith)
            requires
                i < x.rows,
                x.data@.len() == x.rows * 2,
        ;
        let c = Coord { x: x.data[2 * i], y: x.data[2 * i + 1] };
        points.push(c);
        i = i + 1;
    }
    Ok(Ring { points })
}

/// Lays a ring out as an array with one point per row, columns (x, y).
pub fn linestring_to_array(ls: &Ring) -> (r: Array2)
    ensures
        r.wf(),
        r.cols == 2,
        r.rows == ls@.len(),
        r.data@ == data_from_ring(ls@),
{
    let mut data: Vec<u64> = Vec::new();
    let mut i: usize = 0;
    while i < ls.points.len()
        invariant
            i <= ls@.len(),
            data@ =~= data_from_ring(ls@.subrange(0, i as int)),
            forall|k: int|
                0 <= k < 2 * i ==> #[trigger] data@[k] == (if k % 2 == 0 {
                    ls@[k / 2].x
                } else {
                    ls@[k / 2].y
                }),
        decreases ls@.len() - i,
    {
        let p = ls.points[i];
        data.push(p.x);
        data.push(p.y);
        i = i + 1;
        assert(data@ =~= data_from_ring(ls@.subrange(0, i as int)));
    }
    assert(ls@.subrange(0, i as int) =~= ls@);
    Array2 { rows: ls.points.len(), cols: 2, data }
}

/// Reading back an array that a ring was laid out as gives that ring again,
/// point for point and in order.
pub proof fn lemma_ring_round_trip(r: Seq<Coord>)
    ensures
        ring_from_data(r.len(), data_from_ring(r)) == r,
{
    let d = data_from_ring(r);
    assert forall|i: int| 0 <= i < r.len() implies ring_from_data(r.len(), d)[i] == r[i] by {
        assert((2 * i) % 2 == 0 && (2 * i) / 2 == i);
        assert((2 * i + 1) % 2 == 1 && (2 * i + 1) / 2 == i);
    }
    assert(ring_from_data(r.len(), d) =~= r);
}

/// Laying out the ring that a width-2 array describes gives back that array's
/// values, so the two directions are inverse to each other.
pub proof fn lemma_array_round_trip(rows: nat, data: Seq<u64>)
    requires
        data.len() == 2 * rows,
    ensures
        data_from_ring(ring_from_data(rows, data)) == data,
{
    let r = ring_from_data(rows, data);
    assert forall|k: int| 0 <= k < data.len() implies data_from_ring(r)[k] == data[k] by {
        let i = k / 2;
        assert(0 <= i < rows);
        if k % 2 == 0 {
            assert(k == 2 * i);
        } else {
            assert(k == 2 * i + 1);
        }
    }
    assert(data_from_ring(r) =~= data);
}

/// A polygon in array form: the exterior ring's array and one array per hole.
#[derive(Clone, Debug)]
pub struct PolygonArrays {
    pub exterior: Array2,
    pub interiors: Vec<Array2>,
}

impl PolygonArrays {
    /// Every array in it is well formed.
    pub open spec fn wf(&self) -> bool {
        &&& self.exterior.wf()
        &&& forall|i: int| 0 <= i < self.interiors@.len() ==> (#[trigger] self.interiors@[i]).wf()
    }
}

/// Why an exterior array and hole arrays do not describe a polygon, if they do not:
/// a width other than 2 anywhere first, then an exterior without points.
pub open spec fn polygon_error(ext: Array2, ints: Seq<Array2>) -> Option<ShapeError> {
    if ext.cols != 2 || exists|i: int| 0 <= i < ints.len() && (#[trigger] ints[i]).cols != 2 {
        Some(ShapeError::BadWidth)
    } else if ext.rows == 0 {
        Some(ShapeError::EmptyExterior)
    } else {
        None
    }
}

/// The polygon that an exterior array and hole arrays describe.
pub open spec fn polygon_of(ext: Array2, ints: Seq<Array2>) -> PolygonModel {
    PolygonModel {
        exterior: ring_of(ext),
        interiors: Seq::new(ints.len(), |i: int| ring_of(ints[i])),
    }
}

/// `a` is the array form of the ring `r`.
pub open spec fn array_matches(a: Array2, r: Seq<Coord>) -> bool {
    &&& a.wf()
    &&& a.cols == 2
    &&& a.rows == r.len()
    &&& a.data@ == data_from_ring(r)
}

/// `a` is the array form of the polygon `p`: exterior first, then each hole in order.
pub open spec fn polygon_arrays_match(a: PolygonArrays, p: PolygonModel) -> bool {
    &&& array_matches(a.exterior, p.exterior)
    &&& a.interiors@.len() == p.interiors.len()
    &&& forall|i: int|
        0 <= i < p.interiors.len() ==> array_matches(#[trigger] a.interiors@[i], p.interiors[i])
}

/// Reading back the arrays that a polygon was laid out as gives that polygon
/// again, with every hole in its place, provided its exterior has a point.
pub proof fn lemma_polygon_round_trip(a: PolygonArrays, p: PolygonModel)
    requires
        polygon_arrays_match(a, p),
        p.exterior.len() > 0,
    ensures
        polygon_error(a.exterior, a.interiors@) is None,
        polygon_of(a.exterior, a.interiors@) == p,
{
    lemma_ring_round_trip(p.exterior);
    assert forall|i: int| 0 <= i < a.interiors@.len() implies ring_of(a.interiors@[i])
        == p.interiors[i] by {
        assert(array_matches(a.interiors@[i], p.interiors[i]));
        lemma_ring_round_trip(p.interiors[i]);
    }
    assert(polygon_of(a.exterior, a.interiors@).interiors =~= p.interiors);
}

/// Builds a polygon from its exterior array and its hole arrays; no hole is fine.
pub fn array2_to_polygon(x: &Array2, ys: &Vec<Array2>) -> (r: Result<PolygonRecord, ShapeError>)
    requires
        x.wf(),
        forall|i: int| 0 <= i < ys@.len() ==> (#[trigger] ys@[i]).wf(),
    ensures
        match polygon_error(*x, ys@) {
            Some(e) => r == Err::<PolygonRecord, ShapeError>(e),
            None => r matches Ok(p) && p@ == polygon_of(*x, ys@),
        },
{
    let exterior = match array2_to_linestring(x) {
        Ok(ring) => ring,
        Err(e) => {
            return Err(e);
        },
    };
    let mut interiors: Vec<Ring> = Vec::new();
    let mut i: usize = 0;
    while i < ys.len()
        invariant
            forall|k: int| 0 <= k < ys@.len() ==> (#[trigger] ys@[k]).wf(),
            i <= ys@.len(),
            interiors@.len() == i,
            forall|k: int| 0 <= k < i ==> ys@[k].cols == 2,
            forall|k: int| 0 <= k < i ==> (#[trigger] interiors@[k])@ == ring_of(ys@[k]),
        decreases ys@.len() - i,
    {
        match array2_to_linestring(&ys[i]) {
            Ok(ring) => {
                interiors.push(ring);
            },
            Err(e) => {
                assert(ys@[i as int].cols != 2);
                return Err(e);
            },
        }
        i = i + 1;
    }
    if x.rows == 0 {
        return Err(ShapeError::EmptyExterior);
    }
    let p = PolygonRecord { exterior, interiors };
    assert(rings_view(p.interiors@) =~= Seq::new(ys@.len(), |k: int| ring_of(ys@[k])));
    Ok(p)
}

/// Lays a polygon out as arrays: the exterior's, then one per hole in order.
pub fn polygon_to_arrays(p: &PolygonRecord) -> (r: PolygonArrays)
    ensures
        r.wf(),
        polygon_arrays_match(r, p@),
{
    let exterior = linestring_to_array(&p.exterior);
    let mut interiors: Vec<Array2> = Vec::new();
    let mut i: usize = 0;
    while i < p.interiors.len()
        invariant
            i <= p.interiors@.len(),
            interiors@.len() == i,
            forall|k: int| 0 <= k < i ==> array_matches(#[trigger] interiors@[k], p@.interiors[k]),
        decreases p.interiors@.len() - i,
    {
        let a = linestring_to_array(&p.interiors[i]);
        interiors.push(a);
        i = i + 1;
    }
    PolygonArrays { exterior, interiors }
}

/// Lays each polygon of a set out as arrays, keeping the order of the set.
pub fn polygons_to_array2(polygons: &Vec<PolygonRecord>) -> (r: Vec<PolygonArrays>)
    ensures
        r@.len() == polygons@.len(),
        forall|i: int|
            0 <= i < r@.len() ==> (#[trigger] r@[i]).wf() && polygon_arrays_match(
                r@[i],
                polygons@[i]@,
            ),
{
    let mut out: Vec<PolygonArrays> = Vec::new();
    let mut i: usize = 0;
    while i < polygons.len()
        invariant
            i <= polygons@.len(),
            out@.len() == i,
            forall|k: int|
                0 <= k < i ==> (#[trigger] out@[k]).wf() && polygon_arrays_match(
                    out@[k],
                    polygons@[k]@,
                ),
        decreases polygons@.len() - i,
    {
        let a = polygon_to_arrays(&polygons[i]);
        out.push(a);
        i = i + 1;
    }
    out
}

/// Builds each polygon of a set from its arrays, keeping the order of the set;
/// fails with the error of the first polygon whose arrays do not describe one.
pub fn polygons_from_arrays(xs: &Vec<PolygonArrays>) -> (r: Result<Vec<PolygonRecord>, ShapeError>)
    requires
        forall|i: int| 0 <= i < xs@.len() ==> (#[trigger] xs@[i]).wf(),
    ensures
        match r {
            Ok(ps) => {
                &&& ps@.len() == xs@.len()
                &&& forall|i: int|
                    0 <= i < xs@.len() ==> (#[trigger] polygon_error(
                        xs@[i].exterior,
                        xs@[i].interiors@,
                    )) is None
                &&& forall|i: int|
                    0 <= i < xs@.len() ==> (#[trigger] ps@[i])@ == polygon_of(
                        xs@[i].exterior,
                        xs@[i].interiors@,
                    )
            },
            Err(e) => exists|k: int|
                0 <= k < xs@.len() && polygon_error(xs@[k].exterior, xs@[k].interiors@) == Some(e)
                    && forall|j: int|
                    0 <= j < k ==> (#[trigger] polygon_error(xs@[j].exterior, xs@[j].interiors@))
                        is None,
        },
{
    let mut out: Vec<PolygonRecord> = Vec::new();
    let mut i: usize = 0;
    while i < xs.len()
        invariant
            forall|k: int| 0 <= k < xs@.len() ==> (#[trigger] xs@[k]).wf(),
            i <= xs@.len(),
            out@.len() == i,
            forall|k: int|
                0 <= k < i ==> (#[trigger] polygon_error(xs@[k].exterior, xs@[k].interiors@))
                    is None,
            forall|k: int|
                0 <= k < i ==> (#[trigger] out@[k])@ == polygon_of(
                    xs@[k].exterior,
                    xs@[k].interiors@,
                ),
        decreases xs@.len() - i,
    {
        let x = &xs[i];
        match array2_to_polygon(&x.exterior, &x.interiors) {
            Ok(p) => {
                out.push(p);
            },
            Err(e) => {
                return Err(e);
            },
        }
        i = i + 1;
    }
    Ok(out)
}

} // verus!
