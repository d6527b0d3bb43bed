//! Planar geometry over numeric arrays.
//!
//! Rings, polygons and polygon sets come in as arrays with one point per row
//! (`marshal`), are held as shapes of five kinds whose handles share one value
//! (`shapes`), and go to a geometry kernel as calls that this library picks and
//! fills: a distance formula for every pair of kinds (`dispatch`), and the
//! boolean operations and batch distances over polygons (`operations`). Results
//! come back out through the same marshalling. Coordinates are carried as the
//! bit patterns of doubles and never computed with here.
pub mod dispatch;
pub mod marshal;
pub mod operations;
pub mod shapes;
