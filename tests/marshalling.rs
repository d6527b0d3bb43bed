use rust_geo_python::marshal::{
    array2_to_linestring, array2_to_polygon, linestring_to_array, polygon_to_arrays,
    polygons_from_arrays, polygons_to_array2, Array2, Coord, PolygonArrays, Ring, ShapeError,
};

fn c(x: f64, y: f64) -> Coord {
    Coord { x: x.to_bits(), y: y.to_bits() }
}

fn arr(points: &[[f64; 2]]) -> Array2 {
    let mut data = Vec::new();
    for p in points {
        data.push(p[0].to_bits());
        data.push(p[1].to_bits());
    }
    Array2::new(points.len(), 2, data).unwrap()
}

fn square(x0: f64, y0: f64, side: f64) -> Array2 {
    arr(&[[x0, y0], [x0 + side, y0], [x0 + side, y0 + side], [x0, y0 + side]])
}

#[test]
fn array_new_checks_length() {
    assert!(Array2::new(2, 2, vec![1, 2, 3, 4]).is_some());
    assert!(Array2::new(2, 2, vec![1, 2, 3]).is_none());
    assert!(Array2::new(0, 5, vec![]).is_some());
    assert!(Array2::new(usize::MAX, 2, vec![]).is_none());
}

#[test]
fn rows_become_points_in_order() {
    let a = arr(&[[0.0, 1.0], [2.5, -3.0], [4.0, 4.0]]);
    let ring = array2_to_linestring(&a).unwrap();
    assert_eq!(ring.points, vec![c(0.0, 1.0), c(2.5, -3.0), c(4.0, 4.0)]);
}

#[test]
fn ring_laid_out_one_point_per_row() {
    let ring = Ring { points: vec![c(1.0, 2.0), c(3.0, 4.0)] };
    let a = linestring_to_array(&ring);
    assert_eq!(a.rows, 2);
    assert_eq!(a.cols, 2);
    let values: Vec<f64> = a.data.iter().map(|b| f64::from_bits(*b)).collect();
    assert_eq!(values, vec![1.0, 2.0, 3.0, 4.0]);
}

#[test]
fn ring_round_trip_keeps_every_point() {
    let rings = vec![
        Ring { points: vec![] },
        Ring { points: vec![c(-0.0, f64::MAX)] },
        Ring { points: vec![c(0.0, 0.0), c(4.0, 0.0), c(4.0, 4.0), c(0.0, 4.0), c(0.0, 0.0)] },
    ];
    for ring in rings {
        let back = array2_to_linestring(&linestring_to_array(&ring)).unwrap();
        assert_eq!(back.points, ring.points);
    }
}

#[test]
fn array_round_trip_keeps_every_value() {
    let a = arr(&[[7.0, 8.0], [9.0, 10.0]]);
    let back = linestring_to_array(&array2_to_linestring(&a).unwrap());
    assert_eq!(back.rows, a.rows);
    assert_eq!(back.data, a.data);
}

#[test]
fn width_other_than_two_is_rejected() {
    for (rows, cols) in [(0, 0), (0, 1), (0, 3), (3, 1), (2, 3), (1, 4)] {
        let a = Array2::new(rows, cols, vec![0; rows * cols]).unwrap();
        assert_eq!(array2_to_linestring(&a).unwrap_err(), ShapeError::BadWidth);
    }
    let empty = Array2::new(0, 2, vec![]).unwrap();
    assert_eq!(array2_to_linestring(&empty).unwrap().points.len(), 0);
}

#[test]
fn polygon_without_holes() {
    let p = array2_to_polygon(&square(0.0, 0.0, 4.0), &vec![]).unwrap();
    assert_eq!(p.exterior.points.len(), 4);
    assert!(p.interiors.is_empty());
}

#[test]
fn polygon_keeps_holes_in_order() {
    let holes = vec![square(1.0, 1.0, 1.0), arr(&[[2.5, 2.5], [3.0, 2.5], [3.0, 3.0]])];
    let p = array2_to_polygon(&square(0.0, 0.0, 4.0), &holes).unwrap();
    assert_eq!(p.interiors.len(), 2);
    assert_eq!(p.interiors[0].points[0], c(1.0, 1.0));
    assert_eq!(p.interiors[1].points.len(), 3);
    let back = polygon_to_arrays(&p);
    assert_eq!(back.exterior.data, square(0.0, 0.0, 4.0).data);
    assert_eq!(back.interiors.len(), 2);
    assert_eq!(back.interiors[1].data, holes[1].data);
}

#[test]
fn polygon_errors() {
    let empty = Array2::new(0, 2, vec![]).unwrap();
    assert_eq!(array2_to_polygon(&empty, &vec![]).unwrap_err(), ShapeError::EmptyExterior);
    let wide = Array2::new(1, 3, vec![0, 0, 0]).unwrap();
    assert_eq!(array2_to_polygon(&wide, &vec![]).unwrap_err(), ShapeError::BadWidth);
    let err = array2_to_polygon(&square(0.0, 0.0, 1.0), &vec![square(0.0, 0.0, 1.0), wide.clone()]);
    assert_eq!(err.unwrap_err(), ShapeError::BadWidth);
    // A bad width anywhere is reported before an empty exterior.
    assert_eq!(array2_to_polygon(&empty, &vec![wide]).unwrap_err(), ShapeError::BadWidth);
}

#[test]
fn polygon_sets_keep_their_order() {
    let xs = vec![
        PolygonArrays { exterior: square(0.0, 0.0, 1.0), interiors: vec![] },
        PolygonArrays { exterior: square(5.0, 5.0, 2.0), interiors: vec![square(5.5, 5.5, 0.5)] },
    ];
    let ps = polygons_from_arrays(&xs).unwrap();
    assert_eq!(ps.len(), 2);
    assert_eq!(ps[1].exterior.points[0], c(5.0, 5.0));
    let back = polygons_to_array2(&ps);
    assert_eq!(back.len(), 2);
    assert_eq!(back[0].exterior.data, xs[0].exterior.data);
    assert_eq!(back[1].interiors[0].data, xs[1].interiors[0].data);
    assert!(polygons_to_array2(&vec![]).is_empty());
}

#[test]
fn polygon_set_reports_first_error() {
    let empty = Array2::new(0, 2, vec![]).unwrap();
    let wide = Array2::new(1, 3, vec![0, 0, 0]).unwrap();
    let xs = vec![
        PolygonArrays { exterior: square(0.0, 0.0, 1.0), interiors: vec![] },
        PolygonArrays { exterior: empty, interiors: vec![] },
        PolygonArrays { exterior: wide, interiors: vec![] },
    ];
    assert_eq!(polygons_from_arrays(&xs).unwrap_err(), ShapeError::EmptyExterior);
    assert!(polygons_from_arrays(&vec![]).unwrap().is_empty());
}
