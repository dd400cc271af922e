use rust_optimal_transport::logical::{all, any, axis_all, axis_any, check_axis, LogicalError};

fn normal_flags(rows: &[[f64; 2]]) -> Vec<Vec<bool>> {
    rows.iter().map(|r| r.iter().map(|x| x.is_normal()).collect()).collect()
}

fn flags_with(rows: &[[f64; 2]], f: fn(f64) -> bool) -> Vec<Vec<bool>> {
    rows.iter().map(|r| r.iter().map(|x| f(*x)).collect()).collect()
}

#[test]
fn test_is_nan() {
    let arr = [1., 2., f64::NAN];
    let flags: Vec<bool> = arr.iter().map(|x| x.is_nan()).collect();
    assert_eq!(any(&flags), true);
}

#[test]
fn test_is_inf() {
    let arr = [1f32, 2f32, f32::INFINITY];
    let flags: Vec<bool> = arr.iter().map(|x| x.is_infinite()).collect();
    assert_eq!(any(&flags), true);
}

#[test]
fn test_any() {
    let arr = [1., 2., f64::INFINITY];
    let flags: Vec<bool> = arr.iter().map(|x| x.is_normal()).collect();
    assert_eq!(any(&flags), true);
}

#[test]
fn test_axis_all() {
    let arr = [[f64::INFINITY, 42.], [2., 11.]];
    assert_eq!(axis_all(&normal_flags(&arr), 2, 0).unwrap(), vec![false, true]);
}

#[test]
fn test_axis_any() {
    let arr = [[f64::INFINITY, f64::INFINITY], [f64::NAN, 11.]];
    let result = match axis_any(&normal_flags(&arr), 2, 0) {
        Ok(val) => val,
        Err(error) => panic!("{:?}", error),
    };
    assert_eq!(result, vec![false, true]);
}

#[test]
fn test_axis_is_nan() {
    let arr = [[f64::NAN, 0.], [2., 11.]];
    assert_eq!(axis_any(&flags_with(&arr, f64::is_nan), 2, 0).unwrap(), vec![true, false]);
}

#[test]
fn test_axis_is_inf() {
    let arr = [[f64::INFINITY, 0.], [2., 11.]];
    assert_eq!(axis_any(&flags_with(&arr, f64::is_infinite), 2, 0).unwrap(), vec![true, false]);
}

#[test]
fn all_and_any_on_empty_and_mixed() {
    assert!(all(&[]));
    assert!(!any(&[]));
    assert!(all(&[true, true, true]));
    assert!(!all(&[true, false, true]));
    assert!(any(&[false, false, true]));
    assert!(!any(&[false, false]));
}

#[test]
fn reduce_along_columns() {
    let grid = vec![vec![true, false, true], vec![true, false, false]];
    assert_eq!(axis_all(&grid, 3, 1), Ok(vec![true, false, false]));
    assert_eq!(axis_any(&grid, 3, 1), Ok(vec![true, false, true]));
    assert_eq!(axis_all(&grid, 3, 0), Ok(vec![false, false]));
    assert_eq!(axis_any(&grid, 3, 0), Ok(vec![true, true]));
}

#[test]
fn check_axis_bounds() {
    assert_eq!(check_axis(0, &[1, 1]), Ok(()));
    assert_eq!(check_axis(1, &[2, 3]), Ok(()));
    assert_eq!(check_axis(2, &[5, 2]), Err(LogicalError::AxisOutOfBoundsError { axis: 2, bound: 1 }));
    assert_eq!(check_axis(1, &[1, 5]), Err(LogicalError::AxisOutOfBoundsError { axis: 1, bound: 0 }));
    assert_eq!(check_axis(3, &[]), Ok(()));
}

#[test]
fn reduce_rejects_axis_out_of_bounds() {
    // with a single row, only axis 0 fits
    let grid = vec![vec![true, true, true]];
    assert_eq!(axis_all(&grid, 3, 1), Err(LogicalError::AxisOutOfBoundsError { axis: 1, bound: 0 }));
    let grid = vec![vec![true, false], vec![false, false]];
    assert_eq!(axis_any(&grid, 2, 4), Err(LogicalError::AxisOutOfBoundsError { axis: 4, bound: 1 }));
}
