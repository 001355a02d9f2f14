use ezpz::series::{unzip_five, unzip_pair, unzip_quad, unzip_triple};

#[test]
fn unzip_integers() {
    let (a, b, c) = unzip_triple(vec![(1, 2, 3), (4, 5, 6), (7, 8, 9)]);
    assert_eq!(a, vec![1, 4, 7]);
    assert_eq!(b, vec![2, 5, 8]);
    assert_eq!(c, vec![3, 6, 9]);
}

#[test]
fn unzip_bands() {
    let (lower, middle, upper) = unzip_triple(vec![(1.0_f64, 2.0, 3.0), (0.5, 1.5, 2.5)]);
    assert_eq!(lower, vec![1.0, 0.5]);
    assert_eq!(middle, vec![2.0, 1.5]);
    assert_eq!(upper, vec![3.0, 2.5]);
}

#[test]
fn unzip_empty() {
    let (a, b, c) = unzip_triple(Vec::<(u8, u8, u8)>::new());
    assert!(a.is_empty() && b.is_empty() && c.is_empty());
}

#[test]
fn unzip_then_rezip() {
    let data = vec![("a".to_string(), "b".to_string(), "c".to_string()), ("d".to_string(), "e".to_string(), "f".to_string())];
    let (a, b, c) = unzip_triple(data.clone());
    let rezipped: Vec<_> = a.into_iter().zip(b).zip(c).map(|((x, y), z)| (x, y, z)).collect();
    assert_eq!(rezipped, data);
}

#[test]
fn unzip_returns_and_values() {
    let (finals, percents) = unzip_pair(vec![(110.0_f64, 10.0), (99.0, -10.0)]);
    assert_eq!(finals, vec![110.0, 99.0]);
    assert_eq!(percents, vec![10.0, -10.0]);
    let (a, b) = unzip_pair(Vec::<(i32, i32)>::new());
    assert!(a.is_empty() && b.is_empty());
}

#[test]
fn unzip_pair_then_rezip() {
    let data = vec![(1, 2), (3, 4), (5, 6)];
    let (a, b) = unzip_pair(data.clone());
    let rezipped: Vec<_> = a.into_iter().zip(b).collect();
    assert_eq!(rezipped, data);
}

#[test]
fn unzip_directional_movement_rows() {
    let (p, n, a, r) = unzip_quad(vec![(1, 2, 3, 4), (5, 6, 7, 8)]);
    assert_eq!((p, n, a, r), (vec![1, 5], vec![2, 6], vec![3, 7], vec![4, 8]));
}

#[test]
fn unzip_cloud_rows() {
    let (a, b, c, d, e) = unzip_five(vec![(1.0_f64, 2.0, 3.0, 4.0, 5.0), (6.0, 7.0, 8.0, 9.0, 10.0)]);
    assert_eq!(a, vec![1.0, 6.0]);
    assert_eq!(b, vec![2.0, 7.0]);
    assert_eq!(c, vec![3.0, 8.0]);
    assert_eq!(d, vec![4.0, 9.0]);
    assert_eq!(e, vec![5.0, 10.0]);
    let (a, ..) = unzip_five(Vec::<(u8, u8, u8, u8, u8)>::new());
    assert!(a.is_empty());
}
