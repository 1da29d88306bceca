use rustml::vectors::{copy_memory, group, random, zero};

#[test]
fn test_zero() {
    let a = zero::<i32>(4);
    assert_eq!(a, vec![0, 0, 0, 0]);
    let b = zero::<i32>(5);
    assert_eq!(b, vec![0, 0, 0, 0, 0]);
    let c = zero::<i32>(0);
    assert_eq!(c, vec![]);
}

#[test]
fn test_zero_unsigned() {
    let a = zero::<u8>(3);
    assert_eq!(a, vec![0, 0, 0]);
}

#[test]
fn test_group() {
    let mut v = vec![1i64, 1, 2, 7, 7, 9, 9, 9];
    let mut r = group(&v);
    assert_eq!(r, vec![(1, 2), (2, 1), (7, 2), (9, 3)]);

    v = vec![];
    r = group(&v);
    assert_eq!(r, vec![]);

    v = vec![1, 2, 2, 2, 3, 4];
    r = group(&v);
    assert_eq!(r, vec![(1, 1), (2, 3), (3, 1), (4, 1)]);
}

#[test]
fn test_group_single_run() {
    let v = vec![5u8, 5, 5];
    assert_eq!(group(&v), vec![(5, 3)]);
}

#[test]
fn test_random_length() {
    let r = random::<i64>(7);
    assert_eq!(r.len(), 7);
    let e = random::<u32>(0);
    assert_eq!(e.len(), 0);
}

#[test]
fn test_copy_memory() {
    let mut a = vec![0i32, 0, 0, 0];
    let b = vec![1i32, 2, 3, 4];
    assert_eq!(copy_memory(&mut a, &b, 4), 4);
    assert_eq!(a, b);

    assert_eq!(copy_memory(&mut a, &b, 5), 4);

    let mut c = vec![1.0f64, 2.0, 3.0];
    let d = vec![5.0, 6.0, 7.9];
    assert_eq!(copy_memory(&mut c, &d, 3), 3);
    assert_eq!(c, d);
}

#[test]
fn test_copy_memory_truncates() {
    let mut a = vec![9i64, 9];
    let b = vec![1i64, 2, 3];
    assert_eq!(copy_memory(&mut a, &b, 1), 1);
    assert_eq!(a, vec![1, 9]);
}
