use numutil::{abs_diff, generate_sequential_identifiers, sequential_identifiers_from};

#[test]
fn test_abs_diff() {
    let a = 10;
    let b = 5;
    assert_eq!(abs_diff(a, b), 5);
    assert_eq!(abs_diff(b, a), 5);
}

#[test]
fn test_abs_diff_equal_values() {
    assert_eq!(abs_diff(7u32, 7u32), 0);
    assert_eq!(abs_diff(0i64, 0i64), 0);
}

#[test]
fn test_abs_diff_signed() {
    assert_eq!(abs_diff(3i32, -4i32), 7);
    assert_eq!(abs_diff(-4i32, 3i32), 7);
}

#[test]
fn test_abs_diff_unsigned_extremes() {
    assert_eq!(abs_diff(u16::MAX, 0u16), u16::MAX);
    assert_eq!(abs_diff(0u16, u16::MAX), u16::MAX);
}

#[test]
fn test_sequential_identifiers_from_ordinary_draw() {
    assert_eq!(sequential_identifiers_from(0), (0, 1));
    assert_eq!(sequential_identifiers_from(41), (41, 42));
    assert_eq!(sequential_identifiers_from(65534), (65534, 65535));
}

#[test]
fn test_sequential_identifiers_from_boundary_draw() {
    assert_eq!(sequential_identifiers_from(u16::MAX), (65534, 65535));
}

#[test]
fn test_generate_sequential_identifiers() {
    let (recv_id, send_id) = generate_sequential_identifiers();
    assert_eq!(send_id, recv_id + 1);
}

#[test]
fn test_generate_sequential_identifiers_repeated_calls() {
    for _ in 0..1000 {
        let (recv_id, send_id) = generate_sequential_identifiers();
        assert_eq!(send_id, recv_id + 1);
    }
}
