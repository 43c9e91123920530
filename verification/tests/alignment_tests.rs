use diskflash::alignment::{align_down, align_up};

#[test]
fn align_up_rounds_to_next_multiple() {
    assert_eq!(align_up(5, 4), 8);
    assert_eq!(align_up(1, 512), 512);
    assert_eq!(align_up(513, 512), 1024);
    assert_eq!(align_up(4 * 1024 * 1024, 8 * 1024 * 1024), 8 * 1024 * 1024);
    assert_eq!(align_up(204800, 32768), 229376);
}

#[test]
fn align_up_properties_on_samples() {
    for &(v, a) in &[(0u64, 1u64), (1, 7), (100, 64), (12345, 512), (1 << 40, 4096)] {
        let r = align_up(v, a);
        assert_eq!(r % a, 0);
        assert!(r >= v);
        assert!(r - v < a);
    }
}

#[test]
fn align_down_rounds_to_previous_multiple() {
    assert_eq!(align_down(5, 4), 4);
    assert_eq!(align_down(511, 512), 0);
    assert_eq!(align_down(1024, 512), 1024);
    assert_eq!(align_down(u64::MAX, 2), u64::MAX - 1);
}

#[test]
fn align_down_properties_on_samples() {
    for &(v, a) in &[(0u64, 1u64), (1, 7), (100, 64), (12345, 512), (u64::MAX, 4096)] {
        let r = align_down(v, a);
        assert_eq!(r % a, 0);
        assert!(r <= v);
        assert!(v - r < a);
    }
}

#[test]
fn aligned_values_are_fixed_points() {
    for &(v, a) in &[(0u64, 4u64), (8, 4), (512, 512), (32768, 32768), (1 << 30, 1 << 20)] {
        assert_eq!(align_up(v, a), v);
        assert_eq!(align_down(v, a), v);
    }
}
