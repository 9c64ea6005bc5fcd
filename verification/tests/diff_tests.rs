use expect_test_bytes::diff::first_diff_index;

#[test]
fn equal_sequences_have_no_divergence() {
    assert_eq!(first_diff_index(b"", b""), None);
    assert_eq!(first_diff_index(b"a", b"a"), None);
    assert_eq!(first_diff_index(b"example\n", b"example\n"), None);
    assert_eq!(first_diff_index(&[0, 1, 255], &[0, 1, 255]), None);
}

#[test]
fn empty_against_one_byte_diverges_at_zero() {
    assert_eq!(first_diff_index(b"", b"x"), Some(0));
    assert_eq!(first_diff_index(b"x", b""), Some(0));
}

#[test]
fn first_differing_byte_is_reported() {
    assert_eq!(first_diff_index(b"example\n", b"exa- not this\n"), Some(3));
    assert_eq!(first_diff_index(&[1, 2, 3], &[1, 2, 4]), Some(2));
    assert_eq!(first_diff_index(&[9, 2, 3], &[1, 2, 3]), Some(0));
}

#[test]
fn strict_prefix_diverges_at_shorter_length() {
    assert_eq!(first_diff_index(&[1, 2], &[1, 2, 3]), Some(2));
    assert_eq!(first_diff_index(&[1, 2, 3], &[1, 2]), Some(2));
}

#[test]
fn prefix_before_divergence_matches() {
    let a = b"golden content";
    let b = b"golden disagreement";
    let i = first_diff_index(a, b).unwrap();
    assert_eq!(a[..i], b[..i]);
    assert_ne!(a[i], b[i]);
}
