use mnml_virt_docker::view::truncate;

#[test]
fn truncate_short_strings_unchanged() {
    assert_eq!(truncate("short", 10), "short");
}

#[test]
fn truncate_long_strings_ellipsised() {
    let s = truncate("a_very_long_image_name", 8);
    assert_eq!(s.chars().count(), 8);
    assert!(s.ends_with('…'));
}
