use virtuoso_cli::layout_ops::LayoutOps;

fn ops() -> LayoutOps {
    LayoutOps::new()
}

#[test]
fn create_rect_skill_format() {
    let s = ops().create_rect("M1", "drawing", &[(0, 0), (100, 200)]);
    assert_eq!(
        s,
        r#"rodCreateRect(?layer "M1" ?purpose "drawing" ?bBox ((0 0) (100 200)))"#
    );
}

#[test]
fn create_rect_escapes_layer() {
    let s = ops().create_rect(r#"M"1"#, "drawing", &[(0, 0), (1, 1)]);
    assert!(s.contains(r#""M\"1""#), "layer must be escaped: {s}");
}

#[test]
fn create_polygon_skill_format() {
    let pts = vec![(0, 0), (10, 0), (10, 10)];
    let s = ops().create_polygon("poly", "drawing", &pts);
    assert!(s.contains("rodCreatePolygon"), "{s}");
    assert!(s.contains("0 0"), "{s}");
    assert!(s.contains("10 10"), "{s}");
}

#[test]
fn create_path_includes_width() {
    let pts = vec![(0, 0), (50, 0)];
    let s = ops().create_path("M2", "drawing", 5, &pts);
    assert!(s.contains("?width 5"), "{s}");
}

#[test]
fn create_instance_orientation() {
    let s = ops().create_instance("tsmc", "nmos", "layout", (10, 20), "MY");
    assert!(s.contains("\"MY\""), "orient must appear: {s}");
    assert!(s.contains("10:20") || s.contains("10 20"), "origin must appear: {s}");
}

#[test]
fn create_via_uses_colon_origin() {
    let s = ops().create_via("M1_M2", (-5, 7));
    assert_eq!(s, r#"rodCreateVia(?viaHeader "M1_M2" ?origin -5:7)"#);
}

#[test]
fn create_polygon_exact_text() {
    let s = ops().create_polygon("poly", "drawing", &[(0, 0), (10, 0), (10, 10)]);
    assert_eq!(
        s,
        r#"rodCreatePolygon(?layer "poly" ?purpose "drawing" ?points list(0 0 10 0 10 10))"#
    );
}
