use vec2d::grid::Vec2D;

#[test]
fn zero_initialization() {
    let g: Vec2D<f32> = Vec2D::new(3, 4, 0.0);
    assert_eq!(g.row_count(), 3);
    assert_eq!(g.col_count(), 4);
    for j in 0..3 {
        for i in 0..4 {
            assert_eq!(g.get(j, i), 0.0);
        }
    }
}

#[test]
fn write_read_fidelity() {
    let mut g: Vec2D<f64> = Vec2D::new(3, 3, 0.0);
    g.set(1, 2, 2.5);
    assert_eq!(g.get(1, 2), 2.5);
    for j in 0..3 {
        for i in 0..3 {
            if (j, i) != (1, 2) {
                assert_eq!(g.get(j, i), 0.0);
            }
        }
    }
}

#[test]
fn row_view_bounds_and_contents() {
    let mut g: Vec2D<f32> = Vec2D::new(4, 3, 0.0);
    g.set(2, 0, 1.0);
    g.set(2, 1, 2.0);
    g.set(2, 2, 3.0);
    for j in 0..4 {
        let r = g.row(j);
        assert_eq!(r.len(), 3);
        for i in 0..3 {
            assert_eq!(r[i], g.get(j, i));
        }
    }
    assert_eq!(g.row(2), &[1.0, 2.0, 3.0]);
}

#[test]
fn flat_offset_equivalence() {
    // Distinct (j, i) pairs land on distinct offsets: give every cell a
    // distinct value through (j, i) indexing, then read each one back
    // unclobbered, both cell-wise and through the row views.
    let mut g: Vec2D<f64> = Vec2D::new(3, 4, 0.0);
    for j in 0..3 {
        for i in 0..4 {
            g.set(j, i, (j * 10 + i) as f64);
        }
    }
    for j in 0..3 {
        let r = g.row(j);
        for i in 0..4 {
            assert_eq!(g.get(j, i), (j * 10 + i) as f64);
            assert_eq!(r[i], (j * 10 + i) as f64);
        }
    }
}

#[test]
fn try_row_succeeds_iff_in_bounds() {
    let mut g: Vec2D<f32> = Vec2D::new(4, 3, 0.0);
    g.set(3, 1, 6.0);
    for j in 0..4 {
        let r = g.try_row(j).expect("row index in range");
        assert_eq!(r.len(), 3);
        for i in 0..3 {
            assert_eq!(r[i], g.get(j, i));
        }
    }
    assert!(g.try_row(4).is_none());
    assert!(g.try_row(100).is_none());
}

#[test]
fn try_set_succeeds_iff_in_bounds() {
    let mut g: Vec2D<f64> = Vec2D::new(2, 2, 0.0);
    assert!(g.try_set(1, 1, 4.5));
    assert_eq!(g.get(1, 1), 4.5);
    assert!(!g.try_set(2, 0, 9.0));
    assert!(!g.try_set(0, 2, 9.0));
    for j in 0..2 {
        for i in 0..2 {
            let expect = if (j, i) == (1, 1) { 4.5 } else { 0.0 };
            assert_eq!(g.get(j, i), expect);
        }
    }
}

#[test]
fn swap_correctness() {
    let mut a: Vec2D<f64> = Vec2D::new(2, 3, 1.0);
    let mut b: Vec2D<f64> = Vec2D::new(2, 3, 2.0);
    a.set(0, 1, 9.0);
    b.set(1, 2, 8.0);
    a.swap_buffers(&mut b);
    for j in 0..2 {
        for i in 0..3 {
            let expect_a = if (j, i) == (1, 2) { 8.0 } else { 2.0 };
            let expect_b = if (j, i) == (0, 1) { 9.0 } else { 1.0 };
            assert_eq!(a.get(j, i), expect_a);
            assert_eq!(b.get(j, i), expect_b);
        }
    }
    assert_eq!(a.row_count(), 2);
    assert_eq!(a.col_count(), 3);
}
