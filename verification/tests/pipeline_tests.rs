use penguin_plot::sample::{render_curve, ForStruct};
use penguin_plot::style::{color_kind, ColorKind, Style};
use penguin_plot::tree_node::TreeNode;

fn leaf(s: &str) -> TreeNode {
    TreeNode { val: s.to_string(), left: None, right: None }
}

fn unary(s: &str, l: TreeNode) -> TreeNode {
    TreeNode { val: s.to_string(), left: Some(Box::new(l)), right: None }
}

fn identity_style() -> Style {
    Style {
        origin: ((0.0f64).to_bits(), (0.0f64).to_bits()),
        rot: (0.0f64).to_bits(),
        scale: ((1.0f64).to_bits(), (1.0f64).to_bits()),
        size: (2.0f64).to_bits(),
        color: "blue".to_string(),
    }
}

fn transform_f(st: &Style, x: f64, y: f64) -> (f64, f64) {
    let (a, b) = st.process_data(x.to_bits(), y.to_bits());
    (f64::from_bits(a), f64::from_bits(b))
}

#[test]
fn transform_scale_only() {
    let mut st = identity_style();
    st.scale = ((2.0f64).to_bits(), (1.0f64).to_bits());
    let (x, y) = transform_f(&st, 1.0, 1.0);
    assert_eq!(x, 2.0);
    assert_eq!(y, 1.0);
}

#[test]
fn transform_rotation_is_coupled() {
    let mut st = identity_style();
    let rot = std::f64::consts::FRAC_PI_2;
    st.rot = rot.to_bits();
    let (x, y) = transform_f(&st, 1.0, 0.0);
    // Derived from the coupled formula: after scaling, xs = 1, ys = 0;
    // x' = xs*cos + ys*sin = cos(pi/2); y' = ys*cos - x'*sin, computed from
    // the already-rotated x', giving -cos(pi/2)*sin(pi/2).
    let c = rot.cos();
    let s = rot.sin();
    let expected_x = 1.0 * c + 0.0 * s;
    let expected_y = 0.0 * c - expected_x * s;
    assert_eq!(x.to_bits(), expected_x.to_bits());
    assert_eq!(y.to_bits(), expected_y.to_bits());
    // The naive uncoupled rotation would give y = -sin(pi/2) = -1 instead.
    assert_ne!(y, -1.0);
    assert!(y.abs() < 1e-15);
}

#[test]
fn transform_translates_after_rotation() {
    let mut st = identity_style();
    st.origin = ((10.0f64).to_bits(), (-3.0f64).to_bits());
    let (x, y) = transform_f(&st, 1.5, 2.5);
    // cos(0) = 1 and sin(0) = 0 exactly, so rotation leaves the point alone.
    assert_eq!(x, 11.5);
    assert_eq!(y, -0.5);
}

#[test]
fn render_curve_sine_scenario() {
    // x(t) = t, y(t) = sin(t) over [0, 6.28] with step 0.1 in the default
    // window x in [0, 10], y in [-4, 4].
    let stat = ForStruct {
        from: (0.0f64).to_bits(),
        to: (6.28f64).to_bits(),
        step: (0.1f64).to_bits(),
        x: Box::new(leaf("t")),
        y: Box::new(unary("sin", leaf("t"))),
    };
    let st = identity_style();
    let xr = ((0.0f64).to_bits(), (10.0f64).to_bits());
    let yr = ((-4.0f64).to_bits(), (4.0f64).to_bits());
    let points = render_curve(&stat, &st, xr, yr);

    // Replicate the parameter chain: t starts at 0 and advances by rounded
    // addition of 0.1 while below the stop 6.28 + 0.1.
    let mut expected_t: Vec<f64> = Vec::new();
    let stop = 6.28 + 0.1;
    let mut t = 0.0f64;
    while t < stop {
        expected_t.push(t);
        t += 0.1;
    }
    assert_eq!(points.len(), expected_t.len());
    let approx = (6.28 - 0.0) / 0.1 + 1.0;
    assert!((points.len() as f64 - approx).abs() <= 1.5);
    for (i, (xb, yb)) in points.iter().enumerate() {
        let x = f64::from_bits(*xb);
        let y = f64::from_bits(*yb);
        assert_eq!(x.to_bits(), expected_t[i].to_bits());
        assert_eq!(y.to_bits(), x.sin().to_bits());
        assert!((0.0..=10.0).contains(&x));
        assert!((-4.0..=4.0).contains(&y));
    }
}

#[test]
fn render_curve_clips_to_window() {
    // y(t) = t leaves the window y in [-1, 1] once t exceeds 1.
    let stat = ForStruct {
        from: (0.0f64).to_bits(),
        to: (5.0f64).to_bits(),
        step: (0.5f64).to_bits(),
        x: Box::new(leaf("t")),
        y: Box::new(leaf("t")),
    };
    let st = identity_style();
    let xr = ((0.0f64).to_bits(), (10.0f64).to_bits());
    let yr = ((-1.0f64).to_bits(), (1.0f64).to_bits());
    let points = render_curve(&stat, &st, xr, yr);
    // Samples 0, 0.5, 1 survive; later ones exceed the y window.
    assert_eq!(points.len(), 3);
    for (_, yb) in points {
        assert!(f64::from_bits(yb) <= 1.0);
    }
}

#[test]
fn render_curve_domain_clamped_by_x_range() {
    // The curve's own domain [-5, 50] is clamped against x in [0, 2].
    let stat = ForStruct {
        from: (-5.0f64).to_bits(),
        to: (50.0f64).to_bits(),
        step: (1.0f64).to_bits(),
        x: Box::new(leaf("t")),
        y: Box::new(leaf("0")),
    };
    let st = identity_style();
    let xr = ((0.0f64).to_bits(), (2.0f64).to_bits());
    let yr = ((-4.0f64).to_bits(), (4.0f64).to_bits());
    let points = render_curve(&stat, &st, xr, yr);
    // Effective domain [0, 2], stop 3: samples 0, 1, 2, all inside.
    assert_eq!(points.len(), 3);
    assert_eq!(f64::from_bits(points[0].0), 0.0);
    assert_eq!(f64::from_bits(points[2].0), 2.0);
}

#[test]
fn render_curve_drops_nan_points() {
    // ln(-1) is NaN at every sample; nothing may survive clipping.
    let stat = ForStruct {
        from: (0.0f64).to_bits(),
        to: (2.0f64).to_bits(),
        step: (0.5f64).to_bits(),
        x: Box::new(leaf("t")),
        y: Box::new(unary("ln", leaf("-1"))),
    };
    let st = identity_style();
    let xr = ((0.0f64).to_bits(), (10.0f64).to_bits());
    let yr = ((-4.0f64).to_bits(), (4.0f64).to_bits());
    let points = render_curve(&stat, &st, xr, yr);
    assert_eq!(points.len(), 0);
}

#[test]
fn render_curve_empty_when_domain_misses_window() {
    let stat = ForStruct {
        from: (20.0f64).to_bits(),
        to: (30.0f64).to_bits(),
        step: (1.0f64).to_bits(),
        x: Box::new(leaf("t")),
        y: Box::new(leaf("0")),
    };
    let st = identity_style();
    // The window ends at x = 10, so the clamped domain is empty: the chain
    // starts at 20 with stop 11 and yields nothing.
    let xr = ((0.0f64).to_bits(), (10.0f64).to_bits());
    let yr = ((-4.0f64).to_bits(), (4.0f64).to_bits());
    let points = render_curve(&stat, &st, xr, yr);
    assert_eq!(points.len(), 0);
}

#[test]
fn color_names_map_to_colors() {
    assert_eq!(color_kind(&"blue".to_string()), ColorKind::Blue);
    assert_eq!(color_kind(&"red".to_string()), ColorKind::Red);
    assert_eq!(color_kind(&"green".to_string()), ColorKind::Green);
    assert_eq!(color_kind(&"black".to_string()), ColorKind::Black);
    assert_eq!(color_kind(&"yellow".to_string()), ColorKind::Yellow);
    assert_eq!(color_kind(&"cyan".to_string()), ColorKind::Cyan);
    assert_eq!(color_kind(&"magenta".to_string()), ColorKind::Magenta);
    assert_eq!(color_kind(&"chartreuse".to_string()), ColorKind::Transparent);
    assert_eq!(color_kind(&"".to_string()), ColorKind::Transparent);
}
