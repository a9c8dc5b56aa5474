use tge_ext::geometry::{Size, Vector};
use tge_ext::policy::ResolutionPolicy;
use tge_ext::rational::Rat;

fn rat(num: i128, den: i128) -> Rat {
    Rat::new(num, den)
}

#[test]
fn window_position_to_canvas_and_back() {
    let policy = ResolutionPolicy::Inside(Size::new(320, 256));
    let params = policy.calculate_params(Size::new(1024, 900));
    let p = Vector::new(rat(100, 1), rat(200, 1));
    let on_canvas = params.convert_to_canvas_position(p);
    // (100 - 0) / 3.2 = 31.25; (200 - 40.4) / 3.2 = 49.875
    assert!(on_canvas.x.eq_val(rat(125, 4)));
    assert!(on_canvas.y.eq_val(rat(399, 8)));
    let back = params.convert_to_window_position(on_canvas);
    assert!(back.x.eq_val(p.x));
    assert!(back.y.eq_val(p.y));
}

#[test]
fn canvas_position_to_window_and_back() {
    let policy = ResolutionPolicy::Stretch(Size::new(400, 300));
    let params = policy.calculate_params(Size::new(800, 750));
    let p = Vector::new(rat(33, 7), rat(-5, 3));
    let on_window = params.convert_to_window_position(p);
    // x * 2 + 0; y * 5/2 + 0
    assert!(on_window.x.eq_val(rat(66, 7)));
    assert!(on_window.y.eq_val(rat(-25, 6)));
    let back = params.convert_to_canvas_position(on_window);
    assert!(back.x.eq_val(p.x));
    assert!(back.y.eq_val(p.y));
}

#[test]
fn viewport_corner_maps_to_canvas_origin() {
    let policy = ResolutionPolicy::Inside(Size::new(320, 256));
    let params = policy.calculate_params(Size::new(1024, 900));
    let corner = Vector::new(rat(0, 1), rat(202, 5));
    let on_canvas = params.convert_to_canvas_position(corner);
    assert!(on_canvas.x.eq_val(rat(0, 1)));
    assert!(on_canvas.y.eq_val(rat(0, 1)));
    let back = params.convert_to_window_position(Vector::new(rat(0, 1), rat(0, 1)));
    assert!(back.x.eq_val(rat(0, 1)));
    assert!(back.y.eq_val(rat(202, 5)));
}

#[test]
fn round_trip_under_every_policy() {
    let surface = Size::new(1280, 720);
    let design = Size::new(320, 256);
    let policies = vec![
        ResolutionPolicy::Normal,
        ResolutionPolicy::Center(design),
        ResolutionPolicy::Stretch(design),
        ResolutionPolicy::Inside(design),
        ResolutionPolicy::Crop(design),
        ResolutionPolicy::FixedWidth(320),
        ResolutionPolicy::FixedHeight(256),
    ];
    let p = Vector::new(rat(417, 11), rat(-93, 13));
    for policy in policies {
        let params = policy.calculate_params(surface);
        let there = params.convert_to_canvas_position(p);
        let back = params.convert_to_window_position(there);
        assert!(back.x.eq_val(p.x));
        assert!(back.y.eq_val(p.y));
        let there2 = params.convert_to_window_position(p);
        let back2 = params.convert_to_canvas_position(there2);
        assert!(back2.x.eq_val(p.x));
        assert!(back2.y.eq_val(p.y));
    }
}

#[test]
fn rational_arithmetic_is_exact() {
    let a = rat(1, 3);
    let b = rat(1, 6);
    assert!(a.add(b).eq_val(rat(1, 2)));
    assert!(a.sub(b).eq_val(rat(1, 6)));
    assert!(a.mul(b).eq_val(rat(1, 18)));
    assert!(a.div(b).eq_val(rat(2, 1)));
    assert!(a.div(rat(-1, 6)).eq_val(rat(-2, 1)));
    // division keeps the denominator positive
    assert!(a.div(rat(-1, 6)).den > 0);
    assert!(rat(2, 4).eq_val(rat(1, 2)));
    assert!(!rat(2, 4).eq_val(rat(1, 3)));
    assert!(rat(1, 3).le(rat(1, 2)));
    assert!(!rat(1, 2).le(rat(1, 3)));
}

#[test]
fn ceiling_rounds_up() {
    assert_eq!(rat(1125, 4).ceil_to_u64(), 282);
    assert_eq!(rat(320, 1).ceil_to_u64(), 320);
    assert_eq!(rat(0, 5).ceil_to_u64(), 0);
    assert_eq!(rat(4096, 5).ceil_to_u64(), 820);
}
