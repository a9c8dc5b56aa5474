use tge_ext::adapter::{MisuseFault, ResolutionAdapter};
use tge_ext::canvas_adapter::CanvasResolutionAdapter;
use tge_ext::color::Color;
use tge_ext::geometry::{Rect, Size, Vector};
use tge_ext::policy::ResolutionPolicy;
use tge_ext::rational::Rat;
use tge_ext::transform_adapter::TransformResolutionAdapter;

fn rat(num: i128, den: i128) -> Rat {
    Rat::new(num, den)
}

// Calling `clear` before any `begin` is the misuse fault.
#[test]
fn clear_before_begin_is_misuse() {
    let adapter = CanvasResolutionAdapter::new(ResolutionPolicy::Normal, Size::new(800, 600));
    assert_eq!(adapter.clear(Color::white()), Err(MisuseFault::AdapterUnlocked));
    let adapter2 = TransformResolutionAdapter::new(ResolutionPolicy::Normal, Size::new(800, 600));
    assert_eq!(adapter2.clear(Color::white()), Err(MisuseFault::AdapterUnlocked));
}

// Calling `begin` twice without an intervening `end` is the misuse fault.
#[test]
fn begin_twice_is_misuse() {
    let surface = Size::new(800, 600);
    let mut adapter = CanvasResolutionAdapter::new(ResolutionPolicy::Normal, surface);
    assert_eq!(adapter.begin(surface), Ok(()));
    assert_eq!(adapter.begin(surface), Err(MisuseFault::AdapterLocked));
    let mut adapter2 = TransformResolutionAdapter::new(ResolutionPolicy::Normal, surface);
    assert_eq!(adapter2.begin(surface), Ok(()));
    assert_eq!(adapter2.begin(surface), Err(MisuseFault::AdapterLocked));
}

#[test]
fn mutators_rejected_while_locked() {
    let surface = Size::new(800, 600);
    let mut adapter = TransformResolutionAdapter::new(ResolutionPolicy::Normal, surface);
    adapter.begin(surface).unwrap();
    assert_eq!(
        adapter.set_policy(ResolutionPolicy::FixedWidth(320)),
        Err(MisuseFault::AdapterLocked)
    );
    assert_eq!(adapter.measure(Size::new(640, 480)), Err(MisuseFault::AdapterLocked));
    assert_eq!(adapter.policy(), ResolutionPolicy::Normal);
    adapter.end().unwrap();
    assert_eq!(adapter.set_policy(ResolutionPolicy::FixedWidth(320)), Ok(()));
    assert_eq!(adapter.policy(), ResolutionPolicy::FixedWidth(320));
}

#[test]
fn end_without_begin_is_misuse() {
    let surface = Size::new(800, 600);
    let mut adapter = CanvasResolutionAdapter::new(ResolutionPolicy::Normal, surface);
    assert_eq!(adapter.end(), Err(MisuseFault::AdapterUnlocked));
    adapter.begin(surface).unwrap();
    assert_eq!(adapter.end(), Ok(()));
    assert_eq!(adapter.end(), Err(MisuseFault::AdapterUnlocked));
}

#[test]
fn full_bracket_cycle_runs() {
    let surface = Size::new(1024, 900);
    let mut adapter = TransformResolutionAdapter::new(
        ResolutionPolicy::Inside(Size::new(320, 256)),
        surface,
    );
    adapter.begin(surface).unwrap();
    let cmd = adapter.clear(Color::new(0, 0, 0, 255)).unwrap();
    assert!(cmd.area.x.eq_val(rat(0, 1)));
    assert!(cmd.area.y.eq_val(rat(0, 1)));
    assert!(cmd.area.width.eq_val(rat(320, 1)));
    assert!(cmd.area.height.eq_val(rat(256, 1)));
    assert_eq!(cmd.color, Color::new(0, 0, 0, 255));
    adapter.end().unwrap();
    adapter.begin(surface).unwrap();
    adapter.end().unwrap();
}

#[test]
fn measure_tracks_surface_resizes() {
    let mut adapter = TransformResolutionAdapter::new(
        ResolutionPolicy::Inside(Size::new(320, 256)),
        Size::new(1024, 900),
    );
    assert!(adapter.scale_factor().x.eq_val(rat(16, 5)));
    adapter.measure(Size::new(640, 512)).unwrap();
    // Equal aspect ratios now: unit scale, full-surface viewport.
    assert!(adapter.scale_factor().x.eq_val(rat(1, 1)));
    assert!(adapter.window_viewport().width.eq_val(rat(640, 1)));
    assert!(adapter.window_viewport().height.eq_val(rat(512, 1)));
}

#[test]
fn begin_measures_implicitly() {
    let mut adapter = CanvasResolutionAdapter::new(
        ResolutionPolicy::Inside(Size::new(320, 256)),
        Size::new(1024, 900),
    );
    adapter.begin(Size::new(640, 512)).unwrap();
    assert!(adapter.scale_factor().x.eq_val(rat(1, 1)));
    adapter.end().unwrap();
}

#[test]
fn set_policy_recomputes_params() {
    let surface = Size::new(1024, 900);
    let mut adapter = CanvasResolutionAdapter::new(ResolutionPolicy::Normal, surface);
    assert!(adapter.canvas_size().width.eq_val(rat(1024, 1)));
    adapter.set_policy(ResolutionPolicy::FixedWidth(320)).unwrap();
    assert!(adapter.canvas_size().width.eq_val(rat(320, 1)));
    // canvas height = 900 / 3.2 = 281.25
    assert!(adapter.canvas_size().height.eq_val(rat(1125, 4)));
}

#[test]
fn canvas_target_size_is_ceiled() {
    let adapter = CanvasResolutionAdapter::new(
        ResolutionPolicy::FixedWidth(320),
        Size::new(1024, 900),
    );
    // canvas = 320 x 281.25, rounded up to whole pixels
    assert_eq!(adapter.canvas_target_size(), (320, 282));
}

#[test]
fn adapter_conversions_match_params() {
    let surface = Size::new(1024, 900);
    let policy = ResolutionPolicy::Inside(Size::new(320, 256));
    let adapter = TransformResolutionAdapter::new(policy, surface);
    let p = Vector::new(rat(100, 1), rat(200, 1));
    let on_canvas = adapter.convert_to_canvas_position(p);
    assert!(on_canvas.x.eq_val(rat(125, 4)));
    assert!(on_canvas.y.eq_val(rat(399, 8)));
    let back = adapter.convert_to_window_position(on_canvas);
    assert!(back.x.eq_val(p.x));
    assert!(back.y.eq_val(p.y));
}

#[test]
fn transform_canvas_viewport_round_trip() {
    let surface = Size::new(1024, 900);
    let policy = ResolutionPolicy::Inside(Size::new(320, 256));
    let adapter = TransformResolutionAdapter::new(policy, surface);
    assert!(adapter.transform().x.eq_val(rat(16, 5)));
    // The whole canvas maps onto the window viewport.
    let window = adapter.set_canvas_viewport(Some(Rect::new(
        rat(0, 1),
        rat(0, 1),
        rat(320, 1),
        rat(256, 1),
    )));
    assert!(window.x.eq_val(rat(0, 1)));
    assert!(window.y.eq_val(rat(202, 5)));
    assert!(window.width.eq_val(rat(1024, 1)));
    assert!(window.height.eq_val(rat(4096, 5)));
    // And back.
    let canvas = adapter.canvas_viewport(window);
    assert!(canvas.x.eq_val(rat(0, 1)));
    assert!(canvas.y.eq_val(rat(0, 1)));
    assert!(canvas.width.eq_val(rat(320, 1)));
    assert!(canvas.height.eq_val(rat(256, 1)));
    // None selects the computed window viewport itself.
    let whole = adapter.set_canvas_viewport(None);
    assert!(whole.y.eq_val(rat(202, 5)));
}
