use tge_ext::geometry::Size;
use tge_ext::policy::ResolutionPolicy;
use tge_ext::rational::Rat;

fn rat(num: i128, den: i128) -> Rat {
    Rat::new(num, den)
}

#[test]
fn normal_keeps_surface() {
    let params = ResolutionPolicy::Normal.calculate_params(Size::new(800, 600));
    assert!(params.canvas_size.width.eq_val(rat(800, 1)));
    assert!(params.canvas_size.height.eq_val(rat(600, 1)));
    assert!(params.scale_factor.x.eq_val(rat(1, 1)));
    assert!(params.scale_factor.y.eq_val(rat(1, 1)));
    assert!(params.window_viewport.x.eq_val(rat(0, 1)));
    assert!(params.window_viewport.y.eq_val(rat(0, 1)));
    assert!(params.window_viewport.width.eq_val(rat(800, 1)));
    assert!(params.window_viewport.height.eq_val(rat(600, 1)));
}

#[test]
fn center_pins_design_size() {
    let policy = ResolutionPolicy::Center(Size::new(320, 240));
    let params = policy.calculate_params(Size::new(800, 600));
    assert!(params.canvas_size.width.eq_val(rat(320, 1)));
    assert!(params.canvas_size.height.eq_val(rat(240, 1)));
    assert!(params.scale_factor.x.eq_val(rat(1, 1)));
    assert!(params.scale_factor.y.eq_val(rat(1, 1)));
    assert!(params.window_viewport.x.eq_val(rat(240, 1)));
    assert!(params.window_viewport.y.eq_val(rat(180, 1)));
    assert!(params.window_viewport.width.eq_val(rat(320, 1)));
    assert!(params.window_viewport.height.eq_val(rat(240, 1)));
}

#[test]
fn stretch_scales_each_axis() {
    let policy = ResolutionPolicy::Stretch(Size::new(400, 300));
    let params = policy.calculate_params(Size::new(800, 750));
    assert!(params.canvas_size.width.eq_val(rat(400, 1)));
    assert!(params.canvas_size.height.eq_val(rat(300, 1)));
    assert!(params.scale_factor.x.eq_val(rat(2, 1)));
    assert!(params.scale_factor.y.eq_val(rat(5, 2)));
    assert!(params.window_viewport.width.eq_val(rat(800, 1)));
    assert!(params.window_viewport.height.eq_val(rat(750, 1)));
}

// Surface 1024x900, design 320x256 (aspect 1.25): the surface is relatively
// narrower, so `Inside` scales by width: scale = 1024/320 = 3.2, viewport
// height = 256 * 3.2 = 819.2, vertical offset = (900 - 819.2) / 2 = 40.4.
#[test]
fn inside_letterboxes_narrow_surface() {
    let policy = ResolutionPolicy::Inside(Size::new(320, 256));
    let params = policy.calculate_params(Size::new(1024, 900));
    assert!(params.canvas_size.width.eq_val(rat(320, 1)));
    assert!(params.canvas_size.height.eq_val(rat(256, 1)));
    // 3.2 == 16/5
    assert!(params.scale_factor.x.eq_val(rat(16, 5)));
    assert!(params.scale_factor.y.eq_val(rat(16, 5)));
    assert!(params.window_viewport.x.eq_val(rat(0, 1)));
    // 40.4 == 202/5
    assert!(params.window_viewport.y.eq_val(rat(202, 5)));
    assert!(params.window_viewport.width.eq_val(rat(1024, 1)));
    // 819.2 == 4096/5
    assert!(params.window_viewport.height.eq_val(rat(4096, 5)));
}

#[test]
fn inside_pillarboxes_wide_surface() {
    let policy = ResolutionPolicy::Inside(Size::new(320, 256));
    let params = policy.calculate_params(Size::new(1024, 600));
    // scale = 600/256 = 75/32 = 2.34375
    assert!(params.scale_factor.x.eq_val(rat(75, 32)));
    // viewport width = 320 * 75/32 = 750, x = (1024 - 750) / 2 = 137
    assert!(params.window_viewport.x.eq_val(rat(137, 1)));
    assert!(params.window_viewport.y.eq_val(rat(0, 1)));
    assert!(params.window_viewport.width.eq_val(rat(750, 1)));
    assert!(params.window_viewport.height.eq_val(rat(600, 1)));
}

#[test]
fn inside_equal_aspect_is_identity() {
    let policy = ResolutionPolicy::Inside(Size::new(512, 300));
    let params = policy.calculate_params(Size::new(1024, 600));
    assert!(params.scale_factor.x.eq_val(rat(1, 1)));
    assert!(params.scale_factor.y.eq_val(rat(1, 1)));
    assert!(params.window_viewport.x.eq_val(rat(0, 1)));
    assert!(params.window_viewport.y.eq_val(rat(0, 1)));
    assert!(params.window_viewport.width.eq_val(rat(1024, 1)));
    assert!(params.window_viewport.height.eq_val(rat(600, 1)));
}

#[test]
fn crop_equal_aspect_is_identity() {
    let policy = ResolutionPolicy::Crop(Size::new(512, 300));
    let params = policy.calculate_params(Size::new(1024, 600));
    assert!(params.scale_factor.x.eq_val(rat(1, 1)));
    assert!(params.scale_factor.y.eq_val(rat(1, 1)));
    assert!(params.window_viewport.x.eq_val(rat(0, 1)));
    assert!(params.window_viewport.y.eq_val(rat(0, 1)));
    assert!(params.window_viewport.width.eq_val(rat(1024, 1)));
    assert!(params.window_viewport.height.eq_val(rat(600, 1)));
}

#[test]
fn crop_covers_narrow_surface() {
    let policy = ResolutionPolicy::Crop(Size::new(320, 256));
    let params = policy.calculate_params(Size::new(1024, 900));
    // The surface is relatively narrower, so Crop scales by height:
    // scale = 900/256 = 225/64 = 3.515625; viewport width = 320 * scale =
    // 1125; x = (1024 - 1125) / 2 = -50.5.
    assert!(params.scale_factor.x.eq_val(rat(225, 64)));
    assert!(params.window_viewport.x.eq_val(rat(-101, 2)));
    assert!(params.window_viewport.y.eq_val(rat(0, 1)));
    assert!(params.window_viewport.width.eq_val(rat(1125, 1)));
    assert!(params.window_viewport.height.eq_val(rat(900, 1)));
}

#[test]
fn fixed_width_derives_height() {
    let policy = ResolutionPolicy::FixedWidth(320);
    let params = policy.calculate_params(Size::new(1024, 900));
    // scale = 1024/320 = 3.2; canvas height = 900 / 3.2 = 281.25
    assert!(params.scale_factor.x.eq_val(rat(16, 5)));
    assert!(params.scale_factor.y.eq_val(rat(16, 5)));
    assert!(params.canvas_size.width.eq_val(rat(320, 1)));
    assert!(params.canvas_size.height.eq_val(rat(1125, 4)));
    assert!(params.window_viewport.width.eq_val(rat(1024, 1)));
    assert!(params.window_viewport.height.eq_val(rat(900, 1)));
}

#[test]
fn fixed_height_derives_width() {
    let policy = ResolutionPolicy::FixedHeight(256);
    let params = policy.calculate_params(Size::new(1024, 600));
    // scale = 600/256 = 75/32; canvas width = 1024 / (75/32) = 436.9066...
    // == 32768/75
    assert!(params.scale_factor.y.eq_val(rat(75, 32)));
    assert!(params.canvas_size.width.eq_val(rat(32768, 75)));
    assert!(params.canvas_size.height.eq_val(rat(256, 1)));
}

#[test]
fn default_policy_is_normal() {
    assert_eq!(ResolutionPolicy::default(), ResolutionPolicy::Normal);
}

#[test]
fn fit_params_match_adapt_params() {
    let policy = ResolutionPolicy::Inside(Size::new(320, 256));
    let surface = Size::new(1024, 900);
    let fit = policy.calculate_fit_params(surface);
    let params = policy.calculate_params(surface);
    assert_eq!(fit.canvas_size, params.canvas_size);
    assert_eq!(fit.canvas_scale, params.scale_factor);
    assert_eq!(fit.viewport, params.window_viewport);
}
