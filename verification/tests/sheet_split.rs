use tge_ext::color::Color;
use tge_ext::frame::{get_texture_region, split_region, Frame};
use tge_ext::geometry::{Rect, Size, Vector};
use tge_ext::rational::Rat;
use tge_ext::sprite::Sprite;

fn rat(num: i128, den: i128) -> Rat {
    Rat::new(num, den)
}

fn zero() -> Vector {
    Vector::new(rat(0, 1), rat(0, 1))
}

#[test]
fn split_region_tiles_row_major() {
    let region = Rect::new(rat(0, 1), rat(0, 1), rat(128, 1), rat(32, 1));
    let cells = split_region(region, 4, 2);
    assert_eq!(cells.len(), 8);
    for row in 0..2usize {
        for col in 0..4usize {
            let c = &cells[row * 4 + col];
            assert!(c.x.eq_val(rat(32 * col as i128, 1)));
            assert!(c.y.eq_val(rat(16 * row as i128, 1)));
            assert!(c.width.eq_val(rat(32, 1)));
            assert!(c.height.eq_val(rat(16, 1)));
        }
    }
}

#[test]
fn split_region_with_offset_and_fractions() {
    // A 100-wide strip split into 3 columns: each cell is 100/3 wide.
    let region = Rect::new(rat(10, 1), rat(5, 1), rat(100, 1), rat(20, 1));
    let cells = split_region(region, 3, 1);
    assert_eq!(cells.len(), 3);
    assert!(cells[0].x.eq_val(rat(10, 1)));
    assert!(cells[1].x.eq_val(rat(130, 3)));
    assert!(cells[2].x.eq_val(rat(230, 3)));
    for c in &cells {
        assert!(c.width.eq_val(rat(100, 3)));
        assert!(c.height.eq_val(rat(20, 1)));
        assert!(c.y.eq_val(rat(5, 1)));
    }
}

#[test]
fn frame_split_keeps_name_and_origin() {
    let region = Rect::new(rat(0, 1), rat(0, 1), rat(128, 1), rat(16, 1));
    let origin = Vector::new(rat(8, 1), rat(8, 1));
    let frames = Frame::split("coin", region, 8, 1, origin);
    assert_eq!(frames.len(), 8);
    for (i, f) in frames.iter().enumerate() {
        assert_eq!(f.res_name(), "coin");
        assert!(f.origin().x.eq_val(rat(8, 1)));
        assert!(f.region().x.eq_val(rat(16 * i as i128, 1)));
        assert!(f.region().y.eq_val(rat(0, 1)));
        assert!(f.region().width.eq_val(rat(16, 1)));
        assert!(f.region().height.eq_val(rat(16, 1)));
    }
}

#[test]
fn sprite_split_keeps_name_and_color() {
    let mut sprite = Sprite::new(
        "characters".to_string(),
        Rect::new(rat(0, 1), rat(32, 1), rat(128, 1), rat(32, 1)),
    );
    sprite.set_color(Color::new(1, 2, 3, 4));
    let cells = sprite.split(4, 1, zero());
    assert_eq!(cells.len(), 4);
    for (i, s) in cells.iter().enumerate() {
        assert_eq!(s.res_name(), "characters");
        assert_eq!(s.color(), Color::new(1, 2, 3, 4));
        assert!(s.region().x.eq_val(rat(32 * i as i128, 1)));
        assert!(s.region().y.eq_val(rat(32, 1)));
        assert!(s.region().width.eq_val(rat(32, 1)));
        assert!(s.region().height.eq_val(rat(32, 1)));
    }
}

#[test]
fn sprite_starts_neutral() {
    let sprite = Sprite::new(
        "tank".to_string(),
        Rect::new(rat(0, 1), rat(0, 1), rat(64, 1), rat(64, 1)),
    );
    assert_eq!(sprite.color(), Color::white());
    assert!(sprite.origin().x.eq_val(rat(0, 1)));
    assert!(sprite.origin().y.eq_val(rat(0, 1)));
}

#[test]
fn frame_accessors_update_fields() {
    let mut f = Frame::new(
        "a".to_string(),
        Rect::new(rat(0, 1), rat(0, 1), rat(8, 1), rat(8, 1)),
        zero(),
    );
    f.set_res_name("b".to_string());
    assert_eq!(f.res_name(), "b");
    f.set_region(Rect::new(rat(1, 1), rat(2, 1), rat(3, 1), rat(4, 1)));
    assert!(f.region().height.eq_val(rat(4, 1)));
    f.set_origin(Vector::new(rat(5, 1), rat(6, 1)));
    assert!(f.origin().y.eq_val(rat(6, 1)));
}

#[test]
fn texture_region_covers_whole_texture() {
    let r = get_texture_region(Size::new(64, 48));
    assert!(r.x.eq_val(rat(0, 1)));
    assert!(r.y.eq_val(rat(0, 1)));
    assert!(r.width.eq_val(rat(64, 1)));
    assert!(r.height.eq_val(rat(48, 1)));
}
