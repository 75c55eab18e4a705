use lattice::dispatch::{plan_component, Input};
use lattice::layout::{resolve, resolve_box, Axis, Viewport};
use lattice::text::GlyphCache;
use lattice::view::{Modifier, Rectangle, ViewUnit, Width};

type Handler = u32;

fn viewport(width: u32, height: u32) -> Viewport {
    Viewport { width, height, em: 16 }
}

fn no_input() -> Input {
    Input { cursor_x: -1, cursor_y: -1, clicked: false }
}

#[test]
fn resolving_twice_gives_the_same_pixels() {
    let vp = viewport(1024, 768);
    let units = [
        ViewUnit::Em,
        ViewUnit::Percent,
        ViewUnit::HorizontalPercent,
        ViewUnit::VerticalPercent,
        ViewUnit::MinPercent,
        ViewUnit::MaxPercent,
        ViewUnit::Center,
        ViewUnit::Pixel,
    ];
    for unit in units.iter() {
        for scalar in [-12345, 0, 1, 999, 1000, 50000, 2147483647].iter() {
            let a = resolve(*scalar, *unit, Axis::Vertical, &vp);
            let b = resolve(*scalar, *unit, Axis::Vertical, &vp);
            assert_eq!(a, b);
        }
    }
}

#[test]
fn units_resolve_against_their_basis() {
    let vp = viewport(1000, 500);
    assert_eq!(resolve(2000, ViewUnit::Em, Axis::Horizontal, &vp), Some(32));
    assert_eq!(resolve(50000, ViewUnit::Percent, Axis::Horizontal, &vp), Some(500));
    assert_eq!(resolve(50000, ViewUnit::Percent, Axis::Vertical, &vp), Some(250));
    assert_eq!(resolve(10000, ViewUnit::HorizontalPercent, Axis::Vertical, &vp), Some(100));
    assert_eq!(resolve(10000, ViewUnit::VerticalPercent, Axis::Horizontal, &vp), Some(50));
    assert_eq!(resolve(10000, ViewUnit::MinPercent, Axis::Horizontal, &vp), Some(50));
    assert_eq!(resolve(10000, ViewUnit::MaxPercent, Axis::Vertical, &vp), Some(100));
    assert_eq!(resolve(7000, ViewUnit::Center, Axis::Horizontal, &vp), None);
    assert_eq!(resolve(-5000, ViewUnit::Pixel, Axis::Horizontal, &vp), Some(-5));
}

#[test]
fn fractional_pixels_round_up() {
    let vp = viewport(1000, 500);
    assert_eq!(resolve(1500, ViewUnit::Pixel, Axis::Horizontal, &vp), Some(2));
    assert_eq!(resolve(-1500, ViewUnit::Pixel, Axis::Horizontal, &vp), Some(-1));
    assert_eq!(resolve(333, ViewUnit::Percent, Axis::Horizontal, &vp), Some(4));
}

#[test]
fn last_width_modifier_wins() {
    let vp = viewport(1000, 800);
    let mods: Vec<Modifier> = vec![
        Width::new(50000, ViewUnit::Percent),
        Width::new(30000, ViewUnit::Percent),
    ];
    let b = resolve_box(&mods, &vp, 0, 0);
    assert_eq!(b.width, 300);
}

#[test]
fn repeated_translate_does_not_accumulate() {
    let vp = viewport(1000, 800);
    let c = Rectangle::<Handler>::new(10000, ViewUnit::Pixel, 10000, ViewUnit::Pixel)
        .translate_x(20000, ViewUnit::Pixel)
        .translate_x(20000, ViewUnit::Pixel);
    let b = resolve_box(c.modifiers(), &vp, 0, 0);
    assert_eq!(b.x, 20);
}

#[test]
fn center_of_gravity_moves_the_anchor() {
    let vp = viewport(800, 600);
    let c = Rectangle::<Handler>::new(100000, ViewUnit::Pixel, 100000, ViewUnit::Pixel)
        .translate_x(0, ViewUnit::Pixel)
        .translate_y(0, ViewUnit::Pixel)
        .cog(500, 500);
    let plan = plan_component(&c, &vp, &no_input(), (0, 0), &GlyphCache::new());
    assert_eq!(
        (plan.bbox.x0, plan.bbox.y0, plan.bbox.x1, plan.bbox.y1),
        (-50, -50, 50, 50)
    );
}

#[test]
fn center_unit_centers_in_the_viewport() {
    let vp = viewport(800, 600);
    let c = Rectangle::<Handler>::new(200000, ViewUnit::Pixel, 100000, ViewUnit::Pixel)
        .translate_x(0, ViewUnit::Center);
    let b = resolve_box(c.modifiers(), &vp, 0, 0);
    assert_eq!(b.x, 300);
    assert_eq!(b.y, 0);
}

#[test]
fn center_of_an_odd_remainder_rounds_down() {
    let vp = viewport(801, 600);
    let c = Rectangle::<Handler>::new(200000, ViewUnit::Pixel, 100000, ViewUnit::Pixel)
        .translate_y(0, ViewUnit::Center)
        .translate_x(0, ViewUnit::Center);
    let b = resolve_box(c.modifiers(), &vp, 0, 0);
    assert_eq!(b.x, 300);
    assert_eq!(b.y, 250);
}

#[test]
fn natural_size_applies_without_size_modifiers() {
    let vp = viewport(800, 600);
    let b = resolve_box(&Vec::new(), &vp, 64, 32);
    assert_eq!((b.x, b.y, b.width, b.height, b.line_height), (0, 0, 64, 32, 16));
}

#[test]
fn border_is_drawn_around_the_box() {
    let vp = viewport(800, 600);
    let black = lattice::view::Rgba { r: 0, g: 0, b: 0, a: 255 };
    let c = Rectangle::<Handler>::new(10000, ViewUnit::Pixel, 20000, ViewUnit::Pixel)
        .translate_x(5000, ViewUnit::Pixel)
        .border(black, 2000, ViewUnit::Pixel);
    let plan = plan_component(&c, &vp, &no_input(), (0, 0), &GlyphCache::new());
    let border = plan.border.unwrap();
    assert_eq!((border.x0, border.y0, border.x1, border.y1), (3, -2, 17, 22));
    let none = Rectangle::<Handler>::new(10000, ViewUnit::Pixel, 20000, ViewUnit::Pixel);
    let plan = plan_component(&none, &vp, &no_input(), (0, 0), &GlyphCache::new());
    assert!(plan.border.is_none());
}
