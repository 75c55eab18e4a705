use lattice::dispatch::{fired_handlers, is_shown, plan_component, visible, BBox, Input};
use lattice::events::Events;
use lattice::layout::Viewport;
use lattice::text::GlyphCache;
use lattice::view::{Component, Event, Rectangle, Text, View, ViewUnit};

type Handler = Box<dyn FnMut(&mut Events)>;

fn viewport() -> Viewport {
    Viewport { width: 800, height: 600, em: 16 }
}

fn build(events: &mut Events) -> View<Handler> {
    let mut v: View<Handler> = View::new();
    let clicked = events.get("clicked");
    v.append(
        Rectangle::new(100000, ViewUnit::Pixel, 50000, ViewUnit::Pixel).clicked(Box::new(
            |e: &mut Events| e.set("clicked", "true"),
        )),
    );
    v.append(
        Rectangle::new(10000, ViewUnit::Pixel, 10000, ViewUnit::Pixel)
            .translate_y(200000, ViewUnit::Pixel)
            .condition("clicked", "true"),
    );
    assert!(clicked.is_empty() || clicked == "true");
    v
}

fn run_frame(events: &mut Events, input: &Input) -> Vec<usize> {
    let mut view = build(events);
    let shown = visible(&view, events);
    let cache = GlyphCache::new();
    for i in shown.iter() {
        let plan = plan_component(&view.components[*i], &viewport(), input, (0, 0), &cache);
        if let Some(s) = plan.state {
            events.state = s;
        }
        let handlers = match &mut view.components[*i] {
            Component::Rectangle(r) => &mut r.events,
            Component::Image(m) => &mut m.events,
            Component::Text(t) => &mut t.events,
        };
        for h in plan.fire.iter() {
            (handlers[*h].1)(events);
        }
    }
    shown
}

#[test]
fn click_is_seen_by_the_next_frame_only() {
    let mut events = Events::new();
    let click = Input { cursor_x: 10, cursor_y: 10, clicked: true };
    let shown = run_frame(&mut events, &click);
    assert_eq!(shown, vec![0]);
    assert_eq!(events.get("clicked"), "true");
    let idle = Input { cursor_x: -5, cursor_y: -5, clicked: false };
    let shown = run_frame(&mut events, &idle);
    assert_eq!(shown, vec![0, 1]);
}

#[test]
fn handlers_fire_by_kind_in_order() {
    let handlers: Vec<(Event, u8)> = vec![
        (Event::Clicked, 0),
        (Event::Always, 1),
        (Event::Hovered, 2),
        (Event::Always, 3),
        (Event::Hovered, 4),
    ];
    let b = BBox { x0: 0, y0: 0, x1: 10, y1: 10 };
    let outside = Input { cursor_x: 10, cursor_y: 5, clicked: true };
    assert_eq!(fired_handlers(&handlers, &b, &outside), vec![1, 3]);
    let hover = Input { cursor_x: 9, cursor_y: 0, clicked: false };
    assert_eq!(fired_handlers(&handlers, &b, &hover), vec![1, 2, 3, 4]);
    let click = Input { cursor_x: 0, cursor_y: 9, clicked: true };
    assert_eq!(fired_handlers(&handlers, &b, &click), vec![0, 1, 2, 3, 4]);
}

#[test]
fn overlapping_components_both_receive_the_click() {
    let vp = viewport();
    let a: Component<u8> = Rectangle::new(50000, ViewUnit::Pixel, 50000, ViewUnit::Pixel).clicked(1);
    let b: Component<u8> = Rectangle::new(20000, ViewUnit::Pixel, 20000, ViewUnit::Pixel).clicked(2);
    let click = Input { cursor_x: 5, cursor_y: 5, clicked: true };
    let cache = GlyphCache::new();
    assert_eq!(plan_component(&a, &vp, &click, (0, 0), &cache).fire, vec![0]);
    assert_eq!(plan_component(&b, &vp, &click, (0, 0), &cache).fire, vec![0]);
}

#[test]
fn state_modifier_names_the_last_state() {
    let vp = viewport();
    let c: Component<u8> = Rectangle::new(1000, ViewUnit::Pixel, 1000, ViewUnit::Pixel)
        .state("idle")
        .state("busy");
    let plan = plan_component(&c, &vp, &Input { cursor_x: 0, cursor_y: 0, clicked: false }, (0, 0), &GlyphCache::new());
    assert_eq!(plan.state, Some("busy".to_string()));
}

#[test]
fn text_box_follows_its_glyphs() {
    let vp = viewport();
    let mut cache = GlyphCache::new();
    cache.insert('a', 20, 10);
    let c: Component<u8> = Text::new("font.ttf", "aaa")
        .width(25000, ViewUnit::Pixel)
        .scale(20000, ViewUnit::Pixel)
        .translate_x(100000, ViewUnit::Pixel)
        .translate_y(50000, ViewUnit::Pixel)
        .shadow([1, 1, 3, 3], lattice::view::Rgba { r: 0, g: 0, b: 0, a: 128 });
    let plan = plan_component(&c, &vp, &Input { cursor_x: 0, cursor_y: 0, clicked: false }, (0, 0), &cache);
    let placed: Vec<(i64, i64)> = plan.glyphs.iter().map(|g| (g.x, g.y)).collect();
    assert_eq!(placed, vec![(100, 50), (110, 50), (100, 70)]);
    assert_eq!(
        (plan.bbox.x0, plan.bbox.y0, plan.bbox.x1, plan.bbox.y1),
        (100, 50, 120, 90)
    );
    let span = plan.shadow.unwrap();
    assert_eq!((span.x0, span.x1, span.y0, span.y1), (0, 3, 0, 3));
}

#[test]
fn conditions_gate_on_the_store() {
    let mut events = Events::new();
    let c: Component<u8> = Rectangle::new(1000, ViewUnit::Pixel, 1000, ViewUnit::Pixel).condition("mode", "");
    assert!(is_shown(&c, &events));
    events.set("mode", "edit");
    assert!(!is_shown(&c, &events));
    let d: Component<u8> = Rectangle::new(1000, ViewUnit::Pixel, 1000, ViewUnit::Pixel).condition("mode", "edit");
    assert!(is_shown(&d, &events));
}

#[test]
fn store_sets_and_gets() {
    let mut events = Events::new();
    assert_eq!(events.get("k"), "");
    events.set("k", "1");
    events.set("j", "2");
    events.set("k", "3");
    assert_eq!(events.get("k"), "3");
    assert_eq!(events.get("j"), "2");
    assert_eq!(events.keyval.len(), 2);
    events.message(vec!["hello".to_string()]);
    assert_eq!(events.messages, vec![vec!["hello".to_string()]]);
}
