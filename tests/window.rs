use lattice::view::{AlignUnit, Component, Image, Text, View};
use lattice::window::Window;

#[test]
fn window_configuration() {
    let mut w = Window::new("Premadeath").set_fullscreen(true);
    assert_eq!(w.title(), "Premadeath");
    assert!(w.fullscreen());
    w.load_assets(vec![("a.png", vec![1]), ("b.ttf", vec![2, 3])]);
    let names: Vec<&str> = w.assets().iter().map(|a| a.0.as_str()).collect();
    assert_eq!(names, vec!["b.ttf", "a.png"]);
}

#[test]
fn components_and_views_keep_their_order() {
    let mut v: View<u8> = View::new();
    v.append(Image::new("assets/background.png")).append(Text::new("f.ttf", "hi").align(AlignUnit::Right));
    assert_eq!(v.components.len(), 2);
    match &v.components[1] {
        Component::Text(t) => {
            assert_eq!(t.align, AlignUnit::Right);
            assert_eq!(t.content, "hi");
        }
        _ => panic!("expected text"),
    }
}
