use rust_on_rails::canvas::{Area, CanvasItem, Color, Font, Image, Shape, Text};

fn rgba(c: Color) -> (u8, u8, u8, u8) {
    (c.0, c.1, c.2, c.3)
}

#[test]
fn from_hex_with_and_without_hash() {
    assert_eq!(rgba(Color::from_hex("#ff8000", 255)), (255, 128, 0, 255));
    assert_eq!(rgba(Color::from_hex("0A0b0C", 7)), (10, 11, 12, 7));
    assert_eq!(rgba(Color::from_hex("#01020304", 9)), (1, 2, 3, 9));
}

#[test]
fn pressed_highlight_cycles() {
    let red = Color(255, 0, 0, 255);
    let green = Color::pressed_highlight(red);
    let blue = green.pressed_highlight();
    let white = blue.pressed_highlight();
    assert_eq!(rgba(green), (0, 255, 0, 255));
    assert_eq!(rgba(blue), (0, 0, 255, 255));
    assert_eq!(rgba(white), (255, 255, 255, 255));
    assert_eq!(rgba(white.pressed_highlight()), (255, 0, 0, 255));
    assert_eq!(rgba(Color(0, 0, 0, 3).pressed_highlight()), (0, 0, 0, 3));
    assert_eq!(rgba(Color(10, 20, 0, 0).pressed_highlight()), (255, 0, 0, 255));
}

#[test]
fn shape_sizes() {
    assert_eq!(Shape::Ellipse(1, (2, 3)).size(), (2, 3));
    assert_eq!(Shape::Rectangle(0, (4, 5)).size(), (4, 5));
    assert_eq!(Shape::RoundedRectangle(1, (6, 7), 8).size(), (6, 7));
}

#[test]
fn canvas_item_sizes() {
    let shape = CanvasItem::Shape(Shape::Rectangle(0, (10, 20)), Color(0, 0, 0, 255));
    assert_eq!(shape.size((1, 1)), (10, 20));
    let image = CanvasItem::Image(Shape::Ellipse(0, (30, 40)), Image(3), None);
    assert_eq!(image.size((1, 1)), (30, 40));
    let text = CanvasItem::Text(Text::new("hi", Color(1, 2, 3, 4), Some(100), 12, 16, Font(1)));
    assert_eq!(text.size((17, 19)), (17, 19));
}

#[test]
fn text_new_keeps_fields() {
    let t = Text::new("hello", Color(1, 2, 3, 4), None, 12, 14, Font(5));
    assert_eq!(t.text, "hello");
    assert_eq!(rgba(t.color), (1, 2, 3, 4));
    assert_eq!((t.width, t.size, t.line_height, t.font.0), (None, 12, 14, 5));
}

#[test]
fn area_holds_offset_and_bounds() {
    let a = Area((1, -2), Some((0, 0, 5, 6)));
    assert_eq!(a.0, (1, -2));
    assert_eq!(a.1, Some((0, 0, 5, 6)));
}
