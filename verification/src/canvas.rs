use vstd::prelude::*;
use vstd::string::*;

use crate::hex_codec::{hex_decodable, hex_digit_value, spec_hex_decode, hex_decode};

verus! {

/// An RGBA colour.
#[derive(Clone, Copy, Debug)]
pub struct Color(pub u8, pub u8, pub u8, pub u8);

/// The bytes of colour text without a leading `#`.
pub open spec fn without_hash(text: Seq<u8>) -> Seq<u8> {
    if text.len() > 0 && text[0] == 35 {
        text.subrange(1, text.len() as int)
    } else {
        text
    }
}

/// Colour text that `Color::from_hex` accepts: after an optional `#`, hex for
/// at least three bytes (red, green, blue; further bytes are ignored).
pub open spec fn is_hex_color(text: Seq<u8>) -> bool {
    &&& hex_decodable(without_hash(text))
    &&& spec_hex_decode(without_hash(text)).len() >= 3
}

/// The colour that `from_hex` makes of accepted text.
pub open spec fn spec_from_hex(text: Seq<u8>, alpha: u8) -> Color {
    let c = spec_hex_decode(without_hash(text));
    Color(c[0], c[1], c[2], alpha)
}

/// The next colour of a text span when it is pressed: red turns green, green
/// turns blue, blue turns white and white turns red.
pub open spec fn spec_pressed_highlight(c: Color) -> Color {
    if c.0 > 0 && c.1 == 0 {
        Color(0, 255, 0, 255)
    } else if c.0 > 0 && c.1 > 0 {
        Color(255, 0, 0, 255)
    } else if c.1 > 0 {
        Color(0, 0, 255, 255)
    } else if c.2 > 0 {
        Color(255, 255, 255, 255)
    } else {
        c
    }
}

impl Color {
    /// The colour written as hex (`"#ff8000"` or `"ff8000"`) with the given alpha.
    pub fn from_hex(color: &'static str, alpha: u8) -> (r: Self)
        requires
            is_hex_color(color.spec_bytes()),
        ensures
            r == spec_from_hex(color.spec_bytes(), alpha),
    {
        let bytes = color.as_bytes();
        let digits = if bytes.len() > 0 && bytes[0] == 35 {
            vstd::slice::slice_subrange(bytes, 1, bytes.len())
        } else {
            bytes
        };
        assert(digits@ == without_hash(color.spec_bytes()));
        let c = hex_decode(digits).unwrap();
        Color(c[0], c[1], c[2], alpha)
    }

    /// See `spec_pressed_highlight`; black stays black.
    pub fn pressed_highlight(self) -> (r: Self)
        ensures
            r == spec_pressed_highlight(self),
    {
        if self.0 > 0 && self.1 == 0 {
            Color(0, 255, 0, 255)
        } else if self.0 > 0 && self.1 > 0 {
            Color(255, 0, 0, 255)
        } else if self.1 > 0 {
            Color(0, 0, 255, 255)
        } else if self.2 > 0 {
            Color(255, 255, 255, 255)
        } else {
            self
        }
    }
}

/// Where an item is drawn: its offset and, optionally, the bounds it is clipped
/// to (x, y, width, height); without bounds it may cover the whole canvas.
#[derive(Clone, Copy, Debug)]
pub struct Area(pub (i32, i32), pub Option<(i32, i32, u32, u32)>);

/// A shape with a stroke width (0 fills it) and a size.
#[derive(Clone, Copy, Debug)]
pub enum Shape {
    Ellipse(u32, (u32, u32)),
    Rectangle(u32, (u32, u32)),
    RoundedRectangle(u32, (u32, u32), u32),
}

impl Shape {
    pub open spec fn spec_size(self) -> (u32, u32) {
        match self {
            Shape::Ellipse(_, size) => size,
            Shape::Rectangle(_, size) => size,
            Shape::RoundedRectangle(_, size, _) => size,
        }
    }

    /// The width and height of the shape.
    pub fn size(&self) -> (r: (u32, u32))
        ensures
            r == self.spec_size(),
    {
        match self {
            Shape::Ellipse(_, size) => *size,
            Shape::Rectangle(_, size) => *size,
            Shape::RoundedRectangle(_, size, _) => *size,
        }
    }
}

/// An image held by the renderer, named by the key its image atlas gave it.
#[derive(Clone, Copy, Debug)]
pub struct Image(pub u64);

/// A font held by the renderer, named by the key its font atlas gave it.
#[derive(Clone, Copy, Debug)]
pub struct Font(pub u64);

/// A run of text with its colour, optional wrapping width, font size, line
/// height and font.
#[derive(Debug)]
pub struct Text {
    pub text: String,
    pub color: Color,
    pub width: Option<u32>,
    pub size: u32,
    pub line_height: u32,
    pub font: Font,
}

impl Text {
    pub fn new(text: &str, color: Color, width: Option<u32>, size: u32, line_height: u32, font: Font) -> (r: Self)
        ensures
            r.text@ == text@,
            r.color == color,
            r.width == width,
            r.size == size,
            r.line_height == line_height,
            r.font == font,
    {
        Text { text: String::from_str(text), color, width, size, line_height, font }
    }
}

/// Something to draw: a filled or stroked shape, an image cut to a shape and
/// optionally tinted, or text.
#[derive(Debug)]
pub enum CanvasItem {
    Shape(Shape, Color),
    Image(Shape, Image, Option<Color>),
    Text(Text),
}

impl CanvasItem {
    /// The size of the item. Shapes and images have the size of their shape;
    /// text has the size that the renderer measured for it, `text_size`.
    pub fn size(&self, text_size: (u32, u32)) -> (r: (u32, u32))
        ensures
            r == (match self {
                CanvasItem::Shape(shape, _) => shape.spec_size(),
                CanvasItem::Image(shape, _, _) => shape.spec_size(),
                CanvasItem::Text(_) => text_size,
            }),
    {
        match self {
            CanvasItem::Shape(shape, _) => shape.size(),
            CanvasItem::Image(shape, _, _) => shape.size(),
            CanvasItem::Text(_) => text_size,
        }
    }
}

/// Pressing a coloured span four times brings back its first colour, for each
/// of the four colours of the cycle.
pub proof fn lemma_highlight_cycles(c: Color)
    requires
        c == Color(255, 0, 0, 255) || c == Color(0, 255, 0, 255) || c == Color(0, 0, 255, 255) || c == Color(
            255,
            255,
            255,
            255,
        ),
    ensures
        spec_pressed_highlight(spec_pressed_highlight(spec_pressed_highlight(spec_pressed_highlight(c)))) == c,
{
}

/// Black text has no highlight: pressing it leaves it as it is.
pub proof fn lemma_black_stays(a: u8)
    ensures
        spec_pressed_highlight(Color(0, 0, 0, a)) == Color(0, 0, 0, a),
{
}

/// Colour text is read two hex digits per channel, high digit first, after an
/// optional `#`: red from the first pair, green from the second, blue from the
/// third; the alpha is the one given.
pub proof fn lemma_from_hex_reads_pairs(text: Seq<u8>, alpha: u8)
    requires
        is_hex_color(text),
    ensures
        ({
            let o: int = if text.len() > 0 && text[0] == 35 { 1 } else { 0 };
            let c = spec_from_hex(text, alpha);
            &&& c.0 == 16 * hex_digit_value(text[o]) + hex_digit_value(text[o + 1])
            &&& c.1 == 16 * hex_digit_value(text[o + 2]) + hex_digit_value(text[o + 3])
            &&& c.2 == 16 * hex_digit_value(text[o + 4]) + hex_digit_value(text[o + 5])
            &&& c.3 == alpha
        }),
{
    let o: int = if text.len() > 0 && text[0] == 35 { 1 } else { 0 };
    let digits = without_hash(text);
    assert forall|j: int| 0 <= j < digits.len() implies #[trigger] digits[j] == text[o + j] by {}
    assert forall|j: int| 0 <= j < 6 implies 0 <= hex_digit_value(#[trigger] digits[j]) < 16 by {
        assert(crate::hex_codec::is_hex_digit(digits[j]));
    }
    assert(digits[0] == text[o]);
    assert(digits[1] == text[o + 1]);
    assert(digits[2] == text[o + 2]);
    assert(digits[3] == text[o + 3]);
    assert(digits[4] == text[o + 4]);
    assert(digits[5] == text[o + 5]);
}

} // verus!
