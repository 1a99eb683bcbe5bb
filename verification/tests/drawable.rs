use rust_on_rails::canvas::{Color, Image as ImageKey, Shape as ShapeType};
use rust_on_rails::drawable::{variant_build, variant_request_size, Image, Layout, Shape};
use rust_on_rails::sizing::{Area, SizeRequest};

#[test]
fn shape_requests_its_own_size() {
    let s = Shape { shape: ShapeType::RoundedRectangle(0, (40, 30), 8), color: Color(1, 2, 3, 255) };
    let r = s.request_size();
    assert_eq!(r.0, SizeRequest::new(40, 30, 40, 30));
    assert!(r.1.is_empty());
}

#[test]
fn image_requests_its_shape_size() {
    let i = Image { shape: ShapeType::Ellipse(2, (7, 9)), image: ImageKey(3), color: None };
    let r = i.request_size();
    assert_eq!(r.0, SizeRequest::new(7, 9, 7, 9));
    assert_eq!(r.0.get((100, 1)), (7, 9));
    assert!(r.1.is_empty());
}

#[test]
fn enum_component_takes_its_one_child() {
    let r = variant_request_size(vec![SizeRequest::fixed((3, 4)), SizeRequest::fill()]);
    assert_eq!(r, SizeRequest::fixed((3, 4)));
    let areas = variant_build((30, 40));
    assert_eq!(areas.len(), 1);
    assert_eq!(areas[0].offset, (0, 0));
    assert_eq!(areas[0].size, (30, 40));
}

struct Stack;

impl Layout for Stack {
    fn request_size(&self, children: Vec<SizeRequest>) -> SizeRequest {
        children.first().copied().unwrap_or_default()
    }

    fn build(&self, size: (u32, u32), children: Vec<SizeRequest>) -> Vec<Area> {
        children.iter().map(|c| Area { offset: (0, 0), size: c.get(size) }).collect()
    }
}

#[test]
fn applications_write_layouts() {
    let stack = Stack;
    assert_eq!(stack.request_size(vec![SizeRequest::fixed((5, 5))]), SizeRequest::fixed((5, 5)));
    let areas = stack.build((10, 10), vec![SizeRequest::fixed((5, 5)), SizeRequest::fill()]);
    assert_eq!(areas[0].size, (5, 5));
    assert_eq!(areas[1].size, (10, 10));
}
