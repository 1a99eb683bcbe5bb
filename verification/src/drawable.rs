use vstd::prelude::*;

use crate::canvas::{Color, Image as ImageKey, Shape as ShapeType};
use crate::sizing::{Area, RequestBranch, SizeRequest};

verus! {

/// A shape drawn in one colour, as a child of a component.
#[derive(Clone, Copy, Debug)]
pub struct Shape {
    pub shape: ShapeType,
    pub color: Color,
}

impl Shape {
    /// A shape asks for exactly its own size and has no children.
    pub fn request_size(&self) -> (r: RequestBranch)
        ensures
            r.0.has_bounds(
                self.shape.spec_size().0,
                self.shape.spec_size().1,
                self.shape.spec_size().0,
                self.shape.spec_size().1,
            ),
            r.1@.len() == 0,
    {
        RequestBranch(SizeRequest::fixed(self.shape.size()), Vec::new())
    }
}

/// An image cut to a shape and optionally tinted, as a child of a component.
#[derive(Clone, Copy, Debug)]
pub struct Image {
    pub shape: ShapeType,
    pub image: ImageKey,
    pub color: Option<Color>,
}

impl Image {
    /// An image asks for exactly the size of its shape and has no children.
    pub fn request_size(&self) -> (r: RequestBranch)
        ensures
            r.0.has_bounds(
                self.shape.spec_size().0,
                self.shape.spec_size().1,
                self.shape.spec_size().0,
                self.shape.spec_size().1,
            ),
            r.1@.len() == 0,
    {
        RequestBranch(SizeRequest::fixed(self.shape.size()), Vec::new())
    }
}

/// A layout, as the applications using the components write them: from the
/// size requests of a component's children, the request of the whole; and
/// for an allotted size, the offset and size of each child.
pub trait Layout {
    fn request_size(&self, children: Vec<SizeRequest>) -> SizeRequest;

    fn build(&self, size: (u32, u32), children: Vec<SizeRequest>) -> Vec<Area>;
}

/// The size request of a component derived for an enum: the request of the
/// variant's one child, the first of `children`.
pub fn variant_request_size(children: Vec<SizeRequest>) -> (r: SizeRequest)
    requires
        children@.len() >= 1,
    ensures
        r == children@[0],
{
    let mut children = children;
    children.remove(0)
}

/// The layout of a component derived for an enum: its one child at the origin,
/// with the whole allotted size.
pub fn variant_build(size: (u32, u32)) -> (r: Vec<Area>)
    ensures
        r@.len() == 1,
        r@[0].offset == (0i32, 0i32),
        r@[0].size == size,
{
    vec![Area { offset: (0, 0), size }]
}

} // verus!
