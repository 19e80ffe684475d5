use vstd::prelude::*;

verus! {

/// Number of vertices of the shared template: two triangles that cover the
/// unit square.
pub const TEMPLATE_VERTEX_COUNT: usize = 6;

/// One marker as the instance buffer stores it.
///
/// Each component is the IEEE-754 bit pattern of an `f32`, so that packing
/// moves markers bit for bit.
#[derive(Clone, Copy, Debug, PartialEq, Eq)]
pub struct Circle {
    pub circle_position: [u32; 3],
    pub color: [u32; 4],
    pub radius: u32,
}

/// One vertex of the template shape, in unit coordinates (each component is
/// -1, 0 or 1).
#[derive(Clone, Copy, Debug, PartialEq, Eq)]
pub struct MyVertex {
    pub local_position: [i32; 3],
}

/// A template vertex at `(x, y, 0)`.
pub open spec fn corner(x: i32, y: i32) -> MyVertex {
    MyVertex { local_position: [x, y, 0] }
}

/// The template: top-right, top-left, bottom-right, then bottom-left,
/// top-left, bottom-right.
pub open spec fn template_spec() -> Seq<MyVertex> {
    seq![
        corner(1i32, 1i32),
        corner(-1i32, 1i32),
        corner(1i32, -1i32),
        corner(-1i32, -1i32),
        corner(-1i32, 1i32),
        corner(1i32, -1i32),
    ]
}

fn make_corner(x: i32, y: i32) -> (r: MyVertex)
    ensures
        r == corner(x, y),
{
    MyVertex { local_position: [x, y, 0] }
}

impl Circle {
    /// The vertices of the template shape that every marker is drawn with.
    pub fn vertex() -> (r: Vec<MyVertex>)
        ensures
            r@ == template_spec(),
            r@.len() == TEMPLATE_VERTEX_COUNT,
    {
        let top_right = make_corner(1, 1);
        let top_left = make_corner(-1, 1);
        let bottom_left = make_corner(-1, -1);
        let bottom_right = make_corner(1, -1);
        let mut r: Vec<MyVertex> = Vec::new();
        r.push(top_right);
        r.push(top_left);
        r.push(bottom_right);
        r.push(bottom_left);
        r.push(top_left);
        r.push(bottom_right);
        assert(r@ =~= template_spec());
        r
    }

    /// A marker of the given radius, position and colour (bit patterns).
    pub fn new(radius: u32, position: [u32; 3], color: [u32; 4]) -> (r: Circle)
        ensures
            r.radius == radius,
            r.circle_position == position,
            r.color == color,
    {
        Circle { radius, color, circle_position: position }
    }
}

} // verus!
