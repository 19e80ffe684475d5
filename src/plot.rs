use vstd::prelude::*;
use crate::circles::Circle;

verus! {

/// One scatter chart: the identity of its window and its markers in the order
/// they were added.
pub struct Plot {
    pub id: u64,
    pub circles: Vec<Circle>,
}

/// Why a list of points could not be turned into markers.
#[derive(Clone, Copy, Debug, PartialEq, Eq)]
pub enum ScatterError {
    /// The x and y coordinate lists differ in length.
    LengthMismatch,
    /// There is no plot to add the markers to.
    NoCurrentPlot,
}

/// The marker that `scatter` builds from one point.
pub open spec fn point_marker(x: u32, y: u32, radius: u32, color: [u32; 4]) -> Circle {
    Circle { circle_position: [x, y, 0u32], color, radius }
}

/// The markers that `scatter` builds from two coordinate lists of one length.
pub open spec fn point_markers(xs: Seq<u32>, ys: Seq<u32>, radius: u32, color: [u32; 4]) -> Seq<
    Circle,
> {
    Seq::new(xs.len(), |i: int| point_marker(xs[i], ys[i], radius, color))
}

/// Markers of one radius and colour at the points `(xs[i], ys[i], 0)`, in the
/// order of the lists; coordinates, radius and colour are `f32` bit patterns.
/// Fails when the two lists differ in length.
pub fn markers_from_points(xs: &Vec<u32>, ys: &Vec<u32>, radius: u32, color: [u32; 4]) -> (r:
    Result<Vec<Circle>, ScatterError>)
    ensures
        xs@.len() != ys@.len() <==> r is Err,
        r is Err ==> r == Err::<Vec<Circle>, ScatterError>(ScatterError::LengthMismatch),
        r is Ok ==> r->Ok_0@ == point_markers(xs@, ys@, radius, color),
{
    if xs.len() != ys.len() {
        return Err(ScatterError::LengthMismatch);
    }
    let mut out: Vec<Circle> = Vec::new();
    let mut i: usize = 0;
    while i < xs.len()
        invariant
            xs@.len() == ys@.len(),
            i <= xs@.len(),
            out@ =~= point_markers(xs@, ys@, radius, color).subrange(0, i as int),
        decreases xs@.len() - i,
    {
        out.push(Circle::new(radius, [xs[i], ys[i], 0u32], color));
        i = i + 1;
    }
    assert(out@ =~= point_markers(xs@, ys@, radius, color));
    Ok(out)
}

impl Plot {
    /// An empty plot for the window with identity `id`.
    pub fn new(id: u64) -> (r: Plot)
        ensures
            r.id == id,
            r.circles@.len() == 0,
    {
        Plot { id, circles: Vec::new() }
    }

    /// The identity of the plot's window.
    pub fn id(&self) -> (r: u64)
        ensures
            r == self.id,
    {
        self.id
    }

    /// Moves the markers of `data` to the end of the plot's own, keeping their
    /// order; `data` is left empty.
    pub fn scatter(&mut self, data: &mut Vec<Circle>)
        ensures
            final(self).id == old(self).id,
            final(self).circles@ == old(self).circles@ + old(data)@,
            final(data)@.len() == 0,
    {
        self.circles.append(data);
    }

    /// Removes every marker of the plot.
    pub fn clear(&mut self)
        ensures
            final(self).id == old(self).id,
            final(self).circles@.len() == 0,
    {
        self.circles.clear();
    }
}

} // verus!
