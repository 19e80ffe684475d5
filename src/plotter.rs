use vstd::prelude::*;
use crate::packer::{CircleManadger, PackError, total_markers};
use crate::plot::{Plot, ScatterError, markers_from_points, point_markers};

verus! {

/// An event of the windowing system, about the window of plot `id`.
#[derive(Clone, Copy, Debug, PartialEq, Eq, Structural)]
pub enum WindowEvent {
    Resized(u64),
    CloseRequested(u64),
    /// Every pending event was handled: time for a tick.
    MainEventsCleared,
    /// Any event the renderer does not react to.
    Other,
}

/// What to do about an event.
#[derive(Clone, Copy, Debug, PartialEq, Eq, Structural)]
pub enum EventAction {
    /// Mark the surface of plot `id` as resized.
    MarkResized(u64),
    /// Plot `id` was removed: close its surface, hide its window, and stop the
    /// event loop when `exit` (no plot is left).
    Close { id: u64, exit: bool },
    /// Run a tick on every open surface.
    Tick,
    /// Nothing to do.
    Ignore,
}

/// Why a plot could not be opened.
#[derive(Clone, Copy, Debug, PartialEq, Eq, Structural)]
pub enum PlotterError {
    /// A plot with this identity is already open.
    DuplicateId,
}

/// The open plots, as values.
pub ghost struct PlotterView {
    /// The plots in the order they were opened.
    pub plots: Seq<Plot>,
    /// The plot that `scatter` adds markers to.
    pub current_plot: u64,
}

/// Some plot of `plots` has identity `id`.
pub open spec fn has_plot(plots: Seq<Plot>, id: u64) -> bool {
    exists|k: int| 0 <= k < plots.len() && plots[k].id == id
}

/// No two plots share an identity.
pub open spec fn ids_unique(plots: Seq<Plot>) -> bool {
    forall|i: int, j: int| 0 <= i < j < plots.len() ==> plots[i].id != plots[j].id
}

impl PlotterView {
    pub open spec fn wf(self) -> bool {
        ids_unique(self.plots)
    }
}

/// The open plots, in the order they were opened, and the current one.
pub struct Plotter {
    plots: Vec<Plot>,
    current_plot: u64,
}

impl View for Plotter {
    type V = PlotterView;

    closed spec fn view(&self) -> PlotterView {
        PlotterView { plots: self.plots@, current_plot: self.current_plot }
    }
}

impl Plotter {
    /// A plotter with one empty plot, `id`, which is current.
    pub fn new(id: u64) -> (r: Plotter)
        ensures
            r@.wf(),
            r@.plots.len() == 1,
            r@.plots[0].id == id,
            r@.plots[0].circles@.len() == 0,
            r@.current_plot == id,
    {
        let mut plots: Vec<Plot> = Vec::new();
        plots.push(Plot::new(id));
        Plotter { plots, current_plot: id }
    }

    /// The index of plot `id`, if it is open.
    fn find(&self, id: u64) -> (r: Option<usize>)
        requires
            self@.wf(),
        ensures
            match r {
                Some(k) => k < self@.plots.len() && self@.plots[k as int].id == id,
                None => !has_plot(self@.plots, id),
            },
    {
        let mut k: usize = 0;
        while k < self.plots.len()
            invariant
                k <= self@.plots.len(),
                forall|j: int| 0 <= j < k ==> self@.plots[j].id != id,
            decreases self@.plots.len() - k,
        {
            if self.plots[k].id == id {
                return Some(k);
            }
            k = k + 1;
        }
        None
    }

    /// The open plots, in the order they were opened.
    pub fn plots(&self) -> (r: &Vec<Plot>)
        ensures
            r@ == self@.plots,
    {
        &self.plots
    }

    /// The plot that `scatter` adds markers to, if it is open.
    pub fn current_plot(&self) -> (r: Option<&Plot>)
        requires
            self@.wf(),
        ensures
            match r {
                Some(p) => has_plot(self@.plots, self@.current_plot) && p.id == self@.current_plot
                    && exists|k: int|
                    0 <= k < self@.plots.len() && self@.plots[k] == *p,
                None => !has_plot(self@.plots, self@.current_plot),
            },
    {
        match self.find(self.current_plot) {
            Some(k) => Some(&self.plots[k]),
            None => None,
        }
    }

    /// Adds a marker of the given radius and colour at each point
    /// `(xs[i], ys[i], 0)`, in order, to the current plot (values are `f32`
    /// bit patterns). Fails, changing nothing, when the coordinate lists
    /// differ in length, or when the current plot is closed.
    pub fn scatter(&mut self, xs: &Vec<u32>, ys: &Vec<u32>, radius: u32, color: [u32; 4]) -> (r:
        Result<(), ScatterError>)
        requires
            old(self)@.wf(),
        ensures
            final(self)@.wf(),
            r is Ok <==> xs@.len() == ys@.len() && has_plot(old(self)@.plots, old(self)@.current_plot),
            xs@.len() != ys@.len() <==> r == Err::<(), ScatterError>(ScatterError::LengthMismatch),
            xs@.len() == ys@.len() && !has_plot(old(self)@.plots, old(self)@.current_plot) <==> r
                == Err::<(), ScatterError>(ScatterError::NoCurrentPlot),
            r is Err ==> final(self)@ == old(self)@,
            r is Ok ==> {
                &&& final(self)@.current_plot == old(self)@.current_plot
                &&& final(self)@.plots.len() == old(self)@.plots.len()
                &&& forall|k: int|
                    #![trigger final(self)@.plots[k]]
                    0 <= k < old(self)@.plots.len() ==> {
                        &&& final(self)@.plots[k].id == old(self)@.plots[k].id
                        &&& final(self)@.plots[k].circles@ == if old(self)@.plots[k].id == old(self)@.current_plot {
                            old(self)@.plots[k].circles@ + point_markers(xs@, ys@, radius, color)
                        } else {
                            old(self)@.plots[k].circles@
                        }
                    }
            },
    {
        let mut markers = match markers_from_points(xs, ys, radius, color) {
            Ok(m) => m,
            Err(e) => {
                return Err(e);
            },
        };
        match self.find(self.current_plot) {
            None => Err(ScatterError::NoCurrentPlot),
            Some(k) => {
                self.plots[k].scatter(&mut markers);
                assert forall|i: int, j: int|
                    0 <= i < j < self@.plots.len() implies self@.plots[i].id
                    != self@.plots[j].id by {
                    assert(self@.plots[i].id == old(self)@.plots[i].id);
                    assert(self@.plots[j].id == old(self)@.plots[j].id);
                };
                Ok(())
            },
        }
    }

    /// Removes every marker of every plot.
    pub fn clear(&mut self)
        requires
            old(self)@.wf(),
        ensures
            final(self)@.wf(),
            final(self)@.current_plot == old(self)@.current_plot,
            final(self)@.plots.len() == old(self)@.plots.len(),
            forall|k: int|
                #![trigger final(self)@.plots[k]]
                0 <= k < old(self)@.plots.len() ==> final(self)@.plots[k].id == old(self)@.plots[k].id && final(self)@.plots[k].circles@.len() == 0,
    {
        let mut k: usize = 0;
        while k < self.plots.len()
            invariant
                k <= self@.plots.len(),
                self@.current_plot == old(self)@.current_plot,
                self@.plots.len() == old(self)@.plots.len(),
                forall|j: int|
                    #![trigger self@.plots[j]]
                    0 <= j < self@.plots.len() ==> self@.plots[j].id == old(self)@.plots[j].id,
                forall|j: int| #![trigger self@.plots[j]] 0 <= j < k ==> self@.plots[j].circles@.len() == 0,
            decreases self@.plots.len() - k,
        {
            self.plots[k].clear();
            k = k + 1;
        }
        assert forall|i: int, j: int|
            0 <= i < j < self@.plots.len() implies self@.plots[i].id != self@.plots[j].id by {
            assert(self@.plots[i].id == old(self)@.plots[i].id);
            assert(self@.plots[j].id == old(self)@.plots[j].id);
        };
    }

    /// Opens an empty plot `id` after the others and makes it current. Fails,
    /// changing nothing, when a plot with that identity is open.
    pub fn new_plot(&mut self, id: u64) -> (r: Result<(), PlotterError>)
        requires
            old(self)@.wf(),
        ensures
            final(self)@.wf(),
            has_plot(old(self)@.plots, id) <==> r is Err,
            r is Err ==> final(self)@ == old(self)@,
            r is Ok ==> final(self)@.current_plot == id && final(self)@.plots == old(self)@.plots.push(final(self)@.plots.last()) && final(self)@.plots.last().id == id
                && final(self)@.plots.last().circles@.len() == 0,
    {
        if self.find(id).is_some() {
            return Err(PlotterError::DuplicateId);
        }
        self.plots.push(Plot::new(id));
        self.current_plot = id;
        assert(self@.plots =~= old(self)@.plots.push(self@.plots.last()));
        Ok(())
    }

    /// Removes plot `id`, handing it back; the other plots keep their order.
    pub fn remove_plot(&mut self, id: u64) -> (r: Option<Plot>)
        requires
            old(self)@.wf(),
        ensures
            final(self)@.wf(),
            final(self)@.current_plot == old(self)@.current_plot,
            !has_plot(final(self)@.plots, id),
            match r {
                Some(p) => p.id == id && exists|k: int|
                    0 <= k < old(self)@.plots.len() && old(self)@.plots[k] == p && final(self)@.plots == old(self)@.plots.remove(k),
                None => !has_plot(old(self)@.plots, id) && final(self)@ == old(self)@,
            },
    {
        match self.find(id) {
            None => None,
            Some(k) => {
                let p = self.plots.remove(k);
                assert(self@.plots == old(self)@.plots.remove(k as int));
                assert forall|i: int, j: int|
                    0 <= i < j < self@.plots.len() implies self@.plots[i].id
                    != self@.plots[j].id by {
                    let oi = if i < k { i } else { i + 1 };
                    let oj = if j < k { j } else { j + 1 };
                    assert(self@.plots[i] == old(self)@.plots[oi]);
                    assert(self@.plots[j] == old(self)@.plots[oj]);
                };
                assert forall|j: int| 0 <= j < self@.plots.len() implies self@.plots[j].id != id by {
                    let oj = if j < k { j } else { j + 1 };
                    assert(self@.plots[j] == old(self)@.plots[oj]);
                };
                Some(p)
            },
        }
    }

    /// Decides what an event calls for. A close request removes its plot
    /// (the loop ends when none is left); a resize is passed on to the plot's
    /// surface; events about plots that are not open are ignored.
    pub fn handle_event(&mut self, event: WindowEvent) -> (r: EventAction)
        requires
            old(self)@.wf(),
        ensures
            final(self)@.wf(),
            match event {
                WindowEvent::Resized(id) => final(self)@ == old(self)@ && r == if has_plot(
                    old(self)@.plots,
                    id,
                ) {
                    EventAction::MarkResized(id)
                } else {
                    EventAction::Ignore
                },
                WindowEvent::CloseRequested(id) => if has_plot(old(self)@.plots, id) {
                    &&& final(self)@.plots.len() + 1 == old(self)@.plots.len()
                    &&& !has_plot(final(self)@.plots, id)
                    &&& final(self)@.current_plot == old(self)@.current_plot
                    &&& exists|k: int|
                        0 <= k < old(self)@.plots.len() && old(self)@.plots[k].id == id
                            && final(self)@.plots == old(self)@.plots.remove(k)
                    &&& r == EventAction::Close { id, exit: final(self)@.plots.len() == 0 }
                } else {
                    final(self)@ == old(self)@ && r == EventAction::Ignore
                },
                WindowEvent::MainEventsCleared => final(self)@ == old(self)@ && r
                    == EventAction::Tick,
                WindowEvent::Other => final(self)@ == old(self)@ && r == EventAction::Ignore,
            },
    {
        match event {
            WindowEvent::Resized(id) => {
                if self.find(id).is_some() {
                    EventAction::MarkResized(id)
                } else {
                    EventAction::Ignore
                }
            },
            WindowEvent::CloseRequested(id) => {
                match self.remove_plot(id) {
                    Some(_) => EventAction::Close { id, exit: self.plots.len() == 0 },
                    None => EventAction::Ignore,
                }
            },
            WindowEvent::MainEventsCleared => EventAction::Tick,
            WindowEvent::Other => EventAction::Ignore,
        }
    }

    /// Rebuilds the shared buffers of `packer` from the open plots, in the
    /// order they were opened.
    pub fn create_buffers(&self, packer: &mut CircleManadger) -> (r: Result<(), PackError>)
        ensures
            r is Ok <==> old(packer)@.generation < u64::MAX && total_markers(self@.plots)
                <= usize::MAX,
            old(packer)@.generation == u64::MAX <==> r == Err::<(), PackError>(
                PackError::GenerationExhausted,
            ),
            old(packer)@.generation < u64::MAX && total_markers(self@.plots) > usize::MAX <==> r
                == Err::<(), PackError>(PackError::TooManyMarkers),
            r is Ok ==> final(packer)@.holds_packing_of(self@.plots) && final(packer)@.generation
                == old(packer)@.generation + 1,
            r is Err ==> final(packer)@ == old(packer)@,
    {
        packer.create_buffers(&self.plots)
    }
}

} // verus!
