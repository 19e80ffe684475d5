use vstd::prelude::*;
use crate::circles::{Circle, MyVertex, TEMPLATE_VERTEX_COUNT, template_spec};
use crate::plot::Plot;

verus! {

/// Where one plot's markers lie in the shared instance buffer.
#[derive(Clone, Copy, Debug, PartialEq, Eq)]
pub struct InstanceRange {
    pub id: u64,
    pub offset: usize,
    pub count: usize,
}

/// Why the shared buffers could not be rebuilt.
#[derive(Clone, Copy, Debug, PartialEq, Eq)]
pub enum PackError {
    /// The plots hold more markers than one buffer can index.
    TooManyMarkers,
    /// Every buffer generation number has been used.
    GenerationExhausted,
}

/// Number of markers over all the plots.
pub open spec fn total_markers(plots: Seq<Plot>) -> nat
    decreases plots.len(),
{
    if plots.len() == 0 {
        0
    } else {
        total_markers(plots.drop_last()) + plots.last().circles@.len()
    }
}

/// The markers of all the plots, plot after plot, each plot's in its own order.
pub open spec fn packed(plots: Seq<Plot>) -> Seq<Circle>
    decreases plots.len(),
{
    if plots.len() == 0 {
        Seq::empty()
    } else {
        packed(plots.drop_last()) + plots.last().circles@
    }
}

/// Number of markers of the plots before the `k`-th: where its markers start.
pub open spec fn offset_of(plots: Seq<Plot>, k: int) -> nat {
    total_markers(plots.subrange(0, k))
}

/// `ranges` gives, for each plot in order, its identity, the offset of its
/// markers in `packed(plots)` and their number.
pub open spec fn ranges_match(ranges: Seq<InstanceRange>, plots: Seq<Plot>) -> bool {
    &&& ranges.len() == plots.len()
    &&& forall|k: int|
        0 <= k < plots.len() ==> {
            &&& (#[trigger] ranges[k]).id == plots[k].id
            &&& ranges[k].offset == offset_of(plots, k)
            &&& ranges[k].count == plots[k].circles@.len()
        }
}

/// Sum of the counts of the ranges.
pub open spec fn sum_counts(ranges: Seq<InstanceRange>) -> nat
    decreases ranges.len(),
{
    if ranges.len() == 0 {
        0
    } else {
        sum_counts(ranges.drop_last()) + ranges.last().count as nat
    }
}

/// The first range of the plot `id`, if any.
pub open spec fn range_for(ranges: Seq<InstanceRange>, id: u64) -> Option<InstanceRange>
    decreases ranges.len(),
{
    if ranges.len() == 0 {
        None
    } else if ranges[0].id == id {
        Some(ranges[0])
    } else {
        range_for(ranges.drop_first(), id)
    }
}

proof fn lemma_packed_len(plots: Seq<Plot>)
    ensures
        packed(plots).len() == total_markers(plots),
    decreases plots.len(),
{
    if plots.len() > 0 {
        lemma_packed_len(plots.drop_last());
    }
}

proof fn lemma_prefix_step(plots: Seq<Plot>, i: int)
    requires
        0 <= i < plots.len(),
    ensures
        packed(plots.subrange(0, i + 1)) == packed(plots.subrange(0, i)) + plots[i].circles@,
        total_markers(plots.subrange(0, i + 1)) == total_markers(plots.subrange(0, i))
            + plots[i].circles@.len(),
{
    assert(plots.subrange(0, i + 1).drop_last() =~= plots.subrange(0, i));
}

proof fn lemma_total_monotone(plots: Seq<Plot>, i: int, j: int)
    requires
        0 <= i <= j <= plots.len(),
    ensures
        total_markers(plots.subrange(0, i)) <= total_markers(plots.subrange(0, j)),
    decreases j - i,
{
    if i < j {
        lemma_total_monotone(plots, i, j - 1);
        lemma_prefix_step(plots, j - 1);
    }
}

proof fn lemma_packed_prefix(plots: Seq<Plot>, j: int)
    requires
        0 <= j <= plots.len(),
    ensures
        packed(plots.subrange(0, j)).len() <= packed(plots).len(),
        packed(plots.subrange(0, j)) == packed(plots).subrange(
            0,
            packed(plots.subrange(0, j)).len() as int,
        ),
    decreases plots.len() - j,
{
    if j == plots.len() {
        assert(plots.subrange(0, j) =~= plots);
        assert(packed(plots).subrange(0, packed(plots).len() as int) =~= packed(plots));
    } else {
        lemma_packed_prefix(plots, j + 1);
        lemma_prefix_step(plots, j);
        let a = packed(plots.subrange(0, j));
        let b = packed(plots.subrange(0, j + 1));
        assert(b.subrange(0, a.len() as int) =~= a);
        assert(packed(plots).subrange(0, a.len() as int) =~= b.subrange(0, a.len() as int));
    }
}

/// Each plot's slice of the packed markers is exactly that plot's marker list.
proof fn lemma_slice_is_plot(plots: Seq<Plot>, k: int)
    requires
        0 <= k < plots.len(),
    ensures
        offset_of(plots, k) + plots[k].circles@.len() <= packed(plots).len(),
        packed(plots).subrange(
            offset_of(plots, k) as int,
            offset_of(plots, k) + plots[k].circles@.len() as int,
        ) == plots[k].circles@,
{
    lemma_packed_prefix(plots, k + 1);
    lemma_prefix_step(plots, k);
    lemma_packed_len(plots.subrange(0, k));
    lemma_packed_len(plots.subrange(0, k + 1));
    let a = packed(plots.subrange(0, k));
    let b = packed(plots.subrange(0, k + 1));
    let lo = offset_of(plots, k) as int;
    let hi = lo + plots[k].circles@.len();
    assert(b.subrange(lo, hi) =~= plots[k].circles@);
    assert(packed(plots).subrange(lo, hi) =~= b.subrange(lo, hi));
}

proof fn lemma_sum_counts(ranges: Seq<InstanceRange>, plots: Seq<Plot>)
    requires
        ranges_match(ranges, plots),
    ensures
        sum_counts(ranges) == total_markers(plots),
    decreases plots.len(),
{
    if plots.len() > 0 {
        let n = plots.len() as int;
        let rs = ranges.drop_last();
        let ps = plots.drop_last();
        assert forall|k: int| 0 <= k < ps.len() implies {
            &&& (#[trigger] rs[k]).id == ps[k].id
            &&& rs[k].offset == offset_of(ps, k)
            &&& rs[k].count == ps[k].circles@.len()
        } by {
            assert(ps.subrange(0, k) =~= plots.subrange(0, k));
            assert(ranges[k] == rs[k]);
        };
        lemma_sum_counts(rs, ps);
        assert(ranges[n - 1] == ranges.last());
    }
}

/// The marker counts of the ranges add up to the number of markers of all the
/// plots, and that is the length of the packed markers.
proof fn lemma_counts_add_up(ranges: Seq<InstanceRange>, plots: Seq<Plot>)
    requires
        ranges_match(ranges, plots),
    ensures
        sum_counts(ranges) == total_markers(plots),
        packed(plots).len() == total_markers(plots),
{
    lemma_sum_counts(ranges, plots);
    lemma_packed_len(plots);
}

/// Two range lists that both describe the same plots are equal.
proof fn lemma_ranges_unique(a: Seq<InstanceRange>, b: Seq<InstanceRange>, plots: Seq<Plot>)
    requires
        ranges_match(a, plots),
        ranges_match(b, plots),
    ensures
        a == b,
{
    assert forall|k: int| 0 <= k < a.len() implies a[k] == b[k] by {
        assert(a[k].id == b[k].id);
    };
    assert(a =~= b);
}

/// The draw call of one plot: the whole template, once per marker of the plot,
/// starting at the plot's first marker in the instance buffer.
#[derive(Clone, Copy, Debug, PartialEq, Eq)]
pub struct DrawCall {
    pub vertex_count: u32,
    pub instance_count: u32,
    pub first_vertex: u32,
    pub first_instance: u32,
}

/// Why no draw call can be given for a plot.
#[derive(Clone, Copy, Debug, PartialEq, Eq)]
pub enum DrawError {
    /// The shared buffers have not been built.
    NotBaked,
    /// The last build did not include the plot.
    UnknownPlot,
    /// The plot's markers lie beyond what a draw call can address.
    OutOfRange,
}

/// What the packer holds, as values.
pub ghost struct PackerView {
    /// The template vertices, when the buffers are built.
    pub vertices: Option<Seq<MyVertex>>,
    /// The concatenated markers, when the buffers are built.
    pub instances: Option<Seq<Circle>>,
    /// Each plot's place in the instance buffer, in plot order.
    pub ranges: Seq<InstanceRange>,
    /// Number of builds so far; a new build never reuses a number.
    pub generation: u64,
}

/// The shared vertex and instance buffers of all the plots, and where each
/// plot's markers lie in the instance buffer.
pub struct CircleManadger {
    vertex_buffer: Option<Vec<MyVertex>>,
    instance_buffer: Option<Vec<Circle>>,
    instance_ranges: Vec<InstanceRange>,
    generation: u64,
}

impl View for CircleManadger {
    type V = PackerView;

    closed spec fn view(&self) -> PackerView {
        PackerView {
            vertices: match self.vertex_buffer {
                Some(v) => Some(v@),
                None => None,
            },
            instances: match self.instance_buffer {
                Some(v) => Some(v@),
                None => None,
            },
            ranges: self.instance_ranges@,
            generation: self.generation,
        }
    }
}

impl PackerView {
    /// The buffers are built exactly from `plots`: the template, the plots'
    /// markers concatenated in order, and one matching range per plot.
    pub open spec fn holds_packing_of(self, plots: Seq<Plot>) -> bool {
        &&& self.vertices == Some(template_spec())
        &&& self.instances == Some(packed(plots))
        &&& ranges_match(self.ranges, plots)
    }
}

/// Rebuilding twice from unchanged plots gives the same buffer contents and
/// the same ranges; only the generation numbers differ.
pub proof fn lemma_rebuild_idempotent(first: PackerView, second: PackerView, plots: Seq<Plot>)
    requires
        first.holds_packing_of(plots),
        second.holds_packing_of(plots),
    ensures
        first.vertices == second.vertices,
        first.instances == second.instances,
        first.ranges == second.ranges,
{
    lemma_ranges_unique(first.ranges, second.ranges, plots);
}

/// After a build from `plots`, the marker counts of the plots add up to the
/// number of markers in the instance buffer, which is the number of markers
/// the plots hold, and each plot's `(offset, count)` slice of the instance
/// buffer is exactly that plot's marker list, in the order it was added.
pub proof fn lemma_packing_slices(v: PackerView, plots: Seq<Plot>)
    requires
        v.holds_packing_of(plots),
    ensures
        sum_counts(v.ranges) == total_markers(plots),
        v.instances->Some_0.len() == total_markers(plots),
        forall|k: int|
            #![trigger v.ranges[k]]
            0 <= k < plots.len() ==> v.ranges[k].offset + v.ranges[k].count
                <= v.instances->Some_0.len() && v.instances->Some_0.subrange(
                v.ranges[k].offset as int,
                v.ranges[k].offset + v.ranges[k].count,
            ) == plots[k].circles@,
{
    lemma_counts_add_up(v.ranges, plots);
    assert forall|k: int|
        #![trigger v.ranges[k]]
        0 <= k < plots.len() implies v.ranges[k].offset + v.ranges[k].count
            <= v.instances->Some_0.len() && v.instances->Some_0.subrange(
            v.ranges[k].offset as int,
            v.ranges[k].offset + v.ranges[k].count,
        ) == plots[k].circles@ by {
        lemma_slice_is_plot(plots, k);
    };
}

impl CircleManadger {
    /// What `draw(id)` returns.
    pub open spec fn draw_spec(&self, id: u64) -> Result<DrawCall, DrawError> {
        let range = range_for(self@.ranges, id);
        if self@.instances is None {
            Err(DrawError::NotBaked)
        } else if range is None {
            Err(DrawError::UnknownPlot)
        } else if range->Some_0.offset + range->Some_0.count > u32::MAX {
            Err(DrawError::OutOfRange)
        } else {
            Ok(
                DrawCall {
                    vertex_count: TEMPLATE_VERTEX_COUNT as u32,
                    instance_count: range->Some_0.count as u32,
                    first_vertex: 0,
                    first_instance: range->Some_0.offset as u32,
                },
            )
        }
    }

    /// A packer with no buffers built.
    pub fn new() -> (r: CircleManadger)
        ensures
            r@.vertices is None,
            r@.instances is None,
            r@.ranges.len() == 0,
            r@.generation == 0,
    {
        CircleManadger {
            vertex_buffer: None,
            instance_buffer: None,
            instance_ranges: Vec::new(),
            generation: 0,
        }
    }

    /// Drops the buffers; the ranges and the generation stay.
    pub fn clear_buffer(&mut self)
        ensures
            final(self)@ == (PackerView {
                vertices: None,
                instances: None,
                ..old(self)@
            }),
    {
        self.vertex_buffer = None;
        self.instance_buffer = None;
    }

    /// Drops the buffers and forgets every plot's range.
    pub fn clear(&mut self)
        ensures
            final(self)@ == (PackerView {
                vertices: None,
                instances: None,
                ranges: Seq::empty(),
                ..old(self)@
            }),
    {
        self.clear_buffer();
        self.instance_ranges = Vec::new();
    }

    /// Rebuilds both buffers from `plots`: the template vertices, and every
    /// plot's markers concatenated in the order of `plots`, with the offset
    /// and count of each plot. Every build gets a new generation number.
    /// Fails, changing nothing, when the markers would not fit one buffer or
    /// when the generation numbers are used up.
    pub fn create_buffers(&mut self, plots: &Vec<Plot>) -> (r: Result<(), PackError>)
        ensures
            r is Ok <==> old(self)@.generation < u64::MAX && total_markers(plots@) <= usize::MAX,
            old(self)@.generation == u64::MAX <==> r == Err::<(), PackError>(
                PackError::GenerationExhausted,
            ),
            old(self)@.generation < u64::MAX && total_markers(plots@) > usize::MAX <==> r
                == Err::<(), PackError>(PackError::TooManyMarkers),
            r is Ok ==> final(self)@.holds_packing_of(plots@) && final(self)@.generation
                == old(self)@.generation + 1,
            r is Err ==> final(self)@ == old(self)@,
    {
        if self.generation == u64::MAX {
            return Err(PackError::GenerationExhausted);
        }
        let mut circles: Vec<Circle> = Vec::new();
        let mut ranges: Vec<InstanceRange> = Vec::new();
        let mut offset: usize = 0;
        let mut i: usize = 0;
        while i < plots.len()
            invariant
                self@ == old(self)@,
                old(self)@.generation < u64::MAX,
                i <= plots@.len(),
                offset == total_markers(plots@.subrange(0, i as int)),
                circles@ == packed(plots@.subrange(0, i as int)),
                ranges_match(ranges@, plots@.subrange(0, i as int)),
            decreases plots@.len() - i,
        {
            let plot = &plots[i];
            let n = plot.circles.len();
            proof {
                lemma_prefix_step(plots@, i as int);
            }
            if n > usize::MAX - offset {
                proof {
                    lemma_total_monotone(plots@, i + 1, plots@.len() as int);
                    assert(plots@.subrange(0, plots@.len() as int) =~= plots@);
                }
                return Err(PackError::TooManyMarkers);
            }
            let ghost before = circles@;
            let mut j: usize = 0;
            while j < n
                invariant
                    n == plot.circles@.len(),
                    j <= n,
                    circles@ == before + plot.circles@.subrange(0, j as int),
                decreases n - j,
            {
                circles.push(plot.circles[j]);
                j = j + 1;
                assert(circles@ =~= before + plot.circles@.subrange(0, j as int));
            }
            assert(plot.circles@.subrange(0, n as int) =~= plot.circles@);
            let ghost old_ranges = ranges@;
            ranges.push(InstanceRange { id: plot.id, offset, count: n });
            proof {
                let ps = plots@.subrange(0, i + 1);
                assert forall|k: int| 0 <= k < ps.len() implies {
                    &&& (#[trigger] ranges@[k]).id == ps[k].id
                    &&& ranges@[k].offset == offset_of(ps, k)
                    &&& ranges@[k].count == ps[k].circles@.len()
                } by {
                    assert(ps.subrange(0, k) =~= plots@.subrange(0, i as int).subrange(0, k));
                    if k < i {
                        assert(ranges@[k] == old_ranges[k]);
                    }
                };
            }
            offset = offset + n;
            i = i + 1;
        }
        assert(plots@.subrange(0, plots@.len() as int) =~= plots@);
        self.vertex_buffer = Some(crate::circles::Circle::vertex());
        self.instance_buffer = Some(circles);
        self.instance_ranges = ranges;
        self.generation = self.generation + 1;
        Ok(())
    }

    /// The template vertices, when the buffers are built.
    pub fn vertex_buffer(&self) -> (r: Option<&Vec<MyVertex>>)
        ensures
            match r {
                Some(v) => self@.vertices == Some(v@),
                None => self@.vertices is None,
            },
    {
        self.vertex_buffer.as_ref()
    }

    /// The concatenated markers, when the buffers are built.
    pub fn instance_buffer(&self) -> (r: Option<&Vec<Circle>>)
        ensures
            match r {
                Some(v) => self@.instances == Some(v@),
                None => self@.instances is None,
            },
    {
        self.instance_buffer.as_ref()
    }

    /// The generation number of the last build.
    pub fn generation(&self) -> (r: u64)
        ensures
            r == self@.generation,
    {
        self.generation
    }

    /// Where the markers of plot `id` lie, as recorded by the last build.
    pub fn range_of(&self, id: u64) -> (r: Option<InstanceRange>)
        ensures
            r == range_for(self@.ranges, id),
    {
        let mut i: usize = 0;
        assert(self@.ranges.subrange(0, self@.ranges.len() as int) =~= self@.ranges);
        while i < self.instance_ranges.len()
            invariant
                i <= self@.ranges.len(),
                range_for(self@.ranges, id) == range_for(
                    self@.ranges.subrange(i as int, self@.ranges.len() as int),
                    id,
                ),
            decreases self@.ranges.len() - i,
        {
            let ghost rest = self@.ranges.subrange(i as int, self@.ranges.len() as int);
            if self.instance_ranges[i].id == id {
                assert(rest[0] == self@.ranges[i as int]);
                return Some(self.instance_ranges[i]);
            }
            assert(rest.drop_first() =~= self@.ranges.subrange(
                i + 1,
                self@.ranges.len() as int,
            ));
            i = i + 1;
        }
        None
    }

    /// The draw call for plot `id`: the whole template, `count` instances from
    /// `offset`, as recorded by the last build. A plot without markers gets a
    /// draw call of zero instances, which draws nothing.
    pub fn draw(&self, id: u64) -> (r: Result<DrawCall, DrawError>)
        ensures
            r == self.draw_spec(id),
    {
        if self.instance_buffer.is_none() {
            return Err(DrawError::NotBaked);
        }
        match self.range_of(id) {
            None => Err(DrawError::UnknownPlot),
            Some(range) => {
                if range.offset > u32::MAX as usize || range.count > u32::MAX as usize - range.offset {
                    Err(DrawError::OutOfRange)
                } else {
                    Ok(DrawCall {
                        vertex_count: TEMPLATE_VERTEX_COUNT as u32,
                        instance_count: range.count as u32,
                        first_vertex: 0,
                        first_instance: range.offset as u32,
                    })
                }
            },
        }
    }
}

} // verus!
