use vstd::prelude::*;

verus! {

/// Why a fence slot could not be used.
#[derive(Clone, Copy, Debug, PartialEq, Eq)]
pub enum SlotError {
    /// The image index names no slot of the surface.
    OutOfRange,
}

/// The fence slots of a surface, as values.
pub ghost struct FenceView<F> {
    /// One entry per swapchain image: the fence of the last submission that
    /// targeted it, if that fence may still be pending.
    pub fences: Seq<Option<F>>,
    /// The slot of the most recent submission.
    pub previous_index: nat,
}

impl<F> FenceView<F> {
    /// The slots after `wait_slot(i)`: slot `i` is empty.
    pub open spec fn after_wait(self, i: int) -> FenceView<F> {
        FenceView { fences: self.fences.update(i, None), ..self }
    }

    /// The slots after `store_slot(i, f)`: slot `i` holds `f` and is the
    /// previous slot.
    pub open spec fn after_store(self, i: int, f: Option<F>) -> FenceView<F> {
        FenceView { fences: self.fences.update(i, f), previous_index: i as nat }
    }

    /// The fence that the next submission is to be ordered after: the one in
    /// the previous slot, if any.
    pub open spec fn chain(self) -> Option<F> {
        if self.previous_index < self.fences.len() {
            self.fences[self.previous_index as int]
        } else {
            None
        }
    }

    /// Fresh slots for `image_count` images, none holding a fence.
    pub open spec fn empty(image_count: nat) -> FenceView<F> {
        FenceView { fences: Seq::new(image_count, |i: int| None), previous_index: 0 }
    }
}

/// Waiting on slot `i` and then storing `f` there leaves exactly one fence for
/// the slot: the store displaces nothing, slot `i` holds `f`, and every other
/// slot is as it was.
pub proof fn lemma_one_fence_per_slot<F>(t: FenceView<F>, i: int, f: Option<F>)
    requires
        0 <= i < t.fences.len(),
    ensures
        t.after_wait(i).fences[i] is None,
        t.after_wait(i).after_store(i, f).fences[i] == f,
        t.after_wait(i).after_store(i, f).fences.len() == t.fences.len(),
        forall|j: int|
            0 <= j < t.fences.len() && j != i ==> t.after_wait(i).after_store(i, f).fences[j]
                == t.fences[j],
        t.after_wait(i).after_store(i, f).chain() == f,
{
}

/// One fence slot per swapchain image of a surface, and the slot of the most
/// recent submission.
///
/// A submission that targets slot `i` is made only after the fence stored in
/// slot `i` has been handed out by `wait_slot` and waited on; its own fence is
/// then stored with `store_slot`.
pub struct FrameFenceTracker<F> {
    fences: Vec<Option<F>>,
    previous_index: usize,
}

impl<F> View for FrameFenceTracker<F> {
    type V = FenceView<F>;

    closed spec fn view(&self) -> FenceView<F> {
        FenceView { fences: self.fences@, previous_index: self.previous_index as nat }
    }
}

impl<F> FrameFenceTracker<F> {
    /// Slots for `image_count` images, none holding a fence.
    pub fn new(image_count: usize) -> (r: FrameFenceTracker<F>)
        ensures
            r@ == FenceView::<F>::empty(image_count as nat),
    {
        let mut fences: Vec<Option<F>> = Vec::new();
        let mut i: usize = 0;
        while i < image_count
            invariant
                i <= image_count,
                fences@ =~= FenceView::<F>::empty(i as nat).fences,
            decreases image_count - i,
        {
            fences.push(None);
            i = i + 1;
        }
        FrameFenceTracker { fences, previous_index: 0 }
    }

    /// Number of slots.
    pub fn len(&self) -> (r: usize)
        ensures
            r == self@.fences.len(),
    {
        self.fences.len()
    }

    /// Whether slot `i` holds a fence; `false` for an index beyond the slots.
    pub fn holds_fence(&self, i: usize) -> (r: bool)
        ensures
            r == (i < self@.fences.len() && self@.fences[i as int] is Some),
    {
        i < self.fences.len() && self.fences[i].is_some()
    }

    /// Hands over the fence stored in slot `i`, if any; the caller waits on it
    /// before it reuses the slot. The slot is left empty.
    pub fn wait_slot(&mut self, i: usize) -> (r: Result<Option<F>, SlotError>)
        ensures
            i >= old(self)@.fences.len() <==> r is Err,
            r is Err ==> r == Err::<Option<F>, SlotError>(SlotError::OutOfRange) && final(self)@
                == old(self)@,
            r is Ok ==> r->Ok_0 == old(self)@.fences[i as int] && final(self)@ == old(
                self,
            )@.after_wait(i as int),
    {
        if i >= self.fences.len() {
            return Err(SlotError::OutOfRange);
        }
        let taken = self.fences[i].take();
        assert(self@.fences =~= old(self)@.after_wait(i as int).fences);
        Ok(taken)
    }

    /// Records the fence of a submission that targeted slot `i` (`None` when
    /// the submission did not go through), and makes `i` the previous slot.
    /// Returns what the slot held before.
    pub fn store_slot(&mut self, i: usize, fence: Option<F>) -> (r: Result<Option<F>, SlotError>)
        ensures
            i >= old(self)@.fences.len() <==> r is Err,
            r is Err ==> r == Err::<Option<F>, SlotError>(SlotError::OutOfRange) && final(self)@
                == old(self)@,
            r is Ok ==> r->Ok_0 == old(self)@.fences[i as int] && final(self)@ == old(
                self,
            )@.after_store(i as int, fence),
    {
        if i >= self.fences.len() {
            return Err(SlotError::OutOfRange);
        }
        let displaced = self.fences[i].take();
        self.fences.set(i, fence);
        self.previous_index = i;
        assert(self@.fences =~= old(self)@.after_store(i as int, fence).fences);
        Ok(displaced)
    }

    /// The fence of the previous submission, if it is still held; the next
    /// submission is ordered after it. With none, the caller orders the
    /// submission after the device's current state instead.
    pub fn chain_from_previous(&self) -> (r: Option<&F>)
        ensures
            match r {
                Some(f) => self@.chain() == Some(*f),
                None => self@.chain() is None,
            },
    {
        if self.previous_index < self.fences.len() {
            self.fences[self.previous_index].as_ref()
        } else {
            None
        }
    }

    /// Starts over with `image_count` empty slots, handing over every fence
    /// that was held so that the caller can wait on each before releasing
    /// the resources they guard.
    pub fn reset(&mut self, image_count: usize) -> (r: Vec<Option<F>>)
        ensures
            r@ == old(self)@.fences,
            final(self)@ == FenceView::<F>::empty(image_count as nat),
    {
        let mut held = FrameFenceTracker::new(image_count);
        std::mem::swap(self, &mut held);
        held.fences
    }
}

} // verus!
