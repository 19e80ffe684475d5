use vstd::prelude::*;

verus! {

/// What a graphics pipeline is built against: the render pass it draws in
/// and the extent of its viewport.
#[derive(Clone, Copy, Debug, PartialEq, Eq, Structural)]
pub struct PipelineKey {
    pub render_pass: u64,
    pub width: u32,
    pub height: u32,
}

/// Why a pipeline could not be cached.
#[derive(Clone, Copy, Debug, PartialEq, Eq, Structural)]
pub enum PipelineError {
    /// Every pipeline generation number has been used.
    GenerationExhausted,
}

/// A pipeline cache, as values.
pub ghost struct PipelineView<P> {
    /// The last pipeline built, with its key.
    pub entry: Option<(PipelineKey, P)>,
    /// Number of pipelines built so far; a new build never reuses a number.
    pub generation: u64,
}

impl<P> PipelineView<P> {
    /// The cached pipeline for `key`: only one built against exactly that key.
    pub open spec fn lookup(self, key: PipelineKey) -> Option<P> {
        match self.entry {
            Some(e) => if e.0 == key {
                Some(e.1)
            } else {
                None
            },
            None => None,
        }
    }
}

/// The pipeline of one surface, with the render pass and viewport it was
/// built against. A pipeline is only handed out for exactly the key it was
/// built with, so one built against a stale render pass or viewport is never
/// used again.
pub struct PipelineCache<P> {
    entry: Option<(PipelineKey, P)>,
    generation: u64,
}

impl<P> View for PipelineCache<P> {
    type V = PipelineView<P>;

    closed spec fn view(&self) -> PipelineView<P> {
        PipelineView { entry: self.entry, generation: self.generation }
    }
}

impl<P> PipelineCache<P> {
    /// An empty cache.
    pub fn new() -> (r: PipelineCache<P>)
        ensures
            r@.entry is None,
            r@.generation == 0,
    {
        PipelineCache { entry: None, generation: 0 }
    }

    /// The cached pipeline, if it was built against `key`; otherwise the
    /// caller builds one and stores it with `insert`.
    pub fn get(&self, key: PipelineKey) -> (r: Option<&P>)
        ensures
            match r {
                Some(p) => self@.lookup(key) == Some(*p),
                None => self@.lookup(key) is None,
            },
    {
        match &self.entry {
            Some(e) => if e.0 == key {
                Some(&e.1)
            } else {
                None
            },
            None => None,
        }
    }

    /// Stores a pipeline newly built against `key`, in place of the cached
    /// one, and returns its generation number. The command buffers recorded
    /// with the previous pipeline are stale from then on. Fails, changing
    /// nothing, when the generation numbers are used up.
    pub fn insert(&mut self, key: PipelineKey, pipeline: P) -> (r: Result<u64, PipelineError>)
        ensures
            old(self)@.generation == u64::MAX <==> r is Err,
            r is Err ==> final(self)@ == old(self)@,
            r is Ok ==> r->Ok_0 == old(self)@.generation + 1 && final(self)@ == (PipelineView {
                entry: Some((key, pipeline)),
                generation: r->Ok_0,
            }),
    {
        if self.generation == u64::MAX {
            return Err(PipelineError::GenerationExhausted);
        }
        self.entry = Some((key, pipeline));
        self.generation = self.generation + 1;
        Ok(self.generation)
    }

    /// The generation number of the cached pipeline.
    pub fn generation(&self) -> (r: u64)
        ensures
            r == self@.generation,
    {
        self.generation
    }

    /// Forgets the cached pipeline.
    pub fn clear(&mut self)
        ensures
            final(self)@ == (PipelineView::<P> { entry: None, ..old(self)@ }),
    {
        self.entry = None;
    }
}

} // verus!
