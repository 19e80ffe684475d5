use vstd::prelude::*;
use std::collections::HashMap;
use crate::packer::{CircleManadger, DrawCall, DrawError};
use crate::surface::{SurfaceView, WindowSurface};

verus! {

broadcast use vstd::std_specs::hash::group_hash_axioms;

/// The clear colour of every frame, opaque blue, as `f32` bit patterns of
/// red, green, blue and alpha.
pub const CLEAR_COLOR: [u32; 4] = [0u32, 0u32, 0x3f80_0000u32, 0x3f80_0000u32];

/// The commands of one command buffer: begin the render pass on framebuffer
/// `framebuffer`, cleared to `clear_color`; when `draw` is given, bind the
/// pipeline, the vertex buffer at binding 0 and the instance buffer at
/// binding 1, and issue it; end the render pass.
#[derive(Clone, Copy, Debug, PartialEq, Eq)]
pub struct CommandPlan {
    pub framebuffer: usize,
    pub clear_color: [u32; 4],
    pub draw: Option<DrawCall>,
}

/// The draw a command buffer issues: none for a plot without markers, whose
/// draw would produce nothing.
pub open spec fn issued(draw: DrawCall) -> Option<DrawCall> {
    if draw.instance_count == 0 {
        None
    } else {
        Some(draw)
    }
}

/// One command buffer per framebuffer, in framebuffer order, each issuing
/// `issued(draw)`.
pub open spec fn plans_for(framebuffer_count: nat, draw: DrawCall) -> Seq<CommandPlan> {
    Seq::new(
        framebuffer_count,
        |i: int| CommandPlan { framebuffer: i as usize, clear_color: CLEAR_COLOR, draw: issued(draw) },
    )
}

/// What a surface's command buffers were recorded against: the generation of
/// its framebuffers, of its pipeline and of the shared buffers.
#[derive(Clone, Copy, Debug, PartialEq, Eq, Structural)]
pub struct CommandDeps {
    pub framebuffers: u64,
    pub pipeline: u64,
    pub instances: u64,
}

/// The command buffers of one surface, what they were recorded against, and
/// the plan that each follows: `buffers[k]` records `plans[k]`.
pub struct CommandSet<C> {
    pub deps: CommandDeps,
    pub plans: Vec<CommandPlan>,
    pub buffers: Vec<C>,
}

/// Why command buffers could not be installed.
#[derive(Clone, Copy, Debug, PartialEq, Eq)]
pub enum RenderError {
    /// The plot has no draw call: see `CircleManadger::draw`.
    Draw(DrawError),
    /// The command buffers are not one per framebuffer of the surface.
    BufferCount,
}

/// `set` was recorded for surface `s`, drawing `draw` with the pipeline of
/// generation `pipeline` from the shared buffers of generation `instances`:
/// one command buffer per framebuffer, each following its plan.
pub open spec fn recorded_for<C, I, Fb, F>(
    set: CommandSet<C>,
    s: SurfaceView<I, Fb, F>,
    draw: DrawCall,
    pipeline: u64,
    instances: u64,
) -> bool {
    &&& set.deps == CommandDeps { framebuffers: s.generation, pipeline, instances }
    &&& set.plans@ == plans_for(s.framebuffers.len(), draw)
    &&& set.buffers@.len() == s.framebuffers.len()
}

/// The plan of a surface's command buffers for plot `id`: one per
/// framebuffer of `surface`, each drawing the plot's range of the shared
/// instance buffer.
pub fn plan_command_buffers<I, Fb, F>(
    surface: &WindowSurface<I, Fb, F>,
    packer: &CircleManadger,
    id: u64,
) -> (r: Result<Vec<CommandPlan>, DrawError>)
    ensures
        match packer.draw_spec(id) {
            Ok(d) => r == Ok::<Vec<CommandPlan>, DrawError>(r->Ok_0) && r->Ok_0@ == plans_for(
                surface@.framebuffers.len(),
                d,
            ),
            Err(e) => r == Err::<Vec<CommandPlan>, DrawError>(e),
        },
{
    let draw = match packer.draw(id) {
        Ok(d) => d,
        Err(e) => {
            return Err(e);
        },
    };
    let issued_draw = if draw.instance_count == 0 {
        None
    } else {
        Some(draw)
    };
    let n = surface.framebuffers().len();
    let mut plans: Vec<CommandPlan> = Vec::new();
    let mut i: usize = 0;
    while i < n
        invariant
            i <= n,
            n == surface@.framebuffers.len(),
            issued_draw == issued(draw),
            plans@ =~= plans_for(i as nat, draw),
        decreases n - i,
    {
        plans.push(CommandPlan { framebuffer: i, clear_color: CLEAR_COLOR, draw: issued_draw });
        i = i + 1;
    }
    Ok(plans)
}

/// Recreating a surface twice at one extent (W, H) leaves its swapchain
/// images and framebuffers at (W, H), one framebuffer and one fence slot per
/// image, and a plan of exactly one command buffer per image; command
/// buffers recorded for the surface are then one per image.
pub proof fn lemma_resize_round_trip<I, Fb, F, C>(
    s: SurfaceView<I, Fb, F>,
    w: u32,
    h: u32,
    images1: Seq<I>,
    framebuffers1: Seq<Fb>,
    images2: Seq<I>,
    framebuffers2: Seq<Fb>,
    draw: DrawCall,
    set: CommandSet<C>,
    pipeline: u64,
    instances: u64,
)
    requires
        s.can_recreate(images1, framebuffers1),
        s.after_recreate((w, h), images1, framebuffers1).can_recreate(images2, framebuffers2),
    ensures
        ({
            let t = s.after_recreate((w, h), images1, framebuffers1).after_recreate(
                (w, h),
                images2,
                framebuffers2,
            );
            &&& t.wf()
            &&& t.extent == (w, h)
            &&& t.images == images2
            &&& t.framebuffers == framebuffers2
            &&& plans_for(t.framebuffers.len(), draw).len() == t.images.len()
            &&& recorded_for(set, t, draw, pipeline, instances) ==> set.buffers@.len()
                == t.images.len() && set.plans@.len() == t.images.len()
        }),
{
}

/// The command buffers of every surface, keyed by the identity of its plot.
///
/// A set of command buffers is never changed in place: it is replaced
/// whole, and handed out only while what it was recorded against is
/// current.
pub struct Renderer<C> {
    command_buffers: HashMap<u64, CommandSet<C>>,
}

impl<C> View for Renderer<C> {
    type V = Map<u64, CommandSet<C>>;

    closed spec fn view(&self) -> Map<u64, CommandSet<C>> {
        self.command_buffers@
    }
}

impl<C> Renderer<C> {
    /// Every stored set holds one command buffer per plan.
    pub open spec fn wf(&self) -> bool {
        forall|id: u64|
            #[trigger] self@.contains_key(id) ==> self@[id].buffers@.len() == self@[id].plans@.len()
    }

    /// A renderer with no command buffers.
    pub fn new() -> (r: Renderer<C>)
        ensures
            r.wf(),
            r@ == Map::<u64, CommandSet<C>>::empty(),
    {
        Renderer { command_buffers: HashMap::new() }
    }

    /// Installs `buffers` as the command buffers of plot `id` on `surface`,
    /// in place of any that it had. They must have been recorded, in order,
    /// from `plan_command_buffers(surface, packer, id)`, with the pipeline of
    /// generation `pipeline`: they are stored with those plans and with what
    /// they were recorded against. Fails, changing nothing, when the plot has
    /// no draw call, or when there is not one buffer per framebuffer.
    pub fn build_command_buffers<I, Fb, F>(
        &mut self,
        surface: &WindowSurface<I, Fb, F>,
        packer: &CircleManadger,
        id: u64,
        pipeline: u64,
        buffers: Vec<C>,
    ) -> (r: Result<(), RenderError>)
        requires
            old(self).wf(),
        ensures
            final(self).wf(),
            match packer.draw_spec(id) {
                Err(e) => r == Err::<(), RenderError>(RenderError::Draw(e)),
                Ok(d) => {
                    &&& buffers@.len() == surface@.framebuffers.len() <==> r is Ok
                    &&& r is Err ==> r == Err::<(), RenderError>(RenderError::BufferCount)
                    &&& r is Ok ==> final(self)@ == old(self)@.insert(id, final(self)@[id])
                        && final(self)@[id].buffers@ == buffers@ && recorded_for(
                        final(self)@[id],
                        surface@,
                        d,
                        pipeline,
                        packer@.generation,
                    )
                },
            },
            r is Err ==> final(self)@ == old(self)@,
    {
        let plans = match plan_command_buffers(surface, packer, id) {
            Ok(p) => p,
            Err(e) => {
                return Err(RenderError::Draw(e));
            },
        };
        if buffers.len() != plans.len() {
            return Err(RenderError::BufferCount);
        }
        let deps = CommandDeps {
            framebuffers: surface.generation(),
            pipeline,
            instances: packer.generation(),
        };
        self.command_buffers.insert(id, CommandSet { deps, plans, buffers });
        assert forall|k: u64| #[trigger] self@.contains_key(k) implies self@[k].buffers@.len()
            == self@[k].plans@.len() by {
            if k != id {
                assert(old(self)@.contains_key(k));
            }
        };
        Ok(())
    }

    /// The command buffers of plot `id`, if they were recorded against
    /// exactly `deps`; stale ones are never handed out. There is one per
    /// plan, in the order of the plans.
    pub fn get_command_buffer(&self, id: u64, deps: CommandDeps) -> (r: Option<&Vec<C>>)
        requires
            self.wf(),
        ensures
            match r {
                Some(b) => self@.contains_key(id) && self@[id].deps == deps && *b == self@[id].buffers
                    && b@.len() == self@[id].plans@.len(),
                None => !(self@.contains_key(id) && self@[id].deps == deps),
            },
    {
        match self.command_buffers.get(&id) {
            Some(set) => if set.deps == deps {
                Some(&set.buffers)
            } else {
                None
            },
            None => None,
        }
    }

    /// Drops the command buffers of plot `id`, handing them back.
    pub fn remove(&mut self, id: u64) -> (r: Option<CommandSet<C>>)
        requires
            old(self).wf(),
        ensures
            final(self).wf(),
            final(self)@ == old(self)@.remove(id),
            match r {
                Some(s) => old(self)@.contains_key(id) && s == old(self)@[id],
                None => !old(self)@.contains_key(id),
            },
    {
        let r = self.command_buffers.remove(&id);
        assert(self@ == old(self)@.remove(id));
        assert forall|k: u64| #[trigger] self@.contains_key(k) implies self@[k].buffers@.len()
            == self@[k].plans@.len() by {
            assert(old(self)@.contains_key(k));
        };
        r
    }
}

} // verus!
