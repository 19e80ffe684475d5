use vstd::prelude::*;

verus! {

/// The kind of a physical device, in the order of preference.
#[derive(Clone, Copy, Debug, PartialEq, Eq, Structural)]
pub enum DeviceKind {
    DiscreteGpu,
    IntegratedGpu,
    VirtualGpu,
    Cpu,
    Other,
}

/// Rank of a device kind: lower is preferred.
pub open spec fn kind_rank(k: DeviceKind) -> nat {
    match k {
        DeviceKind::DiscreteGpu => 0,
        DeviceKind::IntegratedGpu => 1,
        DeviceKind::VirtualGpu => 2,
        DeviceKind::Cpu => 3,
        DeviceKind::Other => 4,
    }
}

fn rank_of(k: DeviceKind) -> (r: u8)
    ensures
        r == kind_rank(k),
{
    match k {
        DeviceKind::DiscreteGpu => 0,
        DeviceKind::IntegratedGpu => 1,
        DeviceKind::VirtualGpu => 2,
        DeviceKind::Cpu => 3,
        DeviceKind::Other => 4,
    }
}

/// What a queue family of a device offers.
#[derive(Clone, Copy, Debug, PartialEq, Eq, Structural)]
pub struct QueueFamily {
    /// It runs graphics work.
    pub graphics: bool,
    /// It can present to the surface.
    pub presents: bool,
}

/// A physical device as the selection sees it.
pub struct DeviceCandidate {
    pub kind: DeviceKind,
    /// It supports every device extension the renderer needs.
    pub has_extensions: bool,
    pub queue_families: Vec<QueueFamily>,
}

/// The queue family can run the renderer: graphics work and presentation.
pub open spec fn usable(f: QueueFamily) -> bool {
    f.graphics && f.presents
}

/// The index of the first usable queue family, if any.
pub open spec fn first_usable(fams: Seq<QueueFamily>) -> Option<int>
    decreases fams.len(),
{
    if fams.len() == 0 {
        None
    } else {
        match first_usable(fams.drop_last()) {
            Some(i) => Some(i),
            None => if usable(fams.last()) {
                Some(fams.len() - 1)
            } else {
                None
            },
        }
    }
}

/// The device can run the renderer.
pub open spec fn eligible(c: DeviceCandidate) -> bool {
    c.has_extensions && first_usable(c.queue_families@) is Some
}

proof fn lemma_first_usable(fams: Seq<QueueFamily>)
    ensures
        match first_usable(fams) {
            Some(i) => 0 <= i < fams.len() && usable(fams[i]) && forall|j: int|
                0 <= j < i ==> !usable(#[trigger] fams[j]),
            None => forall|j: int| 0 <= j < fams.len() ==> !usable(#[trigger] fams[j]),
        },
    decreases fams.len(),
{
    if fams.len() > 0 {
        lemma_first_usable(fams.drop_last());
        assert forall|j: int| 0 <= j < fams.len() - 1 implies fams.drop_last()[j] == fams[j] by {};
    }
}

fn find_family(fams: &Vec<QueueFamily>) -> (r: Option<usize>)
    ensures
        match r {
            Some(i) => first_usable(fams@) == Some(i as int),
            None => first_usable(fams@) is None,
        },
{
    proof {
        lemma_first_usable(fams@);
    }
    let mut i: usize = 0;
    while i < fams.len()
        invariant
            i <= fams@.len(),
            forall|j: int| 0 <= j < i ==> !usable(#[trigger] fams@[j]),
        decreases fams@.len() - i,
    {
        if fams[i].graphics && fams[i].presents {
            proof {
                lemma_first_usable(fams@);
            }
            assert(usable(fams@[i as int]));
            let ghost x = first_usable(fams@)->Some_0;
            assert(!(x < i)) by {
                if x < i {
                    assert(!usable(fams@[x]));
                }
            };
            assert(!(x > i)) by {
                if x > i {
                    assert(!usable(fams@[i as int]));
                }
            };
            return Some(i);
        }
        i = i + 1;
    }
    None
}

/// Picks the device and queue family to render with: among the devices that
/// support the needed extensions and have a queue family that runs graphics
/// work and presents to the surface, the first one of the most preferred
/// kind, with its first such queue family. `None` when no device qualifies.
pub fn select_physical_device(candidates: &Vec<DeviceCandidate>) -> (r: Option<(usize, usize)>)
    ensures
        r is None <==> forall|j: int|
            0 <= j < candidates@.len() ==> !eligible(#[trigger] candidates@[j]),
        match r {
            Some((i, q)) => {
                &&& i < candidates@.len()
                &&& eligible(candidates@[i as int])
                &&& first_usable(candidates@[i as int].queue_families@) == Some(q as int)
                &&& forall|j: int|
                    0 <= j < candidates@.len() && eligible(#[trigger] candidates@[j]) ==> kind_rank(
                        candidates@[i as int].kind,
                    ) <= kind_rank(candidates@[j].kind)
                &&& forall|j: int|
                    0 <= j < i && eligible(#[trigger] candidates@[j]) ==> kind_rank(
                        candidates@[i as int].kind,
                    ) < kind_rank(candidates@[j].kind)
            },
            None => true,
        },
{
    let mut best: Option<(usize, usize)> = None;
    let mut best_rank: u8 = 0;
    let mut k: usize = 0;
    while k < candidates.len()
        invariant
            k <= candidates@.len(),
            best is None <==> forall|j: int| 0 <= j < k ==> !eligible(#[trigger] candidates@[j]),
            match best {
                Some((i, q)) => {
                    &&& i < k
                    &&& eligible(candidates@[i as int])
                    &&& best_rank == kind_rank(candidates@[i as int].kind)
                    &&& first_usable(candidates@[i as int].queue_families@) == Some(q as int)
                    &&& forall|j: int|
                        0 <= j < k && eligible(#[trigger] candidates@[j]) ==> best_rank
                            <= kind_rank(candidates@[j].kind)
                    &&& forall|j: int|
                        0 <= j < i && eligible(#[trigger] candidates@[j]) ==> best_rank
                            < kind_rank(candidates@[j].kind)
                },
                None => true,
            },
        decreases candidates@.len() - k,
    {
        let c = &candidates[k];
        if c.has_extensions {
            match find_family(&c.queue_families) {
                Some(q) => {
                    let rank = rank_of(c.kind);
                    let better = match best {
                        None => true,
                        Some(_) => rank < best_rank,
                    };
                    if better {
                        best = Some((k, q));
                        best_rank = rank;
                    }
                },
                None => {},
            }
        }
        k = k + 1;
    }
    best
}

} // verus!
