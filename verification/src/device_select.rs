use vstd::prelude::*;

verus! {

/// The kind of a physical device, as Vulkan reports it.
#[derive(Copy, Clone, Debug, PartialEq, Eq, Structural)]
pub enum DeviceKind {
    DiscreteGpu,
    IntegratedGpu,
    VirtualGpu,
    Cpu,
    Other,
    /// A kind this build does not know.
    Unknown,
}

/// What a queue family of a device offers.
#[derive(Copy, Clone, Debug, PartialEq, Eq, Structural)]
pub struct QueueFamilyInfo {
    pub compute: bool,
    pub graphics: bool,
    /// The family can present to the window's surface.
    pub presents: bool,
}

/// What the renderer needs to know of a physical device to choose it.
#[derive(Clone, Debug)]
pub struct DeviceCandidate {
    /// The device has the required extensions and features.
    pub supports_requirements: bool,
    pub kind: DeviceKind,
    pub queue_families: Vec<QueueFamilyInfo>,
}

/// Preference of a device kind: lower is better, discrete GPUs first.
pub open spec fn kind_rank(kind: DeviceKind) -> int {
    match kind {
        DeviceKind::DiscreteGpu => 0,
        DeviceKind::IntegratedGpu => 1,
        DeviceKind::VirtualGpu => 2,
        DeviceKind::Cpu => 3,
        DeviceKind::Other => 4,
        DeviceKind::Unknown => 5,
    }
}

/// A queue family the renderer can use: it computes and, with a window, also draws and
/// presents.
pub open spec fn family_usable(q: QueueFamilyInfo, with_window: bool) -> bool {
    q.compute && (with_window ==> q.graphics && q.presents)
}

/// Index of the first usable queue family among the first `n`.
pub open spec fn first_usable_family(families: Seq<QueueFamilyInfo>, with_window: bool, n: int) -> Option<int>
    decreases n,
{
    if n <= 0 {
        None
    } else {
        match first_usable_family(families, with_window, n - 1) {
            Some(i) => Some(i),
            None => if family_usable(families[n - 1], with_window) {
                Some(n - 1)
            } else {
                None
            },
        }
    }
}

/// The queue family the renderer would use on a device, when it can use the device.
pub open spec fn device_family(c: DeviceCandidate, with_window: bool) -> Option<int> {
    if c.supports_requirements {
        first_usable_family(c.queue_families@, with_window, c.queue_families@.len() as int)
    } else {
        None
    }
}

/// The device and queue family chosen among the first `n` candidates: a usable device of
/// the best kind, the earliest one among equals.
pub open spec fn best_device(cands: Seq<DeviceCandidate>, with_window: bool, n: int) -> Option<(int, int)>
    decreases n,
{
    if n <= 0 {
        None
    } else {
        let prev = best_device(cands, with_window, n - 1);
        match device_family(cands[n - 1], with_window) {
            None => prev,
            Some(f) => match prev {
                None => Some((n - 1, f)),
                Some(p) => if kind_rank(cands[n - 1].kind) < kind_rank(cands[p.0].kind) {
                    Some((n - 1, f))
                } else {
                    prev
                },
            },
        }
    }
}

fn rank_of(kind: DeviceKind) -> (r: u8)
    ensures
        r == kind_rank(kind),
{
    match kind {
        DeviceKind::DiscreteGpu => 0,
        DeviceKind::IntegratedGpu => 1,
        DeviceKind::VirtualGpu => 2,
        DeviceKind::Cpu => 3,
        DeviceKind::Other => 4,
        DeviceKind::Unknown => 5,
    }
}

fn usable_family(c: &DeviceCandidate, with_window: bool) -> (r: Option<usize>)
    ensures
        match r {
            Some(i) => device_family(*c, with_window) == Some(i as int),
            None => device_family(*c, with_window) is None,
        },
{
    if !c.supports_requirements {
        return None;
    }
    let mut i: usize = 0;
    while i < c.queue_families.len()
        invariant
            c.supports_requirements,
            i <= c.queue_families.len(),
            first_usable_family(c.queue_families@, with_window, i as int) is None,
        decreases c.queue_families.len() - i,
    {
        let q = c.queue_families[i];
        if q.compute && (!with_window || (q.graphics && q.presents)) {
            proof {
                lemma_first_usable_stays(c.queue_families@, with_window, i as int + 1, c.queue_families@.len() as int);
            }
            return Some(i);
        }
        i = i + 1;
    }
    None
}

proof fn lemma_first_usable_stays(families: Seq<QueueFamilyInfo>, with_window: bool, m: int, n: int)
    requires
        0 <= m <= n,
        first_usable_family(families, with_window, m) is Some,
    ensures
        first_usable_family(families, with_window, n) == first_usable_family(families, with_window, m),
    decreases n - m,
{
    if m < n {
        lemma_first_usable_stays(families, with_window, m, n - 1);
    }
}

/// Choose the physical device and queue family to render with (see `best_device`):
/// `None` when no device can be used.
pub fn choose_physical_device(cands: &Vec<DeviceCandidate>, with_window: bool) -> (r: Option<(usize, usize)>)
    ensures
        match r {
            Some((d, f)) => best_device(cands@, with_window, cands@.len() as int) == Some((d as int, f as int)),
            None => best_device(cands@, with_window, cands@.len() as int) is None,
        },
{
    let mut best: Option<(usize, usize)> = None;
    let mut best_rank: u8 = 0;
    let mut i: usize = 0;
    while i < cands.len()
        invariant
            i <= cands.len(),
            match best {
                Some((d, f)) => best_device(cands@, with_window, i as int) == Some((d as int, f as int))
                    && d < i && best_rank == kind_rank(cands@[d as int].kind),
                None => best_device(cands@, with_window, i as int) is None,
            },
        decreases cands.len() - i,
    {
        match usable_family(&cands[i], with_window) {
            Some(f) => {
                let rank = rank_of(cands[i].kind);
                match best {
                    None => {
                        best = Some((i, f));
                        best_rank = rank;
                    },
                    Some(_) => {
                        if rank < best_rank {
                            best = Some((i, f));
                            best_rank = rank;
                        }
                    },
                }
            },
            None => {},
        }
        i = i + 1;
    }
    best
}

/// The chosen device is usable, no usable device is of a better kind, and no earlier
/// usable device is of the same kind.
pub proof fn lemma_best_device_is_best(cands: Seq<DeviceCandidate>, with_window: bool, n: int)
    requires
        0 <= n <= cands.len(),
    ensures
        best_device(cands, with_window, n) matches Some((d, f)) ==> {
            &&& 0 <= d < n
            &&& device_family(cands[d], with_window) == Some(f)
            &&& forall|j: int|
                0 <= j < n && #[trigger] device_family(cands[j], with_window) is Some ==> kind_rank(
                    cands[d].kind,
                ) <= kind_rank(cands[j].kind)
            &&& forall|j: int|
                0 <= j < d && #[trigger] device_family(cands[j], with_window) is Some ==> kind_rank(
                    cands[d].kind,
                ) < kind_rank(cands[j].kind)
        },
        best_device(cands, with_window, n) is None ==> forall|j: int|
            0 <= j < n ==> #[trigger] device_family(cands[j], with_window) is None,
    decreases n,
{
    if n > 0 {
        lemma_best_device_is_best(cands, with_window, n - 1);
    }
}

/// A device of kind `a` is preferred to one of kind `b`: discrete GPUs first, then
/// integrated GPUs, virtual GPUs, CPUs, other devices, and devices of unknown kind last.
pub open spec fn kind_preferred(a: DeviceKind, b: DeviceKind) -> bool {
    match b {
        DeviceKind::DiscreteGpu => false,
        DeviceKind::IntegratedGpu => a == DeviceKind::DiscreteGpu,
        DeviceKind::VirtualGpu => a == DeviceKind::DiscreteGpu || a == DeviceKind::IntegratedGpu,
        DeviceKind::Cpu => a == DeviceKind::DiscreteGpu || a == DeviceKind::IntegratedGpu || a
            == DeviceKind::VirtualGpu,
        DeviceKind::Other => a != DeviceKind::Other && a != DeviceKind::Unknown,
        DeviceKind::Unknown => a != DeviceKind::Unknown,
    }
}

/// Queue family `f` of device `c` can be used: the device meets the requirements, and the
/// family computes and, with a window, also draws and presents.
pub open spec fn queue_family_fits(c: DeviceCandidate, f: int, with_window: bool) -> bool {
    &&& c.supports_requirements
    &&& 0 <= f < c.queue_families@.len()
    &&& c.queue_families@[f].compute
    &&& with_window ==> c.queue_families@[f].graphics && c.queue_families@[f].presents
}

/// Device `c` can be used: one of its queue families fits.
pub open spec fn device_fits(c: DeviceCandidate, with_window: bool) -> bool {
    exists|f: int| queue_family_fits(c, f, with_window)
}

proof fn lemma_first_usable_family_exact(families: Seq<QueueFamilyInfo>, with_window: bool, n: int)
    requires
        0 <= n <= families.len(),
    ensures
        first_usable_family(families, with_window, n) matches Some(i) ==> {
            &&& 0 <= i < n
            &&& family_usable(families[i], with_window)
            &&& forall|k: int| 0 <= k < i ==> !family_usable(#[trigger] families[k], with_window)
        },
        first_usable_family(families, with_window, n) is None ==> forall|k: int|
            0 <= k < n ==> !family_usable(#[trigger] families[k], with_window),
    decreases n,
{
    if n > 0 {
        lemma_first_usable_family_exact(families, with_window, n - 1);
    }
}

proof fn lemma_device_family_fits(c: DeviceCandidate, with_window: bool)
    ensures
        device_family(c, with_window) matches Some(f) ==> {
            &&& queue_family_fits(c, f, with_window)
            &&& forall|k: int| 0 <= k < f ==> !queue_family_fits(c, k, with_window)
        },
        device_family(c, with_window) is Some <==> device_fits(c, with_window),
{
    lemma_first_usable_family_exact(c.queue_families@, with_window, c.queue_families@.len() as int);
    if device_fits(c, with_window) {
        let f = choose|f: int| queue_family_fits(c, f, with_window);
        assert(family_usable(c.queue_families@[f], with_window));
    }
    match device_family(c, with_window) {
        Some(f) => {
            assert(queue_family_fits(c, f, with_window));
        },
        None => {},
    }
}

/// The device chosen among `cands` is one that can be used, with its first queue family
/// that fits; no device that can be used is of a preferred kind, and every earlier one
/// that can be used is of a kind the chosen one is preferred to. No device is chosen
/// only when none can be used.
pub proof fn lemma_device_choice(cands: Seq<DeviceCandidate>, with_window: bool)
    ensures
        best_device(cands, with_window, cands.len() as int) matches Some((d, f)) ==> {
            &&& 0 <= d < cands.len()
            &&& queue_family_fits(cands[d], f, with_window)
            &&& forall|k: int| 0 <= k < f ==> !queue_family_fits(cands[d], k, with_window)
            &&& forall|j: int|
                0 <= j < cands.len() && #[trigger] device_fits(cands[j], with_window) ==> !kind_preferred(
                    cands[j].kind,
                    cands[d].kind,
                )
            &&& forall|j: int|
                0 <= j < d && #[trigger] device_fits(cands[j], with_window) ==> kind_preferred(
                    cands[d].kind,
                    cands[j].kind,
                )
        },
        best_device(cands, with_window, cands.len() as int) is None ==> forall|j: int|
            0 <= j < cands.len() ==> !#[trigger] device_fits(cands[j], with_window),
{
    lemma_best_device_is_best(cands, with_window, cands.len() as int);
    assert forall|j: int| 0 <= j < cands.len() implies (#[trigger] device_fits(cands[j], with_window)
        <==> device_family(cands[j], with_window) is Some) by {
        lemma_device_family_fits(cands[j], with_window);
    }
    match best_device(cands, with_window, cands.len() as int) {
        Some((d, f)) => {
            lemma_device_family_fits(cands[d], with_window);
        },
        None => {},
    }
}

} // verus!
