//! The GPU objects that the renderer owns, and the order in which they go.
//!
//! Vulkan keeps no record of which object needs which. The [`Ledger`] does: it
//! takes note of every kind of object as it is acquired, refuses one whose
//! dependencies are not there yet, and says in which order to destroy what it
//! holds, so that nothing is destroyed while something that needs it is alive.

use vstd::prelude::*;

verus! {

/// The kinds of GPU object that the renderer acquires. A kind with several
/// objects, such as the image views, is acquired and destroyed as a whole.
#[derive(Clone, Copy, Debug, PartialEq, Eq, Structural)]
pub enum ResourceKind {
    Instance,
    DebugCallback,
    Surface,
    Device,
    Swapchain,
    ImageViews,
    ShaderModules,
    PipelineLayout,
    RenderPass,
    Pipelines,
    Framebuffers,
    CommandPool,
    ImageAvailableSemaphores,
    RenderFinishedSemaphores,
    InFlightFences,
}

/// The number of kinds.
pub const RESOURCE_KINDS: usize = 15;

impl ResourceKind {
    /// The place of a kind in the order of destruction, the first to go at 0.
    pub open spec fn teardown_rank(self) -> nat {
        match self {
            ResourceKind::InFlightFences => 0,
            ResourceKind::RenderFinishedSemaphores => 1,
            ResourceKind::ImageAvailableSemaphores => 2,
            ResourceKind::CommandPool => 3,
            ResourceKind::Framebuffers => 4,
            ResourceKind::Pipelines => 5,
            ResourceKind::RenderPass => 6,
            ResourceKind::PipelineLayout => 7,
            ResourceKind::ShaderModules => 8,
            ResourceKind::ImageViews => 9,
            ResourceKind::Swapchain => 10,
            ResourceKind::Surface => 11,
            ResourceKind::Device => 12,
            ResourceKind::DebugCallback => 13,
            ResourceKind::Instance => 14,
        }
    }

    /// Whether objects of this kind need objects of the other kind: they are
    /// made from them or refer to them, and must be gone before them.
    pub open spec fn needs(self, other: ResourceKind) -> bool {
        match self {
            ResourceKind::Instance => false,
            ResourceKind::DebugCallback => other == ResourceKind::Instance,
            ResourceKind::Surface => other == ResourceKind::Instance,
            ResourceKind::Device => other == ResourceKind::Instance,
            ResourceKind::Swapchain => other == ResourceKind::Device || other
                == ResourceKind::Surface,
            ResourceKind::ImageViews => other == ResourceKind::Device || other
                == ResourceKind::Swapchain,
            ResourceKind::ShaderModules => other == ResourceKind::Device,
            ResourceKind::PipelineLayout => other == ResourceKind::Device,
            ResourceKind::RenderPass => other == ResourceKind::Device,
            ResourceKind::Pipelines => other == ResourceKind::Device || other
                == ResourceKind::ShaderModules || other == ResourceKind::PipelineLayout || other
                == ResourceKind::RenderPass,
            ResourceKind::Framebuffers => other == ResourceKind::Device || other
                == ResourceKind::ImageViews || other == ResourceKind::RenderPass,
            ResourceKind::CommandPool => other == ResourceKind::Device || other
                == ResourceKind::Pipelines || other == ResourceKind::Framebuffers,
            ResourceKind::ImageAvailableSemaphores => other == ResourceKind::Device,
            ResourceKind::RenderFinishedSemaphores => other == ResourceKind::Device,
            ResourceKind::InFlightFences => other == ResourceKind::Device,
        }
    }

    /// Tells whether objects of this kind need objects of the other kind.
    pub fn depends_on(self, other: ResourceKind) -> (needed: bool)
        ensures
            needed == self.needs(other),
    {
        match self {
            ResourceKind::Instance => false,
            ResourceKind::DebugCallback => other == ResourceKind::Instance,
            ResourceKind::Surface => other == ResourceKind::Instance,
            ResourceKind::Device => other == ResourceKind::Instance,
            ResourceKind::Swapchain => other == ResourceKind::Device || other
                == ResourceKind::Surface,
            ResourceKind::ImageViews => other == ResourceKind::Device || other
                == ResourceKind::Swapchain,
            ResourceKind::ShaderModules => other == ResourceKind::Device,
            ResourceKind::PipelineLayout => other == ResourceKind::Device,
            ResourceKind::RenderPass => other == ResourceKind::Device,
            ResourceKind::Pipelines => other == ResourceKind::Device || other
                == ResourceKind::ShaderModules || other == ResourceKind::PipelineLayout || other
                == ResourceKind::RenderPass,
            ResourceKind::Framebuffers => other == ResourceKind::Device || other
                == ResourceKind::ImageViews || other == ResourceKind::RenderPass,
            ResourceKind::CommandPool => other == ResourceKind::Device || other
                == ResourceKind::Pipelines || other == ResourceKind::Framebuffers,
            ResourceKind::ImageAvailableSemaphores => other == ResourceKind::Device,
            ResourceKind::RenderFinishedSemaphores => other == ResourceKind::Device,
            ResourceKind::InFlightFences => other == ResourceKind::Device,
        }
    }
}

/// The order of destruction over all kinds: fences, semaphores, command pool,
/// framebuffers, pipelines, render pass, pipeline layout, shader modules, image
/// views, swapchain, surface, device, debug callback, instance.
pub open spec fn teardown_sequence() -> Seq<ResourceKind> {
    seq![
        ResourceKind::InFlightFences,
        ResourceKind::RenderFinishedSemaphores,
        ResourceKind::ImageAvailableSemaphores,
        ResourceKind::CommandPool,
        ResourceKind::Framebuffers,
        ResourceKind::Pipelines,
        ResourceKind::RenderPass,
        ResourceKind::PipelineLayout,
        ResourceKind::ShaderModules,
        ResourceKind::ImageViews,
        ResourceKind::Swapchain,
        ResourceKind::Surface,
        ResourceKind::Device,
        ResourceKind::DebugCallback,
        ResourceKind::Instance,
    ]
}

/// Every kind stands in the order of destruction at the place of its rank.
pub proof fn teardown_sequence_is_ranked()
    ensures
        teardown_sequence().len() == RESOURCE_KINDS,
        forall|kind: ResourceKind| #[trigger]
            teardown_sequence()[kind.teardown_rank() as int] == kind,
        forall|i: int|
            0 <= i < RESOURCE_KINDS ==> (#[trigger] teardown_sequence()[i]).teardown_rank() == i,
{
    let order = teardown_sequence();
    assert(order.len() == 15);
    assert forall|kind: ResourceKind| #[trigger] order[kind.teardown_rank() as int] == kind by {
        match kind {
            ResourceKind::InFlightFences => assert(order[0] == kind),
            ResourceKind::RenderFinishedSemaphores => assert(order[1] == kind),
            ResourceKind::ImageAvailableSemaphores => assert(order[2] == kind),
            ResourceKind::CommandPool => assert(order[3] == kind),
            ResourceKind::Framebuffers => assert(order[4] == kind),
            ResourceKind::Pipelines => assert(order[5] == kind),
            ResourceKind::RenderPass => assert(order[6] == kind),
            ResourceKind::PipelineLayout => assert(order[7] == kind),
            ResourceKind::ShaderModules => assert(order[8] == kind),
            ResourceKind::ImageViews => assert(order[9] == kind),
            ResourceKind::Swapchain => assert(order[10] == kind),
            ResourceKind::Surface => assert(order[11] == kind),
            ResourceKind::Device => assert(order[12] == kind),
            ResourceKind::DebugCallback => assert(order[13] == kind),
            ResourceKind::Instance => assert(order[14] == kind),
        }
    }
    assert forall|i: int| 0 <= i < RESOURCE_KINDS implies (#[trigger] order[i]).teardown_rank()
        == i by {
        if i == 0 {
        } else if i == 1 {
        } else if i == 2 {
        } else if i == 3 {
        } else if i == 4 {
        } else if i == 5 {
        } else if i == 6 {
        } else if i == 7 {
        } else if i == 8 {
        } else if i == 9 {
        } else if i == 10 {
        } else if i == 11 {
        } else if i == 12 {
        } else if i == 13 {
        } else {
        }
    }
}

/// The kinds in their order of destruction.
pub fn all_kinds() -> (order: Vec<ResourceKind>)
    ensures
        order@ == teardown_sequence(),
{
    let order = vec![
        ResourceKind::InFlightFences,
        ResourceKind::RenderFinishedSemaphores,
        ResourceKind::ImageAvailableSemaphores,
        ResourceKind::CommandPool,
        ResourceKind::Framebuffers,
        ResourceKind::Pipelines,
        ResourceKind::RenderPass,
        ResourceKind::PipelineLayout,
        ResourceKind::ShaderModules,
        ResourceKind::ImageViews,
        ResourceKind::Swapchain,
        ResourceKind::Surface,
        ResourceKind::Device,
        ResourceKind::DebugCallback,
        ResourceKind::Instance,
    ];
    assert(order@ =~= teardown_sequence());
    order
}

/// Why the ledger refuses to take note of a kind.
#[derive(Clone, Copy, Debug, PartialEq, Eq, Structural)]
pub enum LedgerError {
    /// The kind is in the ledger already.
    AlreadyAcquired(ResourceKind),
    /// The wanted kind needs one that is not in the ledger.
    MissingDependency { wanted: ResourceKind, missing: ResourceKind },
}

/// Whether `wanted` needs `missing` and `missing` has not been acquired.
pub open spec fn lacks(
    acquired: Seq<ResourceKind>,
    wanted: ResourceKind,
    missing: ResourceKind,
) -> bool {
    wanted.needs(missing) && !acquired.contains(missing)
}

/// Whether `missing` is, of the kinds that `wanted` lacks, the one to acquire
/// first: the one that is destroyed last.
pub open spec fn lacks_first(
    acquired: Seq<ResourceKind>,
    wanted: ResourceKind,
    missing: ResourceKind,
) -> bool {
    &&& lacks(acquired, wanted, missing)
    &&& forall|other: ResourceKind| #[trigger]
        lacks(acquired, wanted, other) ==> other.teardown_rank() <= missing.teardown_rank()
}

/// Whether a sequence of kinds runs from those destroyed first to those
/// destroyed last.
pub open spec fn in_teardown_order(order: Seq<ResourceKind>) -> bool {
    forall|i: int, j: int|
        0 <= i < j < order.len() ==> (#[trigger] order[i]).teardown_rank() < (
        #[trigger] order[j]).teardown_rank()
}

/// Whether `order` is the order in which to destroy what was acquired: it holds
/// the acquired kinds and no others, each once, by rank.
pub open spec fn is_teardown_of(order: Seq<ResourceKind>, acquired: Seq<ResourceKind>) -> bool {
    &&& in_teardown_order(order)
    &&& forall|kind: ResourceKind| #[trigger] order.contains(kind) <==> acquired.contains(kind)
}

/// Whether a sequence of kinds is a possible order of acquisition: no kind
/// twice, and every kind after all the kinds that it needs.
pub open spec fn dependency_ordered(acquired: Seq<ResourceKind>) -> bool {
    &&& acquired.no_duplicates()
    &&& forall|i: int, dependency: ResourceKind|
        0 <= i < acquired.len() && #[trigger] acquired[i].needs(dependency) ==> acquired.take(
            i,
        ).contains(dependency)
}

/// The order in which the renderer acquires its objects.
pub open spec fn acquisition_sequence() -> Seq<ResourceKind> {
    seq![
        ResourceKind::Instance,
        ResourceKind::DebugCallback,
        ResourceKind::Surface,
        ResourceKind::Device,
        ResourceKind::Swapchain,
        ResourceKind::ImageViews,
        ResourceKind::ShaderModules,
        ResourceKind::PipelineLayout,
        ResourceKind::RenderPass,
        ResourceKind::Pipelines,
        ResourceKind::Framebuffers,
        ResourceKind::CommandPool,
        ResourceKind::ImageAvailableSemaphores,
        ResourceKind::RenderFinishedSemaphores,
        ResourceKind::InFlightFences,
    ]
}

/// The kinds in the order in which the renderer acquires them.
pub fn acquisition_order() -> (order: Vec<ResourceKind>)
    ensures
        order@ == acquisition_sequence(),
{
    let order = vec![
        ResourceKind::Instance,
        ResourceKind::DebugCallback,
        ResourceKind::Surface,
        ResourceKind::Device,
        ResourceKind::Swapchain,
        ResourceKind::ImageViews,
        ResourceKind::ShaderModules,
        ResourceKind::PipelineLayout,
        ResourceKind::RenderPass,
        ResourceKind::Pipelines,
        ResourceKind::Framebuffers,
        ResourceKind::CommandPool,
        ResourceKind::ImageAvailableSemaphores,
        ResourceKind::RenderFinishedSemaphores,
        ResourceKind::InFlightFences,
    ];
    assert(order@ =~= acquisition_sequence());
    order
}

/// The record of what has been acquired, in the order of acquisition.
#[derive(Debug)]
pub struct Ledger {
    pub acquired: Vec<ResourceKind>,
}

impl Ledger {
    /// The ledgers that acquisition builds: no kind twice, and every kind after
    /// all the kinds that it needs.
    pub open spec fn wf(self) -> bool {
        dependency_ordered(self.acquired@)
    }

    /// Whether every kind has been acquired.
    pub open spec fn complete(self) -> bool {
        forall|kind: ResourceKind| #[trigger] self.acquired@.contains(kind)
    }

    /// An empty ledger.
    pub fn new() -> (ledger: Ledger)
        ensures
            ledger.acquired@ == Seq::<ResourceKind>::empty(),
            ledger.wf(),
    {
        Ledger { acquired: Vec::new() }
    }

    /// Tells whether a kind has been acquired.
    pub fn holds(&self, kind: ResourceKind) -> (held: bool)
        ensures
            held == self.acquired@.contains(kind),
    {
        let mut index: usize = 0;
        while index < self.acquired.len()
            invariant
                index <= self.acquired.len(),
                forall|k: int| 0 <= k < index ==> self.acquired@[k] != kind,
            decreases self.acquired.len() - index,
        {
            if self.acquired[index] == kind {
                return true;
            }
            index += 1;
        }
        false
    }

    /// Takes note that a kind has been acquired. A kind that is there already, or
    /// that needs one that is not, is refused, and the ledger stays as it was.
    pub fn acquire(&mut self, kind: ResourceKind) -> (noted: Result<(), LedgerError>)
        ensures
            match noted {
                Ok(_) => {
                    &&& !old(self).acquired@.contains(kind)
                    &&& forall|dependency: ResourceKind| #[trigger]
                        kind.needs(dependency) ==> old(self).acquired@.contains(dependency)
                    &&& final(self).acquired@ == old(self).acquired@.push(kind)
                },
                Err(LedgerError::AlreadyAcquired(found)) => {
                    &&& found == kind
                    &&& old(self).acquired@.contains(kind)
                    &&& final(self).acquired@ == old(self).acquired@
                },
                Err(LedgerError::MissingDependency { wanted, missing }) => {
                    &&& wanted == kind
                    &&& !old(self).acquired@.contains(kind)
                    &&& lacks_first(old(self).acquired@, kind, missing)
                    &&& final(self).acquired@ == old(self).acquired@
                },
            },
            old(self).wf() ==> final(self).wf(),
    {
        if self.holds(kind) {
            return Err(LedgerError::AlreadyAcquired(kind));
        }
        let kinds = all_kinds();
        proof {
            teardown_sequence_is_ranked();
        }
        let mut index: usize = kinds.len();
        while index > 0
            invariant
                index <= RESOURCE_KINDS,
                kinds@ == teardown_sequence(),
                *self == *old(self),
                !self.acquired@.contains(kind),
                forall|other: ResourceKind|
                    index <= other.teardown_rank() ==> !#[trigger] lacks(
                        self.acquired@,
                        kind,
                        other,
                    ),
            decreases index,
        {
            index -= 1;
            let dependency = kinds[index];
            if kind.depends_on(dependency) && !self.holds(dependency) {
                proof {
                    teardown_sequence_is_ranked();
                    assert(kinds@[index as int].teardown_rank() == index);
                    assert(lacks(self.acquired@, kind, dependency));
                    assert forall|other: ResourceKind| #[trigger]
                        lacks(
                            self.acquired@,
                            kind,
                            other,
                        ) implies other.teardown_rank() <= dependency.teardown_rank() by {
                        if other.teardown_rank() > index {
                            assert(!lacks(self.acquired@, kind, other));
                        }
                    }
                }
                return Err(LedgerError::MissingDependency { wanted: kind, missing: dependency });
            }
            proof {
                teardown_sequence_is_ranked();
                assert forall|other: ResourceKind| index <= other.teardown_rank() implies !#[trigger] lacks(
                    self.acquired@,
                    kind,
                    other,
                ) by {
                    if other.teardown_rank() == index {
                        assert(kinds@[other.teardown_rank() as int] == other);
                    }
                }
            }
        }
        proof {
            assert forall|dependency: ResourceKind| #[trigger]
                kind.needs(dependency) implies self.acquired@.contains(dependency) by {
                assert(!lacks(self.acquired@, kind, dependency));
            }
        }
        let ghost before = self.acquired@;
        self.acquired.push(kind);
        proof {
            if old(self).wf() {
                let after = self.acquired@;
                assert forall|i: int, dependency: ResourceKind|
                    0 <= i < after.len() && #[trigger] after[i].needs(
                        dependency,
                    ) implies after.take(i).contains(dependency) by {
                    if i < before.len() {
                        assert(after.take(i) =~= before.take(i));
                        assert(before[i].needs(dependency));
                    } else {
                        assert(after.take(i) =~= before);
                    }
                }
            }
        }
        Ok(())
    }

    /// Tells whether every kind has been acquired.
    pub fn is_complete(&self) -> (complete: bool)
        ensures
            complete == self.complete(),
    {
        let kinds = all_kinds();
        proof {
            teardown_sequence_is_ranked();
        }
        let mut index: usize = 0;
        while index < kinds.len()
            invariant
                index <= RESOURCE_KINDS,
                kinds@ == teardown_sequence(),
                forall|k: int| 0 <= k < index ==> self.acquired@.contains(#[trigger] kinds@[k]),
            decreases kinds.len() - index,
        {
            if !self.holds(kinds[index]) {
                return false;
            }
            index += 1;
        }
        proof {
            teardown_sequence_is_ranked();
            assert forall|kind: ResourceKind| #[trigger] self.acquired@.contains(kind) by {
                assert(kinds@[kind.teardown_rank() as int] == kind);
            }
        }
        true
    }

    /// Lists what the ledger holds in the order in which to destroy it.
    pub fn teardown_order(&self) -> (order: Vec<ResourceKind>)
        ensures
            is_teardown_of(order@, self.acquired@),
    {
        let kinds = all_kinds();
        proof {
            teardown_sequence_is_ranked();
        }
        let mut order: Vec<ResourceKind> = Vec::new();
        let mut index: usize = 0;
        while index < kinds.len()
            invariant
                index <= RESOURCE_KINDS,
                kinds@ == teardown_sequence(),
                in_teardown_order(order@),
                forall|k: int| 0 <= k < order@.len() ==> (#[trigger] order@[k]).teardown_rank() < index,
                forall|kind: ResourceKind| #[trigger]
                    order@.contains(kind) <==> self.acquired@.contains(kind) && kind.teardown_rank()
                        < index,
            decreases kinds.len() - index,
        {
            let kind = kinds[index];
            proof {
                teardown_sequence_is_ranked();
                assert(kind.teardown_rank() == index);
            }
            if self.holds(kind) {
                let ghost before = order@;
                order.push(kind);
                proof {
                    let after = order@;
                    assert(after[before.len() as int] == kind);
                    assert forall|other: ResourceKind| #[trigger]
                        after.contains(other) <==> self.acquired@.contains(other)
                            && other.teardown_rank() < index + 1 by {
                        if after.contains(other) {
                            let k = choose|k: int| 0 <= k < after.len() && after[k] == other;
                            if k < before.len() {
                                assert(before[k] == other);
                                assert(before.contains(other));
                            }
                        }
                        if self.acquired@.contains(other) && other.teardown_rank() < index + 1 {
                            if other.teardown_rank() < index {
                                assert(before.contains(other));
                                let k = choose|k: int| 0 <= k < before.len() && before[k] == other;
                                assert(after[k] == other);
                            } else {
                                assert(kinds@[other.teardown_rank() as int] == other);
                            }
                        }
                    }
                }
            } else {
                proof {
                    assert forall|other: ResourceKind| #[trigger]
                        order@.contains(other) <==> self.acquired@.contains(other)
                            && other.teardown_rank() < index + 1 by {
                        if other.teardown_rank() == index {
                            assert(kinds@[other.teardown_rank() as int] == other);
                        }
                    }
                }
            }
            index += 1;
        }
        order
    }
}


/// A kind is destroyed before every kind that it needs.
pub proof fn needs_orders_teardown(dependent: ResourceKind, dependency: ResourceKind)
    requires
        dependent.needs(dependency),
    ensures
        dependent.teardown_rank() < dependency.teardown_rank(),
{
}

/// No two kinds share a place in the order of destruction.
pub proof fn rank_is_injective(first: ResourceKind, second: ResourceKind)
    requires
        first.teardown_rank() == second.teardown_rank(),
    ensures
        first == second,
{
}

/// What was acquired has one order of destruction and no other.
pub proof fn teardown_is_unique(
    acquired: Seq<ResourceKind>,
    first: Seq<ResourceKind>,
    second: Seq<ResourceKind>,
)
    requires
        is_teardown_of(first, acquired),
        is_teardown_of(second, acquired),
    ensures
        first == second,
    decreases first.len(),
{
    if first.len() == 0 {
        if second.len() > 0 {
            assert(second.contains(second[0]));
            assert(first.contains(second[0]));
        }
        assert(first =~= second);
    } else if second.len() == 0 {
        assert(first.contains(first[0]));
        assert(second.contains(first[0]));
    } else {
        let a = first.last();
        let b = second.last();
        assert(first.contains(a));
        assert(second.contains(a));
        let ja = choose|j: int| 0 <= j < second.len() && second[j] == a;
        assert(a.teardown_rank() <= b.teardown_rank());
        assert(second.contains(b));
        assert(first.contains(b));
        let jb = choose|j: int| 0 <= j < first.len() && first[j] == b;
        assert(b.teardown_rank() <= a.teardown_rank());
        rank_is_injective(a, b);
        let front = first.drop_last();
        let back = second.drop_last();
        assert forall|kind: ResourceKind| #[trigger] back.contains(kind) <==> front.contains(
            kind,
        ) by {
            if back.contains(kind) {
                let j = choose|j: int| 0 <= j < back.len() && back[j] == kind;
                assert(second[j] == kind);
                assert(second.contains(kind));
                assert(first.contains(kind));
                let i = choose|i: int| 0 <= i < first.len() && first[i] == kind;
                assert(kind.teardown_rank() < b.teardown_rank());
                assert(i < first.len() - 1);
                assert(front[i] == kind);
            }
            if front.contains(kind) {
                let i = choose|i: int| 0 <= i < front.len() && front[i] == kind;
                assert(first[i] == kind);
                assert(first.contains(kind));
                assert(second.contains(kind));
                let j = choose|j: int| 0 <= j < second.len() && second[j] == kind;
                assert(kind.teardown_rank() < a.teardown_rank());
                assert(j < second.len() - 1);
                assert(back[j] == kind);
            }
        }
        assert(in_teardown_order(front)) by {
            assert forall|i: int, j: int| 0 <= i < j < front.len() implies (
            #[trigger] front[i]).teardown_rank() < (#[trigger] front[j]).teardown_rank() by {
                assert(first[i].teardown_rank() < first[j].teardown_rank());
            }
        }
        assert(in_teardown_order(back)) by {
            assert forall|i: int, j: int| 0 <= i < j < back.len() implies (
            #[trigger] back[i]).teardown_rank() < (#[trigger] back[j]).teardown_rank() by {
                assert(second[i].teardown_rank() < second[j].teardown_rank());
            }
        }
        teardown_is_unique(front, front, back);
        assert(first =~= front.push(a));
        assert(second =~= back.push(b));
    }
}

/// The order of destruction never has a kind go before one that needs it:
/// wherever one kind in it needs another, the one that needs comes first.
pub proof fn teardown_spares_dependencies(acquired: Seq<ResourceKind>, order: Seq<ResourceKind>)
    requires
        is_teardown_of(order, acquired),
    ensures
        forall|i: int, j: int|
            0 <= i < order.len() && 0 <= j < order.len() && (#[trigger] order[i]).needs(
                #[trigger] order[j],
            ) ==> i < j,
{
    assert forall|i: int, j: int|
        0 <= i < order.len() && 0 <= j < order.len() && (#[trigger] order[i]).needs(
            #[trigger] order[j],
        ) implies i < j by {
        needs_orders_teardown(order[i], order[j]);
        if j < i {
            assert(order[j].teardown_rank() < order[i].teardown_rank());
        }
    }
}

/// When an object is destroyed, everything that it needs is still there: in the
/// order of destruction of a ledger, each kind that a kind needs comes after it.
pub proof fn dependencies_outlive_dependents(ledger: Ledger, order: Seq<ResourceKind>)
    requires
        ledger.wf(),
        is_teardown_of(order, ledger.acquired@),
    ensures
        forall|i: int, dependency: ResourceKind|
            0 <= i < order.len() && #[trigger] order[i].needs(dependency) ==> exists|j: int|
                i < j < order.len() && #[trigger] order[j] == dependency,
{
    let acquired = ledger.acquired@;
    assert forall|i: int, dependency: ResourceKind|
        0 <= i < order.len() && #[trigger] order[i].needs(dependency) implies exists|j: int|
        i < j < order.len() && #[trigger] order[j] == dependency by {
        assert(order.contains(order[i]));
        assert(acquired.contains(order[i]));
        let p = choose|p: int| 0 <= p < acquired.len() && acquired[p] == order[i];
        assert(acquired[p].needs(dependency));
        assert(acquired.take(p).contains(dependency));
        let q = choose|q: int| 0 <= q < acquired.take(p).len() && acquired.take(p)[q] == dependency;
        assert(acquired[q] == dependency);
        assert(acquired.contains(dependency));
        assert(order.contains(dependency));
        let j = choose|j: int| 0 <= j < order.len() && order[j] == dependency;
        teardown_spares_dependencies(acquired, order);
        assert(order[i].needs(order[j]));
        assert(i < j);
    }
}

/// Where the objects were acquired from the one destroyed last to the one
/// destroyed first, the order of destruction is the exact reverse of the order
/// of acquisition.
pub proof fn teardown_reverses_acquisition(acquired: Seq<ResourceKind>, order: Seq<ResourceKind>)
    requires
        is_teardown_of(order, acquired),
        in_teardown_order(acquired.reverse()),
    ensures
        order == acquired.reverse(),
{
    let reversed = acquired.reverse();
    assert forall|kind: ResourceKind| #[trigger] reversed.contains(kind) <==> acquired.contains(
        kind,
    ) by {
        if reversed.contains(kind) {
            let i = choose|i: int| 0 <= i < reversed.len() && reversed[i] == kind;
            assert(acquired[acquired.len() - 1 - i] == kind);
        }
        if acquired.contains(kind) {
            let i = choose|i: int| 0 <= i < acquired.len() && acquired[i] == kind;
            assert(reversed[acquired.len() - 1 - i] == kind);
        }
    }
    teardown_is_unique(acquired, order, reversed);
}

/// The renderer's order of acquisition takes in every kind, each after all that
/// it needs: a ledger filled in this order refuses nothing.
pub proof fn acquisition_sequence_is_ordered()
    ensures
        dependency_ordered(acquisition_sequence()),
        forall|kind: ResourceKind| #[trigger] acquisition_sequence().contains(kind),
        forall|kind: ResourceKind| #[trigger]
            acquisition_sequence()[acquisition_place(kind)] == kind,
{
    let order = acquisition_sequence();
    assert(order.len() == 15);
    assert forall|kind: ResourceKind| #[trigger] order[acquisition_place(kind)] == kind by {
        match kind {
            ResourceKind::Instance => assert(order[0] == kind),
            ResourceKind::DebugCallback => assert(order[1] == kind),
            ResourceKind::Surface => assert(order[2] == kind),
            ResourceKind::Device => assert(order[3] == kind),
            ResourceKind::Swapchain => assert(order[4] == kind),
            ResourceKind::ImageViews => assert(order[5] == kind),
            ResourceKind::ShaderModules => assert(order[6] == kind),
            ResourceKind::PipelineLayout => assert(order[7] == kind),
            ResourceKind::RenderPass => assert(order[8] == kind),
            ResourceKind::Pipelines => assert(order[9] == kind),
            ResourceKind::Framebuffers => assert(order[10] == kind),
            ResourceKind::CommandPool => assert(order[11] == kind),
            ResourceKind::ImageAvailableSemaphores => assert(order[12] == kind),
            ResourceKind::RenderFinishedSemaphores => assert(order[13] == kind),
            ResourceKind::InFlightFences => assert(order[14] == kind),
        }
    }
    assert forall|kind: ResourceKind| #[trigger] order.contains(kind) by {
        assert(order[acquisition_place(kind)] == kind);
    }
    assert forall|i: int| 0 <= i < 15 implies acquisition_place(#[trigger] order[i]) == i by {
        if i == 0 {
        } else if i == 1 {
        } else if i == 2 {
        } else if i == 3 {
        } else if i == 4 {
        } else if i == 5 {
        } else if i == 6 {
        } else if i == 7 {
        } else if i == 8 {
        } else if i == 9 {
        } else if i == 10 {
        } else if i == 11 {
        } else if i == 12 {
        } else if i == 13 {
        } else {
        }
    }
    assert(order.no_duplicates()) by {
        assert forall|i: int, j: int| 0 <= i < order.len() && 0 <= j < order.len() && i
            != j implies order[i] != order[j] by {
            assert(acquisition_place(order[i]) == i);
            assert(acquisition_place(order[j]) == j);
        }
    }
    assert forall|i: int, dependency: ResourceKind|
        0 <= i < order.len() && #[trigger] order[i].needs(
            dependency,
        ) implies order.take(i).contains(dependency) by {
        let place = acquisition_place(dependency);
        assert(acquisition_place(order[i]) == i);
        assert(order[place] == dependency);
        assert(place < i);
        assert(order.take(i)[place] == dependency);
    }
}

/// The place of a kind in the renderer's order of acquisition.
pub open spec fn acquisition_place(kind: ResourceKind) -> int {
    match kind {
        ResourceKind::Instance => 0,
        ResourceKind::DebugCallback => 1,
        ResourceKind::Surface => 2,
        ResourceKind::Device => 3,
        ResourceKind::Swapchain => 4,
        ResourceKind::ImageViews => 5,
        ResourceKind::ShaderModules => 6,
        ResourceKind::PipelineLayout => 7,
        ResourceKind::RenderPass => 8,
        ResourceKind::Pipelines => 9,
        ResourceKind::Framebuffers => 10,
        ResourceKind::CommandPool => 11,
        ResourceKind::ImageAvailableSemaphores => 12,
        ResourceKind::RenderFinishedSemaphores => 13,
        ResourceKind::InFlightFences => 14,
    }
}

/// The order of destruction is the renderer's order of acquisition read
/// backwards, but for the surface and the device: the surface is acquired
/// before the device and also destroyed before it. Neither needs the other.
pub proof fn teardown_mirrors_acquisition()
    ensures
        is_teardown_of(teardown_sequence(), acquisition_sequence()),
        forall|kind: ResourceKind|
            kind != ResourceKind::Surface && kind != ResourceKind::Device
                ==> #[trigger] kind.teardown_rank() == 14 - acquisition_place(kind),
        ResourceKind::Surface.teardown_rank() == 14 - acquisition_place(ResourceKind::Device),
        ResourceKind::Device.teardown_rank() == 14 - acquisition_place(ResourceKind::Surface),
        !ResourceKind::Surface.needs(ResourceKind::Device),
        !ResourceKind::Device.needs(ResourceKind::Surface),
{
    teardown_sequence_is_ranked();
    acquisition_sequence_is_ordered();
    let order = teardown_sequence();
    assert forall|kind: ResourceKind| #[trigger]
        order.contains(kind) <==> acquisition_sequence().contains(kind) by {
        assert(order[kind.teardown_rank() as int] == kind);
    }
}


} // verus!
