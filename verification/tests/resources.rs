use vk_engine::engine::resources::{
    acquisition_order, all_kinds, Ledger, LedgerError, ResourceKind, RESOURCE_KINDS,
};

fn destruction() -> Vec<ResourceKind> {
    vec![
        ResourceKind::InFlightFences,
        ResourceKind::RenderFinishedSemaphores,
        ResourceKind::ImageAvailableSemaphores,
        ResourceKind::CommandPool,
        ResourceKind::Framebuffers,
        ResourceKind::Pipelines,
        ResourceKind::RenderPass,
        ResourceKind::PipelineLayout,
        ResourceKind::ShaderModules,
        ResourceKind::ImageViews,
        ResourceKind::Swapchain,
        ResourceKind::Surface,
        ResourceKind::Device,
        ResourceKind::DebugCallback,
        ResourceKind::Instance,
    ]
}

#[test]
fn teardown_runs_from_fences_to_instance() {
    assert_eq!(all_kinds(), destruction());
    assert_eq!(all_kinds().len(), RESOURCE_KINDS);
}

#[test]
fn acquisition_runs_from_instance_to_fences() {
    assert_eq!(
        acquisition_order(),
        vec![
            ResourceKind::Instance,
            ResourceKind::DebugCallback,
            ResourceKind::Surface,
            ResourceKind::Device,
            ResourceKind::Swapchain,
            ResourceKind::ImageViews,
            ResourceKind::ShaderModules,
            ResourceKind::PipelineLayout,
            ResourceKind::RenderPass,
            ResourceKind::Pipelines,
            ResourceKind::Framebuffers,
            ResourceKind::CommandPool,
            ResourceKind::ImageAvailableSemaphores,
            ResourceKind::RenderFinishedSemaphores,
            ResourceKind::InFlightFences,
        ]
    );
}

#[test]
fn ledger_accepts_the_acquisition_order() {
    let mut ledger = Ledger::new();
    assert!(!ledger.is_complete());
    for kind in acquisition_order() {
        assert!(!ledger.holds(kind));
        assert_eq!(ledger.acquire(kind), Ok(()));
        assert!(ledger.holds(kind));
    }
    assert!(ledger.is_complete());
    assert_eq!(ledger.acquired, acquisition_order());
    assert_eq!(ledger.teardown_order(), destruction());
}

#[test]
fn teardown_is_exact_reverse_of_ranked_acquisition() {
    let mut acquisition = destruction();
    acquisition.reverse();
    let mut ledger = Ledger::new();
    for kind in acquisition.iter() {
        assert_eq!(ledger.acquire(*kind), Ok(()));
    }
    let mut reversed = ledger.acquired.clone();
    reversed.reverse();
    assert_eq!(ledger.teardown_order(), reversed);
}

#[test]
fn teardown_of_a_partial_ledger_keeps_the_order() {
    let mut ledger = Ledger::new();
    assert_eq!(ledger.teardown_order(), vec![]);
    assert_eq!(ledger.acquire(ResourceKind::Instance), Ok(()));
    assert_eq!(ledger.acquire(ResourceKind::Device), Ok(()));
    assert_eq!(ledger.acquire(ResourceKind::InFlightFences), Ok(()));
    assert_eq!(ledger.acquire(ResourceKind::Surface), Ok(()));
    assert_eq!(ledger.acquire(ResourceKind::RenderPass), Ok(()));
    assert_eq!(
        ledger.teardown_order(),
        vec![
            ResourceKind::InFlightFences,
            ResourceKind::RenderPass,
            ResourceKind::Surface,
            ResourceKind::Device,
            ResourceKind::Instance,
        ]
    );
}

#[test]
fn teardown_never_destroys_a_dependency_first() {
    let mut ledger = Ledger::new();
    for kind in acquisition_order() {
        ledger.acquire(kind).unwrap();
    }
    let order = ledger.teardown_order();
    for (i, kind) in order.iter().enumerate() {
        for earlier in order[..i].iter() {
            assert!(!kind.depends_on(*earlier), "{:?} needs {:?}", kind, earlier);
        }
    }
}

#[test]
fn ledger_refuses_a_kind_twice() {
    let mut ledger = Ledger::new();
    assert_eq!(ledger.acquire(ResourceKind::Instance), Ok(()));
    assert_eq!(
        ledger.acquire(ResourceKind::Instance),
        Err(LedgerError::AlreadyAcquired(ResourceKind::Instance))
    );
    assert_eq!(ledger.acquired, vec![ResourceKind::Instance]);
}

#[test]
fn ledger_refuses_a_kind_before_its_dependencies() {
    let mut ledger = Ledger::new();
    assert_eq!(
        ledger.acquire(ResourceKind::Device),
        Err(LedgerError::MissingDependency {
            wanted: ResourceKind::Device,
            missing: ResourceKind::Instance
        })
    );
    assert_eq!(ledger.acquired, vec![]);
    ledger.acquire(ResourceKind::Instance).unwrap();
    assert_eq!(
        ledger.acquire(ResourceKind::Swapchain),
        Err(LedgerError::MissingDependency {
            wanted: ResourceKind::Swapchain,
            missing: ResourceKind::Device
        })
    );
    ledger.acquire(ResourceKind::Device).unwrap();
    assert_eq!(
        ledger.acquire(ResourceKind::Swapchain),
        Err(LedgerError::MissingDependency {
            wanted: ResourceKind::Swapchain,
            missing: ResourceKind::Surface
        })
    );
    assert_eq!(
        ledger.acquire(ResourceKind::Pipelines),
        Err(LedgerError::MissingDependency {
            wanted: ResourceKind::Pipelines,
            missing: ResourceKind::ShaderModules
        })
    );
    assert_eq!(ledger.acquired, vec![ResourceKind::Instance, ResourceKind::Device]);
}

#[test]
fn kinds_need_what_they_are_made_from() {
    assert!(ResourceKind::Swapchain.depends_on(ResourceKind::Surface));
    assert!(ResourceKind::Swapchain.depends_on(ResourceKind::Device));
    assert!(ResourceKind::ImageViews.depends_on(ResourceKind::Swapchain));
    assert!(ResourceKind::Pipelines.depends_on(ResourceKind::RenderPass));
    assert!(ResourceKind::Pipelines.depends_on(ResourceKind::PipelineLayout));
    assert!(ResourceKind::Framebuffers.depends_on(ResourceKind::ImageViews));
    assert!(ResourceKind::CommandPool.depends_on(ResourceKind::Framebuffers));
    assert!(ResourceKind::InFlightFences.depends_on(ResourceKind::Device));
    assert!(!ResourceKind::Surface.depends_on(ResourceKind::Device));
    assert!(!ResourceKind::Device.depends_on(ResourceKind::Surface));
    assert!(!ResourceKind::Instance.depends_on(ResourceKind::Instance));
    assert!(!ResourceKind::RenderPass.depends_on(ResourceKind::Pipelines));
}
