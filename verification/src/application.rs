//! The renderer as a whole: what it decides while it is set up, and its life from
//! the first acquisition to the last destruction.

use crate::engine::bits::{problem_report_bits, queue_mask_has_graphics};
use crate::engine::instance::InstanceExtension;
use crate::engine::pipeline::{Pipeline, RenderPass};
use crate::engine::resources::{is_teardown_of, Ledger, ResourceKind};
use crate::engine::surface::{
    desired_image_count,
    preferred_present_mode,
    preferred_transform,
    resolved_extent,
    select_desired_image_count,
    select_pre_transform,
    select_present_mode,
    select_surface_format,
    select_surface_resolution,
    usable_format,
    Extent2D,
    PresentMode,
    SurfaceCapabilities,
    SurfaceFormat,
};
use crate::engine::swapchain::{create_swapchain, swapchain_for, SwapchainInfo};
use crate::frame::{
    FrameAction,
    FrameError,
    FrameEvent,
    FrameFault,
    FramePhase,
    FrameStage,
    FrameSync,
};
use vstd::prelude::*;

verus! {

/// A queue family of an adapter, as far as the choice of adapter looks at it.
#[derive(Clone, Copy, Debug, PartialEq, Eq, Structural)]
pub struct QueueFamily {
    /// What the family's queues can do, as a Vulkan bit mask.
    pub queue_flags: u32,
    /// Whether the family's queues can present to the renderer's surface.
    pub supports_surface: bool,
}

impl QueueFamily {
    /// Whether the family's queues can both draw and present.
    pub open spec fn capable(self) -> bool {
        self.queue_flags & 0x1 == 0x1 && self.supports_surface
    }

    /// Tells whether the family's queues can both draw and present.
    pub fn is_capable(&self) -> (capable: bool)
        ensures
            capable == self.capable(),
    {
        queue_mask_has_graphics(self.queue_flags) && self.supports_surface
    }
}

/// The adapter that was chosen and the queue family to use on it, each by its
/// index in what was enumerated.
#[derive(Clone, Copy, Debug, PartialEq, Eq, Structural)]
pub struct AdapterSelection {
    pub adapter: usize,
    pub queue_family: usize,
}

/// Why the renderer cannot be set up.
#[derive(Clone, Copy, Debug, PartialEq, Eq, Structural)]
pub enum SetupError {
    /// No adapter has a queue family that can both draw and present.
    NoSuitableAdapter,
    /// The adapter reported no surface format.
    NoSurfaceFormat,
    /// One more image than the adapter's minimum is more than a `u32` holds.
    ImageCountOutOfRange,
}

/// Whether a selection is the first capable queue family of the first adapter
/// that has one.
pub open spec fn is_first_capable(
    adapters: Seq<Vec<QueueFamily>>,
    selection: AdapterSelection,
) -> bool {
    &&& selection.adapter < adapters.len()
    &&& selection.queue_family < adapters[selection.adapter as int]@.len()
    &&& adapters[selection.adapter as int]@[selection.queue_family as int].capable()
    &&& forall|family: int|
        0 <= family < selection.queue_family ==> !(
        #[trigger] adapters[selection.adapter as int]@[family]).capable()
    &&& forall|adapter: int, family: int|
        0 <= adapter < selection.adapter && 0 <= family < adapters[adapter]@.len() ==> !(
        #[trigger] adapters[adapter]@[family]).capable()
}

/// Whether no adapter has a capable queue family.
pub open spec fn none_capable(adapters: Seq<Vec<QueueFamily>>) -> bool {
    forall|adapter: int, family: int|
        0 <= adapter < adapters.len() && 0 <= family < adapters[adapter]@.len() ==> !(
        #[trigger] adapters[adapter]@[family]).capable()
}

/// Finds the first queue family of an adapter that can both draw and present.
pub fn first_capable_family(families: &Vec<QueueFamily>) -> (found: Option<usize>)
    ensures
        match found {
            Some(family) => {
                &&& family < families.len()
                &&& families[family as int].capable()
                &&& forall|earlier: int| 0 <= earlier < family ==> !(#[trigger] families[earlier]).capable()
            },
            None => forall|family: int|
                0 <= family < families.len() ==> !(#[trigger] families[family]).capable(),
        },
{
    let mut index: usize = 0;
    while index < families.len()
        invariant
            index <= families.len(),
            forall|earlier: int| 0 <= earlier < index ==> !(#[trigger] families[earlier]).capable(),
        decreases families.len() - index,
    {
        if families[index].is_capable() {
            return Some(index);
        }
        index += 1;
    }
    None
}

impl Application {
    /// Picks the adapter and the queue family to use: the first adapter, in the
    /// order of enumeration, with a queue family that can both draw and present,
    /// and its first such family. `adapters` holds the queue families of each
    /// adapter.
    pub fn pick_physical_device(adapters: &Vec<Vec<QueueFamily>>) -> (picked: Result<
        AdapterSelection,
        SetupError,
    >)
        ensures
            match picked {
                Ok(selection) => is_first_capable(adapters@, selection),
                Err(error) => error == SetupError::NoSuitableAdapter && none_capable(adapters@),
            },
    {
        let mut index: usize = 0;
        while index < adapters.len()
            invariant
                index <= adapters.len(),
                forall|adapter: int, family: int|
                    0 <= adapter < index && 0 <= family < adapters@[adapter]@.len() ==> !(
                    #[trigger] adapters@[adapter]@[family]).capable(),
            decreases adapters.len() - index,
        {
            match first_capable_family(&adapters[index]) {
                Some(queue_family) => {
                    return Ok(AdapterSelection { adapter: index, queue_family });
                },
                None => {},
            }
            index += 1;
        }
        Err(SetupError::NoSuitableAdapter)
    }
}

/// A layer's name as the loader reports it, without the zero bytes that pad it.
pub open spec fn trimmed(raw: Seq<u8>) -> Seq<u8> {
    raw.filter(|byte: u8| byte != 0)
}

/// Takes the zero bytes out of a name that the loader reported.
pub fn trim_name(raw: &Vec<u8>) -> (name: Vec<u8>)
    ensures
        name@ == trimmed(raw@),
{
    let ghost kept = |byte: u8| byte != 0;
    let mut name: Vec<u8> = Vec::new();
    let mut index: usize = 0;
    proof {
        raw@.take(0).lemma_filter_len(kept);
        assert(raw@.take(0).filter(kept) =~= Seq::<u8>::empty());
    }
    while index < raw.len()
        invariant
            index <= raw.len(),
            kept == |byte: u8| byte != 0,
            name@ == raw@.take(index as int).filter(kept),
        decreases raw.len() - index,
    {
        let byte = raw[index];
        proof {
            assert(raw@.take(index + 1) =~= raw@.take(index as int).push(byte));
            raw@.take(index as int).lemma_filter_push(byte, kept);
        }
        if byte != 0 {
            name.push(byte);
        }
        index += 1;
    }
    proof {
        assert(raw@.take(raw@.len() as int) =~= raw@);
    }
    name
}

/// Tells whether two names are the same, byte for byte.
pub fn same_name(first: &Vec<u8>, second: &Vec<u8>) -> (same: bool)
    ensures
        same == (first@ == second@),
{
    if first.len() != second.len() {
        return false;
    }
    let mut index: usize = 0;
    while index < first.len()
        invariant
            index <= first.len(),
            first.len() == second.len(),
            forall|k: int| 0 <= k < index ==> first@[k] == second@[k],
        decreases first.len() - index,
    {
        if first[index] != second[index] {
            return false;
        }
        index += 1;
    }
    assert(first@ =~= second@);
    true
}

/// Whether a layer is among those that the loader reported.
pub open spec fn layer_installed(reported: Seq<Vec<u8>>, layer: Seq<u8>) -> bool {
    exists|i: int| 0 <= i < reported.len() && trimmed(#[trigger] reported[i]@) == layer
}

/// Whether every layer that was asked for is among those that the loader
/// reported.
pub open spec fn layers_installed(reported: Seq<Vec<u8>>, requested: Seq<Vec<u8>>) -> bool {
    forall|i: int| 0 <= i < requested.len() ==> layer_installed(reported, #[trigger] requested[i]@)
}

/// Tells whether a layer is among those that the loader reported.
pub fn layer_is_installed(reported: &Vec<Vec<u8>>, layer: &Vec<u8>) -> (installed: bool)
    ensures
        installed == layer_installed(reported@, layer@),
{
    let mut index: usize = 0;
    while index < reported.len()
        invariant
            index <= reported.len(),
            forall|i: int| 0 <= i < index ==> trimmed(#[trigger] reported@[i]@) != layer@,
        decreases reported.len() - index,
    {
        let name = trim_name(&reported[index]);
        if same_name(&name, layer) {
            return true;
        }
        index += 1;
    }
    false
}

impl Application {
    /// Checks that every validation layer that was asked for is installed.
    /// `reported` holds the layer names as the loader gave them.
    pub fn check_validation_layer_support(
        reported: &Vec<Vec<u8>>,
        validation_layers: &Vec<Vec<u8>>,
    ) -> (supported: bool)
        ensures
            supported == layers_installed(reported@, validation_layers@),
    {
        let mut index: usize = 0;
        while index < validation_layers.len()
            invariant
                index <= validation_layers.len(),
                forall|i: int|
                    0 <= i < index ==> layer_installed(reported@, #[trigger] validation_layers@[i]@),
            decreases validation_layers.len() - index,
        {
            if !layer_is_installed(reported, &validation_layers[index]) {
                return false;
            }
            index += 1;
        }
        true
    }
}

/// The windowing systems that the renderer can present to.
#[derive(Clone, Copy, Debug, PartialEq, Eq, Structural)]
pub enum Platform {
    /// Xlib, on Unix.
    Unix,
    MacOs,
    Windows,
}

/// The instance extension for a platform's surfaces.
pub open spec fn platform_surface(platform: Platform) -> InstanceExtension {
    match platform {
        Platform::Unix => InstanceExtension::XlibSurface,
        Platform::MacOs => InstanceExtension::MacOsSurface,
        Platform::Windows => InstanceExtension::Win32Surface,
    }
}

/// Lists the instance extensions that the renderer needs on a platform: surfaces,
/// the platform's own surfaces, and debug reports.
pub fn extension_names(platform: Platform) -> (names: Vec<InstanceExtension>)
    ensures
        names@ == seq![
            InstanceExtension::Surface,
            platform_surface(platform),
            InstanceExtension::DebugReport,
        ],
{
    let windowing = match platform {
        Platform::Unix => InstanceExtension::XlibSurface,
        Platform::MacOs => InstanceExtension::MacOsSurface,
        Platform::Windows => InstanceExtension::Win32Surface,
    };
    let names = vec![InstanceExtension::Surface, windowing, InstanceExtension::DebugReport];
    assert(names@ =~= seq![
        InstanceExtension::Surface,
        platform_surface(platform),
        InstanceExtension::DebugReport,
    ]);
    names
}

/// What the debug callback is created from.
#[derive(Clone, Copy, Debug, PartialEq, Eq, Structural)]
pub struct DebugCallbackInfo {
    /// The kinds of report that the callback takes, as a Vulkan bit mask.
    pub flags: u32,
}

impl Application {
    /// Says what the debug callback is created for: errors, warnings and
    /// performance warnings, which are bits 3, 1 and 2 of the mask. What the
    /// callback is handed goes to the log.
    pub fn setup_debug_callback() -> (info: DebugCallbackInfo)
        ensures
            info == (DebugCallbackInfo { flags: 0xe }),
    {
        DebugCallbackInfo { flags: problem_report_bits() }
    }
}

/// What the adapter reports of the surface.
#[derive(Debug)]
pub struct SurfaceReport {
    pub formats: Vec<SurfaceFormat>,
    pub capabilities: SurfaceCapabilities,
    pub present_modes: Vec<PresentMode>,
}

/// The swapchain that is negotiated from a surface report and the window's size:
/// the first format, made usable; one image more than the minimum, within the
/// maximum; the surface's size or else the window's; no transform if possible;
/// mailbox presentation if possible.
pub open spec fn negotiated(report: SurfaceReport, window: Extent2D) -> SwapchainInfo {
    swapchain_for(
        desired_image_count(
            report.capabilities.min_image_count,
            report.capabilities.max_image_count,
        ) as u32,
        usable_format(report.formats@[0]),
        resolved_extent(report.capabilities.current_extent, window),
        preferred_transform(
            report.capabilities.supported_transforms,
            report.capabilities.current_transform,
        ),
        preferred_present_mode(report.present_modes@),
    )
}

/// Negotiates the swapchain from what the adapter reports of the surface and
/// the window's size in pixels. It fails where the adapter reports no format,
/// and where it sets no maximum and one more image than its minimum is more
/// than a `u32` holds.
pub fn negotiate_swapchain(report: &SurfaceReport, window: Extent2D) -> (info: Result<
    SwapchainInfo,
    SetupError,
>)
    ensures
        report.formats@.len() == 0 ==> info == Err::<SwapchainInfo, SetupError>(
            SetupError::NoSurfaceFormat,
        ),
        report.formats@.len() > 0 && desired_image_count(
            report.capabilities.min_image_count,
            report.capabilities.max_image_count,
        ) > u32::MAX ==> info == Err::<SwapchainInfo, SetupError>(
            SetupError::ImageCountOutOfRange,
        ),
        report.formats@.len() > 0 && desired_image_count(
            report.capabilities.min_image_count,
            report.capabilities.max_image_count,
        ) <= u32::MAX ==> info == Ok::<SwapchainInfo, SetupError>(negotiated(*report, window)),
{
    let surface_format = match select_surface_format(&report.formats) {
        Ok(surface_format) => surface_format,
        Err(_) => {
            return Err(SetupError::NoSurfaceFormat);
        },
    };
    let capabilities = &report.capabilities;
    if capabilities.max_image_count == 0 && capabilities.min_image_count == u32::MAX {
        return Err(SetupError::ImageCountOutOfRange);
    }
    let desired_image_count = select_desired_image_count(capabilities);
    let surface_resolution = select_surface_resolution(capabilities, window);
    let pre_transform = select_pre_transform(capabilities);
    let present_mode = select_present_mode(&report.present_modes);
    Ok(
        create_swapchain(
            desired_image_count,
            &surface_format,
            surface_resolution,
            pre_transform,
            present_mode,
        ),
    )
}

/// What a framebuffer is created from.
#[derive(Clone, Copy, Debug, PartialEq, Eq, Structural)]
pub struct FramebufferInfo {
    pub render_pass: RenderPass,
    pub attachment_count: u32,
    /// The index of the image view that is the framebuffer's one attachment.
    pub attachment: u32,
    pub width: u32,
    pub height: u32,
    pub layers: u32,
}

/// The framebuffer for an image view: the view as its one attachment, the size
/// of the surface, one layer.
pub open spec fn framebuffer_for(
    image_view: u32,
    render_pass: RenderPass,
    surface_resolution: Extent2D,
) -> FramebufferInfo {
    FramebufferInfo {
        render_pass,
        attachment_count: 1,
        attachment: image_view,
        width: surface_resolution.width,
        height: surface_resolution.height,
        layers: 1,
    }
}

/// Says what the framebuffers are created from: one for each of the
/// `image_views` image views, in their order, for the pipeline's render pass.
pub fn create_framebuffers(
    image_views: u32,
    graphics_pipelines: &Pipeline,
    surface_resolution: Extent2D,
) -> (framebuffers: Vec<FramebufferInfo>)
    ensures
        framebuffers@ == Seq::new(
            image_views as nat,
            |i: int| framebuffer_for(i as u32, graphics_pipelines.render_pass, surface_resolution),
        ),
{
    let render_pass = graphics_pipelines.render_pass;
    let mut framebuffers: Vec<FramebufferInfo> = Vec::new();
    let mut image_view: u32 = 0;
    while image_view < image_views
        invariant
            image_view <= image_views,
            framebuffers@ == Seq::new(
                image_view as nat,
                |i: int| framebuffer_for(i as u32, render_pass, surface_resolution),
            ),
        decreases image_views - image_view,
    {
        framebuffers.push(
            FramebufferInfo {
                render_pass,
                attachment_count: 1,
                attachment: image_view,
                width: surface_resolution.width,
                height: surface_resolution.height,
                layers: 1,
            },
        );
        image_view += 1;
        assert(framebuffers@ =~= Seq::new(
            image_view as nat,
            |i: int| framebuffer_for(i as u32, render_pass, surface_resolution),
        ));
    }
    framebuffers
}

/// Why the renderer refuses to start its loop or to be torn down.
#[derive(Clone, Copy, Debug, PartialEq, Eq, Structural)]
pub enum LifecycleError {
    /// The loop has been started already.
    AlreadyStarted,
    /// Not every kind of object has been acquired.
    Incomplete,
    /// The swapchain has no image.
    NoImages,
    /// The loop is neither unstarted nor stopped by a close request.
    LoopRunning,
}

/// The renderer: what it has acquired, and its present loop once that is
/// started.
#[derive(Debug)]
pub struct Application {
    pub resources: Ledger,
    /// The present loop, from its start to the teardown.
    pub frames: Option<FrameSync>,
}

impl Application {
    /// The states that the renderer can be in: its objects were acquired in a
    /// possible order, and a loop runs only over a full set of objects and a
    /// swapchain with at least one image.
    pub open spec fn wf(self) -> bool {
        &&& self.resources.wf()
        &&& self.frames matches Some(sync) ==> {
            &&& self.resources.complete()
            &&& sync.wf()
            &&& sync.image_count > 0
        }
    }

    /// Whether the renderer's objects may be destroyed: the loop was never
    /// started, or a close request has stopped it.
    pub open spec fn may_tear_down(self) -> bool {
        match self.frames {
            Some(sync) => sync.phase is Stopped,
            None => true,
        }
    }

    /// The answer to a report that comes before the loop was started.
    pub open spec fn not_started() -> FrameAction {
        FrameAction::Abort(FrameError { stage: FrameStage::Idle, fault: FrameFault::NotStarted })
    }

    /// A renderer that has acquired nothing.
    pub fn new() -> (application: Application)
        ensures
            application.resources.acquired@ == Seq::<ResourceKind>::empty(),
            application.frames is None,
            application.wf(),
    {
        Application { resources: Ledger::new(), frames: None }
    }

    /// Starts the present loop over a swapchain of `image_count` images, with
    /// the given limit on fence waits, once every kind of object has been
    /// acquired. The loop begins by asking for the window's signal.
    pub fn start(&mut self, image_count: u32, fence_timeout: u64) -> (started: Result<
        FrameAction,
        LifecycleError,
    >)
        ensures
            match started {
                Ok(action) => {
                    &&& old(self).frames is None
                    &&& old(self).resources.complete()
                    &&& image_count > 0
                    &&& action == FrameAction::AwaitSignal
                    &&& final(self).frames == Some(FrameSync::initial(image_count, fence_timeout))
                    &&& final(self).resources == old(self).resources
                },
                Err(error) => {
                    &&& *final(self) == *old(self)
                    &&& error == if old(self).frames is Some {
                        LifecycleError::AlreadyStarted
                    } else if !old(self).resources.complete() {
                        LifecycleError::Incomplete
                    } else {
                        LifecycleError::NoImages
                    }
                    &&& (old(self).frames is Some || !old(self).resources.complete() || image_count
                        == 0)
                },
            },
            old(self).wf() ==> final(self).wf(),
    {
        if self.frames.is_some() {
            return Err(LifecycleError::AlreadyStarted);
        }
        if !self.resources.is_complete() {
            return Err(LifecycleError::Incomplete);
        }
        if image_count == 0 {
            return Err(LifecycleError::NoImages);
        }
        self.frames = Some(FrameSync::new(image_count, fence_timeout));
        Ok(FrameAction::AwaitSignal)
    }

    /// Takes the present loop one step further: from what the host reports to
    /// what it must do next. Nothing is acquired or destroyed on the way.
    pub fn run(&mut self, event: FrameEvent) -> (action: FrameAction)
        ensures
            final(self).resources == old(self).resources,
            match old(self).frames {
                Some(sync) => final(self).frames == Some(sync.next(event).0) && action
                    == sync.next(event).1,
                None => final(self).frames is None && action == Application::not_started(),
            },
            old(self).wf() ==> final(self).wf(),
    {
        match self.frames {
            Some(sync) => {
                let (next, action) = sync.step(event);
                self.frames = Some(next);
                action
            },
            None => FrameAction::Abort(
                FrameError { stage: FrameStage::Idle, fault: FrameFault::NotStarted },
            ),
        }
    }

    /// Gives up everything that was acquired: lists it in the order in which to
    /// destroy it, and forgets it. This is refused while the loop could still
    /// have work with the GPU, that is, unless the loop was never started or a
    /// close request has stopped it.
    pub fn teardown(&mut self) -> (order: Result<Vec<ResourceKind>, LifecycleError>)
        ensures
            match order {
                Ok(kinds) => {
                    &&& old(self).may_tear_down()
                    &&& is_teardown_of(kinds@, old(self).resources.acquired@)
                    &&& final(self).resources.acquired@ == Seq::<ResourceKind>::empty()
                    &&& final(self).frames is None
                },
                Err(error) => {
                    &&& error == LifecycleError::LoopRunning
                    &&& !old(self).may_tear_down()
                    &&& *final(self) == *old(self)
                },
            },
            old(self).wf() ==> final(self).wf(),
    {
        let stopped = match self.frames {
            Some(sync) => match sync.phase {
                FramePhase::Stopped => true,
                _ => false,
            },
            None => true,
        };
        if !stopped {
            return Err(LifecycleError::LoopRunning);
        }
        let kinds = self.resources.teardown_order();
        self.resources = Ledger::new();
        self.frames = None;
        Ok(kinds)
    }
}

/// When the renderer may be torn down, no submission is outstanding: no fence
/// or semaphore is destroyed while the GPU could still signal it.
pub proof fn teardown_finds_gpu_idle(application: Application)
    requires
        application.wf(),
        application.may_tear_down(),
    ensures
        application.frames matches Some(sync) ==> sync.first.at_rest() && sync.second.at_rest(),
{
}


} // verus!
