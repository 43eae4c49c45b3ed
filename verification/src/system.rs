//! The frame context: what is known about the device, the swapchain and the
//! frame in flight, and how acquiring and presenting images changes it.

use vstd::prelude::*;

use crate::commands::CommandBuilder;
use crate::egui::FrameEndFuture;
use crate::renderer::triangle_draw_system::{quad_vertices, TriangleDrawSystem};
use crate::resources::{Extent, Format, SwapchainImage, Viewport};

verus! {

/// Frame timing, in microseconds of a monotonic clock.
#[derive(Clone, Copy, Debug, PartialEq, Eq, Structural)]
pub struct PerformanceInfo {
    pub game_start: u64,
    pub last_update: u64,
    /// Time between the last two updates.
    pub delta_time: u64,
    pub last_render: u64,
    /// Time the last frame took from its update to the end of rendering.
    pub render_time: u64,
}

/// The time from `earlier` to `later`, or zero if `later` is not later.
pub open spec fn elapsed(earlier: u64, later: u64) -> u64 {
    if later >= earlier {
        (later - earlier) as u64
    } else {
        0
    }
}

impl PerformanceInfo {
    /// Starts a frame at time `now`.
    pub fn update(&mut self, now: u64)
        ensures
            *final(self) == (PerformanceInfo {
                delta_time: elapsed(old(self).last_update, now),
                last_update: now,
                last_render: now,
                ..*old(self)
            }),
    {
        self.delta_time = if now >= self.last_update {
            now - self.last_update
        } else {
            0
        };
        self.last_update = now;
        self.last_render = now;
    }

    /// Notes that rendering of the frame ended at time `now`.
    pub fn handle_render_end(&mut self, now: u64)
        ensures
            *final(self) == (PerformanceInfo {
                render_time: elapsed(old(self).last_render, now),
                ..*old(self)
            }),
    {
        self.render_time = if now >= self.last_render {
            now - self.last_render
        } else {
            0
        };
    }
}

/// Name and kind of the device in use.
#[derive(Debug, PartialEq, Eq)]
pub struct SystemInfo {
    pub device_name: String,
    pub device_type: String,
}

/// Kinds of physical device.
#[derive(Clone, Copy, Debug, PartialEq, Eq, Structural)]
pub enum PhysicalDeviceType {
    DiscreteGpu,
    IntegratedGpu,
    VirtualGpu,
    Cpu,
    Other,
}

impl PhysicalDeviceType {
    /// Preference among device kinds: lower is better.
    pub open spec fn rank(self) -> int {
        match self {
            PhysicalDeviceType::DiscreteGpu => 0,
            PhysicalDeviceType::IntegratedGpu => 1,
            PhysicalDeviceType::VirtualGpu => 2,
            PhysicalDeviceType::Cpu => 3,
            PhysicalDeviceType::Other => 4,
        }
    }

    pub fn preference(&self) -> (rank: u8)
        ensures
            rank == self.rank(),
    {
        match self {
            PhysicalDeviceType::DiscreteGpu => 0,
            PhysicalDeviceType::IntegratedGpu => 1,
            PhysicalDeviceType::VirtualGpu => 2,
            PhysicalDeviceType::Cpu => 3,
            PhysicalDeviceType::Other => 4,
        }
    }
}

/// What a queue family can do.
#[derive(Clone, Copy, Debug, PartialEq, Eq, Structural)]
pub struct QueueFamily {
    pub supports_graphics: bool,
    /// Whether the family can present to the window's surface.
    pub supports_surface: bool,
}

impl QueueFamily {
    /// The family can both draw and present.
    pub open spec fn usable(self) -> bool {
        self.supports_graphics && self.supports_surface
    }
}

/// A physical device as far as the choice among devices goes.
#[derive(Debug, PartialEq, Eq)]
pub struct PhysicalDevice {
    pub device_type: PhysicalDeviceType,
    /// Whether the device supports every extension the renderer requires.
    pub supports_extensions: bool,
    pub queue_families: Vec<QueueFamily>,
}

impl PhysicalDevice {
    /// `family` is the first queue family of the device that can draw and
    /// present.
    pub open spec fn first_usable_family(&self, family: int) -> bool {
        &&& 0 <= family < self.queue_families@.len()
        &&& self.queue_families@[family].usable()
        &&& forall|q: int| 0 <= q < family ==> !(#[trigger] self.queue_families@[q]).usable()
    }

    /// The device supports the required extensions and has a queue family
    /// that can draw and present.
    pub open spec fn eligible(&self) -> bool {
        self.supports_extensions && exists|q: int|
            0 <= q < self.queue_families@.len() && (#[trigger] self.queue_families@[q]).usable()
    }

    /// The first queue family that can draw and present, if there is one.
    pub fn usable_family(&self) -> (family: Option<usize>)
        ensures
            match family {
                Some(q) => self.first_usable_family(q as int),
                None => forall|q: int|
                    0 <= q < self.queue_families@.len() ==> !(#[trigger] self.queue_families@[q]).usable(),
            },
    {
        let mut q: usize = 0;
        while q < self.queue_families.len()
            invariant
                q <= self.queue_families@.len(),
                forall|p: int| 0 <= p < q ==> !(#[trigger] self.queue_families@[p]).usable(),
            decreases self.queue_families@.len() - q,
        {
            let family = &self.queue_families[q];
            if family.supports_graphics && family.supports_surface {
                return Some(q);
            }
            q += 1;
        }
        None
    }
}

/// Device `chosen` with queue family `family` is the choice among `devices`:
/// it is eligible, no eligible device is of a better kind, no earlier
/// eligible device is of the same kind, and `family` is its first usable
/// queue family.
pub open spec fn is_device_choice(devices: Seq<PhysicalDevice>, chosen: int, family: int) -> bool {
    &&& 0 <= chosen < devices.len()
    &&& devices[chosen].supports_extensions
    &&& devices[chosen].first_usable_family(family)
    &&& forall|d: int|
        0 <= d < devices.len() && (#[trigger] devices[d]).eligible() ==> devices[chosen].device_type.rank()
            <= devices[d].device_type.rank()
    &&& forall|d: int|
        0 <= d < chosen && (#[trigger] devices[d]).eligible() ==> devices[chosen].device_type.rank()
            < devices[d].device_type.rank()
}

/// Picks the device to render with and the queue family to submit to:
/// the best kind of device wins, and among equals the first. Returns `None`
/// when no device is eligible.
pub fn select_device(devices: &Vec<PhysicalDevice>) -> (choice: Option<(usize, usize)>)
    ensures
        match choice {
            Some((chosen, family)) => is_device_choice(devices@, chosen as int, family as int),
            None => forall|d: int| 0 <= d < devices@.len() ==> !(#[trigger] devices@[d]).eligible(),
        },
{
    let mut best: Option<(usize, usize)> = None;
    let mut d: usize = 0;
    while d < devices.len()
        invariant
            d <= devices@.len(),
            match best {
                Some((chosen, family)) => chosen < d && is_device_choice(
                    devices@.take(d as int),
                    chosen as int,
                    family as int,
                ),
                None => forall|e: int| 0 <= e < d ==> !(#[trigger] devices@[e]).eligible(),
            },
        decreases devices@.len() - d,
    {
        let device = &devices[d];
        let family = if device.supports_extensions {
            device.usable_family()
        } else {
            None
        };
        if let Some(q) = family {
            let better = match best {
                Some((chosen, _)) => device.device_type.preference() < devices[chosen].device_type.preference(),
                None => true,
            };
            if better {
                best = Some((d, q));
            }
        }
        d += 1;
    }
    assert(devices@.take(d as int) =~= devices@);
    best
}

/// How the window's surface can be presented to.
#[derive(Clone, Copy, Debug, PartialEq, Eq, Structural)]
pub enum CompositeAlpha {
    Opaque,
    PreMultiplied,
    PostMultiplied,
    Inherit,
}

/// What the surface supports.
#[derive(Debug, PartialEq, Eq)]
pub struct SurfaceCapabilities {
    pub min_image_count: u32,
    /// The supported modes, in the order in which the surface lists them.
    pub supported_composite_alpha: Vec<CompositeAlpha>,
}

/// The parameters a swapchain is created with. Its images are always used
/// as colour attachments.
#[derive(Clone, Copy, Debug, PartialEq, Eq, Structural)]
pub struct SwapchainCreateInfo {
    pub min_image_count: u32,
    pub image_format: Format,
    pub image_extent: Extent,
    pub composite_alpha: CompositeAlpha,
}

/// The swapchain to create for a window of size `window_extent`: as few
/// images as the surface allows, 8-bit sRGB, the size of the window, and the
/// first composite mode that the surface supports. `None` if it supports
/// none.
pub fn swapchain_create_info(capabilities: &SurfaceCapabilities, window_extent: Extent) -> (info: Option<
    SwapchainCreateInfo,
>)
    ensures
        info == if capabilities.supported_composite_alpha@.len() > 0 {
            Some(
                SwapchainCreateInfo {
                    min_image_count: capabilities.min_image_count,
                    image_format: Format::B8G8R8A8Srgb,
                    image_extent: window_extent,
                    composite_alpha: capabilities.supported_composite_alpha@[0],
                },
            )
        } else {
            None
        },
{
    if capabilities.supported_composite_alpha.len() > 0 {
        Some(
            SwapchainCreateInfo {
                min_image_count: capabilities.min_image_count,
                image_format: Format::B8G8R8A8Srgb,
                image_extent: window_extent,
                composite_alpha: capabilities.supported_composite_alpha[0],
            },
        )
    } else {
        None
    }
}

/// A swapchain as far as the renderer depends on it.
#[derive(Clone, Copy, Debug, PartialEq, Eq, Structural)]
pub struct Swapchain {
    pub image_format: Format,
    pub image_extent: Extent,
}

/// What an attempt to acquire the next swapchain image came to.
#[derive(Clone, Copy, Debug, PartialEq, Eq, Structural)]
pub enum AcquireOutcome {
    /// Image `image_num` is ready to be drawn to. `suboptimal` says that the
    /// swapchain no longer matches the surface exactly.
    Acquired { image_num: usize, suboptimal: bool },
    /// The swapchain no longer fits the surface.
    OutOfDate,
    /// Any other failure.
    Failed,
}

/// Why no image was acquired.
#[derive(Clone, Copy, Debug, PartialEq, Eq, Structural)]
pub enum AcquireError {
    /// The surface changed: recreate the swapchain and skip the frame.
    OutOfDate,
    /// The failure is not one that a new swapchain remedies.
    AcquisitionFailure,
}

/// The image to draw to after an attempt to acquire one from a swapchain of
/// `image_count` images, or why there is none.
pub open spec fn acquisition(image_count: nat, outcome: AcquireOutcome) -> Result<usize, AcquireError> {
    match outcome {
        AcquireOutcome::Acquired { image_num, .. } => if image_num < image_count {
            Ok(image_num)
        } else {
            Err(AcquireError::AcquisitionFailure)
        },
        AcquireOutcome::OutOfDate => Err(AcquireError::OutOfDate),
        AcquireOutcome::Failed => Err(AcquireError::AcquisitionFailure),
    }
}

/// Whether an attempt to acquire an image showed the swapchain to be stale
/// or suboptimal.
pub open spec fn stale_after(image_count: nat, outcome: AcquireOutcome) -> bool {
    match outcome {
        AcquireOutcome::Acquired { image_num, suboptimal } => image_num < image_count && suboptimal,
        AcquireOutcome::OutOfDate => true,
        AcquireOutcome::Failed => false,
    }
}

/// What submitting and presenting a frame came to.
#[derive(Clone, Copy, Debug, PartialEq, Eq, Structural)]
pub enum FlushOutcome {
    /// The frame is on the device; `fence` signals its completion.
    Flushed { fence: u64 },
    /// The swapchain no longer fits the surface.
    OutOfDate,
    /// Any other failure.
    Failed,
}

/// How a recorded frame is to be submitted.
#[derive(Clone, Copy, Debug, PartialEq, Eq, Structural)]
pub struct Submission {
    /// Block on this fence before anything else.
    pub wait_on: Option<u64>,
    /// Submit after the work that signals this fence, if any, and always
    /// after the acquisition of the image.
    pub after: Option<u64>,
    /// The swapchain image to present.
    pub image_num: usize,
}

/// The frame context.
#[derive(Debug, PartialEq, Eq)]
pub struct System {
    pub info: SystemInfo,
    pub swapchain: Swapchain,
    pub images: Vec<SwapchainImage>,
    pub viewport: Viewport,
    pub previous_frame_end: FrameEndFuture,
    pub performance_info: PerformanceInfo,
    pub recreate_swapchain: bool,
    pub triangle_system: TriangleDrawSystem,
}

/// The frame context right after start-up at time `now`: no frame in flight,
/// an empty viewport, and a swapchain that is due for (re)creation so that
/// the first frame sizes everything.
pub fn init(info: SystemInfo, swapchain: Swapchain, images: Vec<SwapchainImage>, now: u64) -> (system: System)
    ensures
        system.info == info,
        system.swapchain == swapchain,
        system.images == images,
        system.viewport == (Viewport { dimensions: Extent { width: 0, height: 0 } }),
        system.previous_frame_end == FrameEndFuture::BoxedFuture,
        system.performance_info == (PerformanceInfo {
            game_start: now,
            last_update: now,
            delta_time: 0,
            last_render: now,
            render_time: 0,
        }),
        system.recreate_swapchain,
        system.triangle_system.vertex_buffer@ == quad_vertices(),
{
    System {
        info,
        swapchain,
        images,
        viewport: Viewport { dimensions: Extent { width: 0, height: 0 } },
        previous_frame_end: FrameEndFuture::now(),
        performance_info: PerformanceInfo {
            game_start: now,
            last_update: now,
            delta_time: 0,
            last_render: now,
            render_time: 0,
        },
        recreate_swapchain: true,
        triangle_system: TriangleDrawSystem::new(),
    }
}

impl System {
    /// Everything about the context but the frame in flight and the
    /// recreation flag is the same in `self` and `other`.
    pub open spec fn same_resources(&self, other: &System) -> bool {
        &&& self.info == other.info
        &&& self.swapchain == other.swapchain
        &&& self.images == other.images
        &&& self.viewport == other.viewport
        &&& self.performance_info == other.performance_info
        &&& self.triangle_system == other.triangle_system
    }

    /// Notes that the window changed size: the swapchain is due for
    /// recreation.
    pub fn window_resized(&mut self)
        ensures
            final(self).same_resources(old(self)),
            final(self).previous_frame_end == old(self).previous_frame_end,
            final(self).recreate_swapchain,
    {
        self.recreate_swapchain = true;
    }

    /// Takes in the outcome of acquiring the next image. A stale or
    /// suboptimal swapchain is flagged for recreation. An image number that
    /// the swapchain does not have counts as a failure.
    pub fn acquire_image(&mut self, outcome: AcquireOutcome) -> (result: Result<usize, AcquireError>)
        ensures
            final(self).same_resources(old(self)),
            final(self).previous_frame_end == old(self).previous_frame_end,
            result == acquisition(old(self).images@.len(), outcome),
            final(self).recreate_swapchain == (old(self).recreate_swapchain || stale_after(
                old(self).images@.len(),
                outcome,
            )),
    {
        match outcome {
            AcquireOutcome::Acquired { image_num, suboptimal } => {
                if image_num >= self.images.len() {
                    return Err(AcquireError::AcquisitionFailure);
                }
                if suboptimal {
                    self.recreate_swapchain = true;
                }
                Ok(image_num)
            },
            AcquireOutcome::OutOfDate => {
                self.recreate_swapchain = true;
                Err(AcquireError::OutOfDate)
            },
            AcquireOutcome::Failed => Err(AcquireError::AcquisitionFailure),
        }
    }

    /// A fresh command builder for the frame.
    pub fn start_builder(&mut self) -> (builder: CommandBuilder)
        ensures
            *final(self) == *old(self),
            builder.well_formed(),
            builder.recorded() == Seq::<crate::commands::Command>::empty(),
            builder.current() == crate::commands::entered(crate::commands::Stage::Ready),
    {
        CommandBuilder::new()
    }

    /// How the recorded frame is to be submitted: after the previous frame,
    /// and, if `wait_for_last_frame` is set, only once the previous frame has
    /// left the device.
    pub fn submission(&self, image_num: usize, wait_for_last_frame: bool) -> (submission: Submission)
        ensures
            submission.image_num == image_num,
            submission.after == self.previous_frame_end.fence(),
            submission.wait_on == if wait_for_last_frame {
                self.previous_frame_end.fence()
            } else {
                None
            },
    {
        let after = self.previous_frame_end.get();
        Submission {
            wait_on: if wait_for_last_frame {
                after
            } else {
                None
            },
            after,
            image_num,
        }
    }

    /// Takes in the outcome of submitting and presenting the frame. A frame
    /// that made it to the device becomes the frame in flight. A frame that
    /// did not is dropped: nothing is in flight afterwards, and a stale
    /// swapchain is flagged for recreation.
    pub fn finish_frame(&mut self, outcome: FlushOutcome)
        ensures
            final(self).same_resources(old(self)),
            final(self).previous_frame_end == match outcome {
                FlushOutcome::Flushed { fence } => FrameEndFuture::FenceSignalFuture { fence },
                _ => FrameEndFuture::BoxedFuture,
            },
            final(self).recreate_swapchain == (old(self).recreate_swapchain || outcome
                == FlushOutcome::OutOfDate),
    {
        match outcome {
            FlushOutcome::Flushed { fence } => {
                self.previous_frame_end = FrameEndFuture::FenceSignalFuture { fence };
            },
            FlushOutcome::OutOfDate => {
                self.recreate_swapchain = true;
                self.previous_frame_end = FrameEndFuture::now();
            },
            FlushOutcome::Failed => {
                self.previous_frame_end = FrameEndFuture::now();
            },
        }
    }

    /// The fence of the frame in flight, whose finished resources can be
    /// reclaimed, if a frame is in flight.
    pub fn cleanup_finished(&mut self) -> (fence: Option<u64>)
        ensures
            *final(self) == *old(self),
            fence == old(self).previous_frame_end.fence(),
    {
        self.previous_frame_end.get()
    }
}

} // verus!
