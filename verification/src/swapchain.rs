//! Swapchain image acquisition and presentation lifecycle.
//!
//! A configured surface owns its presentable images, a frame-latency
//! wait handle, and a count of images acquired but not yet presented;
//! that count never exceeds the configured image count, and presenting
//! or discarding requires a matching prior acquisition. The native
//! waits, resizes and present calls happen in the runtime layer, which
//! feeds their raw outcomes into these transitions.

use vstd::prelude::*;

use crate::error::SurfaceError;
use crate::resource::{
    CommandListHandle, CommandQueueHandle, Extent3d, ResourceHandle, SwapChainHandle, Texture,
    TextureDimension, TextureFormat, WaitableHandle,
};

verus! {

/// Native swapchain flag: the swapchain exposes a frame-latency
/// waitable object.
pub const SWAP_CHAIN_FLAG_FRAME_LATENCY_WAITABLE_OBJECT: u32 = 64;

/// Native swapchain flag: tearing presents are allowed.
pub const SWAP_CHAIN_FLAG_ALLOW_TEARING: u32 = 2048;

/// Native present flag: present with tearing.
pub const PRESENT_FLAG_ALLOW_TEARING: u32 = 512;

/// Native wait status: the handle was signaled.
pub const WAIT_STATUS_OBJECT_0: u32 = 0;

/// Native wait status: the handle was abandoned by its owner.
pub const WAIT_STATUS_ABANDONED: u32 = 0x80;

/// Native wait status: the timeout elapsed first.
pub const WAIT_STATUS_TIMEOUT: u32 = 0x102;

/// Native wait status: the wait itself failed.
pub const WAIT_STATUS_FAILED: u32 = 0xFFFF_FFFF;

/// When the display is refreshed with a queued image.
#[derive(Clone, Copy, Debug, PartialEq, Eq, Structural)]
pub enum PresentMode {
    /// Present immediately, tearing allowed.
    Immediate,
    /// Latest-ready image at the next vertical blank.
    Mailbox,
    /// Strict first-in first-out at vertical blanks.
    Fifo,
}

/// Interval and flags a native present call is issued with.
#[derive(Clone, Copy, Debug, PartialEq, Eq, Structural)]
pub struct PresentParams {
    pub interval: u32,
    pub flags: u32,
}

/// A configured swapchain: the owned presentable images and the
/// acquire/present accounting over them.
pub struct SwapChain {
    pub raw: SwapChainHandle,
    /// The presentable images, owned so they can be released when the
    /// swapchain is destroyed; their number is the configured image
    /// count.
    pub resources: Vec<ResourceHandle>,
    /// Frame-latency waitable object of the native swapchain.
    pub waitable: WaitableHandle,
    /// Images acquired but not yet presented or discarded.
    pub acquired_count: usize,
    pub present_mode: PresentMode,
    pub format: TextureFormat,
    pub size: Extent3d,
}

/// The swapchain invariant: never more images acquired than exist.
pub open spec fn spec_swap_chain_wf(sc: SwapChain) -> bool {
    sc.acquired_count <= sc.resources@.len()
}

/// A presentable surface; configuring it installs a swapchain.
pub struct Surface {
    pub swap_chain: Option<SwapChain>,
}

/// An acquired swapchain image handed to the caller.
pub struct AcquiredSurfaceTexture {
    pub texture: Texture,
    /// Whether the surface no longer matches the window optimally.
    pub suboptimal: bool,
}

/// A queue that executes command lists and presents surfaces.
pub struct Queue {
    pub raw: CommandQueueHandle,
    /// Scratch list reused across submissions.
    pub temp_lists: Vec<CommandListHandle>,
}

/// Native flags a swapchain is created or resized with: always
/// frame-latency waitable, and tearing-capable for immediate presents.
pub fn swap_chain_flags(present_mode: PresentMode) -> (r: u32)
    ensures
        r == (if present_mode == PresentMode::Immediate {
            SWAP_CHAIN_FLAG_FRAME_LATENCY_WAITABLE_OBJECT | SWAP_CHAIN_FLAG_ALLOW_TEARING
        } else {
            SWAP_CHAIN_FLAG_FRAME_LATENCY_WAITABLE_OBJECT
        }),
{
    match present_mode {
        PresentMode::Immediate => SWAP_CHAIN_FLAG_FRAME_LATENCY_WAITABLE_OBJECT
            | SWAP_CHAIN_FLAG_ALLOW_TEARING,
        _ => SWAP_CHAIN_FLAG_FRAME_LATENCY_WAITABLE_OBJECT,
    }
}

/// Outcome of waiting on the frame-latency handle: signaled means an
/// image may be acquired, an elapsed timeout is a valid "not ready"
/// outcome, and an abandoned or failed wait means the surface is lost.
pub fn wait_status_to_result(status: u32) -> (r: Result<bool, SurfaceError>)
    ensures
        status == WAIT_STATUS_OBJECT_0 ==> r == Result::<bool, SurfaceError>::Ok(true),
        status == WAIT_STATUS_TIMEOUT ==> r == Result::<bool, SurfaceError>::Ok(false),
        (status != WAIT_STATUS_OBJECT_0 && status != WAIT_STATUS_TIMEOUT) ==> r == Result::<
            bool,
            SurfaceError,
        >::Err(SurfaceError::Lost),
{
    if status == WAIT_STATUS_ABANDONED || status == WAIT_STATUS_FAILED {
        Err(SurfaceError::Lost)
    } else if status == WAIT_STATUS_OBJECT_0 {
        Ok(true)
    } else if status == WAIT_STATUS_TIMEOUT {
        Ok(false)
    } else {
        Err(SurfaceError::Lost)
    }
}

impl SwapChain {
    /// A freshly configured swapchain owning `resources`: nothing is
    /// acquired yet, and the frame-latency cap the runtime sets on the
    /// native object equals the image count.
    pub fn new(
        raw: SwapChainHandle,
        resources: Vec<ResourceHandle>,
        waitable: WaitableHandle,
        present_mode: PresentMode,
        format: TextureFormat,
        size: Extent3d,
    ) -> (r: SwapChain)
        ensures
            spec_swap_chain_wf(r),
            r.raw == raw,
            r.resources@ == resources@,
            r.waitable == waitable,
            r.acquired_count == 0,
            r.present_mode == present_mode,
            r.format == format,
            r.size == size,
    {
        SwapChain { raw, resources, waitable, acquired_count: 0, present_mode, format, size }
    }

    /// Number of presentable images, the frame-latency cap.
    pub fn image_count(&self) -> (r: usize)
        ensures
            r == self.resources@.len(),
    {
        self.resources.len()
    }

    /// Hands the swapchain's resources back for the runtime to release,
    /// together with the native swapchain they belong to.
    pub fn release_resources(self) -> (r: (SwapChainHandle, Vec<ResourceHandle>))
        ensures
            r.0 == self.raw,
            r.1@ == self.resources@,
    {
        let SwapChain { raw, resources, .. } = self;
        (raw, resources)
    }

    /// Acquires the next image after a successful frame-latency wait.
    /// `base_index` is the native swapchain's current back-buffer
    /// index; the image handed out is offset from it by the number of
    /// images already acquired, so no image is referenced twice
    /// concurrently.
    pub fn acquire(&mut self, base_index: usize) -> (r: AcquiredSurfaceTexture)
        requires
            spec_swap_chain_wf(*old(self)),
            old(self).resources@.len() > 0,
            old(self).acquired_count < old(self).resources@.len(),
            base_index < old(self).resources@.len(),
            base_index + old(self).acquired_count <= usize::MAX,
        ensures
            spec_swap_chain_wf(*final(self)),
            final(self).acquired_count == old(self).acquired_count + 1,
            final(self).resources@ == old(self).resources@,
            final(self).raw == old(self).raw,
            final(self).waitable == old(self).waitable,
            final(self).present_mode == old(self).present_mode,
            final(self).format == old(self).format,
            final(self).size == old(self).size,
            r.texture.resource == old(self).resources@[(base_index + old(self).acquired_count) % (
            old(self).resources@.len() as int)],
            r.texture.format == old(self).format,
            r.texture.dimension == TextureDimension::D2,
            r.texture.size == old(self).size,
            r.texture.mip_level_count == 1,
            r.texture.sample_count == 1,
            !r.suboptimal,
    {
        let index = (base_index + self.acquired_count) % self.resources.len();
        self.acquired_count = self.acquired_count + 1;
        let resource = self.resources[index];
        AcquiredSurfaceTexture {
            texture: Texture {
                resource,
                format: self.format,
                dimension: TextureDimension::D2,
                size: self.size,
                mip_level_count: 1,
                sample_count: 1,
            },
            suboptimal: false,
        }
    }

    /// Releases one acquisition without presenting — the error-recovery
    /// path. The underflow guard: a discard without a matching prior
    /// acquire is a caller error this precondition rejects.
    pub fn discard(&mut self)
        requires
            spec_swap_chain_wf(*old(self)),
            old(self).acquired_count >= 1,
        ensures
            spec_swap_chain_wf(*final(self)),
            final(self).acquired_count == old(self).acquired_count - 1,
            final(self).resources@ == old(self).resources@,
            final(self).raw == old(self).raw,
            final(self).waitable == old(self).waitable,
            final(self).present_mode == old(self).present_mode,
            final(self).format == old(self).format,
            final(self).size == old(self).size,
    {
        self.acquired_count = self.acquired_count - 1;
    }

    /// Releases one acquisition for presentation and derives the native
    /// present parameters: immediate mode presents with interval zero
    /// and tearing allowed, queued modes with interval one. A present
    /// without a matching prior acquire is a caller error this
    /// precondition rejects.
    pub fn present(&mut self) -> (r: PresentParams)
        requires
            spec_swap_chain_wf(*old(self)),
            old(self).acquired_count >= 1,
        ensures
            spec_swap_chain_wf(*final(self)),
            final(self).acquired_count == old(self).acquired_count - 1,
            final(self).resources@ == old(self).resources@,
            final(self).raw == old(self).raw,
            final(self).waitable == old(self).waitable,
            final(self).present_mode == old(self).present_mode,
            final(self).format == old(self).format,
            final(self).size == old(self).size,
            r == (match old(self).present_mode {
                PresentMode::Immediate => PresentParams {
                    interval: 0,
                    flags: PRESENT_FLAG_ALLOW_TEARING,
                },
                PresentMode::Fifo => PresentParams { interval: 1, flags: 0 },
                PresentMode::Mailbox => PresentParams { interval: 1, flags: 0 },
            }),
    {
        self.acquired_count = self.acquired_count - 1;
        match self.present_mode {
            PresentMode::Immediate => PresentParams {
                interval: 0,
                flags: PRESENT_FLAG_ALLOW_TEARING,
            },
            PresentMode::Fifo => PresentParams { interval: 1, flags: 0 },
            PresentMode::Mailbox => PresentParams { interval: 1, flags: 0 },
        }
    }
}

impl Surface {
    /// A surface with no swapchain configured.
    pub fn new() -> (r: Surface)
        ensures
            r.swap_chain is None,
    {
        Surface { swap_chain: None }
    }

    /// Installs a freshly built swapchain. The runtime calls this after
    /// waiting for the device to go idle, releasing any old images and
    /// resizing or recreating the native swapchain.
    pub fn install_swap_chain(&mut self, sc: SwapChain)
        requires
            spec_swap_chain_wf(sc),
        ensures
            final(self).swap_chain matches Some(installed) && installed.raw == sc.raw
                && installed.resources@ == sc.resources@ && installed.acquired_count
                == sc.acquired_count && installed.waitable == sc.waitable
                && installed.present_mode == sc.present_mode && installed.format == sc.format
                && installed.size == sc.size,
    {
        self.swap_chain = Some(sc);
    }

    /// Takes the swapchain out for teardown; the runtime then waits for
    /// the frame latency and device idle, and releases the resources.
    pub fn unconfigure(&mut self) -> (r: Option<SwapChain>)
        ensures
            final(self).swap_chain is None,
            r is Some <==> old(self).swap_chain is Some,
    {
        self.swap_chain.take()
    }

    /// Acquires the next image, given the raw outcome of the
    /// frame-latency wait and the native back-buffer index. A timed-out
    /// wait is "not ready", not an error; a lost wait is passed
    /// through.
    pub fn acquire_texture(&mut self, wait: Result<bool, SurfaceError>, base_index: usize) -> (r:
        Result<Option<AcquiredSurfaceTexture>, SurfaceError>)
        requires
            old(self).swap_chain matches Some(sc) && spec_swap_chain_wf(sc),
            wait == Result::<bool, SurfaceError>::Ok(true) ==> {
                let sc = old(self).swap_chain.unwrap();
                &&& sc.resources@.len() > 0
                &&& sc.acquired_count < sc.resources@.len()
                &&& base_index < sc.resources@.len()
                &&& base_index + sc.acquired_count <= usize::MAX
            },
        ensures
            final(self).swap_chain is Some,
            spec_swap_chain_wf(final(self).swap_chain.unwrap()),
            wait matches Err(e) ==> r == Result::<Option<AcquiredSurfaceTexture>, SurfaceError>::Err(
                e,
            ) && final(self).swap_chain.unwrap() == old(self).swap_chain.unwrap(),
            wait == Result::<bool, SurfaceError>::Ok(false) ==> (r matches Ok(None)
                && final(self).swap_chain.unwrap() == old(self).swap_chain.unwrap()),
            wait == Result::<bool, SurfaceError>::Ok(true) ==> {
                let sc = old(self).swap_chain.unwrap();
                let newsc = final(self).swap_chain.unwrap();
                &&& newsc.acquired_count == sc.acquired_count + 1
                &&& newsc.resources@ == sc.resources@
                &&& r matches Ok(Some(at)) && at.texture.resource == sc.resources@[(base_index
                    + sc.acquired_count) % (sc.resources@.len() as int)] && at.texture.format
                    == sc.format && at.texture.dimension == TextureDimension::D2
                    && at.texture.size == sc.size && at.texture.mip_level_count == 1
                    && at.texture.sample_count == 1 && !at.suboptimal
            },
    {
        match wait {
            Err(e) => Err(e),
            Ok(false) => Ok(None),
            Ok(true) => {
                match &mut self.swap_chain {
                    Some(sc) => {
                        let acquired = sc.acquire(base_index);
                        Ok(Some(acquired))
                    },
                    None => {
                        proof {
                            assert(false);
                        }
                        Ok(None)
                    },
                }
            },
        }
    }

    /// Releases one acquisition without presenting.
    pub fn discard_texture(&mut self)
        requires
            old(self).swap_chain matches Some(sc) && spec_swap_chain_wf(sc)
                && sc.acquired_count >= 1,
        ensures
            final(self).swap_chain is Some,
            spec_swap_chain_wf(final(self).swap_chain.unwrap()),
            final(self).swap_chain.unwrap().acquired_count == old(
                self,
            ).swap_chain.unwrap().acquired_count - 1,
            final(self).swap_chain.unwrap().resources@ == old(
                self,
            ).swap_chain.unwrap().resources@,
    {
        match &mut self.swap_chain {
            Some(sc) => {
                sc.discard();
            },
            None => {
                proof {
                    assert(false);
                }
            },
        }
    }
}

} // verus!
