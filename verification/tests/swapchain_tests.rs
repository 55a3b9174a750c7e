use dx12_hal::error::SurfaceError;
use dx12_hal::resource::{Extent3d, ResourceHandle, SwapChainHandle, TextureFormat, WaitableHandle};
use dx12_hal::swapchain::{
    swap_chain_flags, wait_status_to_result, PresentMode, PresentParams, Surface, SwapChain,
    PRESENT_FLAG_ALLOW_TEARING, SWAP_CHAIN_FLAG_ALLOW_TEARING,
    SWAP_CHAIN_FLAG_FRAME_LATENCY_WAITABLE_OBJECT, WAIT_STATUS_ABANDONED, WAIT_STATUS_FAILED,
    WAIT_STATUS_OBJECT_0, WAIT_STATUS_TIMEOUT,
};

fn extent() -> Extent3d {
    Extent3d { width: 800, height: 600, depth_or_array_layers: 1 }
}

fn three_image_chain(mode: PresentMode) -> SwapChain {
    SwapChain::new(
        SwapChainHandle(42),
        vec![ResourceHandle(1), ResourceHandle(2), ResourceHandle(3)],
        WaitableHandle(9),
        mode,
        TextureFormat::Bgra8Unorm,
        extent(),
    )
}

#[test]
fn flags_allow_tearing_only_for_immediate() {
    assert_eq!(
        swap_chain_flags(PresentMode::Immediate),
        SWAP_CHAIN_FLAG_FRAME_LATENCY_WAITABLE_OBJECT | SWAP_CHAIN_FLAG_ALLOW_TEARING
    );
    assert_eq!(
        swap_chain_flags(PresentMode::Fifo),
        SWAP_CHAIN_FLAG_FRAME_LATENCY_WAITABLE_OBJECT
    );
    assert_eq!(
        swap_chain_flags(PresentMode::Mailbox),
        SWAP_CHAIN_FLAG_FRAME_LATENCY_WAITABLE_OBJECT
    );
}

#[test]
fn wait_statuses_map_to_their_outcomes() {
    assert_eq!(wait_status_to_result(WAIT_STATUS_OBJECT_0), Ok(true));
    assert_eq!(wait_status_to_result(WAIT_STATUS_TIMEOUT), Ok(false));
    assert_eq!(wait_status_to_result(WAIT_STATUS_ABANDONED), Err(SurfaceError::Lost));
    assert_eq!(wait_status_to_result(WAIT_STATUS_FAILED), Err(SurfaceError::Lost));
    assert_eq!(wait_status_to_result(0x7777), Err(SurfaceError::Lost));
}

#[test]
fn ten_acquire_present_cycles_with_three_images() {
    // Fifo, three images, acquire and present alternating one to one:
    // each acquire sees acquired_count zero, so the image index is the
    // hardware index itself, and the count returns to zero each cycle.
    let mut sc = three_image_chain(PresentMode::Fifo);
    for cycle in 0..10usize {
        let hw_index = cycle % 3;
        let acquired = sc.acquire(hw_index);
        assert_eq!(sc.acquired_count, 1);
        assert!(sc.acquired_count <= sc.image_count());
        assert_eq!(acquired.texture.resource, ResourceHandle(1 + hw_index as u64));
        assert_eq!(acquired.texture.format, TextureFormat::Bgra8Unorm);
        assert_eq!(acquired.texture.mip_level_count, 1);
        assert!(!acquired.suboptimal);

        let params = sc.present();
        assert_eq!(params, PresentParams { interval: 1, flags: 0 });
        assert_eq!(sc.acquired_count, 0);
    }
}

#[test]
fn queued_acquires_rotate_through_the_images() {
    let mut sc = three_image_chain(PresentMode::Fifo);
    let first = sc.acquire(1);
    let second = sc.acquire(1);
    assert_eq!(sc.acquired_count, 2);
    assert_eq!(first.texture.resource, ResourceHandle(2));
    // The second acquire is offset by the outstanding acquisition.
    assert_eq!(second.texture.resource, ResourceHandle(3));
    // No image is handed out twice concurrently.
    assert_ne!(first.texture.resource, second.texture.resource);
}

#[test]
fn immediate_presents_tear_with_interval_zero() {
    let mut sc = three_image_chain(PresentMode::Immediate);
    sc.acquire(0);
    assert_eq!(
        sc.present(),
        PresentParams { interval: 0, flags: PRESENT_FLAG_ALLOW_TEARING }
    );
}

#[test]
fn discard_releases_an_acquisition_without_presenting() {
    let mut sc = three_image_chain(PresentMode::Fifo);
    sc.acquire(0);
    sc.acquire(0);
    sc.discard();
    assert_eq!(sc.acquired_count, 1);
    sc.discard();
    assert_eq!(sc.acquired_count, 0);
}

#[test]
fn surface_acquire_passes_wait_outcomes_through() {
    let mut surface = Surface::new();
    surface.install_swap_chain(three_image_chain(PresentMode::Fifo));

    // A timed-out wait is "not ready", not an error.
    let not_ready = surface.acquire_texture(Ok(false), 0);
    assert!(matches!(not_ready, Ok(None)));

    // A lost wait is passed through.
    let lost = surface.acquire_texture(Err(SurfaceError::Lost), 0);
    assert!(matches!(lost, Err(SurfaceError::Lost)));

    // A signaled wait acquires.
    let acquired = surface.acquire_texture(Ok(true), 2).unwrap().unwrap();
    assert_eq!(acquired.texture.resource, ResourceHandle(3));
    surface.discard_texture();
    assert_eq!(surface.swap_chain.as_ref().unwrap().acquired_count, 0);
}

#[test]
fn unconfigure_takes_the_swapchain_for_release() {
    let mut surface = Surface::new();
    assert!(surface.unconfigure().is_none());
    surface.install_swap_chain(three_image_chain(PresentMode::Fifo));
    let sc = surface.unconfigure().unwrap();
    assert!(surface.swap_chain.is_none());
    let (raw, resources) = sc.release_resources();
    assert_eq!(raw, SwapChainHandle(42));
    assert_eq!(
        resources,
        vec![ResourceHandle(1), ResourceHandle(2), ResourceHandle(3)]
    );
}
