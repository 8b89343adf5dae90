use alkahest::surface::{SizeRelativity, SurfaceHandle, SurfaceResize, Surfaces};

fn resize(i: u32, w: u32, h: u32) -> SurfaceResize {
    SurfaceResize { handle: SurfaceHandle(i), base_resolution: (w, h) }
}

#[test]
fn registration_and_lookup() {
    let mut s: Surfaces<&str> = Surfaces::new((1920, 1080));
    assert_eq!(s.len(), 0);
    let a = s.create_surface(SizeRelativity::RelativeToFramebuffer, (1920, 1080), "gbuffer");
    let b = s.create_surface(SizeRelativity::Absolute, (256, 256), "shadow");
    assert_eq!((a, b), (SurfaceHandle(0), SurfaceHandle(1)));
    assert_eq!(a.index(), 0);
    assert_eq!(*s.get(b), "shadow");
    assert_eq!(s.get_by_index(0), Some(&"gbuffer"));
    assert_eq!(s.get_by_index(2), None);
    assert_eq!(s.handles(), vec![SurfaceHandle(0), SurfaceHandle(1)]);
    assert_eq!(s.swapchain_resolution(), (1920, 1080));
}

#[test]
fn refresh_resizes_relative_surfaces() {
    let mut s: Surfaces<u8> = Surfaces::new((1920, 1080));
    s.create_surface(SizeRelativity::RelativeToFramebuffer, (1920, 1080), 0);
    s.create_surface(SizeRelativity::Absolute, (256, 256), 1);
    s.create_surface(SizeRelativity::RelativeToSwapchain, (1920, 1080), 2);
    s.create_surface(SizeRelativity::RelativeToFramebuffer, (960, 540), 3);

    // Half resolution rendering: framebuffer-relative surfaces follow.
    let r = s.refresh_surfaces((960, 540));
    assert_eq!(r, vec![resize(0, 960, 540)]);
    assert_eq!(s.surfaces[0].base_resolution, (960, 540));
    assert_eq!(s.surfaces[1].base_resolution, (256, 256));
    // Nothing left to do on a second refresh.
    assert!(s.refresh_surfaces((960, 540)).is_empty());
}

#[test]
fn swapchain_resize() {
    let mut s: Surfaces<u8> = Surfaces::new((1920, 1080));
    s.create_surface(SizeRelativity::RelativeToFramebuffer, (1920, 1080), 0);
    s.create_surface(SizeRelativity::RelativeToSwapchain, (1920, 1080), 1);
    s.create_surface(SizeRelativity::Absolute, (64, 64), 2);
    // The same swapchain resolution: nothing happens.
    assert!(s.resize_surfaces((1920, 1080), (100, 100)).is_empty());
    assert_eq!(s.surfaces[0].base_resolution, (1920, 1080));

    let r = s.resize_surfaces((1280, 720), (1280, 720));
    assert_eq!(r, vec![resize(0, 1280, 720), resize(1, 1280, 720)]);
    assert_eq!(s.swapchain_resolution(), (1280, 720));
    assert_eq!(s.surfaces[2].base_resolution, (64, 64));

    let r = s.resize_surfaces((2560, 1440), (1280, 720));
    assert_eq!(r, vec![resize(1, 2560, 1440)]);
}
