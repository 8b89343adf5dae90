use vstd::prelude::*;

verus! {

/// A surface, named by its position among the registered surfaces.
#[derive(Clone, Copy, Debug, PartialEq, Eq, Structural)]
pub struct SurfaceHandle(pub u32);

impl SurfaceHandle {
    pub fn index(&self) -> (r: u32)
        ensures
            r == self.0,
    {
        self.0
    }
}

/// What a surface's resolution follows when the output is resized.
#[derive(Clone, Copy, Debug, PartialEq, Eq, Structural)]
pub enum SizeRelativity {
    /// Resize is not called automatically
    Absolute,
    /// Resize is called with the base resolution of the framebuffer (which includes resolution scaling)
    RelativeToFramebuffer,
    /// Resize is called with the base resolution of the swapchain
    RelativeToSwapchain,
}

/// A registered surface with what its size follows and the base resolution
/// it was last made for.
pub struct SurfaceSlot<S> {
    pub relativity: SizeRelativity,
    pub base_resolution: (u32, u32),
    pub surface: S,
}

/// A surface that has to be made again for a new base resolution.
#[derive(Clone, Copy, Debug, PartialEq, Eq)]
pub struct SurfaceResize {
    pub handle: SurfaceHandle,
    pub base_resolution: (u32, u32),
}

/// The registered surfaces and the swapchain resolution they follow.
pub struct Surfaces<S> {
    pub surfaces: Vec<SurfaceSlot<S>>,
    pub swapchain_resolution: (u32, u32),
}

/// The base resolution a surface follows, given the framebuffer and swapchain
/// resolutions (an absolute surface follows none).
pub open spec fn spec_target_resolution(
    relativity: SizeRelativity,
    framebuffer: (u32, u32),
    swapchain: (u32, u32),
) -> Option<(u32, u32)> {
    match relativity {
        SizeRelativity::Absolute => None,
        SizeRelativity::RelativeToFramebuffer => Some(framebuffer),
        SizeRelativity::RelativeToSwapchain => Some(swapchain),
    }
}

/// The resizes that bringing `slots[0..n]` to the given resolutions needs,
/// in registration order: relative surfaces whose base resolution differs.
pub open spec fn spec_resizes<S>(
    slots: Seq<SurfaceSlot<S>>,
    framebuffer: (u32, u32),
    swapchain: (u32, u32),
    n: nat,
) -> Seq<SurfaceResize>
    decreases n,
{
    if n == 0 {
        Seq::empty()
    } else {
        let prev = spec_resizes(slots, framebuffer, swapchain, (n - 1) as nat);
        let slot = slots[n - 1];
        match spec_target_resolution(slot.relativity, framebuffer, swapchain) {
            Some(target) => if target != slot.base_resolution {
                prev.push(SurfaceResize { handle: SurfaceHandle((n - 1) as u32), base_resolution: target })
            } else {
                prev
            },
            None => prev,
        }
    }
}

impl<S> Surfaces<S> {
    pub open spec fn wf(&self) -> bool {
        self.surfaces@.len() <= u32::MAX + 1
    }

    pub fn new(swapchain_resolution: (u32, u32)) -> (r: Surfaces<S>)
        ensures
            r.wf(),
            r.surfaces@.len() == 0,
            r.swapchain_resolution == swapchain_resolution,
    {
        Surfaces { surfaces: Vec::new(), swapchain_resolution }
    }

    /// Registers a surface made for `base_resolution`; its handle is its
    /// position.
    pub fn create_surface(&mut self, relativity: SizeRelativity, base_resolution: (u32, u32), surface: S) -> (h: SurfaceHandle)
        requires
            old(self).surfaces@.len() <= u32::MAX,
        ensures
            final(self).wf(),
            h.0 == old(self).surfaces@.len(),
            final(self).surfaces@ == old(self).surfaces@.push(SurfaceSlot { relativity, base_resolution, surface }),
            final(self).swapchain_resolution == old(self).swapchain_resolution,
    {
        let handle = SurfaceHandle(self.surfaces.len() as u32);
        self.surfaces.push(SurfaceSlot { relativity, base_resolution, surface });
        handle
    }

    pub fn len(&self) -> (r: usize)
        ensures
            r == self.surfaces@.len(),
    {
        self.surfaces.len()
    }

    /// The surface of a handle given out by this registry.
    pub fn get(&self, handle: SurfaceHandle) -> (r: &S)
        requires
            handle.0 < self.surfaces@.len(),
        ensures
            *r == self.surfaces@[handle.0 as int].surface,
    {
        &self.surfaces[handle.0 as usize].surface
    }

    /// The surface at `index`, if there is one.
    pub fn get_by_index(&self, index: usize) -> (r: Option<&S>)
        ensures
            r == (if index < self.surfaces@.len() {
                Some(&self.surfaces@[index as int].surface)
            } else {
                None::<&S>
            }),
    {
        if index < self.surfaces.len() {
            Some(&self.surfaces[index].surface)
        } else {
            None
        }
    }

    /// The handles of all surfaces, in registration order.
    pub fn handles(&self) -> (r: Vec<SurfaceHandle>)
        requires
            self.wf(),
        ensures
            r@.len() == self.surfaces@.len(),
            forall|i: int| 0 <= i < r@.len() ==> #[trigger] r@[i] == SurfaceHandle(i as u32),
    {
        let mut r: Vec<SurfaceHandle> = Vec::new();
        let mut i: usize = 0;
        while i < self.surfaces.len()
            invariant
                self.wf(),
                i <= self.surfaces@.len(),
                r@.len() == i,
                forall|k: int| 0 <= k < i ==> #[trigger] r@[k] == SurfaceHandle(k as u32),
            decreases self.surfaces@.len() - i,
        {
            r.push(SurfaceHandle(i as u32));
            i = i + 1;
        }
        r
    }

    pub fn swapchain_resolution(&self) -> (r: (u32, u32))
        ensures
            r == self.swapchain_resolution,
    {
        self.swapchain_resolution
    }

    /// Brings every relative surface to the base resolution it follows:
    /// returns, in registration order, the surfaces that have to be made
    /// again, and records their new base resolution.
    pub fn refresh_surfaces(&mut self, framebuffer_resolution: (u32, u32)) -> (r: Vec<SurfaceResize>)
        requires
            old(self).wf(),
        ensures
            final(self).wf(),
            final(self).swapchain_resolution == old(self).swapchain_resolution,
            r@ == spec_resizes(
                old(self).surfaces@,
                framebuffer_resolution,
                old(self).swapchain_resolution,
                old(self).surfaces@.len(),
            ),
            final(self).surfaces@.len() == old(self).surfaces@.len(),
            final(self).surfaces@ == old(self).surfaces@.map_values(
                |s: SurfaceSlot<S>| spec_refreshed(s, framebuffer_resolution, old(self).swapchain_resolution),
            ),
    {
        let swapchain = self.swapchain_resolution;
        let mut r: Vec<SurfaceResize> = Vec::new();
        let n = self.surfaces.len();
        let mut i: usize = 0;
        while i < n
            invariant
                n == old(self).surfaces@.len(),
                self.surfaces@.len() == n,
                n <= u32::MAX + 1,
                swapchain == old(self).swapchain_resolution,
                self.swapchain_resolution == swapchain,
                i <= n,
                r@ == spec_resizes(old(self).surfaces@, framebuffer_resolution, swapchain, i as nat),
                forall|k: int| i <= k < n ==> #[trigger] self.surfaces@[k] == old(self).surfaces@[k],
                forall|k: int| 0 <= k < i ==> {
                    let o = old(self).surfaces@[k];
                    let f = #[trigger] self.surfaces@[k];
                    &&& f.relativity == o.relativity
                    &&& f.surface == o.surface
                    &&& f.base_resolution == match spec_target_resolution(o.relativity, framebuffer_resolution, swapchain) {
                        Some(t) => t,
                        None => o.base_resolution,
                    }
                },
            decreases n - i,
        {
            let target = match self.surfaces[i].relativity {
                SizeRelativity::Absolute => None,
                SizeRelativity::RelativeToFramebuffer => Some(framebuffer_resolution),
                SizeRelativity::RelativeToSwapchain => Some(swapchain),
            };
            match target {
                Some(t) => {
                    let cur = self.surfaces[i].base_resolution;
                    if t.0 != cur.0 || t.1 != cur.1 {
                        r.push(SurfaceResize { handle: SurfaceHandle(i as u32), base_resolution: t });
                        self.surfaces[i].base_resolution = t;
                    }
                },
                None => {},
            }
            i = i + 1;
        }
        assert(self.surfaces@ =~= old(self).surfaces@.map_values(
            |s: SurfaceSlot<S>| spec_refreshed(s, framebuffer_resolution, swapchain),
        ));
        r
    }

    /// Follows a new swapchain resolution (with the framebuffer resolution
    /// that goes with it); nothing happens when it is the current one.
    pub fn resize_surfaces(&mut self, swapchain_resolution: (u32, u32), framebuffer_resolution: (u32, u32)) -> (r: Vec<SurfaceResize>)
        requires
            old(self).wf(),
        ensures
            final(self).wf(),
            swapchain_resolution == old(self).swapchain_resolution ==> r@.len() == 0 && final(self).surfaces == old(self).surfaces,
            final(self).swapchain_resolution == swapchain_resolution,
            swapchain_resolution != old(self).swapchain_resolution ==> r@ == spec_resizes(
                old(self).surfaces@,
                framebuffer_resolution,
                swapchain_resolution,
                old(self).surfaces@.len(),
            ),
            final(self).surfaces@.len() == old(self).surfaces@.len(),
            swapchain_resolution != old(self).swapchain_resolution ==> final(self).surfaces@ == old(self).surfaces@.map_values(
                |s: SurfaceSlot<S>| spec_refreshed(s, framebuffer_resolution, swapchain_resolution),
            ),
    {
        if swapchain_resolution.0 == self.swapchain_resolution.0 && swapchain_resolution.1
            == self.swapchain_resolution.1 {
            return Vec::new();
        }
        self.swapchain_resolution = swapchain_resolution;
        self.refresh_surfaces(framebuffer_resolution)
    }
}

/// A slot after a refresh: a relative surface takes the base resolution it
/// follows, an absolute one keeps its own.
pub open spec fn spec_refreshed<S>(slot: SurfaceSlot<S>, framebuffer: (u32, u32), swapchain: (u32, u32)) -> SurfaceSlot<S> {
    SurfaceSlot {
        base_resolution: match spec_target_resolution(slot.relativity, framebuffer, swapchain) {
            Some(t) => t,
            None => slot.base_resolution,
        },
        ..slot
    }
}

proof fn lemma_refreshed_prefix_settled<S>(slots: Seq<SurfaceSlot<S>>, framebuffer: (u32, u32), swapchain: (u32, u32), n: nat)
    requires
        n <= slots.len(),
    ensures
        spec_resizes(
            slots.map_values(|s: SurfaceSlot<S>| spec_refreshed(s, framebuffer, swapchain)),
            framebuffer,
            swapchain,
            n,
        ) == Seq::<SurfaceResize>::empty(),
    decreases n,
{
    if n > 0 {
        lemma_refreshed_prefix_settled(slots, framebuffer, swapchain, (n - 1) as nat);
    }
}

/// Refreshing settles the surfaces: once every relative surface has the base
/// resolution it follows, refreshing again with the same resolutions asks
/// for no resize.
pub proof fn lemma_refresh_settles<S>(slots: Seq<SurfaceSlot<S>>, framebuffer: (u32, u32), swapchain: (u32, u32))
    ensures
        spec_resizes(
            slots.map_values(|s: SurfaceSlot<S>| spec_refreshed(s, framebuffer, swapchain)),
            framebuffer,
            swapchain,
            slots.len(),
        ) == Seq::<SurfaceResize>::empty(),
{
    lemma_refreshed_prefix_settled(slots, framebuffer, swapchain, slots.len());
}

} // verus!
