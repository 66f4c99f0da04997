//! Window lifecycle coordinator.
//!
//! A one-directional state machine that drives window creation, surface
//! creation and layout: the host toolkit performs each requested piece of
//! outside work (build the window, build the three surfaces, attach and
//! move them) and reports the outcome back as a plain event.  The scale
//! factor is captured once, when the window has been built, and every
//! layout — the first paint and each resize — is computed by the same pure
//! geometry function.  A construction failure is fatal and ends the setup;
//! a per-surface failure during a resize is recorded and isolated.

use vstd::prelude::*;

use crate::geometry::compute_layout;
use crate::geometry::strips_fit;
use crate::geometry::Layout;
use crate::geometry::LayoutConfig;
use crate::geometry::Platform;
use crate::geometry::ScaleFactor;
use crate::geometry::WindowSize;
use crate::geometry::spec_layout;
use crate::geometry::spec_strips_fit;
use crate::registry::spec_after_resize;
use crate::registry::SurfaceRegistry;
use crate::registry::SurfaceUpdateReport;

verus! {

/// Lifecycle phase of the setup task.  The first four phases advance in
/// one direction only; a construction failure ends in `Failed`, from which
/// nothing further happens.
#[derive(Clone, Copy, PartialEq, Eq, Structural, Debug)]
pub enum Phase {
    /// Nothing has been built yet.
    Uninitialized,
    /// The window build was requested and has not completed.
    WindowBuilding,
    /// The window exists; the three surface builds were requested.
    SurfacesBuilding,
    /// Window and surfaces exist and hold their initial layout; resize
    /// events are being served.
    Live,
    /// Window or surface construction failed; startup was aborted.
    Failed,
}

/// What the window must be built with.
#[derive(Clone, Copy, PartialEq, Eq, Structural, Debug)]
pub struct WindowSpec {
    pub resizable: bool,
    /// Initial inner size, logical units.
    pub width: u32,
    pub height: u32,
    /// Minimum inner size, logical units.
    pub min_width: u32,
    pub min_height: u32,
    /// Suppress the native title bar and overlay the window controls, so
    /// the custom title-bar surface can sit topmost.
    pub overlay_titlebar: bool,
}

/// The window parameters for a platform: a fixed resizable window of
/// 800 by 600 logical units, at least 300 by 200, with the native title
/// bar overlaid only on macOS.
pub open spec fn spec_window_spec(platform: Platform) -> WindowSpec {
    WindowSpec {
        resizable: true,
        width: 800,
        height: 600,
        min_width: 300,
        min_height: 200,
        overlay_titlebar: platform is MacOs,
    }
}

/// The window's fixed title.
pub fn window_title() -> (t: String)
    ensures
        t@ == "ChatGPT"@,
{
    String::from_str("ChatGPT")
}

/// The remote application's fixed entry URL, shown in the main surface.
pub fn main_surface_url() -> (u: String)
    ensures
        u@ == "https://chatgpt.com"@,
{
    String::from_str("https://chatgpt.com")
}

/// The local bundled entry point shown in the title-bar and ask surfaces.
pub fn local_surface_entry() -> (u: String)
    ensures
        u@ == "index.html"@,
{
    String::from_str("index.html")
}

/// What was read from the freshly built window, captured once and never
/// re-queried.
#[derive(Clone, Copy, PartialEq, Eq, Structural, Debug)]
pub struct WindowState {
    /// Physical size at creation.
    pub size: WindowSize,
    /// Display scale factor at creation, in thousandths.
    pub scale: ScaleFactor,
}

/// The coordinator: lifecycle phase, the fixed platform tag and layout
/// configuration, the window state captured at creation, and the registry
/// of the three surfaces' last-applied geometry.
#[derive(Clone, Copy, PartialEq, Eq, Structural, Debug)]
pub struct Coordinator {
    pub phase: Phase,
    pub platform: Platform,
    pub config: LayoutConfig,
    pub window: Option<WindowState>,
    pub registry: Option<SurfaceRegistry>,
}

impl Coordinator {
    /// Well-formedness: once the window has been built its captured state
    /// is present, and once the surfaces are attached the registry is too.
    pub open spec fn wf(self) -> bool {
        &&& (self.phase is SurfacesBuilding || self.phase is Live) ==> self.window is Some
        &&& self.phase is Live ==> self.registry is Some
    }

    /// A coordinator that has not started building anything.
    pub fn new(platform: Platform, config: LayoutConfig) -> (c: Coordinator)
        ensures
            c == (Coordinator {
                phase: Phase::Uninitialized,
                platform,
                config,
                window: None,
                registry: None,
            }),
            c.wf(),
    {
        Coordinator { phase: Phase::Uninitialized, platform, config, window: None, registry: None }
    }

    /// Begin startup: ask the host to build the window with the fixed
    /// title, size bounds and platform-specific title-bar handling.
    pub fn start(&mut self) -> (w: WindowSpec)
        requires
            old(self).phase is Uninitialized,
        ensures
            *final(self) == (Coordinator { phase: Phase::WindowBuilding, ..*old(self) }),
            final(self).wf(),
            w == spec_window_spec(old(self).platform),
    {
        self.phase = Phase::WindowBuilding;
        WindowSpec {
            resizable: true,
            width: 800,
            height: 600,
            min_width: 300,
            min_height: 200,
            overlay_titlebar: matches!(self.platform, Platform::MacOs),
        }
    }

    /// The window was built: capture its physical size and scale factor,
    /// once and for the coordinator's whole life, and move on to building
    /// the three surfaces.
    pub fn on_window_built(&mut self, size: WindowSize, scale: ScaleFactor)
        requires
            old(self).phase is WindowBuilding,
        ensures
            *final(self) == (Coordinator {
                phase: Phase::SurfacesBuilding,
                window: Some(WindowState { size, scale }),
                ..*old(self)
            }),
            final(self).wf(),
    {
        self.window = Some(WindowState { size, scale });
        self.phase = Phase::SurfacesBuilding;
    }

    /// Window or surface construction failed: abort startup for good.
    pub fn on_build_failed(&mut self)
        requires
            old(self).phase is WindowBuilding || old(self).phase is SurfacesBuilding,
        ensures
            *final(self) == (Coordinator { phase: Phase::Failed, ..*old(self) }),
            final(self).wf(),
    {
        self.phase = Phase::Failed;
    }

    /// All three surfaces were built: compute the initial layout from the
    /// captured window state, record it for every surface, and go live.
    /// The caller attaches each surface at the returned geometry.
    pub fn on_surfaces_built(&mut self) -> (l: Layout)
        requires
            old(self).phase is SurfacesBuilding,
            old(self).wf(),
            spec_strips_fit(old(self).window->Some_0.size, old(self).window->Some_0.scale, old(self).config),
        ensures
            l == spec_layout(
                old(self).window->Some_0.size,
                old(self).window->Some_0.scale,
                old(self).platform,
                old(self).config,
            ),
            *final(self) == (Coordinator {
                phase: Phase::Live,
                registry: Some(SurfaceRegistry { titlebar: l.titlebar, main: l.main, ask: l.ask }),
                ..*old(self)
            }),
            final(self).wf(),
    {
        let ws = self.window.unwrap();
        let layout = compute_layout(ws.size, ws.scale, self.platform, self.config);
        self.registry = Some(SurfaceRegistry::attach_all(&layout));
        self.phase = Phase::Live;
        layout
    }

    /// A resize event arrived with the window's new physical size.
    /// While live, and when the reserved strips fit the new height, the
    /// new layout is computed from the captured scale factor; otherwise —
    /// before setup completes, after a failed setup, or for a window too
    /// small for its strips — the event is not served.
    pub fn on_resized(&self, size: WindowSize) -> (r: Option<Layout>)
        requires
            self.wf(),
        ensures
            r is Some <==> (self.phase is Live
                && spec_strips_fit(size, self.window->Some_0.scale, self.config)),
            r matches Some(l) ==> l == spec_layout(
                size,
                self.window->Some_0.scale,
                self.platform,
                self.config,
            ),
    {
        match self.phase {
            Phase::Live => {
                let ws = self.window.unwrap();
                if strips_fit(size, ws.scale, self.config) {
                    Some(compute_layout(size, ws.scale, self.platform, self.config))
                } else {
                    None
                }
            },
            _ => None,
        }
    }

    /// Record the per-surface outcome of applying a resize layout: each
    /// surface whose update the toolkit accepted takes the new geometry,
    /// each surface whose update failed keeps its old record, and one
    /// failure never blocks the sibling surfaces' updates.
    pub fn record_resize(&mut self, layout: &Layout, report: SurfaceUpdateReport)
        requires
            old(self).phase is Live,
            old(self).wf(),
        ensures
            *final(self) == (Coordinator {
                registry: Some(spec_after_resize(old(self).registry->Some_0, *layout, report)),
                ..*old(self)
            }),
            final(self).wf(),
    {
        let mut reg = self.registry.unwrap();
        reg.record_resize(layout, report);
        self.registry = Some(reg);
    }
}

} // verus!
