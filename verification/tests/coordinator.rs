use compositor::coordinator::Coordinator;
use compositor::coordinator::Phase;
use compositor::geometry::LayoutConfig;
use compositor::geometry::Platform;
use compositor::geometry::ScaleFactor;
use compositor::geometry::WindowSize;
use compositor::registry::SurfaceUpdateReport;

fn size(width: u32, height: u32) -> WindowSize {
    WindowSize { width, height }
}

#[test]
fn fixed_title_and_surface_entry_points() {
    assert_eq!(compositor::coordinator::window_title(), "ChatGPT");
    assert_eq!(compositor::coordinator::main_surface_url(), "https://chatgpt.com");
    assert_eq!(compositor::coordinator::local_surface_entry(), "index.html");
}

#[test]
fn startup_requests_the_fixed_window_parameters() {
    let mut coord = Coordinator::new(Platform::Other, LayoutConfig::new(true));
    assert_eq!(coord.phase, Phase::Uninitialized);
    let window_spec = coord.start();
    assert_eq!(coord.phase, Phase::WindowBuilding);
    assert!(window_spec.resizable);
    assert_eq!((window_spec.width, window_spec.height), (800, 600));
    assert_eq!((window_spec.min_width, window_spec.min_height), (300, 200));
    assert!(!window_spec.overlay_titlebar);

    let mut mac = Coordinator::new(Platform::MacOs, LayoutConfig::new(true));
    let window_spec = mac.start();
    assert!(window_spec.overlay_titlebar);
}

#[test]
fn lifecycle_reaches_live_with_the_initial_layout() {
    let mut coord = Coordinator::new(Platform::Other, LayoutConfig::new(true));
    coord.start();
    coord.on_window_built(size(800, 600), ScaleFactor { units: 1000 });
    assert_eq!(coord.phase, Phase::SurfacesBuilding);

    let initial = coord.on_surfaces_built();
    assert_eq!(coord.phase, Phase::Live);
    // Non-macOS stacking with ask mode on: main on top, then titlebar, then ask.
    assert_eq!(initial.main.y, 0);
    assert_eq!(initial.main.height, 600 - 28 - 120);
    assert_eq!(initial.titlebar.y, 600 - 120 - 28);
    assert_eq!(initial.titlebar.height, 28);
    assert_eq!(initial.ask.y, 600 - 120);
    assert_eq!(initial.ask.height, 120);
    // The registry starts out holding exactly the initial layout.
    let reg = coord.registry.unwrap();
    assert_eq!(reg.titlebar, initial.titlebar);
    assert_eq!(reg.main, initial.main);
    assert_eq!(reg.ask, initial.ask);
}

#[test]
fn resize_recomputes_all_widths_and_replaces_the_registry() {
    let mut coord = Coordinator::new(Platform::Other, LayoutConfig::new(true));
    coord.start();
    coord.on_window_built(size(800, 600), ScaleFactor { units: 1000 });
    let initial = coord.on_surfaces_built();

    // Resize from 800x600 to 1000x700: every width becomes 1000 and the
    // heights recompute; the registry holds the new geometry only.
    let new_layout = coord.on_resized(size(1000, 700)).unwrap();
    assert_eq!(new_layout.titlebar.width, 1000);
    assert_eq!(new_layout.main.width, 1000);
    assert_eq!(new_layout.ask.width, 1000);
    assert_eq!(new_layout.main.height, 700 - 28 - 120);
    assert_eq!(new_layout.titlebar.height + new_layout.main.height + new_layout.ask.height, 700);

    coord.record_resize(
        &new_layout,
        SurfaceUpdateReport { titlebar_ok: true, main_ok: true, ask_ok: true },
    );
    let reg = coord.registry.unwrap();
    assert_eq!(reg.titlebar, new_layout.titlebar);
    assert_eq!(reg.main, new_layout.main);
    assert_eq!(reg.ask, new_layout.ask);
    assert_ne!(reg.main, initial.main);
}

#[test]
fn a_partial_resize_failure_updates_the_sibling_surfaces() {
    let mut coord = Coordinator::new(Platform::MacOs, LayoutConfig::new(true));
    coord.start();
    coord.on_window_built(size(800, 600), ScaleFactor { units: 1000 });
    let initial = coord.on_surfaces_built();

    let new_layout = coord.on_resized(size(1000, 700)).unwrap();
    coord.record_resize(
        &new_layout,
        SurfaceUpdateReport { titlebar_ok: true, main_ok: false, ask_ok: true },
    );
    let reg = coord.registry.unwrap();
    assert_eq!(reg.titlebar, new_layout.titlebar);
    assert_eq!(reg.ask, new_layout.ask);
    assert_eq!(reg.main, initial.main);
}

#[test]
fn resize_events_are_not_served_before_live_or_after_a_failure() {
    let coord = Coordinator::new(Platform::Other, LayoutConfig::new(false));
    assert_eq!(coord.on_resized(size(800, 600)), None);

    let mut coord = Coordinator::new(Platform::Other, LayoutConfig::new(false));
    coord.start();
    assert_eq!(coord.on_resized(size(800, 600)), None);

    let mut failed = Coordinator::new(Platform::Other, LayoutConfig::new(false));
    failed.start();
    failed.on_build_failed();
    assert_eq!(failed.phase, Phase::Failed);
    assert_eq!(failed.on_resized(size(800, 600)), None);
}

#[test]
fn a_window_too_small_for_the_strips_is_not_laid_out() {
    let mut coord = Coordinator::new(Platform::Other, LayoutConfig::new(true));
    coord.start();
    coord.on_window_built(size(800, 600), ScaleFactor { units: 1000 });
    coord.on_surfaces_built();
    // 28 + 120 logical pixels of strips cannot fit 100 physical pixels.
    assert_eq!(coord.on_resized(size(400, 100)), None);
    // The boundary case fits exactly, with a zero-height main surface.
    let l = coord.on_resized(size(400, 148)).unwrap();
    assert_eq!(l.main.height, 0);
}

#[test]
fn surface_build_failure_aborts_startup() {
    let mut coord = Coordinator::new(Platform::MacOs, LayoutConfig::new(true));
    coord.start();
    coord.on_window_built(size(800, 600), ScaleFactor { units: 2000 });
    coord.on_build_failed();
    assert_eq!(coord.phase, Phase::Failed);
    assert_eq!(coord.registry, None);
}
