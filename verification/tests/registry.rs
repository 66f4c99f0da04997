use compositor::geometry::compute_layout;
use compositor::geometry::LayoutConfig;
use compositor::geometry::Platform;
use compositor::geometry::ScaleFactor;
use compositor::geometry::WindowSize;
use compositor::registry::SurfaceName;
use compositor::registry::SurfaceRegistry;
use compositor::registry::SurfaceUpdateReport;

fn layouts_before_and_after() -> (compositor::geometry::Layout, compositor::geometry::Layout) {
    let config = LayoutConfig::new(true);
    let scale = ScaleFactor { units: 1000 };
    let before = compute_layout(WindowSize { width: 800, height: 600 }, scale, Platform::Other, config);
    let after = compute_layout(WindowSize { width: 1000, height: 700 }, scale, Platform::Other, config);
    (before, after)
}

#[test]
fn attach_records_the_initial_layout_for_all_surfaces() {
    let (initial, _) = layouts_before_and_after();
    let reg = SurfaceRegistry::attach_all(&initial);
    assert_eq!(reg.titlebar, initial.titlebar);
    assert_eq!(reg.main, initial.main);
    assert_eq!(reg.ask, initial.ask);
    assert_eq!(reg.get(SurfaceName::Titlebar), initial.titlebar);
    assert_eq!(reg.get(SurfaceName::Main), initial.main);
    assert_eq!(reg.get(SurfaceName::Ask), initial.ask);
}

#[test]
fn full_resize_replaces_all_geometry() {
    let (old_layout, new_layout) = layouts_before_and_after();
    let mut reg = SurfaceRegistry::attach_all(&old_layout);
    reg.record_resize(
        &new_layout,
        SurfaceUpdateReport { titlebar_ok: true, main_ok: true, ask_ok: true },
    );
    // The registry holds the new geometry; the old one is discarded outright.
    assert_eq!(reg.titlebar, new_layout.titlebar);
    assert_eq!(reg.main, new_layout.main);
    assert_eq!(reg.ask, new_layout.ask);
    assert_ne!(reg.main, old_layout.main);
    assert_eq!(reg.titlebar.width, 1000);
    assert_eq!(reg.main.width, 1000);
    assert_eq!(reg.ask.width, 1000);
}

#[test]
fn one_failed_update_leaves_only_that_surface_stale() {
    let (old_layout, new_layout) = layouts_before_and_after();
    let mut reg = SurfaceRegistry::attach_all(&old_layout);
    reg.record_resize(
        &new_layout,
        SurfaceUpdateReport { titlebar_ok: true, main_ok: false, ask_ok: true },
    );
    // The failed surface keeps its old record...
    assert_eq!(reg.main, old_layout.main);
    // ...and the other two still received their updates in the same event.
    assert_eq!(reg.titlebar, new_layout.titlebar);
    assert_eq!(reg.ask, new_layout.ask);
}

#[test]
fn each_surface_outcome_is_independent() {
    let (old_layout, new_layout) = layouts_before_and_after();
    let mut reg = SurfaceRegistry::attach_all(&old_layout);
    reg.record_resize(
        &new_layout,
        SurfaceUpdateReport { titlebar_ok: false, main_ok: false, ask_ok: true },
    );
    assert_eq!(reg.titlebar, old_layout.titlebar);
    assert_eq!(reg.main, old_layout.main);
    assert_eq!(reg.ask, new_layout.ask);
}
