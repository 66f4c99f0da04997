//! Surface registry.
//!
//! Records, for each of the three named surfaces, the geometry that was
//! last applied to its live handle.  The registry is mutated only by the
//! compositor: fully on the initial attach, and per surface on each resize,
//! where an individual surface's update may fail and leave that surface —
//! and only that surface — stale until the next successful resize.

use vstd::prelude::*;

use crate::geometry::Layout;
use crate::geometry::SurfaceGeometry;

verus! {

/// The three fixed surface identifiers.
#[derive(Clone, Copy, PartialEq, Eq, Structural, Debug)]
pub enum SurfaceName {
    Titlebar,
    Main,
    Ask,
}

/// Per-surface outcome of one resize pass: whether the toolkit accepted the
/// position-and-size update for each surface.
#[derive(Clone, Copy, PartialEq, Eq, Structural, Debug)]
pub struct SurfaceUpdateReport {
    pub titlebar_ok: bool,
    pub main_ok: bool,
    pub ask_ok: bool,
}

/// Last-applied geometry of the three surfaces.
#[derive(Clone, Copy, PartialEq, Eq, Structural, Debug)]
pub struct SurfaceRegistry {
    pub titlebar: SurfaceGeometry,
    pub main: SurfaceGeometry,
    pub ask: SurfaceGeometry,
}

/// The registry after one resize pass: each surface takes the new geometry
/// exactly when its own update succeeded, and keeps its old record when it
/// failed.
pub open spec fn spec_after_resize(before: SurfaceRegistry, layout: Layout, report: SurfaceUpdateReport) -> SurfaceRegistry {
    SurfaceRegistry {
        titlebar: if report.titlebar_ok {
            layout.titlebar
        } else {
            before.titlebar
        },
        main: if report.main_ok {
            layout.main
        } else {
            before.main
        },
        ask: if report.ask_ok {
            layout.ask
        } else {
            before.ask
        },
    }
}

impl SurfaceRegistry {
    /// The registry holds exactly the given layout for all three surfaces.
    pub open spec fn spec_holds(self, layout: Layout) -> bool {
        &&& self.titlebar == layout.titlebar
        &&& self.main == layout.main
        &&& self.ask == layout.ask
    }

    /// The geometry recorded for the named surface.
    pub open spec fn spec_get(self, name: SurfaceName) -> SurfaceGeometry {
        match name {
            SurfaceName::Titlebar => self.titlebar,
            SurfaceName::Main => self.main,
            SurfaceName::Ask => self.ask,
        }
    }

    /// Registry for three freshly attached surfaces, all holding the
    /// initial layout.
    pub fn attach_all(layout: &Layout) -> (r: SurfaceRegistry)
        ensures
            r.spec_holds(*layout),
    {
        SurfaceRegistry { titlebar: layout.titlebar, main: layout.main, ask: layout.ask }
    }

    /// The geometry recorded for the named surface.
    pub fn get(&self, name: SurfaceName) -> (g: SurfaceGeometry)
        ensures
            g == self.spec_get(name),
    {
        match name {
            SurfaceName::Titlebar => self.titlebar,
            SurfaceName::Main => self.main,
            SurfaceName::Ask => self.ask,
        }
    }

    /// Record the outcome of one resize pass.  A surface whose update the
    /// toolkit accepted takes the new geometry; a surface whose update
    /// failed keeps its previous record and is left stale.
    pub fn record_resize(&mut self, layout: &Layout, report: SurfaceUpdateReport)
        ensures
            *final(self) == spec_after_resize(*old(self), *layout, report),
    {
        if report.titlebar_ok {
            self.titlebar = layout.titlebar;
        }
        if report.main_ok {
            self.main = layout.main;
        }
        if report.ask_ok {
            self.ask = layout.ask;
        }
    }
}

/// Law: a failed update of one surface during a resize does not keep the
/// other surfaces from taking the new geometry — each surface's record
/// depends only on its own outcome, and a surface whose update failed keeps
/// exactly its old record.
pub proof fn lemma_failure_isolated(before: SurfaceRegistry, layout: Layout, report: SurfaceUpdateReport)
    ensures
        report.titlebar_ok ==> spec_after_resize(before, layout, report).titlebar == layout.titlebar,
        report.main_ok ==> spec_after_resize(before, layout, report).main == layout.main,
        report.ask_ok ==> spec_after_resize(before, layout, report).ask == layout.ask,
        !report.titlebar_ok ==> spec_after_resize(before, layout, report).titlebar == before.titlebar,
        !report.main_ok ==> spec_after_resize(before, layout, report).main == before.main,
        !report.ask_ok ==> spec_after_resize(before, layout, report).ask == before.ask,
{
}

/// Law: a fully successful resize replaces the registry's contents with the
/// new layout outright — the result holds the new geometry alone, whatever
/// the registry held before.
pub proof fn lemma_full_resize_replaces(before: SurfaceRegistry, layout: Layout, report: SurfaceUpdateReport)
    requires
        report.titlebar_ok,
        report.main_ok,
        report.ask_ok,
    ensures
        spec_after_resize(before, layout, report).spec_holds(layout),
{
}

} // verus!
