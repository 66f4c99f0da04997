//! Layout geometry engine.
//!
//! Pure functions that place the three surfaces — title bar, main content,
//! ask strip — inside the window.  Sizes and positions are in physical
//! pixels; the display scale factor is carried as a fixed-point number of
//! thousandths, so that rounding logical strip heights to physical pixels
//! is exact integer arithmetic.

use vstd::prelude::*;

verus! {

/// Height of the custom title-bar strip, in logical units.
pub const TITLEBAR_HEIGHT: u32 = 28;

/// Height of the ask strip when ask mode is enabled, in logical units.
pub const ASK_HEIGHT: u32 = 120;

/// Scale-factor units that make up a factor of one (one physical pixel per
/// logical unit).
pub const SCALE_ONE: u32 = 1000;

/// Which of the two supported stacking conventions the host platform uses.
#[derive(Clone, Copy, PartialEq, Eq, Structural, Debug)]
pub enum Platform {
    /// The native title bar is suppressed and overlaid, so the custom title
    /// bar must sit at the very top of the window.
    MacOs,
    /// Every other platform: the custom title bar sits directly above the
    /// ask strip at the bottom.
    Other,
}

/// Display scale factor, captured once at window creation, as a fixed-point
/// value: `units` thousandths of a physical pixel per logical unit
/// (`units == 1000` is a factor of one, `1250` is one and a quarter).
#[derive(Clone, Copy, PartialEq, Eq, Structural, Debug)]
pub struct ScaleFactor {
    pub units: u32,
}

/// Physical size of the window, in device pixels.
#[derive(Clone, Copy, PartialEq, Eq, Structural, Debug)]
pub struct WindowSize {
    pub width: u32,
    pub height: u32,
}

/// User-level layout configuration, fixed for the life of the process.
#[derive(Clone, Copy, PartialEq, Eq, Structural, Debug)]
pub struct LayoutConfig {
    /// Whether vertical space is reserved for the ask strip.
    pub ask_mode: bool,
    /// Title-bar strip height in logical units.
    pub titlebar_height: u32,
    /// Ask strip height in logical units, applied only when `ask_mode` holds.
    pub ask_height: u32,
}

/// Position and size of one surface, in physical pixels, relative to the
/// window's top-left corner.
#[derive(Clone, Copy, PartialEq, Eq, Structural, Debug)]
pub struct SurfaceGeometry {
    pub x: u32,
    pub y: u32,
    pub width: u32,
    pub height: u32,
}

/// The computed geometry of all three surfaces for one window size.
#[derive(Clone, Copy, PartialEq, Eq, Structural, Debug)]
pub struct Layout {
    pub titlebar: SurfaceGeometry,
    pub main: SurfaceGeometry,
    pub ask: SurfaceGeometry,
}

/// Physical pixels covered by `logical` units at a scale of `units`
/// thousandths, rounded to the nearest pixel (halves round up).
pub open spec fn spec_scaled(units: int, logical: int) -> int {
    (logical * units + (SCALE_ONE as int) / 2) / (SCALE_ONE as int)
}

impl LayoutConfig {
    /// The ask strip's logical height after the ask-mode toggle is applied:
    /// zero whenever ask mode is off.
    pub open spec fn spec_effective_ask_height(self) -> int {
        if self.ask_mode {
            self.ask_height as int
        } else {
            0
        }
    }

    /// Configuration with the standard strip heights and the given ask-mode
    /// toggle.
    pub fn new(ask_mode: bool) -> (c: LayoutConfig)
        ensures
            c == (LayoutConfig {
                ask_mode,
                titlebar_height: TITLEBAR_HEIGHT,
                ask_height: ASK_HEIGHT,
            }),
    {
        LayoutConfig { ask_mode, titlebar_height: TITLEBAR_HEIGHT, ask_height: ASK_HEIGHT }
    }

    /// The ask strip's logical height after the ask-mode toggle is applied.
    pub fn effective_ask_height(&self) -> (h: u32)
        ensures
            h == self.spec_effective_ask_height(),
    {
        if self.ask_mode {
            self.ask_height
        } else {
            0
        }
    }
}

/// Title-bar strip height in physical pixels.
pub open spec fn spec_titlebar_px(scale: ScaleFactor, config: LayoutConfig) -> int {
    spec_scaled(scale.units as int, config.titlebar_height as int)
}

/// Ask strip height in physical pixels (zero when ask mode is off).
pub open spec fn spec_ask_px(scale: ScaleFactor, config: LayoutConfig) -> int {
    spec_scaled(scale.units as int, config.spec_effective_ask_height())
}

/// The two reserved strips together fit inside the window's height, so the
/// main surface's height is not negative.
pub open spec fn spec_strips_fit(size: WindowSize, scale: ScaleFactor, config: LayoutConfig) -> bool {
    spec_titlebar_px(scale, config) + spec_ask_px(scale, config) <= size.height
}

/// Rounding a non-negative logical length at a non-negative scale gives a
/// non-negative number of physical pixels.
pub proof fn lemma_scaled_nonneg(units: int, logical: int)
    requires
        0 <= units,
        0 <= logical,
    ensures
        0 <= spec_scaled(units, logical),
{
    assert(0 <= logical * units) by (nonlinear_arith)
        requires
            0 <= units,
            0 <= logical,
    ;
}

/// Rounded physical length as a wide integer, defined for every scale and
/// every logical length.
fn scaled_u64(units: u32, logical: u32) -> (r: u64)
    ensures
        r == spec_scaled(units as int, logical as int),
        r <= 0x0100_0000_0000_0000,
{
    proof {
        assert((logical as int) * (units as int) <= 0xffff_ffff * 0xffff_ffff)
            by (nonlinear_arith)
            requires
                0 <= logical as int <= 0xffff_ffff,
                0 <= units as int <= 0xffff_ffff,
        ;
        lemma_scaled_nonneg(units as int, logical as int);
    }
    ((logical as u64) * (units as u64) + (SCALE_ONE as u64) / 2) / (SCALE_ONE as u64)
}

impl ScaleFactor {
    /// Convert a logical length to physical pixels, rounding to the nearest
    /// pixel.
    pub fn scaled(self, logical: u32) -> (r: u32)
        requires
            spec_scaled(self.units as int, logical as int) <= u32::MAX,
        ensures
            r == spec_scaled(self.units as int, logical as int),
    {
        scaled_u64(self.units, logical) as u32
    }
}

/// Decide whether the two reserved strips fit inside the window's height,
/// for any scale factor and configuration.
pub fn strips_fit(size: WindowSize, scale: ScaleFactor, config: LayoutConfig) -> (b: bool)
    ensures
        b == spec_strips_fit(size, scale, config),
{
    let tb: u64 = scaled_u64(scale.units, config.titlebar_height);
    let ask: u64 = scaled_u64(scale.units, config.effective_ask_height());
    tb + ask <= size.height as u64
}

/// Geometry of the three surfaces on the macOS branch: title bar topmost,
/// main in the middle, ask strip at the bottom.
pub open spec fn spec_layout_macos(size: WindowSize, scale: ScaleFactor, config: LayoutConfig) -> Layout {
    let tb = spec_titlebar_px(scale, config);
    let ask = spec_ask_px(scale, config);
    Layout {
        titlebar: SurfaceGeometry { x: 0, y: 0, width: size.width, height: tb as u32 },
        main: SurfaceGeometry {
            x: 0,
            y: tb as u32,
            width: size.width,
            height: (size.height - tb - ask) as u32,
        },
        ask: SurfaceGeometry {
            x: 0,
            y: (size.height - ask) as u32,
            width: size.width,
            height: ask as u32,
        },
    }
}

/// Geometry of the three surfaces on every other platform: main topmost,
/// title bar directly above the ask strip, ask strip at the bottom.
pub open spec fn spec_layout_other(size: WindowSize, scale: ScaleFactor, config: LayoutConfig) -> Layout {
    let tb = spec_titlebar_px(scale, config);
    let ask = spec_ask_px(scale, config);
    Layout {
        main: SurfaceGeometry {
            x: 0,
            y: 0,
            width: size.width,
            height: (size.height - tb - ask) as u32,
        },
        titlebar: SurfaceGeometry {
            x: 0,
            y: (size.height - ask - tb) as u32,
            width: size.width,
            height: tb as u32,
        },
        ask: SurfaceGeometry {
            x: 0,
            y: (size.height - ask) as u32,
            width: size.width,
            height: ask as u32,
        },
    }
}

/// Geometry of the three surfaces for the given platform's stacking order.
pub open spec fn spec_layout(size: WindowSize, scale: ScaleFactor, platform: Platform, config: LayoutConfig) -> Layout {
    match platform {
        Platform::MacOs => spec_layout_macos(size, scale, config),
        Platform::Other => spec_layout_other(size, scale, config),
    }
}

/// The layout's three strips exactly tile the window's vertical extent in
/// the platform's stacking order: each strip starts where the previous one
/// ends, the first starts at the top edge and the last ends at the bottom
/// edge, so there is no gap and no overlap.
pub open spec fn spec_tiles(l: Layout, size: WindowSize, platform: Platform) -> bool {
    match platform {
        Platform::MacOs => {
            &&& l.titlebar.y == 0
            &&& l.main.y == l.titlebar.y + l.titlebar.height
            &&& l.ask.y == l.main.y + l.main.height
            &&& l.ask.y + l.ask.height == size.height
        },
        Platform::Other => {
            &&& l.main.y == 0
            &&& l.titlebar.y == l.main.y + l.main.height
            &&& l.ask.y == l.titlebar.y + l.titlebar.height
            &&& l.ask.y + l.ask.height == size.height
        },
    }
}

/// Compute the geometry of the three surfaces from the window's physical
/// size, the captured scale factor, the platform tag and the layout
/// configuration.  Both the first paint and every later resize go through
/// this one function.
pub fn compute_layout(size: WindowSize, scale: ScaleFactor, platform: Platform, config: LayoutConfig) -> (l: Layout)
    requires
        spec_strips_fit(size, scale, config),
    ensures
        l == spec_layout(size, scale, platform, config),
{
    proof {
        lemma_scaled_nonneg(scale.units as int, config.titlebar_height as int);
        lemma_scaled_nonneg(scale.units as int, config.spec_effective_ask_height());
    }
    let tb: u32 = scale.scaled(config.titlebar_height);
    let ask: u32 = scale.scaled(config.effective_ask_height());
    let full_width: u32 = size.width;
    match platform {
        Platform::MacOs => Layout {
            titlebar: SurfaceGeometry { x: 0, y: 0, width: full_width, height: tb },
            main: SurfaceGeometry {
                x: 0,
                y: tb,
                width: full_width,
                height: size.height - tb - ask,
            },
            ask: SurfaceGeometry {
                x: 0,
                y: size.height - ask,
                width: full_width,
                height: ask,
            },
        },
        Platform::Other => Layout {
            main: SurfaceGeometry {
                x: 0,
                y: 0,
                width: full_width,
                height: size.height - tb - ask,
            },
            titlebar: SurfaceGeometry {
                x: 0,
                y: size.height - ask - tb,
                width: full_width,
                height: tb,
            },
            ask: SurfaceGeometry {
                x: 0,
                y: size.height - ask,
                width: full_width,
                height: ask,
            },
        },
    }
}

/// Law: for every window size and every strip pair that fits, the three
/// computed surface heights sum exactly to the window's physical height and
/// the strips tile its vertical extent contiguously and without overlap, on
/// both platform branches.
pub proof fn lemma_heights_tile(size: WindowSize, scale: ScaleFactor, platform: Platform, config: LayoutConfig)
    requires
        spec_strips_fit(size, scale, config),
    ensures
        spec_layout(size, scale, platform, config).titlebar.height
            + spec_layout(size, scale, platform, config).main.height
            + spec_layout(size, scale, platform, config).ask.height == size.height,
        spec_tiles(spec_layout(size, scale, platform, config), size, platform),
{
    lemma_scaled_nonneg(scale.units as int, config.titlebar_height as int);
    lemma_scaled_nonneg(scale.units as int, config.spec_effective_ask_height());
}

/// Law: the geometry computation is a pure function of its inputs — two
/// layouts computed from identical inputs are identical.
pub proof fn lemma_layout_deterministic(a: Layout, b: Layout, size: WindowSize, scale: ScaleFactor, platform: Platform, config: LayoutConfig)
    requires
        a == spec_layout(size, scale, platform, config),
        b == spec_layout(size, scale, platform, config),
    ensures
        a == b,
{
}

/// Law: platform branch selection is exhaustive and mutually exclusive —
/// every platform tag is exactly one of the two, and the computed layout is
/// exactly the matching branch's stacking.
pub proof fn lemma_platform_branches(size: WindowSize, scale: ScaleFactor, platform: Platform, config: LayoutConfig)
    ensures
        platform is MacOs || platform is Other,
        !(platform is MacOs && platform is Other),
        platform is MacOs ==> spec_layout(size, scale, platform, config)
            == spec_layout_macos(size, scale, config),
        platform is Other ==> spec_layout(size, scale, platform, config)
            == spec_layout_other(size, scale, config),
{
}

/// Law: with ask mode disabled the ask surface's height is exactly zero,
/// for every window size, scale factor and platform.
pub proof fn lemma_ask_disabled_zero(size: WindowSize, scale: ScaleFactor, platform: Platform, config: LayoutConfig)
    requires
        !config.ask_mode,
    ensures
        spec_layout(size, scale, platform, config).ask.height == 0,
{
    assert(config.spec_effective_ask_height() == 0);
    assert(spec_ask_px(scale, config) == 0);
}

} // verus!
