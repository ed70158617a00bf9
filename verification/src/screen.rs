//! The screen: the panel's fixed configuration and a surface to draw on.

use vstd::prelude::*;
use crate::config::{controller_config_for, Builder, Dimensions, PanelConfig, PanelSettings};
use crate::geometry::{Rotation, NATIVE_COLS, NATIVE_ROWS};
use crate::lut::LUT_FAST_YELLOW;
use crate::surface::{GraphicSurface, SurfaceView};

verus! {

/// The settings of the screen: the native grid, turned by 270 degrees so that
/// the drawing window is 212 wide and 104 high, a yellow accent pigment and
/// the fast yellow lookup table.
pub open spec fn screen_settings() -> PanelSettings {
    PanelSettings {
        rows: NATIVE_ROWS,
        cols: NATIVE_COLS,
        rotation: Rotation::Rotate270,
        lut: LUT_FAST_YELLOW@,
        yellow: true,
    }
}

/// A configured panel with its framebuffer.
pub struct Screen<'a> {
    config: PanelConfig<'a>,
    controller: ssd1675::config::Config<'a>,
    surface: GraphicSurface,
}

impl<'a> Screen<'a> {
    /// The settings of the panel.
    pub closed spec fn settings(&self) -> PanelSettings {
        self.config@
    }

    /// What the surface holds.
    pub closed spec fn surface_view(&self) -> SurfaceView {
        self.surface@
    }

    /// The controller driver's own configuration that the screen holds.
    pub closed spec fn controller(&self) -> ssd1675::config::Config<'a> {
        self.controller
    }

    /// The screen with its fixed settings and both planes freshly zeroed.
    pub fn new() -> (screen: Self)
        ensures
            screen.settings() == screen_settings(),
            screen.surface_view() == SurfaceView::blank(Rotation::Rotate270),
            screen.surface_view().wf(),
            screen.controller() == controller_config_for(
                NATIVE_ROWS,
                NATIVE_COLS,
                Rotation::Rotate270,
                LUT_FAST_YELLOW@,
            ),
    {
        let lut: &'static [u8; 70] = &LUT_FAST_YELLOW;
        let built = Builder::new().dimensions(
            Dimensions { rows: NATIVE_ROWS, cols: NATIVE_COLS },
        ).rotation(Rotation::Rotate270).lut(lut.as_slice()).yellow(true).build();
        let config = built.unwrap();
        let controller = config.controller_config();
        let surface = GraphicSurface::new(config.rotation());
        Screen { config, controller, surface }
    }

    /// The configuration of the panel.
    pub fn config(&self) -> (config: &PanelConfig<'a>)
        ensures
            config@ == self.settings(),
    {
        &self.config
    }

    /// The surface, for reading.
    pub fn surface(&self) -> (surface: &GraphicSurface)
        ensures
            surface@ == self.surface_view(),
    {
        &self.surface
    }

    /// The surface, for drawing. The settings stay as they are.
    pub fn surface_mut(&mut self) -> (surface: &mut GraphicSurface)
        ensures
            surface@ == old(self).surface_view(),
            final(self).surface_view() == final(surface)@,
            final(self).settings() == old(self).settings(),
            final(self).controller() == old(self).controller(),
    {
        &mut self.surface
    }

    /// Takes the screen apart: the configuration, the controller driver's own
    /// configuration made from it, and the surface.
    pub fn into_parts(self) -> (parts: (
        PanelConfig<'a>,
        ssd1675::config::Config<'a>,
        GraphicSurface,
    ))
        ensures
            parts.0@ == self.settings(),
            parts.1 == self.controller(),
            parts.2@ == self.surface_view(),
    {
        (self.config, self.controller, self.surface)
    }
}

} // verus!
