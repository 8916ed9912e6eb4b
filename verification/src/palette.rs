//! The schematic canvas's colours.
//!
//! They belong to KiCad's own colour-theme system, which the host will
//! eventually supply; keeping them in one struct means adopting the host's
//! theme is a matter of filling this in from it. Colours are `0xRRGGBB`.

use vstd::prelude::*;

verus! {

/// The colours the canvas paints with, as `0xRRGGBB`.
#[derive(Clone, Copy, Debug, PartialEq, Eq, Structural)]
pub struct CanvasPalette {
    /// Behind everything.
    pub background: u32,
    /// Ordinary grid points.
    pub grid: u32,
    /// Every tenth grid point, so the eye can count.
    pub grid_major: u32,
    /// The sheet border and its title block rules.
    pub sheet_border: u32,
    /// Inside the sheet border, when it differs from the background.
    pub sheet_fill: u32,
    /// Wires.
    pub wire: u32,
    /// Buses.
    pub bus: u32,
    /// Junction dots.
    pub junction: u32,
    /// Symbol body outlines.
    pub symbol_outline: u32,
    /// Symbol body fill.
    pub symbol_fill: u32,
    /// Pins and pin numbers.
    pub pin: u32,
    /// Net labels and hierarchical labels.
    pub label: u32,
    /// Reference designators and values.
    pub field: u32,
    /// Free text and notes.
    pub text: u32,
    /// No-connect markers and error flags.
    pub no_connect: u32,
    /// Selection outline.
    pub selection: u32,
    /// The full-window crosshair.
    pub crosshair: u32,
}

/// The dark canvas.
pub open spec fn dark_palette() -> CanvasPalette {
    CanvasPalette {
        background: 0x0f1318,
        grid: 0x232a33,
        grid_major: 0x313a46,
        sheet_border: 0x46505d,
        sheet_fill: 0x121720,
        wire: 0x2fc98a,
        bus: 0x4b90f7,
        junction: 0x2fc98a,
        symbol_outline: 0xd3785c,
        symbol_fill: 0x1d1a1c,
        pin: 0xe0685f,
        label: 0x9ecbff,
        field: 0x6fd3c8,
        text: 0xc9d2de,
        no_connect: 0xe0685f,
        selection: 0x59b0ff,
        crosshair: 0x4d5866,
    }
}

/// The light canvas, close to eeschema's traditional colours.
pub open spec fn light_palette() -> CanvasPalette {
    CanvasPalette {
        background: 0xffffff,
        grid: 0xdfe4ea,
        grid_major: 0xc7cfd8,
        sheet_border: 0x7a838f,
        sheet_fill: 0xfdfdfd,
        wire: 0x008e4a,
        bus: 0x0b4fc0,
        junction: 0x008e4a,
        symbol_outline: 0x9b2d1c,
        symbol_fill: 0xfff8f5,
        pin: 0xb33a2c,
        label: 0x14508f,
        field: 0x0f7d78,
        text: 0x222b34,
        no_connect: 0xb33a2c,
        selection: 0x1d6fb8,
        crosshair: 0xa8b2bd,
    }
}

impl CanvasPalette {
    /// The dark canvas.
    pub fn dark() -> (palette: CanvasPalette)
        ensures
            palette == dark_palette(),
    {
        CanvasPalette {
            background: 0x0f1318,
            grid: 0x232a33,
            grid_major: 0x313a46,
            sheet_border: 0x46505d,
            sheet_fill: 0x121720,
            wire: 0x2fc98a,
            bus: 0x4b90f7,
            junction: 0x2fc98a,
            symbol_outline: 0xd3785c,
            symbol_fill: 0x1d1a1c,
            pin: 0xe0685f,
            label: 0x9ecbff,
            field: 0x6fd3c8,
            text: 0xc9d2de,
            no_connect: 0xe0685f,
            selection: 0x59b0ff,
            crosshair: 0x4d5866,
        }
    }

    /// The light canvas, close to eeschema's traditional colours.
    pub fn light() -> (palette: CanvasPalette)
        ensures
            palette == light_palette(),
    {
        CanvasPalette {
            background: 0xffffff,
            grid: 0xdfe4ea,
            grid_major: 0xc7cfd8,
            sheet_border: 0x7a838f,
            sheet_fill: 0xfdfdfd,
            wire: 0x008e4a,
            bus: 0x0b4fc0,
            junction: 0x008e4a,
            symbol_outline: 0x9b2d1c,
            symbol_fill: 0xfff8f5,
            pin: 0xb33a2c,
            label: 0x14508f,
            field: 0x0f7d78,
            text: 0x222b34,
            no_connect: 0xb33a2c,
            selection: 0x1d6fb8,
            crosshair: 0xa8b2bd,
        }
    }

    /// The palette for a dark or a light theme.
    pub fn for_mode(dark: bool) -> (palette: CanvasPalette)
        ensures
            palette == if dark {
                dark_palette()
            } else {
                light_palette()
            },
    {
        if dark {
            CanvasPalette::dark()
        } else {
            CanvasPalette::light()
        }
    }
}

} // verus!
