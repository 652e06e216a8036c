//! Split-screen layouts: how many cameras a layout shows and which part of
//! the window each one draws to.
use vstd::prelude::*;

verus! {

/// How the window is shared between cameras.
#[derive(Debug, Clone, Copy, PartialEq, Eq, Structural)]
pub enum CameraLayout {
    /// One camera over the whole window.
    Single,
    /// Two cameras side by side.
    VerticalSplit,
    /// Four cameras, one per quarter.
    QuadSplit,
}

impl Default for CameraLayout {
    fn default() -> (r: CameraLayout)
        ensures
            r == CameraLayout::QuadSplit,
    {
        CameraLayout::QuadSplit
    }
}

/// Where a camera's viewport sits in the window: shifted to the right or
/// bottom half, and halved in width or height.
#[derive(Debug, Clone, Copy, PartialEq, Eq, Structural)]
pub struct CameraPositioning {
    pub offset_right: bool,
    pub offset_down: bool,
    pub half_width: bool,
    pub half_height: bool,
}

/// A viewport in physical pixels.
#[derive(Debug, Clone, Copy, PartialEq, Eq, Structural)]
pub struct Viewport {
    pub x: u32,
    pub y: u32,
    pub width: u32,
    pub height: u32,
}

/// The layout that follows `l` when the player cycles through them.
pub open spec fn next_layout(l: CameraLayout) -> CameraLayout {
    match l {
        CameraLayout::Single => CameraLayout::VerticalSplit,
        CameraLayout::VerticalSplit => CameraLayout::QuadSplit,
        CameraLayout::QuadSplit => CameraLayout::Single,
    }
}

/// A positioning from its four switches.
pub open spec fn placed(right: bool, down: bool, half_w: bool, half_h: bool) -> CameraPositioning {
    CameraPositioning { offset_right: right, offset_down: down, half_width: half_w, half_height: half_h }
}

/// The cameras of a layout, in the order they are drawn.
pub open spec fn positions_of(l: CameraLayout) -> Seq<CameraPositioning> {
    match l {
        CameraLayout::Single => seq![placed(false, false, false, false)],
        CameraLayout::VerticalSplit => seq![
            placed(false, false, true, false),
            placed(true, false, true, false),
        ],
        CameraLayout::QuadSplit => seq![
            placed(false, false, true, true),
            placed(true, false, true, true),
            placed(false, true, true, true),
            placed(true, true, true, true),
        ],
    }
}

/// The viewport of a camera in a window of `width` by `height` pixels: a
/// halved side or an offset uses half the window's side, rounded down.
pub open spec fn viewport_of(p: CameraPositioning, width: u32, height: u32) -> Viewport {
    Viewport {
        x: if p.offset_right { width / 2 } else { 0 },
        y: if p.offset_down { height / 2 } else { 0 },
        width: if p.half_width { width / 2 } else { width },
        height: if p.half_height { height / 2 } else { height },
    }
}

impl CameraLayout {
    /// The layout that follows this one.
    pub fn toggled(&self) -> (r: CameraLayout)
        ensures
            r == next_layout(*self),
    {
        match self {
            CameraLayout::Single => CameraLayout::VerticalSplit,
            CameraLayout::VerticalSplit => CameraLayout::QuadSplit,
            CameraLayout::QuadSplit => CameraLayout::Single,
        }
    }

    /// The cameras of this layout, in the order they are drawn.
    pub fn positions(&self) -> (r: Vec<CameraPositioning>)
        ensures
            r@ == positions_of(*self),
    {
        let none = CameraPositioning {
            offset_right: false,
            offset_down: false,
            half_width: false,
            half_height: false,
        };
        let v = match self {
            CameraLayout::Single => vec![none],
            CameraLayout::VerticalSplit => vec![
                CameraPositioning { half_width: true, ..none },
                CameraPositioning { half_width: true, offset_right: true, ..none },
            ],
            CameraLayout::QuadSplit => vec![
                CameraPositioning { half_width: true, half_height: true, ..none },
                CameraPositioning { offset_right: true, half_width: true, half_height: true, ..none },
                CameraPositioning { half_width: true, half_height: true, offset_down: true, ..none },
                CameraPositioning {
                    half_width: true,
                    half_height: true,
                    offset_right: true,
                    offset_down: true,
                },
            ],
        };
        assert(v@ == positions_of(*self));
        v
    }
}

impl CameraPositioning {
    /// The viewport of this camera in a window of `width` by `height` pixels.
    pub fn viewport(&self, width: u32, height: u32) -> (r: Viewport)
        ensures
            r == viewport_of(*self, width, height),
    {
        let half_x = width / 2;
        let half_y = height / 2;
        let mut r = Viewport { x: 0, y: 0, width, height };
        if self.offset_right {
            r.x = half_x;
        }
        if self.offset_down {
            r.y = half_y;
        }
        if self.half_width {
            r.width = half_x;
        }
        if self.half_height {
            r.height = half_y;
        }
        r
    }
}

/// Cycling through the layouts comes back to the start after three steps.
pub proof fn lemma_toggle_cycles(l: CameraLayout)
    ensures
        next_layout(next_layout(next_layout(l))) == l,
        next_layout(l) != l,
{
}

/// The viewports of a layout stay inside the window.
pub proof fn lemma_viewports_inside(l: CameraLayout, width: u32, height: u32, i: int)
    requires
        0 <= i < positions_of(l).len(),
    ensures
        viewport_of(positions_of(l)[i], width, height).x + viewport_of(positions_of(l)[i], width, height).width <= width,
        viewport_of(positions_of(l)[i], width, height).y + viewport_of(positions_of(l)[i], width, height).height <= height,
{
}

} // verus!
