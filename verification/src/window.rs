//! The requests that the bar sends about its window: how the window is
//! created, how it is moved and resized, and what it reserves on the screen.

use vstd::prelude::*;
use crate::error::BarError;
use crate::protocol::{
    COPY_FROM_PARENT, CONFIG_WINDOW_HEIGHT, CONFIG_WINDOW_STACK_MODE, CONFIG_WINDOW_Y, CW_BACK_PIXEL,
    CW_EVENT_MASK, EVENT_MASK_EXPOSURE, EVENT_MASK_KEY_PRESS, STACK_MODE_ABOVE,
    WINDOW_CLASS_INPUT_OUTPUT,
};
use crate::screen::{ScreenInfo, screen_at, spec_screen_at};

verus! {

/// The space that a docked window reserves along the edges of the screen
/// (the EWMH `_NET_WM_STRUT_PARTIAL` property).
#[derive(Clone, Copy, Debug, PartialEq, Eq, Structural)]
pub struct StrutPartial {
    pub left: u32,
    pub right: u32,
    pub top: u32,
    pub bottom: u32,
    pub left_start_y: u32,
    pub left_end_y: u32,
    pub right_start_y: u32,
    pub right_end_y: u32,
    pub top_start_x: u32,
    pub top_end_x: u32,
    pub bottom_start_x: u32,
    pub bottom_end_x: u32,
}

/// A strut that reserves nothing.
pub open spec fn empty_strut() -> StrutPartial {
    StrutPartial {
        left: 0,
        right: 0,
        top: 0,
        bottom: 0,
        left_start_y: 0,
        left_end_y: 0,
        right_start_y: 0,
        right_end_y: 0,
        top_start_x: 0,
        top_end_x: 0,
        bottom_start_x: 0,
        bottom_end_x: 0,
    }
}

/// One request that the bar asks its X connection to carry out.
#[derive(Clone, Copy, Debug, PartialEq, Eq, Structural)]
pub enum BarCommand {
    /// Move the window to `y`, give it `height` and raise it
    /// (the values are those of `configure_values`).
    ConfigureWindow { y: u16, height: u16 },
    /// Map the window.
    MapWindow,
    /// Resize the drawing surface.
    ResizeSurface { width: u16, height: u16 },
    /// Set the window's type to the dock type.
    SetWindowTypeDock,
    /// Set the window's partial strut.
    SetStrutPartial(StrutPartial),
    /// Flush the connection.
    Flush,
}

/// The value list of a configure-window request that moves a window to `y`,
/// gives it `height` and raises it above its siblings.
pub open spec fn spec_configure_values(y: u16, height: u16) -> Seq<(u16, u32)> {
    seq![
        (CONFIG_WINDOW_Y, y as u32),
        (CONFIG_WINDOW_HEIGHT, height as u32),
        (CONFIG_WINDOW_STACK_MODE, STACK_MODE_ABOVE),
    ]
}

/// Builds the value list of a configure-window request that moves a window
/// to `y`, gives it `height` and raises it above its siblings.
pub fn configure_values(y: u16, height: u16) -> (values: Vec<(u16, u32)>)
    ensures
        values@ == spec_configure_values(y, height),
{
    let mut values: Vec<(u16, u32)> = Vec::new();
    values.push((CONFIG_WINDOW_Y, y as u32));
    values.push((CONFIG_WINDOW_HEIGHT, height as u32));
    values.push((CONFIG_WINDOW_STACK_MODE, STACK_MODE_ABOVE));
    values
}

/// The arguments of a create-window request.
#[derive(Debug)]
pub struct WindowSpec {
    pub depth: u8,
    pub window_id: u32,
    pub parent: u32,
    pub x: i16,
    pub y: i16,
    pub width: u16,
    pub height: u16,
    pub border_width: u16,
    pub class: u16,
    pub visual: u32,
    /// The window attributes, as (mask bit, value) pairs.
    pub values: Vec<(u32, u32)>,
}

/// The attributes that the bar's windows are created with: a white
/// background, and the exposure and key-press events selected.
pub open spec fn spec_window_values(screen: ScreenInfo) -> Seq<(u32, u32)> {
    seq![
        (CW_BACK_PIXEL, screen.white_pixel),
        (CW_EVENT_MASK, EVENT_MASK_EXPOSURE | EVENT_MASK_KEY_PRESS),
    ]
}

/// Whether `w` asks for a window `window_id` at the origin of `screen`, a
/// child of its root with the root's depth and visual, of the given size
/// and border, with the bar's attributes.
pub open spec fn is_window_spec(
    w: WindowSpec,
    screen: ScreenInfo,
    window_id: u32,
    width: u16,
    height: u16,
    border_width: u16,
) -> bool {
    &&& w.depth == COPY_FROM_PARENT
    &&& w.window_id == window_id
    &&& w.parent == screen.root
    &&& w.x == 0
    &&& w.y == 0
    &&& w.width == width
    &&& w.height == height
    &&& w.border_width == border_width
    &&& w.class == WINDOW_CLASS_INPUT_OUTPUT
    &&& w.visual == screen.root_visual
    &&& w.values@ == spec_window_values(screen)
}

fn window_spec(screen: &ScreenInfo, window_id: u32, width: u16, height: u16, border_width: u16) -> (w: WindowSpec)
    ensures
        is_window_spec(w, *screen, window_id, width, height, border_width),
{
    let mut values: Vec<(u32, u32)> = Vec::new();
    values.push((CW_BACK_PIXEL, screen.white_pixel));
    values.push((CW_EVENT_MASK, EVENT_MASK_EXPOSURE | EVENT_MASK_KEY_PRESS));
    assert(values@ =~= spec_window_values(*screen));
    WindowSpec {
        depth: COPY_FROM_PARENT,
        window_id,
        parent: screen.root,
        x: 0,
        y: 0,
        width,
        height,
        border_width,
        class: WINDOW_CLASS_INPUT_OUTPUT,
        visual: screen.root_visual,
        values,
    }
}

/// The bar's window on the screen at `screen_idx`: as wide as the screen,
/// `height` high, without a border; `InvalidScreen` if there is no such screen.
pub fn create_window(screens: &Vec<ScreenInfo>, screen_idx: usize, window_id: u32, height: u16) -> (r: Result<WindowSpec, BarError>)
    ensures
        match spec_screen_at(screens@, screen_idx) {
            Ok(screen) => r matches Ok(w)
                && is_window_spec(w, screen, window_id, screen.width_in_pixels, height, 0)
                && w.x == 0 && w.y == 0 && w.width == screen.width_in_pixels && w.height == height,
            Err(e) => r matches Err(e2) && e2 == e,
        },
{
    match screen_at(screens, screen_idx) {
        Ok(screen) => Ok(window_spec(&screen, window_id, screen.width_in_pixels, height, 0)),
        Err(e) => Err(e),
    }
}

/// Height of the stand-alone test window once it is moved to the bottom.
pub const DEMO_BAR_HEIGHT: u16 = 35;

/// The requests of the stand-alone test window: a 150 by 150 window with a
/// border of 10, then moved to the bottom of the screen with a height of 35,
/// raised, mapped and flushed.
pub fn run_plan(screen: &ScreenInfo, window_id: u32) -> (r: (WindowSpec, Vec<BarCommand>))
    requires
        screen.height_in_pixels >= DEMO_BAR_HEIGHT,
    ensures
        is_window_spec(r.0, *screen, window_id, 150, 150, 10),
        r.0.x == 0 && r.0.y == 0,
        r.0.width == 150 && r.0.height == 150 && r.0.border_width == 10,
        r.1@ == seq![
            BarCommand::ConfigureWindow {
                y: (screen.height_in_pixels - DEMO_BAR_HEIGHT) as u16,
                height: DEMO_BAR_HEIGHT,
            },
            BarCommand::MapWindow,
            BarCommand::Flush,
        ],
{
    let w = window_spec(screen, window_id, 150, 150, 10);
    let y = screen.height_in_pixels - DEMO_BAR_HEIGHT;
    let mut cmds: Vec<BarCommand> = Vec::new();
    cmds.push(BarCommand::ConfigureWindow { y, height: DEMO_BAR_HEIGHT });
    cmds.push(BarCommand::MapWindow);
    cmds.push(BarCommand::Flush);
    (w, cmds)
}

/// Every window that the bar asks for is placed at the origin of its
/// screen, whatever its border, as a child of the screen's root with the
/// root's depth and visual, in the input-output class, with a white
/// background and the exposure and key-press events selected.
pub proof fn lemma_window_spec_fields(
    w: WindowSpec,
    screen: ScreenInfo,
    window_id: u32,
    width: u16,
    height: u16,
    border_width: u16,
)
    requires
        is_window_spec(w, screen, window_id, width, height, border_width),
    ensures
        w.x == 0,
        w.y == 0,
        w.depth == 0,
        w.class == 1,
        w.window_id == window_id,
        w.parent == screen.root,
        w.visual == screen.root_visual,
        w.width == width,
        w.height == height,
        w.border_width == border_width,
        w.values@.len() == 2,
        w.values@[0] == (CW_BACK_PIXEL, screen.white_pixel),
        w.values@[1] == (CW_EVENT_MASK, 0x8001u32),
{
    assert(0x8000u32 | 0x1u32 == 0x8001u32) by (bit_vector);
}

/// A configure request moves the window to `y`, sets its height and raises
/// it, in that order of mask bits.
pub proof fn lemma_configure_values(y: u16, height: u16)
    ensures
        spec_configure_values(y, height).len() == 3,
        spec_configure_values(y, height)[0] == (CONFIG_WINDOW_Y, y as u32),
        spec_configure_values(y, height)[1] == (CONFIG_WINDOW_HEIGHT, height as u32),
        spec_configure_values(y, height)[2] == (CONFIG_WINDOW_STACK_MODE, 0u32),
        CONFIG_WINDOW_Y < CONFIG_WINDOW_HEIGHT < CONFIG_WINDOW_STACK_MODE,
{
}

} // verus!
