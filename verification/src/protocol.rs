//! Numbers fixed by the X11 core protocol that the bar's requests and event
//! handling are built from.

use vstd::prelude::*;

verus! {

/// Event code of an `Expose` event.
pub const EXPOSE: u8 = 12;

/// Event code of a `KeyPress` event.
pub const KEY_PRESS: u8 = 2;

/// Bit of an event's response type that marks an event sent by another client.
pub const SEND_EVENT_BIT: u8 = 0x80;

/// Keycode of the key that closes the bar (`q` on a standard keyboard map).
pub const QUIT_KEYCODE: u8 = 24;

/// `CopyFromParent`: the depth of a new window is its parent's.
pub const COPY_FROM_PARENT: u8 = 0;

/// Window class `InputOutput`.
pub const WINDOW_CLASS_INPUT_OUTPUT: u16 = 1;

/// Window attribute mask bit: background pixel.
pub const CW_BACK_PIXEL: u32 = 0x2;

/// Window attribute mask bit: event mask.
pub const CW_EVENT_MASK: u32 = 0x800;

/// Event mask bit: key presses.
pub const EVENT_MASK_KEY_PRESS: u32 = 0x1;

/// Event mask bit: exposure.
pub const EVENT_MASK_EXPOSURE: u32 = 0x8000;

/// Configure-window mask bit: y coordinate.
pub const CONFIG_WINDOW_Y: u16 = 0x2;

/// Configure-window mask bit: height.
pub const CONFIG_WINDOW_HEIGHT: u16 = 0x8;

/// Configure-window mask bit: stacking mode.
pub const CONFIG_WINDOW_STACK_MODE: u16 = 0x40;

/// Stacking mode `Above`.
pub const STACK_MODE_ABOVE: u32 = 0;

} // verus!
