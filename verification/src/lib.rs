//! A verified model of a small X11 status bar: the decisions that the bar
//! makes about its window, its reserved screen space and the events that it
//! receives, kept apart from the X server connection that carries them out.

pub mod protocol;
pub mod event;
pub mod error;
pub mod screen;
pub mod window;
pub mod bar;
pub mod generic_bar;
pub mod numbered_bar;
