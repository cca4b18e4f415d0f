# rw

A small X11 status bar. The library (`src/`, verified with Verus) decides
what the bar asks of the X server: the window it creates, where it moves the
window when its height changes, the space it reserves along its screen edge,
and what the event loop does with each event. The program (`app/`) holds the
X connection and the Cairo surface, reads the display into the library's
plain values, and carries out the requests that the library returns.

- `src/protocol.rs`: X11 protocol numbers used by the bar.
- `src/event.rs`: event codes and the event loop's decision.
- `src/screen.rs`: screens, the screen index, the root visual search.
- `src/window.rs`: window creation, configure requests, struts, requests.
- `src/bar.rs`: the bar's state, its operations and their laws.
- `src/generic_bar.rs`, `src/numbered_bar.rs`: two minimal bars, one
  holding a value of any type and one carrying a number.
