//! The bar: where it sits, how high it is, and the requests that follow from
//! setting it up, resizing it, redrawing it and handling its events.

use vstd::prelude::*;
use crate::error::BarError;
use crate::event::{RawEvent, event_kind, spec_event_kind, spec_next_action};
use crate::protocol::EXPOSE;
use crate::screen::{ScreenInfo, screen_at, spec_screen_at};
use crate::window::{BarCommand, StrutPartial, WindowSpec, create_window, empty_strut, is_window_spec};

verus! {

/// The screen edge that the bar is docked to.
#[derive(Clone, Copy, Debug, PartialEq, Eq, Structural)]
pub enum Position {
    Top,
    Bottom,
}

/// A piece of text laid out for drawing in the bar.
#[derive(Clone, Copy, Debug)]
pub struct ComputedText {}

impl ComputedText {
    /// Draws the text; laying out and drawing text is not done yet, so this
    /// draws nothing.
    pub fn render() {
    }
}

/// The height that redrawing gives the bar.
pub const REDRAW_HEIGHT: u16 = 35;

/// The height of the bar's window when it is created.
pub const INITIAL_HEIGHT: u16 = 1;

/// What the bar knows of itself, as the contracts speak of it.
pub struct BarView {
    pub position: Position,
    pub screen_idx: usize,
    pub window_id: u32,
    pub width: u16,
    pub height: u16,
    /// The number of groups of text that the bar shows.
    pub content_groups: nat,
}

/// A status bar docked to one edge of a screen. The connection to the X
/// server and the drawing surface are held by whoever carries out the
/// bar's requests.
pub struct Bar {
    position: Position,
    screen_idx: usize,
    window_id: u32,
    width: u16,
    height: u16,
    contents: Vec<Vec<ComputedText>>,
}

impl View for Bar {
    type V = BarView;

    closed spec fn view(&self) -> BarView {
        BarView {
            position: self.position,
            screen_idx: self.screen_idx,
            window_id: self.window_id,
            width: self.width,
            height: self.height,
            content_groups: self.contents@.len(),
        }
    }
}

/// The strut of a bar `height` high docked at `position`: that height
/// reserved along that edge, nothing elsewhere.
pub open spec fn spec_strut(position: Position, height: u16) -> StrutPartial {
    match position {
        Position::Top => StrutPartial { top: height as u32, ..empty_strut() },
        Position::Bottom => StrutPartial { bottom: height as u32, ..empty_strut() },
    }
}

/// The requests that mark the bar's window as a dock and reserve its space.
pub open spec fn spec_ewmh_commands(bar: BarView) -> Seq<BarCommand> {
    seq![BarCommand::SetWindowTypeDock, BarCommand::SetStrutPartial(spec_strut(bar.position, bar.height))]
}

/// The requests that move the bar's window to `y` with the bar's height,
/// map it, resize the surface, and update the reserved space.
pub open spec fn spec_height_commands(bar: BarView, y: u16) -> Seq<BarCommand> {
    seq![
        BarCommand::ConfigureWindow { y, height: bar.height },
        BarCommand::MapWindow,
        BarCommand::ResizeSurface { width: bar.width, height: bar.height },
    ] + spec_ewmh_commands(bar)
}

/// Whether giving the bar `height` would move its window above the top of
/// its screen (the bar docks at the bottom of a screen lower than `height`).
pub open spec fn height_underflows(bar: BarView, height: u16, screens: Seq<ScreenInfo>) -> bool {
    &&& bar.height != height
    &&& bar.position is Bottom
    &&& bar.screen_idx < screens.len()
    &&& screens[bar.screen_idx as int].height_in_pixels < height
}

/// The bar after it is given `height`, and the requests that follow or the
/// error met. The new height is kept even where the screen lookup fails.
pub open spec fn spec_update_bar_height(bar: BarView, height: u16, screens: Seq<ScreenInfo>)
    -> (BarView, Result<Seq<BarCommand>, BarError>)
{
    if bar.height == height {
        (bar, Ok(Seq::empty()))
    } else {
        let next = BarView { height, ..bar };
        match bar.position {
            Position::Top => (next, Ok(spec_height_commands(next, 0))),
            Position::Bottom => match spec_screen_at(screens, bar.screen_idx) {
                Ok(screen) => (next, Ok(spec_height_commands(next, (screen.height_in_pixels - height) as u16))),
                Err(e) => (next, Err(e)),
            },
        }
    }
}

/// The bar after a redraw, and its requests: it is given the redraw height,
/// then the connection is flushed.
pub open spec fn spec_redraw(bar: BarView, screens: Seq<ScreenInfo>) -> (BarView, Result<Seq<BarCommand>, BarError>) {
    let (next, r) = spec_update_bar_height(bar, REDRAW_HEIGHT, screens);
    match r {
        Ok(cmds) => (next, Ok(cmds.push(BarCommand::Flush))),
        Err(e) => (next, Err(e)),
    }
}

/// The bar after an update, and its requests: a redraw whose failure is
/// passed over.
pub open spec fn spec_update(bar: BarView, screens: Seq<ScreenInfo>) -> (BarView, Seq<BarCommand>) {
    let (next, r) = spec_redraw(bar, screens);
    match r {
        Ok(cmds) => (next, cmds),
        Err(_) => (next, Seq::empty()),
    }
}

/// A command list as the contracts speak of it.
pub open spec fn commands_view(r: Result<Vec<BarCommand>, BarError>) -> Result<Seq<BarCommand>, BarError> {
    match r {
        Ok(cmds) => Ok(cmds@),
        Err(e) => Err(e),
    }
}

impl Bar {
    /// Sets up a bar docked at `position` on the screen at `screen_idx`, in
    /// the window `window_id`: the window to create (the screen's width, the
    /// initial height), and the requests that then show it.
    pub fn new(position: Position, screen_idx: usize, window_id: u32, screens: &Vec<ScreenInfo>)
        -> (r: Result<(Bar, WindowSpec, Vec<BarCommand>), BarError>)
        ensures
            match spec_screen_at(screens@, screen_idx) {
                Ok(screen) => r matches Ok((bar, w, cmds)) && {
                    &&& bar@ == BarView {
                        position,
                        screen_idx,
                        window_id,
                        width: screen.width_in_pixels,
                        height: INITIAL_HEIGHT,
                        content_groups: 0,
                    }
                    &&& is_window_spec(w, screen, window_id, screen.width_in_pixels, INITIAL_HEIGHT, 0)
                    &&& cmds@ == seq![BarCommand::MapWindow, BarCommand::Flush]
                },
                Err(e) => r matches Err(e2) && e2 == e,
            },
    {
        let height = INITIAL_HEIGHT;
        let w = match create_window(screens, screen_idx, window_id, height) {
            Ok(w) => w,
            Err(e) => return Err(e),
        };
        let bar = Bar { position, screen_idx, window_id, width: w.width, height, contents: Vec::new() };
        let mut cmds: Vec<BarCommand> = Vec::new();
        cmds.push(BarCommand::MapWindow);
        cmds.push(BarCommand::Flush);
        Ok((bar, w, cmds))
    }

    /// The screen the bar is on, or `InvalidScreen`.
    pub fn screen(&self, screens: &Vec<ScreenInfo>) -> (r: Result<ScreenInfo, BarError>)
        ensures
            r == spec_screen_at(screens@, self@.screen_idx),
    {
        screen_at(screens, self.screen_idx)
    }

    /// The requests that mark the bar's window as a dock and reserve the
    /// bar's height along its edge of the screen.
    pub fn set_ewmh_properties(&self) -> (cmds: Vec<BarCommand>)
        ensures
            cmds@ == spec_ewmh_commands(self@),
    {
        let mut strut_partial = StrutPartial {
            left: 0,
            right: 0,
            top: 0,
            bottom: 0,
            left_start_y: 0,
            left_end_y: 0,
            right_start_y: 0,
            right_end_y: 0,
            top_start_x: 0,
            top_end_x: 0,
            bottom_start_x: 0,
            bottom_end_x: 0,
        };
        match self.position {
            Position::Top => strut_partial.top = self.height as u32,
            Position::Bottom => strut_partial.bottom = self.height as u32,
        }
        let mut cmds: Vec<BarCommand> = Vec::new();
        cmds.push(BarCommand::SetWindowTypeDock);
        cmds.push(BarCommand::SetStrutPartial(strut_partial));
        cmds
    }

    /// Gives the bar `height`. Where the height changes, the window is moved
    /// (to the top edge, or so that it ends at the bottom edge of its
    /// screen), resized, mapped and raised, the surface resized and the
    /// reserved space updated; the requests are returned in that order.
    pub fn update_bar_height(&mut self, height: u16, screens: &Vec<ScreenInfo>) -> (r: Result<Vec<BarCommand>, BarError>)
        requires
            !height_underflows(old(self)@, height, screens@),
        ensures
            (final(self)@, commands_view(r)) == spec_update_bar_height(old(self)@, height, screens@),
    {
        if self.height == height {
            return Ok(Vec::new());
        }
        self.height = height;
        let y: u16 = match self.position {
            Position::Top => 0,
            Position::Bottom => match self.screen(screens) {
                Ok(screen) => screen.height_in_pixels - self.height,
                Err(e) => return Err(e),
            },
        };
        let mut cmds: Vec<BarCommand> = Vec::new();
        cmds.push(BarCommand::ConfigureWindow { y, height: self.height });
        cmds.push(BarCommand::MapWindow);
        cmds.push(BarCommand::ResizeSurface { width: self.width, height: self.height });
        let mut ewmh = self.set_ewmh_properties();
        cmds.append(&mut ewmh);
        assert(cmds@ =~= spec_height_commands(self@, y));
        Ok(cmds)
    }

    /// Redraws the bar: gives it the redraw height, then flushes.
    pub fn redraw(&mut self, screens: &Vec<ScreenInfo>) -> (r: Result<Vec<BarCommand>, BarError>)
        requires
            !height_underflows(old(self)@, REDRAW_HEIGHT, screens@),
        ensures
            (final(self)@, commands_view(r)) == spec_redraw(old(self)@, screens@),
    {
        let mut cmds = match self.update_bar_height(REDRAW_HEIGHT, screens) {
            Ok(cmds) => cmds,
            Err(e) => return Err(e),
        };
        cmds.push(BarCommand::Flush);
        Ok(cmds)
    }

    /// Updates the bar: redraws it, passing over a failed redraw.
    pub fn update(&mut self, screens: &Vec<ScreenInfo>) -> (r: Result<Vec<BarCommand>, BarError>)
        requires
            !height_underflows(old(self)@, REDRAW_HEIGHT, screens@),
        ensures
            r matches Ok(cmds) && (final(self)@, cmds@) == spec_update(old(self)@, screens@),
    {
        match self.redraw(screens) {
            Ok(cmds) => Ok(cmds),
            Err(_) => Ok(Vec::new()),
        }
    }

    /// Redraws one group of the bar's text, then flushes.
    fn redraw_content(&self, idx: usize) -> (r: Result<Vec<BarCommand>, BarError>)
        ensures
            r matches Ok(cmds) && cmds@ == seq![BarCommand::Flush],
    {
        let mut cmds: Vec<BarCommand> = Vec::new();
        cmds.push(BarCommand::Flush);
        Ok(cmds)
    }

    /// Redraws every group of the bar's text in turn: one flush for each.
    pub fn redraw_entire_bar(&mut self) -> (r: Result<Vec<BarCommand>, BarError>)
        ensures
            final(self)@ == old(self)@,
            r matches Ok(cmds)
                && cmds@ == Seq::new(old(self)@.content_groups, |i: int| BarCommand::Flush),
    {
        let mut cmds: Vec<BarCommand> = Vec::new();
        let n = self.contents.len();
        let mut idx: usize = 0;
        while idx < n
            invariant
                n == self.contents@.len(),
                idx <= n,
                cmds@ == Seq::new(idx as nat, |i: int| BarCommand::Flush),
            decreases n - idx,
        {
            let mut more = match self.redraw_content(idx) {
                Ok(more) => more,
                Err(e) => return Err(e),
            };
            cmds.append(&mut more);
            idx += 1;
            assert(cmds@ =~= Seq::new(idx as nat, |i: int| BarCommand::Flush));
        }
        Ok(cmds)
    }

    /// Handles an event from the bar's connection: whether it asks for the
    /// entire bar to be redrawn, which an exposure does.
    pub fn process_event(&mut self, event: RawEvent) -> (r: Result<bool, BarError>)
        ensures
            final(self)@ == old(self)@,
            r matches Ok(redraw) && redraw == (spec_event_kind(event.response_type) == EXPOSE),
    {
        let expose = event_kind(event.response_type) == EXPOSE;
        Ok(expose)
    }

    /// The edge the bar is docked to.
    pub fn position(&self) -> (p: Position)
        ensures
            p == self@.position,
    {
        self.position
    }

    /// The index of the bar's screen.
    pub fn screen_idx(&self) -> (idx: usize)
        ensures
            idx == self@.screen_idx,
    {
        self.screen_idx
    }

    /// The bar's window.
    pub fn window_id(&self) -> (id: u32)
        ensures
            id == self@.window_id,
    {
        self.window_id
    }

    /// The width of the bar's window.
    pub fn width(&self) -> (w: u16)
        ensures
            w == self@.width,
    {
        self.width
    }

    /// The height of the bar's window.
    pub fn height(&self) -> (h: u16)
        ensures
            h == self@.height,
    {
        self.height
    }
}

/// Giving the bar the height it already has changes nothing and asks for
/// nothing; so a second call with the same height, whatever the first one
/// gave, is a no-op.
pub proof fn lemma_update_bar_height_idempotent(bar: BarView, height: u16, screens: Seq<ScreenInfo>)
    ensures
        spec_update_bar_height(bar, height, screens).0.height == height,
        spec_update_bar_height(spec_update_bar_height(bar, height, screens).0, height, screens)
            == (spec_update_bar_height(bar, height, screens).0, Ok::<Seq<BarCommand>, BarError>(Seq::empty())),
{
}

/// Where giving the bar a new height succeeds, the bar takes that height and
/// keeps everything else, and five requests follow in this order: the window
/// is moved so that it lies against the bar's edge of the screen (at the top,
/// or ending at the bottom of the screen) with the new height; it is mapped;
/// the surface is resized to the bar's width and the new height; the window
/// is marked as a dock; and exactly the new height is reserved along the
/// bar's edge, nothing elsewhere. The change succeeds exactly when the bar is
/// at the top or its screen is there.
pub proof fn lemma_update_bar_height_docks(bar: BarView, height: u16, screens: Seq<ScreenInfo>)
    requires
        bar.height != height,
        !height_underflows(bar, height, screens),
    ensures
        (spec_update_bar_height(bar, height, screens).1 is Ok)
            == (bar.position is Top || bar.screen_idx < screens.len()),
        ({
            let next = spec_update_bar_height(bar, height, screens).0;
            &&& next.height == height
            &&& next.position == bar.position
            &&& next.screen_idx == bar.screen_idx
            &&& next.window_id == bar.window_id
            &&& next.width == bar.width
            &&& next.content_groups == bar.content_groups
        }),
        spec_update_bar_height(bar, height, screens).1 is Ok ==> ({
            let cmds = spec_update_bar_height(bar, height, screens).1->Ok_0;
            &&& cmds.len() == 5
            &&& cmds[0] matches BarCommand::ConfigureWindow { y, height: h } && h == height && match bar.position {
                Position::Top => y == 0,
                Position::Bottom => y + height == screens[bar.screen_idx as int].height_in_pixels,
            }
            &&& cmds[1] == BarCommand::MapWindow
            &&& cmds[2] == (BarCommand::ResizeSurface { width: bar.width, height })
            &&& cmds[3] == BarCommand::SetWindowTypeDock
            &&& cmds[4] matches BarCommand::SetStrutPartial(s) && {
                &&& s.top == (if bar.position is Top { height as u32 } else { 0u32 })
                &&& s.bottom == (if bar.position is Bottom { height as u32 } else { 0u32 })
                &&& s.left == 0 && s.right == 0
                &&& s.left_start_y == 0 && s.left_end_y == 0
                &&& s.right_start_y == 0 && s.right_end_y == 0
                &&& s.top_start_x == 0 && s.top_end_x == 0
                &&& s.bottom_start_x == 0 && s.bottom_end_x == 0
            }
        }),
{
}

/// Giving the bar the height it already has leaves it as it is and asks for
/// nothing.
pub proof fn lemma_update_bar_height_same(bar: BarView, screens: Seq<ScreenInfo>)
    ensures
        spec_update_bar_height(bar, bar.height, screens).0 == bar,
        spec_update_bar_height(bar, bar.height, screens).1 matches Ok(cmds) && cmds.len() == 0,
{
}

/// Marking the bar's window as a dock asks for two things: the dock window
/// type, then a strut that reserves exactly the bar's current height along
/// the bar's edge of the screen and nothing elsewhere.
pub proof fn lemma_ewmh_reserves_height(bar: BarView)
    ensures
        spec_ewmh_commands(bar).len() == 2,
        spec_ewmh_commands(bar)[0] == BarCommand::SetWindowTypeDock,
        spec_ewmh_commands(bar)[1] matches BarCommand::SetStrutPartial(s) && {
            &&& s.top == (if bar.position is Top { bar.height as u32 } else { 0u32 })
            &&& s.bottom == (if bar.position is Bottom { bar.height as u32 } else { 0u32 })
            &&& s.left == 0 && s.right == 0
            &&& s.left_start_y == 0 && s.left_end_y == 0
            &&& s.right_start_y == 0 && s.right_end_y == 0
            &&& s.top_start_x == 0 && s.top_end_x == 0
            &&& s.bottom_start_x == 0 && s.bottom_end_x == 0
        },
{
}

/// A redraw gives the bar the redraw height and succeeds exactly when that
/// does; its requests are then those of the height change followed by one
/// flush, so a redraw always ends with a flush.
pub proof fn lemma_redraw_is_resize_then_flush(bar: BarView, screens: Seq<ScreenInfo>)
    ensures
        spec_redraw(bar, screens).0 == spec_update_bar_height(bar, REDRAW_HEIGHT, screens).0,
        (spec_redraw(bar, screens).1 is Ok) == (spec_update_bar_height(bar, REDRAW_HEIGHT, screens).1 is Ok),
        spec_redraw(bar, screens).1 is Ok ==> ({
            let cmds = spec_redraw(bar, screens).1->Ok_0;
            &&& cmds.len() >= 1
            &&& cmds.last() == BarCommand::Flush
            &&& cmds.drop_last() == spec_update_bar_height(bar, REDRAW_HEIGHT, screens).1->Ok_0
        }),
        spec_redraw(bar, screens).1 is Err ==> spec_redraw(bar, screens).1 == spec_update_bar_height(bar, REDRAW_HEIGHT, screens).1,
{
    let r = spec_update_bar_height(bar, REDRAW_HEIGHT, screens).1;
    if r is Ok {
        assert(r->Ok_0.push(BarCommand::Flush).drop_last() =~= r->Ok_0);
    }
}

/// An update does what a redraw does: the same bar, and where the redraw
/// succeeds exactly its requests (ending with a flush); where the redraw
/// fails, no requests.
pub proof fn lemma_update_is_redraw(bar: BarView, screens: Seq<ScreenInfo>)
    ensures
        spec_update(bar, screens).0 == spec_redraw(bar, screens).0,
        spec_redraw(bar, screens).1 is Ok ==> spec_update(bar, screens).1 == spec_redraw(bar, screens).1->Ok_0,
        spec_redraw(bar, screens).1 is Ok ==> spec_update(bar, screens).1.last() == BarCommand::Flush,
        spec_redraw(bar, screens).1 is Err ==> spec_update(bar, screens).1.len() == 0,
{
    lemma_redraw_is_resize_then_flush(bar, screens);
}

/// A bar docked at the bottom of a screen that is not there cannot be given
/// a new height; the bar still takes the new height.
pub proof fn lemma_update_bar_height_invalid_screen(bar: BarView, height: u16, screens: Seq<ScreenInfo>)
    requires
        bar.height != height,
        (bar.position is Bottom),
        bar.screen_idx >= screens.len(),
    ensures
        (spec_update_bar_height(bar, height, screens).1 matches Err(e) && e is InvalidScreen),
        spec_update_bar_height(bar, height, screens).0 == (BarView { height, ..bar }),
{
}

/// Once a redraw has succeeded, redrawing again only flushes.
pub proof fn lemma_redraw_twice(bar: BarView, screens: Seq<ScreenInfo>)
    requires
        spec_redraw(bar, screens).1 is Ok,
    ensures
        spec_redraw(spec_redraw(bar, screens).0, screens)
            == (spec_redraw(bar, screens).0, Ok::<Seq<BarCommand>, BarError>(seq![BarCommand::Flush])),
{
    assert(Seq::<BarCommand>::empty().push(BarCommand::Flush) =~= seq![BarCommand::Flush]);
}

/// After a redraw or an update the bar has the redraw height, whether or
/// not its screen could be found.
pub proof fn lemma_redraw_sets_height(bar: BarView, screens: Seq<ScreenInfo>)
    ensures
        spec_redraw(bar, screens).0.height == REDRAW_HEIGHT,
        spec_update(bar, screens).0.height == REDRAW_HEIGHT,
        spec_update(bar, screens).0 == spec_redraw(bar, screens).0,
{
}

/// The bar asks to be redrawn on exactly the events on which the event loop
/// reports an exposure.
pub proof fn lemma_redraw_on_exposure(event: RawEvent)
    ensures
        (spec_event_kind(event.response_type) == EXPOSE) == (spec_next_action(Some(event)) is Exposed),
{
}

/// A new bar's window is one pixel high; a redraw makes it 35 pixels high.
pub proof fn lemma_bar_heights()
    ensures
        INITIAL_HEIGHT == 1,
        REDRAW_HEIGHT == 35,
{
}

} // verus!
