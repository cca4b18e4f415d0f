//! The screens of a display as the bar reads them, the choice of the bar's
//! screen, and the search for the visual of a screen's root window.

use vstd::prelude::*;
use crate::error::BarError;

verus! {

/// What the bar reads of one screen of the display.
#[derive(Clone, Copy, Debug, PartialEq, Eq, Structural)]
pub struct ScreenInfo {
    /// The screen's root window.
    pub root: u32,
    /// The visual of the root window.
    pub root_visual: u32,
    pub width_in_pixels: u16,
    pub height_in_pixels: u16,
    pub white_pixel: u32,
    pub black_pixel: u32,
}

/// The screen index that connecting to the X server yields: the preferred
/// screen number reinterpreted as an index, or a failure to connect.
pub fn xcb_connect(connected: Option<i32>) -> (r: Result<usize, BarError>)
    ensures
        match connected {
            None => r matches Err(e) && e is ConnectFailed,
            Some(n) => r matches Ok(idx) && idx == n as usize,
        },
{
    match connected {
        None => Err(BarError::ConnectFailed),
        Some(n) => Ok(n as usize),
    }
}

/// The screen at `idx` among the display's screens, or `InvalidScreen`.
pub open spec fn spec_screen_at(screens: Seq<ScreenInfo>, idx: usize) -> Result<ScreenInfo, BarError> {
    if idx < screens.len() {
        Ok(screens[idx as int])
    } else {
        Err(BarError::InvalidScreen)
    }
}

/// Looks up the screen at `idx`; an index past the last screen is an error.
pub fn screen_at(screens: &Vec<ScreenInfo>, idx: usize) -> (r: Result<ScreenInfo, BarError>)
    ensures
        r == spec_screen_at(screens@, idx),
{
    if idx < screens.len() {
        Ok(screens[idx])
    } else {
        Err(BarError::InvalidScreen)
    }
}

/// Whether position `(i, j, k)` of `visuals` (roots, their allowed depths,
/// and the visual ids of each depth) holds the visual id `id`.
pub open spec fn visual_at(visuals: Seq<Seq<Seq<u32>>>, id: u32, i: int, j: int, k: int) -> bool {
    &&& 0 <= i < visuals.len()
    &&& 0 <= j < visuals[i].len()
    &&& 0 <= k < visuals[i][j].len()
    &&& visuals[i][j][k] == id
}

/// Whether `(a, b, c)` comes before `(i, j, k)` in the order of the search.
pub open spec fn search_before(a: int, b: int, c: int, i: int, j: int, k: int) -> bool {
    a < i || (a == i && b < j) || (a == i && b == j && c < k)
}

/// Finds the first visual, over all roots and their allowed depths in order,
/// whose id is the root visual of `screen`; its position, or `None` if no
/// depth of any root lists it.
pub fn find_root_visual(visuals: &Vec<Vec<Vec<u32>>>, screen: &ScreenInfo) -> (r: Option<(usize, usize, usize)>)
    ensures
        match r {
            Some((i, j, k)) => {
                &&& visual_at(visuals.deep_view(), screen.root_visual, i as int, j as int, k as int)
                &&& forall|a: int, b: int, c: int|
                    #[trigger] visual_at(visuals.deep_view(), screen.root_visual, a, b, c)
                        ==> !search_before(a, b, c, i as int, j as int, k as int)
            },
            None => forall|a: int, b: int, c: int|
                !#[trigger] visual_at(visuals.deep_view(), screen.root_visual, a, b, c),
        },
{
    let ghost v = visuals.deep_view();
    let id = screen.root_visual;
    let mut i: usize = 0;
    while i < visuals.len()
        invariant
            v == visuals.deep_view(),
            id == screen.root_visual,
            i <= visuals.len(),
            forall|a: int, b: int, c: int| #[trigger] visual_at(v, id, a, b, c) ==> a >= i,
        decreases visuals.len() - i,
    {
        let depths = &visuals[i];
        let mut j: usize = 0;
        while j < depths.len()
            invariant
                v == visuals.deep_view(),
                id == screen.root_visual,
                i < visuals.len(),
                depths@ == visuals@[i as int]@,
                j <= depths.len(),
                forall|a: int, b: int, c: int| #[trigger] visual_at(v, id, a, b, c)
                    ==> a > i || (a == i && b >= j),
            decreases depths.len() - j,
        {
            let ids = &depths[j];
            let mut k: usize = 0;
            while k < ids.len()
                invariant
                    v == visuals.deep_view(),
                    id == screen.root_visual,
                    i < visuals.len(),
                    depths@ == visuals@[i as int]@,
                    j < depths.len(),
                    ids@ == depths@[j as int]@,
                    k <= ids.len(),
                    forall|a: int, b: int, c: int| #[trigger] visual_at(v, id, a, b, c)
                        ==> a > i || (a == i && b > j) || (a == i && b == j && c >= k),
                decreases ids.len() - k,
            {
                if ids[k] == id {
                    assert(visual_at(v, id, i as int, j as int, k as int));
                    return Some((i, j, k));
                }
                k += 1;
            }
            j += 1;
        }
        i += 1;
    }
    None
}

/// Whether some allowed depth of some root lists the root visual of `screen`.
pub open spec fn lists_root_visual(visuals: Seq<Seq<Seq<u32>>>, screen: ScreenInfo) -> bool {
    exists|a: int, b: int, c: int| #[trigger] visual_at(visuals, screen.root_visual, a, b, c)
}

/// The position of the first visual, over all roots and their allowed depths
/// in order, whose id is the root visual of `screen`; one must be listed.
pub fn get_root_visual_type(visuals: &Vec<Vec<Vec<u32>>>, screen: &ScreenInfo) -> (r: (usize, usize, usize))
    requires
        lists_root_visual(visuals.deep_view(), *screen),
    ensures
        visual_at(visuals.deep_view(), screen.root_visual, r.0 as int, r.1 as int, r.2 as int),
        forall|a: int, b: int, c: int|
            #[trigger] visual_at(visuals.deep_view(), screen.root_visual, a, b, c)
                ==> !search_before(a, b, c, r.0 as int, r.1 as int, r.2 as int),
{
    match find_root_visual(visuals, screen) {
        Some(r) => r,
        None => {
            proof {
                let (a, b, c) = choose|a: int, b: int, c: int| #[trigger] visual_at(visuals.deep_view(), screen.root_visual, a, b, c);
                assert(visual_at(visuals.deep_view(), screen.root_visual, a, b, c));
            }
            (0, 0, 0)
        },
    }
}

/// Looking up a screen gives the screen at that index where there is one,
/// and `InvalidScreen` exactly where the index is past the last screen.
pub proof fn lemma_screen_at(screens: Seq<ScreenInfo>, idx: usize)
    ensures
        idx < screens.len() ==> spec_screen_at(screens, idx) == Ok::<ScreenInfo, BarError>(screens[idx as int]),
        idx >= screens.len() ==> (spec_screen_at(screens, idx) matches Err(e) && e is InvalidScreen),
{
}

/// The position that the root-visual search reports holds the root visual,
/// and no earlier position (an earlier root, an earlier depth of the same
/// root, or an earlier visual of the same depth) holds it.
pub proof fn lemma_found_visual_is_first(visuals: Seq<Seq<Seq<u32>>>, id: u32, i: int, j: int, k: int)
    requires
        visual_at(visuals, id, i, j, k),
        forall|a: int, b: int, c: int| #[trigger] visual_at(visuals, id, a, b, c) ==> !search_before(a, b, c, i, j, k),
    ensures
        0 <= i < visuals.len() && 0 <= j < visuals[i].len() && 0 <= k < visuals[i][j].len(),
        visuals[i][j][k] == id,
        forall|a: int, b: int, c: int|
            0 <= a < i && 0 <= b < visuals[a].len() && 0 <= c < visuals[a][b].len() ==> #[trigger] visuals[a][b][c] != id,
        forall|b: int, c: int|
            0 <= b < j && 0 <= c < visuals[i][b].len() ==> #[trigger] visuals[i][b][c] != id,
        forall|c: int| 0 <= c < k ==> #[trigger] visuals[i][j][c] != id,
{
    assert forall|a: int, b: int, c: int|
        0 <= a < i && 0 <= b < visuals[a].len() && 0 <= c < visuals[a][b].len() implies #[trigger] visuals[a][b][c] != id by {
        if visuals[a][b][c] == id {
            assert(visual_at(visuals, id, a, b, c));
        }
    }
    assert forall|b: int, c: int|
        0 <= b < j && 0 <= c < visuals[i][b].len() implies #[trigger] visuals[i][b][c] != id by {
        if visuals[i][b][c] == id {
            assert(visual_at(visuals, id, i, b, c));
        }
    }
    assert forall|c: int| 0 <= c < k implies #[trigger] visuals[i][j][c] != id by {
        if visuals[i][j][c] == id {
            assert(visual_at(visuals, id, i, j, c));
        }
    }
}

/// Where the search finds nothing, no visual of any depth of any root has
/// the root visual's id.
pub proof fn lemma_no_visual_found(visuals: Seq<Seq<Seq<u32>>>, id: u32)
    requires
        forall|a: int, b: int, c: int| !#[trigger] visual_at(visuals, id, a, b, c),
    ensures
        forall|a: int, b: int, c: int|
            0 <= a < visuals.len() && 0 <= b < visuals[a].len() && 0 <= c < visuals[a][b].len()
                ==> #[trigger] visuals[a][b][c] != id,
{
    assert forall|a: int, b: int, c: int|
        0 <= a < visuals.len() && 0 <= b < visuals[a].len() && 0 <= c < visuals[a][b].len()
            implies #[trigger] visuals[a][b][c] != id by {
        assert(!visual_at(visuals, id, a, b, c));
    }
}

} // verus!
