use rw::bar::{Bar, ComputedText, Position};
use rw::error::BarError;
use rw::event::RawEvent;
use rw::screen::ScreenInfo;
use rw::window::{configure_values, create_window, run_plan, BarCommand, StrutPartial};

fn screen(width: u16, height: u16) -> ScreenInfo {
    ScreenInfo {
        root: 0x1e5,
        root_visual: 0x21,
        width_in_pixels: width,
        height_in_pixels: height,
        white_pixel: 0xffffff,
        black_pixel: 0,
    }
}

fn strut(top: u32, bottom: u32) -> StrutPartial {
    StrutPartial {
        left: 0,
        right: 0,
        top,
        bottom,
        left_start_y: 0,
        left_end_y: 0,
        right_start_y: 0,
        right_end_y: 0,
        top_start_x: 0,
        top_end_x: 0,
        bottom_start_x: 0,
        bottom_end_x: 0,
    }
}

#[test]
fn new_bar_spans_the_screen() {
    let screens = vec![screen(800, 600), screen(1920, 1080)];
    let (bar, w, cmds) = Bar::new(Position::Bottom, 1, 0x400001, &screens).unwrap();
    assert_eq!(bar.position(), Position::Bottom);
    assert_eq!(bar.screen_idx(), 1);
    assert_eq!(bar.window_id(), 0x400001);
    assert_eq!(bar.width(), 1920);
    assert_eq!(bar.height(), 1);
    assert_eq!(w.width, 1920);
    assert_eq!(w.height, 1);
    assert_eq!((w.x, w.y, w.border_width), (0, 0, 0));
    assert_eq!(w.parent, 0x1e5);
    assert_eq!(w.visual, 0x21);
    assert_eq!(w.depth, 0);
    assert_eq!(w.class, 1);
    assert_eq!(w.window_id, 0x400001);
    assert_eq!(w.values, vec![(0x2, 0xffffff), (0x800, 0x8001)]);
    assert_eq!(cmds, vec![BarCommand::MapWindow, BarCommand::Flush]);
}

#[test]
fn new_bar_on_missing_screen() {
    let screens = vec![screen(800, 600)];
    assert!(matches!(Bar::new(Position::Top, 1, 7, &screens), Err(BarError::InvalidScreen)));
    assert!(matches!(create_window(&screens, 5, 7, 1), Err(BarError::InvalidScreen)));
}

#[test]
fn redraw_bottom_bar() {
    let screens = vec![screen(1024, 768)];
    let (mut bar, _, _) = Bar::new(Position::Bottom, 0, 9, &screens).unwrap();
    let cmds = bar.redraw(&screens).unwrap();
    assert_eq!(
        cmds,
        vec![
            BarCommand::ConfigureWindow { y: 733, height: 35 },
            BarCommand::MapWindow,
            BarCommand::ResizeSurface { width: 1024, height: 35 },
            BarCommand::SetWindowTypeDock,
            BarCommand::SetStrutPartial(strut(0, 35)),
            BarCommand::Flush,
        ]
    );
    assert_eq!(bar.height(), 35);
}

#[test]
fn redraw_top_bar() {
    let screens = vec![screen(1024, 768)];
    let (mut bar, _, _) = Bar::new(Position::Top, 0, 9, &screens).unwrap();
    let cmds = bar.redraw(&screens).unwrap();
    assert_eq!(cmds[0], BarCommand::ConfigureWindow { y: 0, height: 35 });
    assert_eq!(cmds[4], BarCommand::SetStrutPartial(strut(35, 0)));
}

#[test]
fn second_redraw_only_flushes() {
    let screens = vec![screen(1024, 768)];
    let (mut bar, _, _) = Bar::new(Position::Bottom, 0, 9, &screens).unwrap();
    bar.redraw(&screens).unwrap();
    assert_eq!(bar.redraw(&screens).unwrap(), vec![BarCommand::Flush]);
}

#[test]
fn same_height_is_a_no_op() {
    let screens = vec![screen(1024, 768)];
    let (mut bar, _, _) = Bar::new(Position::Bottom, 0, 9, &screens).unwrap();
    assert_eq!(bar.update_bar_height(1, &screens).unwrap(), vec![]);
    assert_eq!(bar.update_bar_height(50, &screens).unwrap().len(), 5);
    assert_eq!(bar.update_bar_height(50, &screens).unwrap(), vec![]);
    assert_eq!(bar.height(), 50);
}

#[test]
fn bottom_bar_ends_at_screen_bottom() {
    let screens = vec![screen(640, 480)];
    let (mut bar, _, _) = Bar::new(Position::Bottom, 0, 9, &screens).unwrap();
    let cmds = bar.update_bar_height(480, &screens).unwrap();
    assert_eq!(cmds[0], BarCommand::ConfigureWindow { y: 0, height: 480 });
}

#[test]
fn resize_with_lost_screen_fails_but_keeps_height() {
    let screens = vec![screen(1024, 768)];
    let (mut bar, _, _) = Bar::new(Position::Bottom, 0, 9, &screens).unwrap();
    let none: Vec<ScreenInfo> = Vec::new();
    assert!(matches!(bar.redraw(&none), Err(BarError::InvalidScreen)));
    assert_eq!(bar.height(), 35);
    assert_eq!(bar.redraw(&none).unwrap(), vec![BarCommand::Flush]);
}

#[test]
fn top_bar_needs_no_screen() {
    let screens = vec![screen(1024, 768)];
    let (mut bar, _, _) = Bar::new(Position::Top, 0, 9, &screens).unwrap();
    let none: Vec<ScreenInfo> = Vec::new();
    assert_eq!(bar.redraw(&none).unwrap().len(), 6);
}

#[test]
fn update_passes_over_failed_redraw() {
    let screens = vec![screen(1024, 768)];
    let (mut bar, _, _) = Bar::new(Position::Bottom, 0, 9, &screens).unwrap();
    let none: Vec<ScreenInfo> = Vec::new();
    assert_eq!(bar.update(&none).unwrap(), vec![]);
    assert_eq!(bar.height(), 35);
    let (mut bar, _, _) = Bar::new(Position::Bottom, 0, 9, &screens).unwrap();
    assert_eq!(bar.update(&screens).unwrap().len(), 6);
}

#[test]
fn ewmh_properties_reserve_bar_height() {
    let screens = vec![screen(1024, 768)];
    let (bar, _, _) = Bar::new(Position::Top, 0, 9, &screens).unwrap();
    assert_eq!(
        bar.set_ewmh_properties(),
        vec![BarCommand::SetWindowTypeDock, BarCommand::SetStrutPartial(strut(1, 0))]
    );
    let (bar, _, _) = Bar::new(Position::Bottom, 0, 9, &screens).unwrap();
    assert_eq!(bar.set_ewmh_properties()[1], BarCommand::SetStrutPartial(strut(0, 1)));
}

#[test]
fn screen_of_bar() {
    let screens = vec![screen(1024, 768)];
    let (bar, _, _) = Bar::new(Position::Top, 0, 9, &screens).unwrap();
    assert_eq!(bar.screen(&screens).unwrap(), screen(1024, 768));
    assert!(matches!(bar.screen(&Vec::new()), Err(BarError::InvalidScreen)));
}

#[test]
fn process_event_asks_redraw_on_exposure() {
    let screens = vec![screen(1024, 768)];
    let (mut bar, _, _) = Bar::new(Position::Top, 0, 9, &screens).unwrap();
    assert!(bar.process_event(RawEvent { response_type: 12, detail: 0 }).unwrap());
    assert!(bar.process_event(RawEvent { response_type: 0x8c, detail: 0 }).unwrap());
    assert!(!bar.process_event(RawEvent { response_type: 2, detail: 24 }).unwrap());
}

#[test]
fn redraw_entire_bar_without_contents() {
    let screens = vec![screen(1024, 768)];
    let (mut bar, _, _) = Bar::new(Position::Top, 0, 9, &screens).unwrap();
    assert_eq!(bar.redraw_entire_bar().unwrap(), vec![]);
    assert_eq!(bar.height(), 1);
    ComputedText::render();
}

#[test]
fn configure_values_move_resize_raise() {
    assert_eq!(configure_values(733, 35), vec![(0x2, 733), (0x8, 35), (0x40, 0)]);
}

#[test]
fn run_plan_docks_test_window() {
    let s = screen(1024, 768);
    let (w, cmds) = run_plan(&s, 5);
    assert_eq!((w.width, w.height, w.border_width), (150, 150, 10));
    assert_eq!(w.values, vec![(0x2, 0xffffff), (0x800, 0x8001)]);
    assert_eq!(
        cmds,
        vec![BarCommand::ConfigureWindow { y: 733, height: 35 }, BarCommand::MapWindow, BarCommand::Flush]
    );
}

#[test]
fn sketch_bars() {
    let b = rw::generic_bar::Bar::new("hello world");
    assert_eq!(b.contents, "hello world");
    let n = rw::numbered_bar::Bar::new(1982).unwrap();
    assert_eq!(n.a, 1982);
}
