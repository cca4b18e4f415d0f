use rw::error::BarError;
use rw::screen::{find_root_visual, get_root_visual_type, screen_at, xcb_connect, ScreenInfo};

fn screen(root_visual: u32) -> ScreenInfo {
    ScreenInfo {
        root: 0x1e5,
        root_visual,
        width_in_pixels: 1920,
        height_in_pixels: 1080,
        white_pixel: 0xffffff,
        black_pixel: 0,
    }
}

#[test]
fn connect_gives_screen_index() {
    assert!(matches!(xcb_connect(Some(0)), Ok(0)));
    assert!(matches!(xcb_connect(Some(3)), Ok(3)));
    assert!(matches!(xcb_connect(None), Err(BarError::ConnectFailed)));
}

#[test]
fn connect_with_negative_screen_number_wraps() {
    assert!(matches!(xcb_connect(Some(-1)), Ok(idx) if idx == usize::MAX));
}

#[test]
fn screen_lookup() {
    let screens = vec![screen(0x21), screen(0x22)];
    assert_eq!(screen_at(&screens, 1).unwrap(), screen(0x22));
    assert!(matches!(screen_at(&screens, 2), Err(BarError::InvalidScreen)));
    assert!(matches!(screen_at(&Vec::new(), 0), Err(BarError::InvalidScreen)));
}

#[test]
fn root_visual_is_found_first_in_order() {
    let visuals = vec![
        vec![vec![0x20, 0x21], vec![]],
        vec![vec![0x22], vec![0x21, 0x23]],
    ];
    assert_eq!(get_root_visual_type(&visuals, &screen(0x21)), (0, 0, 1));
    assert_eq!(get_root_visual_type(&visuals, &screen(0x23)), (1, 1, 1));
    assert_eq!(get_root_visual_type(&visuals, &screen(0x22)), (1, 0, 0));
    assert_eq!(find_root_visual(&visuals, &screen(0x23)), Some((1, 1, 1)));
}

#[test]
fn missing_root_visual_is_none() {
    let visuals = vec![vec![vec![0x20, 0x21]], vec![]];
    assert_eq!(find_root_visual(&visuals, &screen(0x99)), None);
    assert_eq!(find_root_visual(&Vec::new(), &screen(0x21)), None);
}

#[test]
fn error_messages() {
    assert_eq!(BarError::ConnectFailed.message(), "Failed to connect to X server");
    assert_eq!(
        BarError::EwmhWrapFailed.message(),
        "Failed to wrap xcb::Connection in ewmh::Connection"
    );
    assert_eq!(BarError::InvalidScreen.message(), "Invalid screen");
    assert_eq!(
        BarError::SurfaceCreate("InvalidSize".to_string()).message(),
        "XCBSurface::create: InvalidSize"
    );
}
