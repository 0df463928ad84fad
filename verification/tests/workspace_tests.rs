use brwm::config::Config;
use brwm::wm::request::{Geometry, Request, ScreenInfo};
use brwm::wm::workspace::Workspace;

fn config() -> Config {
    Config { root: 1, gap: 16, border: 2, keybindings: Vec::new(), protocol_atom: 70, delete_atom: 71 }
}

fn screen() -> ScreenInfo {
    ScreenInfo { x_org: 0, y_org: 0, width: 1000, height: 800 }
}

fn configure(window: u32, x: i32, y: i32, width: i32, height: i32) -> Request {
    Request::Configure { window, geometry: Geometry { x, y, width, height }, border_width: None }
}

fn configure_full(window: u32, x: i32, y: i32, width: i32, height: i32) -> Request {
    Request::Configure { window, geometry: Geometry { x, y, width, height }, border_width: Some(0) }
}

fn plain(window: u32) -> Vec<Request> {
    vec![Request::GrabButton { window }, Request::SetBorderColor { window, pixel: 0x8b8378 }]
}

fn highlighted(window: u32) -> Vec<Request> {
    vec![
        Request::UngrabButton { window },
        Request::SetBorderColor { window, pixel: 0x00bfff },
        Request::Raise { window },
        Request::SetInputFocus { window },
    ]
}

#[test]
fn new_workspace_is_empty_and_inactive() {
    let cfg = config();
    let ws = Workspace::new(&ScreenInfo { x_org: -5, y_org: 7, width: 1001, height: 600 }, &cfg);
    assert_eq!((ws.x, ws.y, ws.width, ws.height), (-5, 7, 1001, 600));
    assert_eq!(ws.master_width, 500);
    assert!(ws.windows.is_empty());
    assert_eq!(ws.focused, 0);
    assert!(!ws.active);
    assert!(!ws.is_full);
}

#[test]
fn set_focus_takes_index_modulo_window_count() {
    let cfg = config();
    let mut ws = Workspace::new(&screen(), &cfg);
    ws.add_window(10);
    ws.add_window(11);
    ws.add_window(12);
    ws.set_focus(7);
    assert_eq!(ws.focused, 1);
    ws.set_focus(3);
    assert_eq!(ws.focused, 0);
    ws.set_focus(2);
    assert_eq!(ws.focused, 2);
}

#[test]
fn set_focus_on_empty_workspace_resets_to_zero() {
    let cfg = config();
    let mut ws = Workspace::new(&screen(), &cfg);
    ws.focused = 5;
    let out = ws.set_focus(9);
    assert_eq!(ws.focused, 0);
    assert!(out.is_empty());
}

#[test]
fn set_focus_styles_every_window() {
    let cfg = config();
    let mut ws = Workspace::new(&screen(), &cfg);
    ws.add_window(10);
    ws.add_window(11);
    ws.active = true;
    let out = ws.set_focus(1);
    let mut expected = plain(11);
    expected.extend(highlighted(10));
    assert_eq!(out, expected);
}

#[test]
fn inactive_workspace_highlights_no_window() {
    let cfg = config();
    let mut ws = Workspace::new(&screen(), &cfg);
    ws.add_window(10);
    ws.add_window(11);
    let out = ws.set_focus(1);
    let mut expected = plain(11);
    expected.extend(plain(10));
    assert_eq!(out, expected);
    assert_eq!(ws.focused, 1);
}

#[test]
fn add_window_puts_it_first_and_focuses_it() {
    let cfg = config();
    let mut ws = Workspace::new(&screen(), &cfg);
    ws.add_window(10);
    ws.add_window(11);
    ws.set_focus(1);
    let out = ws.add_window(12);
    assert_eq!(ws.windows, vec![12, 11, 10]);
    assert_eq!(ws.focused, 0);
    assert_eq!(out[0], Request::SetBorderWidth { window: 12, width: 3 });
    let mut expected = vec![Request::SetBorderWidth { window: 12, width: 3 }];
    expected.extend(plain(12));
    expected.extend(plain(11));
    expected.extend(plain(10));
    expected.push(configure(12, 16, 16, 468, 768));
    expected.push(configure(11, 500, 16, 484, 384));
    expected.push(configure(10, 500, 416, 484, 368));
    assert_eq!(out, expected);
}

#[test]
fn add_window_in_fullscreen_has_no_border() {
    let cfg = config();
    let mut ws = Workspace::new(&screen(), &cfg);
    ws.toggle_full();
    let out = ws.add_window(10);
    assert_eq!(out[0], Request::SetBorderWidth { window: 10, width: 0 });
}

#[test]
fn remove_absent_window_changes_nothing() {
    let cfg = config();
    let mut ws = Workspace::new(&screen(), &cfg);
    ws.add_window(10);
    ws.add_window(11);
    ws.set_focus(1);
    let (removed, out) = ws.remove_window(99);
    assert_eq!(removed, None);
    assert!(out.is_empty());
    assert_eq!(ws.windows, vec![11, 10]);
    assert_eq!(ws.focused, 1);
    let (again, out) = ws.remove_window(99);
    assert_eq!(again, None);
    assert!(out.is_empty());
    assert_eq!(ws.windows, vec![11, 10]);
}

#[test]
fn remove_window_returns_it_and_reclamps_focus() {
    let cfg = config();
    let mut ws = Workspace::new(&screen(), &cfg);
    ws.add_window(10);
    ws.add_window(11);
    ws.add_window(12);
    ws.set_focus(2);
    let (removed, out) = ws.remove_window(11);
    assert_eq!(removed, Some(11));
    assert_eq!(ws.windows, vec![12, 10]);
    assert_eq!(ws.focused, 0);
    let mut expected = plain(12);
    expected.extend(plain(10));
    expected.push(configure(12, 16, 16, 468, 768));
    expected.push(configure(10, 500, 16, 484, 768));
    assert_eq!(out, expected);
    let (again, out) = ws.remove_window(11);
    assert_eq!(again, None);
    assert!(out.is_empty());
}

#[test]
fn remove_focused_takes_the_focused_window() {
    let cfg = config();
    let mut ws = Workspace::new(&screen(), &cfg);
    assert_eq!(ws.remove_focused().0, None);
    ws.add_window(10);
    ws.add_window(11);
    ws.set_focus(1);
    let (removed, _) = ws.remove_focused();
    assert_eq!(removed, Some(10));
    assert_eq!(ws.windows, vec![11]);
    assert_eq!(ws.focused, 0);
}

#[test]
fn tile_of_empty_workspace_asks_nothing() {
    let cfg = config();
    let ws = Workspace::new(&screen(), &cfg);
    assert!(ws.tile().is_empty());
}

#[test]
fn single_window_is_inset_by_the_gap() {
    let cfg = config();
    let mut ws = Workspace::new(&ScreenInfo { x_org: 100, y_org: -20, width: 1000, height: 800 }, &cfg);
    ws.add_window(10);
    let out = ws.tile();
    assert_eq!(out, vec![configure(10, 116, -4, 968, 768)]);
    match &out[0] {
        Request::Configure { geometry, .. } => {
            assert!(geometry.x >= 100 && geometry.x + geometry.width <= 1100);
            assert!(geometry.y >= -20 && geometry.y + geometry.height <= 780);
        }
        _ => panic!("expected a configure request"),
    }
}

#[test]
fn master_and_stack_do_not_overlap() {
    let cfg = config();
    let mut ws = Workspace::new(&screen(), &cfg);
    ws.add_window(10);
    ws.add_window(11);
    ws.add_window(12);
    ws.add_window(13);
    let out = ws.tile();
    assert_eq!(
        out,
        vec![
            configure(13, 16, 16, 468, 768),
            configure(12, 500, 16, 484, 250),
            configure(11, 500, 282, 484, 250),
            configure(10, 500, 548, 484, 234),
        ]
    );
}

#[test]
fn three_windows_on_a_thousand_by_eight_hundred() {
    let cfg = config();
    let mut ws = Workspace::new(&screen(), &cfg);
    ws.add_window(1);
    ws.add_window(2);
    ws.add_window(3);
    assert_eq!(ws.windows, vec![3, 2, 1]);
    assert_eq!(ws.master_width, 500);
    let out = ws.tile();
    assert_eq!(
        out,
        vec![
            configure(3, 16, 16, 468, 768),
            configure(2, 500, 16, 484, 384),
            configure(1, 500, 416, 484, 368),
        ]
    );
}

#[test]
fn master_first_then_the_stack_in_list_order() {
    let cfg = config();
    let mut ws = Workspace::new(&screen(), &cfg);
    ws.windows = vec![1, 2, 3];
    let out = ws.tile();
    assert_eq!(
        out,
        vec![
            configure(1, 16, 16, 468, 768),
            configure(2, 500, 16, 484, 384),
            configure(3, 500, 416, 484, 368),
        ]
    );
}

#[test]
fn fullscreen_gives_every_window_the_region() {
    let cfg = config();
    let mut ws = Workspace::new(&screen(), &cfg);
    ws.add_window(10);
    ws.add_window(11);
    let out = ws.toggle_full();
    assert!(ws.is_full);
    assert_eq!(
        out,
        vec![
            Request::SetBorderWidth { window: 11, width: 0 },
            Request::SetBorderWidth { window: 10, width: 0 },
            configure_full(11, 0, 0, 1000, 800),
            configure_full(10, 0, 0, 1000, 800),
        ]
    );
}

#[test]
fn toggle_full_twice_restores_borders_and_layout() {
    let cfg = config();
    let mut ws = Workspace::new(&screen(), &cfg);
    ws.add_window(10);
    ws.add_window(11);
    let before = ws.tile();
    ws.toggle_full();
    let out = ws.toggle_full();
    assert!(!ws.is_full);
    assert_eq!(ws.tile(), before);
    assert_eq!(
        out,
        vec![
            Request::SetBorderWidth { window: 11, width: 3 },
            Request::SetBorderWidth { window: 10, width: 3 },
            configure(11, 16, 16, 468, 768),
            configure(10, 500, 16, 484, 768),
        ]
    );
}

#[test]
fn set_master_width_is_held_to_its_range() {
    let cfg = config();
    let mut ws = Workspace::new(&screen(), &cfg);
    ws.add_window(10);
    ws.set_master_width(5);
    assert_eq!(ws.master_width, 100);
    ws.set_master_width(60000);
    assert_eq!(ws.master_width, 900);
    ws.set_master_width(640);
    assert_eq!(ws.master_width, 640);
    ws.set_master_width(100);
    assert_eq!(ws.master_width, 100);
    ws.set_master_width(901);
    assert_eq!(ws.master_width, 900);
}

#[test]
fn set_master_width_on_wide_region_does_not_wrap() {
    let cfg = config();
    let mut ws = Workspace::new(&ScreenInfo { x_org: 0, y_org: 0, width: 60000, height: 800 }, &cfg);
    ws.add_window(10);
    ws.set_master_width(65535);
    assert_eq!(ws.master_width, 54000);
    ws.set_master_width(0);
    assert_eq!(ws.master_width, 6000);
}

#[test]
fn set_master_width_without_windows_does_nothing() {
    let cfg = config();
    let mut ws = Workspace::new(&screen(), &cfg);
    let out = ws.set_master_width(5);
    assert!(out.is_empty());
    assert_eq!(ws.master_width, 500);
}

#[test]
fn set_master_width_retiles() {
    let cfg = config();
    let mut ws = Workspace::new(&screen(), &cfg);
    ws.add_window(10);
    ws.add_window(11);
    let out = ws.set_master_width(600);
    assert_eq!(out, vec![configure(11, 16, 16, 568, 768), configure(10, 600, 16, 384, 768)]);
}

#[test]
fn set_active_restyles_the_focused_window() {
    let cfg = config();
    let mut ws = Workspace::new(&screen(), &cfg);
    ws.add_window(10);
    ws.add_window(11);
    let out = ws.set_active(true);
    assert!(ws.active);
    let mut expected = highlighted(11);
    expected.extend(plain(10));
    assert_eq!(out, expected);
    let out = ws.set_active(false);
    assert!(!ws.active);
    let mut expected = plain(11);
    expected.extend(plain(10));
    assert_eq!(out, expected);
}

#[test]
fn close_focused_sends_the_close_message() {
    let cfg = config();
    let mut ws = Workspace::new(&screen(), &cfg);
    assert!(ws.close_focused().is_empty());
    ws.add_window(10);
    ws.add_window(11);
    ws.set_focus(1);
    assert_eq!(ws.close_focused(), vec![Request::SendClose { window: 10, protocol: 70, delete: 71 }]);
    assert_eq!(ws.windows, vec![11, 10]);
}

#[test]
fn promote_focused_makes_it_master() {
    let cfg = config();
    let mut ws = Workspace::new(&screen(), &cfg);
    assert!(ws.promote_focused().is_empty());
    ws.add_window(10);
    ws.add_window(11);
    ws.add_window(12);
    ws.set_focus(2);
    let out = ws.promote_focused();
    assert_eq!(ws.windows, vec![10, 12, 11]);
    assert_eq!(ws.focused, 0);
    let mut expected = plain(10);
    expected.extend(plain(12));
    expected.extend(plain(11));
    expected.push(configure(10, 16, 16, 468, 768));
    expected.push(configure(12, 500, 16, 484, 384));
    expected.push(configure(11, 500, 416, 484, 368));
    assert_eq!(out, expected);
}

#[test]
fn focus_window_id_finds_and_activates() {
    let cfg = config();
    let mut ws = Workspace::new(&screen(), &cfg);
    ws.add_window(10);
    ws.add_window(11);
    ws.add_window(12);
    let (found, out) = ws.focus_window_id(11);
    assert!(found);
    assert_eq!(ws.focused, 1);
    assert!(ws.active);
    let mut expected = plain(12);
    expected.extend(highlighted(11));
    expected.extend(plain(10));
    assert_eq!(out, expected);
}

#[test]
fn focus_window_id_of_absent_window_keeps_state() {
    let cfg = config();
    let mut ws = Workspace::new(&screen(), &cfg);
    ws.add_window(10);
    ws.add_window(11);
    ws.set_focus(1);
    let (found, out) = ws.focus_window_id(99);
    assert!(!found);
    assert_eq!(ws.focused, 1);
    assert!(!ws.active);
    let mut expected = plain(11);
    expected.extend(plain(10));
    assert_eq!(out, expected);
}

#[test]
fn focus_window_id_on_empty_workspace_resets_focus() {
    let cfg = config();
    let mut ws = Workspace::new(&screen(), &cfg);
    ws.focused = 4;
    let (found, out) = ws.focus_window_id(10);
    assert!(!found);
    assert!(out.is_empty());
    assert_eq!(ws.focused, 0);
}

#[test]
fn narrow_region_yields_negative_sizes() {
    let cfg = config();
    let mut ws = Workspace::new(&ScreenInfo { x_org: 0, y_org: 0, width: 20, height: 10 }, &cfg);
    ws.add_window(10);
    assert_eq!(ws.tile(), vec![configure(10, 16, 16, -12, -22)]);
}
