use mochiwm::config::Config;
use mochiwm::keys::{MOD_ALT, MOD_CONTROL, VK_RETURN};
use mochiwm::layout::{Layout, Rect};
use mochiwm::wm::{
    should_tile, Command, FullscreenChange, HotkeyBinding, Placement, TopLevelWindow, WindowId,
    WindowInfo, WindowManager, WS_CAPTION, WS_CHILD, WS_EX_APPWINDOW, WS_EX_TOOLWINDOW,
    WS_THICKFRAME,
};

fn info(class: &str) -> WindowInfo {
    WindowInfo {
        visible: true,
        style: WS_CAPTION,
        ex_style: 0,
        class_name: class.to_string(),
        has_owner: false,
    }
}

fn found(id: usize) -> TopLevelWindow {
    TopLevelWindow { id: WindowId(id), alive: true, info: info("Notepad") }
}

fn ids(v: &[usize]) -> Vec<WindowId> {
    v.iter().map(|&i| WindowId(i)).collect()
}

/// A manager whose current workspace holds the windows `v`, in order.
fn manager_with(v: &[usize]) -> WindowManager {
    let mut wm = WindowManager::new(Config::defaults());
    let windows: Vec<TopLevelWindow> = v.iter().map(|&i| found(i)).collect();
    assert!(wm.current_workspace_exists());
    wm.collect_windows(&windows);
    wm
}

fn screen() -> Rect {
    Rect { x: 0, y: 0, w: 1920, h: 1080 }
}

#[test]
fn new_manager_starts_empty_and_tiling() {
    let wm = WindowManager::new(Config::defaults());
    assert_eq!(wm.current_window_count(), 0);
    assert_eq!(wm.focused(), None);
    assert_eq!(wm.config().workspace.count, 9);
    assert!(wm.current_workspace_exists());
    assert!(wm.tracked_windows().is_empty());
    assert!(wm.tile_all(&screen(), 1056, 0, 0).is_empty());
}

#[test]
fn zero_workspaces_leave_no_current_workspace() {
    let mut config = Config::defaults();
    config.workspace.count = 0;
    let wm = WindowManager::new(config);
    assert!(!wm.current_workspace_exists());
}

#[test]
fn hotkeys_dispatch_to_commands() {
    let wm = WindowManager::new(Config::defaults());
    assert_eq!(wm.handle_hotkey(1), Command::ToggleTiling);
    assert_eq!(wm.handle_hotkey(2), Command::KillFocused);
    assert_eq!(wm.handle_hotkey(3), Command::FocusNext);
    assert_eq!(wm.handle_hotkey(4), Command::FocusPrev);
    assert_eq!(wm.handle_hotkey(5), Command::SwapNext);
    assert_eq!(wm.handle_hotkey(6), Command::ToggleFullscreen);
    assert_eq!(wm.handle_hotkey(7), Command::LaunchTerminal);
    assert_eq!(wm.handle_hotkey(101), Command::SwitchWorkspace(1));
    assert_eq!(wm.handle_hotkey(109), Command::SwitchWorkspace(9));
    assert_eq!(wm.handle_hotkey(100), Command::Ignore);
    assert_eq!(wm.handle_hotkey(110), Command::Ignore);
    assert_eq!(wm.handle_hotkey(0), Command::Ignore);
    assert_eq!(wm.handle_hotkey(8), Command::Ignore);
}

#[test]
fn hotkeys_beyond_the_workspace_count_are_ignored() {
    let mut config = Config::defaults();
    config.workspace.count = 3;
    let wm = WindowManager::new(config);
    assert_eq!(wm.handle_hotkey(103), Command::SwitchWorkspace(3));
    assert_eq!(wm.handle_hotkey(104), Command::Ignore);
}

#[test]
fn default_hotkey_bindings() {
    let wm = WindowManager::new(Config::defaults());
    let b = wm.hotkey_bindings();
    assert_eq!(b.len(), 16);
    let keys = [0x54, 0x51, 0x4A, 0x4B, 0x4C, 0x46, VK_RETURN];
    for (i, vk) in keys.iter().enumerate() {
        assert_eq!(b[i], HotkeyBinding { id: i as i32 + 1, modifiers: MOD_ALT, vk: *vk });
    }
    for ws in 1..=9u32 {
        let binding = b[6 + ws as usize];
        assert_eq!(binding, HotkeyBinding { id: 100 + ws as i32, modifiers: MOD_ALT, vk: 0x30 + ws });
    }
}

#[test]
fn unknown_keys_are_not_bound() {
    let mut config = Config::defaults();
    config.keybinds.modifier = "Ctrl".to_string();
    config.keybinds.kill = "x".to_string();
    config.keybinds.focus_next = "H".to_string();
    config.workspace.count = 2;
    let wm = WindowManager::new(config);
    let b = wm.hotkey_bindings();
    assert_eq!(b.len(), 8);
    assert!(b.iter().all(|x| x.modifiers == MOD_CONTROL));
    assert_eq!(b[1], HotkeyBinding { id: 3, modifiers: MOD_CONTROL, vk: 0x48 });
    assert!(b.iter().all(|x| x.id != 2));
}

#[test]
fn every_bound_hotkey_below_110_dispatches() {
    let wm = WindowManager::new(Config::defaults());
    for b in wm.hotkey_bindings() {
        assert!(b.id <= 109);
        let cmd = wm.handle_hotkey(b.id as u32);
        assert_ne!(cmd, Command::Ignore);
        if b.id >= 100 {
            assert_eq!(cmd, Command::SwitchWorkspace(b.id as u32 - 100));
        }
    }
}

#[test]
fn tenth_workspace_hotkey_is_ignored() {
    let mut config = Config::defaults();
    config.workspace.count = 10;
    let wm = WindowManager::new(config);
    let b = wm.hotkey_bindings();
    let last = b[b.len() - 1];
    assert_eq!(last.id, 110);
    assert_eq!(last.vk, 0x3A);
    assert_eq!(wm.handle_hotkey(110), Command::Ignore);
}

#[test]
fn tileable_windows() {
    assert!(should_tile(&info("Notepad")));
    let mut app = info("Chrome_WidgetWin_1");
    app.style = 0;
    app.ex_style = WS_EX_APPWINDOW;
    assert!(should_tile(&app));
}

#[test]
fn untileable_windows() {
    let mut hidden = info("Notepad");
    hidden.visible = false;
    assert!(!should_tile(&hidden));
    let mut child = info("Notepad");
    child.style |= WS_CHILD;
    assert!(!should_tile(&child));
    let mut tool = info("Notepad");
    tool.ex_style = WS_EX_TOOLWINDOW;
    assert!(!should_tile(&tool));
    let mut bare = info("Notepad");
    bare.style = 0;
    assert!(!should_tile(&bare));
    let mut owned = info("Notepad");
    owned.has_owner = true;
    assert!(!should_tile(&owned));
    assert!(!should_tile(&info("shell_traywnd")));
    assert!(!should_tile(&info("PROGMAN")));
    assert!(!should_tile(&info("MochiWMClass")));
    assert!(!should_tile(&info("NotifyIconOverflowWindow")));
    assert!(should_tile(&info("Progman2")));
}

#[test]
fn collect_keeps_live_tileable_windows_in_order() {
    let mut wm = WindowManager::new(Config::defaults());
    let mut gone = found(2);
    gone.alive = false;
    let mut tray = found(3);
    tray.info = info("Shell_TrayWnd");
    let windows = vec![found(5), gone, tray, found(1)];
    wm.collect_windows(&windows);
    assert_eq!(wm.current_window_count(), 2);
    assert_eq!(wm.tracked_windows(), ids(&[5, 1]));
}

#[test]
fn focus_cycles_forward_and_back() {
    let mut wm = manager_with(&[1, 2, 3]);
    let live = ids(&[1, 2, 3]);
    assert_eq!(wm.focus_next(&live), Some(WindowId(2)));
    assert_eq!(wm.focus_next(&live), Some(WindowId(3)));
    assert_eq!(wm.focus_next(&live), Some(WindowId(1)));
    assert_eq!(wm.focus_prev(&live), Some(WindowId(3)));
    assert_eq!(wm.focused(), Some(WindowId(3)));
}

#[test]
fn focus_prev_undoes_focus_next() {
    let mut wm = manager_with(&[4, 7, 9, 2]);
    let live = ids(&[4, 7, 9, 2]);
    wm.focus_next(&live);
    wm.focus_next(&live);
    let before = wm.focused();
    wm.focus_next(&live);
    wm.focus_prev(&live);
    assert_eq!(wm.focused(), before);
    wm.focus_prev(&live);
    wm.focus_next(&live);
    assert_eq!(wm.focused(), before);
}

#[test]
fn focus_needs_two_windows() {
    let mut wm = manager_with(&[1]);
    assert_eq!(wm.focus_next(&ids(&[1])), None);
    assert_eq!(wm.focus_prev(&ids(&[1])), None);
    assert_eq!(wm.focused(), None);
}

#[test]
fn dead_windows_are_removed_and_focus_dropped() {
    let mut wm = manager_with(&[1, 2, 3]);
    wm.focus_next(&ids(&[1, 2, 3]));
    assert_eq!(wm.focused(), Some(WindowId(2)));
    wm.remove_dead_windows(&ids(&[3, 1]));
    assert_eq!(wm.tracked_windows(), ids(&[1, 3]));
    assert_eq!(wm.focused(), None);
    wm.remove_dead_windows(&ids(&[3, 1]));
    assert_eq!(wm.tracked_windows(), ids(&[1, 3]));
}

#[test]
fn focus_next_takes_out_dead_windows_first() {
    let mut wm = manager_with(&[1, 2, 3]);
    assert_eq!(wm.focus_next(&ids(&[1, 3])), Some(WindowId(3)));
    assert_eq!(wm.tracked_windows(), ids(&[1, 3, 3]));
}

#[test]
fn swap_moves_the_focused_window_forward() {
    let mut wm = manager_with(&[1, 2, 3]);
    let live = ids(&[1, 2, 3]);
    assert!(wm.swap_next(&live));
    assert_eq!(wm.tracked_windows(), ids(&[2, 1, 3]));
    wm.focus_next(&live);
    assert_eq!(wm.focused(), Some(WindowId(1)));
    assert!(wm.swap_next(&live));
    assert_eq!(wm.tracked_windows(), ids(&[2, 3, 1, 1]));
}

#[test]
fn swap_at_the_end_wraps_around() {
    let mut wm = manager_with(&[1, 2, 3]);
    let live = ids(&[1, 2, 3]);
    wm.focus_prev(&live);
    assert_eq!(wm.focused(), Some(WindowId(3)));
    assert!(wm.swap_next(&live));
    assert_eq!(wm.tracked_windows(), ids(&[3, 2, 1, 3]));
}

#[test]
fn swap_needs_two_windows() {
    let mut wm = manager_with(&[1, 2]);
    assert!(!wm.swap_next(&ids(&[2])));
    assert_eq!(wm.tracked_windows(), ids(&[2]));
}

#[test]
fn switching_workspaces() {
    let mut wm = manager_with(&[1, 2]);
    assert!(wm.switch_workspace(1).is_none());
    assert!(wm.switch_workspace(10).is_none());
    let sw = wm.switch_workspace(3).unwrap();
    assert_eq!(sw.hide, ids(&[1, 2]));
    assert!(sw.show.is_empty());
    assert_eq!(wm.current_window_count(), 0);
    let back = wm.switch_workspace(1).unwrap();
    assert!(back.hide.is_empty());
    assert_eq!(back.show, ids(&[1, 2]));
    assert_eq!(wm.current_window_count(), 2);
}

#[test]
fn toggling_tiling() {
    let mut wm = manager_with(&[1, 2]);
    assert!(!wm.toggle_tiling());
    assert!(wm.tile_all(&screen(), 1056, 2, 1).is_empty());
    assert!(wm.toggle_tiling());
    assert_eq!(wm.tile_all(&screen(), 1056, 2, 1).len(), 2);
}

#[test]
fn tiling_places_each_window() {
    let wm = manager_with(&[7, 8, 9]);
    assert!(wm.tile_fits(&screen(), 1056, 2, 2));
    let p = wm.tile_all(&screen(), 1056, 2, 2);
    assert_eq!(
        p,
        vec![
            Placement { window: WindowId(7), rect: Rect { x: 10, y: 10, w: 1042, h: 1060 } },
            Placement { window: WindowId(8), rect: Rect { x: 1060, y: 10, w: 842, h: 522 } },
            Placement { window: WindowId(9), rect: Rect { x: 1060, y: 544, w: 842, h: 522 } },
        ]
    );
}

#[test]
fn tile_fits_refuses_an_overflowing_monitor() {
    let wm = manager_with(&[7, 8, 9]);
    let m = Rect { x: i32::MAX, y: 0, w: 1920, h: 1080 };
    assert!(!wm.tile_fits(&m, 1056, 2, 2));
    let empty = WindowManager::new(Config::defaults());
    assert!(empty.tile_fits(&m, 1056, 0, 0));
}

#[test]
fn kill_targets_the_focused_window() {
    let mut wm = manager_with(&[1, 2]);
    assert_eq!(wm.kill_focused(), None);
    wm.focus_next(&ids(&[1, 2]));
    assert_eq!(wm.kill_focused(), Some(WindowId(2)));
}

#[test]
fn fullscreen_toggles_the_frame() {
    let mut wm = manager_with(&[1, 2]);
    assert_eq!(wm.toggle_fullscreen(WS_CAPTION), None);
    wm.focus_next(&ids(&[1, 2]));
    let framed = WS_CAPTION | WS_THICKFRAME | 0x1;
    let full = wm.toggle_fullscreen(framed).unwrap();
    assert_eq!(full, FullscreenChange { window: WindowId(2), style: 0x1, fill_monitor: true });
    let back = wm.toggle_fullscreen(full.style).unwrap();
    assert_eq!(back, FullscreenChange { window: WindowId(2), style: framed, fill_monitor: false });
}

#[test]
fn fullscreen_with_only_part_of_the_caption() {
    let mut wm = manager_with(&[1, 2]);
    wm.focus_next(&ids(&[1, 2]));
    let border_only = 0x0080_0000;
    let c = wm.toggle_fullscreen(border_only).unwrap();
    assert!(c.fill_monitor);
    assert_eq!(c.style, 0);
}

#[test]
fn layouts_other_than_master_stack_exist() {
    assert_ne!(Layout::Grid, Layout::MasterStack);
    assert_ne!(Layout::Horizontal, Layout::Vertical);
}

#[test]
fn removing_with_every_window_live_changes_nothing() {
    let mut wm = manager_with(&[3, 1, 2]);
    wm.focus_next(&ids(&[3, 1, 2]));
    let before = wm.tracked_windows();
    wm.remove_dead_windows(&before);
    assert_eq!(wm.tracked_windows(), before);
    assert_eq!(wm.focused(), Some(WindowId(1)));
}

#[test]
fn swapping_the_same_places_twice_restores_the_order() {
    let mut wm = manager_with(&[1, 2, 3]);
    let live = ids(&[1, 2, 3]);
    assert!(wm.swap_next(&live));
    assert!(wm.swap_next(&live));
    assert_eq!(wm.tracked_windows(), ids(&[1, 2, 3]));
}

#[test]
fn switching_away_and_back_returns() {
    let mut wm = manager_with(&[5]);
    wm.switch_workspace(4);
    wm.switch_workspace(1);
    assert_eq!(wm.current_window_count(), 1);
    assert_eq!(wm.tracked_windows(), ids(&[5]));
}
