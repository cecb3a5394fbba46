use mochiwm::config::{
    default_animation_ms, default_border, default_count, default_focus_next, default_focus_prev,
    default_fullscreen, default_gaps, default_inner_gap, default_kill, default_launch_terminal,
    default_mod, default_swap_next, default_tile_toggle, Config, Keybinds, WorkspaceConfig,
};

#[test]
fn default_numbers() {
    assert_eq!(default_gaps(), 10);
    assert_eq!(default_border(), 2);
    assert_eq!(default_inner_gap(), 8);
    assert_eq!(default_animation_ms(), 150);
    assert_eq!(default_count(), 9);
}

#[test]
fn default_keys() {
    assert_eq!(default_mod(), "alt");
    assert_eq!(default_tile_toggle(), "t");
    assert_eq!(default_kill(), "q");
    assert_eq!(default_focus_next(), "j");
    assert_eq!(default_focus_prev(), "k");
    assert_eq!(default_swap_next(), "l");
    assert_eq!(default_fullscreen(), "f");
    assert_eq!(default_launch_terminal(), "return");
}

#[test]
fn keybinds_default_uses_the_default_keys() {
    let kb = Keybinds::default();
    assert_eq!(kb.modifier, "alt");
    assert_eq!(kb.tile_toggle, "t");
    assert_eq!(kb.kill, "q");
    assert_eq!(kb.focus_next, "j");
    assert_eq!(kb.focus_prev, "k");
    assert_eq!(kb.swap_next, "l");
    assert_eq!(kb.fullscreen, "f");
    assert_eq!(kb.launch_terminal, "return");
}

#[test]
fn workspace_default_count() {
    assert_eq!(WorkspaceConfig::default().count, 9);
}

#[test]
fn config_defaults() {
    let c = Config::defaults();
    assert_eq!(c.gaps, 10);
    assert_eq!(c.border, 2);
    assert_eq!(c.inner_gap, 8);
    assert_eq!(c.animation_ms, 150);
    assert_eq!(c.keybinds.modifier, "alt");
    assert_eq!(c.keybinds.launch_terminal, "return");
    assert_eq!(c.workspace.count, 9);
}
