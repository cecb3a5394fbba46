//! What holds of the window manager's decisions across calls.
use vstd::prelude::*;

use crate::config::Config;
use crate::wm::{
    action_binding, action_bindings, collected, command_for, first_index_from, focus_index,
    has_caption, hotkey_bindings_for, keep_live, next_index, prev_index, prune_focus,
    prune_spaces, swapped, switched_workspace, toggled_style, windows_up_to, workspace_bindings,
    tileable, Command, HotkeyBinding, TopLevelWindow, WindowId, WindowInfo, WS_CAPTION,
    WS_THICKFRAME,
};
use crate::keys::{ascii_lower, key_code_of, lowercase, modifier_code_of};

verus! {

// ----------------------------------------------------------------------------
// Windows that are gone
// ----------------------------------------------------------------------------

/// A window is kept exactly when it was there and is live.
pub proof fn lemma_keep_live_contains(s: Seq<WindowId>, live: Seq<WindowId>, h: WindowId)
    ensures
        keep_live(s, live).contains(h) <==> s.contains(h) && live.contains(h),
    decreases s.len(),
{
    if s.len() > 0 {
        let init = s.drop_last();
        let last = s.last();
        lemma_keep_live_contains(init, live, h);
        let rest = keep_live(init, live);
        let all = keep_live(s, live);
        if all.contains(h) {
            let i = choose|i: int| 0 <= i < all.len() && all[i] == h;
            if i < rest.len() {
                assert(rest[i] == h);
                let j = choose|j: int| 0 <= j < init.len() && init[j] == h;
                assert(s[j] == h);
            } else {
                assert(live.contains(last) && h == last);
                assert(s[s.len() - 1] == h);
            }
        }
        if s.contains(h) && live.contains(h) {
            let j = choose|j: int| 0 <= j < s.len() && s[j] == h;
            if j < s.len() - 1 {
                assert(init[j] == h);
                let k = choose|k: int| 0 <= k < rest.len() && rest[k] == h;
                assert(all[k] == h);
            } else {
                assert(all[rest.len() as int] == h);
            }
        }
    }
}

/// Where every window is live, none is taken out.
pub proof fn lemma_keep_live_all_live(s: Seq<WindowId>, live: Seq<WindowId>)
    requires
        forall|i: int| 0 <= i < s.len() ==> live.contains(#[trigger] s[i]),
    ensures
        keep_live(s, live) == s,
    decreases s.len(),
{
    if s.len() > 0 {
        lemma_keep_live_all_live(s.drop_last(), live);
        assert(live.contains(s[s.len() - 1]));
        assert(s.drop_last().push(s.last()) =~= s);
    }
}

/// Taking out the windows that are gone a second time, with the same live
/// windows, changes nothing.
pub proof fn lemma_keep_live_idempotent(s: Seq<WindowId>, live: Seq<WindowId>)
    ensures
        keep_live(keep_live(s, live), live) == keep_live(s, live),
{
    let k = keep_live(s, live);
    assert forall|i: int| 0 <= i < k.len() implies live.contains(#[trigger] k[i]) by {
        assert(k.contains(k[i]));
        lemma_keep_live_contains(s, live, k[i]);
    }
    lemma_keep_live_all_live(k, live);
}

/// Where every window of every workspace and the focused one are live,
/// taking out the windows that are gone changes nothing.
pub proof fn lemma_prune_all_live(
    spaces: Map<u32, Seq<WindowId>>,
    focus: Option<WindowId>,
    live: Seq<WindowId>,
)
    requires
        forall|k: u32, i: int|
            #![trigger spaces[k][i]]
            spaces.contains_key(k) && 0 <= i < spaces[k].len() ==> live.contains(spaces[k][i]),
        focus matches Some(h) ==> live.contains(h),
    ensures
        prune_spaces(spaces, live) == spaces,
        prune_focus(focus, live) == focus,
{
    assert forall|k: u32| #[trigger] spaces.contains_key(k) implies keep_live(spaces[k], live)
        == spaces[k] by {
        assert forall|i: int| 0 <= i < spaces[k].len() implies live.contains(
            #[trigger] spaces[k][i],
        ) by {}
        lemma_keep_live_all_live(spaces[k], live);
    }
    assert(prune_spaces(spaces, live) =~= spaces);
}

/// Every window listed for the liveness check is a window of some workspace
/// up to `n`, and every such window is listed.
pub proof fn lemma_windows_up_to_contains(spaces: Map<u32, Seq<WindowId>>, n: int, h: WindowId)
    requires
        n <= u32::MAX,
    ensures
        windows_up_to(spaces, n).contains(h) <==> exists|k: u32|
            1 <= k <= n && #[trigger] spaces.contains_key(k) && spaces[k].contains(h),
    decreases n,
{
    if n > 0 {
        lemma_windows_up_to_contains(spaces, n - 1, h);
        let prefix = windows_up_to(spaces, n - 1);
        let last = if spaces.contains_key(n as u32) {
            spaces[n as u32]
        } else {
            Seq::empty()
        };
        let all = windows_up_to(spaces, n);
        assert(all == prefix + last);
        if all.contains(h) {
            let i = choose|i: int| 0 <= i < all.len() && all[i] == h;
            if i < prefix.len() {
                assert(prefix[i] == h);
                let k = choose|k: u32|
                    1 <= k <= n - 1 && #[trigger] spaces.contains_key(k) && spaces[k].contains(h);
                assert(spaces.contains_key(k));
            } else {
                assert(last[i - prefix.len()] == h);
                assert(spaces.contains_key(n as u32));
            }
        }
        if exists|k: u32| 1 <= k <= n && #[trigger] spaces.contains_key(k) && spaces[k].contains(h) {
            let k = choose|k: u32| 1 <= k <= n && #[trigger] spaces.contains_key(k) && spaces[k].contains(h);
            if k < n {
                let i = choose|i: int| 0 <= i < prefix.len() && prefix[i] == h;
                assert(all[i] == h);
            } else {
                let i = choose|i: int| 0 <= i < last.len() && last[i] == h;
                assert(all[prefix.len() + i] == h);
            }
        }
    }
}

// ----------------------------------------------------------------------------
// Focus order
// ----------------------------------------------------------------------------

/// In a workspace without repeated windows, the focus index of a window is
/// its position.
pub proof fn lemma_focus_index_of_position(ws: Seq<WindowId>, j: int)
    requires
        ws.no_duplicates(),
        0 <= j < ws.len(),
    ensures
        focus_index(ws, Some(ws[j])) == j,
{
    lemma_first_index_from(ws, ws[j], j, 0);
}

proof fn lemma_first_index_from(ws: Seq<WindowId>, h: WindowId, j: int, i: nat)
    requires
        ws.no_duplicates(),
        0 <= j < ws.len(),
        ws[j] == h,
        i <= j,
    ensures
        first_index_from(ws, h, i) == j,
    decreases j - i,
{
    if i < j {
        assert(ws[i as int] != h);
        lemma_first_index_from(ws, h, j, i + 1);
    }
}

/// Focusing the next window and then the previous one gives the focus back
/// to the window that had it, in a workspace of two or more windows where
/// no window is repeated.
pub proof fn lemma_prev_undoes_next(ws: Seq<WindowId>, h: WindowId)
    requires
        ws.len() > 1,
        ws.no_duplicates(),
        ws.contains(h),
    ensures
        ws[prev_index(ws, Some(ws[next_index(ws, Some(h))]))] == h,
{
    let j = choose|j: int| 0 <= j < ws.len() && ws[j] == h;
    lemma_focus_index_of_position(ws, j);
    let n = next_index(ws, Some(h));
    assert(0 <= n < ws.len() && (n == j + 1 || (j == ws.len() - 1 && n == 0))) by (nonlinear_arith)
        requires
            n == (j + 1) % (ws.len() as int),
            0 <= j < ws.len(),
    ;
    lemma_focus_index_of_position(ws, n);
}

/// Focusing the previous window and then the next one gives the focus back
/// to the window that had it, in a workspace of two or more windows where
/// no window is repeated.
pub proof fn lemma_next_undoes_prev(ws: Seq<WindowId>, h: WindowId)
    requires
        ws.len() > 1,
        ws.no_duplicates(),
        ws.contains(h),
    ensures
        ws[next_index(ws, Some(ws[prev_index(ws, Some(h))]))] == h,
{
    let j = choose|j: int| 0 <= j < ws.len() && ws[j] == h;
    lemma_focus_index_of_position(ws, j);
    let p = prev_index(ws, Some(h));
    lemma_focus_index_of_position(ws, p);
    assert((p + 1) % (ws.len() as int) == j) by (nonlinear_arith)
        requires
            p == if j == 0 {
                ws.len() - 1
            } else {
                j - 1
            },
            0 <= j < ws.len(),
    ;
}

/// Swapping keeps the same windows, moves the focused window one place
/// forward (to where the next one was), and swapping the same two places
/// again restores the workspace.
pub proof fn lemma_swap_keeps_windows(ws: Seq<WindowId>, f: Option<WindowId>, h: WindowId)
    requires
        ws.len() > 1,
    ensures
        ({
            let s = swapped(ws, focus_index(ws, f), next_index(ws, f));
            &&& s.len() == ws.len()
            &&& s.contains(h) <==> ws.contains(h)
            &&& s[next_index(ws, f)] == ws[focus_index(ws, f)]
            &&& swapped(s, focus_index(ws, f), next_index(ws, f)) == ws
        }),
{
    let i = focus_index(ws, f);
    let j = next_index(ws, f);
    assert(0 <= i < ws.len()) by {
        match f {
            Some(x) => lemma_first_index_bound(ws, x, 0),
            None => {},
        }
    }
    assert(0 <= j < ws.len()) by (nonlinear_arith)
        requires
            j == (i + 1) % (ws.len() as int),
            ws.len() > 1,
    ;
    let s = swapped(ws, i, j);
    if s.contains(h) {
        let k = choose|k: int| 0 <= k < s.len() && s[k] == h;
        if k == j {
            assert(ws[i] == h);
        } else if k == i {
            assert(ws[j] == h);
        } else {
            assert(ws[k] == h);
        }
    }
    if ws.contains(h) {
        let k = choose|k: int| 0 <= k < ws.len() && ws[k] == h;
        if k == i {
            assert(s[j] == h);
        } else if k == j {
            assert(s[i] == h);
        } else {
            assert(s[k] == h);
        }
    }
    assert(swapped(s, i, j) =~= ws);
}

proof fn lemma_first_index_bound(ws: Seq<WindowId>, h: WindowId, i: nat)
    ensures
        first_index_from(ws, h, i) <= ws.len(),
        first_index_from(ws, h, i) < ws.len() ==> ws[first_index_from(ws, h, i) as int] == h,
    decreases ws.len() - i,
{
    if i < ws.len() && ws[i as int] != h {
        lemma_first_index_bound(ws, h, i + 1);
    }
}

// ----------------------------------------------------------------------------
// Workspaces
// ----------------------------------------------------------------------------

/// Switching to another workspace and back returns to the workspace one
/// started on, where both exist.
pub proof fn lemma_switch_back(current: u32, count: u32, target: u32)
    requires
        1 <= current <= count,
        target <= count,
        target != current,
    ensures
        switched_workspace(switched_workspace(current, count, target), count, current) == current,
{
}

/// The windows collected are exactly the ones found that still exist and
/// are tileable, in the order found.
pub proof fn lemma_collected_contains(ws: Seq<TopLevelWindow>, h: WindowId)
    ensures
        collected(ws).contains(h) <==> exists|i: int|
            0 <= i < ws.len() && #[trigger] ws[i].id == h && ws[i].alive
                && crate::wm::tileable(ws[i].info),
    decreases ws.len(),
{
    if ws.len() > 0 {
        lemma_collected_contains(ws.drop_last(), h);
        let rest = collected(ws.drop_last());
        let all = collected(ws);
        if all.contains(h) {
            let k = choose|k: int| 0 <= k < all.len() && all[k] == h;
            if k < rest.len() {
                assert(rest[k] == h);
                let i = choose|i: int|
                    0 <= i < ws.drop_last().len() && #[trigger] ws.drop_last()[i].id == h
                        && ws.drop_last()[i].alive && crate::wm::tileable(ws.drop_last()[i].info);
                assert(ws[i].id == h);
            } else {
                assert(ws[ws.len() - 1].id == h);
            }
        }
        if exists|i: int|
            0 <= i < ws.len() && #[trigger] ws[i].id == h && ws[i].alive && crate::wm::tileable(
                ws[i].info,
            ) {
            let i = choose|i: int|
                0 <= i < ws.len() && #[trigger] ws[i].id == h && ws[i].alive && crate::wm::tileable(
                    ws[i].info,
                );
            if i < ws.len() - 1 {
                assert(ws.drop_last()[i].id == h);
                let k = choose|k: int| 0 <= k < rest.len() && rest[k] == h;
                assert(all[k] == h);
            } else {
                assert(all[all.len() - 1] == h);
            }
        }
    }
}

// ----------------------------------------------------------------------------
// Full screen
// ----------------------------------------------------------------------------

/// Toggling full screen takes the title bar away from a window that has
/// one and gives it to a window that has none; toggling twice a window that
/// had a title bar gives back its title bar and sizing border.
pub proof fn lemma_fullscreen_toggle(style: i32)
    ensures
        has_caption(toggled_style(style)) == !has_caption(style),
        has_caption(style) ==> toggled_style(toggled_style(style)) == style | WS_CAPTION
            | WS_THICKFRAME,
{
    assert((style & 0x00C0_0000i32 != 0) ==> ((style & !(0x00C0_0000i32 | 0x0004_0000i32))
        & 0x00C0_0000i32 == 0)) by (bit_vector);
    assert(((style | 0x00C0_0000i32 | 0x0004_0000i32) & 0x00C0_0000i32) != 0) by (bit_vector);
    assert((style & 0x00C0_0000i32 != 0) ==> ((style & !(0x00C0_0000i32 | 0x0004_0000i32))
        | 0x00C0_0000i32 | 0x0004_0000i32) == (style | 0x00C0_0000i32 | 0x0004_0000i32))
        by (bit_vector);
}

// ----------------------------------------------------------------------------
// Hotkeys
// ----------------------------------------------------------------------------

/// Every hotkey registered with an id up to 109 is answered by a command,
/// never ignored, and a workspace's hotkey switches to that workspace.
/// (Workspaces from the tenth on get hotkeys with ids from 110, which the
/// dispatch ignores.)
pub proof fn lemma_bindings_dispatch(config: Config, i: int)
    requires
        config.workspace.count <= i32::MAX - 100,
        0 <= i < hotkey_bindings_for(config).len(),
        hotkey_bindings_for(config)[i].id <= 109,
    ensures
        ({
            let b = hotkey_bindings_for(config)[i];
            &&& command_for(b.id as u32, config.workspace.count) != Command::Ignore
            &&& b.id >= 100 ==> command_for(b.id as u32, config.workspace.count)
                == Command::SwitchWorkspace((b.id - 100) as u32)
        }),
{
    let actions = action_bindings(config);
    let b = hotkey_bindings_for(config)[i];
    if i < actions.len() {
        let kb = config.keybinds;
        let m = modifier_code_of(lowercase(kb.modifier@));
        let all = seq![
            action_binding(1, m, kb.tile_toggle@),
            action_binding(2, m, kb.kill@),
            action_binding(3, m, kb.focus_next@),
            action_binding(4, m, kb.focus_prev@),
            action_binding(5, m, kb.swap_next@),
            action_binding(6, m, kb.fullscreen@),
            action_binding(7, m, kb.launch_terminal@),
        ];
        assert(b == actions[i]);
        assert(actions.contains(b));
        all.lemma_filter_contains_rev(|x: HotkeyBinding| x.vk != 0, b);
        let j = choose|j: int| 0 <= j < all.len() && all[j] == b;
        assert(1 <= b.id <= 7);
    } else {
        let k = i - actions.len();
        assert(b == workspace_bindings(config)[k]);
        assert(b.id == 101 + k);
    }
}


// ----------------------------------------------------------------------------
// Windows that are never tiled
// ----------------------------------------------------------------------------

/// The classes of the shell's windows (taskbars, desktop, drag and tooltip
/// windows, the notification overflow) and of the manager's own window.
pub open spec fn shell_class_names() -> Seq<Seq<char>> {
    seq![
        "Shell_TrayWnd"@,
        "Shell_SecondaryTrayWnd"@,
        "MochiWMClass"@,
        "WorkerW"@,
        "Progman"@,
        "SysDrag"@,
        "tooltips_class32"@,
        "NotifyIconOverflowWindow"@,
    ]
}

/// A window of one of the shell's classes, or of the manager's own, is
/// never tiled, whatever its style, visibility or owner.
pub proof fn lemma_shell_windows_never_tiled(info: WindowInfo, k: int)
    requires
        0 <= k < shell_class_names().len(),
        info.class_name@ == shell_class_names()[k],
    ensures
        !tileable(info),
{
    let c = info.class_name@;
    assert(forall|j: int| 0 <= j < c.len() ==> #[trigger] ascii_lower(c[j]) == ascii_lower(c[j]));
}

/// The same holds when the class is written with other ASCII letter cases:
/// a class that differs from one of those names only in the case of its
/// ASCII letters is never tiled either.
pub proof fn lemma_shell_windows_never_tiled_any_case(info: WindowInfo, k: int)
    requires
        0 <= k < shell_class_names().len(),
        info.class_name@.len() == shell_class_names()[k].len(),
        forall|j: int|
            0 <= j < info.class_name@.len() ==> #[trigger] ascii_lower(info.class_name@[j])
                == ascii_lower(shell_class_names()[k][j]),
    ensures
        !tileable(info),
{
}


/// A tiled window is visible, has no owner, is neither a child window
/// (0x4000_0000 in its style) nor a tool window (0x80 in its extended
/// style), and has a title bar (a bit of 0x00C0_0000 in its style) or is
/// put on the taskbar (0x0004_0000 in its extended style).
pub proof fn lemma_tiled_windows_are_plain(info: WindowInfo)
    requires
        tileable(info),
    ensures
        info.visible,
        !info.has_owner,
        info.style & 0x4000_0000i32 == 0,
        info.ex_style & 0x80i32 == 0,
        info.style & 0x00C0_0000i32 != 0 || info.ex_style & 0x0004_0000i32 != 0,
{
}

/// A visible window without owner, neither child nor tool window, with a
/// title bar or on the taskbar, whose class matches none of the shell's
/// names even ignoring ASCII case, is tiled.
pub proof fn lemma_plain_windows_are_tiled(info: WindowInfo)
    requires
        info.visible,
        !info.has_owner,
        info.style & 0x4000_0000i32 == 0,
        info.ex_style & 0x80i32 == 0,
        info.style & 0x00C0_0000i32 != 0 || info.ex_style & 0x0004_0000i32 != 0,
        forall|k: int|
            0 <= k < shell_class_names().len() ==> !(info.class_name@.len()
                == #[trigger] shell_class_names()[k].len() && forall|j: int|
                0 <= j < info.class_name@.len() ==> ascii_lower(info.class_name@[j]) == ascii_lower(
                    shell_class_names()[k][j],
                )),
    ensures
        tileable(info),
{
    let names = shell_class_names();
    assert(forall|k: int| 0 <= k < 8 ==> #[trigger] names[k] == names[k]);
    assert(names[0] == "Shell_TrayWnd"@);
    assert(names[1] == "Shell_SecondaryTrayWnd"@);
    assert(names[2] == "MochiWMClass"@);
    assert(names[3] == "WorkerW"@);
    assert(names[4] == "Progman"@);
    assert(names[5] == "SysDrag"@);
    assert(names[6] == "tooltips_class32"@);
    assert(names[7] == "NotifyIconOverflowWindow"@);
    assert(names.len() == 8);
    let c = info.class_name@;
    assert(!crate::keys::eq_ignoring_ascii_case(c, names[0]));
    assert(!crate::keys::eq_ignoring_ascii_case(c, names[1]));
    assert(!crate::keys::eq_ignoring_ascii_case(c, names[2]));
    assert(!crate::keys::eq_ignoring_ascii_case(c, names[3]));
    assert(!crate::keys::eq_ignoring_ascii_case(c, names[4]));
    assert(!crate::keys::eq_ignoring_ascii_case(c, names[5]));
    assert(!crate::keys::eq_ignoring_ascii_case(c, names[6]));
    assert(!crate::keys::eq_ignoring_ascii_case(c, names[7]));
}

// ----------------------------------------------------------------------------
// Which window gets the focus
// ----------------------------------------------------------------------------

/// With window `j` focused, in a workspace of two or more windows none of
/// which is repeated, the next window is the one at `j + 1` (the first
/// after the last), and the previous one the one at `j - 1` (the last
/// before the first).
pub proof fn lemma_focus_moves_one_place(ws: Seq<WindowId>, j: int)
    requires
        ws.len() > 1,
        ws.no_duplicates(),
        0 <= j < ws.len(),
    ensures
        next_index(ws, Some(ws[j])) == if j + 1 < ws.len() {
            j + 1
        } else {
            0
        },
        prev_index(ws, Some(ws[j])) == if j > 0 {
            j - 1
        } else {
            ws.len() - 1
        },
{
    lemma_focus_index_of_position(ws, j);
    let n = ws.len() as int;
    assert((j + 1) % n == if j + 1 < n {
        j + 1
    } else {
        0
    }) by (nonlinear_arith)
        requires
            0 <= j < n,
    ;
}

/// Where no window of the workspace has the focus, the next window is the
/// second one and the previous window the last one.
pub proof fn lemma_focus_from_nowhere(ws: Seq<WindowId>, f: Option<WindowId>)
    requires
        ws.len() > 1,
        f matches Some(h) ==> !ws.contains(h),
    ensures
        next_index(ws, f) == 1,
        prev_index(ws, f) == ws.len() - 1,
{
    if let Some(h) = f {
        lemma_first_index_bound(ws, h, 0);
        if first_index_from(ws, h, 0) < ws.len() {
            assert(ws[first_index_from(ws, h, 0) as int] == h);
        }
    }
    assert(1int % (ws.len() as int) == 1) by (nonlinear_arith)
        requires
            ws.len() > 1,
    ;
}

// ----------------------------------------------------------------------------
// Each key is bound to its own command
// ----------------------------------------------------------------------------

/// The settings' keys of the seven commands, in the order of the commands.
pub open spec fn command_keys(config: Config) -> Seq<Seq<char>> {
    let kb = config.keybinds;
    seq![
        kb.tile_toggle@,
        kb.kill@,
        kb.focus_next@,
        kb.focus_prev@,
        kb.swap_next@,
        kb.fullscreen@,
        kb.launch_terminal@,
    ]
}

/// The seven commands, in the order of their keys.
pub open spec fn commands() -> Seq<Command> {
    seq![
        Command::ToggleTiling,
        Command::KillFocused,
        Command::FocusNext,
        Command::FocusPrev,
        Command::SwapNext,
        Command::ToggleFullscreen,
        Command::LaunchTerminal,
    ]
}

/// Where the settings name a known key for a command, a hotkey on that key,
/// with the settings' modifier, is registered, and pressing it runs that
/// very command.
pub proof fn lemma_key_runs_its_command(config: Config, j: int)
    requires
        config.workspace.count <= i32::MAX - 100,
        0 <= j < 7,
        key_code_of(lowercase(command_keys(config)[j])) != 0,
    ensures
        exists|i: int|
            0 <= i < hotkey_bindings_for(config).len() && {
                let b = #[trigger] hotkey_bindings_for(config)[i];
                &&& b.vk == key_code_of(lowercase(command_keys(config)[j]))
                &&& b.modifiers == modifier_code_of(lowercase(config.keybinds.modifier@))
                &&& command_for(b.id as u32, config.workspace.count) == commands()[j]
            },
{
    let kb = config.keybinds;
    let m = modifier_code_of(lowercase(kb.modifier@));
    let all = seq![
        action_binding(1, m, kb.tile_toggle@),
        action_binding(2, m, kb.kill@),
        action_binding(3, m, kb.focus_next@),
        action_binding(4, m, kb.focus_prev@),
        action_binding(5, m, kb.swap_next@),
        action_binding(6, m, kb.fullscreen@),
        action_binding(7, m, kb.launch_terminal@),
    ];
    let pred = |x: HotkeyBinding| x.vk != 0;
    let actions = action_bindings(config);
    assert(actions == all.filter(pred));
    let b = all[j];
    assert(b.id == j + 1);
    assert(pred(b));
    all.filter_lemma(pred);
    assert(actions.contains(b));
    let i = choose|i: int| 0 <= i < actions.len() && actions[i] == b;
    assert(hotkey_bindings_for(config)[i] == b);
}

/// Every command hotkey that is registered is on the key that the settings
/// name for the command it runs.
pub proof fn lemma_registered_key_is_the_commands(config: Config, i: int)
    requires
        config.workspace.count <= i32::MAX - 100,
        0 <= i < hotkey_bindings_for(config).len(),
        hotkey_bindings_for(config)[i].id < 100,
    ensures
        ({
            let b = hotkey_bindings_for(config)[i];
            exists|j: int|
                0 <= j < 7 && #[trigger] commands()[j] == command_for(
                    b.id as u32,
                    config.workspace.count,
                ) && b.vk == key_code_of(lowercase(command_keys(config)[j])) && b.vk != 0
        }),
{
    let kb = config.keybinds;
    let m = modifier_code_of(lowercase(kb.modifier@));
    let all = seq![
        action_binding(1, m, kb.tile_toggle@),
        action_binding(2, m, kb.kill@),
        action_binding(3, m, kb.focus_next@),
        action_binding(4, m, kb.focus_prev@),
        action_binding(5, m, kb.swap_next@),
        action_binding(6, m, kb.fullscreen@),
        action_binding(7, m, kb.launch_terminal@),
    ];
    let pred = |x: HotkeyBinding| x.vk != 0;
    let actions = action_bindings(config);
    let b = hotkey_bindings_for(config)[i];
    if i >= actions.len() {
        let k = i - actions.len();
        assert(b == workspace_bindings(config)[k]);
        assert(false);
    }
    assert(b == actions[i]);
    all.filter_lemma(pred);
    assert(pred(b));
    assert(actions.contains(b));
    all.lemma_filter_contains_rev(pred, b);
    let j = choose|j: int| 0 <= j < all.len() && all[j] == b;
    assert(commands()[j] == command_for(b.id as u32, config.workspace.count));
}

/// The hotkey of workspace `ws` (1 to 9) is the digit key `ws`: its code is
/// the ASCII code of the digit, and pressing it switches to workspace `ws`.
pub proof fn lemma_workspace_key_is_its_digit(config: Config, ws: int)
    requires
        config.workspace.count <= i32::MAX - 100,
        1 <= ws <= 9,
        ws <= config.workspace.count,
    ensures
        ({
            let b = hotkey_bindings_for(config)[action_bindings(config).len() + ws - 1];
            &&& b.vk == '0' as u32 + ws
            &&& b.modifiers == modifier_code_of(lowercase(config.keybinds.modifier@))
            &&& command_for(b.id as u32, config.workspace.count) == Command::SwitchWorkspace(ws as u32)
        }),
{
    let k = ws - 1;
    let b = hotkey_bindings_for(config)[action_bindings(config).len() + k];
    assert(b == workspace_bindings(config)[k]);
}


/// After taking out the windows that are gone, the focus, where there is
/// one, is the window that had it and is live; a focused window that is
/// live keeps the focus.
pub proof fn lemma_focus_stays_live(f: Option<WindowId>, live: Seq<WindowId>)
    ensures
        prune_focus(f, live) matches Some(h) ==> live.contains(h) && f == Some(h),
        f matches Some(h) ==> (live.contains(h) <==> prune_focus(f, live) == f),
{
}

/// Going full screen clears exactly the title bar and sizing border bits
/// (0x00C4_0000) and coming back sets exactly them; no other bit of the
/// style changes either way.
pub proof fn lemma_fullscreen_bits(style: i32)
    ensures
        toggled_style(style) & !0x00C4_0000i32 == style & !0x00C4_0000i32,
        has_caption(style) ==> toggled_style(style) & 0x00C4_0000i32 == 0,
        !has_caption(style) ==> toggled_style(style) & 0x00C4_0000i32 == 0x00C4_0000i32,
        has_caption(style) <==> style & 0x00C0_0000i32 != 0,
{
    assert((style & !(0x00C0_0000i32 | 0x0004_0000i32)) & !0x00C4_0000i32 == style
        & !0x00C4_0000i32) by (bit_vector);
    assert((style | 0x00C0_0000i32 | 0x0004_0000i32) & !0x00C4_0000i32 == style
        & !0x00C4_0000i32) by (bit_vector);
    assert((style & !(0x00C0_0000i32 | 0x0004_0000i32)) & 0x00C4_0000i32 == 0) by (bit_vector);
    assert((style | 0x00C0_0000i32 | 0x0004_0000i32) & 0x00C4_0000i32 == 0x00C4_0000i32)
        by (bit_vector);
}

} // verus!
