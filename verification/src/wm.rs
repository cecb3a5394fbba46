//! The window manager's state and the decisions it takes.
//!
//! The manager keeps, for each workspace, the windows tiled there in order,
//! the current workspace, the layout, whether tiling is on, and the focused
//! window. The program around the library talks to the windowing system:
//! it reads what the decisions need (which windows exist, their styles, the
//! monitor), asks the manager, and carries out what the manager answers
//! (where each window goes, which to show, hide, focus or close).
use std::collections::HashMap;
use vstd::prelude::*;
use vstd::std_specs::hash::*;

use crate::config::Config;
use crate::keys::{
    eq_ignore_ascii_case, eq_ignoring_ascii_case, key_code_of, key_value, lowercase,
    modifier_code_of, modifier_value, VK_1,
};
use crate::bounds::{
    grid_fits_check, horizontal_fits_check, master_stack_fits_check, vertical_fits_check,
};
use crate::layout::{
    compute_grid, compute_horizontal, compute_master_stack, compute_vertical, grid_fits,
    grid_rect, horizontal_fits, horizontal_rect, master_stack_fits, master_stack_rect,
    vertical_fits, vertical_rect, Layout, Rect,
};

verus! {

broadcast use group_hash_axioms;

/// A top-level window, by its handle's value.
#[derive(Debug, Clone, Copy, PartialEq, Eq, Hash, Structural)]
pub struct WindowId(pub usize);

/// What a hotkey asks the window manager to do.
#[derive(Debug, Clone, Copy, PartialEq, Eq, Structural)]
pub enum Command {
    ToggleTiling,
    KillFocused,
    FocusNext,
    FocusPrev,
    SwapNext,
    ToggleFullscreen,
    LaunchTerminal,
    SwitchWorkspace(u32),
    Ignore,
}

/// A hotkey to register: its id, its modifier flags and its virtual key.
#[derive(Debug, Clone, Copy, PartialEq, Eq, Structural)]
pub struct HotkeyBinding {
    pub id: i32,
    pub modifiers: u32,
    pub vk: u32,
}

/// What the window manager reads of a window to decide whether to tile it.
#[derive(Debug)]
pub struct WindowInfo {
    /// The window is visible.
    pub visible: bool,
    /// The window's style flags (`GWL_STYLE`).
    pub style: i32,
    /// The window's extended style flags (`GWL_EXSTYLE`).
    pub ex_style: i32,
    /// The name of the window's class.
    pub class_name: String,
    /// The window has an owner window.
    pub has_owner: bool,
}

/// A window found among the top-level windows, with what was read of it.
#[derive(Debug)]
pub struct TopLevelWindow {
    pub id: WindowId,
    /// The handle still names a window.
    pub alive: bool,
    pub info: WindowInfo,
}

/// Where to move a tiled window.
#[derive(Debug, Clone, Copy, PartialEq, Eq, Structural)]
pub struct Placement {
    pub window: WindowId,
    pub rect: Rect,
}

/// The windows to hide and to show when the current workspace changes.
#[derive(Debug)]
pub struct WorkspaceSwitch {
    pub hide: Vec<WindowId>,
    pub show: Vec<WindowId>,
}

/// A change of a window between full screen and framed.
#[derive(Debug, Clone, Copy, PartialEq, Eq, Structural)]
pub struct FullscreenChange {
    pub window: WindowId,
    /// The window's new style flags.
    pub style: i32,
    /// The window is to fill the monitor (it goes full screen); otherwise it
    /// keeps its place and only its frame changes.
    pub fill_monitor: bool,
}

/// The window manager's state.
pub struct WindowManager {
    config: Config,
    workspaces: HashMap<u32, Vec<WindowId>>,
    current_workspace: u32,
    layout: Layout,
    tiling_enabled: bool,
    focused: Option<WindowId>,
}

// ----------------------------------------------------------------------------
// Window styles
// ----------------------------------------------------------------------------

/// `WS_CHILD`: a child window.
pub const WS_CHILD: i32 = 0x4000_0000;

/// `WS_CAPTION`: the window has a title bar.
pub const WS_CAPTION: i32 = 0x00C0_0000;

/// `WS_THICKFRAME`: the window has a sizing border.
pub const WS_THICKFRAME: i32 = 0x0004_0000;

/// `WS_EX_TOOLWINDOW`: a tool window.
pub const WS_EX_TOOLWINDOW: i32 = 0x0000_0080;

/// `WS_EX_APPWINDOW`: the window is put on the taskbar.
pub const WS_EX_APPWINDOW: i32 = 0x0004_0000;

/// The class is one of the shell's and the manager's own, which are never tiled.
pub open spec fn ignored_class(class: Seq<char>) -> bool {
    ||| eq_ignoring_ascii_case(class, "Shell_TrayWnd"@)
    ||| eq_ignoring_ascii_case(class, "Shell_SecondaryTrayWnd"@)
    ||| eq_ignoring_ascii_case(class, "MochiWMClass"@)
    ||| eq_ignoring_ascii_case(class, "WorkerW"@)
    ||| eq_ignoring_ascii_case(class, "Progman"@)
    ||| eq_ignoring_ascii_case(class, "SysDrag"@)
    ||| eq_ignoring_ascii_case(class, "tooltips_class32"@)
    ||| eq_ignoring_ascii_case(class, "NotifyIconOverflowWindow"@)
}

/// A window is tiled when it is visible, neither a child nor a tool window,
/// has a title bar or is an application window, is of no ignored class and
/// has no owner.
pub open spec fn tileable(info: WindowInfo) -> bool {
    &&& info.visible
    &&& info.style & WS_CHILD == 0
    &&& info.ex_style & WS_EX_TOOLWINDOW == 0
    &&& (info.style & WS_CAPTION != 0 || info.ex_style & WS_EX_APPWINDOW != 0)
    &&& !ignored_class(info.class_name@)
    &&& !info.has_owner
}

/// Whether a window is to be tiled.
pub fn should_tile(info: &WindowInfo) -> (r: bool)
    ensures
        r == tileable(*info),
{
    if !info.visible {
        return false;
    }
    let is_child = (info.style & WS_CHILD) != 0;
    let is_tool = (info.ex_style & WS_EX_TOOLWINDOW) != 0;
    let has_caption = (info.style & WS_CAPTION) != 0;
    let is_appwindow = (info.ex_style & WS_EX_APPWINDOW) != 0;
    if is_child || is_tool {
        return false;
    }
    if !has_caption && !is_appwindow {
        return false;
    }
    if is_ignored_class(info.class_name.as_str()) {
        return false;
    }
    if info.has_owner {
        return false;
    }
    true
}

fn is_ignored_class(class: &str) -> (r: bool)
    ensures
        r == ignored_class(class@),
{
    eq_ignore_ascii_case(class, "Shell_TrayWnd") || eq_ignore_ascii_case(
        class,
        "Shell_SecondaryTrayWnd",
    ) || eq_ignore_ascii_case(class, "MochiWMClass") || eq_ignore_ascii_case(class, "WorkerW")
        || eq_ignore_ascii_case(class, "Progman") || eq_ignore_ascii_case(class, "SysDrag")
        || eq_ignore_ascii_case(class, "tooltips_class32") || eq_ignore_ascii_case(
        class,
        "NotifyIconOverflowWindow",
    )
}

/// The window has a title bar.
pub open spec fn has_caption(style: i32) -> bool {
    style & WS_CAPTION != 0
}

/// The style that toggling full screen gives: a window with a title bar
/// loses it and its sizing border; one without gets both.
pub open spec fn toggled_style(style: i32) -> i32 {
    if has_caption(style) {
        style & !(WS_CAPTION | WS_THICKFRAME)
    } else {
        style | WS_CAPTION | WS_THICKFRAME
    }
}

// ----------------------------------------------------------------------------
// Hotkeys
// ----------------------------------------------------------------------------

/// The command that hotkey `id` stands for when there are `count` workspaces.
pub open spec fn command_for(id: u32, count: u32) -> Command {
    if id == 1 {
        Command::ToggleTiling
    } else if id == 2 {
        Command::KillFocused
    } else if id == 3 {
        Command::FocusNext
    } else if id == 4 {
        Command::FocusPrev
    } else if id == 5 {
        Command::SwapNext
    } else if id == 6 {
        Command::ToggleFullscreen
    } else if id == 7 {
        Command::LaunchTerminal
    } else if 100 <= id <= 109 && 1 <= id - 100 <= count {
        Command::SwitchWorkspace((id - 100) as u32)
    } else {
        Command::Ignore
    }
}

/// The binding of a command's key, as the settings name it.
pub open spec fn action_binding(id: i32, modifiers: u32, key: Seq<char>) -> HotkeyBinding {
    HotkeyBinding { id, modifiers, vk: key_code_of(lowercase(key)) }
}

/// The bindings of the seven commands, in the order of their ids, those
/// whose key is known and only those.
pub open spec fn action_bindings(config: Config) -> Seq<HotkeyBinding> {
    let kb = config.keybinds;
    let m = modifier_code_of(lowercase(kb.modifier@));
    seq![
        action_binding(1, m, kb.tile_toggle@),
        action_binding(2, m, kb.kill@),
        action_binding(3, m, kb.focus_next@),
        action_binding(4, m, kb.focus_prev@),
        action_binding(5, m, kb.swap_next@),
        action_binding(6, m, kb.fullscreen@),
        action_binding(7, m, kb.launch_terminal@),
    ].filter(|b: HotkeyBinding| b.vk != 0)
}

/// The binding that switches to workspace `ws`: id `100 + ws`, the digit key `ws`.
pub open spec fn workspace_binding(modifiers: u32, ws: int) -> HotkeyBinding {
    HotkeyBinding { id: (100 + ws) as i32, modifiers, vk: (VK_1 + ws - 1) as u32 }
}

/// The bindings of workspaces 1 to `count`, in order.
pub open spec fn workspace_bindings(config: Config) -> Seq<HotkeyBinding> {
    let m = modifier_code_of(lowercase(config.keybinds.modifier@));
    Seq::new(config.workspace.count as nat, |i: int| workspace_binding(m, i + 1))
}

/// All hotkeys to register for the given settings.
pub open spec fn hotkey_bindings_for(config: Config) -> Seq<HotkeyBinding> {
    action_bindings(config) + workspace_bindings(config)
}


// ----------------------------------------------------------------------------
// Windows that are gone, focus order, and what is collected
// ----------------------------------------------------------------------------

/// The windows of `s` that are among `live`, in their order.
pub open spec fn keep_live(s: Seq<WindowId>, live: Seq<WindowId>) -> Seq<WindowId>
    decreases s.len(),
{
    if s.len() == 0 {
        Seq::empty()
    } else {
        let rest = keep_live(s.drop_last(), live);
        if live.contains(s.last()) {
            rest.push(s.last())
        } else {
            rest
        }
    }
}

/// Every workspace with its windows that are gone taken out.
pub open spec fn prune_spaces(spaces: Map<u32, Seq<WindowId>>, live: Seq<WindowId>) -> Map<
    u32,
    Seq<WindowId>,
> {
    spaces.map_values(|s: Seq<WindowId>| keep_live(s, live))
}

/// The focus, dropped when the focused window is gone.
pub open spec fn prune_focus(f: Option<WindowId>, live: Seq<WindowId>) -> Option<WindowId> {
    match f {
        Some(h) => if live.contains(h) {
            Some(h)
        } else {
            None
        },
        None => None,
    }
}

/// The first position at or after `i` where `h` stands in `s`; `s.len()`
/// where it stands nowhere there.
pub open spec fn first_index_from(s: Seq<WindowId>, h: WindowId, i: nat) -> nat
    decreases s.len() - i,
{
    if i >= s.len() {
        s.len()
    } else if s[i as int] == h {
        i
    } else {
        first_index_from(s, h, i + 1)
    }
}

/// The position of the focused window among `s`: its first one, or 0 where
/// no window is focused or the focused one is not in `s`.
pub open spec fn focus_index(s: Seq<WindowId>, f: Option<WindowId>) -> int {
    match f {
        Some(h) => {
            let k = first_index_from(s, h, 0);
            if k < s.len() {
                k as int
            } else {
                0
            }
        },
        None => 0,
    }
}

/// The position after the focused one, wrapping around to the first.
pub open spec fn next_index(s: Seq<WindowId>, f: Option<WindowId>) -> int {
    (focus_index(s, f) + 1) % (s.len() as int)
}

/// The position before the focused one, wrapping around to the last.
pub open spec fn prev_index(s: Seq<WindowId>, f: Option<WindowId>) -> int {
    let k = focus_index(s, f);
    if k == 0 {
        s.len() - 1
    } else {
        k - 1
    }
}

/// The current workspace after asking to switch from `current` to
/// `target`: unchanged when it is the same one or there is no such workspace.
pub open spec fn switched_workspace(current: u32, count: u32, target: u32) -> u32 {
    if target == current || target > count {
        current
    } else {
        target
    }
}

/// `s` with the windows at positions `i` and `j` exchanged.
pub open spec fn swapped(s: Seq<WindowId>, i: int, j: int) -> Seq<WindowId> {
    s.update(i, s[j]).update(j, s[i])
}

/// The top-level windows to tile, in the order they were found: those that
/// still exist and are tileable.
pub open spec fn collected(ws: Seq<TopLevelWindow>) -> Seq<WindowId>
    decreases ws.len(),
{
    if ws.len() == 0 {
        Seq::empty()
    } else {
        let rest = collected(ws.drop_last());
        if ws.last().alive && tileable(ws.last().info) {
            rest.push(ws.last().id)
        } else {
            rest
        }
    }
}

/// The windows of workspaces 1 to `k`, workspace after workspace.
pub open spec fn windows_up_to(spaces: Map<u32, Seq<WindowId>>, k: int) -> Seq<WindowId>
    decreases k,
{
    if k <= 0 {
        Seq::empty()
    } else {
        windows_up_to(spaces, k - 1) + (if spaces.contains_key(k as u32) {
            spaces[k as u32]
        } else {
            Seq::empty()
        })
    }
}

/// The rectangle of window `i` of `n` in the given layout.
pub open spec fn layout_rect(
    layout: Layout,
    m: Rect,
    gaps: int,
    inner_gap: int,
    master_w: int,
    cols: int,
    rows: int,
    n: int,
    i: int,
) -> Rect {
    match layout {
        Layout::MasterStack => master_stack_rect(m, gaps, inner_gap, master_w, n, i),
        Layout::Grid => grid_rect(m, gaps, inner_gap, cols, rows, i),
        Layout::Horizontal => horizontal_rect(m, gaps, inner_gap, n, i),
        Layout::Vertical => vertical_rect(m, gaps, inner_gap, n, i),
    }
}

/// The given layout for `n` windows stays within `i32`.
pub open spec fn layout_fits(
    layout: Layout,
    n: int,
    m: Rect,
    gaps: int,
    inner_gap: int,
    master_w: int,
    cols: int,
    rows: int,
) -> bool {
    match layout {
        Layout::MasterStack => master_stack_fits(n, m, gaps, inner_gap, master_w),
        Layout::Grid => grid_fits(n, m, gaps, inner_gap, cols, rows),
        Layout::Horizontal => horizontal_fits(n, m, gaps, inner_gap),
        Layout::Vertical => vertical_fits(n, m, gaps, inner_gap),
    }
}

// ----------------------------------------------------------------------------
// The state
// ----------------------------------------------------------------------------

impl WindowManager {
    /// The windows of each workspace, by workspace number.
    pub closed spec fn spaces(&self) -> Map<u32, Seq<WindowId>> {
        self.workspaces@.map_values(|v: Vec<WindowId>| v@)
    }

    /// The current workspace.
    pub closed spec fn current(&self) -> u32 {
        self.current_workspace
    }

    /// The layout in use.
    pub closed spec fn layout_in_use(&self) -> Layout {
        self.layout
    }

    /// Tiling is on.
    pub closed spec fn tiling(&self) -> bool {
        self.tiling_enabled
    }

    /// The focused window.
    pub closed spec fn focus(&self) -> Option<WindowId> {
        self.focused
    }

    /// The settings.
    pub closed spec fn settings(&self) -> Config {
        self.config
    }

    /// There is a workspace for each number from 1 to the configured count,
    /// and for no other.
    pub closed spec fn well_formed(&self) -> bool {
        self.workspaces@.dom() =~= Set::new(|k: u32| 1 <= k <= self.config.workspace.count)
    }

    /// The windows of workspace `k`; none where there is no such workspace.
    pub open spec fn windows_of(&self, k: u32) -> Seq<WindowId> {
        if self.spaces().contains_key(k) {
            self.spaces()[k]
        } else {
            Seq::empty()
        }
    }

    /// The windows of the current workspace.
    pub open spec fn current_windows(&self) -> Seq<WindowId> {
        self.windows_of(self.current())
    }

    /// A manager with `config.workspace.count` empty workspaces, on the
    /// first one, tiling as master and stack, with no window focused.
    pub fn new(config: Config) -> (wm: Self)
        ensures
            wm.well_formed(),
            wm.spaces() =~= Map::new(
                |k: u32| 1 <= k <= config.workspace.count,
                |k: u32| Seq::<WindowId>::empty(),
            ),
            wm.current() == 1,
            wm.layout_in_use() == Layout::MasterStack,
            wm.tiling(),
            wm.focus() is None,
            wm.settings() == config,
    {
        let count = config.workspace.count;
        let mut workspaces: HashMap<u32, Vec<WindowId>> = HashMap::new();
        let mut i: u64 = 1;
        while i <= count as u64
            invariant
                1 <= i <= count as u64 + 1,
                workspaces@.dom() =~= Set::new(|k: u32| 1 <= k < i),
                forall|k: u32| #[trigger] workspaces@.contains_key(k) ==> workspaces@[k]@ == Seq::<WindowId>::empty(),
            decreases count as u64 + 1 - i,
        {
            workspaces.insert(i as u32, Vec::new());
            i = i + 1;
        }
        let wm = WindowManager {
            config,
            workspaces,
            current_workspace: 1,
            layout: Layout::MasterStack,
            tiling_enabled: true,
            focused: None,
        };
        assert(wm.spaces() =~= Map::new(
            |k: u32| 1 <= k <= wm.config.workspace.count,
            |k: u32| Seq::<WindowId>::empty(),
        ));
        wm
    }

    /// The settings.
    pub fn config(&self) -> (r: &Config)
        ensures
            *r == self.settings(),
    {
        &self.config
    }

    /// The focused window.
    pub fn focused(&self) -> (r: Option<WindowId>)
        ensures
            r == self.focus(),
    {
        self.focused
    }

    /// Tiling is on.
    pub fn is_tiling(&self) -> (r: bool)
        ensures
            r == self.tiling(),
    {
        self.tiling_enabled
    }

    /// There is a workspace with the current number.
    pub fn current_workspace_exists(&self) -> (r: bool)
        ensures
            r == self.spaces().contains_key(self.current()),
    {
        match self.workspaces.get(&self.current_workspace) {
            Some(_) => true,
            None => false,
        }
    }

    /// The number of windows on the current workspace.
    pub fn current_window_count(&self) -> (r: usize)
        ensures
            r == self.current_windows().len(),
    {
        match self.workspaces.get(&self.current_workspace) {
            Some(ws) => ws.len(),
            None => 0,
        }
    }

    /// The command that hotkey `id` stands for.
    pub fn handle_hotkey(&self, id: u32) -> (r: Command)
        ensures
            r == command_for(id, self.settings().workspace.count),
    {
        match id {
            1 => Command::ToggleTiling,
            2 => Command::KillFocused,
            3 => Command::FocusNext,
            4 => Command::FocusPrev,
            5 => Command::SwapNext,
            6 => Command::ToggleFullscreen,
            7 => Command::LaunchTerminal,
            100..=109 => {
                let ws = id - 100;
                if ws >= 1 && ws <= self.config.workspace.count {
                    Command::SwitchWorkspace(ws)
                } else {
                    Command::Ignore
                }
            },
            _ => Command::Ignore,
        }
    }

    /// The hotkeys to register: each command whose key the settings name a
    /// known key for, then one per workspace.
    pub fn hotkey_bindings(&self) -> (r: Vec<HotkeyBinding>)
        requires
            self.settings().workspace.count <= i32::MAX - 100,
        ensures
            r@ == hotkey_bindings_for(self.settings()),
    {
        let kb = &self.config.keybinds;
        let modif = modifier_value(kb.modifier.as_str());
        let ghost all = seq![
            action_binding(1, modif, kb.tile_toggle@),
            action_binding(2, modif, kb.kill@),
            action_binding(3, modif, kb.focus_next@),
            action_binding(4, modif, kb.focus_prev@),
            action_binding(5, modif, kb.swap_next@),
            action_binding(6, modif, kb.fullscreen@),
            action_binding(7, modif, kb.launch_terminal@),
        ];
        let mut binds: Vec<HotkeyBinding> = Vec::new();
        assert(all.take(0) =~= Seq::<HotkeyBinding>::empty());
        reveal_with_fuel(Seq::filter, 1);
        push_binding(&mut binds, 1, modif, kb.tile_toggle.as_str(), Ghost(all), Ghost(0));
        push_binding(&mut binds, 2, modif, kb.kill.as_str(), Ghost(all), Ghost(1));
        push_binding(&mut binds, 3, modif, kb.focus_next.as_str(), Ghost(all), Ghost(2));
        push_binding(&mut binds, 4, modif, kb.focus_prev.as_str(), Ghost(all), Ghost(3));
        push_binding(&mut binds, 5, modif, kb.swap_next.as_str(), Ghost(all), Ghost(4));
        push_binding(&mut binds, 6, modif, kb.fullscreen.as_str(), Ghost(all), Ghost(5));
        push_binding(&mut binds, 7, modif, kb.launch_terminal.as_str(), Ghost(all), Ghost(6));
        assert(all.take(7) =~= all);
        let ghost actions = binds@;
        assert(actions == action_bindings(self.config));
        let count = self.config.workspace.count;
        let mut ws: u32 = 1;
        while ws <= count
            invariant
                count == self.config.workspace.count,
                count <= i32::MAX - 100,
                1 <= ws <= count + 1,
                binds@ =~= actions + Seq::new(
                    (ws - 1) as nat,
                    |i: int| workspace_binding(modif, i + 1),
                ),
            decreases count + 1 - ws,
        {
            binds.push(HotkeyBinding { id: 100 + ws as i32, modifiers: modif, vk: VK_1 + ws - 1 });
            ws = ws + 1;
        }
        binds
    }

    /// Every window of every workspace, workspace after workspace, then the
    /// focused window: the windows of which the caller is to tell which
    /// still exist.
    pub fn tracked_windows(&self) -> (r: Vec<WindowId>)
        requires
            self.well_formed(),
        ensures
            r@ == windows_up_to(self.spaces(), self.settings().workspace.count as int) + match self.focus() {
                Some(h) => seq![h],
                None => Seq::empty(),
            },
    {
        let count = self.config.workspace.count;
        let mut r: Vec<WindowId> = Vec::new();
        let mut k: u64 = 1;
        while k <= count as u64
            invariant
                count == self.config.workspace.count,
                1 <= k <= count as u64 + 1,
                r@ == windows_up_to(self.spaces(), k - 1),
            decreases count as u64 + 1 - k,
        {
            let key = k as u32;
            let ghost before = r@;
            match self.workspaces.get(&key) {
                Some(ws) => {
                    append_windows(&mut r, ws);
                    assert(self.spaces().contains_key(key) && self.spaces()[key] == ws@);
                },
                None => {
                    assert(!self.spaces().contains_key(key));
                },
            }
            assert(r@ =~= windows_up_to(self.spaces(), k as int));
            k = k + 1;
        }
        if let Some(h) = self.focused {
            r.push(h);
        }
        r
    }

    /// Takes out of every workspace the windows that are not in `live`, and
    /// drops the focus where the focused window is not in `live`.
    pub fn remove_dead_windows(&mut self, live: &[WindowId])
        requires
            old(self).well_formed(),
        ensures
            final(self).well_formed(),
            final(self).spaces() =~= prune_spaces(old(self).spaces(), live@),
            final(self).focus() == prune_focus(old(self).focus(), live@),
            final(self).current() == old(self).current(),
            final(self).layout_in_use() == old(self).layout_in_use(),
            final(self).tiling() == old(self).tiling(),
            final(self).settings() == old(self).settings(),
    {
        let count = self.config.workspace.count;
        let ghost old_ws = self.workspaces@;
        let mut k: u64 = 1;
        while k <= count as u64
            invariant
                count == self.config.workspace.count,
                1 <= k <= count as u64 + 1,
                self.workspaces@.dom() == old_ws.dom(),
                old_ws.dom() =~= Set::new(|j: u32| 1 <= j <= count),
                forall|j: u32|
                    #[trigger] old_ws.contains_key(j) && j < k ==> self.workspaces@[j]@ == keep_live(
                        old_ws[j]@,
                        live@,
                    ),
                forall|j: u32|
                    #[trigger] old_ws.contains_key(j) && j >= k ==> self.workspaces@[j] == old_ws[j],
                self.focused == old(self).focused,
                self.current_workspace == old(self).current_workspace,
                self.layout == old(self).layout,
                self.tiling_enabled == old(self).tiling_enabled,
                self.config == old(self).config,
            decreases count as u64 + 1 - k,
        {
            let key = k as u32;
            assert(old_ws.contains_key(key));
            match self.workspaces.remove(&key) {
                Some(ws) => {
                    let kept = retain_live(&ws, live);
                    self.workspaces.insert(key, kept);
                },
                None => {},
            }
            k = k + 1;
        }
        if let Some(f) = self.focused {
            if !contains_window(live, f) {
                self.focused = None;
            }
        }
    }

    /// Replaces the windows of the current workspace by the top-level
    /// windows that still exist and are tileable, in the order given.
    pub fn collect_windows(&mut self, windows: &[TopLevelWindow])
        requires
            old(self).well_formed(),
            old(self).spaces().contains_key(old(self).current()),
        ensures
            final(self).well_formed(),
            final(self).spaces() =~= old(self).spaces().insert(old(self).current(), collected(windows@)),
            final(self).current() == old(self).current(),
            final(self).focus() == old(self).focus(),
            final(self).layout_in_use() == old(self).layout_in_use(),
            final(self).tiling() == old(self).tiling(),
            final(self).settings() == old(self).settings(),
    {
        let mut found: Vec<WindowId> = Vec::new();
        let mut i: usize = 0;
        while i < windows.len()
            invariant
                0 <= i <= windows@.len(),
                found@ == collected(windows@.take(i as int)),
            decreases windows@.len() - i,
        {
            assert(windows@.take(i + 1).drop_last() =~= windows@.take(i as int));
            if windows[i].alive && should_tile(&windows[i].info) {
                found.push(windows[i].id);
            }
            i = i + 1;
        }
        assert(windows@.take(windows@.len() as int) =~= windows@);
        self.workspaces.insert(self.current_workspace, found);
    }

    /// Takes out the windows that are gone, then focuses the window after
    /// the focused one on the current workspace, when it has two or more.
    /// Gives the window to bring to the foreground.
    pub fn focus_next(&mut self, live: &[WindowId]) -> (r: Option<WindowId>)
        requires
            old(self).well_formed(),
        ensures
            final(self).well_formed(),
            final(self).spaces() =~= prune_spaces(old(self).spaces(), live@),
            final(self).current() == old(self).current(),
            final(self).layout_in_use() == old(self).layout_in_use(),
            final(self).tiling() == old(self).tiling(),
            final(self).settings() == old(self).settings(),
            ({
                let ws = final(self).current_windows();
                let pf = prune_focus(old(self).focus(), live@);
                if ws.len() > 1 {
                    r == Some(ws[next_index(ws, pf)]) && final(self).focus() == r
                } else {
                    r is None && final(self).focus() == pf
                }
            }),
    {
        self.remove_dead_windows(live);
        let mut target: Option<WindowId> = None;
        if let Some(ws) = self.workspaces.get(&self.current_workspace) {
            if ws.len() > 1 {
                let idx = position(ws, self.focused);
                target = Some(ws[(idx + 1) % ws.len()]);
            }
        }
        if let Some(h) = target {
            self.focused = Some(h);
        }
        target
    }

    /// Takes out the windows that are gone, then focuses the window before
    /// the focused one on the current workspace, when it has two or more.
    /// Gives the window to bring to the foreground.
    pub fn focus_prev(&mut self, live: &[WindowId]) -> (r: Option<WindowId>)
        requires
            old(self).well_formed(),
        ensures
            final(self).well_formed(),
            final(self).spaces() =~= prune_spaces(old(self).spaces(), live@),
            final(self).current() == old(self).current(),
            final(self).layout_in_use() == old(self).layout_in_use(),
            final(self).tiling() == old(self).tiling(),
            final(self).settings() == old(self).settings(),
            ({
                let ws = final(self).current_windows();
                let pf = prune_focus(old(self).focus(), live@);
                if ws.len() > 1 {
                    r == Some(ws[prev_index(ws, pf)]) && final(self).focus() == r
                } else {
                    r is None && final(self).focus() == pf
                }
            }),
    {
        self.remove_dead_windows(live);
        let mut target: Option<WindowId> = None;
        if let Some(ws) = self.workspaces.get(&self.current_workspace) {
            if ws.len() > 1 {
                let idx = position(ws, self.focused);
                let prev = if idx == 0 {
                    ws.len() - 1
                } else {
                    idx - 1
                };
                target = Some(ws[prev]);
            }
        }
        if let Some(h) = target {
            self.focused = Some(h);
        }
        target
    }

    /// Takes out the windows that are gone, then swaps the focused window
    /// with the one after it on the current workspace, when it has two or
    /// more. Tells whether the workspace is to be tiled again.
    pub fn swap_next(&mut self, live: &[WindowId]) -> (r: bool)
        requires
            old(self).well_formed(),
        ensures
            final(self).well_formed(),
            final(self).current() == old(self).current(),
            final(self).focus() == prune_focus(old(self).focus(), live@),
            final(self).layout_in_use() == old(self).layout_in_use(),
            final(self).tiling() == old(self).tiling(),
            final(self).settings() == old(self).settings(),
            ({
                let pruned = prune_spaces(old(self).spaces(), live@);
                let c = old(self).current();
                let ws = if pruned.contains_key(c) {
                    pruned[c]
                } else {
                    Seq::empty()
                };
                let pf = prune_focus(old(self).focus(), live@);
                if ws.len() > 1 {
                    &&& r
                    &&& final(self).spaces() =~= pruned.insert(
                        c,
                        swapped(ws, focus_index(ws, pf), next_index(ws, pf)),
                    )
                } else {
                    !r && final(self).spaces() =~= pruned
                }
            }),
    {
        self.remove_dead_windows(live);
        let cur = self.current_workspace;
        let ghost pruned = self.spaces();
        match self.workspaces.remove(&cur) {
            Some(ws) => {
                if ws.len() > 1 {
                    let mut ws = ws;
                    let idx = position(&ws, self.focused);
                    let next = (idx + 1) % ws.len();
                    let a = ws[idx];
                    let b = ws[next];
                    ws.set(idx, b);
                    ws.set(next, a);
                    self.workspaces.insert(cur, ws);
                    true
                } else {
                    self.workspaces.insert(cur, ws);
                    assert(self.spaces() =~= pruned);
                    false
                }
            },
            None => {
                assert(self.spaces() =~= pruned);
                false
            },
        }
    }

    /// Makes `target` the current workspace, unless it is already or there
    /// is no such workspace. Gives the windows to hide (the old workspace's)
    /// and to show (the new one's).
    pub fn switch_workspace(&mut self, target: u32) -> (r: Option<WorkspaceSwitch>)
        ensures
            final(self).spaces() == old(self).spaces(),
            final(self).focus() == old(self).focus(),
            final(self).layout_in_use() == old(self).layout_in_use(),
            final(self).tiling() == old(self).tiling(),
            final(self).settings() == old(self).settings(),
            final(self).well_formed() == old(self).well_formed(),
            final(self).current() == switched_workspace(
                old(self).current(),
                old(self).settings().workspace.count,
                target,
            ),
            if target == old(self).current() || target > old(self).settings().workspace.count {
                r is None && final(self).current() == old(self).current()
            } else {
                &&& final(self).current() == target
                &&& r matches Some(sw) && sw.hide@ == old(self).current_windows()
                    && sw.show@ == old(self).windows_of(target)
            },
    {
        if target == self.current_workspace || target > self.config.workspace.count {
            return None;
        }
        let hide = match self.workspaces.get(&self.current_workspace) {
            Some(ws) => copy_windows(ws),
            None => Vec::new(),
        };
        self.current_workspace = target;
        let show = match self.workspaces.get(&self.current_workspace) {
            Some(ws) => copy_windows(ws),
            None => Vec::new(),
        };
        Some(WorkspaceSwitch { hide, show })
    }

    /// Turns tiling on or off. Tells whether tiling is now on, in which
    /// case the workspace is to be tiled again.
    pub fn toggle_tiling(&mut self) -> (r: bool)
        ensures
            final(self).tiling() == !old(self).tiling(),
            r == final(self).tiling(),
            final(self).spaces() == old(self).spaces(),
            final(self).current() == old(self).current(),
            final(self).focus() == old(self).focus(),
            final(self).layout_in_use() == old(self).layout_in_use(),
            final(self).settings() == old(self).settings(),
            final(self).well_formed() == old(self).well_formed(),
    {
        self.tiling_enabled = !self.tiling_enabled;
        self.tiling_enabled
    }

    /// The window to ask to close: the focused one.
    pub fn kill_focused(&self) -> (r: Option<WindowId>)
        ensures
            r == self.focus(),
    {
        self.focused
    }

    /// Toggles the focused window between full screen and framed, given its
    /// current style flags.
    pub fn toggle_fullscreen(&self, style: i32) -> (r: Option<FullscreenChange>)
        ensures
            match self.focus() {
                Some(h) => r == Some(
                    FullscreenChange {
                        window: h,
                        style: toggled_style(style),
                        fill_monitor: has_caption(style),
                    },
                ),
                None => r is None,
            },
    {
        match self.focused {
            Some(h) => {
                let caption = (style & WS_CAPTION) != 0;
                let new_style = if caption {
                    style & !(WS_CAPTION | WS_THICKFRAME)
                } else {
                    style | WS_CAPTION | WS_THICKFRAME
                };
                Some(FullscreenChange { window: h, style: new_style, fill_monitor: caption })
            },
            None => None,
        }
    }

    /// Where each window of the current workspace goes, in the layout in
    /// use, on a monitor with the given rectangle. `master_w` is the width
    /// of the master column, `cols` and `rows` the shape of the grid, for
    /// the number of windows on the workspace. Nothing moves when tiling is
    /// off or the workspace is empty.
    pub fn tile_all(&self, monitor: &Rect, master_w: i32, cols: i32, rows: i32) -> (r: Vec<Placement>)
        requires
            self.tiling() && self.current_windows().len() > 0 ==> layout_fits(
                self.layout_in_use(),
                self.current_windows().len() as int,
                *monitor,
                self.settings().gaps as int,
                self.settings().inner_gap as int,
                master_w as int,
                cols as int,
                rows as int,
            ),
        ensures
            !self.tiling() || self.current_windows().len() == 0 ==> r@.len() == 0,
            self.tiling() ==> r@.len() == self.current_windows().len(),
            forall|i: int|
                0 <= i < r@.len() ==> r@[i] == (Placement {
                    window: self.current_windows()[i],
                    rect: layout_rect(
                        self.layout_in_use(),
                        *monitor,
                        self.settings().gaps as int,
                        self.settings().inner_gap as int,
                        master_w as int,
                        cols as int,
                        rows as int,
                        self.current_windows().len() as int,
                        i,
                    ),
                }),
    {
        let mut placements: Vec<Placement> = Vec::new();
        if !self.tiling_enabled {
            return placements;
        }
        let ws = match self.workspaces.get(&self.current_workspace) {
            Some(w) => w,
            None => {
                return placements;
            },
        };
        if ws.len() == 0 {
            return placements;
        }
        let gaps = self.config.gaps;
        let inner_gap = self.config.inner_gap;
        let rects = match self.layout {
            Layout::MasterStack => compute_master_stack(ws.as_slice(), monitor, gaps, inner_gap, master_w),
            Layout::Grid => compute_grid(ws.as_slice(), monitor, gaps, inner_gap, cols, rows),
            Layout::Horizontal => compute_horizontal(ws.as_slice(), monitor, gaps, inner_gap),
            Layout::Vertical => compute_vertical(ws.as_slice(), monitor, gaps, inner_gap),
        };
        let mut i: usize = 0;
        while i < ws.len()
            invariant
                ws@ == self.current_windows(),
                rects@.len() == ws@.len(),
                forall|j: int| 0 <= j < rects@.len() ==> rects@[j].w >= 1 && rects@[j].h >= 1,
                forall|j: int|
                    0 <= j < rects@.len() ==> rects@[j] == layout_rect(
                        self.layout,
                        *monitor,
                        gaps as int,
                        inner_gap as int,
                        master_w as int,
                        cols as int,
                        rows as int,
                        ws@.len() as int,
                        j,
                    ),
                0 <= i <= ws@.len(),
                placements@.len() == i,
                forall|j: int|
                    0 <= j < i ==> placements@[j] == (Placement {
                        window: ws@[j],
                        rect: layout_rect(
                            self.layout,
                            *monitor,
                            gaps as int,
                            inner_gap as int,
                            master_w as int,
                            cols as int,
                            rows as int,
                            ws@.len() as int,
                            j,
                        ),
                    }),
            decreases ws@.len() - i,
        {
            let rect = rects[i];
            let w = if rect.w >= 1 {
                rect.w
            } else {
                1
            };
            let h = if rect.h >= 1 {
                rect.h
            } else {
                1
            };
            placements.push(Placement { window: ws[i], rect: Rect { x: rect.x, y: rect.y, w, h } });
            i = i + 1;
        }
        placements
    }

    /// Whether `tile_all` may be asked with these arguments: the layout in
    /// use stays within `i32` for the windows of the current workspace.
    pub fn tile_fits(&self, monitor: &Rect, master_w: i32, cols: i32, rows: i32) -> (r: bool)
        ensures
            r == (self.tiling() && self.current_windows().len() > 0 ==> layout_fits(
                self.layout_in_use(),
                self.current_windows().len() as int,
                *monitor,
                self.settings().gaps as int,
                self.settings().inner_gap as int,
                master_w as int,
                cols as int,
                rows as int,
            )),
    {
        let n = self.current_window_count();
        if !self.tiling_enabled || n == 0 {
            return true;
        }
        let gaps = self.config.gaps;
        let inner_gap = self.config.inner_gap;
        match self.layout {
            Layout::MasterStack => master_stack_fits_check(n, monitor, gaps, inner_gap, master_w),
            Layout::Grid => grid_fits_check(n, monitor, gaps, inner_gap, cols, rows),
            Layout::Horizontal => horizontal_fits_check(n, monitor, gaps, inner_gap),
            Layout::Vertical => vertical_fits_check(n, monitor, gaps, inner_gap),
        }
    }
}

/// Whether `h` is among `live`.
fn contains_window(live: &[WindowId], h: WindowId) -> (r: bool)
    ensures
        r == live@.contains(h),
{
    let mut i: usize = 0;
    while i < live.len()
        invariant
            0 <= i <= live@.len(),
            forall|j: int| 0 <= j < i ==> live@[j] != h,
        decreases live@.len() - i,
    {
        if live[i] == h {
            return true;
        }
        i = i + 1;
    }
    false
}

/// The windows of `ws` that are among `live`, in their order.
fn retain_live(ws: &Vec<WindowId>, live: &[WindowId]) -> (r: Vec<WindowId>)
    ensures
        r@ == keep_live(ws@, live@),
{
    let mut kept: Vec<WindowId> = Vec::new();
    let mut i: usize = 0;
    assert(ws@.take(0) =~= Seq::<WindowId>::empty());
    while i < ws.len()
        invariant
            0 <= i <= ws@.len(),
            kept@ == keep_live(ws@.take(i as int), live@),
        decreases ws@.len() - i,
    {
        assert(ws@.take(i + 1).drop_last() =~= ws@.take(i as int));
        if contains_window(live, ws[i]) {
            kept.push(ws[i]);
        }
        i = i + 1;
    }
    assert(ws@.take(ws@.len() as int) =~= ws@);
    kept
}

/// A copy of the windows of `ws`.
fn copy_windows(ws: &Vec<WindowId>) -> (r: Vec<WindowId>)
    ensures
        r@ == ws@,
{
    let mut out: Vec<WindowId> = Vec::new();
    let mut i: usize = 0;
    while i < ws.len()
        invariant
            0 <= i <= ws@.len(),
            out@ == ws@.take(i as int),
        decreases ws@.len() - i,
    {
        assert(ws@.take(i + 1) =~= ws@.take(i as int).push(ws@[i as int]));
        out.push(ws[i]);
        i = i + 1;
    }
    assert(ws@.take(ws@.len() as int) =~= ws@);
    out
}

/// Appends the windows of `ws` to `out`.
fn append_windows(out: &mut Vec<WindowId>, ws: &Vec<WindowId>)
    ensures
        final(out)@ == old(out)@ + ws@,
{
    let ghost start = out@;
    let mut i: usize = 0;
    while i < ws.len()
        invariant
            0 <= i <= ws@.len(),
            out@ == start + ws@.take(i as int),
        decreases ws@.len() - i,
    {
        assert(ws@.take(i + 1) =~= ws@.take(i as int).push(ws@[i as int]));
        out.push(ws[i]);
        i = i + 1;
    }
    assert(ws@.take(ws@.len() as int) =~= ws@);
}

/// The position of the focused window among `ws`, as `focus_index` gives it.
fn position(ws: &Vec<WindowId>, f: Option<WindowId>) -> (r: usize)
    ensures
        r == focus_index(ws@, f),
        ws@.len() > 0 ==> r < ws@.len(),
{
    match f {
        None => 0,
        Some(h) => {
            let mut i: usize = 0;
            while i < ws.len()
                invariant
                    0 <= i <= ws@.len(),
                    f == Some(h),
                    first_index_from(ws@, h, 0) == first_index_from(ws@, h, i as nat),
                decreases ws@.len() - i,
            {
                if ws[i] == h {
                    assert(first_index_from(ws@, h, i as nat) == i);
                    return i;
                }
                i = i + 1;
            }
            0
        },
    }
}

/// Appends the binding of the command `id` when its key is a known one.
/// `all` holds the bindings of all seven commands, and `k` is the position
/// of this one among them.
fn push_binding(
    binds: &mut Vec<HotkeyBinding>,
    id: i32,
    modifiers: u32,
    key: &str,
    Ghost(all): Ghost<Seq<HotkeyBinding>>,
    Ghost(k): Ghost<int>,
)
    requires
        0 <= k < all.len(),
        all[k] == action_binding(id, modifiers, key@),
        old(binds)@ == all.take(k).filter(|b: HotkeyBinding| b.vk != 0),
    ensures
        final(binds)@ == all.take(k + 1).filter(|b: HotkeyBinding| b.vk != 0),
{
    let vk = key_value(key);
    assert(all.take(k + 1) =~= all.take(k).push(all[k]));
    broadcast use Seq::lemma_filter_push;
    if vk != 0 {
        binds.push(HotkeyBinding { id, modifiers, vk });
    }
}

} // verus!
