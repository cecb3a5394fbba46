//! The window manager's settings and their default values.
//!
//! Reading and writing the settings file is left to the program around the
//! library; here are the settings themselves and the value of each one that
//! the file leaves out.
use vstd::prelude::*;

verus! {

/// All settings of the window manager.
#[derive(Debug)]
pub struct Config {
    /// The gap between the monitor's edge and the tiled windows.
    pub gaps: i32,
    /// The width of a window's border.
    pub border: i32,
    /// The gap between two tiled windows.
    pub inner_gap: i32,
    /// How long a window's move is animated, in milliseconds.
    pub animation_ms: u32,
    /// The keys that trigger the commands.
    pub keybinds: Keybinds,
    /// The workspaces.
    pub workspace: WorkspaceConfig,
}

/// The modifier and the key of each command.
#[derive(Debug)]
pub struct Keybinds {
    pub modifier: String,
    pub tile_toggle: String,
    pub kill: String,
    pub focus_next: String,
    pub focus_prev: String,
    pub swap_next: String,
    pub fullscreen: String,
    pub launch_terminal: String,
}

/// How many workspaces there are.
#[derive(Debug)]
pub struct WorkspaceConfig {
    pub count: u32,
}

/// The default outer gap.
pub fn default_gaps() -> (r: i32)
    ensures
        r == 10,
{
    10
}

/// The default border width.
pub fn default_border() -> (r: i32)
    ensures
        r == 2,
{
    2
}

/// The default gap between windows.
pub fn default_inner_gap() -> (r: i32)
    ensures
        r == 8,
{
    8
}

/// The default animation time in milliseconds.
pub fn default_animation_ms() -> (r: u32)
    ensures
        r == 150,
{
    150
}

/// The default modifier key.
pub fn default_mod() -> (r: String)
    ensures
        r@ == "alt"@,
{
    "alt".to_owned()
}

/// The default key that toggles tiling.
pub fn default_tile_toggle() -> (r: String)
    ensures
        r@ == "t"@,
{
    "t".to_owned()
}

/// The default key that closes the focused window.
pub fn default_kill() -> (r: String)
    ensures
        r@ == "q"@,
{
    "q".to_owned()
}

/// The default key that focuses the next window.
pub fn default_focus_next() -> (r: String)
    ensures
        r@ == "j"@,
{
    "j".to_owned()
}

/// The default key that focuses the previous window.
pub fn default_focus_prev() -> (r: String)
    ensures
        r@ == "k"@,
{
    "k".to_owned()
}

/// The default key that swaps the focused window with the next one.
pub fn default_swap_next() -> (r: String)
    ensures
        r@ == "l"@,
{
    "l".to_owned()
}

/// The default key that toggles full screen.
pub fn default_fullscreen() -> (r: String)
    ensures
        r@ == "f"@,
{
    "f".to_owned()
}

/// The default key that launches a terminal.
pub fn default_launch_terminal() -> (r: String)
    ensures
        r@ == "return"@,
{
    "return".to_owned()
}

/// The default number of workspaces.
pub fn default_count() -> (r: u32)
    ensures
        r == 9,
{
    9
}

impl Keybinds {
    /// Every key binding has its default value.
    pub open spec fn is_default(&self) -> bool {
        &&& self.modifier@ == "alt"@
        &&& self.tile_toggle@ == "t"@
        &&& self.kill@ == "q"@
        &&& self.focus_next@ == "j"@
        &&& self.focus_prev@ == "k"@
        &&& self.swap_next@ == "l"@
        &&& self.fullscreen@ == "f"@
        &&& self.launch_terminal@ == "return"@
    }
}

impl Default for Keybinds {
    fn default() -> (r: Self)
        ensures
            r.is_default(),
    {
        Keybinds {
            modifier: default_mod(),
            tile_toggle: default_tile_toggle(),
            kill: default_kill(),
            focus_next: default_focus_next(),
            focus_prev: default_focus_prev(),
            swap_next: default_swap_next(),
            fullscreen: default_fullscreen(),
            launch_terminal: default_launch_terminal(),
        }
    }
}

impl Default for WorkspaceConfig {
    fn default() -> (r: Self)
        ensures
            r.count == 9,
    {
        WorkspaceConfig { count: default_count() }
    }
}

impl Config {
    /// Every setting has its default value.
    pub open spec fn is_default(&self) -> bool {
        &&& self.gaps == 10
        &&& self.border == 2
        &&& self.inner_gap == 8
        &&& self.animation_ms == 150
        &&& self.keybinds.is_default()
        &&& self.workspace.count == 9
    }

    /// The settings used where there is no settings file, or one that cannot be read.
    pub fn defaults() -> (r: Self)
        ensures
            r.is_default(),
    {
        Config {
            gaps: default_gaps(),
            border: default_border(),
            inner_gap: default_inner_gap(),
            animation_ms: default_animation_ms(),
            keybinds: Keybinds::default(),
            workspace: WorkspaceConfig::default(),
        }
    }
}

} // verus!
