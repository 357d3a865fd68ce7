//! Keybindings for keyboard navigation of the bar and its menus.

use vstd::prelude::*;

verus! {

/// Keybindings configuration for keyboard navigation.
#[derive(Clone, Debug, PartialEq, Eq)]
pub struct Keybindings {
    pub enabled: bool,
    pub global: GlobalKeybindings,
    pub menu: MenuKeybindings,
}

/// Keybindings are enabled unless configured otherwise.
pub fn default_enabled() -> (b: bool)
    ensures
        b,
{
    true
}

impl Default for Keybindings {
    /// Enabled, with the default global and menu bindings.
    fn default() -> (k: Self)
        ensures
            k.enabled,
            k.global.activate_navigation@ == "Super+h+b"@,
            k.menu.up@ == "k"@,
            k.menu.down@ == "j"@,
            k.menu.left@ == "h"@,
            k.menu.right@ == "l"@,
    {
        Keybindings {
            enabled: default_enabled(),
            global: GlobalKeybindings::default(),
            menu: MenuKeybindings::default(),
        }
    }
}

/// Global keybindings for the navigation mode.
#[derive(Clone, Debug, PartialEq, Eq)]
pub struct GlobalKeybindings {
    pub activate_navigation: String,
}

/// The default chord that activates navigation.
pub fn default_activate_navigation() -> (s: String)
    ensures
        s@ == "Super+h+b"@,
{
    "Super+h+b".to_owned()
}

impl Default for GlobalKeybindings {
    fn default() -> (g: Self)
        ensures
            g.activate_navigation@ == "Super+h+b"@,
    {
        GlobalKeybindings { activate_navigation: default_activate_navigation() }
    }
}

/// Keybindings for menu navigation.
#[derive(Clone, Debug, PartialEq, Eq)]
pub struct MenuKeybindings {
    pub up: String,
    pub down: String,
    pub left: String,
    pub right: String,
}

/// The default key for moving up.
pub fn default_up() -> (s: String)
    ensures
        s@ == "k"@,
{
    "k".to_owned()
}

/// The default key for moving down.
pub fn default_down() -> (s: String)
    ensures
        s@ == "j"@,
{
    "j".to_owned()
}

/// The default key for moving left.
pub fn default_left() -> (s: String)
    ensures
        s@ == "h"@,
{
    "h".to_owned()
}

/// The default key for moving right.
pub fn default_right() -> (s: String)
    ensures
        s@ == "l"@,
{
    "l".to_owned()
}

impl Default for MenuKeybindings {
    /// Vim-style bindings: `k`, `j`, `h`, `l`.
    fn default() -> (m: Self)
        ensures
            m.up@ == "k"@,
            m.down@ == "j"@,
            m.left@ == "h"@,
            m.right@ == "l"@,
    {
        MenuKeybindings {
            up: default_up(),
            down: default_down(),
            left: default_left(),
            right: default_right(),
        }
    }
}

} // verus!
