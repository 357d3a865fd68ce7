//! Module layout configuration: where each module is placed on the bar.

use vstd::prelude::*;
use crate::text::str_eq;

verus! {

/// Bar placement configuration.
#[derive(Clone, Copy, Debug, PartialEq, Eq, Structural)]
pub enum Position {
    /// Render the bar at the top of the output.
    Top,
    /// Render the bar at the bottom of the output.
    Bottom,
}

impl Default for Position {
    fn default() -> (p: Self)
        ensures
            p == Position::Top,
    {
        Position::Top
    }
}

/// Named module variants supported by the bar.
#[derive(Clone, Debug, PartialEq, Eq, Hash, PartialOrd, Ord)]
pub enum ModuleName {
    AppLauncher,
    Updates,
    Clipboard,
    Workspaces,
    WindowTitle,
    SystemInfo,
    KeyboardLayout,
    KeyboardSubmap,
    Tray,
    Clock,
    Battery,
    Privacy,
    Settings,
    MediaPlayer,
    /// A user-defined module, by name.
    Custom(String),
}

/// Whether `m` is the built-in module whose configuration name is `s`.
pub open spec fn builtin_module_named(s: Seq<char>, m: ModuleName) -> bool {
    ||| s == "AppLauncher"@ && m == ModuleName::AppLauncher
    ||| s == "Updates"@ && m == ModuleName::Updates
    ||| s == "Clipboard"@ && m == ModuleName::Clipboard
    ||| s == "Workspaces"@ && m == ModuleName::Workspaces
    ||| s == "WindowTitle"@ && m == ModuleName::WindowTitle
    ||| s == "SystemInfo"@ && m == ModuleName::SystemInfo
    ||| s == "KeyboardLayout"@ && m == ModuleName::KeyboardLayout
    ||| s == "KeyboardSubmap"@ && m == ModuleName::KeyboardSubmap
    ||| s == "Tray"@ && m == ModuleName::Tray
    ||| s == "Clock"@ && m == ModuleName::Clock
    ||| s == "Battery"@ && m == ModuleName::Battery
    ||| s == "Privacy"@ && m == ModuleName::Privacy
    ||| s == "Settings"@ && m == ModuleName::Settings
    ||| s == "MediaPlayer"@ && m == ModuleName::MediaPlayer
}

/// Whether `s` names one of the built-in modules.
pub open spec fn is_builtin_name(s: Seq<char>) -> bool {
    ||| s == "AppLauncher"@
    ||| s == "Updates"@
    ||| s == "Clipboard"@
    ||| s == "Workspaces"@
    ||| s == "WindowTitle"@
    ||| s == "SystemInfo"@
    ||| s == "KeyboardLayout"@
    ||| s == "KeyboardSubmap"@
    ||| s == "Tray"@
    ||| s == "Clock"@
    ||| s == "Battery"@
    ||| s == "Privacy"@
    ||| s == "Settings"@
    ||| s == "MediaPlayer"@
}

impl ModuleName {
    /// The module that a configuration string names: a built-in module by
    /// its exact name, any other string a custom module of that name.
    pub fn from_name(value: &str) -> (m: ModuleName)
        ensures
            is_builtin_name(value@) ==> builtin_module_named(value@, m),
            !is_builtin_name(value@) ==> (m matches ModuleName::Custom(n) && n@ == value@),
    {
        if str_eq(value, "AppLauncher") {
            ModuleName::AppLauncher
        } else if str_eq(value, "Updates") {
            ModuleName::Updates
        } else if str_eq(value, "Clipboard") {
            ModuleName::Clipboard
        } else if str_eq(value, "Workspaces") {
            ModuleName::Workspaces
        } else if str_eq(value, "WindowTitle") {
            ModuleName::WindowTitle
        } else if str_eq(value, "SystemInfo") {
            ModuleName::SystemInfo
        } else if str_eq(value, "KeyboardLayout") {
            ModuleName::KeyboardLayout
        } else if str_eq(value, "KeyboardSubmap") {
            ModuleName::KeyboardSubmap
        } else if str_eq(value, "Tray") {
            ModuleName::Tray
        } else if str_eq(value, "Clock") {
            ModuleName::Clock
        } else if str_eq(value, "Battery") {
            ModuleName::Battery
        } else if str_eq(value, "Privacy") {
            ModuleName::Privacy
        } else if str_eq(value, "Settings") {
            ModuleName::Settings
        } else if str_eq(value, "MediaPlayer") {
            ModuleName::MediaPlayer
        } else {
            ModuleName::Custom(value.to_owned())
        }
    }
}

/// One entry of a bar region: a single module or a group shown together.
#[derive(Clone, Debug, PartialEq, Eq)]
pub enum ModuleDef {
    Single(ModuleName),
    Group(Vec<ModuleName>),
}

/// The module layout of the three bar regions.
#[derive(Clone, Debug, PartialEq, Eq)]
pub struct Modules {
    pub left: Vec<ModuleDef>,
    pub center: Vec<ModuleDef>,
    pub right: Vec<ModuleDef>,
}

/// The default layout: workspaces on the left, the window title in the
/// center, and the clock, privacy, battery and settings modules grouped on
/// the right.
pub open spec fn is_default_layout(m: Modules) -> bool {
    &&& m.left@.len() == 1
    &&& m.left@[0] == ModuleDef::Single(ModuleName::Workspaces)
    &&& m.center@.len() == 1
    &&& m.center@[0] == ModuleDef::Single(ModuleName::WindowTitle)
    &&& m.right@.len() == 1
    &&& m.right@[0] matches ModuleDef::Group(g) && g@ == seq![
        ModuleName::Clock,
        ModuleName::Privacy,
        ModuleName::Battery,
        ModuleName::Settings,
    ]
}

impl Default for Modules {
    /// Workspaces on the left, the window title in the center, and the
    /// clock, privacy, battery and settings modules grouped on the right.
    fn default() -> (m: Self)
        ensures
            m.left@.len() == 1,
            m.left@[0] == ModuleDef::Single(ModuleName::Workspaces),
            m.center@.len() == 1,
            m.center@[0] == ModuleDef::Single(ModuleName::WindowTitle),
            m.right@.len() == 1,
            m.right@[0] matches ModuleDef::Group(g) && g@ == seq![
                ModuleName::Clock,
                ModuleName::Privacy,
                ModuleName::Battery,
                ModuleName::Settings,
            ],
    {
        let mut left: Vec<ModuleDef> = Vec::new();
        left.push(ModuleDef::Single(ModuleName::Workspaces));
        let mut center: Vec<ModuleDef> = Vec::new();
        center.push(ModuleDef::Single(ModuleName::WindowTitle));
        let mut group: Vec<ModuleName> = Vec::new();
        group.push(ModuleName::Clock);
        group.push(ModuleName::Privacy);
        group.push(ModuleName::Battery);
        group.push(ModuleName::Settings);
        assert(group@ =~= seq![
            ModuleName::Clock,
            ModuleName::Privacy,
            ModuleName::Battery,
            ModuleName::Settings,
        ]);
        let mut right: Vec<ModuleDef> = Vec::new();
        right.push(ModuleDef::Group(group));
        Modules { left, center, right }
    }
}

/// Which outputs the bar is shown on.
#[derive(Clone, Debug, PartialEq, Eq)]
pub enum Outputs {
    /// Every output.
    All,
    /// The focused output.
    Active,
    /// The named outputs; the list is never empty.
    Targets(Vec<String>),
}

impl Default for Outputs {
    fn default() -> (o: Self)
        ensures
            o == Outputs::All,
    {
        Outputs::All
    }
}

/// Accepts a list of output targets only when it is not empty.
pub fn non_empty<T>(values: Vec<T>) -> (r: Result<Vec<T>, &'static str>)
    ensures
        values@.len() == 0 ==> (r matches Err(e) && e@ == "need non-empty"@),
        values@.len() > 0 ==> r == Ok::<Vec<T>, &'static str>(values),
{
    if values.len() == 0 {
        proof {
            reveal_strlit("need non-empty");
        }
        Err("need non-empty")
    } else {
        Ok(values)
    }
}

} // verus!
