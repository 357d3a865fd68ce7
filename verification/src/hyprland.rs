//! Hyprland port: the data that Hyprland reports about monitors, workspaces,
//! windows and keyboards, and the selectors used to address them.

use vstd::prelude::*;
use crate::text::{concat2, concat3, i64_to_decimal, u64_to_decimal, int_decimal, nat_decimal};

verus! {

/// Error returned by Hyprland port operations. Each variant records the
/// logical operation that failed.
#[derive(Debug)]
pub enum HyprlandError {
    /// The requested operation timed out before it could complete.
    Timeout { operation: &'static str, timeout: std::time::Duration },
    /// The backend failed to execute the requested operation.
    Backend { operation: &'static str, source: String },
    /// No async runtime was active to perform the operation.
    RuntimeUnavailable { operation: &'static str },
    /// The operation is not supported by the backend.
    Unsupported { operation: &'static str },
    /// The operation failed with an explanatory message.
    Message { operation: &'static str, message: String },
}

impl HyprlandError {
    /// Builds [`HyprlandError::Unsupported`].
    pub fn unsupported(operation: &'static str) -> (e: Self)
        ensures
            e == (HyprlandError::Unsupported { operation }),
    {
        HyprlandError::Unsupported { operation }
    }

    /// Builds [`HyprlandError::RuntimeUnavailable`].
    pub fn runtime_unavailable(operation: &'static str) -> (e: Self)
        ensures
            e == (HyprlandError::RuntimeUnavailable { operation }),
    {
        HyprlandError::RuntimeUnavailable { operation }
    }

    /// Builds [`HyprlandError::Message`].
    pub fn message(operation: &'static str, message: String) -> (e: Self)
        ensures
            e == (HyprlandError::Message { operation, message }),
    {
        HyprlandError::Message { operation, message }
    }
}

/// The text of an error whose variant fixes it; `None` for a timeout, whose
/// text ends in the `Debug` form of the duration.
pub open spec fn hyprland_error_text(e: HyprlandError) -> Option<Seq<char>> {
    match e {
        HyprlandError::Timeout { .. } => None,
        HyprlandError::Backend { operation, source } => Some(
            "operation `"@ + operation@ + "` failed: "@ + source@,
        ),
        HyprlandError::RuntimeUnavailable { operation } => Some(
            "operation `"@ + operation@ + "` unavailable because no async runtime is active"@,
        ),
        HyprlandError::Unsupported { operation } => Some(
            "operation `"@ + operation@ + "` not supported by this Hyprland backend"@,
        ),
        HyprlandError::Message { operation, message } => Some(
            "operation `"@ + operation@ + "` failed: "@ + message@,
        ),
    }
}

/// The `Debug` form of a duration (such as `1.5s` or `250ms`), written with
/// `format!("{:?}", ..)`. Nothing is claimed of the text: `Duration` is
/// opaque here.
#[verifier::external_body]
fn duration_debug(d: &std::time::Duration) -> (s: String) {
    format!("{:?}", d)
}

impl HyprlandError {
    /// The description of the error: the operation, then what went wrong.
    /// A timeout's text ends in the `Debug` form of its duration.
    pub fn to_string(&self) -> (s: String)
        ensures
            hyprland_error_text(*self) matches Some(t) ==> s@ == t,
            self matches HyprlandError::Timeout { operation, .. } ==> ("operation `"@ + operation@
                + "` timed out after "@).is_prefix_of(s@),
    {
        match self {
            HyprlandError::Timeout { operation, timeout } => {
                let mut s = concat3("operation `", operation, "` timed out after ");
                let d = duration_debug(timeout);
                let ghost head = s@;
                s.append(d.as_str());
                proof {
                    assert(s@.subrange(0, head.len() as int) =~= head);
                }
                s
            },
            HyprlandError::Backend { operation, source } => {
                let mut s = concat3("operation `", operation, "` failed: ");
                s.append(source.as_str());
                s
            },
            HyprlandError::RuntimeUnavailable { operation } => concat3(
                "operation `",
                operation,
                "` unavailable because no async runtime is active",
            ),
            HyprlandError::Unsupported { operation } => concat3(
                "operation `",
                operation,
                "` not supported by this Hyprland backend",
            ),
            HyprlandError::Message { operation, message } => {
                let mut s = concat3("operation `", operation, "` failed: ");
                s.append(message.as_str());
                s
            },
        }
    }
}

/// Metadata describing a Hyprland monitor.
#[derive(Debug, PartialEq, Eq)]
pub struct HyprlandMonitorInfo {
    /// Monitor identifier as reported by Hyprland.
    pub id: i32,
    /// Human readable monitor name.
    pub name: String,
    /// ID of the special workspace focused on this monitor, if any.
    pub special_workspace_id: Option<i32>,
}

/// Metadata describing a Hyprland workspace.
#[derive(Debug, PartialEq, Eq)]
pub struct HyprlandWorkspaceInfo {
    /// Workspace identifier.
    pub id: i32,
    /// Workspace name.
    pub name: String,
    /// Index of the monitor the workspace is assigned to, if any.
    pub monitor_id: Option<usize>,
    /// Name of the monitor the workspace is assigned to.
    pub monitor_name: String,
    /// Number of windows currently present in the workspace.
    pub window_count: u16,
}

/// Immutable snapshot describing monitors and workspaces.
#[derive(Debug, PartialEq, Eq)]
pub struct HyprlandWorkspaceSnapshot {
    /// Known monitors reported by Hyprland.
    pub monitors: Vec<HyprlandMonitorInfo>,
    /// Known workspaces reported by Hyprland.
    pub workspaces: Vec<HyprlandWorkspaceInfo>,
    /// Identifier of the currently active workspace, if available.
    pub active_workspace_id: Option<i32>,
}

/// Metadata describing the focused Hyprland window.
#[derive(Debug, PartialEq, Eq)]
pub struct HyprlandWindowInfo {
    /// Window title provided by the client.
    pub title: String,
    /// Window class name.
    pub class: String,
}

/// Snapshot of the keyboard state known to Hyprland.
#[derive(Debug, PartialEq, Eq)]
pub struct HyprlandKeyboardState {
    /// Currently active XKB layout.
    pub active_layout: String,
    /// Whether multiple layouts are configured.
    pub has_multiple_layouts: bool,
    /// Name of the currently active submap, if any.
    pub active_submap: Option<String>,
}

/// Identifies a monitor for Hyprland dispatch calls.
#[derive(Clone, Debug, PartialEq, Eq)]
pub enum HyprlandMonitorSelector {
    /// Select monitor by its numeric identifier.
    Id(usize),
    /// Select monitor by its name.
    Name(String),
}

/// The text form of a monitor selector: `monitor-id:<id>` or
/// `monitor-name:<name>`.
pub open spec fn monitor_selector_text(s: HyprlandMonitorSelector) -> Seq<char> {
    match s {
        HyprlandMonitorSelector::Id(id) => "monitor-id:"@ + nat_decimal(id as nat),
        HyprlandMonitorSelector::Name(name) => "monitor-name:"@ + name@,
    }
}

impl HyprlandMonitorSelector {
    /// Renders the selector as `monitor-id:<id>` or `monitor-name:<name>`.
    pub fn to_string(&self) -> (s: String)
        ensures
            s@ == monitor_selector_text(*self),
    {
        match self {
            HyprlandMonitorSelector::Id(id) => {
                let digits = u64_to_decimal(*id as u64);
                concat2("monitor-id:", digits.as_str())
            },
            HyprlandMonitorSelector::Name(name) => concat2("monitor-name:", name.as_str()),
        }
    }
}

/// Identifies a workspace for Hyprland dispatch calls.
#[derive(Clone, Debug, PartialEq, Eq)]
pub enum HyprlandWorkspaceSelector {
    /// Select workspace by numeric identifier.
    Id(i32),
    /// Select workspace by name.
    Name(String),
}

/// The text form of a workspace selector: `workspace-id:<id>` or
/// `workspace-name:<name>`.
pub open spec fn workspace_selector_text(s: HyprlandWorkspaceSelector) -> Seq<char> {
    match s {
        HyprlandWorkspaceSelector::Id(id) => "workspace-id:"@ + int_decimal(id as int),
        HyprlandWorkspaceSelector::Name(name) => "workspace-name:"@ + name@,
    }
}

impl HyprlandWorkspaceSelector {
    /// Renders the selector as `workspace-id:<id>` or `workspace-name:<name>`.
    pub fn to_string(&self) -> (s: String)
        ensures
            s@ == workspace_selector_text(*self),
    {
        match self {
            HyprlandWorkspaceSelector::Id(id) => {
                let digits = i64_to_decimal(*id as i64);
                concat2("workspace-id:", digits.as_str())
            },
            HyprlandWorkspaceSelector::Name(name) => concat2("workspace-name:", name.as_str()),
        }
    }
}

/// Events related to Hyprland windows.
#[derive(Clone, Debug, PartialEq, Eq, Structural)]
pub enum HyprlandWindowEvent {
    /// The active window changed.
    ActiveWindowChanged,
    /// A workspace focus change occurred.
    WorkspaceFocusChanged,
    /// A window was closed.
    WindowClosed,
}

/// Events related to Hyprland workspaces.
#[derive(Clone, Debug, PartialEq, Eq, Structural)]
pub enum HyprlandWorkspaceEvent {
    /// A new workspace was added.
    Added,
    /// Workspace metadata changed.
    Changed,
    /// A workspace was removed.
    Removed,
    /// A workspace was moved to another monitor.
    Moved,
    /// The active special workspace changed.
    SpecialChanged,
    /// A special workspace was removed.
    SpecialRemoved,
    /// A window opened within a workspace.
    WindowOpened,
    /// A window closed within a workspace.
    WindowClosed,
    /// A window was moved between workspaces.
    WindowMoved,
    /// The active monitor changed.
    ActiveMonitorChanged,
}

/// Keyboard related Hyprland events.
#[derive(Clone, Debug, PartialEq, Eq)]
pub enum HyprlandKeyboardEvent {
    /// The active keyboard layout changed.
    LayoutChanged(String),
    /// Keyboard layout configuration changed (e.g. config reload).
    LayoutConfigurationChanged(bool),
    /// The active keyboard submap changed.
    SubmapChanged(Option<String>),
}

impl Clone for HyprlandMonitorInfo {
    fn clone(&self) -> (r: Self)
        ensures
            r == *self,
    {
        HyprlandMonitorInfo {
            id: self.id,
            name: self.name.clone(),
            special_workspace_id: self.special_workspace_id,
        }
    }
}

impl Clone for HyprlandWorkspaceInfo {
    fn clone(&self) -> (r: Self)
        ensures
            r == *self,
    {
        HyprlandWorkspaceInfo {
            id: self.id,
            name: self.name.clone(),
            monitor_id: self.monitor_id,
            monitor_name: self.monitor_name.clone(),
            window_count: self.window_count,
        }
    }
}

impl Clone for HyprlandWorkspaceSnapshot {
    fn clone(&self) -> (r: Self)
        ensures
            r.monitors@ == self.monitors@,
            r.workspaces@ == self.workspaces@,
            r.active_workspace_id == self.active_workspace_id,
    {
        let monitors = self.monitors.clone();
        assert(monitors@ =~= self.monitors@);
        let workspaces = self.workspaces.clone();
        assert(workspaces@ =~= self.workspaces@);
        HyprlandWorkspaceSnapshot {
            monitors,
            workspaces,
            active_workspace_id: self.active_workspace_id,
        }
    }
}

impl Clone for HyprlandWindowInfo {
    fn clone(&self) -> (r: Self)
        ensures
            r == *self,
    {
        HyprlandWindowInfo { title: self.title.clone(), class: self.class.clone() }
    }
}

impl Clone for HyprlandKeyboardState {
    fn clone(&self) -> (r: Self)
        ensures
            r == *self,
    {
        HyprlandKeyboardState {
            active_layout: self.active_layout.clone(),
            has_multiple_layouts: self.has_multiple_layouts,
            active_submap: match &self.active_submap {
                Some(m) => Some(m.clone()),
                None => None,
            },
        }
    }
}

/// The operations the bar asks of Hyprland. Event subscriptions are wired
/// by the application around the library.
pub trait HyprlandPort {
    /// The currently active window, if any.
    fn active_window(&self) -> Result<Option<HyprlandWindowInfo>, HyprlandError>;

    /// The latest snapshot of monitors and workspaces.
    fn workspace_snapshot(&self) -> Result<HyprlandWorkspaceSnapshot, HyprlandError>;

    /// Focuses the given workspace.
    fn change_workspace(&mut self, workspace: HyprlandWorkspaceSelector) -> Result<(), HyprlandError>;

    /// Focuses the given monitor and toggles a special workspace by name.
    fn focus_and_toggle_special_workspace(
        &mut self,
        monitor: HyprlandMonitorSelector,
        workspace_name: &str,
    ) -> Result<(), HyprlandError>;

    /// The current keyboard state.
    fn keyboard_state(&self) -> Result<HyprlandKeyboardState, HyprlandError>;

    /// Switches to the next keyboard layout.
    fn switch_keyboard_layout(&mut self) -> Result<(), HyprlandError>;
}

} // verus!
