//! A Hyprland port that answers from fixed state and counts the requests it
//! receives, for exercising the modules without a compositor.

use vstd::prelude::*;
use crate::hyprland::{
    HyprlandError, HyprlandKeyboardState, HyprlandMonitorInfo, HyprlandMonitorSelector,
    HyprlandPort, HyprlandWindowInfo, HyprlandWorkspaceInfo, HyprlandWorkspaceSelector,
    HyprlandWorkspaceSnapshot,
};

verus! {

/// A counter after one more request; it wraps around at the top.
pub open spec fn next_count(c: usize) -> usize {
    if c == usize::MAX {
        0
    } else {
        (c + 1) as usize
    }
}

fn bump(c: usize) -> (r: usize)
    ensures
        r == next_count(c),
{
    if c == usize::MAX {
        0
    } else {
        c + 1
    }
}

/// A Hyprland port answering from fixed state.
#[derive(Debug)]
pub struct MockHyprlandPort {
    pub active_window: Option<HyprlandWindowInfo>,
    pub workspace_snapshot: HyprlandWorkspaceSnapshot,
    pub keyboard_state: HyprlandKeyboardState,
    pub change_workspace_calls: usize,
    pub toggle_special_calls: usize,
    pub switch_layout_calls: usize,
}

/// The state of a fresh mock: a window titled `Mock Window` of class
/// `MockClass`, one monitor `MockMonitor` (id 0) showing workspace `1`
/// (active, no windows), layout `us` among several, submap `resize`, and no
/// requests counted.
pub open spec fn is_default_mock(p: MockHyprlandPort) -> bool {
    &&& p.active_window matches Some(w) && w.title@ == "Mock Window"@ && w.class@ == "MockClass"@
    &&& is_default_mock_state(p)
}

/// Everything of a fresh mock but its active window: one monitor
/// `MockMonitor` (id 0) showing workspace `1` (active, no windows), layout
/// `us` among several, submap `resize`, and no requests counted.
pub open spec fn is_default_mock_state(p: MockHyprlandPort) -> bool {
    &&& p.workspace_snapshot.monitors@.len() == 1
    &&& p.workspace_snapshot.monitors@[0].id == 0
    &&& p.workspace_snapshot.monitors@[0].name@ == "MockMonitor"@
    &&& p.workspace_snapshot.monitors@[0].special_workspace_id is None
    &&& p.workspace_snapshot.workspaces@.len() == 1
    &&& p.workspace_snapshot.workspaces@[0].id == 1
    &&& p.workspace_snapshot.workspaces@[0].name@ == "1"@
    &&& p.workspace_snapshot.workspaces@[0].monitor_id == Some(0usize)
    &&& p.workspace_snapshot.workspaces@[0].monitor_name@ == "MockMonitor"@
    &&& p.workspace_snapshot.workspaces@[0].window_count == 0
    &&& p.workspace_snapshot.active_workspace_id == Some(1i32)
    &&& p.keyboard_state.active_layout@ == "us"@
    &&& p.keyboard_state.has_multiple_layouts
    &&& p.keyboard_state.active_submap matches Some(s) && s@ == "resize"@
    &&& p.change_workspace_calls == 0
    &&& p.toggle_special_calls == 0
    &&& p.switch_layout_calls == 0
}

impl Default for MockHyprlandPort {
    fn default() -> (p: Self)
        ensures
            is_default_mock(p),
    {
        let mut monitors: Vec<HyprlandMonitorInfo> = Vec::new();
        monitors.push(
            HyprlandMonitorInfo {
                id: 0,
                name: "MockMonitor".to_owned(),
                special_workspace_id: None,
            },
        );
        let mut workspaces: Vec<HyprlandWorkspaceInfo> = Vec::new();
        workspaces.push(
            HyprlandWorkspaceInfo {
                id: 1,
                name: "1".to_owned(),
                monitor_id: Some(0),
                monitor_name: "MockMonitor".to_owned(),
                window_count: 0,
            },
        );
        MockHyprlandPort {
            active_window: Some(
                HyprlandWindowInfo {
                    title: "Mock Window".to_owned(),
                    class: "MockClass".to_owned(),
                },
            ),
            workspace_snapshot: HyprlandWorkspaceSnapshot {
                monitors,
                workspaces,
                active_workspace_id: Some(1),
            },
            keyboard_state: HyprlandKeyboardState {
                active_layout: "us".to_owned(),
                has_multiple_layouts: true,
                active_submap: Some("resize".to_owned()),
            },
            change_workspace_calls: 0,
            toggle_special_calls: 0,
            switch_layout_calls: 0,
        }
    }
}

impl MockHyprlandPort {
    /// A fresh mock whose active window has the given title and class.
    pub fn with_active_window(title: &str, class: &str) -> (p: Self)
        ensures
            p.active_window matches Some(w) && w.title@ == title@ && w.class@ == class@,
            is_default_mock_state(p),
    {
        let mut port = Self::default();
        port.active_window = Some(
            HyprlandWindowInfo { title: title.to_owned(), class: class.to_owned() },
        );
        port
    }

    /// How many workspace changes were requested.
    pub fn workspace_calls(&self) -> (n: usize)
        ensures
            n == self.change_workspace_calls,
    {
        self.change_workspace_calls
    }

    /// How many special-workspace toggles were requested.
    pub fn toggle_special_calls(&self) -> (n: usize)
        ensures
            n == self.toggle_special_calls,
    {
        self.toggle_special_calls
    }

    /// How many layout switches were requested.
    pub fn switch_layout_calls(&self) -> (n: usize)
        ensures
            n == self.switch_layout_calls,
    {
        self.switch_layout_calls
    }
}

impl HyprlandPort for MockHyprlandPort {
    fn active_window(&self) -> (r: Result<Option<HyprlandWindowInfo>, HyprlandError>)
        ensures
            r matches Ok(w) && w == self.active_window,
    {
        match &self.active_window {
            Some(w) => Ok(Some(w.clone())),
            None => Ok(None),
        }
    }

    fn workspace_snapshot(&self) -> (r: Result<HyprlandWorkspaceSnapshot, HyprlandError>)
        ensures
            r matches Ok(s) && s.monitors@ == self.workspace_snapshot.monitors@
                && s.workspaces@ == self.workspace_snapshot.workspaces@
                && s.active_workspace_id == self.workspace_snapshot.active_workspace_id,
    {
        Ok(self.workspace_snapshot.clone())
    }

    fn change_workspace(&mut self, workspace: HyprlandWorkspaceSelector) -> (r: Result<
        (),
        HyprlandError,
    >)
        ensures
            r is Ok,
            final(self).change_workspace_calls == next_count(old(self).change_workspace_calls),
            final(self).toggle_special_calls == old(self).toggle_special_calls,
            final(self).switch_layout_calls == old(self).switch_layout_calls,
    {
        self.change_workspace_calls = bump(self.change_workspace_calls);
        Ok(())
    }

    fn focus_and_toggle_special_workspace(
        &mut self,
        monitor: HyprlandMonitorSelector,
        workspace_name: &str,
    ) -> (r: Result<(), HyprlandError>)
        ensures
            r is Ok,
            final(self).toggle_special_calls == next_count(old(self).toggle_special_calls),
            final(self).change_workspace_calls == old(self).change_workspace_calls,
            final(self).switch_layout_calls == old(self).switch_layout_calls,
    {
        self.toggle_special_calls = bump(self.toggle_special_calls);
        Ok(())
    }

    fn keyboard_state(&self) -> (r: Result<HyprlandKeyboardState, HyprlandError>)
        ensures
            r matches Ok(k) && k == self.keyboard_state,
    {
        Ok(self.keyboard_state.clone())
    }

    fn switch_keyboard_layout(&mut self) -> (r: Result<(), HyprlandError>)
        ensures
            r is Ok,
            final(self).switch_layout_calls == next_count(old(self).switch_layout_calls),
            final(self).change_workspace_calls == old(self).change_workspace_calls,
            final(self).toggle_special_calls == old(self).toggle_special_calls,
    {
        self.switch_layout_calls = bump(self.switch_layout_calls);
        Ok(())
    }
}

} // verus!
