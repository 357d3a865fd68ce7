//! The workspaces module: the list of workspaces shown on the bar, computed
//! from a Hyprland snapshot, and the dispatch requests that clicks on it make.

use vstd::prelude::*;
use crate::config::appearance::AppearanceColor;
use crate::config::{WorkspaceVisibilityMode, WorkspacesModuleConfig};
use crate::hyprland::{
    HyprlandMonitorInfo, HyprlandMonitorSelector, HyprlandWorkspaceInfo,
    HyprlandWorkspaceSelector, HyprlandWorkspaceSnapshot,
};
use crate::text::{i64_to_decimal, int_decimal, str_eq};

verus! {

/// A workspace as shown on the bar.
#[derive(Debug)]
pub struct Workspace {
    /// Workspace identifier; special workspaces have negative identifiers.
    pub id: i32,
    /// Displayed name.
    pub name: String,
    /// Index of the monitor used for the colour lookup, if any.
    pub monitor_id: Option<usize>,
    /// Name of the monitor the workspace belongs to.
    pub monitor: String,
    /// Whether the workspace is focused.
    pub active: bool,
    /// Number of windows on the workspace.
    pub windows: u16,
}

/// The mathematical value of a [`Workspace`]: its strings taken as character
/// sequences.
pub struct WorkspaceView {
    pub id: i32,
    pub name: Seq<char>,
    pub monitor_id: Option<usize>,
    pub monitor: Seq<char>,
    pub active: bool,
    pub windows: u16,
}

impl View for Workspace {
    type V = WorkspaceView;

    open spec fn view(&self) -> WorkspaceView {
        WorkspaceView {
            id: self.id,
            name: self.name@,
            monitor_id: self.monitor_id,
            monitor: self.monitor@,
            active: self.active,
            windows: self.windows,
        }
    }
}

impl Clone for Workspace {
    fn clone(&self) -> (r: Self)
        ensures
            r == *self,
    {
        Workspace {
            id: self.id,
            name: self.name.clone(),
            monitor_id: self.monitor_id,
            monitor: self.monitor.clone(),
            active: self.active,
            windows: self.windows,
        }
    }
}

/// Whether some workspace info in `s` has identifier `id`.
pub open spec fn info_has_id(s: Seq<HyprlandWorkspaceInfo>, id: i32) -> bool {
    exists|k: int| 0 <= k < s.len() && s[k].id == id
}

/// Keeps the first workspace info of each identifier, in order.
pub open spec fn dedup_by_id(s: Seq<HyprlandWorkspaceInfo>) -> Seq<HyprlandWorkspaceInfo>
    decreases s.len(),
{
    if s.len() == 0 {
        s
    } else {
        let d = dedup_by_id(s.drop_last());
        if info_has_id(d, s.last().id) {
            d
        } else {
            d.push(s.last())
        }
    }
}

/// The largest identifier in `s`, and 0 when there is none larger.
pub open spec fn max_id_from_zero(s: Seq<HyprlandWorkspaceInfo>) -> int
    decreases s.len(),
{
    if s.len() == 0 {
        0
    } else {
        let m = max_id_from_zero(s.drop_last());
        if s.last().id > m {
            s.last().id as int
        } else {
            m
        }
    }
}

/// Whether `s` holds a normal (non-negative identifier) workspace.
pub open spec fn has_normal(s: Seq<HyprlandWorkspaceInfo>) -> bool {
    exists|k: int| 0 <= k < s.len() && s[k].id >= 0
}

/// The part of `name` after its last `:` (all of it when it has none).
pub open spec fn last_segment(name: Seq<char>) -> Seq<char>
    decreases name.len(),
{
    if name.len() == 0 {
        name
    } else if name.last() == ':' {
        Seq::empty()
    } else {
        last_segment(name.drop_last()).push(name.last())
    }
}

/// How a workspace reported by Hyprland is shown: a special workspace is
/// named by the last segment of its name and is active when some monitor
/// shows it; a normal one is active when it is the active workspace.
pub open spec fn info_view(
    w: HyprlandWorkspaceInfo,
    monitors: Seq<HyprlandMonitorInfo>,
    active: Option<i32>,
) -> WorkspaceView {
    if w.id < 0 {
        WorkspaceView {
            id: w.id,
            name: last_segment(w.name@),
            monitor_id: w.monitor_id,
            monitor: w.monitor_name@,
            active: exists|j: int|
                0 <= j < monitors.len() && monitors[j].special_workspace_id == Some(w.id),
            windows: w.window_count,
        }
    } else {
        WorkspaceView {
            id: w.id,
            name: w.name@,
            monitor_id: w.monitor_id,
            monitor: w.monitor_name@,
            active: active == Some(w.id),
            windows: w.window_count,
        }
    }
}

/// An empty workspace synthesised to fill a gap.
pub open spec fn filler_view(id: i32) -> WorkspaceView {
    WorkspaceView {
        id,
        name: int_decimal(id as int),
        monitor_id: None,
        monitor: Seq::empty(),
        active: false,
        windows: 0,
    }
}

/// The highest identifier up to which gaps are filled.
pub open spec fn fill_limit(max_id: int, max_workspaces: Option<u32>) -> int {
    match max_workspaces {
        Some(m) => if m > max_id {
            (m as i32) as int
        } else {
            max_id
        },
        None => max_id,
    }
}

/// Whether `id` is synthesised as an empty workspace: filling is enabled, a
/// normal workspace exists, and `id` lies in `1..=limit` without a
/// workspace of its own.
pub open spec fn is_filler_id(
    id: int,
    d: Seq<HyprlandWorkspaceInfo>,
    config: WorkspacesModuleConfig,
) -> bool {
    &&& config.enable_workspace_filling
    &&& has_normal(d)
    &&& 1 <= id <= fill_limit(max_id_from_zero(d), config.max_workspaces)
    &&& !info_has_id(d, id as i32)
}

/// Whether `v` is one of the workspaces shown for `snapshot` under `config`.
pub open spec fn expected_workspace(
    v: WorkspaceView,
    snapshot: HyprlandWorkspaceSnapshot,
    config: WorkspacesModuleConfig,
) -> bool {
    let d = dedup_by_id(snapshot.workspaces@);
    ||| exists|k: int|
        0 <= k < d.len() && v == info_view(d[k], snapshot.monitors@, snapshot.active_workspace_id)
    ||| is_filler_id(v.id as int, d, config) && v == filler_view(v.id)
}

/// Whether the identifiers in `s` strictly increase.
pub open spec fn strictly_sorted(s: Seq<Workspace>) -> bool {
    forall|i: int, j: int| 0 <= i < j < s.len() ==> s[i].id < s[j].id
}

/// Whether some workspace in `s` has identifier `id`.
pub open spec fn has_ws_id(s: Seq<Workspace>, id: i32) -> bool {
    exists|k: int| 0 <= k < s.len() && s[k].id == id
}

/// Whether `s` shows a workspace whose value is `v`.
pub open spec fn shows(s: Seq<Workspace>, v: WorkspaceView) -> bool {
    exists|k: int| 0 <= k < s.len() && s[k]@ == v
}

/// Whether `s` is the workspace list for `snapshot` under `config`: sorted by
/// strictly increasing identifier, holding exactly the expected workspaces.
pub open spec fn is_workspace_list(
    s: Seq<Workspace>,
    snapshot: HyprlandWorkspaceSnapshot,
    config: WorkspacesModuleConfig,
) -> bool {
    &&& strictly_sorted(s)
    &&& forall|v: WorkspaceView| shows(s, v) <==> expected_workspace(v, snapshot, config)
}

/// Returns the part of `name` after its last `:`.
fn last_name_segment(name: &str) -> (r: String)
    ensures
        r@ == last_segment(name@),
{
    let n = name.unicode_len();
    let mut start: usize = 0;
    let mut i: usize = 0;
    while i < n
        invariant
            n == name@.len(),
            start <= i <= n,
            last_segment(name@.take(i as int)) == name@.subrange(start as int, i as int),
        decreases n - i,
    {
        let c = name.get_char(i);
        proof {
            assert(name@.take(i + 1).drop_last() == name@.take(i as int));
            assert(name@.take(i + 1).last() == c);
        }
        if c == ':' {
            start = i + 1;
            assert(name@.subrange(start as int, i + 1) =~= Seq::<char>::empty());
        } else {
            assert(name@.subrange(start as int, i + 1) =~= name@.subrange(
                start as int,
                i as int,
            ).push(c));
        }
        i = i + 1;
    }
    assert(name@.take(n as int) =~= name@);
    name.substring_char(start, n).to_owned()
}

/// Whether `ids` holds `id`.
fn contains_id(ids: &Vec<i32>, id: i32) -> (b: bool)
    ensures
        b == ids@.contains(id),
{
    let mut i: usize = 0;
    while i < ids.len()
        invariant
            i <= ids.len(),
            forall|k: int| 0 <= k < i ==> ids@[k] != id,
        decreases ids.len() - i,
    {
        if ids[i] == id {
            return true;
        }
        i = i + 1;
    }
    false
}

/// Inserts `w` into the strictly sorted list `v`, keeping it sorted.
fn insert_sorted(v: &mut Vec<Workspace>, w: Workspace)
    requires
        strictly_sorted(old(v)@),
        forall|k: int| 0 <= k < old(v)@.len() ==> old(v)@[k].id != w.id,
    ensures
        strictly_sorted(final(v)@),
        forall|x: WorkspaceView| shows(final(v)@, x) <==> (shows(old(v)@, x) || x == w@),
        forall|id: i32| has_ws_id(final(v)@, id) <==> (has_ws_id(old(v)@, id) || id == w.id),
{
    let ghost before = v@;
    let mut pos: usize = 0;
    while pos < v.len() && v[pos].id < w.id
        invariant
            v@ == before,
            pos <= v.len(),
            forall|k: int| 0 <= k < pos ==> v@[k].id < w.id,
        decreases v.len() - pos,
    {
        pos = pos + 1;
    }
    let ghost wv = w@;
    let ghost wid = w.id;
    v.insert(pos, w);
    proof {
        let after = v@;
        assert(after == before.insert(pos as int, after[pos as int]));
        assert forall|i: int, j: int| 0 <= i < j < after.len() implies after[i].id < after[j].id by {
            if j < pos {
            } else if j == pos {
            } else if i < pos {
                assert(after[j] == before[j - 1]);
                if pos < before.len() {
                    assert(before[pos as int].id >= wid);
                    assert(before[pos as int].id != wid);
                }
            } else if i == pos {
                assert(after[j] == before[j - 1]);
                assert(before[pos as int].id >= wid);
                assert(before[pos as int].id != wid);
                if j - 1 > pos {
                    assert(before[pos as int].id < before[j - 1].id);
                }
            } else {
                assert(after[i] == before[i - 1]);
                assert(after[j] == before[j - 1]);
            }
        }
        assert forall|x: WorkspaceView| shows(after, x) <==> (shows(before, x) || x == wv) by {
            if shows(after, x) {
                let k = choose|k: int| 0 <= k < after.len() && after[k]@ == x;
                if k < pos {
                    assert(before[k] == after[k]);
                } else if k > pos {
                    assert(before[k - 1] == after[k]);
                }
            }
            if shows(before, x) {
                let k = choose|k: int| 0 <= k < before.len() && before[k]@ == x;
                if k < pos {
                    assert(after[k] == before[k]);
                } else {
                    assert(after[k + 1] == before[k]);
                }
            }
            if x == wv {
                assert(after[pos as int]@ == x);
            }
        }
        assert forall|id: i32| has_ws_id(after, id) <==> (has_ws_id(before, id) || id == wid) by {
            if exists|k: int| 0 <= k < after.len() && after[k].id == id {
                let k = choose|k: int| 0 <= k < after.len() && after[k].id == id;
                if k < pos {
                    assert(before[k] == after[k]);
                } else if k > pos {
                    assert(before[k - 1] == after[k]);
                }
            }
            if exists|k: int| 0 <= k < before.len() && before[k].id == id {
                let k = choose|k: int| 0 <= k < before.len() && before[k].id == id;
                if k < pos {
                    assert(after[k] == before[k]);
                } else {
                    assert(after[k + 1] == before[k]);
                }
            }
            if id == wid {
                assert(after[pos as int].id == id);
            }
        }
    }
}

/// Whether some monitor shows the special workspace `id`.
fn special_is_shown(monitors: &Vec<HyprlandMonitorInfo>, id: i32) -> (b: bool)
    ensures
        b == exists|j: int| 0 <= j < monitors@.len() && monitors@[j].special_workspace_id == Some(id),
{
    let mut j: usize = 0;
    while j < monitors.len()
        invariant
            j <= monitors.len(),
            forall|k: int| 0 <= k < j ==> monitors@[k].special_workspace_id != Some(id),
        decreases monitors.len() - j,
    {
        match monitors[j].special_workspace_id {
            Some(s) => {
                if s == id {
                    return true;
                }
            },
            None => {},
        }
        j = j + 1;
    }
    false
}

/// Builds the shown form of a workspace reported by Hyprland.
fn shown_workspace(
    w: &HyprlandWorkspaceInfo,
    monitors: &Vec<HyprlandMonitorInfo>,
    active: Option<i32>,
) -> (r: Workspace)
    ensures
        r@ == info_view(*w, monitors@, active),
{
    if w.id < 0 {
        Workspace {
            id: w.id,
            name: last_name_segment(w.name.as_str()),
            monitor_id: w.monitor_id,
            monitor: w.monitor_name.clone(),
            active: special_is_shown(monitors, w.id),
            windows: w.window_count,
        }
    } else {
        let is_active = match active {
            Some(a) => a == w.id,
            None => false,
        };
        Workspace {
            id: w.id,
            name: w.name.clone(),
            monitor_id: w.monitor_id,
            monitor: w.monitor_name.clone(),
            active: is_active,
            windows: w.window_count,
        }
    }
}

/// Builds the empty workspace that fills the gap at `id`.
fn filler_workspace(id: i32) -> (r: Workspace)
    ensures
        r@ == filler_view(id),
{
    Workspace {
        id,
        name: i64_to_decimal(id as i64),
        monitor_id: None,
        monitor: String::new(),
        active: false,
        windows: 0,
    }
}

/// Computes the workspaces shown on the bar from a Hyprland snapshot.
///
/// Workspaces reported twice keep their first entry. Special workspaces
/// (negative identifiers) are named by the part of their name after the last
/// `:` and are active when a monitor shows them; normal workspaces are active
/// when they are the active workspace. With filling enabled, and at least one
/// normal workspace, every missing identifier from 1 up to the largest
/// identifier (or `max_workspaces`, when larger) is added as an empty
/// workspace. The result is sorted by identifier.
pub fn get_workspaces(
    config: &WorkspacesModuleConfig,
    snapshot: &HyprlandWorkspaceSnapshot,
) -> (r: Vec<Workspace>)
    ensures
        is_workspace_list(r@, *snapshot, *config),
{
    let ws = &snapshot.workspaces;
    let monitors = &snapshot.monitors;
    let active = snapshot.active_workspace_id;
    let ghost mons = monitors@;
    let mut seen: Vec<i32> = Vec::new();
    let mut result: Vec<Workspace> = Vec::new();
    let mut max_id: i32 = 0;
    let mut any_normal = false;
    let mut i: usize = 0;
    while i < ws.len()
        invariant
            i <= ws.len(),
            mons == snapshot.monitors@,
            monitors@ == mons,
            ws@ == snapshot.workspaces@,
            active == snapshot.active_workspace_id,
            seen@.len() == dedup_by_id(ws@.take(i as int)).len(),
            forall|k: int|
                0 <= k < seen@.len() ==> seen@[k] == #[trigger] dedup_by_id(ws@.take(i as int))[k].id,
            max_id == max_id_from_zero(dedup_by_id(ws@.take(i as int))),
            max_id >= 0,
            any_normal == has_normal(dedup_by_id(ws@.take(i as int))),
            strictly_sorted(result@),
            forall|v: WorkspaceView|
                shows(result@, v) <==> exists|k: int|
                    0 <= k < dedup_by_id(ws@.take(i as int)).len() && v == info_view(
                        dedup_by_id(ws@.take(i as int))[k],
                        mons,
                        active,
                    ),
            forall|id: i32|
                has_ws_id(result@, id) <==> info_has_id(dedup_by_id(ws@.take(i as int)), id),
        decreases ws.len() - i,
    {
        let w = &ws[i];
        let ghost d = dedup_by_id(ws@.take(i as int));
        proof {
            assert(ws@.take(i + 1).drop_last() =~= ws@.take(i as int));
            assert(ws@.take(i + 1).last() == *w);
        }
        let already = contains_id(&seen, w.id);
        proof {
            if already {
                let k = choose|k: int| 0 <= k < seen@.len() && seen@[k] == w.id;
                assert(d[k].id == w.id);
                assert(info_has_id(d, w.id));
            } else {
                assert forall|k: int| 0 <= k < d.len() implies d[k].id != w.id by {
                    assert(seen@[k] == d[k].id);
                }
            }
        }
        if !already {
            let shown = shown_workspace(w, monitors, active);
            let ghost old_result = result@;
            let ghost shown_view = shown@;
            assert forall|k: int| 0 <= k < result@.len() implies result@[k].id != w.id by {
                if result@[k].id == w.id {
                    assert(has_ws_id(result@, w.id));
                }
            }
            insert_sorted(&mut result, shown);
            seen.push(w.id);
            if w.id >= 0 {
                any_normal = true;
            }
            if w.id > max_id {
                max_id = w.id;
            }
            proof {
                let nd = d.push(*w);
                assert(dedup_by_id(ws@.take(i + 1)) == nd);
                assert(nd.drop_last() =~= d);
                assert(nd.last() == *w);
                assert forall|k: int| 0 <= k < seen@.len() implies seen@[k] == #[trigger] nd[k].id by {
                    if k < d.len() {
                        assert(nd[k] == d[k]);
                    }
                }
                assert(any_normal == has_normal(nd)) by {
                    if has_normal(d) {
                        let k = choose|k: int| 0 <= k < d.len() && d[k].id >= 0;
                        assert(nd[k] == d[k]);
                    }
                    if has_normal(nd) && !has_normal(d) {
                        let k = choose|k: int| 0 <= k < nd.len() && nd[k].id >= 0;
                        assert(k == d.len());
                    }
                }
                assert forall|v: WorkspaceView|
                    shows(result@, v) <==> exists|k: int|
                        0 <= k < nd.len() && v == info_view(nd[k], mons, active) by {
                    assert(nd[d.len() as int] == *w);
                    if exists|k: int| 0 <= k < d.len() && v == info_view(d[k], mons, active) {
                        let k = choose|k: int| 0 <= k < d.len() && v == info_view(d[k], mons, active);
                        assert(nd[k] == d[k]);
                    }
                    if exists|k: int| 0 <= k < nd.len() && v == info_view(nd[k], mons, active) {
                        let k = choose|k: int| 0 <= k < nd.len() && v == info_view(nd[k], mons, active);
                        if k < d.len() {
                            assert(nd[k] == d[k]);
                            assert(shows(old_result, v));
                        } else {
                            assert(k == d.len());
                            assert(nd[k] == *w);
                            assert(v == info_view(*w, mons, active));
                            assert(shown_view == info_view(*w, mons, active));
                        }
                    }
                    if shows(result@, v) {
                        if shows(old_result, v) {
                        } else {
                            assert(v == shown_view);
                            assert(shown_view == info_view(*w, mons, active));
                            assert(v == info_view(nd[d.len() as int], mons, active));
                        }
                    }
                }
                assert forall|id: i32| has_ws_id(result@, id) <==> info_has_id(nd, id) by {
                    if info_has_id(d, id) {
                        let k = choose|k: int| 0 <= k < d.len() && d[k].id == id;
                        assert(nd[k] == d[k]);
                    }
                    if info_has_id(nd, id) {
                        let k = choose|k: int| 0 <= k < nd.len() && nd[k].id == id;
                        if k < d.len() {
                            assert(nd[k] == d[k]);
                        }
                    }
                    assert(nd[d.len() as int] == *w);
                }
            }
        } else {
            proof {
                assert(dedup_by_id(ws@.take(i + 1)) == d);
            }
        }
        i = i + 1;
    }
    let ghost d = dedup_by_id(ws@);
    proof {
        assert(ws@.take(ws@.len() as int) =~= ws@);
    }
    if config.enable_workspace_filling && any_normal {
        let mut limit: i32 = max_id;
        match config.max_workspaces {
            Some(m) => {
                if m > max_id as u32 {
                    limit = #[verifier::truncate] (m as i32);
                }
            },
            None => {},
        }
        assert(limit as int == fill_limit(max_id as int, config.max_workspaces));
        let mut k: i64 = 1;
        while k <= limit as i64
            invariant
                1 <= k,
                k <= limit + 1 || k == 1,
                limit as int == fill_limit(max_id_from_zero(d), config.max_workspaces),
                config.enable_workspace_filling,
                has_normal(d),
                d == dedup_by_id(snapshot.workspaces@),
                seen@.len() == d.len(),
                forall|j: int| 0 <= j < seen@.len() ==> seen@[j] == #[trigger] d[j].id,
                strictly_sorted(result@),
                forall|v: WorkspaceView|
                    shows(result@, v) <==> ((exists|j: int|
                        0 <= j < d.len() && v == info_view(d[j], mons, active)) || (is_filler_id(
                        v.id as int,
                        d,
                        *config,
                    ) && v.id < k && v == filler_view(v.id))),
                forall|id: i32|
                    has_ws_id(result@, id) <==> (info_has_id(d, id) || (is_filler_id(
                        id as int,
                        d,
                        *config,
                    ) && id < k)),
            decreases limit as i64 + 1 - k,
        {
            let id = k as i32;
            let taken = contains_id(&seen, id);
            proof {
                if taken {
                    let j = choose|j: int| 0 <= j < seen@.len() && seen@[j] == id;
                    assert(d[j].id == id);
                    assert(info_has_id(d, id));
                } else {
                    assert forall|j: int| 0 <= j < d.len() implies d[j].id != id by {
                        assert(seen@[j] == d[j].id);
                    }
                }
            }
            if !taken {
                let filler = filler_workspace(id);
                assert(id as int == k);
                assert(!info_has_id(d, id));
                assert forall|j: int| 0 <= j < result@.len() implies result@[j].id != id by {
                    if result@[j].id == id {
                        assert(has_ws_id(result@, id));
                    }
                }
                insert_sorted(&mut result, filler);
                proof {
                    assert(is_filler_id(id as int, d, *config));
                }
            }
            k = k + 1;
        }
    } else {
        proof {
            assert forall|v: WorkspaceView| !is_filler_id(v.id as int, d, *config) by {}
        }
    }
    result
}

/// Messages handled by the workspaces module.
#[derive(Debug)]
pub enum Message {
    /// Hyprland reported a change; carries the fresh snapshot.
    WorkspacesChanged(HyprlandWorkspaceSnapshot),
    /// The user clicked a normal workspace.
    ChangeWorkspace(i32),
    /// The user clicked a special workspace.
    ToggleSpecialWorkspace(i32),
}

/// A dispatch request for Hyprland that the module asks to be performed.
#[derive(Debug, PartialEq, Eq)]
pub enum WorkspaceAction {
    /// Focus the given workspace.
    ChangeWorkspace(HyprlandWorkspaceSelector),
    /// Focus the monitor, then toggle the named special workspace.
    ToggleSpecialWorkspace { monitor: HyprlandMonitorSelector, workspace_name: String },
}

/// The request that toggles the special workspace `w`: its monitor is
/// addressed by index when known, by name otherwise.
pub open spec fn toggle_action(w: Workspace) -> WorkspaceAction {
    WorkspaceAction::ToggleSpecialWorkspace {
        monitor: match w.monitor_id {
            Some(idx) => HyprlandMonitorSelector::Id(idx),
            None => HyprlandMonitorSelector::Name(w.monitor),
        },
        workspace_name: w.name,
    }
}

/// Whether workspace `id` is shown as active in `s`.
pub open spec fn is_active_in(s: Seq<Workspace>, id: i32) -> bool {
    exists|k: int| 0 <= k < s.len() && s[k].active && s[k].id == id
}

/// The request made by a click on normal workspace `id`: none for a
/// non-positive identifier or for the workspace already active.
pub open spec fn change_action(s: Seq<Workspace>, id: i32) -> Option<WorkspaceAction> {
    if id > 0 && !is_active_in(s, id) {
        Some(WorkspaceAction::ChangeWorkspace(HyprlandWorkspaceSelector::Id(id)))
    } else {
        None
    }
}

/// The workspaces module state.
pub struct Workspaces {
    workspaces: Vec<Workspace>,
}

impl Workspaces {
    /// The workspaces currently shown.
    pub closed spec fn shown(&self) -> Seq<Workspace> {
        self.workspaces@
    }

    /// Builds the module from a snapshot.
    pub fn new(config: &WorkspacesModuleConfig, snapshot: &HyprlandWorkspaceSnapshot) -> (w: Self)
        ensures
            is_workspace_list(w.shown(), *snapshot, *config),
    {
        Workspaces { workspaces: get_workspaces(config, snapshot) }
    }

    /// The workspaces currently shown, sorted by identifier.
    pub fn workspaces(&self) -> (r: &Vec<Workspace>)
        ensures
            r@ == self.shown(),
    {
        &self.workspaces
    }

    /// Handles a message and returns the Hyprland dispatch it asks for.
    ///
    /// A snapshot replaces the list. A click on a normal workspace asks to
    /// focus it unless its identifier is not positive or it is already
    /// active. A click on a special workspace asks to toggle the first shown
    /// workspace with that (negative) identifier.
    pub fn update(&mut self, message: Message, config: &WorkspacesModuleConfig) -> (a: Option<
        WorkspaceAction,
    >)
        ensures
            match message {
                Message::WorkspacesChanged(snapshot) => {
                    &&& is_workspace_list(final(self).shown(), snapshot, *config)
                    &&& a is None
                },
                Message::ChangeWorkspace(id) => {
                    &&& final(self).shown() == old(self).shown()
                    &&& a == change_action(old(self).shown(), id)
                },
                Message::ToggleSpecialWorkspace(id) => {
                    &&& final(self).shown() == old(self).shown()
                    &&& (id < 0 && has_ws_id(old(self).shown(), id)) ==> exists|k: int|
                        0 <= k < old(self).shown().len() && old(self).shown()[k].id == id && (forall|
                            j: int,
                        |
                            0 <= j < k ==> old(self).shown()[j].id != id) && a == Some(
                            toggle_action(old(self).shown()[k]),
                        )
                    &&& !(id < 0 && has_ws_id(old(self).shown(), id)) ==> a is None
                },
            },
    {
        let ghost msg = message;
        match message {
            Message::WorkspacesChanged(snapshot) => {
                self.workspaces = get_workspaces(config, &snapshot);
                None
            },
            Message::ChangeWorkspace(id) => {
                if id > 0 {
                    let mut i: usize = 0;
                    let mut already_active = false;
                    while i < self.workspaces.len()
                        invariant
                            i <= self.workspaces.len(),
                            already_active == exists|k: int|
                                0 <= k < i && self.workspaces@[k].active && self.workspaces@[k].id
                                    == id,
                        decreases self.workspaces.len() - i,
                    {
                        if self.workspaces[i].active && self.workspaces[i].id == id {
                            already_active = true;
                        }
                        i = i + 1;
                    }
                    if !already_active {
                        Some(WorkspaceAction::ChangeWorkspace(HyprlandWorkspaceSelector::Id(id)))
                    } else {
                        None
                    }
                } else {
                    None
                }
            },
            Message::ToggleSpecialWorkspace(id) => {
                let mut i: usize = 0;
                while i < self.workspaces.len()
                    invariant
                        i <= self.workspaces.len(),
                        msg == message,
                        msg == Message::ToggleSpecialWorkspace(id),
                        self.workspaces@ == old(self).workspaces@,
                        forall|j: int| 0 <= j < i ==> !(self.workspaces@[j].id == id && id < 0),
                    decreases self.workspaces.len() - i,
                {
                    if self.workspaces[i].id == id && self.workspaces[i].id < 0 {
                        let special = &self.workspaces[i];
                        let monitor = match special.monitor_id {
                            Some(idx) => HyprlandMonitorSelector::Id(idx),
                            None => HyprlandMonitorSelector::Name(special.monitor.clone()),
                        };
                        let action = WorkspaceAction::ToggleSpecialWorkspace {
                            monitor,
                            workspace_name: special.name.clone(),
                        };
                        assert(action == toggle_action(self.workspaces@[i as int]));
                        assert(has_ws_id(self.workspaces@, id));
                        assert forall|j: int| 0 <= j < i implies self.workspaces@[j].id != id by {}
                        assert(self.shown() == self.workspaces@);
                        return Some(action);
                    }
                    i = i + 1;
                }
                assert forall|k: int| 0 <= k < self.workspaces@.len() implies !(
                self.workspaces@[k].id == id && id < 0) by {}
                None
            },
        }
    }
}

/// A workspace button of the bar.
#[derive(Debug, Clone)]
pub struct WorkspaceButton {
    /// The workspace's identifier.
    pub id: i32,
    /// The text on the button: the name of a special workspace, the
    /// identifier of a normal one.
    pub label: String,
    /// Whether the workspace has no window.
    pub empty: bool,
    /// Whether the workspace is focused.
    pub active: bool,
    /// The colour looked up by the workspace's monitor index: absent without
    /// a monitor index, `None` inside when the palette has no colour at that
    /// index.
    pub color: Option<Option<AppearanceColor>>,
    /// Whether a click toggles a special workspace (otherwise it focuses a
    /// normal one).
    pub toggles_special: bool,
}

/// Whether some output is named `name`.
pub open spec fn has_output(outputs: Seq<String>, name: Seq<char>) -> bool {
    exists|i: int| 0 <= i < outputs.len() && (#[trigger] outputs[i])@ == name
}

/// Whether a workspace is shown on the bar of the output named
/// `monitor_name`: always in the all-workspaces mode, and otherwise when it
/// belongs to that output, when the bar's output has no name, or when its
/// monitor is not among the known outputs.
pub open spec fn workspace_visible(
    w: Workspace,
    mode: WorkspaceVisibilityMode,
    monitor_name: Option<Seq<char>>,
    outputs: Seq<String>,
) -> bool {
    ||| mode == WorkspaceVisibilityMode::All
    ||| (match monitor_name {
        Some(n) => w.monitor@ == n,
        None => true,
    })
    ||| !has_output(outputs, w.monitor@)
}

/// The colour of a workspace's button: by its monitor index, among the
/// workspace colours for a normal workspace, and among the special colours
/// (the workspace colours when there are none) for a special one.
pub open spec fn button_color(
    w: Workspace,
    colors: Seq<AppearanceColor>,
    special: Option<Seq<AppearanceColor>>,
) -> Option<Option<AppearanceColor>> {
    match w.monitor_id {
        None => None,
        Some(m) => {
            let list = if w.id > 0 {
                colors
            } else {
                match special {
                    Some(s) => s,
                    None => colors,
                }
            };
            Some(if m < list.len() { Some(list[m as int]) } else { None })
        },
    }
}

/// Whether `b` is the button of workspace `w`.
pub open spec fn is_button_of(
    b: WorkspaceButton,
    w: Workspace,
    colors: Seq<AppearanceColor>,
    special: Option<Seq<AppearanceColor>>,
) -> bool {
    &&& b.id == w.id
    &&& b.label@ == if w.id < 0 {
        w.name@
    } else {
        int_decimal(w.id as int)
    }
    &&& b.empty == (w.windows == 0)
    &&& b.active == w.active
    &&& b.color == button_color(w, colors, special)
    &&& b.toggles_special == (w.id <= 0)
}

/// The workspaces shown on the bar of an output, in order.
pub open spec fn visible_workspaces(
    s: Seq<Workspace>,
    mode: WorkspaceVisibilityMode,
    monitor_name: Option<Seq<char>>,
    outputs: Seq<String>,
) -> Seq<Workspace>
    decreases s.len(),
{
    if s.len() == 0 {
        s
    } else if workspace_visible(s.last(), mode, monitor_name, outputs) {
        visible_workspaces(s.drop_last(), mode, monitor_name, outputs).push(s.last())
    } else {
        visible_workspaces(s.drop_last(), mode, monitor_name, outputs)
    }
}

fn output_known(outputs: &Vec<String>, name: &str) -> (b: bool)
    ensures
        b == has_output(outputs@, name@),
{
    let mut i: usize = 0;
    while i < outputs.len()
        invariant
            i <= outputs@.len(),
            forall|j: int| 0 <= j < i ==> (#[trigger] outputs@[j])@ != name@,
        decreases outputs@.len() - i,
    {
        if str_eq(outputs[i].as_str(), name) {
            return true;
        }
        i = i + 1;
    }
    false
}

fn color_at(list: &Vec<AppearanceColor>, m: usize) -> (c: Option<AppearanceColor>)
    ensures
        c == if m < list@.len() {
            Some(list@[m as int])
        } else {
            None
        },
{
    if m < list.len() {
        Some(list[m])
    } else {
        None
    }
}

fn button_of(
    w: &Workspace,
    colors: &Vec<AppearanceColor>,
    special: Option<&Vec<AppearanceColor>>,
) -> (b: WorkspaceButton)
    ensures
        is_button_of(b, *w, colors@, match special {
            Some(s) => Some(s@),
            None => None,
        }),
{
    let color = match w.monitor_id {
        None => None,
        Some(m) => {
            if w.id > 0 {
                Some(color_at(colors, m))
            } else {
                match special {
                    Some(s) => Some(color_at(s, m)),
                    None => Some(color_at(colors, m)),
                }
            }
        },
    };
    let label = if w.id < 0 {
        w.name.clone()
    } else {
        i64_to_decimal(w.id as i64)
    };
    WorkspaceButton {
        id: w.id,
        label,
        empty: w.windows == 0,
        active: w.active,
        color,
        toggles_special: w.id <= 0,
    }
}

impl Workspaces {
    /// The buttons of the bar of the output named `monitor_name` (`None`
    /// when it has no name), given the names of all outputs and the
    /// palette: one per shown workspace, in order.
    pub fn buttons(
        &self,
        config: &WorkspacesModuleConfig,
        monitor_name: Option<&str>,
        outputs: &Vec<String>,
        colors: &Vec<AppearanceColor>,
        special: Option<&Vec<AppearanceColor>>,
    ) -> (r: Vec<WorkspaceButton>)
        ensures
            ({
                let shown = visible_workspaces(
                    self.shown(),
                    config.visibility_mode,
                    match monitor_name {
                        Some(n) => Some(n@),
                        None => None,
                    },
                    outputs@,
                );
                &&& r@.len() == shown.len()
                &&& forall|i: int|
                    0 <= i < shown.len() ==> is_button_of(
                        #[trigger] r@[i],
                        shown[i],
                        colors@,
                        match special {
                            Some(s) => Some(s@),
                            None => None,
                        },
                    )
            }),
    {
        let ghost name_view = match monitor_name {
            Some(n) => Some(n@),
            None => None,
        };
        let ghost special_view = match special {
            Some(s) => Some(s@),
            None => None,
        };
        let ghost all = self.workspaces@;
        let mut out: Vec<WorkspaceButton> = Vec::new();
        let mut i: usize = 0;
        while i < self.workspaces.len()
            invariant
                all == self.workspaces@,
                i <= all.len(),
                name_view == match monitor_name {
                    Some(n) => Some(n@),
                    None => None,
                },
                special_view == match special {
                    Some(s) => Some(s@),
                    None => None,
                },
                out@.len() == visible_workspaces(all.take(i as int), config.visibility_mode, name_view, outputs@).len(),
                forall|k: int|
                    0 <= k < out@.len() ==> is_button_of(
                        #[trigger] out@[k],
                        visible_workspaces(all.take(i as int), config.visibility_mode, name_view, outputs@)[k],
                        colors@,
                        special_view,
                    ),
            decreases all.len() - i,
        {
            let w = &self.workspaces[i];
            proof {
                assert(all.take(i + 1).drop_last() =~= all.take(i as int));
                assert(all.take(i + 1).last() == all[i as int]);
            }
            let same_monitor = match monitor_name {
                Some(n) => str_eq(w.monitor.as_str(), n),
                None => true,
            };
            let mode_all = match config.visibility_mode {
                WorkspaceVisibilityMode::All => true,
                _ => false,
            };
            if mode_all || same_monitor || !output_known(outputs, w.monitor.as_str()) {
                out.push(button_of(w, colors, special));
            }
            i = i + 1;
        }
        proof {
            assert(all.take(all.len() as int) =~= all);
        }
        out
    }
}

} // verus!
