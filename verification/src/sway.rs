//! The structured-event adapter.  Its compositor's native workspace
//! events already carry a change kind and a current node with explicit
//! focused/visible flags, so each event translates directly into the
//! shared model with no cache reconstruction.  The surrounding
//! plumbing owns the connection; it hands each native event in as a
//! [`SwayWorkspaceEvent`] of plain values and broadcasts the returned
//! update.
//!
//! Two native change kinds the event stream carries did not reach
//! subscribers before: a workspace becoming empty, and an explicit
//! focus change.  Both are translated here — empty to `Remove` by the
//! node's name, focus to a paired `Focus` using the event's own old
//! node — so that no event is dropped without a decision.

use vstd::prelude::*;

use crate::model::{UpdateView, Visibility, Workspace, WorkspaceId, WorkspaceUpdate, WorkspaceView};
use crate::numerals::{i64_to_string, spec_dec};

verus! {

/// A windowing-system node as the native event payload carries it:
/// label, output and flags are all optional there.
pub struct SwayNodeData {
    pub id: i64,
    pub name: Option<String>,
    pub output: Option<String>,
    pub focused: bool,
    pub visible: Option<bool>,
}

/// A workspace as the native full-list query reports it.
pub struct SwayWorkspaceData {
    pub id: i64,
    pub name: String,
    pub output: String,
    pub focused: bool,
    pub visible: bool,
}

/// The change kind a native workspace event declares.
#[derive(Clone, Copy, PartialEq, Eq, Structural, Debug)]
pub enum SwayWorkspaceChange {
    Init,
    Empty,
    Focus,
    Move,
    Rename,
    Urgent,
    Reload,
}

/// One native workspace event: its change kind, the node it concerns,
/// and — for focus changes — the node focus left.
pub struct SwayWorkspaceEvent {
    pub change: SwayWorkspaceChange,
    pub current: Option<SwayNodeData>,
    pub old: Option<SwayNodeData>,
}

/// Why a native event cannot be translated.
#[derive(Clone, Copy, PartialEq, Eq, Structural, Debug)]
pub enum TranslateError {
    /// The event carries no current node to translate.
    MissingCurrent,
}

/// Direct visibility mapping from the native flags: focused wins,
/// else visible, else hidden.
pub open spec fn spec_flags_visibility(focused: bool, visible: bool) -> Visibility {
    if focused {
        Visibility::Focused
    } else if visible {
        Visibility::Visible(true)
    } else {
        Visibility::Hidden
    }
}

/// An absent optional label or output reads as empty.
pub open spec fn spec_opt_str(o: Option<String>) -> Seq<char> {
    match o {
        Some(s) => s@,
        None => Seq::empty(),
    }
}

/// An absent visible flag reads as not visible.
pub open spec fn spec_opt_flag(o: Option<bool>) -> bool {
    o == Some(true)
}

/// The shared-model image of a native node.
pub open spec fn spec_node_view(d: SwayNodeData) -> WorkspaceView {
    WorkspaceView {
        id: spec_dec(d.id as int),
        name: spec_opt_str(d.name),
        monitor: spec_opt_str(d.output),
        visibility: spec_flags_visibility(d.focused, spec_opt_flag(d.visible)),
    }
}

/// The shared-model image of a native full-list workspace.
pub open spec fn spec_sway_workspace_view(d: SwayWorkspaceData) -> WorkspaceView {
    WorkspaceView {
        id: spec_dec(d.id as int),
        name: d.name@,
        monitor: d.output@,
        visibility: spec_flags_visibility(d.focused, d.visible),
    }
}

/// The translation table from a native event to the shared update:
/// "init" adds, "empty" removes by name, "focus" pairs the event's own
/// old and current nodes, "move" moves, and every other kind is a
/// plain state update.  An event without a current node is rejected
/// rather than crashing the listener.
pub open spec fn spec_translate(ev: SwayWorkspaceEvent) -> Result<UpdateView, TranslateError> {
    match ev.current {
        None => Err(TranslateError::MissingCurrent),
        Some(d) => match ev.change {
            SwayWorkspaceChange::Init => Ok(UpdateView::Add(spec_node_view(d))),
            SwayWorkspaceChange::Empty => Ok(UpdateView::Remove { name: spec_opt_str(d.name) }),
            SwayWorkspaceChange::Focus => Ok(
                UpdateView::Focus {
                    old: match ev.old {
                        Some(o) => Some(spec_node_view(o)),
                        None => None,
                    },
                    new: spec_node_view(d),
                },
            ),
            SwayWorkspaceChange::Move => Ok(UpdateView::Move(spec_node_view(d))),
            SwayWorkspaceChange::Rename => Ok(UpdateView::Update(spec_node_view(d))),
            SwayWorkspaceChange::Urgent => Ok(UpdateView::Update(spec_node_view(d))),
            SwayWorkspaceChange::Reload => Ok(UpdateView::Update(spec_node_view(d))),
        },
    }
}

/// Maps the native focused/visible flags to a visibility.
pub fn visibility_from_flags(focused: bool, visible: bool) -> (v: Visibility)
    ensures
        v == spec_flags_visibility(focused, visible),
{
    if focused {
        Visibility::focused()
    } else if visible {
        Visibility::visible()
    } else {
        Visibility::Hidden
    }
}

/// Builds the shared-model workspace for a native event node.
pub fn workspace_from_node(d: SwayNodeData) -> (w: Workspace)
    ensures
        w@ == spec_node_view(d),
{
    let visible = match d.visible {
        Some(b) => b,
        None => false,
    };
    let visibility = visibility_from_flags(d.focused, visible);
    Workspace {
        id: WorkspaceId(i64_to_string(d.id)),
        name: match d.name {
            Some(s) => s,
            None => String::new(),
        },
        monitor: match d.output {
            Some(s) => s,
            None => String::new(),
        },
        visibility,
    }
}

/// Builds the shared-model workspace for a native full-list entry.
pub fn workspace_from_sway(d: SwayWorkspaceData) -> (w: Workspace)
    ensures
        w@ == spec_sway_workspace_view(d),
{
    let visibility = visibility_from_flags(d.focused, d.visible);
    Workspace { id: WorkspaceId(i64_to_string(d.id)), name: d.name, monitor: d.output, visibility }
}

/// Translates one native workspace event into the update to
/// broadcast, per the translation table.
pub fn update_from_sway_event(ev: SwayWorkspaceEvent) -> (r: Result<
    WorkspaceUpdate,
    TranslateError,
>)
    ensures
        match spec_translate(ev) {
            Ok(u) => r matches Ok(x) && x@ == u,
            Err(e) => r matches Err(x) && x == e,
        },
{
    match ev.current {
        None => Err(TranslateError::MissingCurrent),
        Some(d) => match ev.change {
            SwayWorkspaceChange::Init => Ok(WorkspaceUpdate::Add(workspace_from_node(d))),
            SwayWorkspaceChange::Empty => Ok(
                WorkspaceUpdate::Remove {
                    name: match d.name {
                        Some(s) => s,
                        None => String::new(),
                    },
                },
            ),
            SwayWorkspaceChange::Focus => {
                let old = match ev.old {
                    Some(o) => Some(workspace_from_node(o)),
                    None => None,
                };
                Ok(WorkspaceUpdate::Focus { old, new: workspace_from_node(d) })
            },
            SwayWorkspaceChange::Move => Ok(WorkspaceUpdate::Move(workspace_from_node(d))),
            SwayWorkspaceChange::Rename => Ok(WorkspaceUpdate::Update(workspace_from_node(d))),
            SwayWorkspaceChange::Urgent => Ok(WorkspaceUpdate::Update(workspace_from_node(d))),
            SwayWorkspaceChange::Reload => Ok(WorkspaceUpdate::Update(workspace_from_node(d))),
        },
    }
}

/// Builds the `Init` snapshot for a new subscriber from the native
/// full-list query, each entry translated directly.
pub fn init_snapshot(list: Vec<SwayWorkspaceData>) -> (u: WorkspaceUpdate)
    ensures
        u@ == UpdateView::Init(
            list@.map_values(|d: SwayWorkspaceData| spec_sway_workspace_view(d)),
        ),
{
    let ghost target: Seq<WorkspaceView> = list@.map_values(
        |d: SwayWorkspaceData| spec_sway_workspace_view(d),
    );
    let mut out: Vec<Workspace> = Vec::new();
    let mut k: usize = 0;
    let n: usize = list.len();
    while k < n
        invariant
            0 <= k <= n,
            n == list@.len(),
            target == list@.map_values(|d: SwayWorkspaceData| spec_sway_workspace_view(d)),
            out@.map_values(|w: Workspace| w@) == target.take(k as int),
        decreases n - k,
    {
        let d = copy_sway_workspace(&list[k]);
        let w = workspace_from_sway(d);
        let ghost out_pre: Seq<Workspace> = out@;
        out.push(w);
        proof {
            assert(out@.map_values(|w: Workspace| w@) =~= out_pre.map_values(
                |w: Workspace| w@,
            ).push(out@.last()@));
            assert(target.take(k as int + 1) =~= target.take(k as int).push(target[k as int]));
        }
        k = k + 1;
    }
    proof {
        assert(target.take(k as int) =~= target);
    }
    WorkspaceUpdate::Init(out)
}

/// Copies one native full-list entry so translation can own it.
fn copy_sway_workspace(d: &SwayWorkspaceData) -> (r: SwayWorkspaceData)
    ensures
        r.id == d.id,
        r.name@ == d.name@,
        r.output@ == d.output@,
        r.focused == d.focused,
        r.visible == d.visible,
{
    SwayWorkspaceData {
        id: d.id,
        name: d.name.clone(),
        output: d.output.clone(),
        focused: d.focused,
        visible: d.visible,
    }
}

} // verus!
