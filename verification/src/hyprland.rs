//! The reconstruction-based adapter.  Its compositor's native events
//! are coarse ("a workspace changed", "a window moved") and never say
//! what was focused before, so the adapter re-queries the global
//! workspace and monitor lists on each event and diffs against a cached
//! last-known-active workspace.  The surrounding plumbing owns the
//! event socket; it hands every native event to [`EventClient`] as an
//! [`HyprEvent`] together with a freshly queried [`HyprSnapshot`], and
//! forwards the returned updates to the subscribers.

use vstd::prelude::*;

use crate::model::{
    lemma_updates_view_push, updates_view, UpdateView, Visibility, Workspace, WorkspaceId,
    WorkspaceUpdate, WorkspaceView,
};
use crate::numerals::{i64_to_string, parse_i32, spec_dec, spec_parse_i32};

verus! {

/// A workspace as the native query reports it: a numeric identifier,
/// a display name, and the monitor it sits on.
pub struct HyprWorkspaceData {
    pub id: i32,
    pub name: String,
    pub monitor: String,
}

/// A monitor as the native query reports it: all the adapter reads is
/// which workspace occupies the monitor's active slot.
#[derive(Clone, Copy)]
pub struct HyprMonitorData {
    pub active_workspace_id: i32,
}

/// One synchronous re-query of global compositor state: the full
/// workspace list and the monitor list, taken together.
pub struct HyprSnapshot {
    pub workspaces: Vec<HyprWorkspaceData>,
    pub monitors: Vec<HyprMonitorData>,
}

/// A native event's way of naming a workspace: a regular name, or a
/// special workspace with an optional name.
pub enum HyprWorkspaceType {
    Regular(String),
    Special(Option<String>),
}

/// The identifier a native event payload denotes.
pub open spec fn spec_workspace_type_id(t: HyprWorkspaceType) -> Seq<char> {
    match t {
        HyprWorkspaceType::Regular(name) => name@,
        HyprWorkspaceType::Special(Some(name)) => name@,
        HyprWorkspaceType::Special(None) => Seq::empty(),
    }
}

/// Extracts the workspace identifier a native event payload names;
/// an unnamed special workspace yields the empty identifier.
pub fn get_workspace_id(name: HyprWorkspaceType) -> (r: WorkspaceId)
    ensures
        r@ == spec_workspace_type_id(name),
{
    match name {
        HyprWorkspaceType::Regular(n) => WorkspaceId(n),
        HyprWorkspaceType::Special(Some(n)) => WorkspaceId(n),
        HyprWorkspaceType::Special(None) => WorkspaceId(String::new()),
    }
}

/// Whether some monitor's active slot holds the workspace with this
/// numeric id.
pub open spec fn spec_monitor_shows(monitors: Seq<HyprMonitorData>, id: i32) -> bool {
    exists|k: int| 0 <= k < monitors.len() && monitors[k].active_workspace_id == id
}

/// The visibility of a native workspace, derived against the cached
/// active workspace name: focused when its name matches the cached
/// name, visible when it occupies some monitor's active slot, hidden
/// otherwise.
pub open spec fn spec_visibility(
    d: HyprWorkspaceData,
    active_name: Option<Seq<char>>,
    monitors: Seq<HyprMonitorData>,
) -> Visibility {
    if active_name == Some(d.name@) {
        Visibility::Focused
    } else if spec_monitor_shows(monitors, d.id) {
        Visibility::Visible(true)
    } else {
        Visibility::Hidden
    }
}

/// The shared-model image of a native workspace under a given cached
/// active name and monitor list.
pub open spec fn spec_workspace_view(
    d: HyprWorkspaceData,
    active_name: Option<Seq<char>>,
    monitors: Seq<HyprMonitorData>,
) -> WorkspaceView {
    WorkspaceView {
        id: spec_dec(d.id as int),
        name: d.name@,
        monitor: d.monitor@,
        visibility: spec_visibility(d, active_name, monitors),
    }
}

/// Decides visibility from a freshly queried monitor list.  The
/// monitor list is only valid as long as workspaces do not change, so
/// a checker is built per snapshot and not stored long term.
pub struct VisibilityChecker {
    pub monitors: Vec<HyprMonitorData>,
}

/// Builds the per-snapshot checker that decides whether a workspace is
/// on some monitor's active slot.
pub fn create_is_visible(monitors: Vec<HyprMonitorData>) -> (c: VisibilityChecker)
    ensures
        c.monitors@ == monitors@,
{
    VisibilityChecker { monitors }
}

impl VisibilityChecker {
    /// True when some monitor's active slot holds this workspace.
    pub fn is_visible(&self, w: &HyprWorkspaceData) -> (b: bool)
        ensures
            b == spec_monitor_shows(self.monitors@, w.id),
    {
        let mut k: usize = 0;
        while k < self.monitors.len()
            invariant
                0 <= k <= self.monitors@.len(),
                forall|j: int| 0 <= j < k ==> self.monitors@[j].active_workspace_id != w.id,
            decreases self.monitors@.len() - k,
        {
            if self.monitors[k].active_workspace_id == w.id {
                return true;
            }
            k = k + 1;
        }
        false
    }
}

/// The first workspace of the list whose canonical identifier equals
/// `id`, if any.
pub open spec fn spec_resolve(list: Seq<HyprWorkspaceData>, id: Seq<char>) -> Option<
    HyprWorkspaceData,
>
    decreases list.len(),
{
    if list.len() == 0 {
        None
    } else if spec_dec(list[0].id as int) == id {
        Some(list[0])
    } else {
        spec_resolve(list.drop_first(), id)
    }
}

/// The cached active name an optional active workspace provides.
pub open spec fn spec_active_name(active: Option<&Workspace>) -> Option<Seq<char>> {
    match active {
        Some(w) => Some(w.name@),
        None => None,
    }
}

/// Derives the visibility of a native workspace against the cached
/// active workspace's name and the snapshot's monitors.
pub fn derive_visibility(
    d: &HyprWorkspaceData,
    active_name: Option<&String>,
    checker: &VisibilityChecker,
) -> (v: Visibility)
    ensures
        v == spec_visibility(
            *d,
            match active_name {
                Some(n) => Some(n@),
                None => None,
            },
            checker.monitors@,
        ),
{
    let name_matches = match active_name {
        Some(n) => *n == d.name,
        None => false,
    };
    if name_matches {
        Visibility::focused()
    } else if checker.is_visible(d) {
        Visibility::visible()
    } else {
        Visibility::Hidden
    }
}

/// Builds the shared-model workspace for a native workspace with a
/// visibility already decided.
pub fn workspace_from_hypr(visibility: Visibility, d: &HyprWorkspaceData) -> (w: Workspace)
    ensures
        w@ == (WorkspaceView {
            id: spec_dec(d.id as int),
            name: d.name@,
            monitor: d.monitor@,
            visibility: visibility,
        }),
{
    Workspace {
        id: WorkspaceId(i64_to_string(d.id as i64)),
        name: d.name.clone(),
        monitor: d.monitor.clone(),
        visibility,
    }
}

/// Resolves a workspace by identifier against a fresh snapshot, given
/// the cached active workspace when known: the first list entry with
/// that canonical identifier, its visibility derived against the
/// cached name and the snapshot's monitors.  `None` when no entry of
/// the snapshot carries the identifier.
pub fn get_workspace(snap: &HyprSnapshot, id: &WorkspaceId, active: Option<&Workspace>) -> (r:
    Option<Workspace>)
    ensures
        match spec_resolve(snap.workspaces@, id@) {
            None => r is None,
            Some(d) => r matches Some(w) && w@ == spec_workspace_view(
                d,
                spec_active_name(active),
                snap.monitors@,
            ),
        },
{
    let checker = create_is_visible(copy_monitors(&snap.monitors));
    let active_name: Option<&String> = match active {
        Some(w) => Some(&w.name),
        None => None,
    };
    let ghost full: Seq<HyprWorkspaceData> = snap.workspaces@;
    proof {
        assert(full.skip(0) =~= full);
    }
    let mut k: usize = 0;
    while k < snap.workspaces.len()
        invariant
            0 <= k <= full.len(),
            full == snap.workspaces@,
            spec_resolve(full, id@) == spec_resolve(full.skip(k as int), id@),
            checker.monitors@ == snap.monitors@,
            match active_name {
                Some(n) => active matches Some(w) && n@ == w.name@,
                None => active is None,
            },
        decreases full.len() - k,
    {
        let idstr = i64_to_string(snap.workspaces[k].id as i64);
        if idstr == id.0 {
            proof {
                assert(full.skip(k as int)[0] == full[k as int]);
            }
            let vis = derive_visibility(&snap.workspaces[k], active_name, &checker);
            return Some(workspace_from_hypr(vis, &snap.workspaces[k]));
        }
        proof {
            assert(full.skip(k as int).drop_first() =~= full.skip(k as int + 1));
            assert(full.skip(k as int)[0] == full[k as int]);
        }
        k = k + 1;
    }
    proof {
        assert(full.skip(k as int) =~= Seq::<HyprWorkspaceData>::empty());
    }
    None
}

/// One native event, as the background listener hands it in.  The
/// three window events carry no workspace; they only say that global
/// state must be re-derived.
pub enum HyprEvent {
    WorkspaceAdded(HyprWorkspaceType),
    WorkspaceChanged(HyprWorkspaceType),
    WindowOpened,
    WindowClosed,
    WindowMoved,
    ActiveMonitorChanged(HyprWorkspaceType),
    WorkspaceMoved(HyprWorkspaceType),
    WorkspaceDestroyed(HyprWorkspaceType),
}

/// The cached active workspace, seen mathematically.
pub open spec fn cache_view(c: Option<Workspace>) -> Option<WorkspaceView> {
    match c {
        Some(w) => Some(w@),
        None => None,
    }
}

/// The name the cache contributes to visibility derivation.
pub open spec fn spec_cache_name(cache: Option<WorkspaceView>) -> Option<Seq<char>> {
    match cache {
        Some(c) => Some(c.name),
        None => None,
    }
}

/// What a focus transition to `new` emits: a paired `Focus` event when
/// a previous focus is known, nothing otherwise.
pub open spec fn spec_focus_emissions(cache: Option<WorkspaceView>, new: WorkspaceView) -> Seq<
    UpdateView,
> {
    match cache {
        Some(o) => seq![UpdateView::Focus { old: Some(o), new: new }],
        None => seq![],
    }
}

/// The whole emission of a window event: one `Update` per workspace of
/// the snapshot, in list order, each visibility re-derived against the
/// cached active name and the snapshot's monitors, exactly as every
/// other derivation does it.
pub open spec fn spec_batch_updates(
    cache: Option<WorkspaceView>,
    list: Seq<HyprWorkspaceData>,
    monitors: Seq<HyprMonitorData>,
) -> Seq<UpdateView> {
    Seq::new(
        list.len(),
        |i: int| UpdateView::Update(spec_workspace_view(list[i], spec_cache_name(cache), monitors)),
    )
}

/// Everything one native event makes the adapter emit, given the cache
/// it held and the snapshot queried at event time.
pub open spec fn spec_emissions(
    cache: Option<WorkspaceView>,
    ev: HyprEvent,
    snap: HyprSnapshot,
) -> Seq<UpdateView> {
    match ev {
        HyprEvent::WorkspaceAdded(t) => match spec_resolve(
            snap.workspaces@,
            spec_workspace_type_id(t),
        ) {
            Some(d) => seq![
                UpdateView::Add(spec_workspace_view(d, spec_cache_name(cache), snap.monitors@)),
            ],
            None => seq![],
        },
        HyprEvent::WorkspaceChanged(t) => match spec_resolve(
            snap.workspaces@,
            spec_workspace_type_id(t),
        ) {
            Some(d) => {
                let w = spec_workspace_view(d, spec_cache_name(cache), snap.monitors@);
                seq![UpdateView::Update(w)] + if w.visibility is Focused {
                    seq![]
                } else {
                    spec_focus_emissions(cache, w)
                }
            },
            None => seq![],
        },
        HyprEvent::WindowOpened => spec_batch_updates(cache, snap.workspaces@, snap.monitors@),
        HyprEvent::WindowClosed => spec_batch_updates(cache, snap.workspaces@, snap.monitors@),
        HyprEvent::WindowMoved => spec_batch_updates(cache, snap.workspaces@, snap.monitors@),
        HyprEvent::ActiveMonitorChanged(t) => match spec_resolve(
            snap.workspaces@,
            spec_workspace_type_id(t),
        ) {
            Some(d) => {
                let w = spec_workspace_view(d, spec_cache_name(cache), snap.monitors@);
                if w.visibility is Focused {
                    seq![]
                } else {
                    spec_focus_emissions(cache, w)
                }
            },
            None => seq![],
        },
        HyprEvent::WorkspaceMoved(t) => match spec_resolve(
            snap.workspaces@,
            spec_workspace_type_id(t),
        ) {
            Some(d) => {
                let w = spec_workspace_view(d, spec_cache_name(cache), snap.monitors@);
                seq![UpdateView::Move(w)] + if w.visibility is Focused {
                    seq![]
                } else {
                    spec_focus_emissions(cache, w)
                }
            },
            None => seq![],
        },
        HyprEvent::WorkspaceDestroyed(t) => seq![
            UpdateView::Remove { name: spec_workspace_type_id(t) },
        ],
    }
}

/// The cache after one native event: a non-focused resolved target of
/// a changed, monitor-changed or moved event becomes the new cached
/// active workspace; every other event leaves the cache alone.
pub open spec fn spec_next_cache(
    cache: Option<WorkspaceView>,
    ev: HyprEvent,
    snap: HyprSnapshot,
) -> Option<WorkspaceView> {
    match ev {
        HyprEvent::WorkspaceChanged(t) => spec_next_cache_resolved(cache, t, snap),
        HyprEvent::ActiveMonitorChanged(t) => spec_next_cache_resolved(cache, t, snap),
        HyprEvent::WorkspaceMoved(t) => spec_next_cache_resolved(cache, t, snap),
        _ => cache,
    }
}

pub open spec fn spec_next_cache_resolved(
    cache: Option<WorkspaceView>,
    t: HyprWorkspaceType,
    snap: HyprSnapshot,
) -> Option<WorkspaceView> {
    match spec_resolve(snap.workspaces@, spec_workspace_type_id(t)) {
        Some(d) => {
            let w = spec_workspace_view(d, spec_cache_name(cache), snap.monitors@);
            if w.visibility is Focused {
                cache
            } else {
                Some(w)
            }
        },
        None => cache,
    }
}

/// The reconstruction core of the adapter.  It owns the one piece of
/// mutable state the adapter keeps across its lifetime: the last known
/// active workspace, against which focus transitions are diffed.  The
/// surrounding plumbing must serialize calls into it, one native event
/// at a time.
pub struct EventClient {
    pub active: Option<Workspace>,
}

impl View for EventClient {
    type V = Option<WorkspaceView>;

    open spec fn view(&self) -> Option<WorkspaceView> {
        cache_view(self.active)
    }
}

impl EventClient {
    /// A fresh client with no active workspace cached yet.
    pub fn new() -> (c: Self)
        ensures
            c@ is None,
    {
        EventClient { active: None }
    }

    /// Seeds the cache with the workspace the initial "get active"
    /// query returned, before any event is handled.
    pub fn seed_active(&mut self, w: Workspace)
        ensures
            final(self)@ == Some(w@),
    {
        self.active = Some(w);
    }

    /// Appends the paired `Focus` transition for `workspace` — with the
    /// previously cached workspace as `old` when one is known — and
    /// makes `workspace` the new cached active workspace.
    pub fn send_focus_change(
        prev: &mut Option<Workspace>,
        workspace: Workspace,
        out: &mut Vec<WorkspaceUpdate>,
    )
        ensures
            cache_view(*final(prev)) == Some(workspace@),
            updates_view(final(out)@) == updates_view(old(out)@) + spec_focus_emissions(
                cache_view(*old(prev)),
                workspace@,
            ),
    {
        match prev {
            Some(o) => {
                let focus = WorkspaceUpdate::Focus { old: Some(o.clone()), new: workspace.clone() };
                out.push(focus);
                proof {
                    lemma_updates_view_push(old(out)@, focus);
                    assert(updates_view(out@) =~= updates_view(old(out)@) + spec_focus_emissions(
                        cache_view(*old(prev)),
                        workspace@,
                    ));
                }
            },
            None => {
                proof {
                    assert(updates_view(out@) =~= updates_view(old(out)@) + spec_focus_emissions(
                        cache_view(*old(prev)),
                        workspace@,
                    ));
                }
            },
        }
        *prev = Some(workspace);
    }

    /// Translates one native event into the updates to broadcast,
    /// re-deriving state from the snapshot queried at event time and
    /// diffing focus against the cached active workspace.
    pub fn handle_event(&mut self, ev: HyprEvent, snap: &HyprSnapshot) -> (out: Vec<
        WorkspaceUpdate,
    >)
        ensures
            updates_view(out@) == spec_emissions(old(self)@, ev, *snap),
            final(self)@ == spec_next_cache(old(self)@, ev, *snap),
    {
        let ghost ev0: HyprEvent = ev;
        let ghost cache0: Option<WorkspaceView> = self@;
        let mut out: Vec<WorkspaceUpdate> = Vec::new();
        match ev {
            HyprEvent::WorkspaceAdded(t) => {
                let name = get_workspace_id(t);
                let ws = get_workspace(snap, &name, self.active.as_ref());
                if let Some(w) = ws {
                    out.push(WorkspaceUpdate::Add(w));
                }
                proof {
                    assert(updates_view(out@) =~= spec_emissions(cache0, ev0, *snap));
                }
            },
            HyprEvent::WorkspaceChanged(t) => {
                let name = get_workspace_id(t);
                let ws = get_workspace(snap, &name, self.active.as_ref());
                if let Some(w) = ws {
                    out.push(WorkspaceUpdate::Update(w.clone()));
                    if !w.visibility.is_focused() {
                        Self::send_focus_change(&mut self.active, w, &mut out);
                    }
                }
                proof {
                    assert(updates_view(out@) =~= spec_emissions(cache0, ev0, *snap));
                }
            },
            HyprEvent::WindowOpened => {
                Self::push_batch(&self.active, snap, &mut out);
                proof {
                    assert(updates_view(out@) =~= spec_emissions(cache0, ev0, *snap));
                }
            },
            HyprEvent::WindowClosed => {
                Self::push_batch(&self.active, snap, &mut out);
                proof {
                    assert(updates_view(out@) =~= spec_emissions(cache0, ev0, *snap));
                }
            },
            HyprEvent::WindowMoved => {
                Self::push_batch(&self.active, snap, &mut out);
                proof {
                    assert(updates_view(out@) =~= spec_emissions(cache0, ev0, *snap));
                }
            },
            HyprEvent::ActiveMonitorChanged(t) => {
                let name = get_workspace_id(t);
                let ws = get_workspace(snap, &name, self.active.as_ref());
                match ws {
                    Some(w) => {
                        if !w.visibility.is_focused() {
                            Self::send_focus_change(&mut self.active, w, &mut out);
                        }
                        // a focused target cannot be located as a
                        // transition; reported, not emitted
                    },
                    None => {},
                }
                proof {
                    assert(updates_view(out@) =~= spec_emissions(cache0, ev0, *snap));
                }
            },
            HyprEvent::WorkspaceMoved(t) => {
                let name = get_workspace_id(t);
                let ws = get_workspace(snap, &name, self.active.as_ref());
                if let Some(w) = ws {
                    out.push(WorkspaceUpdate::Move(w.clone()));
                    if !w.visibility.is_focused() {
                        Self::send_focus_change(&mut self.active, w, &mut out);
                    }
                }
                proof {
                    assert(updates_view(out@) =~= spec_emissions(cache0, ev0, *snap));
                }
            },
            HyprEvent::WorkspaceDestroyed(t) => {
                let name = get_workspace_id(t);
                out.push(WorkspaceUpdate::Remove { name: name.0 });
                proof {
                    assert(updates_view(out@) =~= spec_emissions(cache0, ev0, *snap));
                }
            },
        }
        out
    }

    /// Emits one re-derived `Update` per workspace of the snapshot, in
    /// list order, as the three window events require: each visibility
    /// is derived against the cached active name and the snapshot's
    /// monitors, like every other derivation.
    fn push_batch(active: &Option<Workspace>, snap: &HyprSnapshot, out: &mut Vec<WorkspaceUpdate>)
        ensures
            updates_view(final(out)@) == updates_view(old(out)@) + spec_batch_updates(
                cache_view(*active),
                snap.workspaces@,
                snap.monitors@,
            ),
    {
        let checker = create_is_visible(copy_monitors(&snap.monitors));
        let active_name: Option<&String> = match active {
            Some(w) => Some(&w.name),
            None => None,
        };
        let ghost target: Seq<UpdateView> = spec_batch_updates(
            cache_view(*active),
            snap.workspaces@,
            snap.monitors@,
        );
        let mut k: usize = 0;
        while k < snap.workspaces.len()
            invariant
                0 <= k <= snap.workspaces@.len(),
                target == spec_batch_updates(cache_view(*active), snap.workspaces@, snap.monitors@),
                checker.monitors@ == snap.monitors@,
                match active_name {
                    Some(n) => cache_view(*active) matches Some(c) && n@ == c.name,
                    None => cache_view(*active) is None,
                },
                updates_view(out@) == updates_view(old(out)@) + target.take(k as int),
            decreases snap.workspaces@.len() - k,
        {
            let d = &snap.workspaces[k];
            let vis = derive_visibility(d, active_name, &checker);
            let w = workspace_from_hypr(vis, d);
            let upd = WorkspaceUpdate::Update(w);
            let ghost out_pre: Seq<WorkspaceUpdate> = out@;
            out.push(upd);
            proof {
                lemma_updates_view_push(out_pre, upd);
                assert(upd@ == target[k as int]);
                assert(target.take(k as int + 1) =~= target.take(k as int).push(target[k as int]));
                assert(updates_view(out@) =~= updates_view(old(out)@) + target.take(k as int + 1));
            }
            k = k + 1;
        }
        proof {
            assert(target.take(k as int) =~= target);
        }
    }
}

/// The full-list snapshot each new subscriber receives before any live
/// event, derived against the active workspace name at subscribe time.
pub open spec fn spec_init_list(snap: HyprSnapshot, active_name: Option<Seq<char>>) -> Seq<
    WorkspaceView,
> {
    Seq::new(
        snap.workspaces@.len(),
        |i: int| spec_workspace_view(snap.workspaces@[i], active_name, snap.monitors@),
    )
}

/// The view of an optional borrowed name.
pub open spec fn spec_opt_name(n: Option<&String>) -> Option<Seq<char>> {
    match n {
        Some(s) => Some(s@),
        None => None,
    }
}

/// Builds the `Init` snapshot for a new subscriber: every workspace of
/// the fresh query, with visibility derived against the current active
/// workspace name and monitor assignment.
pub fn init_snapshot(snap: &HyprSnapshot, active_name: Option<&String>) -> (u: WorkspaceUpdate)
    ensures
        u@ == UpdateView::Init(spec_init_list(*snap, spec_opt_name(active_name))),
{
    let checker = create_is_visible(copy_monitors(&snap.monitors));
    let ghost target: Seq<WorkspaceView> = spec_init_list(*snap, spec_opt_name(active_name));
    let mut list: Vec<Workspace> = Vec::new();
    let mut k: usize = 0;
    while k < snap.workspaces.len()
        invariant
            0 <= k <= snap.workspaces@.len(),
            target == spec_init_list(*snap, spec_opt_name(active_name)),
            checker.monitors@ == snap.monitors@,
            list@.map_values(|w: Workspace| w@) == target.take(k as int),
        decreases snap.workspaces@.len() - k,
    {
        let d = &snap.workspaces[k];
        let vis = derive_visibility(d, active_name, &checker);
        let w = workspace_from_hypr(vis, d);
        let ghost list_pre: Seq<Workspace> = list@;
        list.push(w);
        proof {
            assert(list@.map_values(|w: Workspace| w@) =~= list_pre.map_values(
                |w: Workspace| w@,
            ).push(list@.last()@));
            assert(target.take(k as int + 1) =~= target.take(k as int).push(target[k as int]));
        }
        k = k + 1;
    }
    proof {
        assert(target.take(k as int) =~= target);
        assert(list@.map_values(|w: Workspace| w@) == target);
    }
    WorkspaceUpdate::Init(list)
}

/// How a focus request names its target: numerically when the whole
/// string parses as a 32-bit integer, by name otherwise.  The
/// surrounding plumbing turns this into the native switch command.
pub enum WorkspaceIdentifier {
    Id(i32),
    Name(String),
}

/// Decides the dispatch form of a focus request, exactly as std's
/// integer parsing does.
pub fn parse_workspace_identifier(id: String) -> (r: WorkspaceIdentifier)
    ensures
        match spec_parse_i32(id@) {
            Some(n) => r == WorkspaceIdentifier::Id(n),
            None => r matches WorkspaceIdentifier::Name(s) && s@ == id@,
        },
{
    match parse_i32(id.as_str()) {
        Some(n) => WorkspaceIdentifier::Id(n),
        None => WorkspaceIdentifier::Name(id),
    }
}

/// No two workspaces of a snapshot share a display name.  Compositors
/// enforce this; with a duplicated name, name-keyed focus derivation
/// could mark two entries focused at once.
pub open spec fn distinct_names(list: Seq<HyprWorkspaceData>) -> bool {
    forall|a: int, b: int|
        #![trigger list[a], list[b]]
        0 <= a < b < list.len() ==> list[a].name@ != list[b].name@
}

/// A resolved workspace is a member of the snapshot list and carries
/// the identifier it was resolved by.
proof fn lemma_resolve_is_member(list: Seq<HyprWorkspaceData>, id: Seq<char>)
    ensures
        spec_resolve(list, id) matches Some(d) ==> spec_dec(d.id as int) == id && exists|k: int|
            0 <= k < list.len() && list[k] == d,
    decreases list.len(),
{
    if list.len() > 0 {
        if spec_dec(list[0].id as int) == id {
            assert(list[0] == list[0]);
        } else {
            lemma_resolve_is_member(list.drop_first(), id);
            match spec_resolve(list.drop_first(), id) {
                Some(d) => {
                    let k = choose|k: int|
                        0 <= k < list.drop_first().len() && list.drop_first()[k] == d;
                    assert(list[k + 1] == d);
                },
                None => {},
            }
        }
    }
}

/// An `Init` snapshot list derived from a snapshot with distinct
/// names marks at most one workspace focused: only a name match with
/// the active name yields `Focused`.
pub proof fn lemma_init_list_single_focus(snap: HyprSnapshot, active_name: Option<Seq<char>>)
    requires
        distinct_names(snap.workspaces@),
    ensures
        crate::model::single_focus_list(spec_init_list(snap, active_name)),
{
    let l = spec_init_list(snap, active_name);
    assert forall|a: int, b: int|
        #![trigger l[a], l[b]]
        0 <= a < l.len() && 0 <= b < l.len() && l[a].visibility is Focused
            && l[b].visibility is Focused implies l[a].id == l[b].id by {
        assert(l[a] == spec_workspace_view(snap.workspaces@[a], active_name, snap.monitors@));
        assert(l[b] == spec_workspace_view(snap.workspaces@[b], active_name, snap.monitors@));
        assert(active_name == Some(snap.workspaces@[a].name@));
        assert(active_name == Some(snap.workspaces@[b].name@));
        if a < b {
            assert(snap.workspaces@[a].name@ != snap.workspaces@[b].name@);
        } else if b < a {
            assert(snap.workspaces@[b].name@ != snap.workspaces@[a].name@);
        }
    }
}

/// The state a new subscriber reconstructs from the `Init` snapshot
/// has at most one focused entry, whatever state it replaces, when
/// snapshot names are distinct.
pub proof fn lemma_init_snapshot_single_focus(
    m: Map<Seq<char>, Visibility>,
    snap: HyprSnapshot,
    active_name: Option<Seq<char>>,
)
    requires
        distinct_names(snap.workspaces@),
    ensures
        crate::model::single_focus(
            crate::model::apply_update(m, UpdateView::Init(spec_init_list(snap, active_name))),
        ),
{
    lemma_init_list_single_focus(snap, active_name);
    crate::model::lemma_state_of_list_single_focus(spec_init_list(snap, active_name));
}

/// Every `Focus` event the adapter emits pairs the previously cached
/// workspace as `old` with the resolved target as `new`, and `new` is
/// exactly what the cache holds after the event.
pub proof fn lemma_focus_pairs_with_cache(
    cache: Option<WorkspaceView>,
    ev: HyprEvent,
    snap: HyprSnapshot,
)
    ensures
        forall|k: int|
            0 <= k < spec_emissions(cache, ev, snap).len() ==> ((#[trigger] spec_emissions(
                cache,
                ev,
                snap,
            )[k]) matches UpdateView::Focus { old, new } ==> old == cache && cache is Some
                && spec_next_cache(cache, ev, snap) == Some(new)),
{
    let es = spec_emissions(cache, ev, snap);
    assert forall|k: int|
        0 <= k < es.len() && (#[trigger] es[k]) matches UpdateView::Focus {
            old,
            new,
        } implies (es[k] matches UpdateView::Focus { old, new } && old == cache && cache is Some
        && spec_next_cache(cache, ev, snap) == Some(new)) by {
        match ev {
            HyprEvent::WorkspaceAdded(t) => {},
            HyprEvent::WorkspaceChanged(t) => {},
            HyprEvent::WindowOpened => {
                assert(es[k] == spec_batch_updates(cache, snap.workspaces@, snap.monitors@)[k]);
            },
            HyprEvent::WindowClosed => {
                assert(es[k] == spec_batch_updates(cache, snap.workspaces@, snap.monitors@)[k]);
            },
            HyprEvent::WindowMoved => {
                assert(es[k] == spec_batch_updates(cache, snap.workspaces@, snap.monitors@)[k]);
            },
            HyprEvent::ActiveMonitorChanged(t) => {},
            HyprEvent::WorkspaceMoved(t) => {},
            HyprEvent::WorkspaceDestroyed(t) => {},
        }
    }
}

/// The consumer-side focus mark agrees with the adapter's cache: with
/// a cached active workspace, only its identifier may be focused in
/// the reconstructed state; with no cache yet, nothing is.
pub open spec fn focused_matches_cache(
    m: Map<Seq<char>, Visibility>,
    cache: Option<WorkspaceView>,
) -> bool {
    match cache {
        Some(c) => crate::model::focused_within(m, set![c.id]),
        None => forall|i: Seq<char>|
            #![trigger m[i]]
            m.dom().contains(i) ==> !(m[i] is Focused),
    }
}

/// A workspace list agrees with the cache on the active name: any
/// entry carrying the cached name has the cached identifier.
pub open spec fn cache_current_list(
    cache: Option<WorkspaceView>,
    list: Seq<HyprWorkspaceData>,
) -> bool {
    match cache {
        Some(c) => forall|k: int|
            0 <= k < list.len() && (#[trigger] list[k]).name@ == c.name ==> spec_dec(
                list[k].id as int,
            ) == c.id,
        None => true,
    }
}

/// The snapshot agrees with the cache on the active name.  Native
/// state is authoritative; this is the freshness the adapter relies on
/// between its query and the cache.
pub open spec fn cache_current(cache: Option<WorkspaceView>, snap: HyprSnapshot) -> bool {
    cache_current_list(cache, snap.workspaces@)
}

/// Window-event re-derivation marks focused only entries named as the
/// cache, so folding it keeps every focused entry on the cache's
/// identifier.
proof fn lemma_batch_fold_preserves(
    m: Map<Seq<char>, Visibility>,
    cache: Option<WorkspaceView>,
    list: Seq<HyprWorkspaceData>,
    monitors: Seq<HyprMonitorData>,
)
    requires
        crate::model::single_focus(m),
        focused_matches_cache(m, cache),
        cache_current_list(cache, list),
    ensures
        crate::model::single_focus(
            crate::model::apply_updates(m, spec_batch_updates(cache, list, monitors)),
        ),
        focused_matches_cache(
            crate::model::apply_updates(m, spec_batch_updates(cache, list, monitors)),
            cache,
        ),
    decreases list.len(),
{
    let bs = spec_batch_updates(cache, list, monitors);
    if list.len() == 0 {
        assert(bs.len() == 0);
    } else {
        let w = spec_workspace_view(list[0], spec_cache_name(cache), monitors);
        assert(bs[0] == UpdateView::Update(w));
        let m1 = crate::model::apply_update(m, bs[0]);
        match cache {
            Some(c) => {
                if w.visibility is Focused {
                    assert(list[0].name@ == c.name);
                    assert(w.id == c.id);
                }
                assert(focused_matches_cache(m1, cache));
                assert(crate::model::single_focus(m1));
                assert forall|k: int|
                    0 <= k < list.drop_first().len() && (#[trigger] list.drop_first()[k]).name@
                        == c.name implies spec_dec(list.drop_first()[k].id as int) == c.id by {
                    assert(list.drop_first()[k] == list[k + 1]);
                }
            },
            None => {
                assert(!(w.visibility is Focused));
            },
        }
        assert(bs.drop_first() =~= spec_batch_updates(cache, list.drop_first(), monitors));
        lemma_batch_fold_preserves(m1, cache, list.drop_first(), monitors);
    }
}

/// Folding everything one native event emits preserves the consumer's
/// single-focus invariant and re-establishes agreement with the new
/// cache, provided the snapshot is fresh with respect to the cache.
/// Chained over any event sequence, at most one workspace of the
/// implied state is focused at any point in logical time.
pub proof fn lemma_handle_event_preserves_single_focus(
    m: Map<Seq<char>, Visibility>,
    cache: Option<WorkspaceView>,
    ev: HyprEvent,
    snap: HyprSnapshot,
)
    requires
        crate::model::single_focus(m),
        focused_matches_cache(m, cache),
        cache_current(cache, snap),
    ensures
        crate::model::single_focus(crate::model::apply_updates(m, spec_emissions(cache, ev, snap))),
        focused_matches_cache(
            crate::model::apply_updates(m, spec_emissions(cache, ev, snap)),
            spec_next_cache(cache, ev, snap),
        ),
{
    let es = spec_emissions(cache, ev, snap);
    let m2 = crate::model::apply_updates(m, es);
    match ev {
        HyprEvent::WorkspaceAdded(t) => {
            lemma_resolve_is_member(snap.workspaces@, spec_workspace_type_id(t));
            match spec_resolve(snap.workspaces@, spec_workspace_type_id(t)) {
                Some(d) => {
                    let w = spec_workspace_view(d, spec_cache_name(cache), snap.monitors@);
                    lemma_apply_updates_one(m, UpdateView::Add(w));
                    if w.visibility is Focused {
                        let k = choose|k: int|
                            0 <= k < snap.workspaces@.len() && snap.workspaces@[k] == d;
                        assert(spec_dec(snap.workspaces@[k].id as int) == w.id);
                    }
                },
                None => {
                    lemma_apply_updates_none(m, es);
                },
            }
        },
        HyprEvent::WorkspaceChanged(t) => {
            lemma_resolve_is_member(snap.workspaces@, spec_workspace_type_id(t));
            match spec_resolve(snap.workspaces@, spec_workspace_type_id(t)) {
                Some(d) => {
                    let w = spec_workspace_view(d, spec_cache_name(cache), snap.monitors@);
                    if w.visibility is Focused {
                        lemma_apply_updates_one(m, UpdateView::Update(w));
                        let k = choose|k: int|
                            0 <= k < snap.workspaces@.len() && snap.workspaces@[k] == d;
                        assert(spec_dec(snap.workspaces@[k].id as int) == w.id);
                    } else {
                        match cache {
                            Some(o) => {
                                lemma_apply_updates_two(
                                    m,
                                    UpdateView::Update(w),
                                    UpdateView::Focus { old: Some(o), new: w },
                                );
                            },
                            None => {
                                lemma_apply_updates_one(m, UpdateView::Update(w));
                            },
                        }
                    }
                },
                None => {
                    lemma_apply_updates_none(m, es);
                },
            }
        },
        HyprEvent::WindowOpened => {
            lemma_batch_fold_preserves(m, cache, snap.workspaces@, snap.monitors@);
        },
        HyprEvent::WindowClosed => {
            lemma_batch_fold_preserves(m, cache, snap.workspaces@, snap.monitors@);
        },
        HyprEvent::WindowMoved => {
            lemma_batch_fold_preserves(m, cache, snap.workspaces@, snap.monitors@);
        },
        HyprEvent::ActiveMonitorChanged(t) => {
            lemma_resolve_is_member(snap.workspaces@, spec_workspace_type_id(t));
            match spec_resolve(snap.workspaces@, spec_workspace_type_id(t)) {
                Some(d) => {
                    let w = spec_workspace_view(d, spec_cache_name(cache), snap.monitors@);
                    if w.visibility is Focused {
                        lemma_apply_updates_none(m, es);
                    } else {
                        match cache {
                            Some(o) => {
                                lemma_apply_updates_one(
                                    m,
                                    UpdateView::Focus { old: Some(o), new: w },
                                );
                            },
                            None => {
                                lemma_apply_updates_none(m, es);
                            },
                        }
                    }
                },
                None => {
                    lemma_apply_updates_none(m, es);
                },
            }
        },
        HyprEvent::WorkspaceMoved(t) => {
            lemma_resolve_is_member(snap.workspaces@, spec_workspace_type_id(t));
            match spec_resolve(snap.workspaces@, spec_workspace_type_id(t)) {
                Some(d) => {
                    let w = spec_workspace_view(d, spec_cache_name(cache), snap.monitors@);
                    if w.visibility is Focused {
                        lemma_apply_updates_one(m, UpdateView::Move(w));
                        let k = choose|k: int|
                            0 <= k < snap.workspaces@.len() && snap.workspaces@[k] == d;
                        assert(spec_dec(snap.workspaces@[k].id as int) == w.id);
                    } else {
                        match cache {
                            Some(o) => {
                                lemma_apply_updates_two(
                                    m,
                                    UpdateView::Move(w),
                                    UpdateView::Focus { old: Some(o), new: w },
                                );
                            },
                            None => {
                                lemma_apply_updates_one(m, UpdateView::Move(w));
                            },
                        }
                    }
                },
                None => {
                    lemma_apply_updates_none(m, es);
                },
            }
        },
        HyprEvent::WorkspaceDestroyed(t) => {
            lemma_apply_updates_one(m, UpdateView::Remove { name: spec_workspace_type_id(t) });
        },
    }
}

/// One run of the adapter: the consumer state and the cache after a
/// sequence of native events, each paired with the snapshot queried
/// when it arrived.
pub open spec fn spec_run(
    m: Map<Seq<char>, Visibility>,
    cache: Option<WorkspaceView>,
    events: Seq<(HyprEvent, HyprSnapshot)>,
) -> (Map<Seq<char>, Visibility>, Option<WorkspaceView>)
    decreases events.len(),
{
    if events.len() == 0 {
        (m, cache)
    } else {
        spec_run(
            crate::model::apply_updates(m, spec_emissions(cache, events[0].0, events[0].1)),
            spec_next_cache(cache, events[0].0, events[0].1),
            events.drop_first(),
        )
    }
}

/// Across a whole run — any sequence of native events, each with a
/// snapshot fresh with respect to the then-current cache — the
/// consumer's reconstructed state never holds two focused workspaces,
/// and its focus mark keeps following the cache.
pub proof fn lemma_run_single_focus(
    m: Map<Seq<char>, Visibility>,
    cache: Option<WorkspaceView>,
    events: Seq<(HyprEvent, HyprSnapshot)>,
)
    requires
        crate::model::single_focus(m),
        focused_matches_cache(m, cache),
        forall|k: int|
            0 <= k < events.len() ==> cache_current(
                #[trigger] spec_run(m, cache, events.take(k)).1,
                events[k].1,
            ),
    ensures
        crate::model::single_focus(spec_run(m, cache, events).0),
        focused_matches_cache(spec_run(m, cache, events).0, spec_run(m, cache, events).1),
    decreases events.len(),
{
    if events.len() > 0 {
        let ev = events[0].0;
        let snap = events[0].1;
        assert(events.take(0) =~= Seq::<(HyprEvent, HyprSnapshot)>::empty());
        assert(spec_run(m, cache, events.take(0)).1 == cache);
        assert(cache_current(cache, snap));
        lemma_handle_event_preserves_single_focus(m, cache, ev, snap);
        let m1 = crate::model::apply_updates(m, spec_emissions(cache, ev, snap));
        let c1 = spec_next_cache(cache, ev, snap);
        let rest = events.drop_first();
        assert forall|k: int| 0 <= k < rest.len() implies cache_current(
            #[trigger] spec_run(m1, c1, rest.take(k)).1,
            rest[k].1,
        ) by {
            assert(events.take(k + 1).drop_first() =~= rest.take(k));
            assert(events.take(k + 1)[0] == events[0]);
            assert(spec_run(m, cache, events.take(k + 1)).1 == spec_run(m1, c1, rest.take(k)).1);
            assert(rest[k] == events[k + 1]);
        }
        lemma_run_single_focus(m1, c1, rest);
    }
}

proof fn lemma_apply_updates_none(m: Map<Seq<char>, Visibility>, s: Seq<UpdateView>)
    requires
        s.len() == 0,
    ensures
        crate::model::apply_updates(m, s) == m,
{
}

proof fn lemma_apply_updates_one(m: Map<Seq<char>, Visibility>, u: UpdateView)
    ensures
        crate::model::apply_updates(m, seq![u]) == crate::model::apply_update(m, u),
{
    assert(seq![u].drop_first() =~= Seq::<UpdateView>::empty());
    assert(seq![u].len() == 1);
    assert(seq![u][0] == u);
    assert(crate::model::apply_updates(crate::model::apply_update(m, u), Seq::<UpdateView>::empty())
        == crate::model::apply_update(m, u));
}

proof fn lemma_apply_updates_two(m: Map<Seq<char>, Visibility>, u1: UpdateView, u2: UpdateView)
    ensures
        crate::model::apply_updates(m, seq![u1] + seq![u2]) == crate::model::apply_update(
            crate::model::apply_update(m, u1),
            u2,
        ),
{
    let s = seq![u1] + seq![u2];
    assert(s[0] == u1);
    assert(s.drop_first() =~= seq![u2]);
    lemma_apply_updates_one(crate::model::apply_update(m, u1), u2);
}

/// Copies a monitor list so a per-snapshot checker can own it.
fn copy_monitors(monitors: &Vec<HyprMonitorData>) -> (r: Vec<HyprMonitorData>)
    ensures
        r@ == monitors@,
{
    let mut r: Vec<HyprMonitorData> = Vec::new();
    let mut k: usize = 0;
    while k < monitors.len()
        invariant
            0 <= k <= monitors@.len(),
            r@ == monitors@.take(k as int),
        decreases monitors@.len() - k,
    {
        r.push(monitors[k]);
        proof {
            assert(monitors@.take(k as int).push(monitors@[k as int]) =~= monitors@.take(
                k as int + 1,
            ));
        }
        k = k + 1;
    }
    proof {
        assert(monitors@.take(k as int) =~= monitors@);
    }
    r
}

} // verus!
