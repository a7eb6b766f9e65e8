//! The shared workspace vocabulary: identifiers, workspaces, visibility
//! state, and the update events all adapters translate into, together
//! with the reconciliation a consumer applies to a stream of updates.

use vstd::prelude::*;

verus! {

/// Stable identifier of a workspace: the compositor's native numeric or
/// string identifier, held in canonical string form.  Identity of a
/// workspace across events is equality of this value.
pub struct WorkspaceId(pub String);

impl View for WorkspaceId {
    type V = Seq<char>;

    open spec fn view(&self) -> Seq<char> {
        self.0@
    }
}

impl Clone for WorkspaceId {
    fn clone(&self) -> (r: Self)
        ensures
            r@ == self@,
    {
        WorkspaceId(self.0.clone())
    }
}

impl PartialEq for WorkspaceId {
    fn eq(&self, other: &Self) -> bool {
        self.0 == other.0
    }
}

impl vstd::std_specs::cmp::PartialEqSpecImpl for WorkspaceId {
    open spec fn obeys_eq_spec() -> bool {
        true
    }

    open spec fn eq_spec(&self, other: &Self) -> bool {
        self@ == other@
    }
}

/// Whether a workspace is focused, merely on screen, or hidden.
/// Exactly one workspace across the whole system may be `Focused`
/// at any instant; adapters must preserve that when reconstructing
/// state from incomplete native events.
#[derive(Clone, Copy, PartialEq, Eq, Structural, Debug)]
pub enum Visibility {
    /// Has input focus; implies visible.
    Focused,
    /// On screen but not focused; the flag records whether it is
    /// visible at all (cross-monitor visible-but-unfocused cases).
    Visible(bool),
    /// Not shown on any monitor.
    Hidden,
}

impl Visibility {
    pub open spec fn spec_is_focused(self) -> bool {
        self is Focused
    }

    pub open spec fn spec_is_visible(self) -> bool {
        self is Focused || self == Visibility::Visible(true)
    }

    /// True only for the workspace holding input focus.
    pub fn is_focused(&self) -> (r: bool)
        ensures
            r == self.spec_is_focused(),
    {
        matches!(self, Visibility::Focused)
    }

    /// True when the workspace is on screen: focused, or visible on
    /// some monitor.
    pub fn is_visible(&self) -> (r: bool)
        ensures
            r == self.spec_is_visible(),
    {
        matches!(self, Visibility::Focused | Visibility::Visible(true))
    }

    pub fn focused() -> (r: Self)
        ensures
            r == Visibility::Focused,
    {
        Visibility::Focused
    }

    pub fn visible() -> (r: Self)
        ensures
            r == Visibility::Visible(true),
    {
        Visibility::Visible(true)
    }
}

/// Mathematical image of a [`Workspace`]: every string field as a
/// sequence of characters.
pub struct WorkspaceView {
    pub id: Seq<char>,
    pub name: Seq<char>,
    pub monitor: Seq<char>,
    pub visibility: Visibility,
}

/// A workspace as the consumers see it.  `name` is the display label
/// (it may differ from `id`); `monitor` is the output the workspace
/// currently resides on.  Identity is `id`; the other fields change
/// over time.
pub struct Workspace {
    pub id: WorkspaceId,
    pub name: String,
    pub monitor: String,
    pub visibility: Visibility,
}

impl View for Workspace {
    type V = WorkspaceView;

    open spec fn view(&self) -> WorkspaceView {
        WorkspaceView {
            id: self.id@,
            name: self.name@,
            monitor: self.monitor@,
            visibility: self.visibility,
        }
    }
}

impl Clone for Workspace {
    fn clone(&self) -> (r: Self)
        ensures
            r@ == self@,
    {
        Workspace {
            id: self.id.clone(),
            name: self.name.clone(),
            monitor: self.monitor.clone(),
            visibility: self.visibility,
        }
    }
}

impl PartialEq for Workspace {
    fn eq(&self, other: &Self) -> bool {
        self.id == other.id && self.name == other.name && self.monitor == other.monitor
            && self.visibility == other.visibility
    }
}

impl vstd::std_specs::cmp::PartialEqSpecImpl for Workspace {
    open spec fn obeys_eq_spec() -> bool {
        true
    }

    open spec fn eq_spec(&self, other: &Self) -> bool {
        self@ == other@
    }
}

/// Mathematical image of a [`WorkspaceUpdate`].
pub enum UpdateView {
    Init(Seq<WorkspaceView>),
    Add(WorkspaceView),
    Update(WorkspaceView),
    Move(WorkspaceView),
    Focus { old: Option<WorkspaceView>, new: WorkspaceView },
    Remove { name: Seq<char> },
}

/// The wire event emitted to subscribers.
pub enum WorkspaceUpdate {
    /// Full snapshot, sent once per new subscriber before any live event.
    Init(Vec<Workspace>),
    /// A new workspace appeared.
    Add(Workspace),
    /// An existing workspace's attributes changed without a focus transition.
    Update(Workspace),
    /// A workspace changed monitor.
    Move(Workspace),
    /// Focus transferred; `old` is the previously focused workspace when known.
    Focus { old: Option<Workspace>, new: Workspace },
    /// A workspace was destroyed, identified by name: by destruction
    /// time its identifier has degraded to equal its name.
    Remove { name: String },
}

impl View for WorkspaceUpdate {
    type V = UpdateView;

    open spec fn view(&self) -> UpdateView {
        match self {
            WorkspaceUpdate::Init(l) => UpdateView::Init(l@.map_values(|w: Workspace| w@)),
            WorkspaceUpdate::Add(w) => UpdateView::Add(w@),
            WorkspaceUpdate::Update(w) => UpdateView::Update(w@),
            WorkspaceUpdate::Move(w) => UpdateView::Move(w@),
            WorkspaceUpdate::Focus { old, new } => UpdateView::Focus {
                old: match old {
                    Some(w) => Some(w@),
                    None => None,
                },
                new: new@,
            },
            WorkspaceUpdate::Remove { name } => UpdateView::Remove { name: name@ },
        }
    }
}

impl Clone for WorkspaceUpdate {
    fn clone(&self) -> (r: Self)
        ensures
            r@ == self@,
    {
        match self {
            WorkspaceUpdate::Init(l) => WorkspaceUpdate::Init(clone_workspace_list(l)),
            WorkspaceUpdate::Add(w) => WorkspaceUpdate::Add(w.clone()),
            WorkspaceUpdate::Update(w) => WorkspaceUpdate::Update(w.clone()),
            WorkspaceUpdate::Move(w) => WorkspaceUpdate::Move(w.clone()),
            WorkspaceUpdate::Focus { old, new } => WorkspaceUpdate::Focus {
                old: match old {
                    Some(w) => Some(w.clone()),
                    None => None,
                },
                new: new.clone(),
            },
            WorkspaceUpdate::Remove { name } => WorkspaceUpdate::Remove { name: name.clone() },
        }
    }
}

/// Copies a workspace list, preserving every view.
fn clone_workspace_list(l: &Vec<Workspace>) -> (r: Vec<Workspace>)
    ensures
        r@.map_values(|w: Workspace| w@) == l@.map_values(|w: Workspace| w@),
{
    let mut r: Vec<Workspace> = Vec::new();
    let mut k: usize = 0;
    while k < l.len()
        invariant
            0 <= k <= l@.len(),
            r@.len() == k,
            forall|j: int| 0 <= j < k ==> (#[trigger] r@[j])@ == l@[j]@,
        decreases l@.len() - k,
    {
        r.push(l[k].clone());
        k = k + 1;
    }
    proof {
        assert(r@.map_values(|w: Workspace| w@) =~= l@.map_values(|w: Workspace| w@));
    }
    r
}

/// The view of a whole emission list.
pub open spec fn updates_view(s: Seq<WorkspaceUpdate>) -> Seq<UpdateView> {
    s.map_values(|u: WorkspaceUpdate| u@)
}

pub proof fn lemma_updates_view_push(s: Seq<WorkspaceUpdate>, u: WorkspaceUpdate)
    ensures
        updates_view(s.push(u)) == updates_view(s).push(u@),
{
    assert(updates_view(s.push(u)) =~= updates_view(s).push(u@));
}

/// The state a consumer reconstructs from an `Init` snapshot: the
/// id-to-visibility map of the listed workspaces, later entries of the
/// list winning on a repeated id.
pub open spec fn state_of_list(l: Seq<WorkspaceView>) -> Map<Seq<char>, Visibility>
    decreases l.len(),
{
    if l.len() == 0 {
        Map::empty()
    } else {
        state_of_list(l.drop_last()).insert(l.last().id, l.last().visibility)
    }
}

/// What the entry of a previously focused workspace becomes when focus
/// leaves it.
pub open spec fn unfocus(v: Visibility) -> Visibility {
    if v is Focused {
        Visibility::Hidden
    } else {
        v
    }
}

/// How a consumer folds one update into its id-to-visibility map:
/// `Init` replaces the whole state, `Add`/`Update`/`Move` set the one
/// entry they carry, `Focus` moves the focus mark from `old` to `new`,
/// and `Remove` deletes the named entry.
pub open spec fn apply_update(m: Map<Seq<char>, Visibility>, u: UpdateView) -> Map<
    Seq<char>,
    Visibility,
> {
    match u {
        UpdateView::Init(l) => state_of_list(l),
        UpdateView::Add(w) => m.insert(w.id, w.visibility),
        UpdateView::Update(w) => m.insert(w.id, w.visibility),
        UpdateView::Move(w) => m.insert(w.id, w.visibility),
        UpdateView::Focus { old, new } => {
            let demoted = match old {
                Some(o) => if m.dom().contains(o.id) {
                    m.insert(o.id, unfocus(m[o.id]))
                } else {
                    m
                },
                None => m,
            };
            demoted.insert(new.id, Visibility::Focused)
        },
        UpdateView::Remove { name } => m.remove(name),
    }
}

/// A whole delivered stream, folded in order.
pub open spec fn apply_updates(m: Map<Seq<char>, Visibility>, s: Seq<UpdateView>) -> Map<
    Seq<char>,
    Visibility,
>
    decreases s.len(),
{
    if s.len() == 0 {
        m
    } else {
        apply_updates(apply_update(m, s[0]), s.drop_first())
    }
}

/// At most one entry of a reconstructed state is focused.
pub open spec fn single_focus(m: Map<Seq<char>, Visibility>) -> bool {
    forall|i: Seq<char>, j: Seq<char>|
        #![trigger m[i], m[j]]
        m.dom().contains(i) && m.dom().contains(j) && m[i] is Focused && m[j] is Focused ==> i
            == j
}

/// At most one workspace of a snapshot list is focused.
pub open spec fn single_focus_list(l: Seq<WorkspaceView>) -> bool {
    forall|a: int, b: int|
        #![trigger l[a], l[b]]
        0 <= a < l.len() && 0 <= b < l.len() && l[a].visibility is Focused
            && l[b].visibility is Focused ==> l[a].id == l[b].id
}

/// Every focused entry of `m` carries one of the given ids.
pub open spec fn focused_within(m: Map<Seq<char>, Visibility>, ids: Set<Seq<char>>) -> bool {
    forall|i: Seq<char>|
        #![trigger m[i]]
        m.dom().contains(i) && m[i] is Focused ==> ids.contains(i)
}

/// The shape of an update that cannot create a second focused entry:
/// whatever it newly marks focused already covers every focused entry
/// of the state, except the one whose focus it revokes.  Streams the
/// adapters emit have this shape; see the adapter lemmas.
pub open spec fn focus_coherent(m: Map<Seq<char>, Visibility>, u: UpdateView) -> bool {
    match u {
        UpdateView::Init(l) => single_focus_list(l),
        UpdateView::Add(w) => w.visibility is Focused ==> focused_within(m, set![w.id]),
        UpdateView::Update(w) => w.visibility is Focused ==> focused_within(m, set![w.id]),
        UpdateView::Move(w) => w.visibility is Focused ==> focused_within(m, set![w.id]),
        UpdateView::Focus { old, new } => match old {
            Some(o) => focused_within(m, set![o.id, new.id]),
            None => focused_within(m, set![new.id]),
        },
        UpdateView::Remove { name } => true,
    }
}

proof fn lemma_state_of_list_focused_witness(l: Seq<WorkspaceView>, i: Seq<char>)
    requires
        state_of_list(l).dom().contains(i),
        state_of_list(l)[i] is Focused,
    ensures
        exists|k: int|
            0 <= k < l.len() && (#[trigger] l[k]).id == i && l[k].visibility is Focused,
    decreases l.len(),
{
    if l.len() > 0 {
        if l.last().id == i {
            if l.last().visibility is Focused {
                assert(l[l.len() - 1] == l.last());
            } else {
                assert(false);
            }
        } else {
            lemma_state_of_list_focused_witness(l.drop_last(), i);
            let k = choose|k: int|
                0 <= k < l.drop_last().len() && (#[trigger] l.drop_last()[k]).id == i
                    && l.drop_last()[k].visibility is Focused;
            assert(l[k] == l.drop_last()[k]);
        }
    }
}

/// An `Init` snapshot whose list marks at most one workspace focused
/// reconstructs a state with at most one focused entry, whatever state
/// it replaces.
pub proof fn lemma_state_of_list_single_focus(l: Seq<WorkspaceView>)
    requires
        single_focus_list(l),
    ensures
        single_focus(state_of_list(l)),
{
    let m = state_of_list(l);
    assert forall|i: Seq<char>, j: Seq<char>|
        #![trigger m[i], m[j]]
        m.dom().contains(i) && m.dom().contains(j) && m[i] is Focused
            && m[j] is Focused implies i == j by {
        lemma_state_of_list_focused_witness(l, i);
        lemma_state_of_list_focused_witness(l, j);
        let a = choose|k: int|
            0 <= k < l.len() && (#[trigger] l[k]).id == i && l[k].visibility is Focused;
        let b = choose|k: int|
            0 <= k < l.len() && (#[trigger] l[k]).id == j && l[k].visibility is Focused;
        assert(l[a].id == l[b].id);
    }
}

/// Folding one focus-coherent update preserves the single-focus
/// invariant of the reconstructed state.
pub proof fn lemma_apply_update_single_focus(m: Map<Seq<char>, Visibility>, u: UpdateView)
    requires
        single_focus(m),
        focus_coherent(m, u),
    ensures
        single_focus(apply_update(m, u)),
{
    match u {
        UpdateView::Init(l) => {
            lemma_state_of_list_single_focus(l);
        },
        _ => {
        },
    }
}

/// Folding a whole stream of focus-coherent updates preserves the
/// single-focus invariant: at most one workspace of the implied state
/// is focused at any point in logical time.
pub proof fn lemma_apply_updates_single_focus(m: Map<Seq<char>, Visibility>, s: Seq<UpdateView>)
    requires
        single_focus(m),
        forall|k: int|
            0 <= k < s.len() ==> focus_coherent(apply_updates(m, #[trigger] s.take(k)), s[k]),
    ensures
        single_focus(apply_updates(m, s)),
    decreases s.len(),
{
    if s.len() > 0 {
        assert(s.take(0) =~= Seq::<UpdateView>::empty());
        assert(focus_coherent(m, s[0]));
        lemma_apply_update_single_focus(m, s[0]);
        let m1 = apply_update(m, s[0]);
        let rest = s.drop_first();
        assert forall|k: int| 0 <= k < rest.len() implies focus_coherent(
            apply_updates(m1, #[trigger] rest.take(k)),
            rest[k],
        ) by {
            assert(s.take(k + 1).drop_first() =~= rest.take(k));
            assert(s.take(k + 1)[0] == s[0]);
            assert(apply_updates(m, s.take(k + 1)) == apply_updates(m1, rest.take(k)));
            assert(rest[k] == s[k + 1]);
        }
        lemma_apply_updates_single_focus(m1, rest);
    }
}

/// Immediately after a `Focus` update is applied, the workspace it
/// names as `new` is the one whose entry is focused.
pub proof fn lemma_focus_sets_focus(
    m: Map<Seq<char>, Visibility>,
    old_w: Option<WorkspaceView>,
    new_w: WorkspaceView,
)
    ensures
        ({
            let m2 = apply_update(m, UpdateView::Focus { old: old_w, new: new_w });
            m2.dom().contains(new_w.id) && m2[new_w.id] is Focused
        }),
{
}

/// Applying the same `Init` snapshot twice in a row yields the same
/// reconstructed state as applying it once.
pub proof fn lemma_init_idempotent(m: Map<Seq<char>, Visibility>, l: Seq<WorkspaceView>)
    ensures
        apply_update(apply_update(m, UpdateView::Init(l)), UpdateView::Init(l)) == apply_update(
            m,
            UpdateView::Init(l),
        ),
{
}

} // verus!
