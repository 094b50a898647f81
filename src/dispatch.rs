use vstd::prelude::*;

use crate::state::{App, AppState, AppView, ObjectId, Output, Seat, StateView, Workspace};

verus! {

/// An event delivered by the compositor, already decoded to the object ids it
/// targets. Creation events carry the id of the new child object.
pub enum Event {
    OutputName { output: ObjectId, name: String },
    SeatName { seat: ObjectId, name: String },
    WorkspaceGroupCreated { group: ObjectId },
    WorkspaceCreated { workspace: ObjectId },
    WorkspaceName { workspace: ObjectId, name: String },
    ToplevelCreated { toplevel: ObjectId },
    ToplevelTitle { toplevel: ObjectId, title: String },
    ToplevelAppId { toplevel: ObjectId, app_id: String },
    ToplevelOutputEnter { toplevel: ObjectId, output: ObjectId },
    /// Any event that the model does not project (state, workspace enter/leave,
    /// output leave, group and manager events).
    Other,
}

/// Index of the first application with the given handle, searching from `i`.
pub open spec fn find_app_from(apps: Seq<AppView>, h: ObjectId, i: int) -> Option<int>
    decreases apps.len() - i,
{
    if i < 0 || i >= apps.len() {
        None
    } else if apps[i].handle == h {
        Some(i)
    } else {
        find_app_from(apps, h, i + 1)
    }
}

pub open spec fn find_app(apps: Seq<AppView>, h: ObjectId) -> Option<int> {
    find_app_from(apps, h, 0)
}

/// The state with a workspace appended to the most recently created group
/// (a first group is opened when none exists yet).
pub open spec fn add_workspace(
    groups: Seq<Seq<(Seq<char>, ObjectId)>>,
    w: (Seq<char>, ObjectId),
) -> Seq<Seq<(Seq<char>, ObjectId)>> {
    if groups.len() == 0 {
        seq![seq![w]]
    } else {
        groups.update(groups.len() - 1, groups.last().push(w))
    }
}

/// A fresh application record with no attribute known.
pub open spec fn new_app(h: ObjectId) -> AppView {
    AppView { handle: h, title: None, app_id: None, outputs: Seq::empty() }
}

/// The state after applying `f` to the first application with handle `h`;
/// unchanged when there is none.
pub open spec fn update_app(s: StateView, h: ObjectId, f: spec_fn(AppView) -> AppView) -> StateView {
    match find_app(s.apps, h) {
        Some(i) => StateView { apps: s.apps.update(i, f(s.apps[i])), ..s },
        None => s,
    }
}

/// What one event does to the state.
pub open spec fn apply_event(s: StateView, e: Event) -> StateView {
    match e {
        Event::OutputName { output, name } => StateView { outputs: s.outputs.push((output, name@)), ..s },
        Event::SeatName { seat, name } => StateView { seats: s.seats.push((seat, name@)), ..s },
        Event::WorkspaceGroupCreated { group } => StateView { groups: s.groups.push(Seq::empty()), ..s },
        Event::WorkspaceCreated { workspace } => s,
        Event::WorkspaceName { workspace, name } => StateView {
            groups: add_workspace(s.groups, (name@, workspace)),
            ..s
        },
        Event::ToplevelCreated { toplevel } => StateView { apps: s.apps.push(new_app(toplevel)), ..s },
        Event::ToplevelTitle { toplevel, title } => update_app(
            s,
            toplevel,
            |a: AppView| AppView { title: Some(title@), ..a },
        ),
        Event::ToplevelAppId { toplevel, app_id } => update_app(
            s,
            toplevel,
            |a: AppView| AppView { app_id: Some(app_id@), ..a },
        ),
        Event::ToplevelOutputEnter { toplevel, output } => update_app(
            s,
            toplevel,
            |a: AppView| AppView { outputs: a.outputs.push(output), ..a },
        ),
        Event::Other => s,
    }
}

/// What a sequence of events, delivered in order, does to the state.
pub open spec fn apply_events(s: StateView, evs: Seq<Event>) -> StateView
    decreases evs.len(),
{
    if evs.len() == 0 {
        s
    } else {
        apply_event(apply_events(s, evs.drop_last()), evs.last())
    }
}

proof fn lemma_find_skips(apps: Seq<AppView>, h: ObjectId, i: int)
    requires
        0 <= i <= apps.len(),
        forall|k: int| 0 <= k < i ==> apps[k].handle != h,
    ensures
        find_app(apps, h) == find_app_from(apps, h, i),
    decreases i,
{
    if i > 0 {
        lemma_find_skips(apps, h, i - 1);
    }
}

proof fn lemma_find_from_found(apps: Seq<AppView>, h: ObjectId, i: int)
    ensures
        find_app_from(apps, h, i) matches Some(j) ==> i <= j < apps.len() && apps[j].handle == h
            && forall|k: int| i <= k < j ==> apps[k].handle != h,
    decreases apps.len() - i,
{
    if 0 <= i < apps.len() && apps[i].handle != h {
        lemma_find_from_found(apps, h, i + 1);
    }
}

/// Title of toplevel `h` after `evs`, starting from `init`: the last title
/// delivered for `h`, or `init` when none was.
pub open spec fn last_title(evs: Seq<Event>, h: ObjectId, init: Option<Seq<char>>) -> Option<Seq<char>>
    decreases evs.len(),
{
    if evs.len() == 0 {
        init
    } else {
        match evs.last() {
            Event::ToplevelTitle { toplevel, title } if toplevel == h => Some(title@),
            _ => last_title(evs.drop_last(), h, init),
        }
    }
}

/// App id of toplevel `h` after `evs`, starting from `init`: the last app id
/// delivered for `h`, or `init` when none was.
pub open spec fn last_app_id(evs: Seq<Event>, h: ObjectId, init: Option<Seq<char>>) -> Option<Seq<char>>
    decreases evs.len(),
{
    if evs.len() == 0 {
        init
    } else {
        match evs.last() {
            Event::ToplevelAppId { toplevel, app_id } if toplevel == h => Some(app_id@),
            _ => last_app_id(evs.drop_last(), h, init),
        }
    }
}

/// Same handles at the same positions keep the first match of a handle.
proof fn lemma_find_stable(a: Seq<AppView>, b: Seq<AppView>, h: ObjectId, i: int)
    requires
        find_app(a, h) == Some(i),
        a.len() <= b.len(),
        forall|k: int| 0 <= k < a.len() ==> a[k].handle == #[trigger] b[k].handle,
    ensures
        find_app(b, h) == Some(i),
{
    lemma_find_from_found(a, h, 0);
    assert forall|k: int| 0 <= k < i implies b[k].handle != h by {
        assert(a[k].handle != h);
    }
    lemma_find_skips(b, h, i);
}

/// One event keeps application `i` where it is and changes its title or app
/// id only when the event sets that attribute for its handle.
proof fn lemma_event_keeps_app(s: StateView, e: Event, h: ObjectId, i: int)
    requires
        find_app(s.apps, h) == Some(i),
    ensures
        find_app(apply_event(s, e).apps, h) == Some(i),
        apply_event(s, e).apps.len() >= s.apps.len(),
        forall|k: int| 0 <= k < s.apps.len() ==> s.apps[k].handle == #[trigger] apply_event(s, e).apps[k].handle,
        apply_event(s, e).apps[i].title == (match e {
            Event::ToplevelTitle { toplevel, title } if toplevel == h => Some(title@),
            _ => s.apps[i].title,
        }),
        apply_event(s, e).apps[i].app_id == (match e {
            Event::ToplevelAppId { toplevel, app_id } if toplevel == h => Some(app_id@),
            _ => s.apps[i].app_id,
        }),
{
    lemma_find_from_found(s.apps, h, 0);
    let t = apply_event(s, e);
    match e {
        Event::ToplevelTitle { toplevel, title } => {
            lemma_find_from_found(s.apps, toplevel, 0);
        },
        Event::ToplevelAppId { toplevel, app_id } => {
            lemma_find_from_found(s.apps, toplevel, 0);
        },
        Event::ToplevelOutputEnter { toplevel, output } => {
            lemma_find_from_found(s.apps, toplevel, 0);
        },
        _ => {},
    }
    lemma_find_stable(s.apps, t.apps, h, i);
}

/// Attribute events are last-write-wins: once toplevel `h` is recorded, its
/// title after any further events is the last title delivered for `h` (or
/// the one it had), and likewise its app id, whatever the interleaving of the
/// two kinds of event.
pub proof fn lemma_attributes_last_write_wins(s: StateView, h: ObjectId, evs: Seq<Event>)
    requires
        find_app(s.apps, h) is Some,
    ensures
        find_app(apply_events(s, evs).apps, h) == find_app(s.apps, h),
        apply_events(s, evs).apps[find_app(s.apps, h)->0].title == last_title(
            evs,
            h,
            s.apps[find_app(s.apps, h)->0].title,
        ),
        apply_events(s, evs).apps[find_app(s.apps, h)->0].app_id == last_app_id(
            evs,
            h,
            s.apps[find_app(s.apps, h)->0].app_id,
        ),
    decreases evs.len(),
{
    if evs.len() > 0 {
        lemma_attributes_last_write_wins(s, h, evs.drop_last());
        let i = find_app(s.apps, h)->0;
        lemma_event_keeps_app(apply_events(s, evs.drop_last()), evs.last(), h, i);
    }
}

/// With no new events, dispatching again changes nothing: the state reached
/// after `evs` is left as it is by a further round that delivers no event.
pub proof fn lemma_quiet_round_keeps_state(s: StateView, evs: Seq<Event>)
    ensures
        apply_events(apply_events(s, evs), Seq::empty()) == apply_events(s, evs),
        apply_events(s, evs + Seq::empty()) == apply_events(s, evs),
{
    assert(evs + Seq::<Event>::empty() =~= evs);
}

impl AppState {
    /// Index of the first application with the given handle.
    fn find_app(&self, h: ObjectId) -> (r: Option<usize>)
        ensures
            r == (match find_app(self@.apps, h) {
                Some(i) => Some(i as usize),
                None => None::<usize>,
            }),
            r matches Some(i) ==> i < self.apps@.len() && find_app(self@.apps, h) == Some(i as int),
    {
        let mut i: usize = 0;
        while i < self.apps.len()
            invariant
                i <= self.apps@.len(),
                self@.apps.len() == self.apps@.len(),
                forall|k: int| 0 <= k < i ==> #[trigger] self@.apps[k].handle != h,
            decreases self.apps.len() - i,
        {
            assert(self@.apps[i as int] == self.apps@[i as int]@);
            if self.apps[i].handle == h {
                proof {
                    lemma_find_skips(self@.apps, h, i as int);
                }
                return Some(i);
            }
            i += 1;
        }
        proof {
            lemma_find_skips(self@.apps, h, i as int);
        }
        None
    }

    /// Whether a toplevel with this handle has been announced; attribute events
    /// for any other handle are dropped by [`AppState::event`].
    pub fn knows_toplevel(&self, h: ObjectId) -> (r: bool)
        ensures
            r == find_app(self@.apps, h) is Some,
    {
        self.find_app(h).is_some()
    }

    /// Applies one event to the state.
    pub fn event(&mut self, e: Event)
        ensures
            final(self)@ == apply_event(old(self)@, e),
    {
        let ghost s0 = self@;
        match e {
            Event::OutputName { output, name } => {
                self.outputs.push(Output { handle: output, name });
                assert(self@.outputs =~= s0.outputs.push((output, name@)));
            },
            Event::SeatName { seat, name } => {
                self.seats.push(Seat { handle: seat, name });
                assert(self@.seats =~= s0.seats.push((seat, name@)));
            },
            Event::WorkspaceGroupCreated { group } => {
                let g: Vec<Workspace> = Vec::new();
                assert(crate::state::group_view(g) =~= Seq::empty());
                self.workspace_group.push(g);
                assert(self@.groups =~= s0.groups.push(Seq::empty()));
            },
            Event::WorkspaceCreated { workspace } => {},
            Event::WorkspaceName { workspace, name } => {
                let ghost w = (name@, workspace);
                let n = self.workspace_group.len();
                if n == 0 {
                    let mut g: Vec<Workspace> = Vec::new();
                    g.push(Workspace { name, handle: workspace });
                    self.workspace_group.push(g);
                    assert(self@.groups[0] =~= seq![w]);
                    assert(self@.groups =~= seq![seq![w]]);
                } else {
                    let mut g = self.workspace_group.pop().unwrap();
                    g.push(Workspace { name, handle: workspace });
                    self.workspace_group.push(g);
                    assert(self@.groups[n - 1] =~= s0.groups.last().push(w));
                    assert(self@.groups =~= add_workspace(s0.groups, w));
                }
            },
            Event::ToplevelCreated { toplevel } => {
                self.apps.push(App { handle: toplevel, title: None, app_id: None, outputs: Vec::new() });
                assert(self@.apps[self@.apps.len() - 1].outputs =~= Seq::empty());
                assert(self@.apps =~= s0.apps.push(new_app(toplevel)));
            },
            Event::ToplevelTitle { toplevel, title } => {
                if let Some(i) = self.find_app(toplevel) {
                    let ghost t = title@;
                    self.apps[i].title = Some(title);
                    assert(self@.apps =~= s0.apps.update(i as int, AppView { title: Some(t), ..s0.apps[i as int] }));
                }
            },
            Event::ToplevelAppId { toplevel, app_id } => {
                if let Some(i) = self.find_app(toplevel) {
                    let ghost t = app_id@;
                    self.apps[i].app_id = Some(app_id);
                    assert(self@.apps =~= s0.apps.update(i as int, AppView { app_id: Some(t), ..s0.apps[i as int] }));
                }
            },
            Event::ToplevelOutputEnter { toplevel, output } => {
                if let Some(i) = self.find_app(toplevel) {
                    self.apps[i].outputs.push(output);
                    assert(self@.apps[i as int].outputs =~= s0.apps[i as int].outputs.push(output));
                    assert(self@.apps =~= s0.apps.update(i as int, AppView { outputs: s0.apps[i as int].outputs.push(output), ..s0.apps[i as int] }));
                }
            },
            Event::Other => {},
        }
    }
}

} // verus!
