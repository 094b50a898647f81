use vstd::prelude::*;

use crate::state::{AppState, AppView, ObjectId, StateView, Workspace};
use crate::text::{contains_folded, lower_of, occurs_in};

verus! {

/// What a failed lookup was looking for.
#[derive(Debug)]
pub enum Missing {
    AppIndex(usize),
    AppId(String),
    WorkspaceGroup(usize),
    Workspace(String),
    OutputIndex(usize),
    NoOutputs,
    SeatIndex(usize),
    NoSeats,
}

/// How the application selector options were misused.
#[derive(Clone, Copy, Debug, PartialEq, Eq, Structural)]
pub enum SelectorError {
    /// Neither an app id nor an index was given.
    NoSelector,
    /// Both an app id and an index were given.
    BothSelectors,
}

/// Every terminal failure of a command.
#[derive(Debug)]
pub enum CliError {
    InvalidSelector(SelectorError),
    NotFound(Missing),
    /// The compositor did not advertise the toplevel management interface.
    Unsupported,
    /// The transport failed; the cause text is kept.
    Transport(String),
}

impl CliError {
    /// An error carrying the cause text of a failed transport operation.
    pub fn new(message: String) -> (r: CliError)
        ensures
            r == CliError::Transport(message),
    {
        CliError::Transport(message)
    }
}

/// Which applications a command acts on.
#[derive(Debug)]
pub enum AppSelector {
    /// The application at this position.
    Index(usize),
    /// Every application whose id contains this text, ignoring case.
    AppId(String),
}

pub open spec fn spec_app_selector(app_id: Option<String>, index: Option<usize>) -> Result<AppSelector, CliError> {
    match (app_id, index) {
        (Some(q), None) => Ok(AppSelector::AppId(q)),
        (None, Some(i)) => Ok(AppSelector::Index(i)),
        (None, None) => Err(CliError::InvalidSelector(SelectorError::NoSelector)),
        (Some(_), Some(_)) => Err(CliError::InvalidSelector(SelectorError::BothSelectors)),
    }
}

/// Checks that exactly one of the two selector options is given.
pub fn app_selector(app_id: Option<String>, index: Option<usize>) -> (r: Result<AppSelector, CliError>)
    ensures
        r == spec_app_selector(app_id, index),
{
    match (app_id, index) {
        (Some(q), None) => Ok(AppSelector::AppId(q)),
        (None, Some(i)) => Ok(AppSelector::Index(i)),
        (None, None) => Err(CliError::InvalidSelector(SelectorError::NoSelector)),
        (Some(_), Some(_)) => Err(CliError::InvalidSelector(SelectorError::BothSelectors)),
    }
}

/// Whether an application's id contains `q`, ignoring case. An application
/// whose id is not known matches nothing.
pub open spec fn app_matches(a: AppView, q: Seq<char>) -> bool {
    match a.app_id {
        Some(id) => occurs_in(lower_of(q), lower_of(id)),
        None => false,
    }
}

/// Handles of the applications among the first `n` that match `q`, in order.
pub open spec fn matching_handles(apps: Seq<AppView>, q: Seq<char>, n: int) -> Seq<ObjectId>
    decreases n,
{
    if n <= 0 {
        Seq::empty()
    } else if app_matches(apps[n - 1], q) {
        matching_handles(apps, q, n - 1).push(apps[n - 1].handle)
    } else {
        matching_handles(apps, q, n - 1)
    }
}

/// Handle of the first workspace named `name` in a group.
pub open spec fn workspace_in(g: Seq<(Seq<char>, ObjectId)>, name: Seq<char>) -> Option<ObjectId>
    decreases g.len(),
{
    if g.len() == 0 {
        None
    } else {
        match workspace_in(g.drop_last(), name) {
            Some(w) => Some(w),
            None => if g.last().0 == name {
                Some(g.last().1)
            } else {
                None
            },
        }
    }
}

/// Handle of the first workspace named `name`, searching the groups in order.
pub open spec fn workspace_in_groups(gs: Seq<Seq<(Seq<char>, ObjectId)>>, name: Seq<char>) -> Option<ObjectId>
    decreases gs.len(),
{
    if gs.len() == 0 {
        None
    } else {
        match workspace_in_groups(gs.drop_last(), name) {
            Some(w) => Some(w),
            None => workspace_in(gs.last(), name),
        }
    }
}

/// The applications a move acts on.
pub open spec fn spec_move_targets(s: StateView, sel: AppSelector) -> Result<Seq<ObjectId>, CliError> {
    match sel {
        AppSelector::Index(i) => if i < s.apps.len() {
            Ok(seq![s.apps[i as int].handle])
        } else {
            Err(CliError::NotFound(Missing::AppIndex(i)))
        },
        AppSelector::AppId(q) => {
            let m = matching_handles(s.apps, q@, s.apps.len() as int);
            if m.len() == 0 {
                Err(CliError::NotFound(Missing::AppId(q)))
            } else {
                Ok(m)
            }
        },
    }
}

/// The workspace a move goes to: searched in one group, or in all of them.
pub open spec fn spec_move_workspace(s: StateView, name: String, group: Option<usize>) -> Result<ObjectId, CliError> {
    let found = match group {
        Some(g) => if g < s.groups.len() {
            Ok(workspace_in(s.groups[g as int], name@))
        } else {
            Err(CliError::NotFound(Missing::WorkspaceGroup(g)))
        },
        None => Ok(workspace_in_groups(s.groups, name@)),
    };
    match found {
        Ok(Some(w)) => Ok(w),
        Ok(None) => Err(CliError::NotFound(Missing::Workspace(name))),
        Err(e) => Err(e),
    }
}

/// The output a move goes to: the given index, or the first output.
pub open spec fn spec_output(s: StateView, index: Option<usize>) -> Result<ObjectId, CliError> {
    match index {
        Some(i) => if i < s.outputs.len() {
            Ok(s.outputs[i as int].0)
        } else {
            Err(CliError::NotFound(Missing::OutputIndex(i)))
        },
        None => if s.outputs.len() == 0 {
            Err(CliError::NotFound(Missing::NoOutputs))
        } else {
            Ok(s.outputs[0].0)
        },
    }
}

/// The seat an activation uses: the given index, or the first seat.
pub open spec fn spec_seat(s: StateView, index: Option<usize>) -> Result<ObjectId, CliError> {
    match index {
        Some(i) => if i < s.seats.len() {
            Ok(s.seats[i as int].0)
        } else {
            Err(CliError::NotFound(Missing::SeatIndex(i)))
        },
        None => if s.seats.len() == 0 {
            Err(CliError::NotFound(Missing::NoSeats))
        } else {
            Ok(s.seats[0].0)
        },
    }
}

/// The requests of a move: each toplevel, in order, to one workspace on one output.
pub struct MovePlan {
    pub manager: ObjectId,
    pub toplevels: Vec<ObjectId>,
    pub workspace: ObjectId,
    pub output: ObjectId,
}

pub ghost struct MovePlanView {
    pub manager: ObjectId,
    pub toplevels: Seq<ObjectId>,
    pub workspace: ObjectId,
    pub output: ObjectId,
}

impl View for MovePlan {
    type V = MovePlanView;

    open spec fn view(&self) -> MovePlanView {
        MovePlanView {
            manager: self.manager,
            toplevels: self.toplevels@,
            workspace: self.workspace,
            output: self.output,
        }
    }
}

/// The request of an activation.
#[derive(Clone, Copy, Debug, PartialEq, Eq, Structural)]
pub struct ActivatePlan {
    pub manager: ObjectId,
    pub toplevel: ObjectId,
    pub seat: ObjectId,
}

/// Resolution of a move, checked in this order: the management interface,
/// the applications, the workspace, the output.
pub open spec fn spec_resolve_move(
    s: StateView,
    sel: AppSelector,
    workspace: String,
    group: Option<usize>,
    output: Option<usize>,
) -> Result<MovePlanView, CliError> {
    match s.manager {
        None => Err(CliError::Unsupported),
        Some(m) => match spec_move_targets(s, sel) {
            Err(e) => Err(e),
            Ok(t) => match spec_move_workspace(s, workspace, group) {
                Err(e) => Err(e),
                Ok(w) => match spec_output(s, output) {
                    Err(e) => Err(e),
                    Ok(o) => Ok(MovePlanView { manager: m, toplevels: t, workspace: w, output: o }),
                },
            },
        },
    }
}

/// Resolution of an activation, checked in this order: the management
/// interface, the application, the seat.
pub open spec fn spec_resolve_activate(s: StateView, index: usize, seat: Option<usize>) -> Result<ActivatePlan, CliError> {
    match s.manager {
        None => Err(CliError::Unsupported),
        Some(m) => if index >= s.apps.len() {
            Err(CliError::NotFound(Missing::AppIndex(index)))
        } else {
            match spec_seat(s, seat) {
                Err(e) => Err(e),
                Ok(t) => Ok(ActivatePlan { manager: m, toplevel: s.apps[index as int].handle, seat: t }),
            }
        },
    }
}

proof fn lemma_only_first_matches(apps: Seq<AppView>, q: Seq<char>, n: int)
    requires
        1 <= n <= apps.len(),
        app_matches(apps[0], q),
        forall|k: int| 1 <= k < apps.len() ==> !#[trigger] app_matches(apps[k], q),
    ensures
        matching_handles(apps, q, n) == seq![apps[0].handle],
    decreases n,
{
    if n > 1 {
        lemma_only_first_matches(apps, q, n - 1);
    } else {
        assert(matching_handles(apps, q, 0) == Seq::<ObjectId>::empty());
        assert(Seq::<ObjectId>::empty().push(apps[0].handle) =~= seq![apps[0].handle]);
    }
}

/// When the application at index 0 is the only one whose id contains `q`,
/// selecting it by index and selecting it by `q` resolve a move identically.
pub proof fn lemma_index_and_unique_app_id_agree(
    s: StateView,
    q: String,
    workspace: String,
    group: Option<usize>,
    output: Option<usize>,
)
    requires
        s.apps.len() > 0,
        app_matches(s.apps[0], q@),
        forall|k: int| 1 <= k < s.apps.len() ==> !#[trigger] app_matches(s.apps[k], q@),
    ensures
        spec_resolve_move(s, AppSelector::Index(0), workspace, group, output) == spec_resolve_move(
            s,
            AppSelector::AppId(q),
            workspace,
            group,
            output,
        ),
{
    lemma_only_first_matches(s.apps, q@, s.apps.len() as int);
}

pub open spec fn plan_result_view(r: Result<MovePlan, CliError>) -> Result<MovePlanView, CliError> {
    match r {
        Ok(p) => Ok(p@),
        Err(e) => Err(e),
    }
}

fn first_workspace(g: &Vec<Workspace>, name: &String) -> (r: Option<ObjectId>)
    ensures
        r == workspace_in(crate::state::group_view(*g), name@),
{
    let ghost gv = crate::state::group_view(*g);
    let mut r: Option<ObjectId> = None;
    let mut i: usize = 0;
    while i < g.len()
        invariant
            i <= g@.len(),
            gv == crate::state::group_view(*g),
            r == workspace_in(gv.take(i as int), name@),
        decreases g.len() - i,
    {
        assert(gv.take(i + 1).drop_last() =~= gv.take(i as int));
        if r.is_none() && g[i].name == *name {
            r = Some(g[i].handle);
        }
        i += 1;
    }
    assert(gv.take(i as int) =~= gv);
    r
}

impl AppState {
    /// Handles of the applications whose id contains `query`, ignoring case,
    /// in the order the applications were announced.
    pub fn apps_matching(&self, query: &str) -> (r: Vec<ObjectId>)
        ensures
            r@ == matching_handles(self@.apps, query@, self@.apps.len() as int),
    {
        let ghost apps = self@.apps;
        let mut r: Vec<ObjectId> = Vec::new();
        let mut i: usize = 0;
        while i < self.apps.len()
            invariant
                i <= self.apps@.len(),
                apps == self@.apps,
                apps.len() == self.apps@.len(),
                r@ == matching_handles(apps, query@, i as int),
            decreases self.apps.len() - i,
        {
            let a = &self.apps[i];
            assert(apps[i as int] == a@);
            let m = match &a.app_id {
                Some(id) => contains_folded(id.as_str(), query),
                None => false,
            };
            if m {
                r.push(a.handle);
            }
            i += 1;
        }
        r
    }

    fn move_workspace(&self, name: &String, group: Option<usize>) -> (r: Result<ObjectId, CliError>)
        ensures
            r == spec_move_workspace(self@, *name, group),
    {
        let found = match group {
            Some(gi) => {
                if gi < self.workspace_group.len() {
                    first_workspace(&self.workspace_group[gi], name)
                } else {
                    return Err(CliError::NotFound(Missing::WorkspaceGroup(gi)));
                }
            },
            None => {
                let ghost gs = self@.groups;
                let mut r: Option<ObjectId> = None;
                let mut i: usize = 0;
                while i < self.workspace_group.len()
                    invariant
                        i <= self.workspace_group@.len(),
                        gs == self@.groups,
                        gs.len() == self.workspace_group@.len(),
                        r == workspace_in_groups(gs.take(i as int), name@),
                    decreases self.workspace_group.len() - i,
                {
                    assert(gs.take(i + 1).drop_last() =~= gs.take(i as int));
                    if r.is_none() {
                        r = first_workspace(&self.workspace_group[i], name);
                    }
                    i += 1;
                }
                assert(gs.take(i as int) =~= gs);
                r
            },
        };
        match found {
            Some(w) => Ok(w),
            None => Err(CliError::NotFound(Missing::Workspace(name.clone()))),
        }
    }

    fn output(&self, index: Option<usize>) -> (r: Result<ObjectId, CliError>)
        ensures
            r == spec_output(self@, index),
    {
        match index {
            Some(i) => if i < self.outputs.len() {
                Ok(self.outputs[i].handle)
            } else {
                Err(CliError::NotFound(Missing::OutputIndex(i)))
            },
            None => if self.outputs.len() == 0 {
                Err(CliError::NotFound(Missing::NoOutputs))
            } else {
                Ok(self.outputs[0].handle)
            },
        }
    }

    fn seat(&self, index: Option<usize>) -> (r: Result<ObjectId, CliError>)
        ensures
            r == spec_seat(self@, index),
    {
        match index {
            Some(i) => if i < self.seats.len() {
                Ok(self.seats[i].handle)
            } else {
                Err(CliError::NotFound(Missing::SeatIndex(i)))
            },
            None => if self.seats.len() == 0 {
                Err(CliError::NotFound(Missing::NoSeats))
            } else {
                Ok(self.seats[0].handle)
            },
        }
    }

    /// Resolves a move command to the requests it makes.
    pub fn resolve_move(
        &self,
        sel: &AppSelector,
        workspace: &String,
        group: Option<usize>,
        output: Option<usize>,
    ) -> (r: Result<MovePlan, CliError>)
        ensures
            plan_result_view(r) == spec_resolve_move(self@, *sel, *workspace, group, output),
    {
        let manager = match self.toplevel_manager {
            Some(m) => m,
            None => return Err(CliError::Unsupported),
        };
        let toplevels = match sel {
            AppSelector::Index(i) => {
                if *i < self.apps.len() {
                    let mut v: Vec<ObjectId> = Vec::new();
                    v.push(self.apps[*i].handle);
                    assert(v@ =~= seq![self@.apps[*i as int].handle]);
                    v
                } else {
                    return Err(CliError::NotFound(Missing::AppIndex(*i)));
                }
            },
            AppSelector::AppId(q) => {
                let v = self.apps_matching(q.as_str());
                if v.len() == 0 {
                    return Err(CliError::NotFound(Missing::AppId(q.clone())));
                }
                v
            },
        };
        let w = match self.move_workspace(workspace, group) {
            Ok(w) => w,
            Err(e) => return Err(e),
        };
        let o = match self.output(output) {
            Ok(o) => o,
            Err(e) => return Err(e),
        };
        Ok(MovePlan { manager, toplevels, workspace: w, output: o })
    }

    /// Resolves an activate command to the request it makes.
    pub fn resolve_activate(&self, index: usize, seat: Option<usize>) -> (r: Result<ActivatePlan, CliError>)
        ensures
            r == spec_resolve_activate(self@, index, seat),
    {
        let manager = match self.toplevel_manager {
            Some(m) => m,
            None => return Err(CliError::Unsupported),
        };
        if index >= self.apps.len() {
            return Err(CliError::NotFound(Missing::AppIndex(index)));
        }
        let toplevel = self.apps[index].handle;
        match self.seat(seat) {
            Ok(t) => Ok(ActivatePlan { manager, toplevel, seat: t }),
            Err(e) => Err(e),
        }
    }
}

} // verus!
