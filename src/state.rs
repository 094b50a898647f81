use vstd::prelude::*;

use crate::registry::Interface;

verus! {

/// A remote object, identified by its protocol object id. Objects are never
/// destroyed during a run, so the id is the object's identity.
pub type ObjectId = u32;

/// Full roundtrips made after asking for the registry: one delivers the
/// announced globals, the next the events of the objects bound in answer.
pub const DISCOVERY_ROUNDTRIPS: usize = 2;

/// An output device and its display name.
pub struct Output {
    pub handle: ObjectId,
    pub name: String,
}

/// A seat and its display name.
pub struct Seat {
    pub handle: ObjectId,
    pub name: String,
}

/// A named workspace.
pub struct Workspace {
    pub name: String,
    pub handle: ObjectId,
}

/// A toplevel window; its attributes arrive one by one and may never arrive.
pub struct App {
    pub handle: ObjectId,
    pub title: Option<String>,
    pub app_id: Option<String>,
    pub outputs: Vec<ObjectId>,
}

/// The local mirror of the compositor's objects.
pub struct AppState {
    pub workspace_group: Vec<Vec<Workspace>>,
    pub toplevel_manager: Option<ObjectId>,
    pub outputs: Vec<Output>,
    pub seats: Vec<Seat>,
    pub apps: Vec<App>,
}

pub ghost struct AppView {
    pub handle: ObjectId,
    pub title: Option<Seq<char>>,
    pub app_id: Option<Seq<char>>,
    pub outputs: Seq<ObjectId>,
}

pub ghost struct StateView {
    pub groups: Seq<Seq<(Seq<char>, ObjectId)>>,
    pub manager: Option<ObjectId>,
    pub outputs: Seq<(ObjectId, Seq<char>)>,
    pub seats: Seq<(ObjectId, Seq<char>)>,
    pub apps: Seq<AppView>,
}

pub open spec fn text_view(o: Option<String>) -> Option<Seq<char>> {
    match o {
        Some(s) => Some(s@),
        None => None,
    }
}

impl View for Output {
    type V = (ObjectId, Seq<char>);

    open spec fn view(&self) -> (ObjectId, Seq<char>) {
        (self.handle, self.name@)
    }
}

impl View for Seat {
    type V = (ObjectId, Seq<char>);

    open spec fn view(&self) -> (ObjectId, Seq<char>) {
        (self.handle, self.name@)
    }
}

impl View for Workspace {
    type V = (Seq<char>, ObjectId);

    open spec fn view(&self) -> (Seq<char>, ObjectId) {
        (self.name@, self.handle)
    }
}

impl View for App {
    type V = AppView;

    open spec fn view(&self) -> AppView {
        AppView {
            handle: self.handle,
            title: text_view(self.title),
            app_id: text_view(self.app_id),
            outputs: self.outputs@,
        }
    }
}

pub open spec fn group_view(g: Vec<Workspace>) -> Seq<(Seq<char>, ObjectId)> {
    g@.map_values(|w: Workspace| w@)
}

impl View for AppState {
    type V = StateView;

    open spec fn view(&self) -> StateView {
        StateView {
            groups: self.workspace_group@.map_values(|g: Vec<Workspace>| group_view(g)),
            manager: self.toplevel_manager,
            outputs: self.outputs@.map_values(|o: Output| o@),
            seats: self.seats@.map_values(|s: Seat| s@),
            apps: self.apps@.map_values(|a: App| a@),
        }
    }
}

impl StateView {
    /// The state before any event: nothing discovered.
    pub open spec fn empty() -> StateView {
        StateView {
            groups: Seq::empty(),
            manager: None,
            outputs: Seq::empty(),
            seats: Seq::empty(),
            apps: Seq::empty(),
        }
    }

    /// The state after a bind of the given interface produced object `id`.
    pub open spec fn bound(self, interface: Interface, id: ObjectId) -> StateView {
        if interface == Interface::ToplevelManager {
            StateView { manager: Some(id), ..self }
        } else {
            self
        }
    }
}

impl AppState {
    pub fn new() -> (r: AppState)
        ensures
            r@ == StateView::empty(),
    {
        let r = AppState {
            workspace_group: Vec::new(),
            toplevel_manager: None,
            outputs: Vec::new(),
            seats: Vec::new(),
            apps: Vec::new(),
        };
        assert(r@.groups =~= Seq::empty());
        assert(r@.outputs =~= Seq::empty());
        assert(r@.seats =~= Seq::empty());
        assert(r@.apps =~= Seq::empty());
        r
    }

    /// Records the object that a bind request produced; only the toplevel
    /// manager is kept, the other objects announce themselves through events.
    pub fn bound(&mut self, interface: Interface, id: ObjectId)
        ensures
            final(self)@ == old(self)@.bound(interface, id),
    {
        if interface == Interface::ToplevelManager {
            self.toplevel_manager = Some(id);
        }
    }
}

} // verus!
