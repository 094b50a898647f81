use vstd::prelude::*;

verus! {

/// The global interfaces that the client binds when the registry announces them.
#[derive(Clone, Copy, Debug, PartialEq, Eq, Structural)]
pub enum Interface {
    Output,
    Seat,
    ToplevelInfo,
    WorkspaceManager,
    ToplevelManager,
}

/// A bind request for one announced global: which interface, at which version.
#[derive(Clone, Copy, Debug, PartialEq, Eq, Structural)]
pub struct Bind {
    pub interface: Interface,
    pub version: u32,
}

pub const OUTPUT_VERSION: u32 = 4;

pub const SEAT_VERSION: u32 = 2;

pub const TOPLEVEL_INFO_VERSION: u32 = 1;

/// The interface named by a registry interface string, if it is one the client knows.
pub open spec fn interface_of(s: Seq<char>) -> Option<Interface> {
    if s == "wl_output"@ {
        Some(Interface::Output)
    } else if s == "wl_seat"@ {
        Some(Interface::Seat)
    } else if s == "zcosmic_toplevel_info_v1"@ {
        Some(Interface::ToplevelInfo)
    } else if s == "ext_workspace_manager_v1"@ {
        Some(Interface::WorkspaceManager)
    } else if s == "zcosmic_toplevel_manager_v1"@ {
        Some(Interface::ToplevelManager)
    } else {
        None
    }
}

/// The version bound for an interface: fixed for most, the advertised one for
/// the two extensible management interfaces.
pub open spec fn bind_version(i: Interface, advertised: u32) -> u32 {
    match i {
        Interface::Output => OUTPUT_VERSION,
        Interface::Seat => SEAT_VERSION,
        Interface::ToplevelInfo => TOPLEVEL_INFO_VERSION,
        Interface::WorkspaceManager => advertised,
        Interface::ToplevelManager => advertised,
    }
}

/// What the binder does on a "global announced" event.
pub open spec fn spec_bind_for_global(interface: Seq<char>, version: u32) -> Option<Bind> {
    match interface_of(interface) {
        Some(i) => Some(Bind { interface: i, version: bind_version(i, version) }),
        None => None,
    }
}

/// The binder is total: an announced global yields a bind request exactly when
/// its interface is one of the five known ones, at that interface's version,
/// and any other interface yields nothing.
pub proof fn lemma_only_known_interfaces_bind(interface: Seq<char>, version: u32)
    ensures
        spec_bind_for_global(interface, version) is Some <==> interface_of(interface) is Some,
        interface_of(interface) matches Some(i) ==> spec_bind_for_global(interface, version) == Some(
            Bind { interface: i, version: bind_version(i, version) },
        ),
        interface != "wl_output"@ && interface != "wl_seat"@ && interface != "zcosmic_toplevel_info_v1"@
            && interface != "ext_workspace_manager_v1"@ && interface != "zcosmic_toplevel_manager_v1"@
            ==> spec_bind_for_global(interface, version) is None,
{
}

/// Whether two strings hold the same characters.
pub fn same_text(a: &str, b: &str) -> (r: bool)
    ensures
        r == (a@ == b@),
{
    let x: String = a.to_owned();
    let y: String = b.to_owned();
    x == y
}

/// Decides the bind request for an announced global (name id aside, which the
/// caller passes through unchanged). Unknown interfaces give `None`.
pub fn bind_for_global(interface: &str, version: u32) -> (r: Option<Bind>)
    ensures
        r == spec_bind_for_global(interface@, version),
        r.is_some() <==> interface_of(interface@).is_some(),
{
    let i = if same_text(interface, "wl_output") {
        Interface::Output
    } else if same_text(interface, "wl_seat") {
        Interface::Seat
    } else if same_text(interface, "zcosmic_toplevel_info_v1") {
        Interface::ToplevelInfo
    } else if same_text(interface, "ext_workspace_manager_v1") {
        Interface::WorkspaceManager
    } else if same_text(interface, "zcosmic_toplevel_manager_v1") {
        Interface::ToplevelManager
    } else {
        return None;
    };
    let v = match i {
        Interface::Output => OUTPUT_VERSION,
        Interface::Seat => SEAT_VERSION,
        Interface::ToplevelInfo => TOPLEVEL_INFO_VERSION,
        Interface::WorkspaceManager => version,
        Interface::ToplevelManager => version,
    };
    Some(Bind { interface: i, version: v })
}

} // verus!
