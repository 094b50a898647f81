use cos_cli::dispatch::Event;
use cos_cli::resolve::{app_selector, AppSelector, CliError, Missing, SelectorError};
use cos_cli::state::AppState;
use cos_cli::text::{contains_chars, contains_folded};

fn s(x: &str) -> String {
    x.to_string()
}

/// Two apps, two groups of workspaces, two outputs, one seat, with the manager bound.
fn graph() -> AppState {
    let mut st = AppState::new();
    st.bound(cos_cli::registry::Interface::ToplevelManager, 77);
    st.event(Event::OutputName { output: 4, name: s("DP-1") });
    st.event(Event::OutputName { output: 6, name: s("HDMI-A-1") });
    st.event(Event::SeatName { seat: 2, name: s("seat0") });
    st.event(Event::WorkspaceGroupCreated { group: 40 });
    st.event(Event::WorkspaceName { workspace: 30, name: s("1") });
    st.event(Event::WorkspaceName { workspace: 31, name: s("2") });
    st.event(Event::WorkspaceGroupCreated { group: 41 });
    st.event(Event::WorkspaceName { workspace: 32, name: s("1") });
    st.event(Event::WorkspaceName { workspace: 33, name: s("2") });
    st.event(Event::ToplevelCreated { toplevel: 20 });
    st.event(Event::ToplevelAppId { toplevel: 20, app_id: s("org.mozilla.Firefox") });
    st.event(Event::ToplevelCreated { toplevel: 21 });
    st.event(Event::ToplevelAppId { toplevel: 21, app_id: s("com.system76.CosmicTerm") });
    st
}

#[test]
fn selector_needs_exactly_one_option() {
    assert!(matches!(app_selector(Some(s("x")), Some(0)), Err(CliError::InvalidSelector(SelectorError::BothSelectors))));
    assert!(matches!(app_selector(None, None), Err(CliError::InvalidSelector(SelectorError::NoSelector))));
    assert!(matches!(app_selector(None, Some(3)), Ok(AppSelector::Index(3))));
    assert!(matches!(app_selector(Some(s("fire")), None), Ok(AppSelector::AppId(q)) if q == "fire"));
}

#[test]
fn activate_index_out_of_range_names_the_index() {
    let st = graph();
    assert!(matches!(st.resolve_activate(5, None), Err(CliError::NotFound(Missing::AppIndex(5)))));
}

#[test]
fn move_to_missing_workspace_names_it() {
    let st = graph();
    let r = st.resolve_move(&AppSelector::AppId(s("firefox")), &s("9"), None, None);
    assert!(matches!(r, Err(CliError::NotFound(Missing::Workspace(w))) if w == "9"));
}

#[test]
fn no_manager_is_unsupported_but_state_is_listed() {
    let mut st = AppState::new();
    st.event(Event::OutputName { output: 4, name: s("DP-1") });
    st.event(Event::WorkspaceName { workspace: 30, name: s("1") });
    st.event(Event::ToplevelCreated { toplevel: 20 });
    st.event(Event::SeatName { seat: 2, name: s("seat0") });
    assert!(matches!(st.resolve_activate(0, None), Err(CliError::Unsupported)));
    assert!(matches!(st.resolve_move(&AppSelector::Index(0), &s("1"), None, None), Err(CliError::Unsupported)));
    assert!(matches!(st.resolve_move(&AppSelector::Index(5), &s("9"), None, None), Err(CliError::Unsupported)));
    assert!(matches!(st.resolve_move(&AppSelector::AppId(s("x")), &s("1"), None, None), Err(CliError::Unsupported)));
    assert!(matches!(st.resolve_activate(5, Some(3)), Err(CliError::Unsupported)));
    assert_eq!(st.outputs.len(), 1);
    assert_eq!(st.workspace_group.len(), 1);
    assert_eq!(st.apps.len(), 1);
}

#[test]
fn index_and_unique_app_id_resolve_alike() {
    let st = graph();
    let a = st.resolve_move(&AppSelector::Index(0), &s("2"), None, None).unwrap();
    let b = st.resolve_move(&AppSelector::AppId(s("FIREFOX")), &s("2"), None, None).unwrap();
    assert_eq!(a.toplevels, vec![20]);
    assert_eq!(b.toplevels, vec![20]);
    assert_eq!((a.manager, a.workspace, a.output), (77, 31, 4));
    assert_eq!((b.manager, b.workspace, b.output), (77, 31, 4));
}

#[test]
fn app_id_selects_every_match_in_order() {
    let st = graph();
    let p = st.resolve_move(&AppSelector::AppId(s("O")), &s("1"), None, Some(1)).unwrap();
    assert_eq!(p.toplevels, vec![20, 21]);
    assert_eq!(p.workspace, 30);
    assert_eq!(p.output, 6);
    assert_eq!(st.apps_matching("term"), vec![21]);
    assert!(st.apps_matching("chrome").is_empty());
}

#[test]
fn app_id_without_match_is_not_found() {
    let st = graph();
    let r = st.resolve_move(&AppSelector::AppId(s("chrome")), &s("1"), None, None);
    assert!(matches!(r, Err(CliError::NotFound(Missing::AppId(q))) if q == "chrome"));
}

#[test]
fn app_without_id_never_matches() {
    let mut st = AppState::new();
    st.event(Event::ToplevelCreated { toplevel: 20 });
    assert!(st.apps_matching("").is_empty());
}

#[test]
fn workspace_group_narrows_the_search() {
    let st = graph();
    let p = st.resolve_move(&AppSelector::Index(1), &s("1"), Some(1), None).unwrap();
    assert_eq!(p.workspace, 32);
    assert_eq!(p.toplevels, vec![21]);
    let r = st.resolve_move(&AppSelector::Index(1), &s("1"), Some(2), None);
    assert!(matches!(r, Err(CliError::NotFound(Missing::WorkspaceGroup(2)))));
}

#[test]
fn output_index_and_default() {
    let st = graph();
    let r = st.resolve_move(&AppSelector::Index(0), &s("1"), None, Some(2));
    assert!(matches!(r, Err(CliError::NotFound(Missing::OutputIndex(2)))));
    let mut bare = AppState::new();
    bare.bound(cos_cli::registry::Interface::ToplevelManager, 1);
    bare.event(Event::ToplevelCreated { toplevel: 20 });
    bare.event(Event::WorkspaceName { workspace: 30, name: s("1") });
    let r = bare.resolve_move(&AppSelector::Index(0), &s("1"), None, None);
    assert!(matches!(r, Err(CliError::NotFound(Missing::NoOutputs))));
}

#[test]
fn move_app_index_out_of_range() {
    let st = graph();
    let r = st.resolve_move(&AppSelector::Index(2), &s("1"), None, None);
    assert!(matches!(r, Err(CliError::NotFound(Missing::AppIndex(2)))));
}

#[test]
fn activate_seat_default_and_index() {
    let st = graph();
    let p = st.resolve_activate(1, None).unwrap();
    assert_eq!((p.manager, p.toplevel, p.seat), (77, 21, 2));
    assert!(matches!(st.resolve_activate(1, Some(1)), Err(CliError::NotFound(Missing::SeatIndex(1)))));
    let mut no_seat = AppState::new();
    no_seat.bound(cos_cli::registry::Interface::ToplevelManager, 1);
    no_seat.event(Event::ToplevelCreated { toplevel: 20 });
    assert!(matches!(no_seat.resolve_activate(0, None), Err(CliError::NotFound(Missing::NoSeats))));
}

#[test]
fn transport_error_keeps_cause() {
    assert!(matches!(CliError::new(s("broken pipe")), CliError::Transport(m) if m == "broken pipe"));
}

#[test]
fn folded_containment_ignores_case() {
    assert!(contains_folded("org.mozilla.Firefox", "FIREFOX"));
    assert!(contains_folded("ÄPFEL", "äp"));
    assert!(!contains_folded("Firefox", "fox!"));
    assert!(contains_folded("anything", ""));
    assert!(!contains_folded("", "a"));
}

#[test]
fn raw_containment_is_exact() {
    let t: Vec<char> = "abcabd".chars().collect();
    assert!(contains_chars(&t, &"abd".chars().collect()));
    assert!(!contains_chars(&t, &"ABD".chars().collect()));
    assert!(!contains_chars(&t, &"abcabde".chars().collect()));
    assert!(contains_chars(&t, &Vec::new()));
}
