use workspace_events::hyprland::{
    create_is_visible, get_workspace, get_workspace_id, init_snapshot, parse_workspace_identifier,
    EventClient, HyprEvent, HyprMonitorData, HyprSnapshot, HyprWorkspaceData, HyprWorkspaceType,
    WorkspaceIdentifier,
};
use workspace_events::model::{Visibility, Workspace, WorkspaceId, WorkspaceUpdate};

fn wsdata(id: i32, name: &str, monitor: &str) -> HyprWorkspaceData {
    HyprWorkspaceData { id, name: name.to_string(), monitor: monitor.to_string() }
}

fn snapshot(workspaces: Vec<HyprWorkspaceData>, active_ids: Vec<i32>) -> HyprSnapshot {
    HyprSnapshot {
        workspaces,
        monitors: active_ids
            .into_iter()
            .map(|id| HyprMonitorData { active_workspace_id: id })
            .collect(),
    }
}

fn seeded_client(id: &str, name: &str, monitor: &str) -> EventClient {
    let mut client = EventClient::new();
    client.seed_active(Workspace {
        id: WorkspaceId(id.to_string()),
        name: name.to_string(),
        monitor: monitor.to_string(),
        visibility: Visibility::Focused,
    });
    client
}

#[test]
fn workspace_type_id_extraction() {
    let r = get_workspace_id(HyprWorkspaceType::Regular("3".to_string()));
    assert!(r == WorkspaceId("3".to_string()));
    let s = get_workspace_id(HyprWorkspaceType::Special(Some("scratch".to_string())));
    assert!(s == WorkspaceId("scratch".to_string()));
    let unnamed = get_workspace_id(HyprWorkspaceType::Special(None));
    assert!(unnamed == WorkspaceId(String::new()));
}

#[test]
fn visibility_checker_matches_monitor_slots() {
    let checker = create_is_visible(vec![
        HyprMonitorData { active_workspace_id: 1 },
        HyprMonitorData { active_workspace_id: 4 },
    ]);
    assert!(checker.is_visible(&wsdata(1, "1", "DP-1")));
    assert!(checker.is_visible(&wsdata(4, "4", "DP-2")));
    assert!(!checker.is_visible(&wsdata(2, "2", "DP-1")));
}

#[test]
fn get_workspace_resolves_first_match_with_visibility() {
    let snap = snapshot(vec![wsdata(1, "one", "DP-1"), wsdata(2, "two", "DP-2")], vec![2]);
    let active = Workspace {
        id: WorkspaceId("1".to_string()),
        name: "one".to_string(),
        monitor: "DP-1".to_string(),
        visibility: Visibility::Focused,
    };
    let found = get_workspace(&snap, &WorkspaceId("2".to_string()), Some(&active)).unwrap();
    assert!(found.id == WorkspaceId("2".to_string()));
    assert_eq!(found.name, "two");
    assert_eq!(found.monitor, "DP-2");
    assert_eq!(found.visibility, Visibility::Visible(true));

    let same = get_workspace(&snap, &WorkspaceId("1".to_string()), Some(&active)).unwrap();
    assert_eq!(same.visibility, Visibility::Focused);

    assert!(get_workspace(&snap, &WorkspaceId("9".to_string()), Some(&active)).is_none());
}

#[test]
fn changed_event_emits_update_then_focus_and_moves_cache() {
    let mut client = seeded_client("1", "1", "DP-1");
    let snap = snapshot(vec![wsdata(1, "1", "DP-1"), wsdata(2, "2", "DP-1")], vec![1]);
    let out = client.handle_event(
        HyprEvent::WorkspaceChanged(HyprWorkspaceType::Regular("2".to_string())),
        &snap,
    );
    assert_eq!(out.len(), 2);
    match &out[0] {
        WorkspaceUpdate::Update(w) => {
            assert!(w.id == WorkspaceId("2".to_string()));
            assert_eq!(w.name, "2");
        }
        other => panic!("expected an update first, got {:?}", kind_of(other)),
    }
    match &out[1] {
        WorkspaceUpdate::Focus { old, new } => {
            let old = old.as_ref().expect("previous focus must be paired");
            assert_eq!(old.name, "1");
            assert!(new.id == WorkspaceId("2".to_string()));
        }
        other => panic!("expected a focus transition, got {:?}", kind_of(other)),
    }
    let cached = client.active.as_ref().unwrap();
    assert_eq!(cached.name, "2");
}

#[test]
fn changed_event_on_already_focused_target_emits_update_only() {
    let mut client = seeded_client("1", "1", "DP-1");
    let snap = snapshot(vec![wsdata(1, "1", "DP-1"), wsdata(2, "2", "DP-1")], vec![1]);
    let out = client.handle_event(
        HyprEvent::WorkspaceChanged(HyprWorkspaceType::Regular("1".to_string())),
        &snap,
    );
    assert_eq!(out.len(), 1);
    match &out[0] {
        WorkspaceUpdate::Update(w) => {
            assert!(w.id == WorkspaceId("1".to_string()));
            assert_eq!(w.visibility, Visibility::Focused);
        }
        other => panic!("expected an update only, got {:?}", kind_of(other)),
    }
    let cached = client.active.as_ref().unwrap();
    assert_eq!(cached.name, "1");
}

#[test]
fn destroyed_event_emits_remove_without_resolution() {
    let mut client = seeded_client("1", "1", "DP-1");
    // an empty snapshot: nothing could resolve, so a resolution-free
    // translation is observable
    let snap = snapshot(vec![], vec![]);
    let out = client.handle_event(
        HyprEvent::WorkspaceDestroyed(HyprWorkspaceType::Regular("3".to_string())),
        &snap,
    );
    assert_eq!(out.len(), 1);
    match &out[0] {
        WorkspaceUpdate::Remove { name } => assert_eq!(name, "3"),
        other => panic!("expected a remove, got {:?}", kind_of(other)),
    }
}

#[test]
fn added_event_emits_add_for_resolved_workspace() {
    let mut client = seeded_client("1", "1", "DP-1");
    let snap = snapshot(vec![wsdata(1, "1", "DP-1"), wsdata(2, "2", "DP-2")], vec![1, 2]);
    let out = client.handle_event(
        HyprEvent::WorkspaceAdded(HyprWorkspaceType::Regular("2".to_string())),
        &snap,
    );
    assert_eq!(out.len(), 1);
    match &out[0] {
        WorkspaceUpdate::Add(w) => {
            assert!(w.id == WorkspaceId("2".to_string()));
            assert_eq!(w.visibility, Visibility::Visible(true));
        }
        other => panic!("expected an add, got {:?}", kind_of(other)),
    }
}

#[test]
fn added_event_for_unknown_workspace_is_dropped() {
    let mut client = seeded_client("1", "1", "DP-1");
    let snap = snapshot(vec![wsdata(1, "1", "DP-1")], vec![1]);
    let out = client.handle_event(
        HyprEvent::WorkspaceAdded(HyprWorkspaceType::Regular("9".to_string())),
        &snap,
    );
    assert!(out.is_empty());
    let cached = client.active.as_ref().unwrap();
    assert_eq!(cached.name, "1");
}

#[test]
fn window_event_re_derives_every_workspace() {
    let mut client = seeded_client("1", "1", "DP-1");
    let snap = snapshot(
        vec![wsdata(1, "1", "DP-1"), wsdata(2, "2", "DP-2"), wsdata(3, "3", "DP-2")],
        vec![1, 2],
    );
    let out = client.handle_event(HyprEvent::WindowOpened, &snap);
    assert_eq!(out.len(), 3);
    // visibility is re-derived against the cache: the cached name stays
    // focused, a workspace on a monitor's active slot is visible, the
    // rest are hidden
    match &out[0] {
        WorkspaceUpdate::Update(w) => {
            assert!(w.id == WorkspaceId("1".to_string()));
            assert_eq!(w.visibility, Visibility::Focused);
        }
        other => panic!("expected an update, got {:?}", kind_of(other)),
    }
    match &out[1] {
        WorkspaceUpdate::Update(w) => {
            assert!(w.id == WorkspaceId("2".to_string()));
            assert_eq!(w.visibility, Visibility::Visible(true));
        }
        other => panic!("expected an update, got {:?}", kind_of(other)),
    }
    match &out[2] {
        WorkspaceUpdate::Update(w) => {
            assert!(w.id == WorkspaceId("3".to_string()));
            assert_eq!(w.visibility, Visibility::Hidden);
        }
        other => panic!("expected an update, got {:?}", kind_of(other)),
    }
    // no focus transition is emitted, and the cache is untouched
    let cached = client.active.as_ref().unwrap();
    assert_eq!(cached.name, "1");
}

#[test]
fn moved_event_emits_move_then_focus() {
    let mut client = seeded_client("1", "1", "DP-1");
    let snap = snapshot(vec![wsdata(1, "1", "DP-1"), wsdata(2, "2", "DP-2")], vec![1]);
    let out = client.handle_event(
        HyprEvent::WorkspaceMoved(HyprWorkspaceType::Regular("2".to_string())),
        &snap,
    );
    assert_eq!(out.len(), 2);
    assert!(matches!(&out[0], WorkspaceUpdate::Move(w) if w.name == "2"));
    assert!(matches!(&out[1], WorkspaceUpdate::Focus { .. }));
    let cached = client.active.as_ref().unwrap();
    assert_eq!(cached.name, "2");
}

#[test]
fn monitor_change_emits_focus_for_unfocused_target() {
    let mut client = seeded_client("1", "1", "DP-1");
    let snap = snapshot(vec![wsdata(1, "1", "DP-1"), wsdata(2, "2", "DP-2")], vec![1]);
    let out = client.handle_event(
        HyprEvent::ActiveMonitorChanged(HyprWorkspaceType::Regular("2".to_string())),
        &snap,
    );
    assert_eq!(out.len(), 1);
    match &out[0] {
        WorkspaceUpdate::Focus { old, new } => {
            assert_eq!(old.as_ref().unwrap().name, "1");
            assert_eq!(new.name, "2");
        }
        other => panic!("expected a focus transition, got {:?}", kind_of(other)),
    }
}

#[test]
fn monitor_change_for_focused_target_is_silent() {
    let mut client = seeded_client("1", "1", "DP-1");
    let snap = snapshot(vec![wsdata(1, "1", "DP-1")], vec![1]);
    let out = client.handle_event(
        HyprEvent::ActiveMonitorChanged(HyprWorkspaceType::Regular("1".to_string())),
        &snap,
    );
    assert!(out.is_empty());
}

#[test]
fn focus_without_previous_cache_is_not_paired() {
    let mut client = EventClient::new();
    let snap = snapshot(vec![wsdata(2, "2", "DP-1")], vec![]);
    let out = client.handle_event(
        HyprEvent::WorkspaceChanged(HyprWorkspaceType::Regular("2".to_string())),
        &snap,
    );
    // the update is emitted, but no focus pair exists to send
    assert_eq!(out.len(), 1);
    assert!(matches!(&out[0], WorkspaceUpdate::Update(_)));
    let cached = client.active.as_ref().unwrap();
    assert_eq!(cached.name, "2");
}

#[test]
fn init_snapshot_marks_active_focused_and_others_by_monitor() {
    let snap = snapshot(
        vec![wsdata(1, "one", "DP-1"), wsdata(2, "two", "DP-2"), wsdata(3, "three", "DP-2")],
        vec![2],
    );
    let active_name = "one".to_string();
    let update = init_snapshot(&snap, Some(&active_name));
    match update {
        WorkspaceUpdate::Init(list) => {
            assert_eq!(list.len(), 3);
            assert_eq!(list[0].visibility, Visibility::Focused);
            assert_eq!(list[0].name, "one");
            assert_eq!(list[1].visibility, Visibility::Visible(true));
            assert_eq!(list[2].visibility, Visibility::Hidden);
            assert!(list[2].id == WorkspaceId("3".to_string()));
        }
        other => panic!("expected an init snapshot, got {:?}", kind_of(&other)),
    }
}

#[test]
fn parse_identifier_numeric_and_named() {
    assert!(matches!(parse_workspace_identifier("5".to_string()), WorkspaceIdentifier::Id(5)));
    assert!(matches!(parse_workspace_identifier("-3".to_string()), WorkspaceIdentifier::Id(-3)));
    assert!(matches!(parse_workspace_identifier("+7".to_string()), WorkspaceIdentifier::Id(7)));
    assert!(matches!(
        parse_workspace_identifier("-2147483648".to_string()),
        WorkspaceIdentifier::Id(i32::MIN)
    ));
    assert!(matches!(
        parse_workspace_identifier("2147483647".to_string()),
        WorkspaceIdentifier::Id(i32::MAX)
    ));
    match parse_workspace_identifier("2147483648".to_string()) {
        WorkspaceIdentifier::Name(s) => assert_eq!(s, "2147483648"),
        WorkspaceIdentifier::Id(_) => panic!("out-of-range number must stay a name"),
    }
    match parse_workspace_identifier("dev".to_string()) {
        WorkspaceIdentifier::Name(s) => assert_eq!(s, "dev"),
        WorkspaceIdentifier::Id(_) => panic!("a word is a name"),
    }
    match parse_workspace_identifier("12a".to_string()) {
        WorkspaceIdentifier::Name(s) => assert_eq!(s, "12a"),
        WorkspaceIdentifier::Id(_) => panic!("trailing letters make it a name"),
    }
    assert!(matches!(
        parse_workspace_identifier(String::new()),
        WorkspaceIdentifier::Name(_)
    ));
}

fn kind_of(u: &WorkspaceUpdate) -> &'static str {
    match u {
        WorkspaceUpdate::Init(_) => "init",
        WorkspaceUpdate::Add(_) => "add",
        WorkspaceUpdate::Update(_) => "update",
        WorkspaceUpdate::Move(_) => "move",
        WorkspaceUpdate::Focus { .. } => "focus",
        WorkspaceUpdate::Remove { .. } => "remove",
    }
}
