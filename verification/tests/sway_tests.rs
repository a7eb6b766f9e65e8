use workspace_events::model::{Visibility, WorkspaceId, WorkspaceUpdate};
use workspace_events::sway::{
    init_snapshot, update_from_sway_event, visibility_from_flags, workspace_from_node,
    workspace_from_sway, SwayNodeData, SwayWorkspaceChange, SwayWorkspaceData, SwayWorkspaceEvent,
    TranslateError,
};

fn node(id: i64, name: &str, output: &str, focused: bool, visible: bool) -> SwayNodeData {
    SwayNodeData {
        id,
        name: Some(name.to_string()),
        output: Some(output.to_string()),
        focused,
        visible: Some(visible),
    }
}

fn event(change: SwayWorkspaceChange, current: Option<SwayNodeData>) -> SwayWorkspaceEvent {
    SwayWorkspaceEvent { change, current, old: None }
}

#[test]
fn flags_map_directly_to_visibility() {
    assert_eq!(visibility_from_flags(true, true), Visibility::Focused);
    assert_eq!(visibility_from_flags(true, false), Visibility::Focused);
    assert_eq!(visibility_from_flags(false, true), Visibility::Visible(true));
    assert_eq!(visibility_from_flags(false, false), Visibility::Hidden);
}

#[test]
fn node_conversion_fills_defaults() {
    let w = workspace_from_node(SwayNodeData {
        id: 7,
        name: None,
        output: None,
        focused: false,
        visible: None,
    });
    assert!(w.id == WorkspaceId("7".to_string()));
    assert_eq!(w.name, "");
    assert_eq!(w.monitor, "");
    assert_eq!(w.visibility, Visibility::Hidden);
}

#[test]
fn node_conversion_keeps_fields() {
    let w = workspace_from_node(node(12, "mail", "HDMI-1", false, true));
    assert!(w.id == WorkspaceId("12".to_string()));
    assert_eq!(w.name, "mail");
    assert_eq!(w.monitor, "HDMI-1");
    assert_eq!(w.visibility, Visibility::Visible(true));
}

#[test]
fn list_entry_conversion() {
    let w = workspace_from_sway(SwayWorkspaceData {
        id: -3,
        name: "scratch".to_string(),
        output: "DP-1".to_string(),
        focused: true,
        visible: true,
    });
    assert!(w.id == WorkspaceId("-3".to_string()));
    assert_eq!(w.name, "scratch");
    assert_eq!(w.visibility, Visibility::Focused);
}

#[test]
fn init_kind_becomes_add() {
    let r = update_from_sway_event(event(
        SwayWorkspaceChange::Init,
        Some(node(1, "1", "DP-1", false, false)),
    ));
    assert!(matches!(r, Ok(WorkspaceUpdate::Add(w)) if w.name == "1"));
}

#[test]
fn move_kind_becomes_move() {
    let r = update_from_sway_event(event(
        SwayWorkspaceChange::Move,
        Some(node(2, "2", "DP-2", false, true)),
    ));
    assert!(matches!(r, Ok(WorkspaceUpdate::Move(w)) if w.monitor == "DP-2"));
}

#[test]
fn other_kinds_become_update() {
    for change in [
        SwayWorkspaceChange::Rename,
        SwayWorkspaceChange::Urgent,
        SwayWorkspaceChange::Reload,
    ] {
        let r = update_from_sway_event(event(change, Some(node(2, "2", "DP-1", false, false))));
        assert!(matches!(r, Ok(WorkspaceUpdate::Update(w)) if w.name == "2"));
    }
}

#[test]
fn empty_kind_becomes_remove_by_name() {
    let r = update_from_sway_event(event(
        SwayWorkspaceChange::Empty,
        Some(node(3, "3", "DP-1", false, false)),
    ));
    assert!(matches!(r, Ok(WorkspaceUpdate::Remove { name }) if name == "3"));
}

#[test]
fn focus_kind_pairs_old_and_new() {
    let ev = SwayWorkspaceEvent {
        change: SwayWorkspaceChange::Focus,
        current: Some(node(2, "2", "DP-1", true, true)),
        old: Some(node(1, "1", "DP-1", false, true)),
    };
    match update_from_sway_event(ev) {
        Ok(WorkspaceUpdate::Focus { old, new }) => {
            assert_eq!(old.unwrap().name, "1");
            assert_eq!(new.name, "2");
            assert_eq!(new.visibility, Visibility::Focused);
        }
        _ => panic!("expected a focus translation"),
    }
}

#[test]
fn missing_current_is_rejected_not_crashed() {
    for change in [
        SwayWorkspaceChange::Init,
        SwayWorkspaceChange::Empty,
        SwayWorkspaceChange::Focus,
        SwayWorkspaceChange::Move,
        SwayWorkspaceChange::Rename,
    ] {
        let r = update_from_sway_event(event(change, None));
        match r {
            Err(e) => assert_eq!(e, TranslateError::MissingCurrent),
            Ok(_) => panic!("an event without a current node must be rejected"),
        }
    }
}

#[test]
fn init_snapshot_translates_each_entry_in_order() {
    let update = init_snapshot(vec![
        SwayWorkspaceData {
            id: 1,
            name: "1".to_string(),
            output: "DP-1".to_string(),
            focused: true,
            visible: true,
        },
        SwayWorkspaceData {
            id: 2,
            name: "2".to_string(),
            output: "DP-2".to_string(),
            focused: false,
            visible: true,
        },
        SwayWorkspaceData {
            id: 3,
            name: "3".to_string(),
            output: "DP-1".to_string(),
            focused: false,
            visible: false,
        },
    ]);
    match update {
        WorkspaceUpdate::Init(list) => {
            assert_eq!(list.len(), 3);
            assert_eq!(list[0].visibility, Visibility::Focused);
            assert_eq!(list[1].visibility, Visibility::Visible(true));
            assert_eq!(list[2].visibility, Visibility::Hidden);
            assert!(list[1].id == WorkspaceId("2".to_string()));
        }
        _ => panic!("expected an init snapshot"),
    }
}
