use workspace_events::model::{Visibility, Workspace, WorkspaceId};

fn ws(id: &str, name: &str, monitor: &str, visibility: Visibility) -> Workspace {
    Workspace {
        id: WorkspaceId(id.to_string()),
        name: name.to_string(),
        monitor: monitor.to_string(),
        visibility,
    }
}

#[test]
fn focused_is_focused_and_visible() {
    let v = Visibility::Focused;
    assert!(v.is_focused());
    assert!(v.is_visible());
}

#[test]
fn visible_true_is_visible_not_focused() {
    let v = Visibility::Visible(true);
    assert!(!v.is_focused());
    assert!(v.is_visible());
}

#[test]
fn visible_false_is_neither() {
    let v = Visibility::Visible(false);
    assert!(!v.is_focused());
    assert!(!v.is_visible());
}

#[test]
fn hidden_is_neither() {
    let v = Visibility::Hidden;
    assert!(!v.is_focused());
    assert!(!v.is_visible());
}

#[test]
fn visibility_constructors() {
    assert_eq!(Visibility::focused(), Visibility::Focused);
    assert_eq!(Visibility::visible(), Visibility::Visible(true));
}

#[test]
fn workspace_id_equality_is_by_string() {
    assert!(WorkspaceId("1".to_string()) == WorkspaceId("1".to_string()));
    assert!(WorkspaceId("1".to_string()) != WorkspaceId("2".to_string()));
}

#[test]
fn workspace_equality_and_clone() {
    let a = ws("1", "one", "DP-1", Visibility::Focused);
    let b = a.clone();
    assert!(a == b);
    let c = ws("1", "one", "DP-2", Visibility::Focused);
    assert!(a != c);
}
