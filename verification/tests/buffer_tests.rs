use workspace_events::buffer::EventBuffer;
use workspace_events::model::WorkspaceUpdate;

fn remove(name: &str) -> WorkspaceUpdate {
    WorkspaceUpdate::Remove { name: name.to_string() }
}

fn name_of(u: &WorkspaceUpdate) -> &str {
    match u {
        WorkspaceUpdate::Remove { name } => name,
        _ => panic!("these tests queue remove updates only"),
    }
}

#[test]
fn starts_empty() {
    let mut b = EventBuffer::new(16);
    assert_eq!(b.len(), 0);
    assert_eq!(b.capacity(), 16);
    assert!(b.pop().is_none());
}

#[test]
fn delivers_in_order() {
    let mut b = EventBuffer::new(16);
    b.push(remove("a"));
    b.push(remove("b"));
    b.push(remove("c"));
    assert_eq!(name_of(&b.pop().unwrap()), "a");
    assert_eq!(name_of(&b.pop().unwrap()), "b");
    assert_eq!(name_of(&b.pop().unwrap()), "c");
    assert!(b.pop().is_none());
}

#[test]
fn overflow_drops_oldest_never_blocks_or_grows() {
    let mut b = EventBuffer::new(16);
    for k in 0..16 {
        b.push(remove(&k.to_string()));
    }
    assert_eq!(b.len(), 16);
    // the seventeenth pending update evicts the oldest unread one
    b.push(remove("16"));
    assert_eq!(b.len(), 16);
    assert_eq!(name_of(&b.pop().unwrap()), "1");
    // and the newest one is still there, at the tail
    let mut last = None;
    while let Some(u) = b.pop() {
        last = Some(u);
    }
    assert_eq!(name_of(&last.unwrap()), "16");
}

#[test]
fn repeated_overflow_keeps_the_newest_window() {
    let mut b = EventBuffer::new(4);
    for k in 0..10 {
        b.push(remove(&k.to_string()));
    }
    assert_eq!(b.len(), 4);
    for expected in ["6", "7", "8", "9"] {
        assert_eq!(name_of(&b.pop().unwrap()), expected);
    }
}
