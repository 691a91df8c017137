use sse_rust_htmx::{PostStore, QueryParams, UpdateError};

#[test]
fn test_append_ids_strictly_increasing_and_unique() {
    let mut store = PostStore::new();
    let mut ids = Vec::new();
    for k in 0..5 {
        let name = format!("user{}", k);
        ids.push(store.append(&name, "hello"));
    }
    for w in ids.windows(2) {
        assert!(w[0] < w[1]);
    }
    for i in 0..ids.len() {
        for j in 0..ids.len() {
            if i != j {
                assert_ne!(ids[i], ids[j]);
            }
        }
    }
}

#[test]
fn test_snapshot_scenario_two_appends() {
    let mut store = PostStore::new();
    let id1 = store.append("alice", "hi");
    let id2 = store.append("bob", "yo");
    assert_eq!(id1, 1);
    assert_eq!(id2, 2);
    let snap = store.snapshot();
    assert_eq!(snap.len(), 2);
    assert_eq!(snap[0].id, 1);
    assert_eq!(snap[0].username, "alice");
    assert_eq!(snap[0].message, "hi");
    assert_eq!(snap[1].id, 2);
    assert_eq!(snap[1].username, "bob");
    assert_eq!(snap[1].message, "yo");
}

#[test]
fn test_update_scenario_empty_then_edit_then_forbidden() {
    let mut store = PostStore::new();
    let id = store.append("alice", "hi");
    assert_eq!(id, 1);

    let r1 = store.update(1, "", "alice");
    assert_eq!(r1.unwrap_err(), UpdateError::EmptyBody);

    let r2 = store.update(1, "edited", "alice");
    let updated = r2.unwrap();
    assert_eq!(updated.message, "edited");
    assert_eq!(updated.id, 1);
    assert_eq!(updated.username, "alice");

    let r3 = store.update(1, "x", "mallory");
    assert_eq!(r3.unwrap_err(), UpdateError::Forbidden);
}

#[test]
fn test_update_nonexistent_post() {
    let mut store = PostStore::new();
    let r = store.update(999, "Updated message", "testuser");
    assert_eq!(r.unwrap_err(), UpdateError::NotFound);

    store.append("testuser", "Original message");
    let r2 = store.update(42, "Updated message", "testuser");
    assert_eq!(r2.unwrap_err(), UpdateError::NotFound);
}

#[test]
fn test_update_with_whitespace_only_body_leaves_post_unchanged() {
    let mut store = PostStore::new();
    let id = store.append("testuser", "Original message");
    let before = store.snapshot();

    let r = store.update(id, " \t\r\n \u{a0}\u{2003}", "testuser");
    assert_eq!(r.unwrap_err(), UpdateError::EmptyBody);

    let after = store.snapshot();
    assert_eq!(before.len(), after.len());
    assert_eq!(after[0].message, "Original message");
    assert_eq!(after[0].username, before[0].username);
    assert_eq!(after[0].time, before[0].time);
    assert_eq!(after[0].avatar, before[0].avatar);
    assert_eq!(after[0].owner_id, before[0].owner_id);
}

#[test]
fn test_update_keeps_identity_fields() {
    let mut store = PostStore::new();
    let id = store.append("alice", "first");
    let before = store.snapshot();

    let updated = store.update(id, "second", "alice").unwrap();
    assert_eq!(updated.id, before[0].id);
    assert_eq!(updated.username, before[0].username);
    assert_eq!(updated.avatar, before[0].avatar);
    assert_eq!(updated.owner_id, before[0].owner_id);
    assert_eq!(updated.message, "second");

    let after = store.snapshot();
    assert_eq!(after.len(), 1);
    assert_eq!(after[0].message, "second");
}

#[test]
fn test_find_present_and_absent() {
    let mut store = PostStore::new();
    let id = store.append("alice", "hi");
    let found = store.find(id).expect("freshly appended id must be found");
    assert_eq!(found.id, id);
    assert_eq!(found.message, "hi");
    assert!(store.find(id + 1).is_none());
}

#[test]
fn test_avatar_url_is_derived_from_author() {
    let mut store = PostStore::new();
    store.append("alice", "hi");
    let snap = store.snapshot();
    assert_eq!(
        snap[0].avatar,
        "https://ui-avatars.com/api/?background=random&rounded=true&name=alice"
    );
}

#[test]
fn test_owner_token_is_author_and_authorizes_edits() {
    let mut store = PostStore::new();
    let id = store.append("carol", "note");
    let snap = store.snapshot();
    assert_eq!(snap[0].owner_id, "carol");
    let r = store.update(id, "note 2", "carol");
    assert!(r.is_ok());
}

#[test]
fn test_snapshot_is_an_independent_copy() {
    let mut store = PostStore::new();
    store.append("alice", "hi");
    let snap = store.snapshot();
    store.append("bob", "yo");
    store.update(1, "changed", "alice").unwrap();
    assert_eq!(snap.len(), 1);
    assert_eq!(snap[0].message, "hi");
}

#[test]
fn test_update_errors_map_to_http_statuses() {
    assert_eq!(UpdateError::NotFound.http_status(), 404);
    assert_eq!(UpdateError::Forbidden.http_status(), 403);
    assert_eq!(UpdateError::EmptyBody.http_status(), 400);
}

#[test]
fn test_query_params_carry_author_and_body() {
    let q = QueryParams { username: String::from("dave"), message: String::from("hello") };
    let mut store = PostStore::new();
    let id = store.append(&q.username, &q.message);
    let snap = store.snapshot();
    assert_eq!(id, 1);
    assert_eq!(snap[0].username, "dave");
    assert_eq!(snap[0].message, "hello");
}
