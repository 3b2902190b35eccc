use redleaf::post::{CreatePost, Post, PostTable, RepoError, UpdatePost};

fn fields(title: &str, slug: &str, content: &str, published: bool) -> CreatePost {
    CreatePost {
        title: title.to_string(),
        slug: slug.to_string(),
        content: content.to_string(),
        excerpt: None,
        published,
    }
}

fn no_change() -> UpdatePost {
    UpdatePost { title: None, slug: None, content: None, excerpt: None, published: None }
}

#[test]
fn create_sets_equal_timestamps_and_ids() {
    let mut db = PostTable::new();
    let a = Post::create_at(&mut db, fields("a", "a", "x", true), 1000);
    let b = Post::create_at(&mut db, fields("b", "b", "y", true), 2000);
    assert_eq!(a.created_at, a.updated_at);
    assert_eq!(b.created_at, b.updated_at);
    assert_eq!(a.id, 1);
    assert_eq!(b.id, 2);
}

#[test]
fn update_refreshes_updated_at_monotonically() {
    let mut db = PostTable::new();
    let p = Post::create_at(&mut db, fields("a", "a", "x", true), 1000);
    let mut patch = no_change();
    patch.title = Some("b".to_string());
    let p2 = Post::update_at(&mut db, p.id, patch, 2000).unwrap();
    assert_eq!(p2.created_at, 1000);
    assert_eq!(p2.updated_at, 2000);
    // a clock that stepped backward never moves the timestamp backward
    let mut patch2 = no_change();
    patch2.title = Some("c".to_string());
    let p3 = Post::update_at(&mut db, p.id, patch2, 1500).unwrap();
    assert_eq!(p3.updated_at, 2000);
    assert!(p3.updated_at >= p3.created_at);
}

#[test]
fn find_all_returns_only_published() {
    let mut db = PostTable::new();
    Post::create_at(&mut db, fields("pub1", "p1", "x", true), 10);
    Post::create_at(&mut db, fields("hidden", "h", "x", false), 20);
    Post::create_at(&mut db, fields("pub2", "p2", "x", true), 30);
    let all = Post::find_all(&db);
    assert_eq!(all.len(), 2);
    for p in &all {
        assert!(p.published);
        assert_ne!(p.title, "hidden");
    }
}

#[test]
fn find_all_orders_newest_first() {
    let mut db = PostTable::new();
    Post::create_at(&mut db, fields("old", "o", "x", true), 100);
    Post::create_at(&mut db, fields("newest", "n", "x", true), 300);
    Post::create_at(&mut db, fields("middle", "m", "x", true), 200);
    let all = Post::find_all(&db);
    assert_eq!(all.len(), 3);
    assert_eq!(all[0].created_at, 300);
    assert_eq!(all[1].created_at, 200);
    assert_eq!(all[2].created_at, 100);
    for w in all.windows(2) {
        assert!(w[0].created_at >= w[1].created_at);
    }
}

#[test]
fn partial_update_preserves_omitted_fields() {
    let mut db = PostTable::new();
    let mut f = fields("title", "slug", "content", true);
    f.excerpt = Some("excerpt".to_string());
    let p = Post::create_at(&mut db, f, 50);
    let mut patch = no_change();
    patch.title = Some("new title".to_string());
    let p2 = Post::update_at(&mut db, p.id, patch, 60).unwrap();
    assert_eq!(p2.title, "new title");
    assert_eq!(p2.slug, "slug");
    assert_eq!(p2.content, "content");
    assert_eq!(p2.excerpt.as_deref(), Some("excerpt"));
    assert_eq!(p2.published, true);
    assert_eq!(p2.created_at, 50);
    let stored = Post::find_by_id(&db, p.id).unwrap();
    assert_eq!(stored.content, "content");
    assert_eq!(stored.title, "new title");
}

#[test]
fn update_missing_id_fails_with_not_found() {
    let mut db = PostTable::new();
    let r = Post::update_at(&mut db, 7, no_change(), 10);
    assert_eq!(r.unwrap_err(), RepoError::NotFound);
}

#[test]
fn delete_then_find_absent_and_second_delete_is_noop() {
    let mut db = PostTable::new();
    let p = Post::create_at(&mut db, fields("a", "a", "x", true), 10);
    let q = Post::create_at(&mut db, fields("b", "b", "y", true), 20);
    Post::delete(&mut db, p.id);
    assert!(Post::find_by_id(&db, p.id).is_none());
    // a second delete of the same id does not fail and changes nothing
    Post::delete(&mut db, p.id);
    assert!(Post::find_by_id(&db, p.id).is_none());
    assert!(Post::find_by_id(&db, q.id).is_some());
}

#[test]
fn find_by_id_and_slug_absent_is_none() {
    let db = PostTable::new();
    assert!(Post::find_by_id(&db, 1).is_none());
    assert!(Post::find_by_slug(&db, "nothing").is_none());
}

#[test]
fn find_by_slug_returns_first_match() {
    let mut db = PostTable::new();
    Post::create_at(&mut db, fields("first", "dup", "x", true), 10);
    Post::create_at(&mut db, fields("second", "dup", "y", true), 20);
    let hit = Post::find_by_slug(&db, "dup").unwrap();
    assert_eq!(hit.title, "first");
}
