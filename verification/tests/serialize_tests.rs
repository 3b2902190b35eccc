use redleaf::post::{CreatePost, Post, PostTable, UpdatePost};

fn fields(title: &str, slug: &str, content: &str, published: bool) -> CreatePost {
    CreatePost {
        title: title.to_string(),
        slug: slug.to_string(),
        content: content.to_string(),
        excerpt: None,
        published,
    }
}

#[test]
fn post_json_exact_shape() {
    let mut db = PostTable::new();
    let p = Post::create_at(&mut db, fields("a", "s", "c", true), 5);
    assert_eq!(
        p.to_json(),
        "{\"id\":1,\"title\":\"a\",\"slug\":\"s\",\"content\":\"c\",\"excerpt\":null,\
         \"published\":true,\"created_at\":5,\"updated_at\":5}"
    );
}

#[test]
fn post_json_with_excerpt_and_unpublished() {
    let mut db = PostTable::new();
    let mut f = fields("t", "s", "c", false);
    f.excerpt = Some("e".to_string());
    let p = Post::create_at(&mut db, f, 9);
    assert_eq!(
        p.to_json(),
        "{\"id\":1,\"title\":\"t\",\"slug\":\"s\",\"content\":\"c\",\"excerpt\":\"e\",\
         \"published\":false,\"created_at\":9,\"updated_at\":9}"
    );
}

#[test]
fn json_escapes_special_characters() {
    let mut db = PostTable::new();
    let p = Post::create_at(&mut db, fields("quote \" back \\ nl \n", "s", "c", true), 1);
    let json = p.to_json();
    assert!(json.contains("quote \\\" back \\\\ nl \\n"));
}

#[test]
fn updated_post_serializes_new_timestamp() {
    let mut db = PostTable::new();
    let p = Post::create_at(&mut db, fields("a", "s", "c", true), 5);
    let patch = UpdatePost {
        title: None,
        slug: None,
        content: Some("c2".to_string()),
        excerpt: None,
        published: None,
    };
    let p2 = Post::update_at(&mut db, p.id, patch, 8).unwrap();
    assert!(p2.to_json().contains("\"created_at\":5,\"updated_at\":8"));
    assert!(p2.to_json().contains("\"content\":\"c2\""));
}
