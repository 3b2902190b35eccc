use redleaf::post::{CreatePost, Post, PostTable};
use redleaf::render::{markdown_to_html, render_post_detail, render_post_list};
use redleaf::text::{fmt_i64, take_chars};

fn fields(title: &str, slug: &str, content: &str, published: bool) -> CreatePost {
    CreatePost {
        title: title.to_string(),
        slug: slug.to_string(),
        content: content.to_string(),
        excerpt: None,
        published,
    }
}

#[test]
fn scenario_create_fetch_render() {
    let mut db = PostTable::new();
    Post::create_at(&mut db, fields("Hello", "hello", "**hi**", true), 42);
    let fetched = Post::find_by_slug(&db, "hello").unwrap();
    assert_eq!(fetched.title, "Hello");
    assert_eq!(fetched.content, "**hi**");
    let page = render_post_detail(&fetched);
    assert!(page.contains("<strong>hi</strong>"));
    assert!(page.contains("<h1>Hello</h1>"));
}

#[test]
fn markdown_renders_emphasis_and_strikethrough() {
    let html = markdown_to_html("**hi**");
    assert!(html.contains("<strong>hi</strong>"));
    let html2 = markdown_to_html("~~gone~~");
    assert!(html2.contains("<del>gone</del>"));
}

#[test]
fn list_page_contains_each_published_entry() {
    let mut db = PostTable::new();
    Post::create_at(&mut db, fields("First", "f", "aaa", true), 10);
    Post::create_at(&mut db, fields("Second", "s", "bbb", true), 20);
    let page = render_post_list(&Post::find_all(&db));
    assert!(page.contains("<h1>All Posts</h1>"));
    assert!(page.contains("First"));
    assert!(page.contains("Second"));
    // newest first in the page text
    let second_pos = page.find("Second").unwrap();
    let first_pos = page.find("First").unwrap();
    assert!(second_pos < first_pos);
}

#[test]
fn summary_truncates_content_to_200_chars() {
    let long = "x".repeat(250);
    let mut db = PostTable::new();
    Post::create_at(&mut db, fields("Long", "l", &long, true), 10);
    let page = render_post_list(&Post::find_all(&db));
    assert!(page.contains(&"x".repeat(200)));
    assert!(!page.contains(&"x".repeat(201)));
}

#[test]
fn take_chars_prefix() {
    assert_eq!(take_chars("abcdef", 3), "abc");
    assert_eq!(take_chars("ab", 5), "ab");
    assert_eq!(take_chars("", 5), "");
}

#[test]
fn fmt_i64_exact_values() {
    assert_eq!(fmt_i64(0), "0");
    assert_eq!(fmt_i64(42), "42");
    assert_eq!(fmt_i64(-7), "-7");
    assert_eq!(fmt_i64(1000), "1000");
    assert_eq!(fmt_i64(i64::MAX), "9223372036854775807");
    assert_eq!(fmt_i64(i64::MIN), "-9223372036854775808");
}
