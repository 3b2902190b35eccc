//! HTML building for the public pages: the published-post listing and the
//! single-post detail view, with markdown rendered through an outside
//! crate.

use crate::post::Post;
use crate::text::{fmt_i64, spec_i64_dec, spec_take_chars, take_chars};
use vstd::prelude::*;

verus! {

/// The HTML that the markdown renderer produces for a text. Named result
/// of pulldown_cmark's renderer, which depends on the markdown alone.
pub uninterp spec fn html_of(markdown: Seq<char>) -> Seq<char>;

/// Relies on pulldown_cmark: Parser::new_ext over the text, with the
/// strikethrough and table extensions enabled, drained into
/// html::push_html. The rendered HTML is a function of the markdown text
/// alone.
#[verifier::external_body]
pub fn markdown_to_html(markdown: &str) -> (r: String)
    ensures
        r@ == html_of(markdown@),
{
    let mut options = pulldown_cmark::Options::empty();
    options.insert(pulldown_cmark::Options::ENABLE_STRIKETHROUGH);
    options.insert(pulldown_cmark::Options::ENABLE_TABLES);
    let parser = pulldown_cmark::Parser::new_ext(markdown, options);
    let mut html_output = String::new();
    pulldown_cmark::html::push_html(&mut html_output, parser);
    html_output
}

/// One listing entry: linked title, creation instant, and the first 200
/// characters of the content.
pub open spec fn spec_post_summary_html(p: Post) -> Seq<char> {
    "<div class=\"post\"><h2><a href=\"/posts/"@ + spec_i64_dec(p.id as int) + "\">"@ + p.title@
        + "</a></h2><p class=\"meta\">Published: "@ + spec_i64_dec(p.created_at as int)
        + "</p><p>"@ + spec_take_chars(p.content@, 200) + "</p></div>"@
}

/// The listing entries in order, concatenated.
pub open spec fn spec_post_summaries_html(posts: Seq<Post>) -> Seq<char>
    decreases posts.len(),
{
    if posts.len() == 0 {
        Seq::empty()
    } else {
        spec_post_summaries_html(posts.drop_last()) + spec_post_summary_html(posts.last())
    }
}

/// The full listing page around the entries.
pub open spec fn spec_post_list_html(posts: Seq<Post>) -> Seq<char> {
    "<!DOCTYPE html><html lang=\"en\"><head><meta charset=\"UTF-8\"><title>Posts - RedLeaf CMS</title></head><body><h1>All Posts</h1>"@
        + spec_post_summaries_html(posts) + "</body></html>"@
}

/// The full detail page for one post, with its content rendered from
/// markdown.
pub open spec fn spec_post_detail_html(p: Post) -> Seq<char> {
    "<!DOCTYPE html><html lang=\"en\"><head><meta charset=\"UTF-8\"><title>"@ + p.title@
        + " - RedLeaf CMS</title></head><body><div class=\"back\"><a href=\"/posts\">Back to all posts</a></div><div class=\"post\"><h1>"@
        + p.title@ + "</h1><p class=\"meta\">Published: "@ + spec_i64_dec(p.created_at as int)
        + "</p><div class=\"content\">"@ + html_of(p.content@) + "</div></div></body></html>"@
}

/// Build one listing entry.
pub fn render_post_summary(p: &Post) -> (r: String)
    ensures
        r@ == spec_post_summary_html(*p),
{
    let mut out = String::new();
    out.append("<div class=\"post\"><h2><a href=\"/posts/");
    let id_s = fmt_i64(p.id);
    out.append(id_s.as_str());
    out.append("\">");
    out.append(p.title.as_str());
    out.append("</a></h2><p class=\"meta\">Published: ");
    let ts_s = fmt_i64(p.created_at);
    out.append(ts_s.as_str());
    out.append("</p><p>");
    let preview = take_chars(p.content.as_str(), 200);
    out.append(preview.as_str());
    out.append("</p></div>");
    proof {
        assert(out@ =~= spec_post_summary_html(*p));
    }
    out
}

/// Build the published-post listing page: the page frame around one entry
/// per post, in the order given.
pub fn render_post_list(posts: &Vec<Post>) -> (r: String)
    ensures
        r@ == spec_post_list_html(posts@),
{
    let mut out = String::new();
    out.append(
        "<!DOCTYPE html><html lang=\"en\"><head><meta charset=\"UTF-8\"><title>Posts - RedLeaf CMS</title></head><body><h1>All Posts</h1>",
    );
    let ghost head = out@;
    let n = posts.len();
    let mut i: usize = 0;
    while i < n
        invariant
            n == posts@.len(),
            i <= n,
            out@ == head + spec_post_summaries_html(posts@.take(i as int)),
        decreases n - i,
    {
        let entry = render_post_summary(&posts[i]);
        out.append(entry.as_str());
        proof {
            assert(posts@.take(i + 1).drop_last() =~= posts@.take(i as int));
            assert(posts@.take(i + 1).last() == posts@[i as int]);
            assert(out@ =~= head + spec_post_summaries_html(posts@.take(i + 1)));
        }
        i += 1;
    }
    proof {
        assert(posts@.take(n as int) =~= posts@);
    }
    out.append("</body></html>");
    proof {
        assert(out@ =~= spec_post_list_html(posts@));
    }
    out
}

/// Build the detail page for one post, rendering its markdown content to
/// HTML.
pub fn render_post_detail(p: &Post) -> (r: String)
    ensures
        r@ == spec_post_detail_html(*p),
{
    let mut out = String::new();
    out.append("<!DOCTYPE html><html lang=\"en\"><head><meta charset=\"UTF-8\"><title>");
    out.append(p.title.as_str());
    out.append(
        " - RedLeaf CMS</title></head><body><div class=\"back\"><a href=\"/posts\">Back to all posts</a></div><div class=\"post\"><h1>",
    );
    out.append(p.title.as_str());
    out.append("</h1><p class=\"meta\">Published: ");
    let ts_s = fmt_i64(p.created_at);
    out.append(ts_s.as_str());
    out.append("</p><div class=\"content\">");
    let content_html = markdown_to_html(p.content.as_str());
    out.append(content_html.as_str());
    out.append("</div></div></body></html>");
    proof {
        assert(out@ =~= spec_post_detail_html(*p));
    }
    out
}

} // verus!
