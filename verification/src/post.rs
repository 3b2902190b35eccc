//! Posts: the record type, the creation and partial-update request types,
//! and the in-memory posts table with its CRUD operations.

use vstd::prelude::*;

verus! {

/// A persisted post. Timestamps are microseconds since the Unix epoch.
#[derive(Debug)]
pub struct Post {
    pub id: i64,
    pub title: String,
    pub slug: String,
    pub content: String,
    pub excerpt: Option<String>,
    pub published: bool,
    pub created_at: i64,
    pub updated_at: i64,
}

/// Fields supplied by the caller when creating a post; identifier and
/// timestamps are assigned by the repository.
pub struct CreatePost {
    pub title: String,
    pub slug: String,
    pub content: String,
    pub excerpt: Option<String>,
    pub published: bool,
}

/// A partial update: a field left as `None` retains its current value.
pub struct UpdatePost {
    pub title: Option<String>,
    pub slug: Option<String>,
    pub content: Option<String>,
    pub excerpt: Option<String>,
    pub published: Option<bool>,
}

impl Clone for Post {
    fn clone(&self) -> (r: Self)
        ensures
            r == *self,
    {
        Post {
            id: self.id,
            title: self.title.clone(),
            slug: self.slug.clone(),
            content: self.content.clone(),
            excerpt: match &self.excerpt {
                Some(e) => Some(e.clone()),
                None => None,
            },
            published: self.published,
            created_at: self.created_at,
            updated_at: self.updated_at,
        }
    }
}

/// The result of applying a partial update to a current record at clock
/// value `now`: present fields override, absent fields are retained, the
/// creation timestamp is kept, and the update timestamp is refreshed but
/// never moved backward.
pub open spec fn spec_merge(current: Post, patch: UpdatePost, now: i64) -> Post {
    Post {
        id: current.id,
        title: if patch.title is Some { patch.title->0 } else { current.title },
        slug: if patch.slug is Some { patch.slug->0 } else { current.slug },
        content: if patch.content is Some { patch.content->0 } else { current.content },
        excerpt: if patch.excerpt is Some { patch.excerpt } else { current.excerpt },
        published: if patch.published is Some { patch.published->0 } else { current.published },
        created_at: current.created_at,
        updated_at: if now > current.updated_at { now } else { current.updated_at },
    }
}

/// Pure merge of a partial update into a current record; independent of any
/// storage so it can be reasoned about (and tested) on its own.
pub fn merge_post(current: Post, patch: UpdatePost, now: i64) -> (r: Post)
    ensures
        r == spec_merge(current, patch, now),
{
    let updated_at = if now > current.updated_at { now } else { current.updated_at };
    Post {
        id: current.id,
        title: match patch.title { Some(t) => t, None => current.title },
        slug: match patch.slug { Some(s) => s, None => current.slug },
        content: match patch.content { Some(c) => c, None => current.content },
        excerpt: match patch.excerpt { Some(e) => Some(e), None => current.excerpt },
        published: match patch.published { Some(p) => p, None => current.published },
        created_at: current.created_at,
        updated_at,
    }
}

/// A partial update leaves every omitted field exactly as it was: patching
/// only the title keeps content, slug, excerpt and published unchanged, and
/// never touches the creation timestamp.
pub proof fn lemma_merge_preserves_omitted(current: Post, patch: UpdatePost, now: i64)
    ensures
        patch.title is None ==> spec_merge(current, patch, now).title == current.title,
        patch.slug is None ==> spec_merge(current, patch, now).slug == current.slug,
        patch.content is None ==> spec_merge(current, patch, now).content == current.content,
        patch.excerpt is None ==> spec_merge(current, patch, now).excerpt == current.excerpt,
        patch.published is None ==> spec_merge(current, patch, now).published == current.published,
        spec_merge(current, patch, now).created_at == current.created_at,
        spec_merge(current, patch, now).id == current.id,
{
}

/// The update timestamp never decreases across a merge, and stays at or
/// above the creation timestamp whenever it started there.
pub proof fn lemma_merge_updated_at_monotone(current: Post, patch: UpdatePost, now: i64)
    ensures
        spec_merge(current, patch, now).updated_at >= current.updated_at,
        current.updated_at >= current.created_at
            ==> spec_merge(current, patch, now).updated_at
                >= spec_merge(current, patch, now).created_at,
{
}

/// The in-memory posts table: the rows in insertion order, and the next
/// identifier to hand out.
pub struct PostTable {
    pub rows: Vec<Post>,
    pub next_id: i64,
}

impl PostTable {
    /// Well-formedness: identifiers are positive, unique, and below the
    /// next one to be assigned, and no row's update timestamp precedes its
    /// creation timestamp.
    pub open spec fn wf(self) -> bool {
        &&& self.next_id >= 1
        &&& forall|i: int|
            0 <= i < self.rows@.len() ==> {
                &&& (#[trigger] self.rows@[i]).updated_at >= self.rows@[i].created_at
                &&& 0 < self.rows@[i].id < self.next_id
            }
        &&& forall|i: int, j: int|
            0 <= i < j < self.rows@.len()
                ==> #[trigger] self.rows@[i].id != #[trigger] self.rows@[j].id
    }

    /// An empty table, ready to assign identifier 1 first.
    pub fn new() -> (r: Self)
        ensures
            r.wf(),
            r.rows@.len() == 0,
            r.next_id == 1,
    {
        PostTable { rows: Vec::new(), next_id: 1 }
    }
}

/// Index of the first row carrying `id`, or `rows.len()` (or beyond) when
/// no row does.
pub open spec fn spec_post_index(rows: Seq<Post>, id: i64) -> int
    decreases rows.len(),
{
    if rows.len() == 0 {
        0
    } else if rows[0].id == id {
        0
    } else {
        1 + spec_post_index(rows.drop_first(), id)
    }
}

/// The first row carrying `id`, if any.
pub open spec fn spec_find_post(rows: Seq<Post>, id: i64) -> Option<Post> {
    if spec_post_index(rows, id) < rows.len() {
        Some(rows[spec_post_index(rows, id)])
    } else {
        None
    }
}

/// Pins `spec_post_index` down from what a left-to-right scan saw: misses
/// strictly before `i`, and a hit at `i` itself unless the scan ran out.
pub proof fn lemma_post_index_at(rows: Seq<Post>, id: i64, i: int)
    requires
        0 <= i <= rows.len(),
        forall|j: int| 0 <= j < i ==> rows[j].id != id,
        i < rows.len() ==> rows[i].id == id,
    ensures
        i < rows.len() ==> spec_post_index(rows, id) == i,
        i == rows.len() ==> spec_post_index(rows, id) >= rows.len(),
    decreases rows.len(),
{
    if rows.len() > 0 {
        if i == 0 {
        } else {
            assert(rows[0].id != id);
            lemma_post_index_at(rows.drop_first(), id, i - 1);
        }
    }
}

impl Post {
    /// Look a post up by identifier; absence is a normal outcome, not an
    /// error.
    pub fn find_by_id(db: &PostTable, id: i64) -> (r: Option<Post>)
        ensures
            r == spec_find_post(db.rows@, id),
    {
        let n = db.rows.len();
        let mut i: usize = 0;
        while i < n
            invariant
                n == db.rows@.len(),
                i <= n,
                forall|j: int| 0 <= j < i ==> db.rows@[j].id != id,
            decreases n - i,
        {
            if db.rows[i].id == id {
                proof {
                    lemma_post_index_at(db.rows@, id, i as int);
                }
                return Some(db.rows[i].clone());
            }
            i += 1;
        }
        proof {
            lemma_post_index_at(db.rows@, id, n as int);
        }
        None
    }

    /// Look a post up by its slug; the first row in insertion order wins
    /// when duplicates exist (uniqueness is not enforced at this layer).
    pub fn find_by_slug(db: &PostTable, slug: &str) -> (r: Option<Post>)
        ensures
            r == spec_find_post_by_slug(db.rows@, slug@),
    {
        let key: String = slug.to_owned();
        let n = db.rows.len();
        let mut i: usize = 0;
        while i < n
            invariant
                n == db.rows@.len(),
                i <= n,
                key@ == slug@,
                forall|j: int| 0 <= j < i ==> db.rows@[j].slug@ != slug@,
            decreases n - i,
        {
            if db.rows[i].slug == key {
                proof {
                    lemma_post_slug_index_at(db.rows@, slug@, i as int);
                }
                return Some(db.rows[i].clone());
            }
            i += 1;
        }
        proof {
            lemma_post_slug_index_at(db.rows@, slug@, n as int);
        }
        None
    }
}

/// Index of the first row whose slug reads `slug`, or past the end when
/// none does.
pub open spec fn spec_post_slug_index(rows: Seq<Post>, slug: Seq<char>) -> int
    decreases rows.len(),
{
    if rows.len() == 0 {
        0
    } else if rows[0].slug@ == slug {
        0
    } else {
        1 + spec_post_slug_index(rows.drop_first(), slug)
    }
}

/// The first row whose slug reads `slug`, if any.
pub open spec fn spec_find_post_by_slug(rows: Seq<Post>, slug: Seq<char>) -> Option<Post> {
    if spec_post_slug_index(rows, slug) < rows.len() {
        Some(rows[spec_post_slug_index(rows, slug)])
    } else {
        None
    }
}

/// The published rows of a table, in insertion order.
pub open spec fn spec_published_posts(rows: Seq<Post>) -> Seq<Post> {
    rows.filter(|p: Post| p.published)
}

/// Descending order of creation timestamps: any earlier element of the
/// sequence was created at or after any later one.
pub open spec fn sorted_desc(s: Seq<Post>) -> bool {
    forall|i: int, j: int|
        0 <= i <= j < s.len() ==> #[trigger] s[i].created_at >= #[trigger] s[j].created_at
}

/// Appending one row to a sequence extends its published selection by that
/// row exactly when the row is published.
proof fn lemma_published_posts_push(s: Seq<Post>, x: Post)
    ensures
        spec_published_posts(s.push(x)) == if x.published {
            spec_published_posts(s).push(x)
        } else {
            spec_published_posts(s)
        },
{
    reveal_with_fuel(Seq::filter, 2);
    assert(s.push(x).drop_last() =~= s);
    assert(s.push(x).last() == x);
}

impl Post {
    /// All published posts, newest first. The result holds exactly the
    /// published rows (as a multiset), every returned post is published,
    /// and creation timestamps never increase along the result.
    pub fn find_all(db: &PostTable) -> (r: Vec<Post>)
        ensures
            sorted_desc(r@),
            forall|i: int| 0 <= i < r@.len() ==> (#[trigger] r@[i]).published,
            r@.to_multiset() == spec_published_posts(db.rows@).to_multiset(),
    {
        broadcast use vstd::seq_lib::group_to_multiset_ensures;

        let ghost pubseq = spec_published_posts(db.rows@);
        let mut pending: Vec<Post> = Vec::new();
        let n = db.rows.len();
        let mut i: usize = 0;
        while i < n
            invariant
                n == db.rows@.len(),
                i <= n,
                pending@ == spec_published_posts(db.rows@.take(i as int)),
            decreases n - i,
        {
            let row = db.rows[i].clone();
            proof {
                assert(db.rows@.take(i + 1) =~= db.rows@.take(i as int).push(db.rows@[i as int]));
                lemma_published_posts_push(db.rows@.take(i as int), db.rows@[i as int]);
            }
            if row.published {
                pending.push(row);
            }
            i += 1;
        }
        proof {
            assert(db.rows@.take(n as int) =~= db.rows@);
        }
        let mut out: Vec<Post> = Vec::new();
        while pending.len() > 0
            invariant
                out@.to_multiset().add(pending@.to_multiset()) == pubseq.to_multiset(),
                sorted_desc(out@),
                forall|a: int, b: int|
                    0 <= a < out@.len() && 0 <= b < pending@.len()
                        ==> #[trigger] out@[a].created_at >= #[trigger] pending@[b].created_at,
                forall|a: int| 0 <= a < out@.len() ==> (#[trigger] out@[a]).published,
                forall|b: int| 0 <= b < pending@.len() ==> (#[trigger] pending@[b]).published,
            decreases pending.len(),
        {
            broadcast use vstd::seq_lib::group_to_multiset_ensures;

            let mut m: usize = 0;
            let mut k: usize = 1;
            while k < pending.len()
                invariant
                    pending@.len() > 0,
                    m < k,
                    k <= pending@.len(),
                    forall|j: int|
                        0 <= j < k ==> pending@[m as int].created_at
                            >= (#[trigger] pending@[j]).created_at,
                decreases pending@.len() - k,
            {
                if pending[k].created_at > pending[m].created_at {
                    m = k;
                }
                k += 1;
            }
            let ghost pending0 = pending@;
            let ghost out0 = out@;
            let p = pending.remove(m);
            out.push(p);
            proof {
                assert(pending@.to_multiset() =~= pending0.to_multiset().remove(p));
                assert(out@.to_multiset() =~= out0.to_multiset().insert(p));
                assert(pending0.contains(p));
                assert(pending0.to_multiset().count(p) > 0);
                assert(out@.to_multiset().add(pending@.to_multiset()) =~= pubseq.to_multiset());
                assert forall|a: int, b: int|
                    0 <= a < out@.len() && 0 <= b < pending@.len() implies #[trigger] out@[a].created_at
                    >= #[trigger] pending@[b].created_at by {
                    if b < m {
                        assert(pending@[b] == pending0[b]);
                    } else {
                        assert(pending@[b] == pending0[b + 1]);
                    }
                    if a < out0.len() {
                        assert(out@[a] == out0[a]);
                    } else {
                        assert(out@[a] == p);
                        assert(p == pending0[m as int]);
                    }
                }
                assert forall|i2: int, j2: int|
                    0 <= i2 <= j2 < out@.len() implies #[trigger] out@[i2].created_at
                    >= #[trigger] out@[j2].created_at by {
                    if j2 < out0.len() {
                    } else {
                        assert(out@[j2] == p);
                        if i2 < out0.len() {
                            assert(out0[i2].created_at >= pending0[m as int].created_at);
                        }
                    }
                }
            }
        }
        proof {
            assert(pending@.to_multiset().len() == 0);
            assert(out@.to_multiset().add(pending@.to_multiset()) =~= out@.to_multiset());
        }
        out
    }
}

/// How a repository operation can fail.
#[derive(Clone, Copy, Debug, PartialEq, Eq, Structural)]
pub enum RepoError {
    /// An update addressed an identifier with no current record.
    NotFound,
}

impl Post {
    /// Insert a new post at clock value `now`: the next identifier is
    /// assigned, both timestamps are set to `now`, and the fully populated
    /// record is returned.
    pub fn create_at(db: &mut PostTable, fields: CreatePost, now: i64) -> (r: Post)
        requires
            old(db).wf(),
            old(db).next_id < i64::MAX,
        ensures
            final(db).wf(),
            r == (Post {
                id: old(db).next_id,
                title: fields.title,
                slug: fields.slug,
                content: fields.content,
                excerpt: fields.excerpt,
                published: fields.published,
                created_at: now,
                updated_at: now,
            }),
            r.created_at == r.updated_at,
            final(db).rows@ == old(db).rows@.push(r),
            final(db).next_id == old(db).next_id + 1,
    {
        let id = db.next_id;
        let post = Post {
            id,
            title: fields.title,
            slug: fields.slug,
            content: fields.content,
            excerpt: fields.excerpt,
            published: fields.published,
            created_at: now,
            updated_at: now,
        };
        let r = post.clone();
        db.rows.push(post);
        db.next_id = id + 1;
        r
    }

    /// Insert a new post at the current instant. The clock reading itself
    /// is not pinned down; everything else is, by `create_at`.
    pub fn create(db: &mut PostTable, fields: CreatePost) -> (r: Post)
        requires
            old(db).wf(),
            old(db).next_id < i64::MAX,
        ensures
            final(db).wf(),
            r.id == old(db).next_id,
            r.title == fields.title,
            r.slug == fields.slug,
            r.content == fields.content,
            r.excerpt == fields.excerpt,
            r.published == fields.published,
            r.created_at == r.updated_at,
            final(db).rows@ == old(db).rows@.push(r),
            final(db).next_id == old(db).next_id + 1,
    {
        let now = crate::clock::now_micros();
        Self::create_at(db, fields, now)
    }

    /// Apply a partial update to the post carrying `id` at clock value
    /// `now`. Present fields override, absent fields are retained, and the
    /// update timestamp is refreshed (never backward). Addressing a missing
    /// identifier fails with `NotFound` and leaves the table untouched.
    pub fn update_at(db: &mut PostTable, id: i64, patch: UpdatePost, now: i64) -> (r: Result<
        Post,
        RepoError,
    >)
        requires
            old(db).wf(),
        ensures
            final(db).wf(),
            final(db).next_id == old(db).next_id,
            spec_find_post(old(db).rows@, id) is None ==> {
                &&& r == Result::<Post, RepoError>::Err(RepoError::NotFound)
                &&& final(db).rows@ == old(db).rows@
            },
            spec_find_post(old(db).rows@, id) is Some ==> {
                let cur = spec_find_post(old(db).rows@, id)->0;
                let merged = spec_merge(cur, patch, now);
                &&& r == Result::<Post, RepoError>::Ok(merged)
                &&& final(db).rows@ == old(db).rows@.update(
                    spec_post_index(old(db).rows@, id),
                    merged,
                )
                &&& spec_find_post(final(db).rows@, id) == Some(merged)
            },
    {
        let n = db.rows.len();
        let mut i: usize = 0;
        while i < n
            invariant
                n == db.rows@.len(),
                i <= n,
                db.wf(),
                db.rows@ == old(db).rows@,
                db.next_id == old(db).next_id,
                forall|j: int| 0 <= j < i ==> db.rows@[j].id != id,
            decreases n - i,
        {
            if db.rows[i].id == id {
                proof {
                    lemma_post_index_at(db.rows@, id, i as int);
                }
                let cur = db.rows[i].clone();
                let merged = merge_post(cur, patch, now);
                let r = merged.clone();
                db.rows[i] = merged;
                proof {
                    lemma_post_index_at(db.rows@, id, i as int);
                }
                return Ok(r);
            }
            i += 1;
        }
        proof {
            lemma_post_index_at(db.rows@, id, n as int);
        }
        Err(RepoError::NotFound)
    }

    /// Apply a partial update at the current instant; `update_at` pins the
    /// result down for every clock value.
    pub fn update(db: &mut PostTable, id: i64, patch: UpdatePost) -> (r: Result<Post, RepoError>)
        requires
            old(db).wf(),
        ensures
            final(db).wf(),
            final(db).next_id == old(db).next_id,
            r is Ok <==> spec_find_post(old(db).rows@, id) is Some,
            r is Err ==> r == Result::<Post, RepoError>::Err(RepoError::NotFound)
                && final(db).rows@ == old(db).rows@,
            spec_find_post(old(db).rows@, id) is Some ==> {
                let cur = spec_find_post(old(db).rows@, id)->0;
                &&& r->Ok_0 == spec_merge(cur, patch, r->Ok_0.updated_at)
                &&& r->Ok_0.updated_at >= cur.updated_at
                &&& final(db).rows@ == old(db).rows@.update(
                    spec_post_index(old(db).rows@, id),
                    r->Ok_0,
                )
            },
    {
        let now = crate::clock::now_micros();
        let ghost cur_opt = spec_find_post(db.rows@, id);
        let r = Self::update_at(db, id, patch, now);
        proof {
            if cur_opt is Some {
                let cur = cur_opt->0;
                assert(spec_merge(cur, patch, now).updated_at == if now > cur.updated_at {
                    now
                } else {
                    cur.updated_at
                });
            }
        }
        r
    }

    /// Delete the post carrying `id`. Deleting an absent identifier is a
    /// no-op, not an error, so a repeated delete succeeds trivially; under
    /// a well-formed table the identifier is gone afterwards.
    pub fn delete(db: &mut PostTable, id: i64)
        requires
            old(db).wf(),
        ensures
            final(db).wf(),
            final(db).next_id == old(db).next_id,
            spec_find_post(old(db).rows@, id) is None ==> final(db).rows@ == old(db).rows@,
            spec_find_post(old(db).rows@, id) is Some
                ==> final(db).rows@ == old(db).rows@.remove(spec_post_index(old(db).rows@, id)),
            spec_find_post(final(db).rows@, id) is None,
    {
        let n = db.rows.len();
        let mut i: usize = 0;
        while i < n
            invariant
                n == db.rows@.len(),
                i <= n,
                db.wf(),
                db.rows@ == old(db).rows@,
                db.next_id == old(db).next_id,
                forall|j: int| 0 <= j < i ==> db.rows@[j].id != id,
            decreases n - i,
        {
            if db.rows[i].id == id {
                proof {
                    lemma_post_index_at(db.rows@, id, i as int);
                }
                db.rows.remove(i);
                proof {
                    assert forall|j: int|
                        0 <= j < db.rows@.len() implies db.rows@[j].id != id by {
                        if j < i {
                        } else {
                            assert(db.rows@[j] == old(db).rows@[j + 1]);
                            assert(old(db).rows@[i as int].id != old(db).rows@[j + 1].id);
                        }
                    }
                    lemma_post_index_at(db.rows@, id, db.rows@.len() as int);
                }
                return ;
            }
            i += 1;
        }
        proof {
            lemma_post_index_at(db.rows@, id, n as int);
        }
    }
}

/// Pins `spec_post_slug_index` down from what a left-to-right scan saw.
pub proof fn lemma_post_slug_index_at(rows: Seq<Post>, slug: Seq<char>, i: int)
    requires
        0 <= i <= rows.len(),
        forall|j: int| 0 <= j < i ==> rows[j].slug@ != slug,
        i < rows.len() ==> rows[i].slug@ == slug,
    ensures
        i < rows.len() ==> spec_post_slug_index(rows, slug) == i,
        i == rows.len() ==> spec_post_slug_index(rows, slug) >= rows.len(),
    decreases rows.len(),
{
    if rows.len() > 0 {
        if i == 0 {
        } else {
            assert(rows[0].slug@ != slug);
            lemma_post_slug_index_at(rows.drop_first(), slug, i - 1);
        }
    }
}

} // verus!
