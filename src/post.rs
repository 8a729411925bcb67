//! The normalized post record and the ordered queue of a run.
use vstd::prelude::*;
use crate::error::QueueError;
use crate::rating::Rating;
use crate::tags::{copy_tags, empty_tags, has_tag, insert_tag, tag_contents};

verus! {

broadcast use vstd::seq_lib::group_to_multiset_ensures, vstd::prelude::Seq::lemma_filter_push;

/// One piece of content of a site, as every site is read into.
#[derive(Debug)]
pub struct Post {
    /// The number that the site gave the post.
    pub id: u64,
    /// Where the full-size file lies.
    pub url: String,
    /// Hex MD5 digest of the file.
    pub md5: String,
    /// The file's extension.
    pub extension: String,
    pub rating: Rating,
    /// The post's tags.
    pub tags: ahash::AHashSet<String>,
}

impl Clone for Post {
    fn clone(&self) -> (r: Post)
        ensures
            r.same_as(*self),
    {
        self.duplicate()
    }
}

impl PartialEq for Post {
    /// Posts are the same when their ids are.
    fn eq(&self, other: &Post) -> (r: bool) {
        self.id == other.id
    }
}

impl vstd::std_specs::cmp::PartialEqSpecImpl for Post {
    open spec fn obeys_eq_spec() -> bool {
        true
    }

    open spec fn eq_spec(&self, other: &Post) -> bool {
        self.id == other.id
    }
}

/// Posts are ordered by id.
pub open spec fn id_order(a: u64, b: u64) -> core::cmp::Ordering {
    if a < b {
        core::cmp::Ordering::Less
    } else if a == b {
        core::cmp::Ordering::Equal
    } else {
        core::cmp::Ordering::Greater
    }
}

impl PartialOrd for Post {
    fn partial_cmp(&self, other: &Post) -> (r: Option<core::cmp::Ordering>) {
        if self.id < other.id {
            Some(core::cmp::Ordering::Less)
        } else if self.id == other.id {
            Some(core::cmp::Ordering::Equal)
        } else {
            Some(core::cmp::Ordering::Greater)
        }
    }
}

impl vstd::std_specs::cmp::PartialOrdSpecImpl for Post {
    open spec fn obeys_partial_cmp_spec() -> bool {
        true
    }

    open spec fn partial_cmp_spec(&self, other: &Post) -> Option<core::cmp::Ordering> {
        Some(id_order(self.id, other.id))
    }
}

impl Post {
    /// The set of the post's tags.
    pub open spec fn tag_set(self) -> Set<Seq<char>> {
        tag_contents(self.tags)
    }

    /// Whether two posts hold the same values.
    pub open spec fn same_as(self, other: Post) -> bool {
        &&& self.id == other.id
        &&& self.url@ == other.url@
        &&& self.md5@ == other.md5@
        &&& self.extension@ == other.extension@
        &&& self.rating == other.rating
        &&& self.tag_set() == other.tag_set()
    }

    /// A post without tags.
    pub fn new(id: u64, url: String, md5: String, extension: String, rating: Rating) -> (r: Post)
        ensures
            r.id == id,
            r.url == url,
            r.md5 == md5,
            r.extension == extension,
            r.rating == rating,
            r.tag_set() == Set::<Seq<char>>::empty(),
    {
        Post { id, url, md5, extension, rating, tags: empty_tags() }
    }

    /// Adds a tag to the post.
    pub fn add_tag(&mut self, tag: String)
        ensures
            final(self).tag_set() == old(self).tag_set().insert(tag@),
            final(self).id == old(self).id,
            final(self).url == old(self).url,
            final(self).md5 == old(self).md5,
            final(self).extension == old(self).extension,
            final(self).rating == old(self).rating,
    {
        insert_tag(&mut self.tags, tag);
    }

    /// Whether the post carries the tag.
    pub fn has_tag(&self, tag: &str) -> (r: bool)
        ensures
            r == self.tag_set().contains(tag@),
    {
        has_tag(&self.tags, tag)
    }

    /// A copy of the post.
    pub fn duplicate(&self) -> (r: Post)
        ensures
            r.same_as(*self),
    {
        Post {
            id: self.id,
            url: self.url.clone(),
            md5: self.md5.clone(),
            extension: self.extension.clone(),
            rating: self.rating,
            tags: copy_tags(&self.tags),
        }
    }
}

/// Ids fall strictly from the first post to the last.
pub open spec fn strictly_descending(s: Seq<Post>) -> bool {
    forall|i: int, j: int| 0 <= i < j < s.len() ==> s[i].id > s[j].id
}

/// The posts of `s` whose id is above `m`, in their order.
pub open spec fn newer_than(s: Seq<Post>, m: u64) -> Seq<Post> {
    s.filter(newer_pred(m))
}

pub open spec fn newer_pred(m: u64) -> spec_fn(Post) -> bool {
    |p: Post| p.id > m
}

/// Relies on `slice::sort_by_key`: the same posts, by id from low to high.
#[verifier::external_body]
fn sort_by_id(v: &mut Vec<Post>)
    ensures
        final(v)@.to_multiset() == old(v)@.to_multiset(),
        forall|i: int, j: int| 0 <= i < j < final(v)@.len() ==> final(v)@[i].id <= final(v)@[j].id,
{
    v.sort_by_key(|p| p.id)
}

/// Some post of `s` has id `id`.
pub open spec fn has_id(s: Seq<Post>, id: u64) -> bool {
    exists|j: int| 0 <= j < s.len() && s[j].id == id
}

proof fn lemma_has_id_push(s: Seq<Post>, p: Post, id: u64)
    requires
        has_id(s, id) || p.id == id,
    ensures
        has_id(s.push(p), id),
{
    if p.id == id {
        assert(s.push(p)[s.len() as int].id == id);
    } else {
        let j = choose|j: int| 0 <= j < s.len() && s[j].id == id;
        assert(s.push(p)[j].id == id);
    }
}

/// Takes posts ordered by id from low to high and gives them from high to
/// low, one post of each id.
fn newest_first_unique(sorted: Vec<Post>) -> (out: Vec<Post>)
    requires
        forall|i: int, j: int| 0 <= i < j < sorted@.len() ==> sorted@[i].id <= sorted@[j].id,
    ensures
        strictly_descending(out@),
        forall|i: int| 0 <= i < out@.len() ==> sorted@.contains(#[trigger] out@[i]),
        forall|k: int| 0 <= k < sorted@.len() ==> has_id(out@, #[trigger] sorted@[k].id),
{
    let ghost all = sorted@;
    let mut rest = sorted;
    let mut out: Vec<Post> = Vec::new();
    while rest.len() > 0
        invariant
            rest@ == all.subrange(0, rest@.len() as int),
            rest@.len() <= all.len(),
            forall|i: int, j: int| 0 <= i < j < all.len() ==> all[i].id <= all[j].id,
            strictly_descending(out@),
            out@.len() > 0 ==> rest@.len() < all.len() && out@.last().id == all[rest@.len() as int].id,
            forall|i: int| 0 <= i < out@.len() ==> all.contains(#[trigger] out@[i]),
            forall|k: int| rest@.len() <= k < all.len() ==> has_id(out@, #[trigger] all[k].id),
        decreases rest@.len(),
    {
        let ghost k = rest@.len() - 1;
        let ghost before = out@;
        let p = rest.pop().unwrap();
        assert(p == all[k]);
        let fresh = out.len() == 0 || out[out.len() - 1].id != p.id;
        if fresh {
            out.push(p);
            assert(out@ == before.push(p));
            assert forall|k2: int| rest@.len() <= k2 < all.len() implies has_id(out@, #[trigger] all[k2].id) by {
                lemma_has_id_push(before, p, all[k2].id);
            }
            assert forall|i: int| 0 <= i < out@.len() implies all.contains(#[trigger] out@[i]) by {
                if i == before.len() {
                    assert(all[k] == out@[i]);
                } else {
                    assert(out@[i] == before[i]);
                }
            }
        } else {
            assert(has_id(out@, all[k].id)) by {
                assert(out@[out@.len() - 1].id == all[k].id);
            }
        }
    }
    out
}

/// The posts whose id is above `m`, in their order.
pub fn keep_newer(posts: Vec<Post>, m: u64) -> (r: Vec<Post>)
    ensures
        r@ == newer_than(posts@, m),
{
    let ghost all = posts@;
    let mut out: Vec<Post> = Vec::new();
    for p in it: posts.into_iter()
        invariant
            it.seq() == all,
            out@ == newer_than(all.take(it.index() as int), m),
    {
        let ghost i = it.index() as int;
        proof {
            assert(all.take(i + 1) == all.take(i).push(all[i]));
        }
        if p.id > m {
            out.push(p);
        }
    }
    assert(all.take(all.len() as int) == all);
    out
}

/// When no post is newer than the mark, nothing is kept.
pub proof fn lemma_nothing_newer(s: Seq<Post>, m: u64)
    requires
        forall|i: int| 0 <= i < s.len() ==> s[i].id <= m,
    ensures
        newer_than(s, m).len() == 0,
{
    broadcast use vstd::seq_lib::group_filter_ensures;
    if newer_than(s, m).len() > 0 {
        let p = newer_than(s, m)[0];
        assert(newer_than(s, m).contains(p));
        s.lemma_filter_pred(newer_pred(m), 0);
        s.lemma_filter_contains_rev(newer_pred(m), p);
        let k = choose|k: int| 0 <= k < s.len() && s[k] == p;
        assert(s[k].id <= m);
    }
}

/// The mark keeps exactly the posts whose id is above it.
pub proof fn lemma_newer_exact(s: Seq<Post>, m: u64)
    ensures
        forall|p: Post| #[trigger] newer_than(s, m).contains(p) <==> (s.contains(p) && p.id > m),
{
    broadcast use vstd::seq_lib::group_filter_ensures;
    assert forall|p: Post| #[trigger] newer_than(s, m).contains(p) <==> (s.contains(p) && p.id > m) by {
        if newer_than(s, m).contains(p) {
            s.lemma_filter_contains_rev(newer_pred(m), p);
            let k = choose|k: int| 0 <= k < newer_than(s, m).len() && newer_than(s, m)[k] == p;
            s.lemma_filter_pred(newer_pred(m), k);
        }
        if s.contains(p) && p.id > m {
            let k = choose|k: int| 0 <= k < s.len() && s[k] == p;
            s.lemma_filter_contains(newer_pred(m), k);
        }
    }
}

/// A subsequence of strictly descending posts is strictly descending.
proof fn lemma_newer_descending(s: Seq<Post>, m: u64)
    requires
        strictly_descending(s),
    ensures
        strictly_descending(newer_than(s, m)),
    decreases s.len(),
{
    broadcast use vstd::seq_lib::group_filter_ensures;
    if s.len() > 0 {
        let init = s.drop_last();
        assert(init.push(s.last()) == s);
        lemma_newer_descending(init, m);
        let f = newer_than(init, m);
        if s.last().id > m {
            assert forall|i: int| 0 <= i < f.len() implies f[i].id > s.last().id by {
                assert(f.contains(f[i]));
                init.lemma_filter_contains_rev(newer_pred(m), f[i]);
                let k = choose|k: int| 0 <= k < init.len() && init[k] == f[i];
                assert(s[k] == init[k]);
            }
        }
    }
}

/// The posts found by one run, newest first, with the query that found them
/// and the blacklist of the user who ran it.
#[derive(Debug)]
pub struct PostQueue {
    posts: Vec<Post>,
    tags: Vec<String>,
    user_blacklist: ahash::AHashSet<String>,
}

impl PostQueue {
    #[verifier::type_invariant]
    spec fn inv(self) -> bool {
        strictly_descending(self.posts@)
    }

    pub closed spec fn posts_spec(self) -> Seq<Post> {
        self.posts@
    }

    pub closed spec fn tags_spec(self) -> Seq<String> {
        self.tags@
    }

    pub closed spec fn user_blacklist_spec(self) -> Set<Seq<char>> {
        tag_contents(self.user_blacklist)
    }

    /// Orders the posts newest first and keeps one post of each id.
    pub fn new(posts: Vec<Post>, tags: Vec<String>, user_blacklist: ahash::AHashSet<String>) -> (r: PostQueue)
        ensures
            strictly_descending(r.posts_spec()),
            forall|i: int| 0 <= i < r.posts_spec().len() ==> posts@.contains(#[trigger] r.posts_spec()[i]),
            forall|i: int| 0 <= i < posts@.len() ==> has_id(r.posts_spec(), #[trigger] posts@[i].id),
            r.tags_spec() == tags@,
            r.user_blacklist_spec() == tag_contents(user_blacklist),
    {
        let ghost input = posts@;
        let mut sorted = posts;
        sort_by_id(&mut sorted);
        let ghost all = sorted@;
        let out = newest_first_unique(sorted);
        assert forall|i: int| 0 <= i < out@.len() implies input.contains(#[trigger] out@[i]) by {
            assert(all.contains(out@[i]));
            assert(all.to_multiset().count(out@[i]) > 0);
        }
        assert forall|i: int| 0 <= i < input.len() implies has_id(out@, #[trigger] input[i].id) by {
            assert(input.contains(input[i]));
            assert(input.to_multiset().count(input[i]) > 0);
            assert(all.contains(input[i]));
            let k = choose|k: int| 0 <= k < all.len() && all[k] == input[i];
            assert(has_id(out@, all[k].id));
        }
        PostQueue { posts: out, tags, user_blacklist }
    }

    /// Keeps only the posts newer than the mark of an earlier run; when none
    /// is left the run has nothing to do.
    pub fn apply_resume(self, marker_id: u64) -> (r: Result<PostQueue, QueueError>)
        ensures
            newer_than(self.posts_spec(), marker_id).len() == 0 <==> r == Err::<PostQueue, QueueError>(QueueError::NoPostsInQueue),
            newer_than(self.posts_spec(), marker_id).len() > 0 ==> r is Ok,
            r is Ok ==> r->Ok_0.posts_spec() == newer_than(self.posts_spec(), marker_id),
            r is Ok ==> r->Ok_0.tags_spec() == self.tags_spec(),
            r is Ok ==> r->Ok_0.user_blacklist_spec() == self.user_blacklist_spec(),
    {
        proof {
            use_type_invariant(&self);
            lemma_newer_descending(self.posts@, marker_id);
        }
        let PostQueue { posts, tags, user_blacklist } = self;
        let kept = keep_newer(posts, marker_id);
        if kept.len() == 0 {
            Err(QueueError::NoPostsInQueue)
        } else {
            Ok(PostQueue { posts: kept, tags, user_blacklist })
        }
    }

    /// The posts, newest first; no two share an id.
    pub fn posts(&self) -> (r: &Vec<Post>)
        ensures
            r@ == self.posts_spec(),
            strictly_descending(r@),
    {
        proof {
            use_type_invariant(self);
        }
        &self.posts
    }

    /// The tags of the query.
    pub fn tags(&self) -> (r: &Vec<String>)
        ensures
            r@ == self.tags_spec(),
    {
        &self.tags
    }

    /// The blacklist of the authenticated user; empty without one.
    pub fn user_blacklist(&self) -> (r: &ahash::AHashSet<String>)
        ensures
            tag_contents(*r) == self.user_blacklist_spec(),
    {
        &self.user_blacklist
    }

    /// Gives the posts, newest first, the query's tags and the user's blacklist.
    pub fn into_parts(self) -> (r: (Vec<Post>, Vec<String>, ahash::AHashSet<String>))
        ensures
            r.0@ == self.posts_spec(),
            strictly_descending(r.0@),
            r.1@ == self.tags_spec(),
            tag_contents(r.2) == self.user_blacklist_spec(),
    {
        proof {
            use_type_invariant(&self);
        }
        (self.posts, self.tags, self.user_blacklist)
    }

    /// The number of posts.
    pub fn len(&self) -> (r: usize)
        ensures
            r == self.posts_spec().len(),
    {
        self.posts.len()
    }

    /// A copy of the post with the highest id, the mark of a finished run;
    /// `None` for an empty queue.
    pub fn newest(&self) -> (r: Option<Post>)
        ensures
            self.posts_spec().len() == 0 <==> r is None,
            r is Some ==> r->Some_0.same_as(self.posts_spec()[0]),
            r is Some ==> forall|i: int| 0 <= i < self.posts_spec().len() ==> self.posts_spec()[i].id <= r->Some_0.id,
    {
        proof {
            use_type_invariant(self);
        }
        if self.posts.len() == 0 {
            None
        } else {
            Some(self.posts[0].duplicate())
        }
    }
}

} // verus!
