//! The blacklist: tag tiers, accepted ratings, animated files and a forced
//! extension, applied to a list of posts in one pass.
use vstd::prelude::*;
use crate::imageboards::ImageBoards;
use crate::post::Post;
use crate::rating::{same_text, Rating};
use crate::tags::{copy_tags, empty_tags, has_tag, insert_tag, tag_contents, tag_list};

verus! {

broadcast use vstd::prelude::Seq::lemma_filter_push;

/// The tags excluded from every site, and those excluded from each site.
#[derive(Debug)]
pub struct BlacklistCategories {
    pub global: ahash::AHashSet<String>,
    pub danbooru: ahash::AHashSet<String>,
    pub e621: ahash::AHashSet<String>,
    pub realbooru: ahash::AHashSet<String>,
    pub rule34: ahash::AHashSet<String>,
    pub gelbooru: ahash::AHashSet<String>,
    pub konachan: ahash::AHashSet<String>,
}

/// The blacklist configuration of the user; without categories nothing is
/// excluded by it.
#[derive(Debug)]
pub struct GlobalBlacklist {
    pub blacklist: Option<BlacklistCategories>,
}

impl BlacklistCategories {
    /// The tags excluded from the given site.
    pub open spec fn site_tier(self, site: ImageBoards) -> Set<Seq<char>> {
        match site {
            ImageBoards::Danbooru => tag_contents(self.danbooru),
            ImageBoards::E621 => tag_contents(self.e621),
            ImageBoards::Rule34 => tag_contents(self.rule34),
            ImageBoards::Realbooru => tag_contents(self.realbooru),
            ImageBoards::Konachan => tag_contents(self.konachan),
            ImageBoards::Gelbooru => tag_contents(self.gelbooru),
        }
    }

    /// Categories that exclude nothing.
    pub fn empty() -> (r: BlacklistCategories)
        ensures
            tag_contents(r.global) == Set::<Seq<char>>::empty(),
            forall|site: ImageBoards| #[trigger] r.site_tier(site) == Set::<Seq<char>>::empty(),
    {
        BlacklistCategories {
            global: empty_tags(),
            danbooru: empty_tags(),
            e621: empty_tags(),
            realbooru: empty_tags(),
            rule34: empty_tags(),
            gelbooru: empty_tags(),
            konachan: empty_tags(),
        }
    }

    /// The tags excluded from the given site.
    pub fn site_tags(&self, site: ImageBoards) -> (r: &ahash::AHashSet<String>)
        ensures
            tag_contents(*r) == self.site_tier(site),
    {
        match site {
            ImageBoards::Danbooru => &self.danbooru,
            ImageBoards::E621 => &self.e621,
            ImageBoards::Rule34 => &self.rule34,
            ImageBoards::Realbooru => &self.realbooru,
            ImageBoards::Konachan => &self.konachan,
            ImageBoards::Gelbooru => &self.gelbooru,
        }
    }
}

impl GlobalBlacklist {
    /// The tags that the configuration excludes from a site: the global tier
    /// and the site's own.
    pub open spec fn tiers_for(self, site: ImageBoards) -> Set<Seq<char>> {
        match self.blacklist {
            Some(c) => tag_contents(c.global).union(c.site_tier(site)),
            None => Set::empty(),
        }
    }
}

/// Whether an extension names a video or an animation.
pub open spec fn animated_spec(ext: Seq<char>) -> bool {
    ext == "mp4"@ || ext == "webm"@ || ext == "gif"@
}

/// Whether an extension names a video or an animation.
pub fn is_animated(ext: &str) -> (r: bool)
    ensures
        r == animated_spec(ext@),
{
    same_text(ext, "mp4") || same_text(ext, "webm") || same_text(ext, "gif")
}

/// The tags of the first `n` strings of `list`.
spec fn listed(list: Seq<String>, n: int) -> Set<Seq<char>> {
    Set::new(|t: Seq<char>| exists|k: int| 0 <= k < n && list[k]@ == t)
}

proof fn lemma_listed_step(list: Seq<String>, n: int)
    requires
        0 <= n < list.len(),
    ensures
        listed(list, n + 1) == listed(list, n).insert(list[n]@),
{
    assert forall|t: Seq<char>| #[trigger] listed(list, n + 1).contains(t) <==> listed(list, n).insert(list[n]@).contains(t) by {
        if listed(list, n + 1).contains(t) {
            let k = choose|k: int| 0 <= k < n + 1 && list[k]@ == t;
            if k < n {
                assert(listed(list, n).contains(t));
            }
        }
        if listed(list, n).contains(t) {
            let k = choose|k: int| 0 <= k < n && list[k]@ == t;
            assert(0 <= k < n + 1 && list[k]@ == t);
        }
    }
    assert(listed(list, n + 1) =~= listed(list, n).insert(list[n]@));
}

/// Adds every tag of `src` to `dst`.
fn add_all(dst: &mut ahash::AHashSet<String>, src: &ahash::AHashSet<String>)
    ensures
        tag_contents(*final(dst)) == tag_contents(*old(dst)).union(tag_contents(*src)),
{
    let list = tag_list(src);
    let ghost start = tag_contents(*dst);
    let mut i: usize = 0;
    assert(listed(list@, 0) =~= Set::<Seq<char>>::empty());
    assert(start.union(listed(list@, 0)) =~= start);
    while i < list.len()
        invariant
            i <= list@.len(),
            tag_contents(*dst) == start.union(listed(list@, i as int)),
        decreases list@.len() - i,
    {
        let t = list[i].clone();
        insert_tag(dst, t);
        proof {
            lemma_listed_step(list@, i as int);
            assert(start.union(listed(list@, i as int)).insert(list@[i as int]@) =~= start.union(listed(list@, i + 1)));
        }
        i = i + 1;
    }
    assert(listed(list@, list@.len() as int) =~= tag_contents(*src));
    assert(tag_contents(*dst) =~= start.union(tag_contents(*src)));
}

/// Whether the two sets share a tag.
pub fn shares_tag(tags: &ahash::AHashSet<String>, blocked: &ahash::AHashSet<String>) -> (r: bool)
    ensures
        r == exists|t: Seq<char>| tag_contents(*tags).contains(t) && tag_contents(*blocked).contains(t),
{
    let list = tag_list(tags);
    let mut i: usize = 0;
    while i < list.len()
        invariant
            i <= list@.len(),
            forall|k: int| 0 <= k < i ==> !tag_contents(*blocked).contains(#[trigger] list@[k]@),
            forall|t: Seq<char>| tag_contents(*tags).contains(t) <==> exists|k: int| 0 <= k < list@.len() && list@[k]@ == t,
        decreases list@.len() - i,
    {
        if has_tag(blocked, list[i].as_str()) {
            assert(tag_contents(*tags).contains(list@[i as int]@));
            return true;
        }
        i = i + 1;
    }
    assert forall|t: Seq<char>| !(tag_contents(*tags).contains(t) && tag_contents(*blocked).contains(t)) by {
        if tag_contents(*tags).contains(t) {
            let k = choose|k: int| 0 <= k < list@.len() && list@[k]@ == t;
            assert(!tag_contents(*blocked).contains(list@[k]@));
        }
    }
    false
}

/// The filter of one run, built once and never changed.
#[derive(Debug)]
pub struct BlacklistFilter {
    disabled: bool,
    blocked: ahash::AHashSet<String>,
    ratings: Vec<Rating>,
    ignore_animated: bool,
    extension: Option<String>,
}

impl BlacklistFilter {
    pub closed spec fn disabled_spec(self) -> bool {
        self.disabled
    }

    /// Every excluded tag, of all tiers.
    pub closed spec fn blocked_spec(self) -> Set<Seq<char>> {
        tag_contents(self.blocked)
    }

    /// The ratings let through; when empty, every rating is.
    pub closed spec fn ratings_spec(self) -> Seq<Rating> {
        self.ratings@
    }

    pub closed spec fn ignore_animated_spec(self) -> bool {
        self.ignore_animated
    }

    pub closed spec fn extension_spec(self) -> Option<Seq<char>> {
        match self.extension {
            Some(e) => Some(e@),
            None => None,
        }
    }

    /// Whether the filter removes the post.
    pub open spec fn blocks(self, p: Post) -> bool {
        !self.disabled_spec() && {
            ||| exists|t: Seq<char>| p.tag_set().contains(t) && self.blocked_spec().contains(t)
            ||| (self.ratings_spec().len() > 0 && !self.ratings_spec().contains(p.rating))
            ||| (self.ignore_animated_spec() && animated_spec(p.extension@))
            ||| (self.extension_spec() is Some && self.extension_spec()->Some_0 != p.extension@)
        }
    }

    pub open spec fn keeps(self) -> spec_fn(Post) -> bool {
        |p: Post| !self.blocks(p)
    }

    /// What the filter leaves of a list of posts, in its order.
    pub open spec fn kept(self, s: Seq<Post>) -> Seq<Post> {
        s.filter(self.keeps())
    }

    /// Builds the filter of a run on `site`: the tags of the configuration's
    /// global tier and of the site's tier, and the user's own blacklist; the
    /// ratings let through (all when empty); whether animated files are
    /// removed; and the one extension let through, if any. A disabled filter
    /// lets every post through.
    pub fn new(
        site: ImageBoards,
        config: &GlobalBlacklist,
        user_tags: &ahash::AHashSet<String>,
        ratings: Vec<Rating>,
        disabled: bool,
        ignore_animated: bool,
        extension: Option<String>,
    ) -> (r: BlacklistFilter)
        ensures
            r.disabled_spec() == disabled,
            r.blocked_spec() == config.tiers_for(site).union(tag_contents(*user_tags)),
            r.ratings_spec() == ratings@,
            r.ignore_animated_spec() == ignore_animated,
            r.extension_spec() == match extension {
                Some(e) => Some(e@),
                None => None::<Seq<char>>,
            },
    {
        let mut blocked = copy_tags(user_tags);
        match &config.blacklist {
            Some(c) => {
                add_all(&mut blocked, &c.global);
                add_all(&mut blocked, c.site_tags(site));
            },
            None => {},
        }
        assert(tag_contents(blocked) =~= config.tiers_for(site).union(tag_contents(*user_tags)));
        BlacklistFilter { disabled, blocked, ratings, ignore_animated, extension }
    }

    fn rating_allowed(&self, r: Rating) -> (b: bool)
        ensures
            b == (self.ratings@.len() == 0 || self.ratings@.contains(r)),
    {
        if self.ratings.len() == 0 {
            return true;
        }
        let mut i: usize = 0;
        while i < self.ratings.len()
            invariant
                i <= self.ratings@.len(),
                forall|k: int| 0 <= k < i ==> self.ratings@[k] != r,
            decreases self.ratings@.len() - i,
        {
            if self.ratings[i] == r {
                assert(self.ratings@[i as int] == r);
                return true;
            }
            i = i + 1;
        }
        false
    }

    /// Whether the filter removes the post.
    pub fn is_blocked(&self, p: &Post) -> (b: bool)
        ensures
            b == self.blocks(*p),
    {
        if self.disabled {
            return false;
        }
        if shares_tag(&p.tags, &self.blocked) {
            let ghost t = choose|t: Seq<char>| tag_contents(p.tags).contains(t) && tag_contents(self.blocked).contains(t);
            assert(p.tag_set().contains(t) && self.blocked_spec().contains(t));
            return true;
        }
        if !self.rating_allowed(p.rating) {
            return true;
        }
        if self.ignore_animated && is_animated(p.extension.as_str()) {
            return true;
        }
        match &self.extension {
            Some(e) => !same_text(e.as_str(), p.extension.as_str()),
            None => false,
        }
    }

    /// Removes the posts that the filter blocks, in one pass; gives how many
    /// were removed and the rest in their order.
    pub fn filter(&self, posts: Vec<Post>) -> (r: (u64, Vec<Post>))
        ensures
            r.1@ == self.kept(posts@),
            r.0 + r.1@.len() == posts@.len(),
            self.disabled_spec() ==> r.0 == 0 && r.1@ == posts@,
    {
        let ghost all = posts@;
        let n = posts.len();
        let mut out: Vec<Post> = Vec::new();
        let mut removed: usize = 0;
        for p in it: posts.into_iter()
            invariant
                it.seq() == all,
                out@ == self.kept(all.take(it.index() as int)),
                removed + out@.len() == it.index(),
                it.index() <= all.len(),
                n == all.len(),
        {
            let ghost i = it.index() as int;
            proof {
                assert(all.take(i + 1) == all.take(i).push(all[i]));
            }
            if self.is_blocked(&p) {
                assert(removed < n);
                removed = removed + 1;
            } else {
                out.push(p);
            }
        }
        assert(all.take(all.len() as int) == all);
        proof {
            if self.disabled {
                lemma_filter_all_kept(*self, all);
            }
        }
        (removed as u64, out)
    }
}

impl BlacklistFilter {
    /// Whether a filter of the tags `blocked` alone keeps a post.
    pub open spec fn tag_keeps(blocked: Set<Seq<char>>, disabled: bool) -> spec_fn(Post) -> bool {
        |p: Post| disabled || !exists|t: Seq<char>| p.tag_set().contains(t) && blocked.contains(t)
    }

    /// What a filter of the tags `blocked` alone leaves of `s`.
    pub open spec fn kept_by(blocked: Set<Seq<char>>, disabled: bool, s: Seq<Post>) -> Seq<Post> {
        s.filter(Self::tag_keeps(blocked, disabled))
    }

    pub proof fn lemma_kept_by(f: BlacklistFilter, s: Seq<Post>)
        requires
            f.ratings_spec().len() == 0,
            !f.ignore_animated_spec(),
            f.extension_spec() is None,
        ensures
            f.kept(s) == Self::kept_by(f.blocked_spec(), f.disabled_spec(), s),
    {
        assert(f.keeps() =~= Self::tag_keeps(f.blocked_spec(), f.disabled_spec()));
    }
}

/// A list whose every post the filter keeps passes through it unchanged.
pub proof fn lemma_filter_all_kept(f: BlacklistFilter, s: Seq<Post>)
    requires
        forall|i: int| 0 <= i < s.len() ==> !f.blocks(#[trigger] s[i]),
    ensures
        f.kept(s) == s,
    decreases s.len(),
{
    if s.len() > 0 {
        let init = s.drop_last();
        assert(init.push(s.last()) == s);
        assert forall|i: int| 0 <= i < init.len() implies !f.blocks(#[trigger] init[i]) by {
            assert(init[i] == s[i]);
        }
        lemma_filter_all_kept(f, init);
    }
}

/// `kept` lists posts of `s` in the order they stand in `s`: its `i`-th post
/// is the post of `s` at `idx[i]`, and the places rise.
pub open spec fn in_order_of(kept: Seq<Post>, s: Seq<Post>, idx: Seq<int>) -> bool {
    &&& idx.len() == kept.len()
    &&& forall|i: int| 0 <= i < idx.len() ==> 0 <= #[trigger] idx[i] < s.len() && s[idx[i]] == kept[i]
    &&& forall|i: int, j: int| 0 <= i < j < idx.len() ==> idx[i] < idx[j]
}

/// What the filter leaves stands in the order it had in the list.
pub proof fn lemma_filter_keeps_order(f: BlacklistFilter, s: Seq<Post>)
    ensures
        exists|idx: Seq<int>| in_order_of(f.kept(s), s, idx),
    decreases s.len(),
{
    if s.len() == 0 {
        assert(in_order_of(f.kept(s), s, Seq::<int>::empty()));
    } else {
        let init = s.drop_last();
        assert(init.push(s.last()) == s);
        lemma_filter_keeps_order(f, init);
        let idx = choose|idx: Seq<int>| in_order_of(f.kept(init), init, idx);
        if f.blocks(s.last()) {
            assert(in_order_of(f.kept(s), s, idx));
        } else {
            let idx2 = idx.push(init.len() as int);
            assert(f.kept(s) == f.kept(init).push(s.last()));
            assert(in_order_of(f.kept(s), s, idx2));
        }
    }
}

/// Filtering twice with one filter removes nothing the second time.
pub proof fn lemma_filter_idempotent(f: BlacklistFilter, s: Seq<Post>)
    ensures
        f.kept(f.kept(s)) == f.kept(s),
{
    broadcast use vstd::seq_lib::group_filter_ensures;
    let once = f.kept(s);
    assert forall|i: int| 0 <= i < once.len() implies !f.blocks(#[trigger] once[i]) by {
        s.lemma_filter_pred(f.keeps(), i);
    }
    lemma_filter_all_kept(f, once);
}

} // verus!
