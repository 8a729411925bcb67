//! The decisions of an extraction run: checking the query, then asking for
//! pages one at a time until the site runs out, the caller's limit is met or
//! the page cap is reached. The caller fetches each page and hands its answer
//! back; the run keeps the posts that pass the blacklist.
use vstd::prelude::*;
use crate::blacklist::BlacklistFilter;
use crate::error::ExtractorError;
use crate::imageboards::ImageBoards;
use crate::json::Json;
use crate::post::{strictly_descending, Post, PostQueue};
use crate::sites::{map_page, page_items, read_posts};
use crate::tags::tag_contents;

verus! {

/// The most pages one run asks for.
pub const PAGE_CAP: u64 = 100;

/// The most tags that a query on the site may hold, where the site limits it.
pub open spec fn max_tags_spec(site: ImageBoards) -> Option<usize> {
    match site {
        ImageBoards::Danbooru => Some(2),
        _ => None,
    }
}

/// The number that the site gives its first page.
pub open spec fn first_page_spec(site: ImageBoards) -> u64 {
    match site {
        ImageBoards::Rule34 | ImageBoards::Realbooru | ImageBoards::Gelbooru => 0,
        _ => 1,
    }
}

/// Checks that the query does not hold more tags than the site takes.
pub fn validate_tag_count(site: ImageBoards, count: usize) -> (r: Result<(), ExtractorError>)
    ensures
        match max_tags_spec(site) {
            Some(m) => count > m ==> r == Err::<(), ExtractorError>(
                ExtractorError::TooManyTags { current: count, max: m as u64 },
            ),
            None => true,
        },
        r is Ok <==> match max_tags_spec(site) {
            Some(m) => count <= m,
            None => true,
        },
{
    match site {
        ImageBoards::Danbooru => {
            if count > 2 {
                Err(ExtractorError::TooManyTags { current: count, max: 2 })
            } else {
                Ok(())
            }
        },
        _ => Ok(()),
    }
}

/// What a site's pre-flight answer says of the number of posts: Danbooru
/// counts them under `counts.posts`; Gelbooru-based sites answer with the
/// listing itself, a bare array or an object with a `post` array.
pub open spec fn estimate_spec(site: ImageBoards, body: Json) -> Option<nat> {
    match site {
        ImageBoards::Danbooru => match body.field("counts"@) {
            Some(c) => match c.u64_field("posts"@) {
                Some(n) => Some(n as nat),
                None => None,
            },
            None => None,
        },
        _ => match body {
            Json::Array(v) => Some(v@.len()),
            _ => match body.field("post"@) {
                Some(Json::Array(v)) => Some(v@.len()),
                _ => None,
            },
        },
    }
}

/// Whether the site answers a pre-flight request before the first page.
pub open spec fn has_preflight_spec(site: ImageBoards) -> bool {
    site is Danbooru || site is Rule34 || site is Realbooru || site is Gelbooru
}

/// Whether the site answers a pre-flight request before the first page.
pub fn has_preflight(site: ImageBoards) -> (r: bool)
    ensures
        r == has_preflight_spec(site),
{
    matches!(site, ImageBoards::Danbooru | ImageBoards::Rule34 | ImageBoards::Realbooru | ImageBoards::Gelbooru)
}

/// Judges the pre-flight answer: no posts fails with `ZeroPosts`, an answer
/// that gives no count fails as invalid.
pub fn check_preflight(site: ImageBoards, body: &Json) -> (r: Result<(), ExtractorError>)
    requires
        has_preflight_spec(site),
    ensures
        estimate_spec(site, *body) is None ==> r == Err::<(), ExtractorError>(ExtractorError::InvalidServerResponse),
        estimate_spec(site, *body) == Some(0nat) ==> r == Err::<(), ExtractorError>(ExtractorError::ZeroPosts),
        r is Ok <==> (estimate_spec(site, *body) is Some && estimate_spec(site, *body) != Some(0nat)),
{
    let n: usize = match site {
        ImageBoards::Danbooru => {
            let count = match body.get("counts") {
                Some(c) => c.get_u64("posts"),
                None => None,
            };
            match count {
                Some(0) => return Err(ExtractorError::ZeroPosts),
                Some(_) => return Ok(()),
                None => return Err(ExtractorError::InvalidServerResponse),
            }
        },
        _ => match body.as_array() {
            Some(v) => v.len(),
            None => match body.get("post") {
                Some(inner) => match inner.as_array() {
                    Some(v) => v.len(),
                    None => return Err(ExtractorError::InvalidServerResponse),
                },
                None => return Err(ExtractorError::InvalidServerResponse),
            },
        },
    };
    if n == 0 {
        Err(ExtractorError::ZeroPosts)
    } else {
        Ok(())
    }
}

/// What the run asks of its caller next.
#[derive(Debug, Copy, Clone, PartialEq, Eq, Structural)]
pub enum PageStep {
    /// Fetch the page at `position`, after the fixed delay when `wait` is set.
    Fetch { position: u64, wait: bool },
    /// The run is over.
    Done,
}

/// One extraction run.
#[derive(Debug)]
pub struct Extraction {
    site: ImageBoards,
    tags: Vec<String>,
    user_blacklist: ahash::AHashSet<String>,
    filter: BlacklistFilter,
    start: u32,
    limit: Option<usize>,
    page: u64,
    seen_any: bool,
    posts: Vec<Post>,
    removed: u64,
}

impl Extraction {
    pub closed spec fn site_spec(self) -> ImageBoards {
        self.site
    }

    /// The page being fetched, counted from one.
    pub closed spec fn page_spec(self) -> u64 {
        self.page
    }

    pub closed spec fn start_spec(self) -> u32 {
        self.start
    }

    pub closed spec fn limit_spec(self) -> Option<usize> {
        self.limit
    }

    /// Whether an earlier page returned any post.
    pub closed spec fn seen_any_spec(self) -> bool {
        self.seen_any
    }

    /// The posts kept so far, in the order of the pages.
    pub closed spec fn posts_spec(self) -> Seq<Post> {
        self.posts@
    }

    /// How many posts the blacklist removed so far.
    pub closed spec fn removed_spec(self) -> u64 {
        self.removed
    }

    pub closed spec fn filter_spec(self) -> BlacklistFilter {
        self.filter
    }

    pub closed spec fn tags_spec(self) -> Seq<String> {
        self.tags@
    }

    pub closed spec fn user_blacklist_spec(self) -> Set<Seq<char>> {
        tag_contents(self.user_blacklist)
    }

    /// The run is within the page cap.
    pub open spec fn wf(self) -> bool {
        1 <= self.page_spec() <= PAGE_CAP
    }

    /// `self` is a run that has not fetched anything yet, with these settings.
    pub open spec fn fresh(
        self,
        site: ImageBoards,
        tags: Seq<String>,
        user_blacklist: Set<Seq<char>>,
        filter: BlacklistFilter,
        start: u32,
        limit: Option<usize>,
    ) -> bool {
        &&& self.wf()
        &&& self.site_spec() == site
        &&& self.tags_spec() == tags
        &&& self.user_blacklist_spec() == user_blacklist
        &&& self.filter_spec() == filter
        &&& self.start_spec() == start
        &&& self.limit_spec() == limit
        &&& self.page_spec() == 1
        &&& !self.seen_any_spec()
        &&& self.posts_spec() == Seq::<Post>::empty()
        &&& self.removed_spec() == 0
    }

    /// Where page number `page` of the run lies on the site.
    pub open spec fn position_spec(self, page: u64) -> u64 {
        (first_page_spec(self.site_spec()) + (page - 1) + self.start_spec()) as u64
    }

    /// Starts a run for the query `tags` on `site`, from `start` pages past
    /// the site's first and up to `limit` posts, keeping the posts that
    /// `filter` lets through; fails when the query holds too many tags.
    pub fn new(
        site: ImageBoards,
        tags: Vec<String>,
        user_blacklist: ahash::AHashSet<String>,
        filter: BlacklistFilter,
        start: u32,
        limit: Option<usize>,
    ) -> (r: Result<Extraction, ExtractorError>)
        ensures
            r is Ok <==> match max_tags_spec(site) {
                Some(m) => tags@.len() <= m,
                None => true,
            },
            r is Err ==> r == Err::<Extraction, ExtractorError>(
                ExtractorError::TooManyTags { current: tags@.len() as usize, max: max_tags_spec(site)->Some_0 as u64 },
            ),
            r is Ok ==> r->Ok_0.fresh(site, tags@, tag_contents(user_blacklist), filter, start, limit),
    {
        match validate_tag_count(site, tags.len()) {
            Ok(()) => {},
            Err(e) => return Err(e),
        }
        Ok(Extraction {
            site,
            tags,
            user_blacklist,
            filter,
            start,
            limit,
            page: 1,
            seen_any: false,
            posts: Vec::new(),
            removed: 0,
        })
    }

    fn position(&self) -> (r: u64)
        requires
            self.wf(),
        ensures
            r == self.position_spec(self.page_spec()),
    {
        let first: u64 = match self.site {
            ImageBoards::Rule34 | ImageBoards::Realbooru | ImageBoards::Gelbooru => 0,
            _ => 1,
        };
        first + (self.page - 1) + self.start as u64
    }

    /// The first request of the run: the first page, without delay.
    pub fn first_step(&self) -> (r: PageStep)
        requires
            self.wf(),
        ensures
            r == (PageStep::Fetch { position: self.position_spec(self.page_spec()), wait: false }),
    {
        PageStep::Fetch { position: self.position(), wait: false }
    }

    /// The step that taking `page_posts` makes from `pre`: a page without
    /// posts ends the run, and fails it with `ZeroPosts` when no earlier page
    /// had any. Otherwise the posts that the blacklist lets through are kept,
    /// and the run ends when the limit is met or the page cap reached; else
    /// the next page is asked for, after the delay.
    pub open spec fn step_spec(pre: Extraction, page_posts: Seq<Post>, post: Extraction, r: Result<PageStep, ExtractorError>) -> bool {
        &&& post.wf()
        &&& post.site_spec() == pre.site_spec()
        &&& post.tags_spec() == pre.tags_spec()
        &&& post.user_blacklist_spec() == pre.user_blacklist_spec()
        &&& post.filter_spec() == pre.filter_spec()
        &&& post.start_spec() == pre.start_spec()
        &&& post.limit_spec() == pre.limit_spec()
        &&& if page_posts.len() == 0 {
            &&& r == if pre.seen_any_spec() {
                Ok::<PageStep, ExtractorError>(PageStep::Done)
            } else {
                Err::<PageStep, ExtractorError>(ExtractorError::ZeroPosts)
            }
            &&& post.posts_spec() == pre.posts_spec()
            &&& post.page_spec() == pre.page_spec()
            &&& post.removed_spec() == pre.removed_spec()
            &&& post.seen_any_spec() == pre.seen_any_spec()
        } else {
            let kept = pre.filter_spec().kept(page_posts);
            let total = pre.posts_spec() + kept;
            let over = match pre.limit_spec() {
                Some(n) => total.len() >= n,
                None => false,
            };
            &&& post.posts_spec() == if over {
                total.take(pre.limit_spec()->Some_0 as int)
            } else {
                total
            }
            &&& post.removed_spec() == pre.removed_spec().saturating_add((page_posts.len() - kept.len()) as u64)
            &&& post.seen_any_spec()
            &&& if over || pre.page_spec() == PAGE_CAP {
                &&& r == Ok::<PageStep, ExtractorError>(PageStep::Done)
                &&& post.page_spec() == pre.page_spec()
            } else {
                &&& post.page_spec() == pre.page_spec() + 1
                &&& r == Ok::<PageStep, ExtractorError>(
                    PageStep::Fetch { position: post.position_spec(post.page_spec()), wait: true },
                )
            }
        }
    }

    /// Takes the posts read from the page just fetched (see `step_spec`).
    pub fn take_posts(&mut self, page_posts: Vec<Post>) -> (r: Result<PageStep, ExtractorError>)
        requires
            old(self).wf(),
        ensures
            Self::step_spec(*old(self), page_posts@, *final(self), r),
    {
        if page_posts.len() == 0 {
            if !self.seen_any {
                return Err(ExtractorError::ZeroPosts);
            }
            return Ok(PageStep::Done);
        }
        self.seen_any = true;
        let (removed, mut kept) = self.filter.filter(page_posts);
        self.removed = self.removed.saturating_add(removed);
        self.posts.append(&mut kept);
        let over = match self.limit {
            Some(n) => self.posts.len() >= n,
            None => false,
        };
        if over {
            match self.limit {
                Some(n) => {
                    self.posts.truncate(n);
                    assert(self.posts@ =~= (old(self).posts@ + old(self).filter.kept(page_posts@)).take(n as int));
                },
                None => {},
            }
        }
        if over || self.page == PAGE_CAP {
            return Ok(PageStep::Done);
        }
        self.page = self.page + 1;
        Ok(PageStep::Fetch { position: self.position(), wait: true })
    }

    /// Whether every item of the page that has a file is complete.
    pub open spec fn readable(site: ImageBoards, body: Json) -> bool {
        page_items(site, body) is Some && forall|k: int|
            0 <= k < page_items(site, body)->Some_0.1.len() && crate::sites::has_file(
                page_items(site, body)->Some_0.0,
                #[trigger] page_items(site, body)->Some_0.1[k],
            ) ==> crate::sites::complete(page_items(site, body)->Some_0.0, site, page_items(site, body)->Some_0.1[k])
    }

    /// Takes the site's answer for the page just fetched: an answer that
    /// cannot be read fails as invalid and changes nothing; otherwise its
    /// posts are taken as `take_posts` does.
    pub fn take_page(&mut self, body: &Json) -> (r: Result<PageStep, ExtractorError>)
        requires
            old(self).wf(),
        ensures
            !Self::readable(old(self).site_spec(), *body) ==> r == Err::<PageStep, ExtractorError>(
                ExtractorError::InvalidServerResponse,
            ) && *final(self) == *old(self),
            Self::readable(old(self).site_spec(), *body) ==> exists|v: Seq<Post>|
                read_posts(
                    page_items(old(self).site_spec(), *body)->Some_0.0,
                    old(self).site_spec(),
                    page_items(old(self).site_spec(), *body)->Some_0.1,
                    v,
                ) && #[trigger] Self::step_spec(*old(self), v, *final(self), r),
    {
        match map_page(self.site, body) {
            Ok(v) => self.take_posts(v),
            Err(e) => Err(e),
        }
    }

    /// Ends the run: the kept posts as a queue, newest first, and how many
    /// posts the blacklist removed.
    pub fn finish(self) -> (r: (PostQueue, u64))
        ensures
            strictly_descending(r.0.posts_spec()),
            forall|i: int| 0 <= i < r.0.posts_spec().len() ==> self.posts_spec().contains(#[trigger] r.0.posts_spec()[i]),
            forall|i: int| 0 <= i < self.posts_spec().len() ==> crate::post::has_id(r.0.posts_spec(), #[trigger] self.posts_spec()[i].id),
            r.0.tags_spec() == self.tags_spec(),
            r.0.user_blacklist_spec() == self.user_blacklist_spec(),
            r.1 == self.removed_spec(),
    {
        let Extraction { site: _, tags, user_blacklist, filter: _, start: _, limit: _, page: _, seen_any: _, posts, removed } = self;
        (PostQueue::new(posts, tags, user_blacklist), removed)
    }
}

/// The settings of a run on a Gelbooru-based site, before it starts.
#[derive(Debug)]
pub struct GelbooruExtractor {
    active_imageboard: ImageBoards,
    tags: Vec<String>,
}

impl GelbooruExtractor {
    pub closed spec fn imageboard_spec(self) -> ImageBoards {
        self.active_imageboard
    }

    pub closed spec fn tags_spec(self) -> Seq<String> {
        self.tags@
    }

    /// A run for the query `tags`, on Rule34 until another site is set.
    pub fn new(tags: Vec<String>) -> (r: GelbooruExtractor)
        ensures
            r.imageboard_spec() == ImageBoards::Rule34,
            r.tags_spec() == tags@,
    {
        GelbooruExtractor { active_imageboard: ImageBoards::Rule34, tags }
    }

    /// Sets the site to extract posts from.
    pub fn set_imageboard(self, imageboard: ImageBoards) -> (r: GelbooruExtractor)
        ensures
            r.imageboard_spec() == imageboard,
            r.tags_spec() == self.tags_spec(),
    {
        GelbooruExtractor { active_imageboard: imageboard, tags: self.tags }
    }

    /// The site set.
    pub fn imageboard(&self) -> (r: ImageBoards)
        ensures
            r == self.imageboard_spec(),
    {
        self.active_imageboard
    }

    /// Starts the run on the site set (see `Extraction::new`).
    pub fn start(
        self,
        user_blacklist: ahash::AHashSet<String>,
        filter: BlacklistFilter,
        start: u32,
        limit: Option<usize>,
    ) -> (r: Result<Extraction, ExtractorError>)
        ensures
            r is Ok <==> match max_tags_spec(self.imageboard_spec()) {
                Some(m) => self.tags_spec().len() <= m,
                None => true,
            },
            r is Ok ==> r->Ok_0.fresh(self.imageboard_spec(), self.tags_spec(), tag_contents(user_blacklist), filter, start, limit),
    {
        Extraction::new(self.active_imageboard, self.tags, user_blacklist, filter, start, limit)
    }
}

/// The ratings that a run lets through: only safe posts in safe mode, all
/// otherwise.
pub open spec fn ratings_for(safe_mode: bool) -> Seq<crate::rating::Rating> {
    if safe_mode {
        seq![crate::rating::Rating::Safe]
    } else {
        Seq::<crate::rating::Rating>::empty()
    }
}

fn ratings_of(safe_mode: bool) -> (r: Vec<crate::rating::Rating>)
    ensures
        r@ == ratings_for(safe_mode),
{
    let mut v: Vec<crate::rating::Rating> = Vec::new();
    if safe_mode {
        v.push(crate::rating::Rating::Safe);
    }
    assert(v@ =~= ratings_for(safe_mode));
    v
}

/// The settings of a run on Danbooru, before it starts.
#[derive(Debug)]
pub struct DanbooruExtractor {
    tags: Vec<String>,
    safe_mode: bool,
    disable_blacklist: bool,
}

impl DanbooruExtractor {
    pub closed spec fn tags_spec(self) -> Seq<String> {
        self.tags@
    }

    pub closed spec fn safe_mode_spec(self) -> bool {
        self.safe_mode
    }

    pub closed spec fn disable_blacklist_spec(self) -> bool {
        self.disable_blacklist
    }

    /// A run for the query `tags`; in safe mode only safe posts are kept,
    /// and `disable_blacklist` turns the blacklist off.
    pub fn new(tags: Vec<String>, safe_mode: bool, disable_blacklist: bool) -> (r: DanbooruExtractor)
        ensures
            r.tags_spec() == tags@,
            r.safe_mode_spec() == safe_mode,
            r.disable_blacklist_spec() == disable_blacklist,
    {
        DanbooruExtractor { tags, safe_mode, disable_blacklist }
    }

    /// The blacklist of the run: the configuration's tiers for Danbooru and
    /// the user's own tags, and the safe rating alone in safe mode.
    pub fn blacklist_filter(&self, config: &crate::blacklist::GlobalBlacklist, user_tags: &ahash::AHashSet<String>) -> (r: BlacklistFilter)
        ensures
            r.disabled_spec() == self.disable_blacklist_spec(),
            r.blocked_spec() == config.tiers_for(ImageBoards::Danbooru).union(tag_contents(*user_tags)),
            r.ratings_spec() == ratings_for(self.safe_mode_spec()),
            !r.ignore_animated_spec(),
            r.extension_spec() is None,
    {
        BlacklistFilter::new(ImageBoards::Danbooru, config, user_tags, ratings_of(self.safe_mode), self.disable_blacklist, false, None)
    }

    /// Starts the run (see `Extraction::new`).
    pub fn start(
        self,
        user_blacklist: ahash::AHashSet<String>,
        filter: BlacklistFilter,
        start: u32,
        limit: Option<usize>,
    ) -> (r: Result<Extraction, ExtractorError>)
        ensures
            r is Ok <==> self.tags_spec().len() <= 2,
            r is Err ==> r == Err::<Extraction, ExtractorError>(
                ExtractorError::TooManyTags { current: self.tags_spec().len() as usize, max: 2 },
            ),
            r is Ok ==> r->Ok_0.fresh(ImageBoards::Danbooru, self.tags_spec(), tag_contents(user_blacklist), filter, start, limit),
    {
        Extraction::new(ImageBoards::Danbooru, self.tags, user_blacklist, filter, start, limit)
    }
}

/// The settings of a run on a Moebooru site (Konachan), before it starts.
#[derive(Debug)]
pub struct MoebooruExtractor {
    tags: Vec<String>,
    safe_mode: bool,
    disable_blacklist: bool,
    map_videos: bool,
    selected_extension: Option<String>,
}

impl MoebooruExtractor {
    pub closed spec fn tags_spec(self) -> Seq<String> {
        self.tags@
    }

    pub closed spec fn safe_mode_spec(self) -> bool {
        self.safe_mode
    }

    pub closed spec fn disable_blacklist_spec(self) -> bool {
        self.disable_blacklist
    }

    pub closed spec fn map_videos_spec(self) -> bool {
        self.map_videos
    }

    pub closed spec fn extension_spec(self) -> Option<Seq<char>> {
        match self.selected_extension {
            Some(e) => Some(e@),
            None => None,
        }
    }

    /// A run for the query `tags`, with animated files kept and no forced
    /// extension.
    pub fn new(tags: Vec<String>, safe_mode: bool, disable_blacklist: bool) -> (r: MoebooruExtractor)
        ensures
            r.tags_spec() == tags@,
            r.safe_mode_spec() == safe_mode,
            r.disable_blacklist_spec() == disable_blacklist,
            r.map_videos_spec(),
            r.extension_spec() is None,
    {
        MoebooruExtractor { tags, safe_mode, disable_blacklist, map_videos: true, selected_extension: None }
    }

    /// Keeps only posts whose file has this extension.
    pub fn force_extension(&mut self, extension: String)
        ensures
            final(self).extension_spec() == Some(extension@),
            final(self).tags_spec() == old(self).tags_spec(),
            final(self).safe_mode_spec() == old(self).safe_mode_spec(),
            final(self).disable_blacklist_spec() == old(self).disable_blacklist_spec(),
            final(self).map_videos_spec() == old(self).map_videos_spec(),
    {
        self.selected_extension = Some(extension);
    }

    /// Whether animated files are kept.
    pub fn set_map_videos(&mut self, map_videos: bool)
        ensures
            final(self).map_videos_spec() == map_videos,
            final(self).extension_spec() == old(self).extension_spec(),
            final(self).tags_spec() == old(self).tags_spec(),
            final(self).safe_mode_spec() == old(self).safe_mode_spec(),
            final(self).disable_blacklist_spec() == old(self).disable_blacklist_spec(),
    {
        self.map_videos = map_videos;
    }

    /// The blacklist of the run: the configuration's tiers for Konachan and
    /// the user's tags, the safe rating alone in safe mode, animated files
    /// unless they are kept, and the forced extension.
    pub fn blacklist_filter(&self, config: &crate::blacklist::GlobalBlacklist, user_tags: &ahash::AHashSet<String>) -> (r: BlacklistFilter)
        ensures
            r.disabled_spec() == self.disable_blacklist_spec(),
            r.blocked_spec() == config.tiers_for(ImageBoards::Konachan).union(tag_contents(*user_tags)),
            r.ratings_spec() == ratings_for(self.safe_mode_spec()),
            r.ignore_animated_spec() == !self.map_videos_spec(),
            r.extension_spec() == self.extension_spec(),
    {
        let ext = match &self.selected_extension {
            Some(e) => Some(e.clone()),
            None => None,
        };
        BlacklistFilter::new(ImageBoards::Konachan, config, user_tags, ratings_of(self.safe_mode), self.disable_blacklist, !self.map_videos, ext)
    }

    /// Starts the run (see `Extraction::new`).
    pub fn start(
        self,
        user_blacklist: ahash::AHashSet<String>,
        filter: BlacklistFilter,
        start: u32,
        limit: Option<usize>,
    ) -> (r: Result<Extraction, ExtractorError>)
        ensures
            r is Ok,
            r->Ok_0.fresh(ImageBoards::Konachan, self.tags_spec(), tag_contents(user_blacklist), filter, start, limit),
    {
        Extraction::new(ImageBoards::Konachan, self.tags, user_blacklist, filter, start, limit)
    }
}

} // verus!
