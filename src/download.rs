//! The decisions of the download stage: file and entry names, what to do
//! with a file already on disk, how a response and an outcome count, the
//! layout of an archive, and the queue that feeds the downloads.
use vstd::prelude::*;
use vstd::string::StringExecFns;
use crate::blacklist::{BlacklistFilter, GlobalBlacklist};
use crate::imageboards::ImageBoards;
use crate::post::{strictly_descending, Post, PostQueue};
use crate::rating::same_text;
use crate::text::{decimal, hex_of, to_decimal, to_hex};

verus! {

/// The MD5 digest of a byte string.
pub uninterp spec fn md5_of(data: Seq<u8>) -> Seq<u8>;

/// Relies on `md5::compute`: the sixteen bytes of the digest of `data`.
#[verifier::external_body]
fn md5_digest(data: &[u8]) -> (r: Vec<u8>)
    ensures
        r@ == md5_of(data@),
        r@.len() == 16,
{
    md5::compute(data).0.to_vec()
}

/// The lower-case hex MD5 digest of `data`, as sites give it.
pub fn md5_hex(data: &[u8]) -> (r: String)
    ensures
        r@ == hex_of(md5_of(data@)),
{
    to_hex(&md5_digest(data))
}

/// The name of a post's file: its id or its digest, then its extension.
pub open spec fn file_name_spec(p: Post, by_id: bool) -> Seq<char> {
    (if by_id { decimal(p.id as nat) } else { p.md5@ }) + "."@ + p.extension@
}

/// The name of a post's file: its id or its digest, then its extension.
pub fn file_name(p: &Post, by_id: bool) -> (r: String)
    ensures
        r@ == file_name_spec(*p, by_id),
{
    let name = if by_id {
        to_decimal(p.id)
    } else {
        p.md5.clone()
    };
    name.concat(".").concat(p.extension.as_str())
}

/// The name of a post's entry in an archive: under its rating's directory,
/// its digest and extension.
pub open spec fn entry_name_spec(p: Post) -> Seq<char> {
    p.rating.name_spec() + "/"@ + p.md5@ + "."@ + p.extension@
}

/// The name of a post's entry in an archive.
pub fn entry_name(p: &Post) -> (r: String)
    ensures
        r@ == entry_name_spec(*p),
{
    p.rating.to_string().concat("/").concat(p.md5.as_str()).concat(".").concat(p.extension.as_str())
}

/// What to do about the destination of a post.
#[derive(Debug, Copy, Clone, PartialEq, Eq, Structural)]
pub enum FileCheck {
    /// Nothing is there: fetch.
    Absent,
    /// The file there has the post's digest: nothing to fetch.
    Present,
    /// The file there has another digest: delete it, then fetch.
    Stale,
}

/// The decision for a destination whose file has digest `found`, if any.
pub open spec fn check_spec(expected: Seq<char>, found: Option<Seq<char>>) -> FileCheck {
    match found {
        None => FileCheck::Absent,
        Some(h) => if h == expected {
            FileCheck::Present
        } else {
            FileCheck::Stale
        },
    }
}

/// Decides from the digest of the file already at the destination, if any.
pub fn check_digest(p: &Post, found: Option<&str>) -> (r: FileCheck)
    ensures
        r == check_spec(p.md5@, match found {
            Some(h) => Some(h@),
            None => None,
        }),
{
    match found {
        None => FileCheck::Absent,
        Some(h) => if same_text(h, p.md5.as_str()) {
            FileCheck::Present
        } else {
            FileCheck::Stale
        },
    }
}

/// Decides from the contents of the file already at the destination, if any.
pub fn check_existing(p: &Post, existing: Option<&[u8]>) -> (r: FileCheck)
    ensures
        r == check_spec(p.md5@, match existing {
            Some(d) => Some(hex_of(md5_of(d@))),
            None => None,
        }),
{
    match existing {
        None => FileCheck::Absent,
        Some(d) => {
            let h = md5_hex(d);
            check_digest(p, Some(h.as_str()))
        },
    }
}

/// Whether a response status is of the client-error class.
pub open spec fn client_error_spec(status: u16) -> bool {
    400 <= status <= 499
}

/// Whether a response status is of the client-error class, which skips the
/// post without failing the run.
pub fn is_client_error(status: u16) -> (r: bool)
    ensures
        r == client_error_spec(status),
{
    400 <= status && status <= 499
}

/// How the work on one post ended.
#[derive(Debug, Copy, Clone, PartialEq, Eq, Structural)]
pub enum Outcome {
    /// The file was there already, with the right digest.
    AlreadyPresent,
    /// The file was fetched and stored.
    Downloaded,
    /// The site answered with a client error.
    Skipped,
    /// Fetching or storing failed.
    Failed,
}

/// The next thing to do for a post.
#[derive(Debug, Copy, Clone, PartialEq, Eq, Structural)]
pub enum TaskAction {
    /// The work on the post is over.
    Finish(Outcome),
    /// Fetch the file, deleting the one at the destination first when asked.
    Fetch { delete_first: bool },
}

/// What follows the check of a destination: a present file ends the work
/// without a fetch; a stale one is deleted before the fetch.
pub open spec fn after_check_spec(c: FileCheck) -> TaskAction {
    match c {
        FileCheck::Present => TaskAction::Finish(Outcome::AlreadyPresent),
        FileCheck::Stale => TaskAction::Fetch { delete_first: true },
        FileCheck::Absent => TaskAction::Fetch { delete_first: false },
    }
}

/// What follows the check of a destination.
pub fn after_check(c: FileCheck) -> (r: TaskAction)
    ensures
        r == after_check_spec(c),
{
    match c {
        FileCheck::Present => TaskAction::Finish(Outcome::AlreadyPresent),
        FileCheck::Stale => TaskAction::Fetch { delete_first: true },
        FileCheck::Absent => TaskAction::Fetch { delete_first: false },
    }
}

/// What follows the response to a fetch: a client error ends the work on the
/// post as skipped; otherwise the body is stored (`None`).
pub fn after_response(status: u16) -> (r: Option<Outcome>)
    ensures
        client_error_spec(status) <==> r == Some(Outcome::Skipped),
        !client_error_spec(status) <==> r is None,
{
    if is_client_error(status) {
        Some(Outcome::Skipped)
    } else {
        None
    }
}

/// How the work ends once the body was stored, or failed to be.
pub fn after_store(stored: bool) -> (r: Outcome)
    ensures
        stored ==> r == Outcome::Downloaded,
        !stored ==> r == Outcome::Failed,
{
    if stored {
        Outcome::Downloaded
    } else {
        Outcome::Failed
    }
}

/// Whether the action fetches the file.
pub open spec fn needs_fetch(a: TaskAction) -> bool {
    a is Fetch
}

/// The counters of a run.
#[derive(Debug, Copy, Clone, PartialEq, Eq, Structural)]
pub struct RunCounters {
    /// The number of posts to work on.
    pub total: u64,
    /// Posts whose work ended, however it ended.
    pub processed: u64,
    /// Posts fetched and stored.
    pub downloaded: u64,
    /// Posts whose file was there already.
    pub already_present: u64,
    /// Posts skipped or failed.
    pub failed: u64,
}

impl RunCounters {
    pub open spec fn wf(self) -> bool {
        &&& self.processed <= self.total
        &&& self.downloaded + self.already_present + self.failed == self.processed
    }

    /// The counters once `o` is recorded.
    pub open spec fn record_spec(self, o: Outcome) -> RunCounters {
        RunCounters {
            processed: (self.processed + 1) as u64,
            downloaded: if o is Downloaded { (self.downloaded + 1) as u64 } else { self.downloaded },
            already_present: if o is AlreadyPresent { (self.already_present + 1) as u64 } else { self.already_present },
            failed: if o is Skipped || o is Failed { (self.failed + 1) as u64 } else { self.failed },
            ..self
        }
    }

    /// Counters for a run of `total` posts.
    pub fn new(total: u64) -> (r: RunCounters)
        ensures
            r.wf(),
            r == (RunCounters { total, processed: 0, downloaded: 0, already_present: 0, failed: 0 }),
    {
        RunCounters { total, processed: 0, downloaded: 0, already_present: 0, failed: 0 }
    }

    /// Records how the work on one more post ended.
    pub fn record(&mut self, o: Outcome)
        requires
            old(self).wf(),
            old(self).processed < old(self).total,
        ensures
            final(self).wf(),
            *final(self) == old(self).record_spec(o),
    {
        self.processed = self.processed + 1;
        match o {
            Outcome::Downloaded => self.downloaded = self.downloaded + 1,
            Outcome::AlreadyPresent => self.already_present = self.already_present + 1,
            Outcome::Skipped | Outcome::Failed => self.failed = self.failed + 1,
        }
    }
}

/// A destination that holds a file with the post's digest is not fetched; the
/// post counts as present, and the downloaded count stays as it was.
pub proof fn lemma_present_file_not_fetched(p: Post, found: Seq<char>, c: RunCounters)
    requires
        found == p.md5@,
        c.wf(),
        c.processed < c.total,
    ensures
        check_spec(p.md5@, Some(found)) == FileCheck::Present,
        !needs_fetch(after_check_spec(check_spec(p.md5@, Some(found)))),
        after_check_spec(check_spec(p.md5@, Some(found))) == TaskAction::Finish(Outcome::AlreadyPresent),
        c.record_spec(Outcome::AlreadyPresent).already_present == c.already_present + 1,
        c.record_spec(Outcome::AlreadyPresent).downloaded == c.downloaded,
        c.record_spec(Outcome::AlreadyPresent).wf(),
{
}

/// A post whose source answers with a client error is processed and not
/// downloaded.
pub proof fn lemma_client_error_skipped(status: u16, c: RunCounters)
    requires
        client_error_spec(status),
        c.wf(),
        c.processed < c.total,
    ensures
        c.record_spec(Outcome::Skipped).processed == c.processed + 1,
        c.record_spec(Outcome::Skipped).downloaded == c.downloaded,
        c.record_spec(Outcome::Skipped).wf(),
{
}

/// The name of the archive's manifest entry, which lists every post.
pub const MANIFEST_NAME: &'static str = "00_summary.json";

/// The extension of an archive.
pub const ARCHIVE_EXTENSION: &'static str = "cbz";

/// `parts` joined with `sep` between each two.
pub open spec fn joined(parts: Seq<Seq<char>>, sep: Seq<char>) -> Seq<char>
    decreases parts.len(),
{
    if parts.len() == 0 {
        Seq::<char>::empty()
    } else if parts.len() == 1 {
        parts[0]
    } else {
        joined(parts.drop_last(), sep) + sep + parts.last()
    }
}

/// The tags of a query joined with spaces, as they name its directory.
pub fn tag_query(tags: &Vec<String>) -> (r: String)
    ensures
        r@ == joined(tags@.map_values(|t: String| t@), " "@),
{
    let ghost parts = tags@.map_values(|t: String| t@);
    let mut s = String::new();
    let mut i: usize = 0;
    while i < tags.len()
        invariant
            i <= tags@.len(),
            parts == tags@.map_values(|t: String| t@),
            s@ == joined(parts.take(i as int), " "@),
        decreases tags@.len() - i,
    {
        proof {
            assert(parts.take(i + 1).drop_last() == parts.take(i as int));
            assert(parts.take(i + 1).last() == tags@[i as int]@);
        }
        if i == 0 {
            s = tags[i].clone();
            assert(parts.take(1) == seq![tags@[0]@]);
        } else {
            s = s.concat(" ").concat(tags[i].as_str());
        }
        i = i + 1;
    }
    assert(parts.take(tags@.len() as int) == parts);
    s
}

/// The directory of a run's files, under the output directory: the site,
/// then the query.
pub fn run_directory(site: ImageBoards, query: &str) -> (r: String)
    ensures
        r@ == site.name_spec() + "/"@ + query@,
{
    site.to_string().concat("/").concat(query)
}

/// The name of a run's archive, inside the site's directory.
pub fn archive_file_name(query: &str) -> (r: String)
    ensures
        r@ == query@ + "."@ + ARCHIVE_EXTENSION@,
{
    String::from_str(query).concat(".").concat(ARCHIVE_EXTENSION)
}

/// The comment that closes an archive.
pub open spec fn comment_spec(site: ImageBoards, query: Seq<char>, count: u64) -> Seq<char> {
    "ImageBoard Downloader\n\nWebsite: "@ + site.name_spec() + "\n\nTags: "@ + query + "\n\nPosts: "@ + decimal(count as nat)
}

/// The comment that closes an archive: the site, the query and how many posts
/// the run held.
pub fn archive_comment(site: ImageBoards, query: &str, count: u64) -> (r: String)
    ensures
        r@ == comment_spec(site, query@, count),
{
    let s = String::from_str("ImageBoard Downloader\n\nWebsite: ");
    let s = s.concat(site.to_string().as_str()).concat("\n\nTags: ").concat(query).concat("\n\nPosts: ");
    s.concat(to_decimal(count).as_str())
}

/// The entries of an archive as they are written: the manifest first, then
/// one entry for each post stored, then the closing comment.
#[derive(Debug)]
pub struct ArchivePlan {
    entries: Vec<String>,
    comment: Option<String>,
    run_posts: u64,
}

impl ArchivePlan {
    pub closed spec fn entries_spec(self) -> Seq<Seq<char>> {
        self.entries@.map_values(|e: String| e@)
    }

    pub closed spec fn comment_spec(self) -> Option<Seq<char>> {
        match self.comment {
            Some(c) => Some(c@),
            None => None,
        }
    }

    /// The number of posts of the run, which the manifest lists.
    pub closed spec fn run_posts_spec(self) -> u64 {
        self.run_posts
    }

    /// An archive for a run of `posts`: it holds the manifest entry, which
    /// lists them.
    pub fn begin(posts: &Vec<Post>) -> (r: (ArchivePlan, String))
        ensures
            r.0.entries_spec() == seq![MANIFEST_NAME@],
            r.0.comment_spec() is None,
            r.0.run_posts_spec() == posts@.len(),
            r.1@ == MANIFEST_NAME@,
    {
        let name = String::from_str(MANIFEST_NAME);
        let entries = vec![name.clone()];
        let r = ArchivePlan { entries, comment: None, run_posts: posts.len() as u64 };
        assert(r.entries_spec() =~= seq![MANIFEST_NAME@]);
        (r, name)
    }

    /// Adds the entry of a stored post; gives its name.
    pub fn add_post(&mut self, p: &Post) -> (r: String)
        requires
            old(self).comment_spec() is None,
        ensures
            r@ == entry_name_spec(*p),
            final(self).entries_spec() == old(self).entries_spec().push(entry_name_spec(*p)),
            final(self).comment_spec() is None,
            final(self).run_posts_spec() == old(self).run_posts_spec(),
    {
        let name = entry_name(p);
        self.entries.push(name.clone());
        assert(self.entries_spec() =~= old(self).entries_spec().push(entry_name_spec(*p)));
        name
    }

    /// The number of post entries: every entry after the manifest.
    pub open spec fn post_count_spec(self) -> nat {
        if self.entries_spec().len() >= 1 {
            (self.entries_spec().len() - 1) as nat
        } else {
            0
        }
    }

    /// Closes the archive with its comment, which counts the posts of the
    /// run; gives the comment.
    pub fn finish(&mut self, site: ImageBoards, query: &str) -> (r: String)
        requires
            old(self).comment_spec() is None,
        ensures
            r@ == comment_spec(site, query@, old(self).run_posts_spec()),
            final(self).entries_spec() == old(self).entries_spec(),
            final(self).run_posts_spec() == old(self).run_posts_spec(),
            final(self).comment_spec() == Some(comment_spec(site, query@, old(self).run_posts_spec())),
    {
        let c = archive_comment(site, query, self.run_posts);
        self.comment = Some(c.clone());
        c
    }

    /// The number of posts of the run.
    pub fn run_posts(&self) -> (r: u64)
        ensures
            r == self.run_posts_spec(),
    {
        self.run_posts
    }

    /// The entry names, in order.
    pub fn entries(&self) -> (r: &Vec<String>)
        ensures
            r@.map_values(|e: String| e@) == self.entries_spec(),
    {
        &self.entries
    }

    /// The closing comment, once written.
    pub fn comment(&self) -> (r: Option<&String>)
        ensures
            match r {
                Some(c) => self.comment_spec() == Some(c@),
                None => self.comment_spec() is None,
            },
    {
        match &self.comment {
            Some(c) => Some(c),
            None => None,
        }
    }
}

/// The posts of a run on their way to the downloads.
#[derive(Debug)]
pub struct Queue {
    list: Vec<Post>,
    tag_s: String,
    imageboard: ImageBoards,
    sim_downloads: usize,
    limit: Option<usize>,
    cbz: bool,
    user_blacklist: ahash::AHashSet<String>,
}

impl Queue {
    pub closed spec fn list_spec(self) -> Seq<Post> {
        self.list@
    }

    pub closed spec fn query_spec(self) -> Seq<char> {
        self.tag_s@
    }

    pub closed spec fn site_spec(self) -> ImageBoards {
        self.imageboard
    }

    pub closed spec fn sim_downloads_spec(self) -> usize {
        self.sim_downloads
    }

    pub closed spec fn limit_spec(self) -> Option<usize> {
        self.limit
    }

    pub closed spec fn cbz_spec(self) -> bool {
        self.cbz
    }

    pub closed spec fn user_blacklist_spec(self) -> Set<Seq<char>> {
        crate::tags::tag_contents(self.user_blacklist)
    }

    /// Sets up the queue of a run on `imageboard`, with at most
    /// `sim_downloads` downloads at a time, up to `limit` posts, and into one
    /// archive when `save_as_cbz` is set.
    pub fn new(imageboard: ImageBoards, posts: PostQueue, sim_downloads: usize, limit: Option<usize>, save_as_cbz: bool) -> (r: Queue)
        requires
            sim_downloads >= 1,
        ensures
            r.list_spec() == posts.posts_spec(),
            r.query_spec() == joined(posts.tags_spec().map_values(|t: String| t@), " "@),
            r.site_spec() == imageboard,
            r.sim_downloads_spec() == sim_downloads,
            r.limit_spec() == limit,
            r.cbz_spec() == save_as_cbz,
            r.user_blacklist_spec() == posts.user_blacklist_spec(),
    {
        let (list, tags, user_blacklist) = posts.into_parts();
        let tag_s = tag_query(&tags);
        Queue { list, tag_s, imageboard, sim_downloads, limit, cbz: save_as_cbz, user_blacklist }
    }

    /// Removes the posts that the user's blacklist and the configuration's
    /// tiers for the site exclude, unless `disable` is set; gives how many
    /// were removed.
    pub fn blacklist_filter(&mut self, disable: bool, config: &GlobalBlacklist) -> (r: u64)
        ensures
            final(self).list_spec() == BlacklistFilter::kept_by(
                config.tiers_for(old(self).site_spec()).union(old(self).user_blacklist_spec()),
                disable,
                old(self).list_spec(),
            ),
            r + final(self).list_spec().len() == old(self).list_spec().len(),
            disable ==> r == 0 && final(self).list_spec() == old(self).list_spec(),
            final(self).query_spec() == old(self).query_spec(),
            final(self).site_spec() == old(self).site_spec(),
            final(self).sim_downloads_spec() == old(self).sim_downloads_spec(),
            final(self).limit_spec() == old(self).limit_spec(),
            final(self).cbz_spec() == old(self).cbz_spec(),
            final(self).user_blacklist_spec() == old(self).user_blacklist_spec(),
    {
        let filter = BlacklistFilter::new(self.imageboard, config, &self.user_blacklist, Vec::new(), disable, false, None);
        let mut list: Vec<Post> = Vec::new();
        core::mem::swap(&mut list, &mut self.list);
        let (removed, kept) = filter.filter(list);
        proof {
            BlacklistFilter::lemma_kept_by(filter, old(self).list_spec());
        }
        self.list = kept;
        removed
    }

    /// Keeps at most `limit` posts, the first ones.
    pub fn apply_limit(&mut self)
        ensures
            final(self).list_spec() == match old(self).limit_spec() {
                Some(n) => if n < old(self).list_spec().len() {
                    old(self).list_spec().take(n as int)
                } else {
                    old(self).list_spec()
                },
                None => old(self).list_spec(),
            },
            final(self).query_spec() == old(self).query_spec(),
            final(self).site_spec() == old(self).site_spec(),
            final(self).sim_downloads_spec() == old(self).sim_downloads_spec(),
            final(self).limit_spec() == old(self).limit_spec(),
            final(self).cbz_spec() == old(self).cbz_spec(),
            final(self).user_blacklist_spec() == old(self).user_blacklist_spec(),
    {
        match self.limit {
            Some(n) => if n < self.list.len() {
                self.list.truncate(n);
                assert(self.list@ =~= old(self).list_spec().take(n as int));
            },
            None => {},
        }
    }

    /// The posts left to download.
    pub fn posts(&self) -> (r: &Vec<Post>)
        ensures
            r@ == self.list_spec(),
    {
        &self.list
    }

    /// The query's tags joined with spaces.
    pub fn query(&self) -> (r: &String)
        ensures
            r@ == self.query_spec(),
    {
        &self.tag_s
    }

    pub fn imageboard(&self) -> (r: ImageBoards)
        ensures
            r == self.site_spec(),
    {
        self.imageboard
    }

    /// The most downloads at a time.
    pub fn sim_downloads(&self) -> (r: usize)
        ensures
            r == self.sim_downloads_spec(),
    {
        self.sim_downloads
    }

    pub fn limit(&self) -> (r: Option<usize>)
        ensures
            r == self.limit_spec(),
    {
        self.limit
    }

    /// Whether the run writes one archive.
    pub fn cbz(&self) -> (r: bool)
        ensures
            r == self.cbz_spec(),
    {
        self.cbz
    }
}

} // verus!
