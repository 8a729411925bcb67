//! The credential cache and the resume marker: each is a record of plain
//! values, serialised with bincode and compressed with zstd.
use vstd::prelude::*;
use crate::auth::{ImageboardConfig, UserData};
use crate::imageboards::ImageBoards;
use crate::post::Post;
use crate::rating::Rating;
use crate::tags::{empty_tags, insert_tag, tag_contents, tag_list};

verus! {

/// A record as the cached files hold it: a number, three texts, a code and a
/// list of texts.
pub open spec fn record_view(r: (u64, String, String, String, u32, Vec<String>)) -> (u64, Seq<char>, Seq<char>, Seq<char>, u32, Seq<Seq<char>>) {
    (r.0, r.1@, r.2@, r.3@, r.4, r.5@.map_values(|t: String| t@))
}

/// What bincode's serialisation makes of a record; `None` when it reports an
/// error.
pub uninterp spec fn bincode_encoded(rec: (u64, Seq<char>, Seq<char>, Seq<char>, u32, Seq<Seq<char>>)) -> Option<Seq<u8>>;

/// The record that bincode reads from `bytes`; `None` when they hold none.
pub uninterp spec fn bincode_decoded(bytes: Seq<u8>) -> Option<(u64, Seq<char>, Seq<char>, Seq<char>, u32, Seq<Seq<char>>)>;

/// Relies on `bincode::serialize`: the bytes of the record, or `None` when
/// the serialiser reports an error; the outcome depends on the record alone,
/// and deserialising the bytes gives the record back.
#[verifier::external_body]
fn to_bincode(rec: &(u64, String, String, String, u32, Vec<String>)) -> (r: Option<Vec<u8>>)
    ensures
        match r {
            Some(v) => bincode_encoded(record_view(*rec)) == Some(v@) && bincode_decoded(v@) == Some(record_view(*rec)),
            None => bincode_encoded(record_view(*rec)) is None,
        },
{
    bincode::serialize(rec).ok()
}

/// Relies on `bincode::deserialize`: the record that `b` holds, or `None`.
#[verifier::external_body]
fn from_bincode(b: &[u8]) -> (r: Option<(u64, String, String, String, u32, Vec<String>)>)
    ensures
        match r {
            Some(t) => bincode_decoded(b@) == Some(record_view(t)),
            None => bincode_decoded(b@) is None,
        },
{
    bincode::deserialize::<(u64, String, String, String, u32, Vec<String>)>(b).ok()
}

/// `order` lists each tag of `tags` once.
pub open spec fn lists(order: Seq<Seq<char>>, tags: Set<Seq<char>>) -> bool {
    &&& order.no_duplicates()
    &&& forall|t: Seq<char>| tags.contains(t) <==> order.contains(t)
}

proof fn lemma_lists_to_set(order: Seq<Seq<char>>, tags: Set<Seq<char>>)
    requires
        lists(order, tags),
    ensures
        order.to_set() == tags,
{
    assert(order.to_set() =~= tags);
}

proof fn lemma_to_set_push(acc: Seq<Seq<char>>, x: Seq<char>)
    ensures
        acc.push(x).to_set() == acc.to_set().insert(x),
{
    assert forall|y: Seq<char>| #[trigger] acc.push(x).contains(y) <==> (acc.contains(y) || y == x) by {
        if acc.push(x).contains(y) {
            let k = choose|k: int| 0 <= k < acc.len() + 1 && acc.push(x)[k] == y;
            if k < acc.len() {
                assert(acc[k] == y);
            }
        }
        if acc.contains(y) {
            let k = choose|k: int| 0 <= k < acc.len() && acc[k] == y;
            assert(acc.push(x)[k] == y);
        }
        if y == x {
            assert(acc.push(x)[acc.len() as int] == y);
        }
    }
    assert(acc.push(x).to_set() =~= acc.to_set().insert(x));
}

/// The tags of a set, each once, in the order the set gives.
fn tags_in_order(tags: &ahash::AHashSet<String>) -> (r: Vec<String>)
    ensures
        lists(r@.map_values(|t: String| t@), tag_contents(*tags)),
{
    let list = tag_list(tags);
    let ghost order = list@.map_values(|t: String| t@);
    assert(order.no_duplicates()) by {
        assert forall|a: int, b: int| 0 <= a < order.len() && 0 <= b < order.len() && a != b implies order[a] != order[b] by {
            if a < b {
                assert(list@[a]@ != list@[b]@);
            } else {
                assert(list@[b]@ != list@[a]@);
            }
        }
    }
    assert forall|t: Seq<char>| tag_contents(*tags).contains(t) <==> order.contains(t) by {
        if tag_contents(*tags).contains(t) {
            let k = choose|k: int| 0 <= k < list@.len() && list@[k]@ == t;
            assert(order[k] == t);
        }
        if order.contains(t) {
            let k = choose|k: int| 0 <= k < order.len() && order[k] == t;
            assert(list@[k]@ == t);
        }
    }
    list
}

/// The set of the texts of `list`.
fn tags_from_list(list: Vec<String>) -> (r: ahash::AHashSet<String>)
    ensures
        tag_contents(r) == list@.map_values(|t: String| t@).to_set(),
{
    let ghost order = list@.map_values(|t: String| t@);
    let mut set = empty_tags();
    let mut i: usize = 0;
    assert(order.take(0).to_set() =~= Set::<Seq<char>>::empty());
    while i < list.len()
        invariant
            i <= list@.len(),
            order == list@.map_values(|t: String| t@),
            tag_contents(set) == order.take(i as int).to_set(),
        decreases list@.len() - i,
    {
        proof {
            assert(order.take(i + 1) == order.take(i as int).push(order[i as int]));
            lemma_to_set_push(order.take(i as int), order[i as int]);
        }
        insert_tag(&mut set, list[i].clone());
        i = i + 1;
    }
    assert(order.take(list@.len() as int) == order);
    set
}

pub open spec fn site_code(s: ImageBoards) -> u32 {
    match s {
        ImageBoards::Danbooru => 0,
        ImageBoards::E621 => 1,
        ImageBoards::Rule34 => 2,
        ImageBoards::Realbooru => 3,
        ImageBoards::Konachan => 4,
        ImageBoards::Gelbooru => 5,
    }
}

pub open spec fn site_of_code(c: u32) -> Option<ImageBoards> {
    if c == 0 {
        Some(ImageBoards::Danbooru)
    } else if c == 1 {
        Some(ImageBoards::E621)
    } else if c == 2 {
        Some(ImageBoards::Rule34)
    } else if c == 3 {
        Some(ImageBoards::Realbooru)
    } else if c == 4 {
        Some(ImageBoards::Konachan)
    } else if c == 5 {
        Some(ImageBoards::Gelbooru)
    } else {
        None
    }
}

/// The byte that stands for a rating.
pub open spec fn rating_code(r: Rating) -> u32 {
    match r {
        Rating::Safe => 0,
        Rating::Questionable => 1,
        Rating::Explicit => 2,
        Rating::Unknown => 3,
    }
}

pub open spec fn rating_of_code(c: u32) -> Option<Rating> {
    if c == 0 {
        Some(Rating::Safe)
    } else if c == 1 {
        Some(Rating::Questionable)
    } else if c == 2 {
        Some(Rating::Explicit)
    } else if c == 3 {
        Some(Rating::Unknown)
    } else {
        None
    }
}

fn write_site(s: ImageBoards) -> (r: u32)
    ensures
        r == site_code(s),
{
    match s {
        ImageBoards::Danbooru => 0,
        ImageBoards::E621 => 1,
        ImageBoards::Rule34 => 2,
        ImageBoards::Realbooru => 3,
        ImageBoards::Konachan => 4,
        ImageBoards::Gelbooru => 5,
    }
}

fn read_site(c: u32) -> (r: Option<ImageBoards>)
    ensures
        r == site_of_code(c),
{
    if c == 0 {
        Some(ImageBoards::Danbooru)
    } else if c == 1 {
        Some(ImageBoards::E621)
    } else if c == 2 {
        Some(ImageBoards::Rule34)
    } else if c == 3 {
        Some(ImageBoards::Realbooru)
    } else if c == 4 {
        Some(ImageBoards::Konachan)
    } else if c == 5 {
        Some(ImageBoards::Gelbooru)
    } else {
        None
    }
}

fn write_rating(r: Rating) -> (c: u32)
    ensures
        c == rating_code(r),
{
    match r {
        Rating::Safe => 0,
        Rating::Questionable => 1,
        Rating::Explicit => 2,
        Rating::Unknown => 3,
    }
}

fn read_rating(c: u32) -> (r: Option<Rating>)
    ensures
        r == rating_of_code(c),
{
    if c == 0 {
        Some(Rating::Safe)
    } else if c == 1 {
        Some(Rating::Questionable)
    } else if c == 2 {
        Some(Rating::Explicit)
    } else if c == 3 {
        Some(Rating::Unknown)
    } else {
        None
    }
}

/// The record of a post whose tags are listed in the order `order`: id, URL,
/// digest, extension, rating and tags, the order of the post's fields.
pub open spec fn post_record(p: Post, order: Seq<Seq<char>>) -> (u64, Seq<char>, Seq<char>, Seq<char>, u32, Seq<Seq<char>>) {
    (p.id, p.url@, p.md5@, p.extension@, rating_code(p.rating), order)
}

/// The record of credentials whose blacklist is listed in the order `order`:
/// user id, user name, key, profile name, site and blacklist.
pub open spec fn config_record(c: ImageboardConfig, order: Seq<Seq<char>>) -> (u64, Seq<char>, Seq<char>, Seq<char>, u32, Seq<Seq<char>>) {
    (c.user_data.id, c.username@, c.api_key@, c.user_data.name@, site_code(c.imageboard), order)
}

/// Writes a post as bytes; its tags in the order the set gives.
pub fn encode_post(p: &Post) -> (r: Option<Vec<u8>>)
    ensures
        exists|order: Seq<Seq<char>>|
            lists(order, p.tag_set()) && #[trigger] encoded_as(post_record(*p, order), r),
{
    let tags = tags_in_order(&p.tags);
    let rec = (p.id, p.url.clone(), p.md5.clone(), p.extension.clone(), write_rating(p.rating), tags);
    let r = to_bincode(&rec);
    assert(record_view(rec) == post_record(*p, rec.5@.map_values(|t: String| t@)));
    assert(encoded_as(record_view(rec), r));
    r
}

/// What serialising `rec` makes of the result `r`.
pub open spec fn encoded_as(rec: (u64, Seq<char>, Seq<char>, Seq<char>, u32, Seq<Seq<char>>), r: Option<Vec<u8>>) -> bool {
    match r {
        Some(v) => bincode_encoded(rec) == Some(v@) && bincode_decoded(v@) == Some(rec),
        None => bincode_encoded(rec) is None,
    }
}

/// The post that the record `rec` stands for; `None` for an unknown rating.
pub open spec fn post_holds(p: Post, rec: (u64, Seq<char>, Seq<char>, Seq<char>, u32, Seq<Seq<char>>)) -> bool {
    &&& rating_of_code(rec.4) is Some
    &&& p.id == rec.0
    &&& p.url@ == rec.1
    &&& p.md5@ == rec.2
    &&& p.extension@ == rec.3
    &&& p.rating == rating_of_code(rec.4)->Some_0
    &&& p.tag_set() == rec.5.to_set()
}

/// Reads a post back from its bytes.
pub fn decode_post(b: &[u8]) -> (r: Option<Post>)
    ensures
        match bincode_decoded(b@) {
            Some(rec) => match r {
                Some(p) => post_holds(p, rec),
                None => rating_of_code(rec.4) is None,
            },
            None => r is None,
        },
{
    let rec = match from_bincode(b) {
        Some(t) => t,
        None => return None,
    };
    let rating = match read_rating(rec.4) {
        Some(x) => x,
        None => return None,
    };
    let (id, url, md5, extension, _, tags) = rec;
    let tags = tags_from_list(tags);
    Some(Post { id, url, md5, extension, rating, tags })
}

/// Writes credentials as bytes; the blacklist in the order the set gives.
pub fn encode_config(c: &ImageboardConfig) -> (r: Option<Vec<u8>>)
    ensures
        exists|order: Seq<Seq<char>>|
            lists(order, tag_contents(c.user_data.blacklisted_tags)) && #[trigger] encoded_as(config_record(*c, order), r),
{
    let tags = tags_in_order(&c.user_data.blacklisted_tags);
    let rec = (
        c.user_data.id,
        c.username.clone(),
        c.api_key.clone(),
        c.user_data.name.clone(),
        write_site(c.imageboard),
        tags,
    );
    let r = to_bincode(&rec);
    assert(record_view(rec) == config_record(*c, rec.5@.map_values(|t: String| t@)));
    assert(encoded_as(record_view(rec), r));
    r
}

/// The credentials that the record `rec` stands for.
pub open spec fn config_holds(c: ImageboardConfig, rec: (u64, Seq<char>, Seq<char>, Seq<char>, u32, Seq<Seq<char>>)) -> bool {
    &&& site_of_code(rec.4) is Some
    &&& c.user_data.id == rec.0
    &&& c.username@ == rec.1
    &&& c.api_key@ == rec.2
    &&& c.user_data.name@ == rec.3
    &&& c.imageboard == site_of_code(rec.4)->Some_0
    &&& tag_contents(c.user_data.blacklisted_tags) == rec.5.to_set()
}

/// Reads credentials back from their bytes.
pub fn decode_config(b: &[u8]) -> (r: Option<ImageboardConfig>)
    ensures
        match bincode_decoded(b@) {
            Some(rec) => match r {
                Some(c) => config_holds(c, rec),
                None => site_of_code(rec.4) is None,
            },
            None => r is None,
        },
{
    let rec = match from_bincode(b) {
        Some(t) => t,
        None => return None,
    };
    let site = match read_site(rec.4) {
        Some(x) => x,
        None => return None,
    };
    let (id, username, api_key, name, _, tags) = rec;
    let blacklisted_tags = tags_from_list(tags);
    Some(ImageboardConfig { imageboard: site, username, api_key, user_data: UserData { id, name, blacklisted_tags } })
}

/// What compressing `data` at `level` gives: the zstd frame, or `None` when
/// the encoder reports an error.
pub uninterp spec fn zstd_compressed(data: Seq<u8>, level: i32) -> Option<Seq<u8>>;

/// What decompressing `frame` gives; `None` when it is not valid zstd data.
pub uninterp spec fn zstd_content(frame: Seq<u8>) -> Option<Seq<u8>>;

/// The zstd level that cached files are written at.
pub const COMPRESSION_LEVEL: i32 = 9;

/// Relies on `zstd::encode_all`: the compressed frame of `data`, or `None`
/// when the encoder reports an error; the outcome depends on `data` and
/// `level` alone. zstd is lossless: decompressing the frame gives `data`.
#[verifier::external_body]
fn compress(data: &[u8], level: i32) -> (r: Option<Vec<u8>>)
    ensures
        match r {
            Some(v) => zstd_compressed(data@, level) == Some(v@) && zstd_content(v@) == Some(data@),
            None => zstd_compressed(data@, level) is None,
        },
{
    zstd::encode_all(data, level).ok()
}

/// Relies on `zstd::decode_all`: the content of the frames in `data`, or
/// `None` when `data` is not valid zstd data.
#[verifier::external_body]
fn decompress(data: &[u8]) -> (r: Option<Vec<u8>>)
    ensures
        match r {
            Some(v) => zstd_content(data@) == Some(v@),
            None => zstd_content(data@) is None,
        },
{
    zstd::decode_all(data).ok()
}

/// Why a cached file could not be read back.
#[derive(Debug, Copy, Clone, PartialEq, Eq, Structural)]
pub enum CacheFault {
    /// The file is not valid zstd data.
    Compression,
    /// The content does not hold what was written.
    Encoding,
}

/// The kinds of files that a run caches.
#[derive(Debug, Copy, Clone, PartialEq, Eq, Structural)]
pub enum CachedKind {
    Credentials,
    ResumeMarker,
}

impl CacheFault {
    /// Whether a file of `kind` that failed this way is deleted, so that a
    /// later run writes it anew: a credential cache only when it cannot be
    /// decompressed, a resume marker on any failure.
    pub fn removes_file(self, kind: CachedKind) -> (r: bool)
        ensures
            r == (kind is ResumeMarker || self is Compression),
    {
        match kind {
            CachedKind::ResumeMarker => true,
            CachedKind::Credentials => self == CacheFault::Compression,
        }
    }
}

/// What serialising then compressing `rec` makes of the result `r`: the
/// frame when both succeed, which decompresses to bytes that read back as
/// `rec`.
pub open spec fn packed_as(rec: (u64, Seq<char>, Seq<char>, Seq<char>, u32, Seq<Seq<char>>), r: Option<Vec<u8>>) -> bool {
    match bincode_encoded(rec) {
        None => r is None,
        Some(raw) => {
            &&& bincode_decoded(raw) == Some(rec)
            &&& match zstd_compressed(raw, COMPRESSION_LEVEL) {
                None => r is None,
                Some(z) => r is Some && r->Some_0@ == z && zstd_content(z) == Some(raw),
            }
        },
    }
}

fn pack_record(rec_bytes: Option<Vec<u8>>) -> (r: Option<Vec<u8>>)
    ensures
        forall|rec: (u64, Seq<char>, Seq<char>, Seq<char>, u32, Seq<Seq<char>>)|
            #[trigger] encoded_as(rec, rec_bytes) ==> packed_as(rec, r),
{
    match rec_bytes {
        Some(raw) => compress(raw.as_slice(), COMPRESSION_LEVEL),
        None => None,
    }
}

/// The resume marker's content: the post's bytes, compressed; `None` when
/// the serialiser or the compressor fails.
pub fn pack_marker(p: &Post) -> (r: Option<Vec<u8>>)
    ensures
        exists|order: Seq<Seq<char>>| lists(order, p.tag_set()) && #[trigger] packed_as(post_record(*p, order), r),
{
    let raw = encode_post(p);
    let ghost order = choose|order: Seq<Seq<char>>| lists(order, p.tag_set()) && #[trigger] encoded_as(post_record(*p, order), raw);
    let r = pack_record(raw);
    assert(packed_as(post_record(*p, order), r));
    r
}

/// The credential cache's content: the credentials' bytes, compressed;
/// `None` when the serialiser or the compressor fails.
pub fn pack_config(c: &ImageboardConfig) -> (r: Option<Vec<u8>>)
    ensures
        exists|order: Seq<Seq<char>>|
            lists(order, tag_contents(c.user_data.blacklisted_tags)) && #[trigger] packed_as(config_record(*c, order), r),
{
    let raw = encode_config(c);
    let ghost order = choose|order: Seq<Seq<char>>|
        lists(order, tag_contents(c.user_data.blacklisted_tags)) && #[trigger] encoded_as(config_record(*c, order), raw);
    let r = pack_record(raw);
    assert(packed_as(config_record(*c, order), r));
    r
}

/// Reads the marked post back from the resume marker's content.
pub fn unpack_marker(b: &[u8]) -> (r: Result<Post, CacheFault>)
    ensures
        match zstd_content(b@) {
            None => r == Err::<Post, CacheFault>(CacheFault::Compression),
            Some(raw) => match bincode_decoded(raw) {
                Some(rec) if rating_of_code(rec.4) is Some => r is Ok && post_holds(r->Ok_0, rec),
                _ => r is Err && r->Err_0 == CacheFault::Encoding,
            },
        },
{
    let raw = match decompress(b) {
        Some(v) => v,
        None => return Err(CacheFault::Compression),
    };
    match decode_post(raw.as_slice()) {
        Some(p) => Ok(p),
        None => Err(CacheFault::Encoding),
    }
}

/// Reads credentials back from the credential cache's content.
pub fn unpack_config(b: &[u8]) -> (r: Result<ImageboardConfig, CacheFault>)
    ensures
        match zstd_content(b@) {
            None => r == Err::<ImageboardConfig, CacheFault>(CacheFault::Compression),
            Some(raw) => match bincode_decoded(raw) {
                Some(rec) if site_of_code(rec.4) is Some => r is Ok && config_holds(r->Ok_0, rec),
                _ => r == Err::<ImageboardConfig, CacheFault>(CacheFault::Encoding),
            },
        },
{
    let raw = match decompress(b) {
        Some(v) => v,
        None => return Err(CacheFault::Compression),
    };
    match decode_config(raw.as_slice()) {
        Some(c) => Ok(c),
        None => Err(CacheFault::Encoding),
    }
}

proof fn lemma_codes()
    ensures
        forall|r: Rating| #[trigger] rating_of_code(rating_code(r)) == Some(r),
        forall|s: ImageBoards| #[trigger] site_of_code(site_code(s)) == Some(s),
{
}

/// A resume marker that was packed reads back as the same post: the same
/// id, URL, digest, extension, rating and tags.
pub proof fn lemma_marker_file_round_trip(p: Post, order: Seq<Seq<char>>, v: Vec<u8>)
    requires
        lists(order, p.tag_set()),
        packed_as(post_record(p, order), Some(v)),
    ensures
        zstd_content(v@) is Some,
        bincode_decoded(zstd_content(v@)->Some_0) == Some(post_record(p, order)),
        forall|q: Post| post_holds(q, post_record(p, order)) ==> q.id == p.id && q.url@ == p.url@ && q.md5@ == p.md5@
            && q.extension@ == p.extension@ && q.rating == p.rating && q.tag_set() == p.tag_set(),
        rating_of_code(post_record(p, order).4) is Some,
{
    lemma_codes();
    lemma_lists_to_set(order, p.tag_set());
}

/// A credential cache that was packed reads back as the same credentials:
/// the same site, user, key, profile and blacklist.
pub proof fn lemma_config_file_round_trip(c: ImageboardConfig, order: Seq<Seq<char>>, v: Vec<u8>)
    requires
        lists(order, tag_contents(c.user_data.blacklisted_tags)),
        packed_as(config_record(c, order), Some(v)),
    ensures
        zstd_content(v@) is Some,
        bincode_decoded(zstd_content(v@)->Some_0) == Some(config_record(c, order)),
        forall|d: ImageboardConfig| config_holds(d, config_record(c, order)) ==> d.imageboard == c.imageboard
            && d.username@ == c.username@ && d.api_key@ == c.api_key@ && d.user_data.id == c.user_data.id
            && d.user_data.name@ == c.user_data.name@ && tag_contents(d.user_data.blacklisted_tags) == tag_contents(
            c.user_data.blacklisted_tags,
        ),
        site_of_code(config_record(c, order).4) is Some,
{
    lemma_codes();
    lemma_lists_to_set(order, tag_contents(c.user_data.blacklisted_tags));
}

} // verus!
