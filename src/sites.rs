//! Reading a page of a site's answer into posts. Each site lays its items out
//! in its own way; an item without a direct file is skipped, and an item that
//! lacks another field the post needs makes the whole page invalid.
use vstd::prelude::*;
use vstd::string::StringExecFns;
use crate::error::ExtractorError;
use crate::imageboards::ImageBoards;
use crate::json::Json;
use crate::post::Post;
use crate::rating::{same_text, Rating};
use crate::tags::{empty_tags, insert_tag, tag_contents};
use crate::text::{extension_from_url, extension_of, space_pieces, split_on_spaces};

verus! {

broadcast use vstd::prelude::Seq::lemma_filter_push;

/// How the items of a page are laid out.
#[derive(Debug, Copy, Clone, PartialEq, Eq, Structural)]
pub enum ItemForm {
    /// Danbooru: `file_url`, `md5`, `file_ext`, `tag_string`, `rating`.
    Danbooru,
    /// The bare array of Gelbooru-based sites: `hash`, `image`, `tags`,
    /// `rating`, and `file_url` on Rule34 or `directory` elsewhere.
    GelbooruList,
    /// Moebooru, and the `post` array of Gelbooru: `file_url`, `md5`, `tags`,
    /// `rating`.
    FileUrl,
    /// e621: a `file` object with `url`, `md5` and `ext`, a `tags` object of
    /// tag lists by category, `rating`.
    E621,
}

/// The member of an item that holds its direct file.
pub open spec fn file_key(form: ItemForm) -> Seq<char> {
    match form {
        ItemForm::Danbooru => "file_url"@,
        ItemForm::GelbooruList => "hash"@,
        ItemForm::FileUrl => "file_url"@,
        ItemForm::E621 => "url"@,
    }
}

/// The object that holds the item's file: the `file` member on e621, the
/// item itself elsewhere.
pub open spec fn file_holder(form: ItemForm, item: Json) -> Json {
    if form is E621 {
        match item.field("file"@) {
            Some(f) => f,
            None => Json::Null,
        }
    } else {
        item
    }
}

/// Whether an item has a direct file; items without one are skipped.
pub open spec fn has_file(form: ItemForm, item: Json) -> bool {
    file_holder(form, item).str_field(file_key(form)) is Some
}

/// The items of an array; nothing for another value.
pub open spec fn items_of(x: Json) -> Seq<Json> {
    match x {
        Json::Array(v) => v@,
        _ => Seq::<Json>::empty(),
    }
}

/// The text of a string; nothing for another value.
pub open spec fn text_of(x: Json) -> Seq<char> {
    match x {
        Json::Str(s) => s@,
        _ => Seq::<char>::empty(),
    }
}

/// Whether a value is an array of strings.
pub open spec fn str_array(x: Json) -> bool {
    x is Array && forall|j: int| 0 <= j < items_of(x).len() ==> #[trigger] items_of(x)[j] is Str
}

/// The texts in the lists of members before `k`, and in the first `j` items
/// of member `k`.
pub open spec fn seen_tags(fs: Seq<crate::json::JsonField>, k: int, j: int) -> Set<Seq<char>> {
    Set::new(
        |w: Seq<char>|
            exists|a: int, b: int|
                0 <= a <= k && a < fs.len() && 0 <= b < items_of(fs[a].value).len() && (a < k || b < j) && #[trigger] text_of(
                    items_of(fs[a].value)[b],
                ) == w,
    )
}

/// The tags of e621's `tags` object, the union of its lists; `None` unless
/// it is an object of lists of strings.
pub open spec fn category_tags(t: Json) -> Option<Set<Seq<char>>> {
    match t {
        Json::Object(fs) => if forall|k: int| 0 <= k < fs@.len() ==> str_array(#[trigger] fs@[k].value) {
            Some(seen_tags(fs@, fs@.len() as int, 0))
        } else {
            None
        },
        _ => None,
    }
}

pub open spec fn with_file(form: ItemForm) -> spec_fn(Json) -> bool {
    |item: Json| has_file(form, item)
}

/// Danbooru's `s` means sensitive, which is read as questionable.
pub open spec fn danbooru_rating(s: Seq<char>) -> Rating {
    if s == "s"@ {
        Rating::Questionable
    } else {
        Rating::from_spec(s)
    }
}

/// Whether the item holds every member that its post needs.
pub open spec fn complete(form: ItemForm, site: ImageBoards, item: Json) -> bool {
    &&& item.u64_field("id"@) is Some
    &&& item.str_field("rating"@) is Some
    &&& match form {
        ItemForm::Danbooru => {
            &&& item.str_field("md5"@) is Some
            &&& item.str_field("file_ext"@) is Some
            &&& item.str_field("tag_string"@) is Some
        },
        ItemForm::GelbooruList => {
            &&& item.str_field("tags"@) is Some
            &&& item.str_field("image"@) is Some
            &&& if site is Rule34 {
                item.str_field("file_url"@) is Some
            } else {
                item.str_field("directory"@) is Some
            }
        },
        ItemForm::FileUrl => {
            &&& item.str_field("md5"@) is Some
            &&& item.str_field("tags"@) is Some
        },
        ItemForm::E621 => {
            &&& file_holder(form, item).str_field("md5"@) is Some
            &&& file_holder(form, item).str_field("ext"@) is Some
            &&& item.field("tags"@) is Some
            &&& category_tags(item.field("tags"@)->Some_0) is Some
        },
    }
}

/// Where Realbooru keeps a file.
pub open spec fn realbooru_url(directory: Seq<char>, md5: Seq<char>, ext: Seq<char>) -> Seq<char> {
    "https://realbooru.com/images/"@ + directory + "/"@ + md5 + "."@ + ext
}

/// The post that a complete item with a file is read into.
pub open spec fn maps_to(form: ItemForm, site: ImageBoards, item: Json, p: Post) -> bool {
    &&& p.id == item.u64_field("id"@)->Some_0
    &&& match form {
        ItemForm::Danbooru => {
            &&& p.url@ == item.str_field("file_url"@)->Some_0
            &&& p.md5@ == item.str_field("md5"@)->Some_0
            &&& p.extension@ == item.str_field("file_ext"@)->Some_0
            &&& p.rating == danbooru_rating(item.str_field("rating"@)->Some_0)
            &&& p.tag_set() == space_pieces(item.str_field("tag_string"@)->Some_0)
        },
        ItemForm::GelbooruList => {
            &&& p.md5@ == item.str_field("hash"@)->Some_0
            &&& p.extension@ == extension_of(item.str_field("image"@)->Some_0)
            &&& p.url@ == if site is Rule34 {
                item.str_field("file_url"@)->Some_0
            } else {
                realbooru_url(
                    item.str_field("directory"@)->Some_0,
                    p.md5@,
                    p.extension@,
                )
            }
            &&& p.rating == Rating::from_spec(item.str_field("rating"@)->Some_0)
            &&& p.tag_set() == space_pieces(item.str_field("tags"@)->Some_0)
        },
        ItemForm::FileUrl => {
            &&& p.url@ == item.str_field("file_url"@)->Some_0
            &&& p.md5@ == item.str_field("md5"@)->Some_0
            &&& p.extension@ == extension_of(p.url@)
            &&& p.rating == Rating::from_spec(item.str_field("rating"@)->Some_0)
            &&& p.tag_set() == space_pieces(item.str_field("tags"@)->Some_0)
        },
        ItemForm::E621 => {
            &&& p.url@ == file_holder(form, item).str_field("url"@)->Some_0
            &&& p.md5@ == file_holder(form, item).str_field("md5"@)->Some_0
            &&& p.extension@ == file_holder(form, item).str_field("ext"@)->Some_0
            &&& p.rating == Rating::from_spec(item.str_field("rating"@)->Some_0)
            &&& p.tag_set() == category_tags(item.field("tags"@)->Some_0)->Some_0
        },
    }
}

proof fn lemma_seen_step(fs: Seq<crate::json::JsonField>, k: int, j: int)
    requires
        0 <= k < fs.len(),
        0 <= j < items_of(fs[k].value).len(),
    ensures
        seen_tags(fs, k, j + 1) == seen_tags(fs, k, j).insert(text_of(items_of(fs[k].value)[j])),
{
    let x = text_of(items_of(fs[k].value)[j]);
    assert forall|w: Seq<char>| #[trigger] seen_tags(fs, k, j + 1).contains(w) <==> seen_tags(fs, k, j).insert(x).contains(w) by {
        if seen_tags(fs, k, j + 1).contains(w) {
            let (a, b) = choose|a: int, b: int|
                0 <= a <= k && a < fs.len() && 0 <= b < items_of(fs[a].value).len() && (a < k || b < j + 1) && #[trigger] text_of(
                    items_of(fs[a].value)[b],
                ) == w;
            if a < k || b < j {
                assert(seen_tags(fs, k, j).contains(w));
            }
        }
        if seen_tags(fs, k, j).contains(w) {
            let (a, b) = choose|a: int, b: int|
                0 <= a <= k && a < fs.len() && 0 <= b < items_of(fs[a].value).len() && (a < k || b < j) && #[trigger] text_of(
                    items_of(fs[a].value)[b],
                ) == w;
            assert(seen_tags(fs, k, j + 1).contains(w));
        }
        if w == x {
            assert(seen_tags(fs, k, j + 1).contains(w));
        }
    }
    assert(seen_tags(fs, k, j + 1) =~= seen_tags(fs, k, j).insert(x));
}

proof fn lemma_seen_next(fs: Seq<crate::json::JsonField>, k: int)
    requires
        0 <= k < fs.len(),
    ensures
        seen_tags(fs, k, items_of(fs[k].value).len() as int) == seen_tags(fs, k + 1, 0),
{
    let n = items_of(fs[k].value).len() as int;
    assert forall|w: Seq<char>| #[trigger] seen_tags(fs, k, n).contains(w) <==> seen_tags(fs, k + 1, 0).contains(w) by {
        if seen_tags(fs, k, n).contains(w) {
            let (a, b) = choose|a: int, b: int|
                0 <= a <= k && a < fs.len() && 0 <= b < items_of(fs[a].value).len() && (a < k || b < n) && #[trigger] text_of(
                    items_of(fs[a].value)[b],
                ) == w;
            assert(seen_tags(fs, k + 1, 0).contains(w));
        }
        if seen_tags(fs, k + 1, 0).contains(w) {
            let (a, b) = choose|a: int, b: int|
                0 <= a <= k + 1 && a < fs.len() && 0 <= b < items_of(fs[a].value).len() && (a < k + 1 || b < 0) && #[trigger] text_of(
                    items_of(fs[a].value)[b],
                ) == w;
            assert(seen_tags(fs, k, n).contains(w));
        }
    }
    assert(seen_tags(fs, k, n) =~= seen_tags(fs, k + 1, 0));
}

/// The tags of e621's `tags` object: every tag of every category.
pub fn collect_category_tags(t: &Json) -> (r: Option<ahash::AHashSet<String>>)
    ensures
        match category_tags(*t) {
            Some(set) => r is Some && tag_contents(r->Some_0) == set,
            None => r is None,
        },
{
    let fs = match t {
        Json::Object(fs) => fs,
        _ => return None,
    };
    let mut set = empty_tags();
    let mut k: usize = 0;
    assert(seen_tags(fs@, 0, 0) =~= Set::<Seq<char>>::empty());
    while k < fs.len()
        invariant
            k <= fs@.len(),
            *t == Json::Object(*fs),
            forall|a: int| 0 <= a < k ==> str_array(#[trigger] fs@[a].value),
            tag_contents(set) == seen_tags(fs@, k as int, 0),
        decreases fs@.len() - k,
    {
        let v = match &fs[k].value {
            Json::Array(v) => v,
            _ => return None,
        };
        let mut j: usize = 0;
        while j < v.len()
            invariant
                k < fs@.len(),
                *t == Json::Object(*fs),
                j <= v@.len(),
                fs@[k as int].value == Json::Array(*v),
                forall|b: int| 0 <= b < j ==> #[trigger] v@[b] is Str,
                tag_contents(set) == seen_tags(fs@, k as int, j as int),
            decreases v@.len() - j,
        {
            match &v[j] {
                Json::Str(s) => {
                    proof {
                        lemma_seen_step(fs@, k as int, j as int);
                    }
                    insert_tag(&mut set, s.clone());
                },
                _ => {
                    assert(!(items_of(fs@[k as int].value)[j as int] is Str));
                    assert(!str_array(fs@[k as int].value));
                    return None;
                },
            }
            j = j + 1;
        }
        proof {
            lemma_seen_next(fs@, k as int);
            assert(str_array(fs@[k as int].value));
        }
        k = k + 1;
    }
    Some(set)
}

/// Reads one item: `None` for an item without a file, the post for a
/// complete one, and an invalid answer otherwise.
pub fn map_item(form: ItemForm, site: ImageBoards, item: &Json) -> (r: Result<Option<Post>, ExtractorError>)
    ensures
        !has_file(form, *item) ==> r is Ok && r->Ok_0 is None,
        has_file(form, *item) && !complete(form, site, *item) ==> r == Err::<Option<Post>, ExtractorError>(
            ExtractorError::InvalidServerResponse,
        ),
        has_file(form, *item) && complete(form, site, *item) ==> r is Ok && r->Ok_0 is Some && maps_to(
            form,
            site,
            *item,
            r->Ok_0->Some_0,
        ),
{
    let holder: &Json = match form {
        ItemForm::E621 => match item.get("file") {
            Some(f) => f,
            None => return Ok(None),
        },
        _ => item,
    };
    let file = match form {
        ItemForm::Danbooru => holder.get_str("file_url"),
        ItemForm::GelbooruList => holder.get_str("hash"),
        ItemForm::FileUrl => holder.get_str("file_url"),
        ItemForm::E621 => holder.get_str("url"),
    };
    let file = match file {
        Some(f) => f,
        None => return Ok(None),
    };
    let id = match item.get_u64("id") {
        Some(n) => n,
        None => return Err(ExtractorError::InvalidServerResponse),
    };
    let rating_word = match item.get_str("rating") {
        Some(s) => s,
        None => return Err(ExtractorError::InvalidServerResponse),
    };
    match form {
        ItemForm::Danbooru => {
            let (md5, ext, tag_string) = match (item.get_str("md5"), item.get_str("file_ext"), item.get_str("tag_string")) {
                (Some(a), Some(b), Some(c)) => (a, b, c),
                _ => return Err(ExtractorError::InvalidServerResponse),
            };
            let rating = if same_text(rating_word.as_str(), "s") {
                Rating::Questionable
            } else {
                Rating::from_str(rating_word.as_str())
            };
            let mut p = Post::new(id, file.clone(), md5.clone(), ext.clone(), rating);
            p.tags = split_on_spaces(tag_string.as_str());
            Ok(Some(p))
        },
        ItemForm::GelbooruList => {
            let (tag_string, image) = match (item.get_str("tags"), item.get_str("image")) {
                (Some(a), Some(b)) => (a, b),
                _ => return Err(ExtractorError::InvalidServerResponse),
            };
            let md5 = file.clone();
            let ext = extension_from_url(image.as_str());
            let url = if site == ImageBoards::Rule34 {
                match item.get_str("file_url") {
                    Some(u) => u.clone(),
                    None => return Err(ExtractorError::InvalidServerResponse),
                }
            } else {
                match item.get_str("directory") {
                    Some(d) => {
                        let u = String::from_str("https://realbooru.com/images/");
                        let u = u.concat(d.as_str()).concat("/").concat(md5.as_str());
                        u.concat(".").concat(ext.as_str())
                    },
                    None => return Err(ExtractorError::InvalidServerResponse),
                }
            };
            let rating = Rating::from_str(rating_word.as_str());
            let mut p = Post::new(id, url, md5, ext, rating);
            p.tags = split_on_spaces(tag_string.as_str());
            Ok(Some(p))
        },
        ItemForm::FileUrl => {
            let (md5, tag_string) = match (item.get_str("md5"), item.get_str("tags")) {
                (Some(a), Some(b)) => (a, b),
                _ => return Err(ExtractorError::InvalidServerResponse),
            };
            let ext = extension_from_url(file.as_str());
            let rating = Rating::from_str(rating_word.as_str());
            let mut p = Post::new(id, file.clone(), md5.clone(), ext, rating);
            p.tags = split_on_spaces(tag_string.as_str());
            Ok(Some(p))
        },
        ItemForm::E621 => {
            let (md5, ext) = match (holder.get_str("md5"), holder.get_str("ext")) {
                (Some(a), Some(b)) => (a, b),
                _ => return Err(ExtractorError::InvalidServerResponse),
            };
            let tags = match item.get("tags") {
                Some(t) => match collect_category_tags(t) {
                    Some(set) => set,
                    None => return Err(ExtractorError::InvalidServerResponse),
                },
                None => return Err(ExtractorError::InvalidServerResponse),
            };
            let rating = Rating::from_str(rating_word.as_str());
            let mut p = Post::new(id, file.clone(), md5.clone(), ext.clone(), rating);
            p.tags = tags;
            Ok(Some(p))
        },
    }
}

/// Where a site's answer keeps its items, and how they are laid out:
/// Danbooru and Moebooru answer with a bare array; e621 with an object whose
/// `posts` member is the array; Gelbooru-based sites with a bare array or
/// with an object whose `post` member is the array.
pub open spec fn page_items(site: ImageBoards, body: Json) -> Option<(ItemForm, Seq<Json>)> {
    match site {
        ImageBoards::Danbooru => match body {
            Json::Array(v) => Some((ItemForm::Danbooru, v@)),
            _ => None,
        },
        ImageBoards::Konachan => match body {
            Json::Array(v) => Some((ItemForm::FileUrl, v@)),
            _ => None,
        },
        ImageBoards::E621 => match body.field("posts"@) {
            Some(Json::Array(v)) => Some((ItemForm::E621, v@)),
            _ => None,
        },
        _ => match body {
            Json::Array(v) => Some((ItemForm::GelbooruList, v@)),
            _ => match body.field("post"@) {
                Some(Json::Array(v)) => Some((ItemForm::FileUrl, v@)),
                _ => None,
            },
        },
    }
}

/// What reading `items`, laid out as `form`, gives: the posts of the items
/// that have a file, in their order, when every such item is complete, and an
/// invalid answer otherwise.
pub open spec fn read_as(form: ItemForm, site: ImageBoards, items: Seq<Json>, r: Result<Vec<Post>, ExtractorError>) -> bool {
    &&& (r is Ok <==> forall|k: int| 0 <= k < items.len() && has_file(form, #[trigger] items[k]) ==> complete(form, site, items[k]))
    &&& (r is Err ==> r == Err::<Vec<Post>, ExtractorError>(ExtractorError::InvalidServerResponse))
    &&& (r is Ok ==> read_posts(form, site, items, r->Ok_0@))
}

/// `v` holds the posts of the items that have a file, in their order.
pub open spec fn read_posts(form: ItemForm, site: ImageBoards, items: Seq<Json>, v: Seq<Post>) -> bool {
    &&& v.len() == items.filter(with_file(form)).len()
    &&& forall|k: int| 0 <= k < v.len() ==> maps_to(form, site, #[trigger] items.filter(with_file(form))[k], v[k])
}

/// Reads the items of `items` laid out as `form`.
pub fn map_items(form: ItemForm, site: ImageBoards, items: &Vec<Json>) -> (r: Result<Vec<Post>, ExtractorError>)
    ensures
        read_as(form, site, items@, r),
{
    let mut out: Vec<Post> = Vec::new();
    let mut i: usize = 0;
    while i < items.len()
        invariant
            i <= items@.len(),
            forall|k: int| 0 <= k < i && has_file(form, #[trigger] items@[k]) ==> complete(form, site, items@[k]),
            out@.len() == items@.take(i as int).filter(with_file(form)).len(),
            forall|k: int| 0 <= k < out@.len() ==> maps_to(form, site, #[trigger] items@.take(i as int).filter(with_file(form))[k], out@[k]),
        decreases items@.len() - i,
    {
        let ghost before = items@.take(i as int).filter(with_file(form));
        proof {
            assert(items@.take(i + 1) == items@.take(i as int).push(items@[i as int]));
        }
        match map_item(form, site, &items[i]) {
            Ok(Some(p)) => {
                out.push(p);
                assert forall|k: int| 0 <= k < out@.len() implies maps_to(form, site, #[trigger] items@.take(i + 1).filter(with_file(form))[k], out@[k]) by {
                    if k < before.len() {
                        assert(items@.take(i + 1).filter(with_file(form))[k] == before[k]);
                    }
                }
            },
            Ok(None) => {},
            Err(e) => {
                return Err(e);
            },
        }
        i = i + 1;
    }
    assert(items@.take(items@.len() as int) == items@);
    Ok(out)
}

/// Reads one page of a site's answer into posts, in the page's order.
pub fn map_page(site: ImageBoards, body: &Json) -> (r: Result<Vec<Post>, ExtractorError>)
    ensures
        page_items(site, *body) is None ==> r == Err::<Vec<Post>, ExtractorError>(ExtractorError::InvalidServerResponse),
        page_items(site, *body) is Some ==> read_as(
            page_items(site, *body)->Some_0.0,
            site,
            page_items(site, *body)->Some_0.1,
            r,
        ),
{
    match site {
        ImageBoards::Danbooru => match body.as_array() {
            Some(v) => map_items(ItemForm::Danbooru, site, v),
            None => Err(ExtractorError::InvalidServerResponse),
        },
        ImageBoards::Konachan => match body.as_array() {
            Some(v) => map_items(ItemForm::FileUrl, site, v),
            None => Err(ExtractorError::InvalidServerResponse),
        },
        ImageBoards::E621 => match body.get("posts") {
            Some(inner) => match inner.as_array() {
                Some(v) => map_items(ItemForm::E621, site, v),
                None => Err(ExtractorError::InvalidServerResponse),
            },
            None => Err(ExtractorError::InvalidServerResponse),
        },
        _ => match body.as_array() {
            Some(v) => map_items(ItemForm::GelbooruList, site, v),
            None => match body.get("post") {
                Some(inner) => match inner.as_array() {
                    Some(v) => map_items(ItemForm::FileUrl, site, v),
                    None => Err(ExtractorError::InvalidServerResponse),
                },
                None => Err(ExtractorError::InvalidServerResponse),
            },
        },
    }
}

} // verus!
