use imageboard_downloader::{DanbooruExtractor, GelbooruExtractor, MoebooruExtractor};
use ahash::AHashSet;
use imageboard_downloader::{
    check_preflight, map_page, validate_tag_count, BlacklistCategories, BlacklistFilter, Extraction, ExtractorError,
    GlobalBlacklist, ImageBoards, Json, JsonField, PageStep, Post, Rating,
};

fn obj(fields: Vec<(&str, Json)>) -> Json {
    Json::Object(fields.into_iter().map(|(k, v)| JsonField { key: k.to_string(), value: v }).collect())
}

fn s(t: &str) -> Json {
    Json::Str(t.to_string())
}

fn danbooru_item(id: u64, tags: &str) -> Json {
    obj(vec![
        ("id", Json::Uint(id)),
        ("file_url", s(&format!("https://cdn.example/{}.png", id))),
        ("md5", s("0123456789abcdef0123456789abcdef")),
        ("file_ext", s("png")),
        ("tag_string", s(tags)),
        ("rating", s("s")),
    ])
}

fn no_filter(site: ImageBoards) -> BlacklistFilter {
    BlacklistFilter::new(site, &GlobalBlacklist { blacklist: None }, &AHashSet::new(), vec![], false, false, None)
}

fn posts(n: u64) -> Vec<Post> {
    (1..=n).map(|i| Post::new(i, String::new(), String::new(), "jpg".to_string(), Rating::Safe)).collect()
}

#[test]
fn empty_first_page_fails_with_zero_posts() {
    let mut e = Extraction::new(ImageBoards::Danbooru, vec!["a".to_string()], AHashSet::new(), no_filter(ImageBoards::Danbooru), 0, None).unwrap();
    assert_eq!(e.first_step(), PageStep::Fetch { position: 1, wait: false });
    assert_eq!(e.take_page(&Json::Array(vec![])), Err(ExtractorError::ZeroPosts));
}

#[test]
fn empty_later_page_ends_run() {
    let mut e = Extraction::new(ImageBoards::Konachan, vec![], AHashSet::new(), no_filter(ImageBoards::Konachan), 0, None).unwrap();
    assert_eq!(e.take_posts(posts(3)), Ok(PageStep::Fetch { position: 2, wait: true }));
    assert_eq!(e.take_posts(vec![]), Ok(PageStep::Done));
    let (q, removed) = e.finish();
    assert_eq!(removed, 0);
    assert_eq!(q.posts().iter().map(|p| p.id).collect::<Vec<_>>(), vec![3, 2, 1]);
}

#[test]
fn limit_ends_run() {
    let mut e = Extraction::new(ImageBoards::Danbooru, vec![], AHashSet::new(), no_filter(ImageBoards::Danbooru), 0, Some(5)).unwrap();
    assert_eq!(e.take_posts(posts(3)), Ok(PageStep::Fetch { position: 2, wait: true }));
    assert_eq!(e.take_posts(posts(3)), Ok(PageStep::Done));
    let (q, _) = e.finish();
    assert_eq!(q.len(), 3);
    let mut e = Extraction::new(ImageBoards::Gelbooru, vec![], AHashSet::new(), no_filter(ImageBoards::Gelbooru), 0, Some(4)).unwrap();
    let page: Vec<Post> = (10..16u64).map(|i| Post::new(i, String::new(), String::new(), "jpg".to_string(), Rating::Safe)).collect();
    assert_eq!(e.take_posts(page), Ok(PageStep::Done));
    let (q, _) = e.finish();
    assert_eq!(q.posts().iter().map(|p| p.id).collect::<Vec<_>>(), vec![13, 12, 11, 10]);
}

#[test]
fn page_cap_ends_run() {
    let mut e = Extraction::new(ImageBoards::E621, vec![], AHashSet::new(), no_filter(ImageBoards::E621), 0, None).unwrap();
    for page in 1..100u64 {
        assert_eq!(e.take_posts(posts(1)), Ok(PageStep::Fetch { position: page + 1, wait: true }));
    }
    assert_eq!(e.take_posts(posts(1)), Ok(PageStep::Done));
}

#[test]
fn gelbooru_pages_start_at_zero_plus_offset() {
    let e = Extraction::new(ImageBoards::Gelbooru, vec![], AHashSet::new(), no_filter(ImageBoards::Gelbooru), 0, None).unwrap();
    assert_eq!(e.first_step(), PageStep::Fetch { position: 0, wait: false });
    let e = Extraction::new(ImageBoards::Danbooru, vec![], AHashSet::new(), no_filter(ImageBoards::Danbooru), 4, None).unwrap();
    assert_eq!(e.first_step(), PageStep::Fetch { position: 5, wait: false });
}

#[test]
fn blacklisted_posts_are_counted_as_removed() {
    let mut c = BlacklistCategories::empty();
    c.global.insert("bad".to_string());
    let f = BlacklistFilter::new(ImageBoards::Danbooru, &GlobalBlacklist { blacklist: Some(c) }, &AHashSet::new(), vec![], false, false, None);
    let mut e = Extraction::new(ImageBoards::Danbooru, vec![], AHashSet::new(), f, 0, None).unwrap();
    let body = Json::Array(vec![danbooru_item(1, "bad good"), danbooru_item(2, "good")]);
    assert_eq!(e.take_page(&body), Ok(PageStep::Fetch { position: 2, wait: true }));
    let (q, removed) = e.finish();
    assert_eq!(removed, 1);
    assert_eq!(q.len(), 1);
}

#[test]
fn too_many_tags_for_danbooru() {
    assert_eq!(validate_tag_count(ImageBoards::Danbooru, 3), Err(ExtractorError::TooManyTags { current: 3, max: 2 }));
    assert_eq!(validate_tag_count(ImageBoards::Danbooru, 2), Ok(()));
    assert_eq!(validate_tag_count(ImageBoards::Rule34, 9), Ok(()));
    let tags = vec!["a".to_string(), "b".to_string(), "c".to_string()];
    let r = Extraction::new(ImageBoards::Danbooru, tags, AHashSet::new(), no_filter(ImageBoards::Danbooru), 0, None);
    assert!(matches!(r, Err(ExtractorError::TooManyTags { current: 3, max: 2 })));
}

#[test]
fn preflight_counts() {
    let zero = obj(vec![("counts", obj(vec![("posts", Json::Uint(0))]))]);
    let some = obj(vec![("counts", obj(vec![("posts", Json::Uint(12))]))]);
    assert_eq!(check_preflight(ImageBoards::Danbooru, &zero), Err(ExtractorError::ZeroPosts));
    assert_eq!(check_preflight(ImageBoards::Danbooru, &some), Ok(()));
    assert_eq!(check_preflight(ImageBoards::Danbooru, &Json::Null), Err(ExtractorError::InvalidServerResponse));
    assert_eq!(check_preflight(ImageBoards::Rule34, &Json::Array(vec![])), Err(ExtractorError::ZeroPosts));
    let wrapped = obj(vec![("post", Json::Array(vec![Json::Null]))]);
    assert_eq!(check_preflight(ImageBoards::Gelbooru, &wrapped), Ok(()));
}

#[test]
fn danbooru_page_is_read() {
    let no_file = obj(vec![("id", Json::Uint(3)), ("rating", s("e"))]);
    let body = Json::Array(vec![danbooru_item(7, "cat  dog"), no_file]);
    let v = map_page(ImageBoards::Danbooru, &body).unwrap();
    assert_eq!(v.len(), 1);
    let p = &v[0];
    assert_eq!(p.id, 7);
    assert_eq!(p.url, "https://cdn.example/7.png");
    assert_eq!(p.extension, "png");
    assert_eq!(p.rating, Rating::Questionable);
    assert!(p.has_tag("cat") && p.has_tag("dog"));
    assert!(p.has_tag(""));
    assert_eq!(p.tags.len(), 3);
}

#[test]
fn incomplete_item_makes_page_invalid() {
    let broken = obj(vec![("file_url", s("https://x/1.png")), ("rating", s("q"))]);
    assert!(matches!(map_page(ImageBoards::Danbooru, &Json::Array(vec![broken])), Err(ExtractorError::InvalidServerResponse)));
    assert!(matches!(map_page(ImageBoards::Danbooru, &Json::Null), Err(ExtractorError::InvalidServerResponse)));
}

#[test]
fn realbooru_url_is_built() {
    let item = obj(vec![
        ("id", Json::Uint(11)),
        ("hash", s("abc")),
        ("image", s("abc.jpeg")),
        ("directory", s("12")),
        ("tags", s("one two")),
        ("rating", s("explicit")),
    ]);
    let v = map_page(ImageBoards::Realbooru, &Json::Array(vec![item])).unwrap();
    assert_eq!(v[0].url, "https://realbooru.com/images/12/abc.jpeg");
    assert_eq!(v[0].md5, "abc");
    assert_eq!(v[0].rating, Rating::Explicit);
}

#[test]
fn wrapped_gelbooru_and_konachan_pages() {
    let item = obj(vec![
        ("id", Json::Uint(4)),
        ("file_url", s("https://img.example/a/b.gif")),
        ("md5", s("ff")),
        ("tags", s("x")),
        ("rating", s("safe")),
    ]);
    let body = obj(vec![("post", Json::Array(vec![item]))]);
    let v = map_page(ImageBoards::Gelbooru, &body).unwrap();
    assert_eq!(v[0].extension, "gif");
    assert_eq!(v[0].rating, Rating::Safe);
    let item = obj(vec![
        ("id", Json::Uint(5)),
        ("file_url", s("https://k.example/f.png")),
        ("md5", s("ee")),
        ("tags", s("y")),
        ("rating", s("q")),
    ]);
    let v = map_page(ImageBoards::Konachan, &Json::Array(vec![item])).unwrap();
    assert_eq!(v[0].id, 5);
    assert_eq!(v[0].rating, Rating::Questionable);
}

#[test]
fn e621_page_is_read() {
    let item = obj(vec![
        ("id", Json::Uint(31)),
        ("file", obj(vec![("url", s("https://static.example/31.webm")), ("md5", s("cafe")), ("ext", s("webm"))])),
        ("tags", obj(vec![("general", Json::Array(vec![s("fox"), s("snow")])), ("artist", Json::Array(vec![s("someone")]))])),
        ("rating", s("e")),
    ]);
    let hidden = obj(vec![("id", Json::Uint(30)), ("file", obj(vec![("url", Json::Null)])), ("rating", s("s"))]);
    let body = obj(vec![("posts", Json::Array(vec![item, hidden]))]);
    let v = map_page(ImageBoards::E621, &body).unwrap();
    assert_eq!(v.len(), 1);
    assert_eq!(v[0].url, "https://static.example/31.webm");
    assert_eq!(v[0].extension, "webm");
    assert_eq!(v[0].rating, Rating::Explicit);
    assert!(v[0].has_tag("fox") && v[0].has_tag("snow") && v[0].has_tag("someone"));
    assert_eq!(v[0].tags.len(), 3);
    let bad_tags = obj(vec![
        ("id", Json::Uint(1)),
        ("file", obj(vec![("url", s("u")), ("md5", s("m")), ("ext", s("png"))])),
        ("tags", obj(vec![("general", Json::Uint(3))])),
        ("rating", s("q")),
    ]);
    let body = obj(vec![("posts", Json::Array(vec![bad_tags]))]);
    assert!(matches!(map_page(ImageBoards::E621, &body), Err(ExtractorError::InvalidServerResponse)));
}

#[test]
fn gelbooru_extractor_sets_site() {
    let g = GelbooruExtractor::new(vec!["a".to_string()]);
    assert_eq!(g.imageboard(), ImageBoards::Rule34);
    let g = g.set_imageboard(ImageBoards::Realbooru);
    assert_eq!(g.imageboard(), ImageBoards::Realbooru);
    let e = g.start(AHashSet::new(), no_filter(ImageBoards::Realbooru), 2, None).unwrap();
    assert_eq!(e.first_step(), PageStep::Fetch { position: 2, wait: false });
}

#[test]
fn danbooru_extractor_safe_mode() {
    let unit = DanbooruExtractor::new(vec!["a".to_string()], true, false);
    let f = unit.blacklist_filter(&GlobalBlacklist { blacklist: None }, &AHashSet::new());
    let mut q = Post::new(1, String::new(), String::new(), "png".to_string(), Rating::Questionable);
    q.add_tag("a".to_string());
    let s = Post::new(2, String::new(), String::new(), "png".to_string(), Rating::Safe);
    let (removed, kept) = f.filter(vec![q, s]);
    assert_eq!(removed, 1);
    assert_eq!(kept[0].id, 2);
    let e = unit.start(AHashSet::new(), f, 0, None).unwrap();
    assert_eq!(e.first_step(), PageStep::Fetch { position: 1, wait: false });
    let too_many = DanbooruExtractor::new(vec!["a".to_string(), "b".to_string(), "c".to_string()], false, false);
    let f = too_many.blacklist_filter(&GlobalBlacklist { blacklist: None }, &AHashSet::new());
    assert!(matches!(too_many.start(AHashSet::new(), f, 0, None), Err(ExtractorError::TooManyTags { current: 3, max: 2 })));
}

#[test]
fn moebooru_extractor_extension_and_videos() {
    let mut unit = MoebooruExtractor::new(vec![], false, false);
    unit.force_extension("png".to_string());
    unit.set_map_videos(false);
    let f = unit.blacklist_filter(&GlobalBlacklist { blacklist: None }, &AHashSet::new());
    let png = Post::new(1, String::new(), String::new(), "png".to_string(), Rating::Safe);
    let gif = Post::new(2, String::new(), String::new(), "gif".to_string(), Rating::Safe);
    let (removed, kept) = f.filter(vec![png, gif]);
    assert_eq!(removed, 1);
    assert_eq!(kept[0].id, 1);
    assert!(unit.start(AHashSet::new(), f, 0, Some(10)).is_ok());
}
