use ahash::AHashSet;
use imageboard_downloader::{BlacklistCategories, BlacklistFilter, GlobalBlacklist, ImageBoards, Post, Rating};

fn post(id: u64, tags: &[&str]) -> Post {
    let mut p = Post::new(
        id,
        format!("https://example.org/{}.png", id),
        format!("{:032x}", id),
        "png".to_string(),
        Rating::Safe,
    );
    for t in tags {
        p.add_tag(t.to_string());
    }
    p
}

fn global(tags: &[&str]) -> GlobalBlacklist {
    let mut c = BlacklistCategories::empty();
    for t in tags {
        c.global.insert(t.to_string());
    }
    GlobalBlacklist { blacklist: Some(c) }
}

fn ids(v: &[Post]) -> Vec<u64> {
    v.iter().map(|p| p.id).collect()
}

#[test]
fn blacklist_removes_tagged_post() {
    let posts = vec![post(10, &["a"]), post(7, &["explicit", "b"]), post(5, &["c"])];
    let f = BlacklistFilter::new(ImageBoards::Danbooru, &global(&["explicit"]), &AHashSet::new(), vec![], false, false, None);
    let (removed, kept) = f.filter(posts);
    assert_eq!(removed, 1);
    assert_eq!(ids(&kept), vec![10, 5]);
}

#[test]
fn filter_twice_removes_nothing_more() {
    let posts = vec![post(4, &["x"]), post(3, &["y"]), post(2, &["x", "z"]), post(1, &[])];
    let f = BlacklistFilter::new(ImageBoards::E621, &global(&["x"]), &AHashSet::new(), vec![], false, false, None);
    let (removed, kept) = f.filter(posts);
    assert_eq!(removed, 2);
    let (again, kept2) = f.filter(kept);
    assert_eq!(again, 0);
    assert_eq!(ids(&kept2), vec![3, 1]);
}

#[test]
fn filter_counts_add_up_and_keep_order() {
    let posts = vec![post(1, &["k"]), post(9, &["d"]), post(3, &["k"]), post(8, &[]), post(2, &["d"])];
    let mut user = AHashSet::new();
    user.insert("d".to_string());
    let f = BlacklistFilter::new(ImageBoards::Danbooru, &GlobalBlacklist { blacklist: None }, &user, vec![], false, false, None);
    let (removed, kept) = f.filter(posts);
    assert_eq!(removed as usize + kept.len(), 5);
    assert_eq!(ids(&kept), vec![1, 3, 8]);
}

#[test]
fn disabled_filter_keeps_everything() {
    let posts = vec![post(3, &["explicit"]), post(2, &["x"])];
    let f = BlacklistFilter::new(ImageBoards::Danbooru, &global(&["explicit", "x"]), &AHashSet::new(), vec![Rating::Explicit], true, true, Some("jpg".to_string()));
    let (removed, kept) = f.filter(posts);
    assert_eq!(removed, 0);
    assert_eq!(ids(&kept), vec![3, 2]);
}

#[test]
fn site_tier_applies_only_to_its_site() {
    let mut c = BlacklistCategories::empty();
    c.konachan.insert("sky".to_string());
    let config = GlobalBlacklist { blacklist: Some(c) };
    let on_konachan = BlacklistFilter::new(ImageBoards::Konachan, &config, &AHashSet::new(), vec![], false, false, None);
    let on_danbooru = BlacklistFilter::new(ImageBoards::Danbooru, &config, &AHashSet::new(), vec![], false, false, None);
    assert_eq!(on_konachan.filter(vec![post(1, &["sky"])]).0, 1);
    assert_eq!(on_danbooru.filter(vec![post(1, &["sky"])]).0, 0);
}

#[test]
fn ratings_animation_and_extension_rules() {
    let mut explicit = post(1, &[]);
    explicit.rating = Rating::Explicit;
    let mut video = post(2, &[]);
    video.extension = "webm".to_string();
    let safe = post(3, &[]);
    let none = GlobalBlacklist { blacklist: None };
    let by_rating = BlacklistFilter::new(ImageBoards::Danbooru, &none, &AHashSet::new(), vec![Rating::Safe], false, false, None);
    let (r, kept) = by_rating.filter(vec![explicit, video, safe]);
    assert_eq!(r, 1);
    assert_eq!(ids(&kept), vec![2, 3]);
    let no_video = BlacklistFilter::new(ImageBoards::Danbooru, &none, &AHashSet::new(), vec![], false, true, None);
    let (r, kept) = no_video.filter(kept);
    assert_eq!(r, 1);
    assert_eq!(ids(&kept), vec![3]);
    let only_jpg = BlacklistFilter::new(ImageBoards::Danbooru, &none, &AHashSet::new(), vec![], false, false, Some("jpg".to_string()));
    let (r, kept) = only_jpg.filter(kept);
    assert_eq!(r, 1);
    assert!(kept.is_empty());
}

#[test]
fn empty_list_filters_to_empty() {
    let f = BlacklistFilter::new(ImageBoards::Gelbooru, &global(&["a"]), &AHashSet::new(), vec![], false, false, None);
    let (r, kept) = f.filter(vec![]);
    assert_eq!(r, 0);
    assert!(kept.is_empty());
}
