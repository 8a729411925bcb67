use ahash::AHashSet;
use imageboard_downloader::{
    extension_from_url, is_animated, split_on_spaces, split_tags, to_decimal, to_hex, BarTemplates, GlobalBlacklist, ImageBoards, Post,
    PostQueue, Queue, Rating, APP_VERSION,
};

#[test]
fn user_agents() {
    assert_eq!(
        ImageBoards::Danbooru.user_agent(),
        format!("Rust Imageboard Downloader/{} (by danbooru user FerrahWolfeh)", APP_VERSION)
    );
    assert_eq!(ImageBoards::Gelbooru.user_agent(), format!("Rust Imageboard Downloader/{}", APP_VERSION));
}

#[test]
fn endpoints() {
    assert_eq!(ImageBoards::Danbooru.post_count_url(), Some("https://danbooru.donmai.us/counts/posts.json"));
    assert_eq!(ImageBoards::E621.post_count_url(), None);
    assert_eq!(ImageBoards::Konachan.post_url(), "https://konachan.com/post.json");
    assert_eq!(ImageBoards::E621.auth_url(), "https://e621.net/users/");
    assert_eq!(ImageBoards::Rule34.auth_url(), "");
}

#[test]
fn site_attributes() {
    assert!(ImageBoards::E621.has_native_blacklist());
    assert!(!ImageBoards::Konachan.has_native_blacklist());
    assert_eq!(ImageBoards::E621.max_post_limit(), 320);
    assert_eq!(ImageBoards::Gelbooru.max_post_limit(), 100);
    assert_eq!(ImageBoards::Realbooru.to_string(), "realbooru");
    assert_eq!(ImageBoards::Danbooru.progress_template(), BarTemplates::default());
    assert_ne!(ImageBoards::E621.progress_template(), BarTemplates::default());
}

#[test]
fn ratings_from_words() {
    assert_eq!(Rating::from_str("e"), Rating::Explicit);
    assert_eq!(Rating::from_str("general"), Rating::Safe);
    assert_eq!(Rating::from_str("questionable"), Rating::Questionable);
    assert_eq!(Rating::from_str("x"), Rating::Unknown);
    assert_eq!(Rating::Safe.to_string(), "Safe");
}

#[test]
fn text_helpers() {
    assert_eq!(extension_from_url("https://a.b/c/d.jpeg"), "jpeg");
    assert_eq!(extension_from_url("noext"), "");
    assert_eq!(to_decimal(0), "0");
    assert_eq!(to_decimal(18446744073709551615), "18446744073709551615");
    assert_eq!(to_hex(&vec![0, 15, 255]), "000fff");
    assert!(is_animated("mp4") && !is_animated("png"));
    let t = split_tags(" a  b c ");
    let mut expected = AHashSet::new();
    for w in ["a", "b", "c"] {
        expected.insert(w.to_string());
    }
    assert_eq!(t, expected);
    assert!(split_tags("").is_empty());
}

#[test]
fn queue_filters_and_limits() {
    let mut posts = Vec::new();
    for id in 1..=6u64 {
        let mut p = Post::new(id, String::new(), String::new(), "png".to_string(), Rating::Safe);
        if id % 2 == 0 {
            p.add_tag("even".to_string());
        }
        posts.push(p);
    }
    let mut user = AHashSet::new();
    user.insert("even".to_string());
    let pq = PostQueue::new(posts, vec!["t1".to_string(), "t2".to_string()], user);
    let mut q = Queue::new(ImageBoards::Danbooru, pq, 3, Some(2), false);
    assert_eq!(q.query(), "t1 t2");
    let removed = q.blacklist_filter(false, &GlobalBlacklist { blacklist: None });
    assert_eq!(removed, 3);
    q.apply_limit();
    assert_eq!(q.posts().iter().map(|p| p.id).collect::<Vec<_>>(), vec![5, 3]);
    assert_eq!(q.sim_downloads(), 3);
    assert!(!q.cbz());
}

#[test]
fn tag_strings_split_on_single_spaces() {
    let mut expected = AHashSet::new();
    expected.insert(String::new());
    assert_eq!(split_on_spaces(""), expected);
    for w in ["a", "b\nc"] {
        expected.insert(w.to_string());
    }
    assert_eq!(split_on_spaces("a  b\nc"), expected);
}
