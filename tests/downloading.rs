use imageboard_downloader::{after_check, after_response, after_store, TaskAction};
use imageboard_downloader::{
    archive_comment, archive_file_name, check_digest, check_existing, entry_name, file_name, is_client_error, md5_hex,
    run_directory, tag_query, ArchivePlan, FileCheck, ImageBoards, Outcome, Post, Rating, RunCounters, MANIFEST_NAME,
};

fn post(id: u64, md5: &str) -> Post {
    Post::new(id, format!("https://x/{}", id), md5.to_string(), "png".to_string(), Rating::Explicit)
}

#[test]
fn file_names() {
    let p = post(1234, "d41d8cd98f00b204e9800998ecf8427e");
    assert_eq!(file_name(&p, true), "1234.png");
    assert_eq!(file_name(&p, false), "d41d8cd98f00b204e9800998ecf8427e.png");
    assert_eq!(entry_name(&p), "Explicit/d41d8cd98f00b204e9800998ecf8427e.png");
    assert_eq!(file_name(&post(0, "a"), true), "0.png");
}

#[test]
fn md5_of_known_inputs() {
    assert_eq!(md5_hex(b""), "d41d8cd98f00b204e9800998ecf8427e");
    assert_eq!(md5_hex(b"abc"), "900150983cd24fb0d6963f7d28e17f72");
}

#[test]
fn present_file_is_not_fetched() {
    let p = post(1, "900150983cd24fb0d6963f7d28e17f72");
    assert_eq!(check_existing(&p, Some(b"abc")), FileCheck::Present);
    assert_eq!(check_existing(&p, Some(b"abd")), FileCheck::Stale);
    assert_eq!(check_existing(&p, None), FileCheck::Absent);
    assert_eq!(check_digest(&p, Some("900150983cd24fb0d6963f7d28e17f72")), FileCheck::Present);
    let mut c = RunCounters::new(2);
    c.record(Outcome::AlreadyPresent);
    assert_eq!(c.already_present, 1);
    assert_eq!(c.downloaded, 0);
    assert_eq!(c.processed, 1);
}

#[test]
fn client_error_is_skipped_but_processed() {
    assert!(is_client_error(404));
    assert!(!is_client_error(500));
    assert!(!is_client_error(200));
    let mut c = RunCounters::new(3);
    c.record(Outcome::Downloaded);
    c.record(Outcome::Skipped);
    c.record(Outcome::Downloaded);
    assert_eq!(c.downloaded, 2);
    assert_eq!(c.processed, 3);
    assert_eq!(c.failed, 1);
}

#[test]
fn archive_of_two_posts() {
    let (mut plan, first) = ArchivePlan::begin(&vec![post(1, "aa"), post(2, "bb")]);
    assert_eq!(first, MANIFEST_NAME);
    let a = plan.add_post(&post(1, "aa"));
    let b = plan.add_post(&post(2, "bb"));
    assert_eq!(a, "Explicit/aa.png");
    assert_eq!(b, "Explicit/bb.png");
    let comment = plan.finish(ImageBoards::Danbooru, "cat dog");
    let entries = plan.entries();
    assert_eq!(entries.len(), 3);
    assert_eq!(entries.iter().filter(|e| e.as_str() == MANIFEST_NAME).count(), 1);
    assert!(comment.contains("cat dog"));
    assert!(comment.contains("Posts: 2"));
    assert_eq!(plan.comment().unwrap(), &comment);
}

#[test]
fn archive_comment_text() {
    assert_eq!(
        archive_comment(ImageBoards::E621, "a b", 17),
        "ImageBoard Downloader\n\nWebsite: e621\n\nTags: a b\n\nPosts: 17"
    );
}

#[test]
fn paths_of_a_run() {
    let tags = vec!["cat".to_string(), "dog".to_string()];
    assert_eq!(tag_query(&tags), "cat dog");
    assert_eq!(tag_query(&vec![]), "");
    assert_eq!(run_directory(ImageBoards::Rule34, "cat dog"), "rule34/cat dog");
    assert_eq!(archive_file_name("cat dog"), "cat dog.cbz");
}

#[test]
fn per_post_actions() {
    assert_eq!(after_check(FileCheck::Present), TaskAction::Finish(Outcome::AlreadyPresent));
    assert_eq!(after_check(FileCheck::Stale), TaskAction::Fetch { delete_first: true });
    assert_eq!(after_check(FileCheck::Absent), TaskAction::Fetch { delete_first: false });
    assert_eq!(after_response(404), Some(Outcome::Skipped));
    assert_eq!(after_response(200), None);
    assert_eq!(after_store(true), Outcome::Downloaded);
    assert_eq!(after_store(false), Outcome::Failed);
}

#[test]
fn archive_comment_counts_run_posts() {
    let (mut plan, _) = ArchivePlan::begin(&vec![post(1, "aa"), post(2, "bb")]);
    plan.add_post(&post(1, "aa"));
    let comment = plan.finish(ImageBoards::Konachan, "sky");
    assert_eq!(comment, "ImageBoard Downloader\n\nWebsite: konachan\n\nTags: sky\n\nPosts: 2");
    assert_eq!(plan.entries().len(), 2);
    assert_eq!(plan.run_posts(), 2);
    let (mut empty, _) = ArchivePlan::begin(&vec![]);
    assert!(empty.finish(ImageBoards::Konachan, "sky").ends_with("Posts: 0"));
}
