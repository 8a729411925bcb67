use std::cmp::Ordering;
use ahash::AHashSet;
use imageboard_downloader::{keep_newer, Post, PostQueue, QueueError, Rating};

fn post(id: u64) -> Post {
    Post::new(id, format!("u{}", id), format!("m{}", id), "jpg".to_string(), Rating::Unknown)
}

fn ids(v: &[Post]) -> Vec<u64> {
    v.iter().map(|p| p.id).collect()
}

#[test]
fn queue_is_newest_first_without_repeats() {
    let q = PostQueue::new(vec![post(3), post(9), post(1), post(9), post(5), post(3)], vec!["a".to_string()], AHashSet::new());
    assert_eq!(ids(q.posts()), vec![9, 5, 3, 1]);
    assert_eq!(q.len(), 4);
    assert_eq!(q.tags(), &vec!["a".to_string()]);
}

#[test]
fn empty_queue_has_no_newest() {
    let q = PostQueue::new(vec![], vec![], AHashSet::new());
    assert!(q.newest().is_none());
    assert_eq!(q.len(), 0);
}

#[test]
fn newest_is_highest_id() {
    let q = PostQueue::new(vec![post(4), post(12), post(8)], vec![], AHashSet::new());
    assert_eq!(q.newest().unwrap().id, 12);
    assert_eq!(q.newest().unwrap().url, "u12");
}

#[test]
fn resume_keeps_only_newer_posts() {
    let q = PostQueue::new(vec![post(10), post(7), post(5), post(2)], vec![], AHashSet::new());
    let q = q.apply_resume(5).unwrap();
    assert_eq!(ids(q.posts()), vec![10, 7]);
}

#[test]
fn resume_with_nothing_newer_reports_empty_queue() {
    let q = PostQueue::new(vec![post(4), post(3)], vec![], AHashSet::new());
    match q.apply_resume(4) {
        Err(e) => assert_eq!(e, QueueError::NoPostsInQueue),
        Ok(_) => panic!("expected an empty queue"),
    }
}

#[test]
fn keep_newer_keeps_order() {
    let kept = keep_newer(vec![post(1), post(8), post(3), post(9)], 2);
    assert_eq!(ids(&kept), vec![8, 3, 9]);
}

#[test]
fn posts_compare_by_id() {
    let mut a = post(5);
    let b = post(5);
    a.url = "elsewhere".to_string();
    assert!(a == b);
    assert!(post(5) != post(6));
    let c = a.clone();
    assert_eq!(c.url, "elsewhere");
}

#[test]
fn posts_order_by_id() {
    assert_eq!(post(3).partial_cmp(&post(8)), Some(Ordering::Less));
    assert_eq!(post(8).partial_cmp(&post(8)), Some(Ordering::Equal));
    assert!(post(9) > post(2));
}
