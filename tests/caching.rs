use ahash::AHashSet;
use imageboard_downloader::{
    decode_config, decode_post, encode_config, encode_post, pack_config, pack_marker, unpack_config, unpack_marker,
    CacheFault, CachedKind, ImageBoards, ImageboardConfig, Json, JsonField, Post, Rating, UserData,
};

fn config() -> ImageboardConfig {
    let mut c = ImageboardConfig::new(ImageBoards::E621, "user".to_string(), "k3y-0f-t3st".to_string());
    c.user_data.id = 42;
    c.user_data.name = "Ñame".to_string();
    c.user_data.blacklisted_tags.insert("gore".to_string());
    c.user_data.blacklisted_tags.insert("スカ".to_string());
    c
}

#[test]
fn credentials_round_trip() {
    let c = config();
    let packed = pack_config(&c).unwrap();
    let back = unpack_config(&packed).unwrap();
    assert_eq!(back.imageboard, ImageBoards::E621);
    assert_eq!(back.username, "user");
    assert_eq!(back.api_key, "k3y-0f-t3st");
    assert_eq!(back.user_data.id, 42);
    assert_eq!(back.user_data.name, "Ñame");
    assert_eq!(back.user_data.blacklisted_tags, c.user_data.blacklisted_tags);
    let raw = encode_config(&c).unwrap();
    assert_eq!(decode_config(&raw).unwrap().user_data.id, 42);
}

#[test]
fn marker_round_trip() {
    let mut p = Post::new(99, "https://x/99.webm".to_string(), "abcd".to_string(), "webm".to_string(), Rating::Questionable);
    p.add_tag("one".to_string());
    p.add_tag("two".to_string());
    let back = unpack_marker(&pack_marker(&p).unwrap()).unwrap();
    assert_eq!(back.id, 99);
    assert_eq!(back.url, p.url);
    assert_eq!(back.md5, "abcd");
    assert_eq!(back.extension, "webm");
    assert_eq!(back.rating, Rating::Questionable);
    assert_eq!(back.tags, p.tags);
    assert_eq!(decode_post(&encode_post(&p).unwrap()).unwrap().tags.len(), 2);
}

#[test]
fn empty_post_round_trip() {
    let p = Post::new(0, String::new(), String::new(), String::new(), Rating::Unknown);
    let back = decode_post(&encode_post(&p).unwrap()).unwrap();
    assert_eq!(back.id, 0);
    assert!(back.tags.is_empty());
}

#[test]
fn corrupt_cache_is_a_compression_fault() {
    assert!(matches!(unpack_config(b"not zstd at all"), Err(CacheFault::Compression)));
    assert!(matches!(unpack_marker(b""), Err(CacheFault::Compression)));
}

#[test]
fn wrong_content_is_an_encoding_fault() {
    let frame = zstd::encode_all(&b"garbage"[..], 3).unwrap();
    assert!(matches!(unpack_config(&frame), Err(CacheFault::Encoding)));
    assert!(matches!(unpack_marker(&frame), Err(CacheFault::Encoding)));
}

#[test]
fn short_or_unknown_records_are_refused() {
    let raw = encode_post(&Post::new(1, "a".to_string(), "b".to_string(), "c".to_string(), Rating::Safe)).unwrap();
    assert!(decode_post(&raw[..raw.len() - 1]).is_none());
    assert!(decode_config(&[9]).is_none());
    let bad_rating = bincode::serialize(&(1u64, "a".to_string(), "b".to_string(), "c".to_string(), 7u32, Vec::<String>::new())).unwrap();
    assert!(decode_post(&bad_rating).is_none());
}

#[test]
fn marker_bytes_are_bincode_of_the_post_fields() {
    let mut p = Post::new(7, "u".to_string(), "m".to_string(), "png".to_string(), Rating::Explicit);
    p.add_tag("t".to_string());
    let expected = bincode::serialize(&(7u64, "u".to_string(), "m".to_string(), "png".to_string(), 2u32, vec!["t".to_string()])).unwrap();
    assert_eq!(encode_post(&p).unwrap(), expected);
}

#[test]
fn which_faults_remove_the_file() {
    assert!(CacheFault::Compression.removes_file(CachedKind::Credentials));
    assert!(!CacheFault::Encoding.removes_file(CachedKind::Credentials));
    assert!(CacheFault::Encoding.removes_file(CachedKind::ResumeMarker));
    assert!(CacheFault::Compression.removes_file(CachedKind::ResumeMarker));
}

#[test]
fn set_of_tags_survives() {
    let mut expected = AHashSet::new();
    expected.insert("gore".to_string());
    expected.insert("スカ".to_string());
    let back = decode_config(&encode_config(&config()).unwrap()).unwrap();
    assert_eq!(back.user_data.blacklisted_tags, expected);
}

#[test]
fn profile_is_read() {
    let body = Json::Object(vec![
        JsonField { key: "id".to_string(), value: Json::Uint(5) },
        JsonField { key: "name".to_string(), value: Json::Str("me".to_string()) },
        JsonField { key: "blacklisted_tags".to_string(), value: Json::Str("gore\nscat guro\n".to_string()) },
    ]);
    let u = UserData::from_profile(&body).unwrap();
    assert_eq!(u.id, 5);
    assert_eq!(u.name, "me");
    let mut expected = AHashSet::new();
    for t in ["gore", "scat", "guro"] {
        expected.insert(t.to_string());
    }
    assert_eq!(u.blacklisted_tags, expected);
    assert!(UserData::from_profile(&Json::Null).is_none());
}
