use phosphene::cache::{
    same_path, classify_hashed, image_path_for, join_path, lookup_cached, CacheEntry, FileState,
};
use phosphene::digest::{hash_file_contents, hash_hex};
use phosphene::viewer::{plan_render, CacheAction};

fn digest_of(byte: u8) -> [u8; 32] {
    [byte; 32]
}

fn entry(mtime: u64, size: u64, hash: [u8; 32], img: &str) -> Option<CacheEntry> {
    Some(CacheEntry::new(mtime, size, hash, img.to_string()))
}

#[test]
fn blake3_digest_of_abc() {
    let digest = hash_file_contents(b"abc");
    assert_eq!(
        hash_hex(&digest),
        "6437b3ac38465133ffb63b75273a8db548c558465d79db03fd359c6cd5bd9d85"
    );
}

#[test]
fn blake3_digest_of_empty_contents() {
    let digest = hash_file_contents(&[]);
    assert_eq!(
        hash_hex(&digest),
        "af1349b9f5f9a1a6a0404dea36dcc9499bcb25c9adc112b7cc9a93cae41f3262"
    );
}

#[test]
fn digest_text_is_lowercase_hex_high_nibble_first() {
    let mut digest = [0u8; 32];
    digest[0] = 0x0f;
    digest[1] = 0xa0;
    digest[31] = 0xff;
    let text = hash_hex(&digest);
    assert_eq!(text.len(), 64);
    assert!(text.starts_with("0fa0"));
    assert!(text.ends_with("ff"));
    assert_eq!(&text[4..62], "0".repeat(58));
}

#[test]
fn join_inserts_one_separator() {
    assert_eq!(join_path("/var/cache/phosphene", "metadata.redb"), "/var/cache/phosphene/metadata.redb");
    assert_eq!(join_path("/var/cache/", "metadata.redb"), "/var/cache/metadata.redb");
    assert_eq!(join_path("", "metadata.redb"), "metadata.redb");
}

#[test]
fn image_path_is_hex_digest_png_under_cache_dir() {
    let path = image_path_for("/tmp/cache", &digest_of(0xab));
    assert_eq!(path, format!("/tmp/cache/{}.png", "ab".repeat(32)));
}

#[test]
fn different_digests_give_different_image_paths() {
    let a = image_path_for("cache", &digest_of(1));
    let b = image_path_for("cache", &digest_of(2));
    assert_ne!(a, b);
}

#[test]
fn matching_metadata_is_a_hit_with_recorded_values() {
    let cached = entry(100, 42, digest_of(7), "/c/old.png");
    let found = lookup_cached(&cached, 100, 42).expect("hit");
    assert!(matches!(&found.0, FileState::Unchanged(p) if p == "/c/old.png"));
    assert_eq!(found.1, digest_of(7));
    assert_eq!((found.2, found.3), (100, 42));
}

#[test]
fn changed_metadata_or_no_entry_needs_hashing() {
    let cached = entry(100, 42, digest_of(7), "/c/old.png");
    assert!(lookup_cached(&cached, 101, 42).is_none());
    assert!(lookup_cached(&cached, 100, 43).is_none());
    assert!(lookup_cached(&None, 100, 42).is_none());
}

#[test]
fn new_file_is_new_with_digest_image() {
    let r = classify_hashed(&None, digest_of(3), 5, 6, "/c");
    let expected = format!("/c/{}.png", "03".repeat(32));
    assert!(matches!(&r.0, FileState::New(p) if *p == expected));
    assert_eq!(r.1, digest_of(3));
    assert_eq!((r.2, r.3), (5, 6));
}

#[test]
fn different_digest_is_modified() {
    let cached = entry(1, 2, digest_of(7), "/c/old.png");
    let r = classify_hashed(&cached, digest_of(8), 9, 2, "/c");
    let expected = format!("/c/{}.png", "08".repeat(32));
    assert!(matches!(&r.0, FileState::Modified(p) if *p == expected));
    assert_eq!(r.1, digest_of(8));
}

#[test]
fn touched_file_with_same_digest_is_unchanged_with_new_path() {
    let cached = entry(1, 2, digest_of(7), "/elsewhere/old.png");
    let r = classify_hashed(&cached, digest_of(7), 9, 2, "/c");
    let expected = format!("/c/{}.png", "07".repeat(32));
    assert!(matches!(&r.0, FileState::Unchanged(p) if *p == expected));
}

#[test]
fn writing_back_a_check_makes_the_next_check_a_hit() {
    let cached = entry(1, 2, digest_of(7), "/c/old.png");
    let r = classify_hashed(&cached, digest_of(8), 9, 3, "/c");
    let img = r.0.image_path().clone();
    let written = Some(CacheEntry::new(r.2, r.3, r.1, img.clone()));
    let again = lookup_cached(&written, 9, 3).expect("hit");
    assert!(matches!(&again.0, FileState::Unchanged(p) if *p == img));
    assert_eq!(again.1, digest_of(8));
}

#[test]
fn state_reports_its_image_path() {
    assert_eq!(FileState::New("a".to_string()).image_path(), "a");
    assert_eq!(FileState::Modified("b".to_string()).image_path(), "b");
    assert_eq!(FileState::Unchanged("c".to_string()).image_path(), "c");
}

#[test]
fn same_contents_never_warn_even_after_touch() {
    let cached = entry(1, 2, digest_of(5), "/c/old.png");
    let r = classify_hashed(&cached, digest_of(5), 77, 2, "/c");
    let plan = plan_render(r.0, true);
    assert!(!plan.was_modified);
}

#[test]
fn recorded_file_is_shown_from_cache_next_time() {
    let first = classify_hashed(&None, digest_of(9), 10, 20, "/c");
    let written = Some(CacheEntry::new(first.2, first.3, first.1, first.0.image_path().clone()));
    let again = lookup_cached(&written, 10, 20).expect("hit");
    assert_eq!(again.0.image_path(), first.0.image_path());
    let plan = plan_render(again.0, true);
    assert_eq!(plan.action, CacheAction::Refresh);
    assert!(!plan.was_modified);
}

#[test]
fn states_compare_by_variant_and_path() {
    assert_eq!(FileState::New("a".to_string()), FileState::New("a".to_string()));
    assert_ne!(FileState::New("a".to_string()), FileState::New("b".to_string()));
    assert_ne!(FileState::New("a".to_string()), FileState::Modified("a".to_string()));
    let cached = entry(3, 4, digest_of(1), "/c/x.png");
    let found = lookup_cached(&cached, 3, 4).expect("hit");
    assert_eq!(found.0, FileState::Unchanged("/c/x.png".to_string()));
}

#[test]
fn paths_compare_by_components() {
    assert!(same_path("a/b", "a//b"));
    assert!(same_path("a/b", "a/b/"));
    assert!(same_path("a/b", "a/./b"));
    assert!(same_path("a/b", "a/b/."));
    assert!(same_path("/a/b", "/a/b/"));
    assert!(same_path("/./a", "/a"));
    assert!(same_path(".", "./"));
    assert!(!same_path("./a/b", "a/b"));
    assert!(!same_path("/a", "a"));
    assert!(!same_path("a/c", "a/b/../c"));
    assert!(!same_path(".a", "a"));
    assert!(same_path("", ""));
    assert!(!same_path("", "."));
}

#[test]
fn states_with_equivalent_paths_are_equal() {
    assert_eq!(FileState::New("a/b".to_string()), FileState::New("a//b".to_string()));
    assert_eq!(FileState::New("a/b".to_string()), FileState::New("a/b/".to_string()));
    assert_ne!(FileState::New("a/b".to_string()), FileState::Unchanged("a/b".to_string()));
}
