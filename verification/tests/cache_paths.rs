use cache_server::routes::cache::get_file_path;
use cache_server::routes::cache_local::{check_cache_key, gen_cache_path, temp_path, LocalCache};
use cache_server::util::bytes::{contains_dotdot, leading_slash_count, push_decimal};

fn text(v: &[u8]) -> String {
    String::from_utf8(v.to_vec()).unwrap()
}

#[test]
fn file_path_strips_leading_slashes() {
    assert_eq!(text(&get_file_path("/a/b.txt").unwrap()), "cache/a/b.txt");
    assert_eq!(text(&get_file_path("///x").unwrap()), "cache/x");
    assert_eq!(text(&get_file_path("plain").unwrap()), "cache/plain");
}

#[test]
fn file_path_of_root_is_cache_dir() {
    assert_eq!(text(&get_file_path("/").unwrap()), "cache/");
    assert_eq!(text(&get_file_path("").unwrap()), "cache/");
}

#[test]
fn file_path_refuses_dotdot() {
    assert!(get_file_path("/a/../b").is_none());
    assert!(get_file_path("..").is_none());
    assert!(get_file_path("/x..y").is_none());
    assert!(get_file_path("/x.y/./z").is_some());
}

#[test]
fn cache_path_is_sharded_by_name() {
    assert_eq!(text(&gen_cache_path("/img/avatar.png", b"/w").unwrap()), "/w/cache/img/av/avatar.png");
    assert_eq!(text(&gen_cache_path("abc", b"/w").unwrap()), "/w/cache/ab/abc");
    assert_eq!(text(&gen_cache_path("/x/yz", b"/w").unwrap()), "/w/cache/x/yz/yz");
}

#[test]
fn cache_path_of_short_key_uses_zero_shard() {
    assert_eq!(text(&gen_cache_path("ab", b"/w").unwrap()), "/w/cache/00/ab");
    assert_eq!(text(&gen_cache_path("/ab", b"/w").unwrap()), "/w/cache/00/ab");
    assert_eq!(text(&gen_cache_path("a", b"/w").unwrap()), "/w/cache/00/a");
}

#[test]
fn cache_path_of_empty_key_is_outside_cache_dir() {
    assert_eq!(text(&gen_cache_path("", b"/w").unwrap()), "/w/00/cache");
    assert_eq!(text(&gen_cache_path(".", b"/w").unwrap()), "/w/00/cache");
    assert_eq!(text(&gen_cache_path("./.", b"/w").unwrap()), "/w/ca/cache");
}

#[test]
fn cache_path_normalizes_components() {
    assert_eq!(text(&gen_cache_path("a//b/./cde", b"/w").unwrap()), "/w/cache/a/b/cd/cde");
    assert_eq!(text(&gen_cache_path("/dir/file/.", b"/w").unwrap()), "/w/cache/dir/fi/file");
}

#[test]
fn cache_path_rejects_dotdot_and_trailing_slash() {
    assert!(gen_cache_path("a/../b", b"/w").is_none());
    assert!(gen_cache_path("a..b", b"/w").is_none());
    assert!(gen_cache_path("dir/", b"/w").is_none());
    assert!(gen_cache_path("/", b"/w").is_none());
}

#[test]
fn multibyte_names_shard_on_char_boundary() {
    // "é" is two bytes: the shard is that character
    assert_eq!(text(&gen_cache_path("éa", b"/w").unwrap()), "/w/cache/é/éa");
    assert!(check_cache_key("éa"));
    // "a" then "é": byte 2 falls inside "é", the key cannot be stored
    assert!(!check_cache_key("aé"));
}

#[test]
fn check_cache_key_matches_storable_keys() {
    assert!(check_cache_key("/img/avatar.png"));
    assert!(check_cache_key(""));
    assert!(check_cache_key("ab"));
    assert!(!check_cache_key("a/b"));
    assert!(!check_cache_key("a/../b"));
    assert!(!check_cache_key("dir/"));
}

#[test]
fn local_cache_new_and_find() {
    let local = LocalCache::new("/docs/readme.md".to_string(), b"/w");
    assert_eq!(local.key, "/docs/readme.md");
    assert_eq!(text(local.find()), "/w/cache/docs/re/readme.md");
}

#[test]
fn temp_path_formats_timestamp() {
    assert_eq!(text(&temp_path(b"cache/f", 123)), "cache/f.123.t");
    assert_eq!(text(&temp_path(b"f", 0)), "f.0.t");
    assert_eq!(text(&temp_path(b"f", -5)), "f.-5.t");
}

#[test]
fn temp_file_is_named_after_the_clock() {
    let local = LocalCache::new("/a/bcd".to_string(), b"/w");
    assert_eq!(text(&local.temp_file(1700000000)), "/w/cache/a/bc/bcd.1700000000.t");
}

#[test]
fn cache_path_in_root_dir_and_trailing_slash_dir() {
    assert_eq!(text(&gen_cache_path("ab", b"/").unwrap()), "/cache/00/ab");
    assert_eq!(text(&gen_cache_path("", b"/").unwrap()), "/00/cache");
    assert_eq!(text(&gen_cache_path("/abcd", b"/srv/").unwrap()), "/srv/cache/ab/abcd");
    assert!(gen_cache_path("x/../y", b"/w").is_none());
}

#[test]
fn decimal_rendering() {
    let mut out = Vec::new();
    push_decimal(&mut out, i64::MIN);
    assert_eq!(text(&out), "-9223372036854775808");
    let mut out = Vec::new();
    push_decimal(&mut out, i64::MAX);
    assert_eq!(text(&out), "9223372036854775807");
    let mut out = b"x".to_vec();
    push_decimal(&mut out, 1700000000);
    assert_eq!(text(&out), "x1700000000");
}

#[test]
fn byte_helpers() {
    assert!(contains_dotdot(b"a..b"));
    assert!(!contains_dotdot(b"a.b."));
    assert!(!contains_dotdot(b""));
    assert_eq!(leading_slash_count(b"///a/"), 3);
    assert_eq!(leading_slash_count(b"a"), 0);
}
