use oag::resolve::{installed_pack_dir, join_path, pack_cache_dir, remove_pack_target, resolve_pack_path, sort_packs, templates_dir};
use oag::text::{i64_text, parses_as_i64, replace_str};

#[test]
fn integer_literals_parse_as_i64() {
    assert!(parses_as_i64("42"));
    assert!(parses_as_i64("-9223372036854775808"));
    assert!(parses_as_i64("9223372036854775807"));
    assert!(!parses_as_i64("9223372036854775808"));
    assert!(!parses_as_i64("-9223372036854775809"));
    assert!(parses_as_i64("+5"));
    assert!(parses_as_i64("007"));
    assert!(!parses_as_i64(""));
    assert!(!parses_as_i64("-"));
    assert!(!parses_as_i64("+"));
    assert!(!parses_as_i64(" 1"));
    assert!(!parses_as_i64("1.0"));
    assert!(!parses_as_i64("cat"));
    for s in ["0", "-1", "123456789012345", "+0", "--1", "1e3"] {
        assert_eq!(parses_as_i64(s), s.parse::<i64>().is_ok(), "{s}");
    }
}

#[test]
fn decimal_text_and_replace() {
    assert_eq!(i64_text(0), "0");
    assert_eq!(i64_text(-45), "-45");
    assert_eq!(i64_text(i64::MAX), "9223372036854775807");
    assert_eq!(replace_str("a{x}b{x}", "{x}", "1"), "a1b1");
    assert_eq!(replace_str("aaa", "aa", "b"), "ba");
}

#[test]
fn pack_locations() {
    assert_eq!(templates_dir(), ".oag/packs");
    assert_eq!(installed_pack_dir("node-client"), ".oag/packs/node-client");
    assert_eq!(pack_cache_dir("node-client", "v1"), ".oag/packs/.cache/node-client/v1");
    assert_eq!(installed_pack_dir("/abs/pack"), "/abs/pack");
    assert_eq!(installed_pack_dir(""), ".oag/packs/");
    assert_eq!(pack_cache_dir("p", "/tmp/x"), "/tmp/x");
    assert_eq!(join_path("a/", "b"), "a/b");
    assert_eq!(join_path("", "b"), "b");
    assert_eq!(resolve_pack_path("p", Some("/tmp/p"), true, true), Some("/tmp/p".to_string()));
    assert_eq!(resolve_pack_path("p", Some("/tmp/p"), false, true), Some(".oag/packs/p".to_string()));
    assert_eq!(resolve_pack_path("p", None, false, false), None);
    assert_eq!(remove_pack_target("p", false).err(), Some("pack 'p' is not installed".to_string()));
    assert_eq!(remove_pack_target("p", true).ok(), Some(".oag/packs/p".to_string()));
}

#[test]
fn sorts_installed_packs_by_id() {
    let packs = vec![
        ("react-swr-client".to_string(), "b".to_string()),
        ("fastapi-server".to_string(), "c".to_string()),
        ("node-client".to_string(), "a".to_string()),
    ];
    let ids: Vec<String> = sort_packs(packs).into_iter().map(|(id, _)| id).collect();
    assert_eq!(ids, vec!["fastapi-server", "node-client", "react-swr-client"]);
    assert!(sort_packs(vec![]).is_empty());
}

#[test]
fn decimal_integers_round_trip() {
    for i in [0i64, 7, -7, 10, i64::MAX, i64::MIN, 1_000_000] {
        assert!(parses_as_i64(&i64_text(i)));
    }
}
