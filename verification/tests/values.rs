//! Texts, paths, base64 and JSON values.
use fresh_editor::base64::decode_base64;
use fresh_editor::json::Json;
use fresh_editor::path::{file_name_of, is_same_path, join, normalize};
use fresh_editor::text::{contains_text, push_decimal, same_text};

#[test]
fn base64_is_strict() {
    assert_eq!(decode_base64(""), Some(vec![]));
    assert_eq!(decode_base64("aGVsbG8="), Some(b"hello".to_vec()));
    assert_eq!(decode_base64("aGVsbG8hIQ=="), Some(b"hello!!".to_vec()));
    assert_eq!(decode_base64("AP+/"), Some(vec![0x00, 0xff, 0xbf]));
    for bad in ["a", "ab", "abc", "aGVsbG8", "aGVsbG9=", "aG=s", "aGVs=", "a b=", "====", "aGVs\n"] {
        assert_eq!(decode_base64(bad), None);
    }
}

#[test]
fn paths_have_one_normal_form() {
    assert_eq!(normalize("/a//b/./c/"), "/a/b/c");
    assert_eq!(normalize("./a"), "./a");
    assert_eq!(normalize("a/./b"), "a/b");
    assert_eq!(normalize("/"), "/");
    assert_eq!(normalize(""), "");
    assert_eq!(normalize("/a/../b"), "/a/../b");
    assert!(is_same_path("/a/b", "/a//b/."));
    assert!(!is_same_path("/a/b", "a/b"));
    assert!(!is_same_path("./a", "a"));
}

#[test]
fn file_names_are_last_components() {
    assert_eq!(file_name_of("/usr/bin/"), Some("bin".to_string()));
    assert_eq!(file_name_of("foo.txt/."), Some("foo.txt".to_string()));
    assert_eq!(file_name_of("foo.txt/.."), None);
    assert_eq!(file_name_of("/"), None);
    assert_eq!(file_name_of("."), None);
}

#[test]
fn paths_agree_with_std() {
    let spellings = [
        "", "/", "//", ".", "..", "./", "a", "a/", "/a", "a/.", "a/./b", "./a", "/./a", "a//b",
        "a/b", "../a", "a/..", "/..", "/a/b/", "/a//b", ".hidden", "a/.hidden",
    ];
    for a in spellings {
        let std_a = std::path::Path::new(a);
        let name = std_a.file_name().map(|n| n.to_string_lossy().to_string());
        assert_eq!(file_name_of(a), name);
        for b in spellings {
            let std_b = std::path::Path::new(b);
            assert_eq!(is_same_path(a, b), std_a == std_b);
            assert_eq!(join(a, b), std_a.join(b).to_string_lossy());
        }
    }
}

#[test]
fn json_values_keep_what_they_hold() {
    let value = serde_json::from_str(
        r#"{"a":[1,-1,1.5,true,null,"x"],"b":{"c":18446744073709551615},"b2":false}"#,
    );
    let json = Json::from_value(value.unwrap());
    let items = json.array_field("a").unwrap();
    assert_eq!(items.len(), 6);
    assert_eq!(items[0].as_u64(), Some(1));
    assert_eq!(items[1].as_u64(), None);
    assert!(matches!(items[1], Json::OtherNumber));
    assert!(matches!(items[2], Json::OtherNumber));
    assert_eq!(items[3].as_bool(), Some(true));
    assert!(matches!(items[4], Json::Null));
    assert_eq!(items[5].as_str(), Some("x"));
    assert_eq!(json.get("b").unwrap().u64_field("c"), Some(u64::MAX));
    assert_eq!(json.bool_field("b2"), Some(false));
    assert_eq!(json.str_field("b2"), None);
    assert!(json.get("missing").is_none());
    assert!(items[0].get("a").is_none());
    assert!(json.as_array().is_none());
}

#[test]
fn json_fields_are_last_wins() {
    let twice = Json::Object(vec![
        ("k".to_string(), Json::UInt(1)),
        ("k".to_string(), Json::UInt(2)),
    ]);
    assert_eq!(twice.u64_field("k"), Some(2));
}

#[test]
fn texts_are_searched_by_character() {
    assert!(contains_text("No such file", "such"));
    assert!(contains_text("abc", ""));
    assert!(contains_text("aab", "ab"));
    assert!(!contains_text("ab", "abc"));
    assert!(!contains_text("permission Denied", "permission denied"));
    assert!(same_text("界", "界"));
    assert!(!same_text("a", "ab"));
}

#[test]
fn numbers_are_written_in_decimal() {
    for n in [0u128, 7, 10, 65535, u64::MAX as u128, u128::MAX] {
        let mut out = "n=".to_string();
        push_decimal(&mut out, n);
        assert_eq!(out, format!("n={}", n));
    }
}
