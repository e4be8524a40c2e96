use std::path::Path;
use vsv::text::{
    chars_le, chars_of, copy_texts, is_within, join, join_path, same_text, text_contains, text_le,
};

const WORDS: [&str; 12] =
    ["", "a", "A", "ab", "abc", "b", "web", "web-log", "db", "é", "zeta", "日本"];

#[test]
fn text_le_is_the_order_of_str() {
    for a in WORDS {
        for b in WORDS {
            assert_eq!(text_le(a, b), a <= b, "{:?} against {:?}", a, b);
        }
    }
}

#[test]
fn chars_le_compares_by_code_point() {
    let a: Vec<char> = "ab".chars().collect();
    let b: Vec<char> = "b".chars().collect();
    assert!(chars_le(&a, &b));
    assert!(!chars_le(&b, &a));
    assert!(chars_le(&a, &a));
    assert!(chars_le(&Vec::new(), &a));
    assert!(!chars_le(&a, &Vec::new()));
}

#[test]
fn chars_of_gives_the_characters() {
    assert_eq!(chars_of("é/a"), vec!['é', '/', 'a']);
    assert_eq!(chars_of(""), Vec::<char>::new());
}

#[test]
fn same_text_is_equality() {
    for a in WORDS {
        for b in WORDS {
            assert_eq!(same_text(a, b), a == b);
        }
    }
}

#[test]
fn join_path_is_the_join_of_paths() {
    let bases = ["", "/", "/var/service", "/var/service/", "rel", "rel/", "/é"];
    let names = ["", "web", "web/log", "/abs", "/", "supervise/status", "é"];
    for base in bases {
        for name in names {
            let expected = Path::new(base).join(name);
            assert_eq!(
                join_path(base, name),
                expected.to_str().unwrap(),
                "{:?} joined with {:?}",
                base,
                name
            );
        }
    }
}

#[test]
fn join_path_puts_one_separator_between() {
    assert_eq!(join_path("/var/service", "web"), "/var/service/web");
    assert_eq!(join_path("/var/service/", "web"), "/var/service/web");
    assert_eq!(join_path("/var/service", "/etc/sv/web"), "/etc/sv/web");
    assert_eq!(join_path("", "web"), "web");
}

#[test]
fn is_within_holds_for_the_directory_and_what_is_below() {
    assert!(is_within("/a/b", "/a/b"));
    assert!(is_within("/a/b/c", "/a/b"));
    assert!(is_within("/a/b/", "/a/b"));
    assert!(is_within("/a/b/c", "/a/b/"));
    assert!(is_within("/a", "/"));
    assert!(!is_within("/a/bc", "/a/b"));
    assert!(!is_within("/a", "/a/b"));
    assert!(!is_within("/a/b", ""));
    assert!(!is_within("", "/a"));
    assert!(!is_within("/x/b/c", "/a/b"));
}

#[test]
fn join_puts_the_separator_between_parts() {
    let parts = vec!["restart".to_string(), "web".to_string(), "db".to_string()];
    assert_eq!(join(&parts, " "), "restart web db");
    assert_eq!(join(&parts, ", "), parts.join(", "));
    assert_eq!(join(&parts[..1].to_vec(), " "), "restart");
    assert_eq!(join(&Vec::new(), " "), "");
    let odd = vec!["".to_string(), "".to_string()];
    assert_eq!(join(&odd, "-"), "-");
}

#[test]
fn copy_texts_copies() {
    let parts = vec!["a".to_string(), "".to_string(), "é".to_string()];
    assert_eq!(copy_texts(&parts), parts);
}

#[test]
fn text_contains_is_the_search_of_str() {
    for text in WORDS {
        for word in WORDS {
            assert_eq!(text_contains(text, word), text.contains(word), "{:?} in {:?}", word, text);
        }
    }
    assert!(text_contains("nginx-log", "x-l"));
    assert!(text_contains("nginx", "nginx"));
    assert!(text_contains("nginx", ""));
    assert!(text_contains("", ""));
    assert!(!text_contains("nginx", "nginxx"));
    assert!(!text_contains("aab", "abb"));
    assert!(text_contains("aaab", "aab"));
}
