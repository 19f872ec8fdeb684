use kayfabe::text::{
    contains_sub, find_char, find_sub, has_leaf, leaf_of, parent_of, parse_u64, path_join,
    starts_with, str_eq, trim_char, trim_ws, u64_to_dec,
};

#[test]
fn path_join_inserts_one_separator() {
    assert_eq!(path_join("/a/b", "c"), "/a/b/c");
}

#[test]
fn leaf_component_checks() {
    assert!(has_leaf("/r/main", "main"));
    assert!(has_leaf("main", "main"));
    assert!(!has_leaf("/r/domain", "main"));
    assert!(!has_leaf("/r/main/x", "main"));
}

#[test]
fn parent_walks_one_component() {
    assert_eq!(parent_of("/a/b"), Some("/a".to_string()));
    assert_eq!(parent_of("/a"), Some("/".to_string()));
    assert_eq!(parent_of("/"), None);
}

#[test]
fn leaf_of_takes_the_last_component() {
    assert_eq!(leaf_of("/a/b"), "b");
    assert_eq!(leaf_of("name"), "name");
    assert_eq!(leaf_of("/"), "");
}

#[test]
fn decimal_parse_exact() {
    assert_eq!(parse_u64("12345"), Some(12345));
    assert_eq!(parse_u64("0"), Some(0));
    assert_eq!(parse_u64(""), None);
    assert_eq!(parse_u64("12a"), None);
    assert_eq!(parse_u64("18446744073709551615"), Some(u64::MAX));
    assert_eq!(parse_u64("18446744073709551616"), None);
}

#[test]
fn decimal_render_exact() {
    assert_eq!(u64_to_dec(0), "0");
    assert_eq!(u64_to_dec(10500), "10500");
    assert_eq!(u64_to_dec(u64::MAX), "18446744073709551615");
}

#[test]
fn searching_and_matching() {
    assert!(str_eq("abc", "abc"));
    assert!(!str_eq("abc", "abd"));
    assert!(starts_with("worktree /a", "worktree "));
    assert!(!starts_with("work", "worktree "));
    assert_eq!(find_char("a=b", '='), 1);
    assert_eq!(find_char("ab", '='), 2);
    assert!(contains_sub("x[workspace]y", "[workspace]"));
    assert!(!contains_sub("x[work]y", "[workspace]"));
    assert_eq!(find_sub("aababc", "abc"), 3);
    assert_eq!(find_sub("aa", "abc"), 2);
}

#[test]
fn trimming() {
    assert_eq!(trim_ws("  a b \t\n"), "a b");
    assert_eq!(trim_ws("   "), "");
    assert_eq!(trim_char("\"quoted\"", '"'), "quoted");
    assert_eq!(trim_char("\"\"x\"\"", '"'), "x");
}
