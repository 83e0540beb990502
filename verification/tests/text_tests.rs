use fix_automation::text::{
    chars_of, contains_str, eq_ignore_ascii_case_exec, find_char, lines_exec, replace_exec,
    split_whitespace, string_of, trim_exec, Pat,
};

fn s(v: &[char]) -> String {
    v.iter().collect()
}

#[test]
fn lines_split_like_str_lines() {
    let v = chars_of("a\r\nb\n\nc");
    let ls: Vec<String> = lines_exec(&v).iter().map(|l| s(l)).collect();
    assert_eq!(ls, "a\r\nb\n\nc".lines().collect::<Vec<_>>());
    let v = chars_of("x\n");
    assert_eq!(lines_exec(&v).len(), 1);
    assert!(lines_exec(&chars_of("")).is_empty());
}

#[test]
fn fields_split_on_any_whitespace() {
    let v = chars_of("  UUID=1 \t/  ext4\u{a0}x ");
    let f: Vec<String> = split_whitespace(&v).iter().map(|w| s(w)).collect();
    assert_eq!(f, vec!["UUID=1", "/", "ext4", "x"]);
}

#[test]
fn trim_by_pattern() {
    assert_eq!(s(&trim_exec(&chars_of("  a b \n"), Pat::Ws)), "a b");
    assert_eq!(s(&trim_exec(&chars_of("\"\"x\""), Pat::Ch('"'))), "x");
}

#[test]
fn replace_and_search() {
    let r = replace_exec(&chars_of("aXbXc"), &chars_of("X"), &chars_of("--"));
    assert_eq!(s(&r), "a--b--c");
    assert!(contains_str(&chars_of("hello world"), "o w"));
    assert!(!contains_str(&chars_of("hello"), "hellox"));
    assert_eq!(find_char(&chars_of("a/b/c"), '/'), Some(1));
    assert_eq!(find_char(&chars_of("abc"), '/'), None);
}

#[test]
fn ascii_case_insensitive_comparison() {
    assert!(eq_ignore_ascii_case_exec(&chars_of("AbC-1"), &chars_of("aBc-1")));
    assert!(!eq_ignore_ascii_case_exec(&chars_of("abc"), &chars_of("abd")));
    assert!(!eq_ignore_ascii_case_exec(&chars_of("\u{c9}"), &chars_of("\u{e9}")));
    assert_eq!(string_of(&vec!['o', 'k']), "ok");
}
