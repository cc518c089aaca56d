use monty_python::text::{chars_of, count_lines, print_ids, replace_all, to_decimal};
use monty_python::version::get_version;

#[test]
fn decimals() {
    assert_eq!(to_decimal(0), "0");
    assert_eq!(to_decimal(9), "9");
    assert_eq!(to_decimal(10), "10");
    assert_eq!(to_decimal(90210), "90210");
    assert_eq!(to_decimal(u64::MAX), "18446744073709551615");
}

#[test]
fn lines_are_counted() {
    assert_eq!(count_lines(""), 0);
    assert_eq!(count_lines("x"), 1);
    assert_eq!(count_lines("x\n"), 1);
    assert_eq!(count_lines("x\ny"), 2);
    assert_eq!(count_lines("\n\n"), 2);
    assert_eq!(count_lines("\r\n\u{85}"), 2);
    for code in ["", "a", "a\n", "a\nb", "\n\nb\r\n", "\u{e9}\n\u{2028}"] {
        assert_eq!(count_lines(code), code.lines().count());
    }
}

#[test]
fn characters_of_a_text() {
    assert_eq!(chars_of("a\u{e9}\u{1f40d}"), vec!['a', '\u{e9}', '\u{1f40d}']);
    assert!(chars_of("").is_empty());
}

#[test]
fn replacing() {
    assert_eq!(replace_all("aaaa", "aa", "b"), "bb");
    assert_eq!(replace_all("aaa", "aa", "b"), "ba");
    assert_eq!(replace_all("abc", "x", "y"), "abc");
    assert_eq!(replace_all("", "x", "y"), "");
    assert_eq!(replace_all("xyx", "x", ""), "y");
    for (text, from, to) in [("banana", "an", "x"), ("--a", "-a", ""), ("aab", "ab", "aab")] {
        assert_eq!(replace_all(text, from, to), text.replace(from, to));
    }
}

#[test]
fn version_for_python() {
    assert_eq!(get_version("1.0-alpha1"), "1.0a1");
    assert_eq!(get_version("1.0.0-beta.2"), "1.0.0b.2");
    assert_eq!(get_version("0.0.4-alpha1-beta2"), "0.0.4a1b2");
}

#[test]
fn version_of_a_final_release() {
    assert_eq!(get_version("0.0.4"), "0.0.4");
    assert_eq!(get_version("1.2.3-rc.1"), "1.2.3-rc.1");
}

#[test]
fn lists_of_identifiers() {
    assert_eq!(print_ids(&vec![]), "[]");
    assert_eq!(print_ids(&vec![7]), "[7]");
    assert_eq!(print_ids(&vec![0, 12, u32::MAX]), "[0, 12, 4294967295]");
}
