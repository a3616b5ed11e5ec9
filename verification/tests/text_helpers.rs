use rustora::install_dialog::parse_dnf_info;
use rustora::text::{
    chars_of, join_strings, lines_vec, lowercase_contains, parse_u64_vec, replace_all_vec,
    split_on_vec, trim_text,
};

fn string_of(v: &[char]) -> String {
    v.iter().collect()
}

fn lines_of(s: &str) -> Vec<String> {
    lines_vec(&chars_of(s)).iter().map(|l| string_of(l)).collect()
}

#[test]
fn lines_match_std_lines() {
    let samples = [
        "",
        "a",
        "a\n",
        "a\nb",
        "a\r\nb\r\n",
        "\n\n",
        "x\r",
        "one\ntwo\n\nthree\r\n",
        "\r\n",
    ];
    for s in samples {
        let expected: Vec<String> = s.lines().map(|l| l.to_string()).collect();
        assert_eq!(lines_of(s), expected, "input {:?}", s);
    }
}

#[test]
fn trim_matches_std_trim() {
    for s in ["", "  ", " a ", "\t a b \n", "\u{3000}x\u{3000}", "plain"] {
        assert_eq!(trim_text(s), s.trim(), "input {:?}", s);
    }
}

#[test]
fn parse_matches_std_parse() {
    for s in [
        "0",
        "42",
        "+7",
        "-1",
        "",
        "+",
        "18446744073709551615",
        "18446744073709551616",
        "12a",
        " 5",
        "007",
    ] {
        assert_eq!(parse_u64_vec(&chars_of(s)), s.parse::<u64>().ok(), "input {:?}", s);
    }
}

#[test]
fn split_matches_std_split() {
    for s in ["", "a/b", "/a//b/", "no-slash"] {
        let got: Vec<String> = split_on_vec(&chars_of(s), '/').iter().map(|p| string_of(p)).collect();
        let expected: Vec<String> = s.split('/').map(|p| p.to_string()).collect();
        assert_eq!(got, expected);
    }
}

#[test]
fn replace_matches_std_replace() {
    let s = "kernel-6.1-kernel-x";
    let got = string_of(&replace_all_vec(&chars_of(s), "kernel-", "kernel-headers-"));
    assert_eq!(got, s.replace("kernel-", "kernel-headers-"));
}

#[test]
fn join_puts_separator_between() {
    let parts = vec!["a".to_string(), "b".to_string(), "c".to_string()];
    assert_eq!(join_strings(&parts, ", "), "a, b, c");
    assert_eq!(join_strings(&Vec::new(), ", "), "");
}

#[test]
fn lowercase_search_ignores_case() {
    assert!(lowercase_contains("SUCCESS Done", "success done"));
    assert!(lowercase_contains("Complete!", "complete"));
    assert!(!lowercase_contains("ABC", "ABC"));
}

#[test]
fn capitalised_short_field_ends_description() {
    let out = "Description : first line\n  note: still text\nHomepage : https://x\nmore words\n";
    let info = parse_dnf_info("pkg", out);
    assert_eq!(info.description, "first line note: still text");
}
