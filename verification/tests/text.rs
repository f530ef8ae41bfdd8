use corerun::path::{absolute, join, strip_root, under_root};
use corerun::text::{
    chars_of, contains, decimal_string, parse_unsigned, signed_string, split, starts_with,
    string_of, to_lower,
};

fn cs(s: &str) -> Vec<char> {
    s.chars().collect()
}

#[test]
fn chars_and_back() {
    let v = chars_of("héllo");
    assert_eq!(v, vec!['h', 'é', 'l', 'l', 'o']);
    assert_eq!(string_of(&v), "héllo");
}

#[test]
fn decimal_of_numbers() {
    assert_eq!(decimal_string(0), "0");
    assert_eq!(decimal_string(7), "7");
    assert_eq!(decimal_string(67108864), "67108864");
    assert_eq!(decimal_string(u64::MAX), "18446744073709551615");
    assert_eq!(signed_string(-50), "-50");
    assert_eq!(signed_string(i64::MIN), "-9223372036854775808");
    assert_eq!(signed_string(12), "12");
}

#[test]
fn unsigned_numbers_are_read_like_the_standard_library_reads_them() {
    for s in ["0", "80", "+80", "0080", "65535", "65536", "", "+", "-1", " 1", "1 ", "1_0", "٣"] {
        let expected = s.parse::<u16>().ok().map(u64::from);
        assert_eq!(parse_unsigned(&cs(s), 65535), expected, "{:?}", s);
    }
    assert_eq!(parse_unsigned(&cs("99999999999999999999999999"), 65535), None);
}

#[test]
fn reading_back_what_was_written() {
    for n in [0u64, 1, 9, 10, 99, 100, 65535] {
        assert_eq!(parse_unsigned(&cs(&decimal_string(n)), 65535), Some(n));
    }
}

#[test]
fn split_keeps_empty_pieces() {
    let parts = split(&cs("a::b:"), ':');
    let parts: Vec<String> = parts.iter().map(|p| p.iter().collect()).collect();
    assert_eq!(parts, vec!["a", "", "b", ""]);
    assert_eq!(split(&cs(""), ':'), vec![Vec::<char>::new()]);
    assert_eq!(split(&cs("abc"), ':'), vec![cs("abc")]);
}

#[test]
fn split_agrees_with_the_standard_library() {
    for s in ["8080:80/tcp", "/a:/b:ro", ":", "::", "x", ""] {
        let ours: Vec<String> = split(&cs(s), ':').iter().map(|p| p.iter().collect()).collect();
        let theirs: Vec<String> = s.split(':').map(|p| p.to_string()).collect();
        assert_eq!(ours, theirs);
    }
}

#[test]
fn finds_texts_inside_texts() {
    assert!(contains(&cs("RTNETLINK answers: File exists"), &cs("File exists")));
    assert!(!contains(&cs("RTNETLINK answers: File exist"), &cs("File exists")));
    assert!(contains(&cs("abc"), &cs("")));
    assert!(contains(&cs(""), &cs("")));
    assert!(!contains(&cs(""), &cs("a")));
    assert!(contains(&cs("aab"), &cs("ab")));
    assert!(starts_with(&cs("container:abc"), &cs("container:")));
    assert!(!starts_with(&cs("contain"), &cs("container:")));
}

#[test]
fn lower_case_touches_only_latin_capitals() {
    assert_eq!(to_lower(&cs("TcP/Ü1")), cs("tcp/Ü1"));
}

#[test]
fn paths_under_a_root() {
    assert!(absolute(&cs("/data")));
    assert!(!absolute(&cs("data")));
    assert!(!absolute(&cs("")));
    assert_eq!(strip_root(&cs("//data/x")), cs("data/x"));
    assert_eq!(join(&cs("/tmp"), &cs("CoreRun")), cs("/tmp/CoreRun"));
    assert_eq!(join(&cs("/tmp/"), &cs("CoreRun")), cs("/tmp/CoreRun"));
    assert_eq!(join(&cs(""), &cs("CoreRun")), cs("CoreRun"));
    assert_eq!(join(&cs("/tmp"), &cs("/abs")), cs("/abs"));
    assert_eq!(under_root("/tmp/rfs", "/data"), "/tmp/rfs/data");
    assert_eq!(under_root("/tmp/rfs/", "/data/x"), "/tmp/rfs/data/x");
    assert_eq!(under_root("/", "/data"), "/data");
}

#[test]
fn paths_agree_with_the_standard_library() {
    for (root, dest) in [("/tmp/rfs", "/data"), ("/r/", "/a/b"), ("/", "/x"), ("/r", "/")] {
        let d = std::path::Path::new(dest);
        let theirs = std::path::Path::new(root).join(d.strip_prefix("/").unwrap_or(d));
        assert_eq!(std::path::PathBuf::from(under_root(root, dest)), theirs);
    }
}
