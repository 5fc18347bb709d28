//! Tests of the text and number helpers against std.

use wuffagent_egui::numbers::{count_text, decimal_text, float_quotient_text, read_unsigned};
use wuffagent_egui::paths::is_same_path;
use wuffagent_egui::pieces::{
    char_count, count_lines, joined, split_at_most, split_commas, split_fields, split_lines,
    split_words, take_chars, truncate,
};
use wuffagent_egui::text::{
    begins_with, cut_first, cut_last, cut_prefix, cut_suffix, has_text, is_blank, list_has,
    same_text, space, trimmed,
};

const SAMPLES: [&str; 14] = [
    "", " ", "a", " a ", "a,b", ",", " a , ,b ", "a||b||c||d||e", "||", "x: y — z — w",
    "line\r\nnext\n\nlast\n", "\r\n", "a\rb\r", "\u{3000}wide\u{a0}",
];

#[test]
fn spaces_are_those_of_std() {
    for code in 0..=0x10ffff_u32 {
        if let Some(c) = char::from_u32(code) {
            assert_eq!(space(c), c.is_whitespace(), "{:x}", code);
        }
    }
}

#[test]
fn trimming_and_splitting_as_std_does() {
    for s in SAMPLES {
        assert_eq!(trimmed(s), s.trim(), "{:?}", s);
        assert_eq!(is_blank(s), s.trim().is_empty(), "{:?}", s);
        assert_eq!(split_fields(s, ','), s.split(',').collect::<Vec<_>>(), "{:?}", s);
        assert_eq!(split_lines(s), s.lines().collect::<Vec<_>>(), "{:?}", s);
        assert_eq!(count_lines(s), s.lines().count(), "{:?}", s);
        assert_eq!(split_words(s), s.split_whitespace().collect::<Vec<_>>(), "{:?}", s);
        for n in 1..5 {
            assert_eq!(split_at_most(s, "||", n), s.splitn(n, "||").collect::<Vec<_>>(), "{:?}", s);
        }
        let commas: Vec<&str> = s.split(',').map(|p| p.trim()).filter(|p| !p.is_empty()).collect();
        assert_eq!(split_commas(s), commas, "{:?}", s);
        assert_eq!(char_count(s), s.chars().count());
        assert_eq!(take_chars(s, 3), s.chars().take(3).collect::<String>());
    }
}

#[test]
fn finding_as_std_does() {
    for s in SAMPLES {
        for p in ["", "a", ",", "||", " — ", ": ", "\n", "last\n"] {
            assert_eq!(has_text(s, p), s.contains(p), "{:?} {:?}", s, p);
            assert_eq!(begins_with(s, p), s.starts_with(p), "{:?} {:?}", s, p);
            let owned = |x: Option<(&str, &str)>| x.map(|(a, b)| (a.to_string(), b.to_string()));
            assert_eq!(cut_first(s, p), owned(s.split_once(p)), "{:?} {:?}", s, p);
            assert_eq!(cut_last(s, p), owned(s.rsplit_once(p)), "{:?} {:?}", s, p);
            assert_eq!(cut_prefix(s, p).as_deref(), s.strip_prefix(p), "{:?} {:?}", s, p);
            assert_eq!(cut_suffix(s, p).as_deref(), s.strip_suffix(p), "{:?} {:?}", s, p);
        }
        for t in SAMPLES {
            assert_eq!(same_text(s, t), s == t);
        }
    }
}

#[test]
fn lists_are_joined_and_searched() {
    let v = vec!["a".to_string(), "".to_string(), "b".to_string()];
    assert_eq!(joined(&v, ", "), v.join(", "));
    assert_eq!(joined(&vec![], ", "), "");
    assert!(list_has(&v, ""));
    assert!(!list_has(&v, "c"));
    // A list without commas and outer spaces reads back from its text.
    let tools = vec!["file io".to_string(), "shell".to_string()];
    assert_eq!(split_commas(&joined(&tools, ", ")), tools);
}

#[test]
fn long_texts_are_cut() {
    assert_eq!(truncate("abc", 3), "abc");
    assert_eq!(truncate("äöüß", 3), "äö…");
}

#[test]
fn numbers_are_written_and_read_as_std_does() {
    for n in [0, 7, 10, 99, 100, 4_294_967_295, u64::MAX] {
        assert_eq!(decimal_text(n), n.to_string());
        assert_eq!(read_unsigned(&n.to_string(), u64::MAX), Some(n));
    }
    assert_eq!(count_text(usize::MAX), usize::MAX.to_string());
    for s in ["", "+", "+1", "-1", "01", " 1", "1 ", "1a", "18446744073709551616", "９"] {
        assert_eq!(read_unsigned(s, u64::MAX), s.parse::<u64>().ok(), "{:?}", s);
        assert_eq!(read_unsigned(s, u32::MAX as u64).map(|n| n as u32), s.parse::<u32>().ok());
    }
}

#[test]
fn quotients_are_written_as_floats_are() {
    let mut samples: Vec<u64> = (0..70_000).collect();
    samples.extend((1_000_000..3_000_000).step_by(50));
    let mut x: u64 = 0x9e37_79b9_7f4a_7c15;
    for _ in 0..20_000 {
        x = x.wrapping_mul(6364136223846793005).wrapping_add(1442695040888963407);
        samples.push(x);
        samples.push(x >> 11);
        samples.push(x >> 40);
    }
    samples.extend([u64::MAX, u64::MAX - 1, 1 << 53, (1 << 53) + 1, 250, 750, 1250, 99_950]);
    for n in samples {
        for scale in [1_000_u64, 1_000_000] {
            if n < scale || n / scale >= 1 << 53 {
                continue;
            }
            let q = n as f64 / scale as f64;
            assert_eq!(float_quotient_text(n, scale, true), format!("{:.1}", q), "{}/{}", n, scale);
            assert_eq!(float_quotient_text(n, scale, false), format!("{:.0}", q), "{}/{}", n, scale);
        }
    }
}

#[test]
fn paths_are_compared_as_std_does() {
    let paths = [
        "", ".", "/", "//", "a", "a/", "a/.", "./a", "././a", "a/b", "a//b", "a/./b", "a/../b",
        "/a", "//a", "/./a", "./", "..", "../a", "a/b/", ".a", "a.", "/.", "./.",
    ];
    for a in paths {
        for b in paths {
            let wanted = std::path::Path::new(a) == std::path::Path::new(b);
            assert_eq!(is_same_path(a, b), wanted, "{:?} {:?}", a, b);
        }
    }
}
