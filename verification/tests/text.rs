use std::path::PathBuf;
use torfile::text::{align_right, contains, decimal_text, ends_with, file_name, is_whitespace, join, parse_up_to, push_repeated, push_two_digits, same, split_at_char, starts_with, take_chars, trim};

const SAMPLES: [&str; 16] = [
    "",
    " ",
    "a",
    "  a b \t\n",
    "\u{3000}é\u{85}",
    "x.torrent",
    "http://h/x.torrent?k=1",
    "a/b/c.iso",
    "/",
    "/a/..",
    "a/.",
    "./a//",
    "..",
    "+12",
    "007",
    "日本語のファイル",
];

#[test]
fn white_space_is_as_unicode_has_it() {
    for u in 0..=0x10FFFFu32 {
        if let Some(c) = char::from_u32(u) {
            assert_eq!(is_whitespace(c), c.is_whitespace(), "{:x}", u);
        }
    }
}

#[test]
fn trimming() {
    for s in SAMPLES {
        assert_eq!(trim(s), s.trim());
        assert_eq!(trim(&trim(s)), trim(s));
    }
}

#[test]
fn searching_in_texts() {
    for s in SAMPLES {
        for t in SAMPLES {
            assert_eq!(same(s, t), s == t);
            assert_eq!(starts_with(s, t), s.starts_with(t));
            assert_eq!(ends_with(s, t), s.ends_with(t));
            assert_eq!(contains(s, t), s.contains(t));
        }
        assert_eq!(split_at_char(s, '/'), s.split('/').collect::<Vec<&str>>());
    }
}

#[test]
fn numbers_are_read_as_the_standard_library_reads_them() {
    let texts = [
        "", "+", "-1", "0", "00", "+7", "++7", "7 ", " 7", "4294967295", "4294967296", "18446744073709551615",
        "18446744073709551616", "99999999999999999999999", "1e3", "0x1", "٣",
    ];
    for s in texts {
        assert_eq!(parse_up_to(s, u64::MAX), s.parse::<u64>().ok(), "{}", s);
        assert_eq!(parse_up_to(s, u32::MAX as u64), s.parse::<u32>().ok().map(|n| n as u64), "{}", s);
    }
}

#[test]
fn numbers_are_written_and_read_back() {
    for n in [0, 9, 10, 42, 1000, u64::MAX] {
        assert_eq!(decimal_text(n), n.to_string());
        assert_eq!(parse_up_to(&decimal_text(n), u64::MAX), Some(n));
        let mut s = String::new();
        push_two_digits(&mut s, n);
        assert_eq!(s, format!("{:02}", n));
    }
}

#[test]
fn fields_are_aligned() {
    assert_eq!(align_right("ab", 5), "   ab");
    assert_eq!(align_right("abcdef", 5), "abcdef");
    assert_eq!(align_right("↓é", 4), format!("{:>4}", "↓é"));
    let mut s = "x".to_string();
    push_repeated(&mut s, '█', 3);
    assert_eq!(s, "x███");
    assert_eq!(take_chars("日本語", 2), "日本");
    assert_eq!(take_chars("日本語", 9), "日本語");
}

#[test]
fn file_names_are_as_paths_have_them() {
    for s in SAMPLES {
        let expected = PathBuf::from(s).file_name().map(|n| n.to_string_lossy().into_owned());
        assert_eq!(file_name(s), expected, "{}", s);
    }
}

#[test]
fn joining() {
    let v = vec!["a".to_string(), "".to_string(), "c".to_string()];
    assert_eq!(join(&v, ","), v.join(","));
    assert_eq!(join(&Vec::new(), ","), "");
}
