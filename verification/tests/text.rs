use hoshizora_parser::text::{
    chars_of, find, is_whitespace, is_word, split, split_once, starts_with, strings_of,
    strip_end, strip_prefix, strip_start, trim,
};

fn chars(s: &str) -> Vec<char> {
    s.chars().collect()
}

fn text(s: &[char]) -> String {
    s.iter().collect()
}

const SAMPLES: [&str; 16] = [
    "",
    " ",
    "a",
    " a ",
    "\t a,b ,c\r\n",
    ",",
    ",,",
    "a,",
    ",a",
    "a,b,c",
    "256,192,11000,21,2",
    "\u{3000}x\u{a0}",
    "\u{2003}\u{2028} y \u{85}",
    "x\u{200b}",
    "[[a]]",
    "0:0|0:0|0:2",
];

#[test]
fn white_space_is_what_unicode_says() {
    for n in 0u32..=0x10FFFF {
        if let Some(c) = char::from_u32(n) {
            assert_eq!(is_whitespace(c), c.is_whitespace(), "U+{:04X}", n);
        }
    }
}

#[test]
fn chars_of_gives_every_character() {
    for s in SAMPLES {
        assert_eq!(chars_of(s), chars(s));
    }
    assert_eq!(chars_of("\u{97f3}a"), vec!['\u{97f3}', 'a']);
}

#[test]
fn trim_removes_white_space_at_both_ends() {
    for s in SAMPLES {
        assert_eq!(text(trim(&chars(s))), s.trim());
    }
    assert_eq!(text(trim(&chars("  a b  "))), "a b");
    assert_eq!(text(trim(&chars(" \t\r\n"))), "");
}

#[test]
fn find_gives_the_first_place() {
    assert_eq!(find(&chars("a,b,c"), ','), 1);
    assert_eq!(find(&chars(",b"), ','), 0);
    assert_eq!(find(&chars("abc"), ','), 3);
    assert_eq!(find(&chars(""), ','), 0);
}

#[test]
fn split_once_cuts_at_the_first_place() {
    for s in SAMPLES {
        for d in [',', ':', '|', ' '] {
            let v = chars(s);
            let got = split_once(&v, d).map(|(a, b)| (text(a), text(b)));
            let expected = s.split_once(d).map(|(a, b)| (a.to_string(), b.to_string()));
            assert_eq!(got, expected);
        }
    }
    let v = chars("12000:3:0:0:80:");
    let (a, b) = split_once(&v, ':').unwrap();
    assert_eq!(text(a), "12000");
    assert_eq!(text(b), "3:0:0:80:");
}

#[test]
fn split_gives_every_piece() {
    for s in SAMPLES {
        for d in [',', ':', '|', ' ', '\n'] {
            let v = chars(s);
            let got: Vec<String> = split(&v, d).iter().map(|p| text(p)).collect();
            let expected: Vec<String> = s.split(d).map(|p| p.to_string()).collect();
            assert_eq!(got, expected);
        }
    }
    let v = chars("a,,b,");
    let got: Vec<String> = split(&v, ',').iter().map(|p| text(p)).collect();
    assert_eq!(got, vec!["a", "", "b", ""]);
    assert_eq!(split(&chars(""), ',').len(), 1);
}

#[test]
fn words_and_prefixes() {
    assert!(is_word(&chars("Title"), "Title"));
    assert!(!is_word(&chars("Title"), "Titles"));
    assert!(!is_word(&chars("Titles"), "Title"));
    assert!(!is_word(&chars("title"), "Title"));
    assert!(is_word(&chars(""), ""));
    assert!(!is_word(&chars("a"), ""));
    assert!(starts_with(&chars("// x"), "//"));
    assert!(starts_with(&chars("//"), "//"));
    assert!(!starts_with(&chars("/"), "//"));
    assert!(!starts_with(&chars(" //"), "//"));
    assert!(starts_with(&chars("abc"), ""));
    for s in SAMPLES {
        for p in ["", " ", "a", "a,", "[[", "\u{3000}"] {
            assert_eq!(starts_with(&chars(s), p), s.starts_with(p));
            assert_eq!(is_word(&chars(s), p), s == p);
        }
    }
}

#[test]
fn stripping() {
    for s in SAMPLES {
        for c in ['[', ']', ' ', ',', 'a'] {
            assert_eq!(text(strip_start(&chars(s), c)), s.trim_start_matches(c));
            assert_eq!(text(strip_end(&chars(s), c)), s.trim_end_matches(c));
        }
        for p in ["", "a", "a,", "[", ",", "osu file format v"] {
            assert_eq!(text(strip_prefix(&chars(s), p)), s.trim_start_matches(p));
        }
    }
    assert_eq!(
        text(strip_prefix(&chars("ababab7"), "ab")),
        "ababab7".trim_start_matches("ab")
    );
    assert_eq!(text(strip_prefix(&chars("ababab7"), "ab")), "7");
    assert_eq!(text(strip_start(&chars("[[[")[..], '[')), "");
    assert_eq!(text(strip_end(&chars("]]]")[..], ']')), "");
}

#[test]
fn strings_of_copies_each_piece() {
    let v = chars("one two  three");
    let parts = split(&v, ' ');
    assert_eq!(strings_of(&parts), vec!["one", "two", "", "three"]);
}
