use tomato_clock::text::{
    chars_of, copy_range, is_whitespace, push_all, push_decimal, push_two_digits, replaced,
    split_at_char, stands_at, string_of, to_u32, trimmed,
};

fn chars(s: &str) -> Vec<char> {
    s.chars().collect()
}

fn text(v: &[char]) -> String {
    v.iter().collect()
}

const SAMPLES: [&str; 24] = [
    "",
    " ",
    "a",
    " a",
    "a ",
    "  a b  ",
    "\t\n x \r\n",
    "\u{3000}Work\u{a0}",
    "\u{2003}\u{2028}",
    "Work:25,Break:5",
    ",",
    ",,",
    ",a,",
    "a,b",
    "::",
    "a:b:c",
    "{icon} {status}: {remaining}",
    "{{icon}}",
    "{icon}{icon}",
    "{ico",
    "aaa",
    "aaaa",
    "\u{1f345} tomato",
    "x{phase}y{phase}",
];

#[test]
fn chars_and_strings_round_trip() {
    for s in SAMPLES {
        assert_eq!(chars_of(s), chars(s));
        assert_eq!(string_of(&chars(s)), s);
    }
}

#[test]
fn copy_range_takes_the_slice() {
    let v = chars("0123456789");
    assert_eq!(text(&copy_range(&v, 2, 5)), "234");
    assert_eq!(text(&copy_range(&v, 0, 10)), "0123456789");
    assert_eq!(text(&copy_range(&v, 7, 7)), "");
}

#[test]
fn whitespace_is_the_unicode_property() {
    for n in 0..=0x10ffffu32 {
        if let Some(c) = char::from_u32(n) {
            assert_eq!(is_whitespace(c), c.is_whitespace(), "U+{:04X}", n);
        }
    }
}

#[test]
fn trimmed_drops_white_space_at_both_ends() {
    for s in SAMPLES {
        assert_eq!(text(&trimmed(&chars(s))), s.trim(), "{:?}", s);
    }
    assert_eq!(text(&trimmed(&chars("  a b  "))), "a b");
    assert_eq!(text(&trimmed(&chars("   "))), "");
}

#[test]
fn split_gives_the_pieces_between_separators() {
    for s in SAMPLES {
        for sep in [',', ':', 'a', ' '] {
            let got: Vec<String> = split_at_char(&chars(s), sep).iter().map(|p| text(p)).collect();
            let expected: Vec<String> = s.split(sep).map(|p| p.to_string()).collect();
            assert_eq!(got, expected, "{:?} at {:?}", s, sep);
        }
    }
    let got: Vec<String> = split_at_char(&chars(",a,"), ',').iter().map(|p| text(p)).collect();
    assert_eq!(got, vec!["", "a", ""]);
    assert_eq!(split_at_char(&chars(""), ',').len(), 1);
}

#[test]
fn to_u32_reads_decimal_numbers() {
    assert_eq!(to_u32(&chars("0")), Some(0));
    assert_eq!(to_u32(&chars("25")), Some(25));
    assert_eq!(to_u32(&chars("+25")), Some(25));
    assert_eq!(to_u32(&chars("007")), Some(7));
    assert_eq!(to_u32(&chars("4294967295")), Some(u32::MAX));
    assert_eq!(to_u32(&chars("00000000004294967295")), Some(u32::MAX));
    assert_eq!(to_u32(&chars("4294967296")), None);
    assert_eq!(to_u32(&chars("99999999999999999999999")), None);
    assert_eq!(to_u32(&chars("")), None);
    assert_eq!(to_u32(&chars("+")), None);
    assert_eq!(to_u32(&chars("-")), None);
    assert_eq!(to_u32(&chars("-5")), None);
    assert_eq!(to_u32(&chars("++5")), None);
    assert_eq!(to_u32(&chars("5+")), None);
    assert_eq!(to_u32(&chars(" 5")), None);
    assert_eq!(to_u32(&chars("1e3")), None);
    assert_eq!(to_u32(&chars("12a")), None);
    assert_eq!(to_u32(&chars("٣")), None);
}

#[test]
fn to_u32_agrees_with_the_standard_parser() {
    let inputs = [
        "", "+", "-", "0", "+0", "-0", "1", "10", "0010", "4294967295", "4294967296",
        "42949672950", "+4294967295", "+4294967296", "12 ", " 12", "1_000", "0x10", "1.5",
        "９", "a", "+a", "429496729", "4294967290", "4294967299", "5000000000",
    ];
    for s in inputs {
        assert_eq!(to_u32(&chars(s)), s.parse::<u32>().ok(), "{:?}", s);
    }
}

#[test]
fn decimal_is_written_without_leading_zeros() {
    for n in [0u64, 1, 9, 10, 11, 99, 100, 101, 1500, 65535, 4294967295, u64::MAX] {
        let mut out = vec!['>'];
        push_decimal(&mut out, n);
        assert_eq!(text(&out), format!(">{}", n));
    }
}

#[test]
fn two_digits_pads_with_a_zero() {
    for n in [0u64, 1, 9, 10, 59, 99, 100, 12345] {
        let mut out = Vec::new();
        push_two_digits(&mut out, n);
        assert_eq!(text(&out), format!("{:02}", n));
    }
}

#[test]
fn push_all_appends() {
    let mut out = chars("ab");
    push_all(&mut out, &chars("cd"));
    push_all(&mut out, &chars(""));
    assert_eq!(text(&out), "abcd");
}

#[test]
fn stands_at_compares_in_place() {
    let v = chars("x{icon}y");
    assert!(stands_at(&v, 1, &chars("{icon}")));
    assert!(!stands_at(&v, 0, &chars("{icon}")));
    assert!(!stands_at(&v, 2, &chars("{icon}")));
    assert!(!stands_at(&v, 3, &chars("{icon}")));
    assert!(stands_at(&v, 8, &chars("")));
    assert!(!stands_at(&v, 7, &chars("yy")));
}

#[test]
fn replaced_agrees_with_the_standard_replace() {
    for s in SAMPLES {
        for (pattern, to) in [
            ("{icon}", "T"),
            ("{phase}", ""),
            ("a", "aa"),
            ("aa", "b"),
            (",", ", "),
            (" ", ""),
            ("{icon}", "{icon}{icon}"),
            ("", "-"),
            ("", ""),
        ] {
            assert_eq!(
                text(&replaced(&chars(s), &chars(pattern), &chars(to))),
                s.replace(pattern, to),
                "{:?} {:?} {:?}",
                s,
                pattern,
                to
            );
        }
    }
    assert_eq!(text(&replaced(&chars("aaaa"), &chars("aa"), &chars("b"))), "bb");
    assert_eq!(text(&replaced(&chars("aaa"), &chars("aa"), &chars("b"))), "ba");
    assert_eq!(text(&replaced(&chars("abc"), &chars(""), &chars("-"))), "-a-b-c-");
    assert_eq!(text(&replaced(&chars(""), &chars(""), &chars("-"))), "-");
}
