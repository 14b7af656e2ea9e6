use poem_gen::text::{
    chars_of, is_blank, is_whitespace, repeat, to_ascii_lowercase, trim, truncate,
};

fn every_char() -> Vec<char> {
    (0u32..=0x10FFFF).filter_map(char::from_u32).collect()
}

#[test]
fn whitespace_is_what_std_calls_whitespace() {
    for c in every_char() {
        assert_eq!(is_whitespace(c), c.is_whitespace(), "U+{:04X}", c as u32);
    }
}

#[test]
fn whitespace_has_twenty_five_code_points() {
    let count = every_char().into_iter().filter(|c| is_whitespace(*c)).count();
    assert_eq!(count, 25);
    assert!(is_whitespace(' '));
    assert!(is_whitespace('\n'));
    assert!(is_whitespace('\t'));
    assert!(is_whitespace('\u{3000}'));
    assert!(!is_whitespace('-'));
    assert!(!is_whitespace('\u{200B}'));
}

#[test]
fn lowercase_is_what_std_calls_ascii_lowercase() {
    for c in every_char() {
        assert_eq!(to_ascii_lowercase(c), c.to_ascii_lowercase(), "U+{:04X}", c as u32);
    }
}

#[test]
fn lowercase_touches_ascii_capitals_only() {
    assert_eq!(to_ascii_lowercase('A'), 'a');
    assert_eq!(to_ascii_lowercase('Z'), 'z');
    assert_eq!(to_ascii_lowercase('m'), 'm');
    assert_eq!(to_ascii_lowercase('@'), '@');
    assert_eq!(to_ascii_lowercase('['), '[');
    assert_eq!(to_ascii_lowercase('É'), 'É');
}

#[test]
fn chars_of_gives_every_character_in_order() {
    assert_eq!(chars_of("héllo"), vec!['h', 'é', 'l', 'l', 'o']);
    assert_eq!(chars_of(""), Vec::<char>::new());
}

const SAMPLES: [&str; 14] = [
    "",
    " ",
    "a",
    "  a b \n",
    "\n\n  Ode to a Robot\t\r\n",
    "no padding",
    " \t\r\n",
    "\u{3000}wide\u{3000}",
    "\u{a0}hard space\u{a0}",
    "é ",
    " é",
    "a\u{200b} ",
    "\u{2028}line\u{2029}",
    "  inner  space  ",
];

#[test]
fn trim_is_what_std_calls_trim() {
    for s in SAMPLES {
        assert_eq!(trim(s), s.trim(), "{:?}", s);
    }
}

#[test]
fn trim_takes_off_whitespace_at_both_ends_only() {
    assert_eq!(trim("  a b \n"), "a b");
    assert_eq!(trim("\n\n  Ode to a Robot\t\r\n"), "Ode to a Robot");
    assert_eq!(trim(" \t\r\n"), "");
    assert_eq!(trim(""), "");
    assert_eq!(trim("a\u{200b} "), "a\u{200b}");
}

#[test]
fn trim_twice_is_trim_once() {
    for s in SAMPLES {
        assert_eq!(trim(trim(s)), trim(s), "{:?}", s);
    }
}

#[test]
fn blank_is_empty_or_all_whitespace() {
    assert!(is_blank(""));
    assert!(is_blank(" "));
    assert!(is_blank(" \t\r\n\u{3000}"));
    assert!(!is_blank(" a "));
    assert!(!is_blank("-"));
    for s in SAMPLES {
        assert_eq!(is_blank(s), s.trim().is_empty(), "{:?}", s);
    }
}

#[test]
fn truncate_counts_characters_not_bytes() {
    assert_eq!(truncate("hello", 3), "hel");
    assert_eq!(truncate("hello", 5), "hello");
    assert_eq!(truncate("hello", 9), "hello");
    assert_eq!(truncate("hello", 0), "");
    assert_eq!(truncate("héllo", 2), "hé");
    assert_eq!(truncate("", 4), "");
}

#[test]
fn repeat_gives_the_character_that_many_times() {
    assert_eq!(repeat('-', 0), "");
    assert_eq!(repeat('=', 3), "===");
    let rule = repeat('-', 80);
    assert_eq!(rule.chars().count(), 80);
    assert!(rule.chars().all(|c| c == '-'));
    assert_eq!(repeat('é', 2), "éé");
}
