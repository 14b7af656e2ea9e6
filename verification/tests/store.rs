use poem_gen::store::{
    base_path, collapse, file_path, file_text, is_stripped, lowercase, poem_dir, slug, strip,
    RULE, RULE_LENGTH, SEPARATOR,
};

#[test]
fn stripped_characters_are_the_seven() {
    let stripped: Vec<char> =
        (0u32..=0x10FFFF).filter_map(char::from_u32).filter(|c| is_stripped(*c)).collect();
    assert_eq!(stripped, vec!['\n', '"', '\'', ',', '/', ':', '?']);
}

#[test]
fn lowercase_is_what_std_calls_ascii_lowercase_of_a_string() {
    assert_eq!(lowercase("Ode To A ROBOT"), "ode to a robot");
    assert_eq!(lowercase("ÉCOLE Z"), "École z");
    assert_eq!(lowercase(""), "");
    for s in ["Mixed Case 123", "ÄÖÜ abc XYZ", "already small"] {
        assert_eq!(lowercase(s), s.to_ascii_lowercase());
    }
}

#[test]
fn strip_takes_out_the_punctuation_and_nothing_else() {
    assert_eq!(strip("\"Why?\": a/b, 'c'\nd"), "Why a/b c'd".replace(['/', '\''], ""));
    assert_eq!(strip("\"Why?\": a/b, 'c'\nd"), "Why ab cd");
    assert_eq!(strip("plain text."), "plain text.");
    assert_eq!(strip("\"\"::,,??//''\n\n"), "");
}

#[test]
fn collapse_puts_one_separator_for_each_run() {
    assert_eq!(SEPARATOR, '-');
    assert_eq!(collapse("a b"), "a-b");
    assert_eq!(collapse("a   b"), "a-b");
    assert_eq!(collapse("a \t\u{3000} b  c"), "a-b-c");
    assert_eq!(collapse("  a  "), "-a-");
    assert_eq!(collapse(" "), "-");
    assert_eq!(collapse(""), "");
    assert_eq!(collapse("a - b"), "a---b");
    assert_eq!(collapse("nospace"), "nospace");
}

#[test]
fn slug_has_no_punctuation_and_no_whitespace() {
    let title = "The \"Mean\" Robot: a Tale, or What?  Either/Or's\nEnd";
    let name = slug(title);
    assert_eq!(name, "the-mean-robot-a-tale-or-what-eitherorsend");
    for c in ['"', ':', ',', '?', '/', '\'', '\n', ' '] {
        assert!(!name.contains(c), "{:?}", c);
    }
    assert!(!name.chars().any(|c| c.is_whitespace()));
    assert!(!name.contains("--"));
}

#[test]
fn slug_of_a_slug_is_the_slug() {
    for title in [
        "The \"Mean\" Robot: a Tale, or What?  Either/Or's\nEnd",
        "  Leading and trailing  ",
        "Already-a-slug",
        "Dash - Between",
        "",
        "TABS\tAND\u{3000}WIDE",
        "?",
    ] {
        let once = slug(title);
        assert_eq!(slug(&once), once, "{:?}", title);
    }
}

#[test]
fn slug_strips_before_it_collapses() {
    assert_eq!(slug("a \n b"), "a-b");
    assert_eq!(slug("a ? b"), "a-b");
    assert_eq!(slug("A:B"), "ab");
}

#[test]
fn paths_are_under_the_poem_directory() {
    assert_eq!(poem_dir(), "./poem");
    assert_eq!(base_path("Ode to a Robot"), "./poem/ode-to-a-robot");
    assert_eq!(file_path("Ode to a Robot"), "./poem/ode-to-a-robot.poem.txt");
    assert_eq!(file_path("What's  Next?"), "./poem/whats-next.poem.txt");
    assert_eq!(format!("{}.poem.txt", base_path("A: B")), file_path("A: B"));
}

#[test]
fn file_text_follows_the_template() {
    assert_eq!(RULE, '-');
    assert_eq!(RULE_LENGTH, 80);
    let rule = "-".repeat(80);
    let text = file_text("Title", "seed", "expanded", "line one\nline two");
    let expected = format!(
        "Title\n{rule}\nINPUT PROMPT: seed\n{rule}\nGENERATED PROMPT:\nexpanded\n{rule}\nPOEM:\n{rule}\nline one\nline two\n{rule}"
    );
    assert_eq!(text, expected);
}

#[test]
fn file_text_of_nothing_is_labels_and_rules() {
    let rule = "-".repeat(80);
    let expected = format!(
        "\n{rule}\nINPUT PROMPT: \n{rule}\nGENERATED PROMPT:\n\n{rule}\nPOEM:\n{rule}\n\n{rule}"
    );
    assert_eq!(file_text("", "", "", ""), expected);
}
