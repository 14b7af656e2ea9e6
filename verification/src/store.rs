//! Where a finished poem is kept: the name of its file and what the file holds.

use crate::text::{
    chars_of, push_char, repeat, spec_is_whitespace, spec_repeat, spec_to_ascii_lowercase,
    is_whitespace, to_ascii_lowercase,
};
use vstd::prelude::*;
use vstd::string::StringExecFns;

verus! {

/// The character that stands for a run of whitespace in a file name.
pub const SEPARATOR: char = '-';

/// How many characters a rule between two sections of the file has.
pub const RULE_LENGTH: usize = 80;

/// Whether `c` is one of the punctuation characters that a file name leaves out.
pub open spec fn spec_is_stripped(c: char) -> bool {
    c == '"' || c == ':' || c == ',' || c == '?' || c == '/' || c == '\'' || c == '\n'
}

/// Whether a file name leaves `c` out.
pub fn is_stripped(c: char) -> (b: bool)
    ensures
        b == spec_is_stripped(c),
{
    c == '"' || c == ':' || c == ',' || c == '?' || c == '/' || c == '\'' || c == '\n'
}

/// `s` with its ASCII capital letters made small.
pub open spec fn spec_lowercase(s: Seq<char>) -> Seq<char> {
    s.map_values(|c: char| spec_to_ascii_lowercase(c))
}

/// `s` without its stripped punctuation.
pub open spec fn spec_strip(s: Seq<char>) -> Seq<char> {
    s.filter(|c: char| !spec_is_stripped(c))
}

/// `s` with every run of whitespace replaced by one separator.
pub open spec fn spec_collapse(s: Seq<char>) -> Seq<char>
    decreases s.len(),
{
    if s.len() == 0 {
        s
    } else if !spec_is_whitespace(s.last()) {
        spec_collapse(s.drop_last()).push(s.last())
    } else if s.len() >= 2 && spec_is_whitespace(s[s.len() - 2]) {
        spec_collapse(s.drop_last())
    } else {
        spec_collapse(s.drop_last()).push(SEPARATOR)
    }
}

/// The file-system-safe form of a title: small letters, no stripped punctuation,
/// one separator for each run of whitespace.
pub open spec fn spec_slug(title: Seq<char>) -> Seq<char> {
    spec_collapse(spec_strip(spec_lowercase(title)))
}

/// `s` with its ASCII capital letters made small.
pub fn lowercase(s: &str) -> (r: String)
    ensures
        r@ == spec_lowercase(s@),
{
    let chars = chars_of(s);
    let mut r = String::new();
    let mut i: usize = 0;
    while i < chars.len()
        invariant
            i <= chars@.len(),
            r@ == spec_lowercase(chars@.take(i as int)),
        decreases chars@.len() - i,
    {
        push_char(&mut r, to_ascii_lowercase(chars[i]));
        i += 1;
        assert(r@ =~= spec_lowercase(chars@.take(i as int)));
    }
    assert(chars@.take(i as int) =~= s@);
    r
}

/// `s` without its stripped punctuation.
pub fn strip(s: &str) -> (r: String)
    ensures
        r@ == spec_strip(s@),
{
    let chars = chars_of(s);
    let mut r = String::new();
    let mut i: usize = 0;
    while i < chars.len()
        invariant
            i <= chars@.len(),
            r@ == spec_strip(chars@.take(i as int)),
        decreases chars@.len() - i,
    {
        proof {
            assert(chars@.take(i + 1) =~= chars@.take(i as int).push(chars@[i as int]));
            chars@.take(i as int).lemma_filter_push(
                chars@[i as int],
                |c: char| !spec_is_stripped(c),
            );
        }
        if !is_stripped(chars[i]) {
            push_char(&mut r, chars[i]);
        }
        i += 1;
    }
    assert(chars@.take(i as int) =~= s@);
    r
}

/// `s` with every run of whitespace replaced by one separator.
pub fn collapse(s: &str) -> (r: String)
    ensures
        r@ == spec_collapse(s@),
{
    let chars = chars_of(s);
    let mut r = String::new();
    let mut in_run = false;
    let mut i: usize = 0;
    while i < chars.len()
        invariant
            i <= chars@.len(),
            r@ == spec_collapse(chars@.take(i as int)),
            in_run == (i > 0 && spec_is_whitespace(chars@[i - 1])),
        decreases chars@.len() - i,
    {
        proof {
            let next = chars@.take(i + 1);
            assert(next.drop_last() =~= chars@.take(i as int));
            assert(next.last() == chars@[i as int]);
            assert(i > 0 ==> next[next.len() - 2] == chars@[i - 1]);
        }
        if !is_whitespace(chars[i]) {
            push_char(&mut r, chars[i]);
            in_run = false;
        } else {
            if !in_run {
                push_char(&mut r, SEPARATOR);
            }
            in_run = true;
        }
        i += 1;
    }
    assert(chars@.take(i as int) =~= s@);
    r
}

/// The file-system-safe form of `title`.
pub fn slug(title: &str) -> (r: String)
    ensures
        r@ == spec_slug(title@),
{
    let small = lowercase(title);
    let bare = strip(small.as_str());
    collapse(bare.as_str())
}

/// Whether the slug pipeline leaves `c` as it is: no capital ASCII letter, no
/// stripped punctuation, no whitespace.
pub open spec fn is_settled(c: char) -> bool {
    spec_to_ascii_lowercase(c) == c && !spec_is_stripped(c) && !spec_is_whitespace(c)
}

/// Every character that `spec_collapse` gives is the separator or a character
/// of `s` that is no whitespace.
pub proof fn lemma_collapse_chars(s: Seq<char>)
    ensures
        forall|i: int|
            0 <= i < spec_collapse(s).len() ==> {
                let c = #[trigger] spec_collapse(s)[i];
                c == SEPARATOR || (s.contains(c) && !spec_is_whitespace(c))
            },
    decreases s.len(),
{
    if s.len() > 0 {
        let front = s.drop_last();
        lemma_collapse_chars(front);
        assert forall|i: int| 0 <= i < spec_collapse(s).len() implies {
            let c = #[trigger] spec_collapse(s)[i];
            c == SEPARATOR || (s.contains(c) && !spec_is_whitespace(c))
        } by {
            let c = spec_collapse(s)[i];
            if i < spec_collapse(front).len() {
                assert(c == spec_collapse(front)[i]);
                if c != SEPARATOR {
                    let j = choose|j: int| 0 <= j < front.len() && front[j] == c;
                    assert(s[j] == c);
                }
            } else if c != SEPARATOR {
                assert(s[s.len() - 1] == c);
            }
        }
    }
}

/// Text whose characters are all settled is its own slug.
pub proof fn lemma_settled_is_own_slug(s: Seq<char>)
    requires
        forall|i: int| 0 <= i < s.len() ==> is_settled(#[trigger] s[i]),
    ensures
        spec_lowercase(s) == s,
        spec_strip(s) == s,
        spec_collapse(s) == s,
        spec_slug(s) == s,
    decreases s.len(),
{
    assert(spec_lowercase(s) =~= s);
    if s.len() > 0 {
        let front = s.drop_last();
        lemma_settled_is_own_slug(front);
        assert(s =~= front.push(s.last()));
        front.lemma_filter_push(s.last(), |c: char| !spec_is_stripped(c));
    } else {
        assert(spec_strip(s) =~= s);
    }
}

/// A slug holds none of the stripped punctuation and no whitespace, and no
/// capital ASCII letter either.
pub proof fn lemma_slug_is_settled(title: Seq<char>)
    ensures
        forall|i: int|
            0 <= i < spec_slug(title).len() ==> {
                let c = #[trigger] spec_slug(title)[i];
                !spec_is_stripped(c) && !spec_is_whitespace(c) && is_settled(c)
            },
{
    let small = spec_lowercase(title);
    let keep = |c: char| !spec_is_stripped(c);
    let bare = small.filter(keep);
    lemma_collapse_chars(bare);
    assert forall|i: int| 0 <= i < spec_slug(title).len() implies {
        let c = #[trigger] spec_slug(title)[i];
        !spec_is_stripped(c) && !spec_is_whitespace(c) && is_settled(c)
    } by {
        let c = spec_slug(title)[i];
        if c != SEPARATOR {
            let k = choose|k: int| 0 <= k < bare.len() && bare[k] == c;
            small.lemma_filter_pred(keep, k);
            small.lemma_filter_contains_rev(keep, c);
            let j = choose|j: int| 0 <= j < small.len() && small[j] == c;
            assert(c == spec_to_ascii_lowercase(title[j]));
        }
    }
}

/// Making a slug of a slug changes nothing.
pub proof fn lemma_slug_idempotent(title: Seq<char>)
    ensures
        spec_slug(spec_slug(title)) == spec_slug(title),
{
    lemma_slug_is_settled(title);
    lemma_settled_is_own_slug(spec_slug(title));
}

/// A run of whitespace, however long, becomes one separator.
pub proof fn lemma_collapse_run(run: Seq<char>)
    requires
        run.len() > 0,
        forall|i: int| 0 <= i < run.len() ==> spec_is_whitespace(#[trigger] run[i]),
    ensures
        spec_collapse(run) == seq![SEPARATOR],
    decreases run.len(),
{
    if run.len() >= 2 {
        lemma_collapse_run(run.drop_last());
    } else {
        assert(spec_collapse(run.drop_last()) =~= Seq::<char>::empty());
        assert(spec_collapse(run) =~= seq![SEPARATOR]);
    }
}

/// Two texts that do not share a run of whitespace where they meet are
/// collapsed each by itself.
pub proof fn lemma_collapse_concat(a: Seq<char>, b: Seq<char>)
    requires
        a.len() == 0 || b.len() == 0 || !spec_is_whitespace(a.last()) || !spec_is_whitespace(
            b.first(),
        ),
    ensures
        spec_collapse(a + b) == spec_collapse(a) + spec_collapse(b),
    decreases b.len(),
{
    if b.len() == 0 {
        assert(a + b =~= a);
        assert(spec_collapse(a) + spec_collapse(b) =~= spec_collapse(a));
    } else {
        let whole = a + b;
        assert(whole.drop_last() =~= a + b.drop_last());
        assert(whole.last() == b.last());
        if b.len() >= 2 {
            assert(whole[whole.len() - 2] == b[b.len() - 2]);
            assert(b.drop_last().first() == b.first());
            lemma_collapse_concat(a, b.drop_last());
        } else {
            assert(a + b.drop_last() =~= a);
            assert(spec_collapse(b.drop_last()) =~= Seq::<char>::empty());
            assert(a.len() > 0 ==> whole[whole.len() - 2] == a.last());
        }
        assert(spec_collapse(whole) =~= spec_collapse(a) + spec_collapse(b));
    }
}

/// The character that a rule is drawn with.
pub const RULE: char = '-';

/// The directory that poems are kept in.
pub open spec fn spec_poem_dir() -> Seq<char> {
    "./poem"@
}

/// The path of the file of the poem called `title`, less its `.poem.txt`: what
/// a picture that goes with the poem is named after.
pub open spec fn spec_base_path(title: Seq<char>) -> Seq<char> {
    "./poem/"@ + spec_slug(title)
}

/// The path of the file of the poem called `title`.
pub open spec fn spec_file_path(title: Seq<char>) -> Seq<char> {
    spec_base_path(title) + ".poem.txt"@
}

/// The line that parts two sections of the file.
pub open spec fn spec_rule() -> Seq<char> {
    spec_repeat(RULE, RULE_LENGTH as nat)
}

/// What the file of a poem holds: the title, the prompt that went in, the
/// prompt that was made of it, and the poem, each under its label and with a
/// rule between them.
pub open spec fn spec_file_text(
    title: Seq<char>,
    input_prompt: Seq<char>,
    generated_prompt: Seq<char>,
    text: Seq<char>,
) -> Seq<char> {
    title + "\n"@ + spec_rule() + "\nINPUT PROMPT: "@ + input_prompt + "\n"@ + spec_rule()
        + "\nGENERATED PROMPT:\n"@ + generated_prompt + "\n"@ + spec_rule() + "\nPOEM:\n"@
        + spec_rule() + "\n"@ + text + "\n"@ + spec_rule()
}

/// The directory that poems are kept in. It has to be there before a file
/// is written.
pub fn poem_dir() -> (dir: &'static str)
    ensures
        dir@ == spec_poem_dir(),
{
    "./poem"
}

/// The path of the file of the poem called `title`, less its `.poem.txt`.
pub fn base_path(title: &str) -> (path: String)
    ensures
        path@ == spec_base_path(title@),
{
    let name = slug(title);
    let mut path = String::from_str("./poem/");
    path.append(name.as_str());
    path
}

/// The path of the file of the poem called `title`.
pub fn file_path(title: &str) -> (path: String)
    ensures
        path@ == spec_file_path(title@),
{
    let mut path = base_path(title);
    path.append(".poem.txt");
    path
}

/// What the file of a poem holds.
pub fn file_text(title: &str, input_prompt: &str, generated_prompt: &str, text: &str) -> (r: String)
    ensures
        r@ == spec_file_text(title@, input_prompt@, generated_prompt@, text@),
{
    let rule = repeat(RULE, RULE_LENGTH);
    let mut r = String::from_str(title);
    r.append("\n");
    r.append(rule.as_str());
    r.append("\nINPUT PROMPT: ");
    r.append(input_prompt);
    r.append("\n");
    r.append(rule.as_str());
    r.append("\nGENERATED PROMPT:\n");
    r.append(generated_prompt);
    r.append("\n");
    r.append(rule.as_str());
    r.append("\nPOEM:\n");
    r.append(rule.as_str());
    r.append("\n");
    r.append(text);
    r.append("\n");
    r.append(rule.as_str());
    r
}

} // verus!
