//! Text as a sequence of characters: whitespace, trimming, cutting and
//! repeating.

use vstd::prelude::*;
use vstd::std_specs::iter::IteratorSpec;

verus! {

/// Whether `c` is one of the code points with the Unicode `White_Space` property.
pub open spec fn spec_is_whitespace(c: char) -> bool {
    let n = c as u32;
    ||| 0x09 <= n <= 0x0D
    ||| n == 0x20
    ||| n == 0x85
    ||| n == 0xA0
    ||| n == 0x1680
    ||| 0x2000 <= n <= 0x200A
    ||| n == 0x2028
    ||| n == 0x2029
    ||| n == 0x202F
    ||| n == 0x205F
    ||| n == 0x3000
}

/// Whether `c` is whitespace.
pub fn is_whitespace(c: char) -> (b: bool)
    ensures
        b == spec_is_whitespace(c),
{
    let n: u32 = c as u32;
    (0x09 <= n && n <= 0x0D) || n == 0x20 || n == 0x85 || n == 0xA0 || n == 0x1680 || (0x2000 <= n
        && n <= 0x200A) || n == 0x2028 || n == 0x2029 || n == 0x202F || n == 0x205F || n == 0x3000
}

/// `c` with an ASCII capital letter replaced by its small letter.
pub open spec fn spec_to_ascii_lowercase(c: char) -> char {
    if 'A' <= c <= 'Z' {
        ((c as u8) + 32) as char
    } else {
        c
    }
}

/// `c`, or its small letter where `c` is an ASCII capital letter.
pub fn to_ascii_lowercase(c: char) -> (r: char)
    ensures
        r == spec_to_ascii_lowercase(c),
{
    if 'A' <= c && c <= 'Z' {
        let b: u8 = c as u8;
        (b + 32) as char
    } else {
        c
    }
}

/// The characters of `s`, in order.
pub fn chars_of(s: &str) -> (v: Vec<char>)
    ensures
        v@ == s@,
{
    broadcast use vstd::string::group_string_axioms;
    let mut v: Vec<char> = Vec::new();
    for c in it: s.chars()
        invariant
            it.seq() == s@,
            v@ == s@.take(it.index() as int),
    {
        v.push(c);
    }
    v
}

/// `s` without the whitespace it starts with.
pub open spec fn spec_trim_start(s: Seq<char>) -> Seq<char>
    decreases s.len(),
{
    if s.len() > 0 && spec_is_whitespace(s.first()) {
        spec_trim_start(s.drop_first())
    } else {
        s
    }
}

/// `s` without the whitespace it ends with.
pub open spec fn spec_trim_end(s: Seq<char>) -> Seq<char>
    decreases s.len(),
{
    if s.len() > 0 && spec_is_whitespace(s.last()) {
        spec_trim_end(s.drop_last())
    } else {
        s
    }
}

/// `s` without the whitespace around it.
pub open spec fn spec_trim(s: Seq<char>) -> Seq<char> {
    spec_trim_end(spec_trim_start(s))
}

/// Whether nothing is left of `s` once it is trimmed.
pub open spec fn spec_is_blank(s: Seq<char>) -> bool {
    spec_trim(s).len() == 0
}

/// Skipping a whitespace prefix of `s` changes nothing of what `spec_trim_start` gives.
pub proof fn lemma_trim_start_skip(s: Seq<char>, n: int)
    requires
        0 <= n <= s.len(),
        forall|i: int| 0 <= i < n ==> spec_is_whitespace(#[trigger] s[i]),
    ensures
        spec_trim_start(s) == spec_trim_start(s.skip(n)),
    decreases n,
{
    if n > 0 {
        assert(s.drop_first().skip(n - 1) =~= s.skip(n));
        lemma_trim_start_skip(s.drop_first(), n - 1);
    } else {
        assert(s.skip(0) =~= s);
    }
}

/// Dropping a whitespace suffix of `s` changes nothing of what `spec_trim_end` gives.
pub proof fn lemma_trim_end_take(s: Seq<char>, n: int)
    requires
        0 <= n <= s.len(),
        forall|i: int| n <= i < s.len() ==> spec_is_whitespace(#[trigger] s[i]),
    ensures
        spec_trim_end(s) == spec_trim_end(s.take(n)),
    decreases s.len() - n,
{
    if n < s.len() {
        assert(s.drop_last().take(n) =~= s.take(n));
        lemma_trim_end_take(s.drop_last(), n);
    } else {
        assert(s.take(n) =~= s);
    }
}

/// What `spec_trim_start` gives is `s` from its first character that is no
/// whitespace.
pub proof fn lemma_trim_start_shape(s: Seq<char>)
    ensures
        spec_trim_start(s).len() <= s.len(),
        spec_trim_start(s) == s.skip(s.len() - spec_trim_start(s).len()),
        forall|i: int|
            0 <= i < s.len() - spec_trim_start(s).len() ==> spec_is_whitespace(#[trigger] s[i]),
        spec_trim_start(s).len() > 0 ==> !spec_is_whitespace(spec_trim_start(s).first()),
    decreases s.len(),
{
    if s.len() > 0 && spec_is_whitespace(s.first()) {
        let rest = s.drop_first();
        lemma_trim_start_shape(rest);
        let cut = rest.len() - spec_trim_start(rest).len();
        assert(rest.skip(cut) =~= s.skip(cut + 1));
        assert forall|i: int| 0 <= i < cut + 1 implies spec_is_whitespace(#[trigger] s[i]) by {
            if i > 0 {
                assert(s[i] == rest[i - 1]);
            }
        }
    } else {
        assert(s.skip(0) =~= s);
    }
}

/// What `spec_trim_end` gives is `s` up to its last character that is no
/// whitespace.
pub proof fn lemma_trim_end_shape(s: Seq<char>)
    ensures
        spec_trim_end(s).len() <= s.len(),
        spec_trim_end(s) == s.take(spec_trim_end(s).len() as int),
        forall|i: int|
            spec_trim_end(s).len() <= i < s.len() ==> spec_is_whitespace(#[trigger] s[i]),
        spec_trim_end(s).len() > 0 ==> !spec_is_whitespace(spec_trim_end(s).last()),
    decreases s.len(),
{
    if s.len() > 0 && spec_is_whitespace(s.last()) {
        let rest = s.drop_last();
        lemma_trim_end_shape(rest);
        assert(rest.take(spec_trim_end(rest).len() as int) =~= s.take(
            spec_trim_end(rest).len() as int,
        ));
        assert forall|i: int| spec_trim_end(s).len() <= i < s.len() implies spec_is_whitespace(
            #[trigger] s[i],
        ) by {
            if i < rest.len() {
                assert(s[i] == rest[i]);
            }
        }
    } else {
        assert(s.take(s.len() as int) =~= s);
    }
}

/// Trimmed text neither starts nor ends with whitespace.
pub proof fn lemma_trim_is_bare(s: Seq<char>)
    ensures
        spec_trim(s).len() > 0 ==> !spec_is_whitespace(spec_trim(s).first())
            && !spec_is_whitespace(spec_trim(s).last()),
{
    lemma_trim_start_shape(s);
    lemma_trim_end_shape(spec_trim_start(s));
}

/// Text that neither starts nor ends with whitespace is what trimming finds
/// again, whatever whitespace was put around it.
pub proof fn lemma_trim_of_padded(before: Seq<char>, text: Seq<char>, after: Seq<char>)
    requires
        forall|i: int| 0 <= i < before.len() ==> spec_is_whitespace(#[trigger] before[i]),
        forall|i: int| 0 <= i < after.len() ==> spec_is_whitespace(#[trigger] after[i]),
        text.len() > 0 ==> !spec_is_whitespace(text.first()) && !spec_is_whitespace(text.last()),
    ensures
        spec_trim(before + text + after) == text,
{
    let padded = before + text + after;
    if text.len() > 0 {
        lemma_trim_start_skip(padded, before.len() as int);
        let rest = padded.skip(before.len() as int);
        assert(rest =~= text + after);
        assert(rest.first() == text.first());
        lemma_trim_end_take(rest, text.len() as int);
        assert(rest.take(text.len() as int) =~= text);
    } else {
        lemma_trim_start_skip(padded, padded.len() as int);
        assert(padded.skip(padded.len() as int) =~= text);
    }
}

/// Trimming what is trimmed changes nothing.
pub proof fn lemma_trim_idempotent(s: Seq<char>)
    ensures
        spec_trim(spec_trim(s)) == spec_trim(s),
{
    lemma_trim_is_bare(s);
    lemma_trim_of_padded(Seq::empty(), spec_trim(s), Seq::empty());
    assert(Seq::<char>::empty() + spec_trim(s) + Seq::<char>::empty() =~= spec_trim(s));
}

/// Text is blank exactly when it holds nothing but whitespace.
pub proof fn lemma_blank_is_all_whitespace(s: Seq<char>)
    ensures
        spec_is_blank(s) <==> forall|i: int| 0 <= i < s.len() ==> spec_is_whitespace(#[trigger] s[i]),
{
    lemma_trim_start_shape(s);
    lemma_trim_end_shape(spec_trim_start(s));
    let rest = spec_trim_start(s);
    let cut = s.len() - rest.len();
    if rest.len() > 0 {
        assert(!spec_is_whitespace(s[cut]));
        assert(!spec_is_whitespace(rest[0]));
    }
}

/// The slice of `s` that is left when the whitespace around it is taken off.
pub fn trim(s: &str) -> (r: &str)
    ensures
        r@ == spec_trim(s@),
{
    let chars = chars_of(s);
    let n = chars.len();
    let mut start: usize = 0;
    while start < n && is_whitespace(chars[start])
        invariant
            start <= n,
            n == chars@.len(),
            forall|i: int| 0 <= i < start ==> spec_is_whitespace(#[trigger] chars@[i]),
        decreases n - start,
    {
        start += 1;
    }
    let mut end: usize = n;
    while end > start && is_whitespace(chars[end - 1])
        invariant
            start <= end <= n,
            n == chars@.len(),
            forall|i: int| end <= i < n ==> spec_is_whitespace(#[trigger] chars@[i]),
        decreases end,
    {
        end -= 1;
    }
    proof {
        let rest = s@.skip(start as int);
        lemma_trim_start_skip(s@, start as int);
        assert(rest.take(end - start) =~= s@.subrange(start as int, end as int));
        lemma_trim_end_take(rest, end - start);
    }
    s.substring_char(start, end)
}

/// Whether nothing is left of `s` once it is trimmed.
pub fn is_blank(s: &str) -> (b: bool)
    ensures
        b == spec_is_blank(s@),
{
    trim(s).is_empty()
}

/// `s` cut down to its first `limit` characters.
pub open spec fn spec_truncate(s: Seq<char>, limit: nat) -> Seq<char> {
    if s.len() <= limit {
        s
    } else {
        s.take(limit as int)
    }
}

/// The slice of `s` that holds its first `limit` characters, or all of `s`
/// where it has no more than that.
pub fn truncate(s: &str, limit: usize) -> (r: &str)
    ensures
        r@ == spec_truncate(s@, limit as nat),
{
    if s.unicode_len() <= limit {
        s
    } else {
        s.substring_char(0, limit)
    }
}

/// `count` times the character `c`.
pub open spec fn spec_repeat(c: char, count: nat) -> Seq<char> {
    Seq::new(count, |i: int| c)
}

/// Appends `c` to `s` by `String::push`, which the standard library documents
/// as putting the character at the end of the string.
#[verifier::external_body]
pub(crate) fn push_char(s: &mut String, c: char)
    ensures
        final(s)@ == old(s)@.push(c),
{
    s.push(c);
}

/// A string of `count` times the character `c`.
pub fn repeat(c: char, count: usize) -> (s: String)
    ensures
        s@ == spec_repeat(c, count as nat),
{
    let mut s = String::new();
    let mut i: usize = 0;
    while i < count
        invariant
            i <= count,
            s@ == spec_repeat(c, i as nat),
        decreases count - i,
    {
        push_char(&mut s, c);
        i += 1;
        assert(s@ =~= spec_repeat(c, i as nat));
    }
    s
}

} // verus!
