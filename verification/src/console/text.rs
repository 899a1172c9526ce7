//! Character-level reading of console commands: white space, trimming,
//! ASCII lower-casing and splitting into words.

use vstd::prelude::*;
use vstd::string::*;
use vstd::utf8::{decode_utf8, valid_utf8};

verus! {

/// Unicode `White_Space`, the property that `char::is_whitespace` tests.
pub open spec fn is_space(c: char) -> bool {
    ||| '\u{9}' <= c <= '\u{d}'
    ||| c == ' '
    ||| c == '\u{85}'
    ||| c == '\u{a0}'
    ||| c == '\u{1680}'
    ||| '\u{2000}' <= c <= '\u{200a}'
    ||| c == '\u{2028}'
    ||| c == '\u{2029}'
    ||| c == '\u{202f}'
    ||| c == '\u{205f}'
    ||| c == '\u{3000}'
}

/// Whether `c` is white space.
pub fn is_space_char(c: char) -> (space: bool)
    ensures
        space == is_space(c),
{
    ('\u{9}' <= c && c <= '\u{d}') || c == ' ' || c == '\u{85}' || c == '\u{a0}' || c == '\u{1680}'
        || ('\u{2000}' <= c && c <= '\u{200a}') || c == '\u{2028}' || c == '\u{2029}' || c
        == '\u{202f}' || c == '\u{205f}' || c == '\u{3000}'
}

/// ASCII lower-casing of one character; every other character is kept.
pub open spec fn lower_char(c: char) -> char {
    if 'A' <= c <= 'Z' {
        ((c as u32) + 32) as char
    } else {
        c
    }
}

/// Lower-cases an ASCII letter.
pub fn ascii_lower(c: char) -> (lower: char)
    ensures
        lower == lower_char(c),
{
    if 'A' <= c && c <= 'Z' {
        let code: u8 = (c as u8) + 32;
        code as char
    } else {
        c
    }
}

/// The characters that `String::from_utf8_lossy` makes of `bytes`.
pub uninterp spec fn utf8_lossy(bytes: Seq<u8>) -> Seq<char>;

/// Decodes bytes as UTF-8 with `String::from_utf8_lossy`. Claimed: the
/// result is `utf8_lossy` of the bytes, and valid UTF-8 is decoded as is.
/// Not claimed: how invalid sequences are replaced.
#[verifier::external_body]
pub fn utf8_lossy_string(bytes: &[u8]) -> (text: String)
    ensures
        text@ == utf8_lossy(bytes@),
        valid_utf8(bytes@) ==> text@ == decode_utf8(bytes@),
{
    String::from_utf8_lossy(bytes).into_owned()
}

/// Copies the characters of `s`.
pub fn chars_of(s: &str) -> (chars: Vec<char>)
    ensures
        chars@ == s@,
{
    let n = s.unicode_len();
    let mut chars: Vec<char> = Vec::new();
    let mut i: usize = 0;
    while i < n
        invariant
            n == s@.len(),
            i <= n,
            chars@ == s@.subrange(0, i as int),
        decreases n - i,
    {
        chars.push(s.get_char(i));
        i = i + 1;
        assert(chars@ =~= s@.subrange(0, i as int));
    }
    assert(chars@ =~= s@);
    chars
}

/// `s` without its leading white space.
pub open spec fn trim_start(s: Seq<char>) -> Seq<char>
    decreases s.len(),
{
    if s.len() > 0 && is_space(s[0]) {
        trim_start(s.drop_first())
    } else {
        s
    }
}

/// `s` without its trailing white space.
pub open spec fn trim_end(s: Seq<char>) -> Seq<char>
    decreases s.len(),
{
    if s.len() > 0 && is_space(s.last()) {
        trim_end(s.drop_last())
    } else {
        s
    }
}

/// `s` without leading and trailing white space, as `str::trim` gives it.
pub open spec fn trim(s: Seq<char>) -> Seq<char> {
    trim_end(trim_start(s))
}

/// `s` with its ASCII letters lower-cased, as `str::to_ascii_lowercase`
/// gives it.
pub open spec fn lower(s: Seq<char>) -> Seq<char> {
    s.map_values(|c: char| lower_char(c))
}

/// The length of the run of non-white-space characters that starts `s`.
pub open spec fn word_len(s: Seq<char>) -> nat
    decreases s.len(),
{
    if s.len() > 0 && !is_space(s[0]) {
        1 + word_len(s.drop_first())
    } else {
        0
    }
}

/// Trimming the front only removes characters, and what is left starts with
/// a non-white-space character or is empty.
pub proof fn lemma_trim_start(s: Seq<char>)
    ensures
        trim_start(s).len() <= s.len(),
        trim_start(s).len() > 0 ==> !is_space(trim_start(s)[0]),
        trim_start(s) == s.subrange(s.len() - trim_start(s).len(), s.len() as int),
    decreases s.len(),
{
    if s.len() > 0 && is_space(s[0]) {
        lemma_trim_start(s.drop_first());
        assert(s.drop_first().subrange(
            s.drop_first().len() - trim_start(s.drop_first()).len(),
            s.drop_first().len() as int,
        ) =~= s.subrange(s.len() - trim_start(s).len(), s.len() as int));
    } else {
        assert(s.subrange(0, s.len() as int) =~= s);
    }
}

/// A word is never longer than the text it starts.
pub proof fn lemma_word_len(s: Seq<char>)
    ensures
        word_len(s) <= s.len(),
        s.len() > 0 && !is_space(s[0]) ==> word_len(s) >= 1,
    decreases s.len(),
{
    if s.len() > 0 && !is_space(s[0]) {
        lemma_word_len(s.drop_first());
    }
}

/// The words of `s`, as `str::split_whitespace` gives them.
pub open spec fn words(s: Seq<char>) -> Seq<Seq<char>>
    decreases s.len(),
{
    let t = trim_start(s);
    if t.len() == 0 {
        Seq::empty()
    } else {
        let n = word_len(t);
        proof {
            lemma_trim_start(s);
            lemma_word_len(t);
        }
        seq![t.take(n as int)] + words(t.skip(n as int))
    }
}

/// The first index at or after `from` that holds no white space, or the end.
pub fn skip_spaces(s: &Vec<char>, from: usize) -> (next: usize)
    requires
        from <= s@.len(),
    ensures
        from <= next <= s@.len(),
        s@.subrange(next as int, s@.len() as int) == trim_start(
            s@.subrange(from as int, s@.len() as int),
        ),
{
    let mut i = from;
    while i < s.len() && is_space_char(s[i])
        invariant
            from <= i <= s@.len(),
            trim_start(s@.subrange(i as int, s@.len() as int)) == trim_start(
                s@.subrange(from as int, s@.len() as int),
            ),
        decreases s@.len() - i,
    {
        assert(s@.subrange(i as int, s@.len() as int).drop_first() =~= s@.subrange(
            i + 1,
            s@.len() as int,
        ));
        i = i + 1;
    }
    i
}

/// The end of the word that starts at `from`: the first white space at or
/// after `from`, or the end.
pub fn word_end(s: &Vec<char>, from: usize) -> (end: usize)
    requires
        from <= s@.len(),
    ensures
        from <= end <= s@.len(),
        end - from == word_len(s@.subrange(from as int, s@.len() as int)),
{
    let mut i = from;
    while i < s.len() && !is_space_char(s[i])
        invariant
            from <= i <= s@.len(),
            word_len(s@.subrange(from as int, s@.len() as int)) == (i - from) + word_len(
                s@.subrange(i as int, s@.len() as int),
            ),
        decreases s@.len() - i,
    {
        assert(s@.subrange(i as int, s@.len() as int).drop_first() =~= s@.subrange(
            i + 1,
            s@.len() as int,
        ));
        i = i + 1;
    }
    i
}

/// The bounds of `s` without its leading and trailing white space.
pub fn trim_bounds(s: &Vec<char>) -> (bounds: (usize, usize))
    ensures
        bounds.0 <= bounds.1 <= s@.len(),
        s@.subrange(bounds.0 as int, bounds.1 as int) == trim(s@),
{
    let start = skip_spaces(s, 0);
    assert(s@.subrange(0, s@.len() as int) =~= s@);
    let mut end = s.len();
    while end > start && is_space_char(s[end - 1])
        invariant
            start <= end <= s@.len(),
            trim_end(s@.subrange(start as int, end as int)) == trim(s@),
        decreases end,
    {
        assert(s@.subrange(start as int, end as int).drop_last() =~= s@.subrange(
            start as int,
            end - 1,
        ));
        end = end - 1;
    }
    (start, end)
}

/// Lower-cases the ASCII letters of `s[from..to]`.
pub fn lowered(s: &Vec<char>, from: usize, to: usize) -> (low: Vec<char>)
    requires
        from <= to <= s@.len(),
    ensures
        low@ == lower(s@.subrange(from as int, to as int)),
{
    let mut low: Vec<char> = Vec::new();
    let mut i = from;
    while i < to
        invariant
            from <= i <= to <= s@.len(),
            low@ == lower(s@.subrange(from as int, i as int)),
        decreases to - i,
    {
        low.push(ascii_lower(s[i]));
        i = i + 1;
        assert(low@ =~= lower(s@.subrange(from as int, i as int)));
    }
    low
}

/// Whether `s[from..to]` spells exactly `word`.
pub fn spells(s: &Vec<char>, from: usize, to: usize, word: &str) -> (same: bool)
    requires
        from <= to <= s@.len(),
    ensures
        same == (s@.subrange(from as int, to as int) == word@),
{
    let n = word.unicode_len();
    if to - from != n {
        return false;
    }
    let mut i: usize = 0;
    while i < n
        invariant
            n == word@.len(),
            to - from == n,
            from <= to <= s@.len(),
            i <= n,
            forall|j: int| 0 <= j < i ==> s@[from + j] == word@[j],
        decreases n - i,
    {
        if s[from + i] != word.get_char(i) {
            assert(s@.subrange(from as int, to as int)[i as int] != word@[i as int]);
            return false;
        }
        i = i + 1;
    }
    assert(s@.subrange(from as int, to as int) =~= word@);
    true
}

/// The first non-white-space run of `s[from..]`: its bounds, and the words
/// of `s[from..]` are that run followed by the words of what comes after it.
fn next_word(s: &Vec<char>, from: usize) -> (found: Option<(usize, usize)>)
    requires
        from <= s@.len(),
    ensures
        found is None <==> words(s@.subrange(from as int, s@.len() as int)).len() == 0,
        found matches Some((a, b)) ==> {
            &&& from <= a < b <= s@.len()
            &&& words(s@.subrange(from as int, s@.len() as int)) == seq![
                s@.subrange(a as int, b as int),
            ] + words(s@.subrange(b as int, s@.len() as int))
        },
{
    let ghost rest = s@.subrange(from as int, s@.len() as int);
    let a = skip_spaces(s, from);
    proof {
        lemma_trim_start(rest);
    }
    if a == s.len() {
        assert(trim_start(rest).len() == 0);
        return None;
    }
    let b = word_end(s, a);
    proof {
        let t = trim_start(rest);
        assert(t == s@.subrange(a as int, s@.len() as int));
        assert(!is_space(t[0]));
        lemma_word_len(t);
        assert(t.take((b - a) as int) =~= s@.subrange(a as int, b as int));
        assert(t.skip((b - a) as int) =~= s@.subrange(b as int, s@.len() as int));
    }
    Some((a, b))
}

/// The bounds of the first two words of `s`.
pub fn leading_words(s: &Vec<char>) -> (found: (Option<(usize, usize)>, Option<(usize, usize)>))
    ensures
        found.0 is Some <==> words(s@).len() >= 1,
        found.1 is Some <==> words(s@).len() >= 2,
        found.0 matches Some((a, b)) ==> a <= b <= s@.len() && s@.subrange(a as int, b as int)
            == words(s@)[0],
        found.1 matches Some((a, b)) ==> a <= b <= s@.len() && s@.subrange(a as int, b as int)
            == words(s@)[1],
{
    assert(s@.subrange(0, s@.len() as int) =~= s@);
    match next_word(s, 0) {
        None => (None, None),
        Some((a0, b0)) => {
            let second = next_word(s, b0);
            match second {
                None => {},
                Some((a1, b1)) => {
                    assert(words(s@)[1] == words(s@.subrange(b0 as int, s@.len() as int))[0]);
                },
            }
            (Some((a0, b0)), second)
        },
    }
}

/// Trimming the back keeps a prefix.
pub proof fn lemma_trim_end(s: Seq<char>)
    ensures
        trim_end(s).len() <= s.len(),
        trim_end(s) == s.take(trim_end(s).len() as int),
    decreases s.len(),
{
    if s.len() > 0 && is_space(s.last()) {
        lemma_trim_end(s.drop_last());
        assert(s.drop_last().take(trim_end(s).len() as int) =~= s.take(trim_end(s).len() as int));
    } else {
        assert(s.take(s.len() as int) =~= s);
    }
}

/// A trimmed text that is not empty starts with a non-white-space character,
/// and lower-casing it keeps that so.
pub proof fn lemma_trim_front(s: Seq<char>)
    ensures
        trim(s).len() > 0 ==> !is_space(trim(s)[0]) && !is_space(lower(trim(s))[0]),
{
    lemma_trim_start(s);
    lemma_trim_end(trim_start(s));
}

/// A text whose first character is not white space has at least one word.
pub proof fn lemma_has_first_word(s: Seq<char>)
    requires
        s.len() > 0,
        !is_space(s[0]),
    ensures
        words(s).len() >= 1,
{
    lemma_trim_start(s);
    lemma_word_len(s);
}

/// Lower-casing keeps white space white space and nothing else.
pub proof fn lemma_lower_char_space(c: char)
    ensures
        is_space(lower_char(c)) == is_space(c),
        lower_char(lower_char(c)) == lower_char(c),
{
}

/// Trimming commutes with lower-casing, and lower-casing twice is
/// lower-casing once.
pub proof fn lemma_trim_lower(s: Seq<char>)
    ensures
        trim(lower(s)) == lower(trim(s)),
        lower(lower(s)) == lower(s),
{
    lemma_trim_start_lower(s);
    lemma_trim_end_lower(trim_start(s));
    assert forall|i: int| 0 <= i < s.len() implies lower(lower(s))[i] == lower(s)[i] by {
        lemma_lower_char_space(s[i]);
    }
    assert(lower(lower(s)) =~= lower(s));
}

proof fn lemma_trim_start_lower(s: Seq<char>)
    ensures
        trim_start(lower(s)) == lower(trim_start(s)),
    decreases s.len(),
{
    if s.len() > 0 {
        lemma_lower_char_space(s[0]);
        assert(lower(s).drop_first() =~= lower(s.drop_first()));
        lemma_trim_start_lower(s.drop_first());
    } else {
        assert(lower(s) =~= s);
    }
}

proof fn lemma_trim_end_lower(s: Seq<char>)
    ensures
        trim_end(lower(s)) == lower(trim_end(s)),
    decreases s.len(),
{
    if s.len() > 0 {
        lemma_lower_char_space(s.last());
        assert(lower(s).drop_last() =~= lower(s.drop_last()));
        lemma_trim_end_lower(s.drop_last());
    } else {
        assert(lower(s) =~= s);
    }
}

/// A text that neither starts nor ends with white space is its own trim.
proof fn lemma_trim_of_trimmed(s: Seq<char>)
    requires
        s.len() > 0 ==> !is_space(s[0]) && !is_space(s.last()),
    ensures
        trim(s) == s,
{
}

/// What is left after trimming the back ends with a non-white-space
/// character, or is empty.
proof fn lemma_trim_end_last(s: Seq<char>)
    ensures
        trim_end(s).len() > 0 ==> !is_space(trim_end(s).last()),
    decreases s.len(),
{
    if s.len() > 0 && is_space(s.last()) {
        lemma_trim_end_last(s.drop_last());
    }
}

/// Trimming twice is trimming once.
pub proof fn lemma_trim_idempotent(s: Seq<char>)
    ensures
        trim(trim(s)) == trim(s),
{
    lemma_trim_start(s);
    lemma_trim_end(trim_start(s));
    lemma_trim_end_last(trim_start(s));
    lemma_trim_of_trimmed(trim(s));
}

/// A text without white space is one word, as long as the text.
proof fn lemma_word_len_unbroken(s: Seq<char>)
    requires
        forall|i: int| 0 <= i < s.len() ==> !is_space(#[trigger] s[i]),
    ensures
        word_len(s) == s.len(),
    decreases s.len(),
{
    if s.len() > 0 {
        assert forall|i: int| 0 <= i < s.drop_first().len() implies !is_space(#[trigger] s.drop_first()[i]) by {
            assert(s.drop_first()[i] == s[i + 1]);
        }
        lemma_word_len_unbroken(s.drop_first());
    }
}

/// A non-empty text without white space has itself as its only word.
pub proof fn lemma_words_of_unbroken(s: Seq<char>)
    requires
        s.len() > 0,
        forall|i: int| 0 <= i < s.len() ==> !is_space(#[trigger] s[i]),
    ensures
        words(s) == seq![s],
{
    lemma_word_len_unbroken(s);
    assert(!is_space(s[0]));
    assert(trim_start(s) == s);
    assert(s.take(s.len() as int) =~= s);
    let rest = s.skip(s.len() as int);
    assert(rest =~= Seq::<char>::empty());
    assert(trim_start(rest) =~= Seq::<char>::empty());
    assert(words(rest) =~= Seq::<Seq<char>>::empty());
    assert(words(s) =~= seq![s]);
}

/// The text of no characters has no words.
pub proof fn lemma_words_of_empty(s: Seq<char>)
    requires
        s.len() == 0,
    ensures
        words(s).len() == 0,
{
}

} // verus!
