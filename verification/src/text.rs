//! Text as sequences of characters: searching, trimming and letter case.

use vstd::prelude::*;
use vstd::string::*;
use vstd::utf8::*;

verus! {

/// `std::str::from_utf8` gives the text that the bytes encode, and nothing if
/// they are not UTF-8.
#[verifier::external_body]
fn utf8_text(bytes: &[u8]) -> (text: Option<&str>)
    ensures
        text is Some <==> valid_utf8(bytes@),
        text matches Some(t) ==> t@ == decode_utf8(bytes@),
{
    std::str::from_utf8(bytes).ok()
}

/// The text that the bytes encode, if they are UTF-8.
pub fn decode_text(bytes: &[u8]) -> (text: Option<&str>)
    ensures
        text is Some <==> valid_utf8(bytes@),
        text matches Some(t) ==> t@ == decode_utf8(bytes@),
{
    utf8_text(bytes)
}

/// The characters of a text.
pub fn chars_of(text: &str) -> (chars: Vec<char>)
    ensures
        chars@ == text@,
{
    let mut chars: Vec<char> = Vec::new();
    for c in iter: text.chars()
        invariant
            chars@ == text@.take(iter.index()),
            iter.seq() == text@,
    {
        chars.push(c);
        assert(text@.take(iter.index() + 1) =~= text@.take(iter.index()).push(c));
    }
    assert(text@.take(text@.len() as int) =~= text@);
    chars
}

/// Whether `run` occurs somewhere in `text`, all in one piece.
pub open spec fn occurs_in(run: Seq<char>, text: Seq<char>) -> bool {
    exists|at: int| #[trigger] occurs_at(run, text, at)
}

/// Whether `run` occurs in `text` at position `at`.
pub open spec fn occurs_at(run: Seq<char>, text: Seq<char>, at: int) -> bool {
    &&& 0 <= at
    &&& at + run.len() <= text.len()
    &&& text.subrange(at, at + run.len()) == run
}

/// Tells whether `run` occurs in `text`.
pub fn contains_run(text: &Vec<char>, run: &str) -> (found: bool)
    ensures
        found == occurs_in(run@, text@),
{
    let run_chars = chars_of(run);
    let mut at: usize = 0;
    if run_chars.len() > text.len() {
        return false;
    }
    let total: usize = text.len();
    let last: usize = total - run_chars.len();
    while at <= last
        invariant
            run_chars@ == run@,
            total == text@.len(),
            last + run@.len() == total,
            at <= last + 1,
            forall|k: int| 0 <= k < at ==> !occurs_at(run@, text@, k),
        decreases last + 1 - at,
    {
        let mut n: usize = 0;
        while n < run_chars.len() && text[at + n] == run_chars[n]
            invariant
                run_chars@ == run@,
                total == text@.len(),
                at + run@.len() <= total,
                n <= run@.len(),
                forall|k: int| 0 <= k < n ==> text@[at + k] == run@[k],
            decreases run@.len() - n,
        {
            n = n + 1;
        }
        if n == run_chars.len() {
            assert(text@.subrange(at as int, at + run@.len()) =~= run@);
            assert(occurs_at(run@, text@, at as int));
            return true;
        }
        proof {
            assert(text@.subrange(at as int, at + run@.len())[n as int] != run@[n as int]);
        }
        if at == last {
            return false;
        }
        at = at + 1;
    }
    false
}

/// A character with the upper case letters of ASCII turned into lower case.
pub open spec fn lower(c: char) -> char {
    if 'A' <= c && c <= 'Z' {
        (c as u32 + 32) as char
    } else {
        c
    }
}

/// A text with the upper case letters of ASCII turned into lower case.
pub open spec fn lowered(text: Seq<char>) -> Seq<char> {
    text.map_values(|c: char| lower(c))
}

/// The text with the upper case letters of ASCII turned into lower case.
pub fn to_lower(text: &str) -> (chars: Vec<char>)
    ensures
        chars@ == lowered(text@),
{
    let source = chars_of(text);
    let mut chars: Vec<char> = Vec::new();
    let mut n: usize = 0;
    while n < source.len()
        invariant
            source@ == text@,
            n <= source@.len(),
            chars@ == lowered(text@).take(n as int),
        decreases source@.len() - n,
    {
        let c: char = source[n];
        let small: char = if 'A' <= c && c <= 'Z' {
            (c as u8 + 32) as char
        } else {
            c
        };
        assert(small == lower(c));
        chars.push(small);
        n = n + 1;
        assert(lowered(text@).take(n as int) =~= lowered(text@).take(n - 1).push(small));
    }
    assert(lowered(text@).take(n as int) =~= lowered(text@));
    chars
}

/// Whether Unicode gives a character the property `White_Space`.
pub open spec fn white_space(c: char) -> bool {
    ||| '\u{9}' <= c && c <= '\u{d}'
    ||| c == ' '
    ||| c == '\u{85}'
    ||| c == '\u{a0}'
    ||| c == '\u{1680}'
    ||| '\u{2000}' <= c && c <= '\u{200a}'
    ||| c == '\u{2028}'
    ||| c == '\u{2029}'
    ||| c == '\u{202f}'
    ||| c == '\u{205f}'
    ||| c == '\u{3000}'
}

/// Tells whether Unicode gives a character the property `White_Space`.
pub fn is_white_space(c: char) -> (white: bool)
    ensures
        white == white_space(c),
{
    ('\u{9}' <= c && c <= '\u{d}') || c == ' ' || c == '\u{85}' || c == '\u{a0}' || c == '\u{1680}'
        || ('\u{2000}' <= c && c <= '\u{200a}') || c == '\u{2028}' || c == '\u{2029}' || c
        == '\u{202f}' || c == '\u{205f}' || c == '\u{3000}'
}

/// A text without the null characters at its end.
pub open spec fn without_nulls(text: Seq<char>) -> Seq<char>
    decreases text.len(),
{
    if text.len() > 0 && text.last() == '\0' {
        without_nulls(text.drop_last())
    } else {
        text
    }
}

/// A text without the white space at its end.
pub open spec fn trimmed_end(text: Seq<char>) -> Seq<char>
    decreases text.len(),
{
    if text.len() > 0 && white_space(text.last()) {
        trimmed_end(text.drop_last())
    } else {
        text
    }
}

/// A text without the white space at its beginning.
pub open spec fn trimmed_start(text: Seq<char>) -> Seq<char>
    decreases text.len(),
{
    if text.len() > 0 && white_space(text.first()) {
        trimmed_start(text.drop_first())
    } else {
        text
    }
}

/// A text without the white space at its two ends.
pub open spec fn trimmed(text: Seq<char>) -> Seq<char> {
    trimmed_start(trimmed_end(text))
}

/// Drops the null characters at the end of a text, and then the white space at
/// its two ends.
pub fn trim_padding(text: &str) -> (kept: &str)
    ensures
        kept@ == trimmed(without_nulls(text@)),
{
    let chars = chars_of(text);
    let mut end: usize = chars.len();
    assert(text@.take(end as int) =~= text@);
    while end > 0 && chars[end - 1] == '\0'
        invariant
            chars@ == text@,
            end <= chars@.len(),
            without_nulls(text@) == without_nulls(text@.take(end as int)),
        decreases end,
    {
        assert(text@.take(end as int).drop_last() =~= text@.take(end - 1));
        end = end - 1;
    }
    let ghost whole = text@.take(end as int);
    assert(without_nulls(text@) == whole);
    while end > 0 && is_white_space(chars[end - 1])
        invariant
            chars@ == text@,
            end <= chars@.len(),
            trimmed_end(whole) == trimmed_end(text@.take(end as int)),
        decreases end,
    {
        assert(text@.take(end as int).drop_last() =~= text@.take(end - 1));
        end = end - 1;
    }
    let ghost front = text@.take(end as int);
    assert(trimmed_end(whole) == front);
    let mut start: usize = 0;
    assert(front.skip(0) =~= front);
    while start < end && is_white_space(chars[start])
        invariant
            chars@ == text@,
            start <= end <= chars@.len(),
            front == text@.take(end as int),
            trimmed_start(front) == trimmed_start(front.skip(start as int)),
        decreases end - start,
    {
        assert(front.skip(start as int).drop_first() =~= front.skip(start + 1));
        start = start + 1;
    }
    assert(trimmed_start(front) == front.skip(start as int));
    assert(text@.subrange(start as int, end as int) =~= front.skip(start as int));
    text.substring_char(start, end)
}

/// What is dropped from the end of a text are null characters, and none is left
/// there.
pub proof fn law_nulls_are_dropped_at_the_end(text: Seq<char>)
    ensures
        ({
            let kept = without_nulls(text);
            &&& kept.len() <= text.len()
            &&& kept == text.take(kept.len() as int)
            &&& kept.len() > 0 ==> kept.last() != '\0'
            &&& forall|k: int| kept.len() <= k < text.len() ==> text[k] == '\0'
        }),
    decreases text.len(),
{
    let kept = without_nulls(text);
    if text.len() > 0 && text.last() == '\0' {
        law_nulls_are_dropped_at_the_end(text.drop_last());
        assert(kept =~= text.take(kept.len() as int));
        assert forall|k: int| kept.len() <= k < text.len() implies text[k] == '\0' by {
            if k < text.len() - 1 {
                assert(text.drop_last()[k] == '\0');
            }
        }
    } else {
        assert(kept =~= text.take(kept.len() as int));
    }
}

proof fn lemma_trimmed_end(text: Seq<char>)
    ensures
        ({
            let kept = trimmed_end(text);
            &&& kept.len() <= text.len()
            &&& kept == text.take(kept.len() as int)
            &&& kept.len() > 0 ==> !white_space(kept.last())
            &&& forall|k: int| kept.len() <= k < text.len() ==> white_space(#[trigger] text[k])
        }),
    decreases text.len(),
{
    let kept = trimmed_end(text);
    if text.len() > 0 && white_space(text.last()) {
        lemma_trimmed_end(text.drop_last());
        assert(kept =~= text.take(kept.len() as int));
        assert forall|k: int| kept.len() <= k < text.len() implies white_space(
            #[trigger] text[k],
        ) by {
            if k < text.len() - 1 {
                assert(white_space(text.drop_last()[k]));
            }
        }
    } else {
        assert(kept =~= text.take(kept.len() as int));
    }
}

proof fn lemma_trimmed_start(text: Seq<char>)
    ensures
        ({
            let kept = trimmed_start(text);
            let from = text.len() - kept.len();
            &&& kept.len() <= text.len()
            &&& kept == text.skip(from)
            &&& kept.len() > 0 ==> !white_space(kept.first())
            &&& forall|k: int| 0 <= k < from ==> white_space(#[trigger] text[k])
        }),
    decreases text.len(),
{
    let kept = trimmed_start(text);
    let from = text.len() - kept.len();
    if text.len() > 0 && white_space(text.first()) {
        lemma_trimmed_start(text.drop_first());
        assert(kept =~= text.skip(from));
        assert forall|k: int| 0 <= k < from implies white_space(#[trigger] text[k]) by {
            if k > 0 {
                assert(white_space(text.drop_first()[k - 1]));
            }
        }
    } else {
        assert(kept =~= text.skip(from));
    }
}

/// A trimmed text is a piece of the text with nothing but white space before and
/// behind it, and without white space at its two ends.
pub proof fn law_trimmed_text_lost_only_white_space(text: Seq<char>)
    ensures
        trimmed(text).len() > 0 ==> !white_space(trimmed(text).first()) && !white_space(
            trimmed(text).last(),
        ),
        exists|from: int, to: int|
            0 <= from <= to <= text.len() && trimmed(text) == #[trigger] text.subrange(from, to) && (
            forall|k: int|
                (0 <= k < from || to <= k < text.len()) ==> white_space(#[trigger] text[k])),
{
    lemma_trimmed_end(text);
    let front = trimmed_end(text);
    lemma_trimmed_start(front);
    let to = front.len() as int;
    let from = to - trimmed(text).len();
    assert(trimmed(text) =~= text.subrange(from, to));
    assert forall|k: int| (0 <= k < from || to <= k < text.len()) implies white_space(
        #[trigger] text[k],
    ) by {
        if k < from {
            assert(white_space(front[k]));
        }
    }
}

/// The white space characters, by their numbers.
pub proof fn law_white_space_by_number(c: char)
    ensures
        white_space(c) <==> {
            let number = c as int;
            ||| 0x9 <= number <= 0xd
            ||| number == 0x20 || number == 0x85 || number == 0xa0 || number == 0x1680
            ||| 0x2000 <= number <= 0x200a
            ||| number == 0x2028 || number == 0x2029 || number == 0x202f || number == 0x205f
            ||| number == 0x3000
        },
{
}

/// Only the twenty-six upper case letters of ASCII have another lower case, which
/// stands thirty-two places behind them.
pub proof fn law_lower_case_by_number(c: char)
    ensures
        0x41 <= c as int <= 0x5a ==> lower(c) as int == c as int + 32,
        !(0x41 <= c as int <= 0x5a) ==> lower(c) == c,
{
}

/// A run occurs in every text that it was put into, and nowhere else.
pub proof fn law_run_is_found_where_it_stands(run: Seq<char>, front: Seq<char>, back: Seq<char>)
    ensures
        occurs_in(run, front + run + back),
        forall|text: Seq<char>|
            #![trigger occurs_in(run, text)]
            occurs_in(run, text) ==> exists|before: Seq<char>, behind: Seq<char>|
                text == #[trigger] (before + run + behind),
{
    let whole = front + run + back;
    assert(whole.subrange(front.len() as int, (front.len() + run.len()) as int) =~= run);
    assert(occurs_at(run, whole, front.len() as int));
    assert forall|text: Seq<char>| #![trigger occurs_in(run, text)] occurs_in(run, text) implies (
    exists|before: Seq<char>, behind: Seq<char>| text == #[trigger] (before + run + behind)) by {
        let at = choose|at: int| occurs_at(run, text, at);
        let before = text.take(at);
        let behind = text.skip(at + run.len());
        assert(text.subrange(at, at + run.len()) =~= run);
        assert(text =~= before + run + behind);
    }
}

/// Tells whether two texts are the same.
pub fn same_text(a: &str, b: &str) -> (same: bool)
    ensures
        same == (a@ == b@),
{
    let left = chars_of(a);
    let right = chars_of(b);
    if left.len() != right.len() {
        return false;
    }
    let mut n: usize = 0;
    while n < left.len()
        invariant
            left@ == a@,
            right@ == b@,
            left@.len() == right@.len(),
            n <= left@.len(),
            forall|k: int| 0 <= k < n ==> left@[k] == right@[k],
        decreases left@.len() - n,
    {
        if left[n] != right[n] {
            return false;
        }
        n = n + 1;
    }
    assert(a@ =~= b@);
    true
}

// === Short shared strings ===

/// The immutable string of the crate `smol_str`.
#[verifier::external_type_specification]
#[verifier::external_body]
pub struct ExSmolStr(smol_str::SmolStr);

/// The characters that a `smol_str::SmolStr` holds.
pub uninterp spec fn smol_chars(text: smol_str::SmolStr) -> Seq<char>;

/// `smol_str::SmolStr::new` copies a text.
#[verifier::external_body]
pub(crate) fn smol_new(text: &str) -> (copy: smol_str::SmolStr)
    ensures
        smol_chars(copy) == text@,
{
    smol_str::SmolStr::new(text)
}

/// `smol_str::SmolStr::as_str` hands out the text.
#[verifier::external_body]
pub(crate) fn smol_as_str(text: &smol_str::SmolStr) -> (slice: &str)
    ensures
        slice@ == smol_chars(*text),
{
    text.as_str()
}

/// Cloning a `smol_str::SmolStr` gives one with the same text.
pub assume_specification[ <smol_str::SmolStr as Clone>::clone ](text: &smol_str::SmolStr) -> (copy:
    smol_str::SmolStr)
    ensures
        smol_chars(copy) == smol_chars(*text),
;

} // verus!
