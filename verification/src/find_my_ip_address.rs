//! Picking this machine's address out of what `hostname -I` prints.

use vstd::prelude::*;

use crate::utils::push_char;

verus! {

/// Whether `c` is white space in the sense of Unicode's `White_Space` property,
/// which `char::is_whitespace` and `str::trim` go by.
pub open spec fn is_white_space(c: char) -> bool {
    let n = c as u32;
    (0x09 <= n <= 0x0d) || n == 0x20 || n == 0x85 || n == 0xa0 || n == 0x1680 || (0x2000 <= n
        <= 0x200a) || n == 0x2028 || n == 0x2029 || n == 0x202f || n == 0x205f || n == 0x3000
}

/// `text` without its leading white space.
pub open spec fn trim_start(text: Seq<char>) -> Seq<char>
    decreases text.len(),
{
    if text.len() > 0 && is_white_space(text[0]) {
        trim_start(text.drop_first())
    } else {
        text
    }
}

/// `text` without its trailing white space.
pub open spec fn trim_end(text: Seq<char>) -> Seq<char>
    decreases text.len(),
{
    if text.len() > 0 && is_white_space(text.last()) {
        trim_end(text.drop_last())
    } else {
        text
    }
}

/// The part of `text` before its first space (all of it when it has none).
pub open spec fn before_space(text: Seq<char>) -> Seq<char>
    decreases text.len(),
{
    if text.len() == 0 {
        text
    } else if text[0] == ' ' {
        Seq::empty()
    } else {
        seq![text[0]] + before_space(text.drop_first())
    }
}

/// The first space-separated field of `text` once white space is trimmed from
/// both ends.
pub open spec fn first_field(text: Seq<char>) -> Seq<char> {
    before_space(trim_end(trim_start(text)))
}

/// Trimming the front leaves a suffix of `text`: everything cut off is white
/// space, and what is left does not start with white space.
pub proof fn lemma_trim_start(text: Seq<char>)
    ensures
        trim_start(text).len() <= text.len(),
        trim_start(text) == text.subrange(text.len() - trim_start(text).len(), text.len() as int),
        forall|i: int| 0 <= i < text.len() - trim_start(text).len() ==> is_white_space(#[trigger] text[i]),
        trim_start(text).len() > 0 ==> !is_white_space(trim_start(text)[0]),
    decreases text.len(),
{
    if text.len() > 0 && is_white_space(text[0]) {
        let rest = text.drop_first();
        lemma_trim_start(rest);
        assert(rest.subrange(rest.len() - trim_start(rest).len(), rest.len() as int) =~= text.subrange(
            text.len() - trim_start(rest).len(),
            text.len() as int,
        ));
        assert forall|i: int| 0 <= i < text.len() - trim_start(text).len() implies is_white_space(
            #[trigger] text[i],
        ) by {
            if i > 0 {
                assert(text[i] == rest[i - 1]);
            }
        }
    } else {
        assert(text.subrange(0, text.len() as int) =~= text);
    }
}

/// Trimming the end leaves a prefix of `text`: everything cut off is white
/// space, and what is left does not end with white space.
pub proof fn lemma_trim_end(text: Seq<char>)
    ensures
        trim_end(text).len() <= text.len(),
        trim_end(text) == text.subrange(0, trim_end(text).len() as int),
        forall|i: int| trim_end(text).len() <= i < text.len() ==> is_white_space(#[trigger] text[i]),
        trim_end(text).len() > 0 ==> !is_white_space(trim_end(text).last()),
    decreases text.len(),
{
    if text.len() > 0 && is_white_space(text.last()) {
        let rest = text.drop_last();
        lemma_trim_end(rest);
        assert(rest.subrange(0, trim_end(rest).len() as int) =~= text.subrange(0, trim_end(rest).len() as int));
        assert forall|i: int| trim_end(text).len() <= i < text.len() implies is_white_space(
            #[trigger] text[i],
        ) by {
            if i < text.len() - 1 {
                assert(text[i] == rest[i]);
            }
        }
    } else {
        assert(text.subrange(0, text.len() as int) =~= text);
    }
}

/// The part before the first space is a prefix of `text` holding no space, and
/// it ends where `text` does or at a space.
pub proof fn lemma_before_space(text: Seq<char>)
    ensures
        before_space(text).len() <= text.len(),
        before_space(text) == text.subrange(0, before_space(text).len() as int),
        !before_space(text).contains(' '),
        before_space(text).len() < text.len() ==> text[before_space(text).len() as int] == ' ',
    decreases text.len(),
{
    if text.len() > 0 && text[0] != ' ' {
        let rest = text.drop_first();
        lemma_before_space(rest);
        let field = before_space(text);
        assert(field =~= text.subrange(0, field.len() as int));
        if field.contains(' ') {
            let w = choose|w: int| 0 <= w < field.len() && field[w] == ' ';
            assert(w > 0);
            assert(before_space(rest)[w - 1] == ' ');
        }
        if field.len() < text.len() {
            assert(text[field.len() as int] == rest[before_space(rest).len() as int]);
        }
    } else if text.len() == 0 {
        assert(text.subrange(0, 0) =~= text);
    } else {
        assert(text.subrange(0, 0) =~= Seq::<char>::empty());
    }
}

/// Whether `text` starts with white space.
pub open spec fn is_white_space_start(text: Seq<char>) -> bool {
    text.len() > 0 && is_white_space(text[0])
}

/// Whether `c` is white space, as `char::is_whitespace` decides it.
fn white_space(c: char) -> (found: bool)
    ensures
        found == is_white_space(c),
{
    let n = c as u32;
    (0x09 <= n && n <= 0x0d) || n == 0x20 || n == 0x85 || n == 0xa0 || n == 0x1680 || (0x2000 <= n
        && n <= 0x200a) || n == 0x2028 || n == 0x2029 || n == 0x202f || n == 0x205f || n == 0x3000
}

/// The candidate address in the output of `hostname -I`: its first
/// space-separated field once white space is trimmed from both ends (empty when
/// the output is blank).
pub fn address_candidate(output: &str) -> (candidate: String)
    ensures
        candidate@ == first_field(output@),
        !candidate@.contains(' '),
        !is_white_space_start(candidate@),
        ({
            let trimmed = trim_end(trim_start(output@));
            &&& candidate@.len() <= trimmed.len()
            &&& trimmed.subrange(0, candidate@.len() as int) == candidate@
            &&& candidate@.len() < trimmed.len() ==> trimmed[candidate@.len() as int] == ' '
        }),
{
    proof {
        lemma_trim_start(output@);
        lemma_trim_end(trim_start(output@));
        lemma_before_space(trim_end(trim_start(output@)));
    }
    let ghost s = output@;
    let len = output.unicode_len();
    let mut start: usize = 0;
    assert(s.subrange(0, len as int) == s);
    loop
        invariant
            s == output@,
            len == s.len(),
            start <= len,
            trim_start(s) == trim_start(s.subrange(start as int, len as int)),
        ensures
            start <= len,
            trim_start(s) == trim_start(s.subrange(start as int, len as int)),
            start < len ==> !is_white_space(s[start as int]),
        decreases len - start,
    {
        if start >= len {
            break;
        }
        if !white_space(output.get_char(start)) {
            break;
        }
        assert(s.subrange(start as int, len as int).drop_first() == s.subrange(start + 1, len as int));
        start = start + 1;
    }
    let mut end: usize = len;
    loop
        invariant
            s == output@,
            len == s.len(),
            start <= end <= len,
            trim_end(s.subrange(start as int, len as int)) == trim_end(s.subrange(start as int, end as int)),
        ensures
            start <= end <= len,
            trim_end(s.subrange(start as int, len as int)) == trim_end(s.subrange(start as int, end as int)),
            start < end ==> !is_white_space(s[end - 1]),
        decreases end - start,
    {
        if end <= start {
            break;
        }
        if !white_space(output.get_char(end - 1)) {
            break;
        }
        assert(s.subrange(start as int, end as int).drop_last() == s.subrange(start as int, end - 1));
        end = end - 1;
    }
    proof {
        let rest = s.subrange(start as int, len as int);
        if start < len {
            assert(rest[0] == s[start as int]);
        } else {
            assert(rest.len() == 0);
        }
        assert(trim_start(s) == rest);
        let kept = s.subrange(start as int, end as int);
        if end > start {
            assert(kept.last() == s[end - 1]);
        }
        assert(trim_end(rest) == kept);
    }
    let mut candidate = String::new();
    let mut k: usize = start;
    assert(candidate@ + before_space(s.subrange(k as int, end as int)) == before_space(
        s.subrange(start as int, end as int),
    ));
    loop
        invariant
            s == output@,
            len == s.len(),
            start <= k <= end <= len,
            candidate@ + before_space(s.subrange(k as int, end as int)) == before_space(
                s.subrange(start as int, end as int),
            ),
        ensures
            start <= k <= end <= len,
            candidate@ + before_space(s.subrange(k as int, end as int)) == before_space(
                s.subrange(start as int, end as int),
            ),
            k < end ==> s[k as int] == ' ',
        decreases end - k,
    {
        if k >= end {
            break;
        }
        let c = output.get_char(k);
        if c == ' ' {
            break;
        }
        let ghost rest = s.subrange(k as int, end as int);
        assert(rest[0] == c);
        assert(rest.drop_first() == s.subrange(k + 1, end as int));
        assert(before_space(rest) == seq![c] + before_space(rest.drop_first()));
        push_char(&mut candidate, c);
        assert(candidate@ + before_space(s.subrange(k + 1, end as int)) =~= before_space(
            s.subrange(start as int, end as int),
        ));
        k = k + 1;
    }
    proof {
        let rest = s.subrange(k as int, end as int);
        if k < end {
            assert(rest[0] == ' ');
        }
        assert(before_space(rest) == Seq::<char>::empty());
        assert(candidate@ == candidate@ + before_space(rest));
    }
    candidate
}

} // verus!
