//! Reading a one-character answer from a line the user typed.
use vstd::prelude::*;

verus! {

/// Whether `c` has the Unicode `White_Space` property, the property that
/// `char::is_whitespace` and `str::trim` go by: the 25 code points U+0009 to
/// U+000D, U+0020, U+0085, U+00A0, U+1680, U+2000 to U+200A, U+2028, U+2029,
/// U+202F, U+205F and U+3000.
pub open spec fn white_space(c: char) -> bool {
    ||| '\u{9}' <= c <= '\u{d}'
    ||| c == ' '
    ||| c == '\u{85}'
    ||| c == '\u{a0}'
    ||| c == '\u{1680}'
    ||| '\u{2000}' <= c <= '\u{200a}'
    ||| c == '\u{2028}'
    ||| c == '\u{2029}'
    ||| c == '\u{202f}'
    ||| c == '\u{205f}'
    ||| c == '\u{3000}'
}

/// Whether `c` is white space in the sense of `white_space`.
pub fn is_white_space(c: char) -> (ws: bool)
    ensures
        ws == white_space(c),
{
    ('\u{9}' <= c && c <= '\u{d}') || c == ' ' || c == '\u{85}' || c == '\u{a0}' || c == '\u{1680}'
        || ('\u{2000}' <= c && c <= '\u{200a}') || c == '\u{2028}' || c == '\u{2029}' || c == '\u{202f}'
        || c == '\u{205f}' || c == '\u{3000}'
}

/// The first character of `s` that is not white space, if there is one:
/// the first character of `s` once trimmed.
pub open spec fn first_non_white(s: Seq<char>) -> Option<char>
    decreases s.len(),
{
    if s.len() == 0 {
        None
    } else if white_space(s[0]) {
        first_non_white(s.drop_first())
    } else {
        Some(s[0])
    }
}

/// The answer read from a line is a character of the line itself: the first
/// one that is not white space, every character before it being white space;
/// there is none exactly when the whole line is white space.
pub proof fn law_first_non_white_exact(s: Seq<char>)
    ensures
        (first_non_white(s) is None) == (forall|j: int| 0 <= j < s.len() ==> white_space(#[trigger] s[j])),
        first_non_white(s) matches Some(c) ==> exists|i: int|
            0 <= i < s.len() && #[trigger] s[i] == c && !white_space(c) && forall|j: int|
                0 <= j < i ==> white_space(#[trigger] s[j]),
    decreases s.len(),
{
    if s.len() > 0 {
        let rest = s.drop_first();
        law_first_non_white_exact(rest);
        if white_space(s[0]) {
            assert forall|j: int| 0 <= j < rest.len() implies #[trigger] rest[j] == s[j + 1] by {}
            if let Some(c) = first_non_white(rest) {
                let i = choose|i: int|
                    0 <= i < rest.len() && #[trigger] rest[i] == c && !white_space(c) && forall|j: int|
                        0 <= j < i ==> white_space(#[trigger] rest[j]);
                assert(s[i + 1] == c);
                assert forall|j: int| 0 <= j < i + 1 implies white_space(#[trigger] s[j]) by {
                    if j > 0 {
                        assert(s[j] == rest[j - 1]);
                    }
                }
            } else {
                assert forall|j: int| 0 <= j < s.len() implies white_space(#[trigger] s[j]) by {
                    if j > 0 {
                        assert(s[j] == rest[j - 1]);
                    }
                }
            }
        } else {
            assert(s[0] == s[0]);
        }
    }
}

/// The answer in a line typed by the user: its first character once leading
/// and trailing white space is trimmed, or `None` for a blank line.
pub fn first_answer(line: &str) -> (answer: Option<char>)
    ensures
        answer == first_non_white(line@),
{
    let len = line.unicode_len();
    let mut i: usize = 0;
    assert(line@.skip(0) =~= line@);
    while i < len
        invariant
            len == line@.len(),
            i <= len,
            first_non_white(line@) == first_non_white(line@.skip(i as int)),
        decreases len - i,
    {
        let c = line.get_char(i);
        assert(line@.skip(i as int)[0] == c);
        if !is_white_space(c) {
            return Some(c);
        }
        assert(line@.skip(i as int).drop_first() =~= line@.skip(i + 1));
        i = i + 1;
    }
    assert(line@.skip(len as int) =~= Seq::<char>::empty());
    None
}

} // verus!
