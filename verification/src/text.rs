//! Helpers on text that the record model and the store share.

use vstd::prelude::*;
use vstd::string::*;
use vstd::utf8::*;

verus! {

/// Whether a character is white space: the characters that have the
/// property White_Space of Unicode, which are the tab, the line feed, the
/// vertical tab, the form feed, the carriage return, the space, the next
/// line, the no-break space, the ogham space mark, the spaces from the en
/// quad to the hair space, the line and the paragraph separator, the
/// narrow no-break space, the medium mathematical space and the
/// ideographic space.
pub open spec fn white_space(c: char) -> bool {
    ||| ('\u{9}' <= c && c <= '\u{d}')
    ||| c == ' '
    ||| c == '\u{85}'
    ||| c == '\u{a0}'
    ||| c == '\u{1680}'
    ||| ('\u{2000}' <= c && c <= '\u{200a}')
    ||| c == '\u{2028}'
    ||| c == '\u{2029}'
    ||| c == '\u{202f}'
    ||| c == '\u{205f}'
    ||| c == '\u{3000}'
}

/// `char::is_whitespace` of std: whether the character has the Unicode
/// property White_Space.
pub assume_specification[ char::is_whitespace ](c: char) -> (b: bool)
    ensures
        b == white_space(c),
;

/// A text without the white space at its start.
pub open spec fn trim_start(text: Seq<char>) -> Seq<char>
    decreases text.len(),
{
    if text.len() > 0 && white_space(text.first()) {
        trim_start(text.drop_first())
    } else {
        text
    }
}

/// A text without the white space at its end.
pub open spec fn trim_end(text: Seq<char>) -> Seq<char>
    decreases text.len(),
{
    if text.len() > 0 && white_space(text.last()) {
        trim_end(text.drop_last())
    } else {
        text
    }
}

/// A text without the white space at its start and at its end.
pub open spec fn trimmed(text: Seq<char>) -> Seq<char> {
    trim_end(trim_start(text))
}

/// Cutting white space off the start of a text leaves the part that begins
/// at its first character that is no white space.
proof fn lemma_trim_start(text: Seq<char>, from: int)
    requires
        0 <= from <= text.len(),
        forall|k: int| 0 <= k < from ==> white_space(#[trigger] text[k]),
        from < text.len() ==> !white_space(text[from]),
    ensures
        trim_start(text) == text.subrange(from, text.len() as int),
    decreases from,
{
    if from == 0 {
        assert(text.subrange(0, text.len() as int) =~= text);
    } else {
        assert(white_space(text[0]));
        let rest = text.drop_first();
        assert forall|k: int| 0 <= k < from - 1 implies white_space(#[trigger] rest[k]) by {
            assert(rest[k] == text[k + 1]);
        }
        lemma_trim_start(rest, from - 1);
        assert(rest.subrange(from - 1, rest.len() as int) =~= text.subrange(
            from,
            text.len() as int,
        ));
    }
}

/// Cutting white space off the end of a text leaves the part that ends
/// behind its last character that is no white space.
proof fn lemma_trim_end(text: Seq<char>, to: int)
    requires
        0 <= to <= text.len(),
        forall|k: int| to <= k < text.len() ==> white_space(#[trigger] text[k]),
        0 < to ==> !white_space(text[to - 1]),
    ensures
        trim_end(text) == text.subrange(0, to),
    decreases text.len() - to,
{
    if to == text.len() {
        assert(text.subrange(0, to) =~= text);
    } else {
        assert(white_space(text[text.len() - 1]));
        let rest = text.drop_last();
        assert forall|k: int| to <= k < rest.len() implies white_space(#[trigger] rest[k]) by {
            assert(rest[k] == text[k]);
        }
        lemma_trim_end(rest, to);
        assert(rest.subrange(0, to) =~= text.subrange(0, to));
    }
}

/// The text without the white space at its start and at its end.
pub fn trim(text: &str) -> (core: &str)
    ensures
        core@ == trimmed(text@),
{
    let len = text.unicode_len();
    let mut from: usize = 0;
    while from < len && text.get_char(from).is_whitespace()
        invariant
            from <= len,
            len == text@.len(),
            forall|k: int| 0 <= k < from ==> white_space(#[trigger] text@[k]),
        decreases len - from,
    {
        from += 1;
    }
    let mut to: usize = len;
    while to > from && text.get_char(to - 1).is_whitespace()
        invariant
            from <= to <= len,
            len == text@.len(),
            forall|k: int| to <= k < len ==> white_space(#[trigger] text@[k]),
        decreases to,
    {
        to -= 1;
    }
    proof {
        lemma_trim_start(text@, from as int);
        let tail = text@.subrange(from as int, len as int);
        assert forall|k: int| to - from <= k < tail.len() implies white_space(
            #[trigger] tail[k],
        ) by {
            assert(tail[k] == text@[k + from]);
        }
        lemma_trim_end(tail, to - from);
        assert(tail.subrange(0, to - from) =~= text@.subrange(from as int, to as int));
    }
    text.substring_char(from, to)
}

/// The character that takes the special meaning from the character behind
/// it in a pattern.
pub const ESCAPE: char = '\\';

/// Whether a character has a special meaning in a pattern: the percent
/// sign stands for any text, the underscore for any one character, and the
/// escape character takes the meaning from what follows it.
pub open spec fn special(c: char) -> bool {
    c == '%' || c == '_' || c == ESCAPE
}

/// A text in which every character stands for itself when it is read as a
/// pattern: the escape character is put before each special character.
pub open spec fn escaped(text: Seq<char>) -> Seq<char>
    decreases text.len(),
{
    if text.len() == 0 {
        seq![]
    } else if special(text.last()) {
        escaped(text.drop_last()).push(ESCAPE).push(text.last())
    } else {
        escaped(text.drop_last()).push(text.last())
    }
}

/// The pattern for the texts in which `keyword` occurs: the keyword, with
/// its characters standing for themselves, between two percent signs. The
/// comparison itself is SQLite's `LIKE`, which takes an ASCII letter of the
/// pattern for that letter in either case: the pattern of `tol` also
/// matches `Tolkien`.
pub open spec fn containing(keyword: Seq<char>) -> Seq<char> {
    seq!['%'] + escaped(keyword) + seq!['%']
}

/// The pattern for the texts in which `keyword` occurs, for a comparison
/// with `LIKE` that takes `ESCAPE` as its escape character. No character
/// of the keyword is a wildcard; ASCII letters match in either case, as
/// `LIKE` compares them.
pub fn like_pattern(keyword: &str) -> (pattern: String)
    ensures
        pattern@ == containing(keyword@),
{
    proof {
        reveal_strlit("%");
        reveal_strlit("\\");
    }
    let len = keyword.unicode_len();
    let mut pattern = "%".to_owned();
    let mut i: usize = 0;
    assert(pattern@ =~= seq!['%'] + escaped(keyword@.subrange(0, 0)));
    while i < len
        invariant
            i <= len,
            len == keyword@.len(),
            "\\"@ == seq![ESCAPE],
            pattern@ == seq!['%'] + escaped(keyword@.subrange(0, i as int)),
        decreases len - i,
    {
        let c = keyword.get_char(i);
        let ghost before = keyword@.subrange(0, i as int);
        let ghost after = keyword@.subrange(0, i + 1);
        assert(after.drop_last() =~= before);
        assert(after.last() == c);
        if c == '%' || c == '_' || c == ESCAPE {
            pattern.append("\\");
        }
        pattern.append(keyword.substring_char(i, i + 1));
        assert(keyword@.subrange(i as int, i + 1) =~= seq![c]);
        assert(pattern@ =~= seq!['%'] + escaped(after));
        i += 1;
    }
    assert(keyword@.subrange(0, len as int) =~= keyword@);
    pattern.append("%");
    assert("%"@ =~= seq!['%']);
    pattern
}

/// Whether two string slices hold the same characters.
pub fn same_text(left: &str, right: &str) -> (same: bool)
    ensures
        same == (left@ == right@),
{
    let a = left.as_bytes();
    let b = right.as_bytes();
    proof {
        // The characters are recovered from the bytes, so equal bytes
        // mean equal characters.
        encode_utf8_decode_utf8(left@);
        encode_utf8_decode_utf8(right@);
    }
    if a.len() != b.len() {
        return false;
    }
    let mut i: usize = 0;
    while i < a.len()
        invariant
            i <= a.len(),
            a.len() == b.len(),
            a@ == encode_utf8(left@),
            b@ == encode_utf8(right@),
            forall|k: int| 0 <= k < i ==> a@[k] == b@[k],
        decreases a.len() - i,
    {
        if a[i] != b[i] {
            return false;
        }
        i += 1;
    }
    assert(a@ =~= b@);
    true
}

} // verus!
