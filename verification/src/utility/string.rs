//! Fitting a text into a column of a given width.

use vstd::prelude::*;
use vstd::utf8::*;

verus! {

/// `count` blanks.
pub open spec fn blanks(count: nat) -> Seq<char> {
    Seq::new(count, |i: int| ' ')
}

/// The characters that remain of `text` when it is cut after the first `bytes` bytes of
/// its UTF-8 encoding.
pub open spec fn cut_at_byte(text: Seq<char>, bytes: int) -> Seq<char> {
    decode_utf8(encode_utf8(text).subrange(0, bytes))
}

/// Whether `text` can be fitted into `max_width` columns: a text that is too long is cut
/// four bytes before the width, which has to be possible and must not split a character.
pub open spec fn fits_column(text: Seq<char>, max_width: usize) -> bool {
    text.len() > max_width ==> max_width >= 4 && is_char_boundary(
        encode_utf8(text),
        max_width - 4,
    )
}

/// `text` in a column of `max_width` characters: padded with blanks on the right, or,
/// where it is longer than the column, cut and marked with three dots.
pub open spec fn column_text(text: Seq<char>, max_width: usize) -> Seq<char> {
    if text.len() > max_width {
        let head = cut_at_byte(text, max_width - 4);
        head + seq!['.', '.', '.'] + blanks((max_width - head.len() - 3) as nat)
    } else {
        text + blanks((max_width - text.len()) as nat)
    }
}

/// `text` between two equal runs of blanks, each half as long as what `max_width` leaves
/// beyond the bytes of `text`.
pub open spec fn centered_text(text: Seq<char>, max_width: usize) -> Seq<char> {
    let padding = blanks(((max_width - encode_utf8(text).len()) / 2) as nat);
    padding + text + padding
}

/// Whether `text` occurs in `within` as a run of consecutive characters.
pub open spec fn is_substring(text: Seq<char>, within: Seq<char>) -> bool {
    exists|start: int|
        0 <= start && start + text.len() <= within.len() && #[trigger] within.subrange(
            start,
            start + text.len(),
        ) == text
}

/// A text has at most as many characters as its encoding has bytes.
pub proof fn lemma_chars_within_bytes(text: Seq<char>)
    ensures
        text.len() <= encode_utf8(text).len(),
    decreases text.len(),
{
    if text.len() > 0 {
        lemma_chars_within_bytes(text.drop_first());
    }
}

/// Cutting an ASCII text after `bytes` bytes keeps its first `bytes` characters.
pub proof fn lemma_cut_ascii(text: Seq<char>, bytes: int)
    requires
        is_ascii_chars(text),
        0 <= bytes <= text.len(),
    ensures
        cut_at_byte(text, bytes) == text.take(bytes),
{
    let head = text.take(bytes);
    assert(is_ascii_chars(head));
    is_ascii_chars_encode_utf8(text);
    is_ascii_chars_encode_utf8(head);
    assert(encode_utf8(head) =~= encode_utf8(text).subrange(0, bytes));
    encode_utf8_decode_utf8(head);
}

/// An ASCII text can be fitted into every column of four characters or more: each of its
/// characters takes one byte, so no cut splits one.
pub proof fn lemma_ascii_fits(text: Seq<char>, max_width: usize)
    requires
        is_ascii_chars(text),
        max_width >= 4,
    ensures
        fits_column(text, max_width),
{
    if text.len() > max_width {
        let bytes = encode_utf8(text);
        let cut = max_width - 4;
        is_ascii_chars_encode_utf8(text);
        encode_utf8_valid_utf8(text);
        assert(bytes[cut] == text[cut] as u8);
        assert(!is_continuation_byte(bytes[cut]));
        is_char_boundary_iff_not_is_continuation_byte(bytes, cut);
    }
}

/// A fitted text fills its column exactly.
pub proof fn lemma_column_text_len(text: Seq<char>, max_width: usize)
    requires
        fits_column(text, max_width),
    ensures
        column_text(text, max_width).len() == max_width,
{
    if text.len() > max_width {
        lemma_chars_within_bytes(text);
        lemma_cut_len(text, max_width - 4);
    }
}

/// What is cut off at a character boundary has no more characters than bytes.
proof fn lemma_cut_len(text: Seq<char>, bytes: int)
    requires
        is_char_boundary(encode_utf8(text), bytes),
        0 <= bytes <= encode_utf8(text).len(),
    ensures
        cut_at_byte(text, bytes).len() <= bytes,
{
    let all = encode_utf8(text);
    encode_utf8_valid_utf8(text);
    valid_utf8_split(all, bytes);
    let head = all.subrange(0, bytes);
    decode_utf8_encode_utf8(head);
    lemma_chars_within_bytes(decode_utf8(head));
}

/// Whether `text` occurs in `within`, case by case.
///
/// Calls `str::contains` with a string as the pattern, which is true exactly when the
/// pattern matches a part of the string it is called on.
#[verifier::external_body]
pub(crate) fn contains(within: &str, text: &str) -> (found: bool)
    ensures
        found == is_substring(text@, within@),
{
    within.contains(text)
}

/// Adds `letter` to the end of `text`.
///
/// Calls `String::push`.
#[verifier::external_body]
pub(crate) fn push_char(text: &mut String, letter: char)
    ensures
        final(text)@ == old(text)@.push(letter),
{
    text.push(letter)
}

/// Takes the last character off `text` and returns it; leaves an empty text alone.
///
/// Calls `String::pop`.
#[verifier::external_body]
pub(crate) fn pop_char(text: &mut String) -> (letter: Option<char>)
    ensures
        match letter {
            Some(last) => old(text)@.len() > 0 && last == old(text)@.last() && final(text)@ == old(
                text,
            )@.drop_last(),
            None => old(text)@.len() == 0 && final(text)@ == old(text)@,
        },
{
    text.pop()
}

/// A string of `count` blanks.
fn spaces(count: usize) -> (out: String)
    ensures
        out@ == blanks(count as nat),
{
    let mut out = String::new();
    let mut done: usize = 0;
    while done < count
        invariant
            done <= count,
            out@ == blanks(done as nat),
        decreases count - done,
    {
        proof {
            reveal_strlit(" ");
        }
        out.append(" ");
        done += 1;
        assert(out@ =~= blanks(done as nat));
    }
    out
}

/// Whether `text` can be fitted into `max_width` columns.
pub fn fits(text: &str, max_width: usize) -> (ok: bool)
    ensures
        ok == fits_column(text@, max_width),
{
    let length: usize = text.unicode_len();
    if length > max_width {
        max_width >= 4 && text.is_char_boundary(max_width - 4)
    } else {
        true
    }
}

/// Fits `string` into a column of `max_width` characters. A shorter text is padded with
/// blanks on the right. A longer one is cut four bytes before the width, then three dots
/// and the blanks that are still missing follow.
pub fn expand_or_truncate(string: String, max_width: usize) -> (result: String)
    requires
        fits_column(string@, max_width),
    ensures
        result@ == column_text(string@, max_width),
        result@.len() == max_width,
{
    let length: usize = string.as_str().unicode_len();
    proof {
        lemma_column_text_len(string@, max_width);
    }
    if length > max_width {
        proof {
            lemma_chars_within_bytes(string@);
            lemma_cut_len(string@, max_width - 4);
        }
        let (head, _tail) = string.as_str().split_at(max_width - 4);
        proof {
            encode_utf8_decode_utf8(head@);
            assert(head@ == cut_at_byte(string@, max_width - 4));
            reveal_strlit("...");
        }
        let mut result = String::from_str(head);
        result.append("...");
        assert(result@ =~= head@ + seq!['.', '.', '.']);
        let used: usize = result.as_str().unicode_len();
        let padding = spaces(max_width - used);
        result.append(padding.as_str());
        result
    } else {
        let padding = spaces(max_width - length);
        let mut result = string;
        result.append(padding.as_str());
        result
    }
}

/// Puts `text` between two equal runs of blanks, each half as long as what `max_width`
/// leaves beyond the bytes of `text`.
pub fn center(text: String, max_width: usize) -> (result: String)
    requires
        max_width >= encode_utf8(text@).len(),
    ensures
        result@ == centered_text(text@, max_width),
{
    let padding = spaces((max_width - text.as_str().len()) / 2);
    let mut result = String::from_str(padding.as_str());
    result.append(text.as_str());
    result.append(padding.as_str());
    result
}

} // verus!
