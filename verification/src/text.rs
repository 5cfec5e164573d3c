//! Literal tests on text: prefix, suffix and substring.
//!
//! The tests are case-sensitive. They are stated over the characters of
//! the two texts and computed on their UTF-8 bytes; the lemmas of this
//! module show that the two agree.

use vstd::prelude::*;
use vstd::string::*;
use vstd::utf8::*;

verus! {

/// Whether `pattern` stands in `text` at offset `at`.
pub open spec fn occurs_at<T>(pattern: Seq<T>, text: Seq<T>, at: int) -> bool {
    &&& 0 <= at
    &&& at + pattern.len() <= text.len()
    &&& text.subrange(at, at + pattern.len()) == pattern
}

/// Whether `pattern` stands somewhere in `text`.
pub open spec fn occurs_in<T>(pattern: Seq<T>, text: Seq<T>) -> bool {
    exists|at: int| occurs_at(pattern, text, at)
}

/// Whether the text `message` begins with the text `pattern`.
pub open spec fn begins_with(message: Seq<char>, pattern: Seq<char>) -> bool {
    pattern.is_prefix_of(message)
}

/// Whether the text `message` ends with the text `pattern`.
pub open spec fn finishes_with(message: Seq<char>, pattern: Seq<char>) -> bool {
    pattern.is_suffix_of(message)
}

/// Whether the text `pattern` stands somewhere in the text `message`.
pub open spec fn includes(message: Seq<char>, pattern: Seq<char>) -> bool {
    occurs_in(pattern, message)
}

/// The encoding of a concatenation is the concatenation of the encodings.
pub proof fn lemma_encode_concat(first: Seq<char>, second: Seq<char>)
    ensures
        encode_utf8(first + second) == encode_utf8(first) + encode_utf8(second),
    decreases first.len(),
{
    if first.len() == 0 {
        assert(first + second =~= second);
        assert(encode_utf8(first) + encode_utf8(second) =~= encode_utf8(second));
    } else {
        lemma_encode_concat(first.drop_first(), second);
        assert((first + second).drop_first() =~= first.drop_first() + second);
        assert((first + second)[0] == first[0]);
        assert(encode_utf8(first + second) =~= encode_utf8(first) + encode_utf8(second));
    }
}

/// A text whose encoding begins with the encoding of `pattern` begins
/// with `pattern` itself.
pub proof fn lemma_encoded_prefix(message: Seq<char>, pattern: Seq<char>)
    requires
        encode_utf8(pattern).is_prefix_of(encode_utf8(message)),
    ensures
        pattern.is_prefix_of(message),
    decreases pattern.len(),
{
    if pattern.len() == 0 {
        assert(message.subrange(0, 0) =~= pattern);
    } else {
        let short = encode_utf8(pattern);
        let long = encode_utf8(message);
        encode_utf8_first_scalar(pattern);
        assert(short.len() > 0);
        assert(message.len() > 0);
        encode_utf8_first_scalar(message);
        let width = length_of_first_scalar(short);
        assert(short =~= long.subrange(0, short.len() as int));
        assert(short[0] == long[0]);
        assert(width == length_of_first_scalar(long));
        assert(width == encode_scalar(pattern[0] as u32).len());
        assert(width <= short.len());
        assert(forall|k: int| 0 <= k < width ==> short[k] == long[k]);
        assert(decode_first_scalar(short) == decode_first_scalar(long));
        char_u32_cast(pattern[0], pattern[0] as u32);
        char_u32_cast(message[0], message[0] as u32);
        assert(pattern[0] == message[0]);
        let short_rest = encode_utf8(pattern.drop_first());
        let long_rest = encode_utf8(message.drop_first());
        assert(short_rest =~= short.subrange(width, short.len() as int));
        assert(long_rest =~= long.subrange(width, long.len() as int));
        assert(short_rest =~= long_rest.subrange(0, short_rest.len() as int));
        lemma_encoded_prefix(message.drop_first(), pattern.drop_first());
        assert(pattern.drop_first() =~= message.drop_first().subrange(
            0,
            pattern.len() - 1,
        ));
        assert(pattern =~= message.subrange(0, pattern.len() as int)) by {
            assert forall|k: int| 0 <= k < pattern.len() implies pattern[k] == message[k] by {
                if k > 0 {
                    assert(pattern[k] == pattern.drop_first()[k - 1]);
                    assert(message.drop_first().subrange(0, pattern.len() - 1)[k - 1]
                        == message[k]);
                }
            }
        }
    }
}

/// The bytes of `pattern` stand at the front of the bytes of `message`
/// exactly when `message` begins with `pattern`.
pub proof fn lemma_prefix_by_bytes(message: Seq<char>, pattern: Seq<char>)
    ensures
        encode_utf8(pattern).is_prefix_of(encode_utf8(message)) <==> begins_with(message, pattern),
{
    if encode_utf8(pattern).is_prefix_of(encode_utf8(message)) {
        lemma_encoded_prefix(message, pattern);
    }
    if pattern.is_prefix_of(message) {
        let rest = message.subrange(pattern.len() as int, message.len() as int);
        assert(message =~= pattern + rest);
        lemma_encode_concat(pattern, rest);
        assert(encode_utf8(pattern) =~= encode_utf8(message).subrange(
            0,
            encode_utf8(pattern).len() as int,
        ));
    }
}

/// Where the bytes of `pattern` stand in the bytes of `message`, the text
/// from there on begins with `pattern`: the offset splits `message` into
/// two texts, and the second one begins with `pattern`.
pub proof fn lemma_split_at_occurrence(message: Seq<char>, pattern: Seq<char>, at: int) -> (parts: (
    Seq<char>,
    Seq<char>,
))
    requires
        occurs_at(encode_utf8(pattern), encode_utf8(message), at),
        pattern.len() > 0,
    ensures
        message == parts.0 + parts.1,
        encode_utf8(parts.0) == encode_utf8(message).subrange(0, at),
        encode_utf8(parts.1) == encode_utf8(message).subrange(at, encode_utf8(message).len() as int),
        pattern.is_prefix_of(parts.1),
{
    let short = encode_utf8(pattern);
    let long = encode_utf8(message);
    encode_utf8_valid_utf8(message);
    encode_utf8_first_scalar(pattern);
    assert(short.len() > 0);
    assert(long.subrange(at, at + short.len())[0] == long[at]);
    assert(long[at] == short[0]);
    is_char_boundary_iff_is_leading_byte(long, at);
    assert(is_char_boundary(long, at));
    valid_utf8_split(long, at);
    decode_utf8_split(long, at);
    encode_utf8_decode_utf8(message);
    let head = long.subrange(0, at);
    let tail = long.subrange(at, long.len() as int);
    let parts = (decode_utf8(head), decode_utf8(tail));
    decode_utf8_encode_utf8(head);
    decode_utf8_encode_utf8(tail);
    assert(short =~= tail.subrange(0, short.len() as int));
    lemma_encoded_prefix(parts.1, pattern);
    parts
}

/// The bytes of `pattern` stand somewhere in the bytes of `message`
/// exactly when `pattern` stands somewhere in `message`.
pub proof fn lemma_infix_by_bytes(message: Seq<char>, pattern: Seq<char>)
    ensures
        occurs_in(encode_utf8(pattern), encode_utf8(message)) <==> includes(message, pattern),
{
    let short = encode_utf8(pattern);
    let long = encode_utf8(message);
    if occurs_in(short, long) {
        if pattern.len() == 0 {
            assert(message.subrange(0, 0) =~= pattern);
            assert(occurs_at(pattern, message, 0));
        } else {
            let at = choose|at: int| occurs_at(short, long, at);
            let parts = lemma_split_at_occurrence(message, pattern, at);
            let offset = parts.0.len() as int;
            assert(message.subrange(offset, offset + pattern.len()) =~= parts.1.subrange(
                0,
                pattern.len() as int,
            ));
            assert(occurs_at(pattern, message, offset));
        }
    }
    if occurs_in(pattern, message) {
        let offset = choose|offset: int| occurs_at(pattern, message, offset);
        let head = message.subrange(0, offset);
        let tail = message.subrange(offset + pattern.len(), message.len() as int);
        assert(message =~= head + pattern + tail);
        lemma_encode_concat(head + pattern, tail);
        lemma_encode_concat(head, pattern);
        let at = encode_utf8(head).len() as int;
        assert(long.subrange(at, at + short.len()) =~= short);
        assert(occurs_at(short, long, at));
    }
}

/// The bytes of `pattern` stand at the end of the bytes of `message`
/// exactly when `message` ends with `pattern`.
pub proof fn lemma_suffix_by_bytes(message: Seq<char>, pattern: Seq<char>)
    ensures
        encode_utf8(pattern).is_suffix_of(encode_utf8(message)) <==> finishes_with(
            message,
            pattern,
        ),
{
    let short = encode_utf8(pattern);
    let long = encode_utf8(message);
    if short.is_suffix_of(long) {
        if pattern.len() == 0 {
            assert(message.subrange(message.len() as int, message.len() as int) =~= pattern);
        } else {
            let at = long.len() - short.len();
            assert(long.subrange(at, at + short.len()) =~= short);
            let parts = lemma_split_at_occurrence(message, pattern, at);
            assert(encode_utf8(parts.1) =~= short);
            encode_utf8_decode_utf8(parts.1);
            encode_utf8_decode_utf8(pattern);
            assert(parts.1 == pattern);
            assert(message.subrange(message.len() - pattern.len(), message.len() as int)
                =~= pattern);
        }
    }
    if pattern.is_suffix_of(message) {
        let head = message.subrange(0, message.len() - pattern.len());
        assert(message =~= head + pattern);
        lemma_encode_concat(head, pattern);
        assert(long.subrange(long.len() - short.len(), long.len() as int) =~= short);
    }
}

/// Compares `pattern` with the bytes of `text` that start at `at`.
fn matches_at(text: &[u8], pattern: &[u8], at: usize) -> (same: bool)
    requires
        at + pattern@.len() <= text@.len(),
    ensures
        same == occurs_at(pattern@, text@, at as int),
{
    let size: usize = text.len();
    let mut k: usize = 0;
    while k < pattern.len()
        invariant
            k <= pattern@.len(),
            at + pattern@.len() <= text@.len(),
            text@.len() == size,
            forall|j: int| 0 <= j < k ==> text@[at + j] == pattern@[j],
        decreases pattern@.len() - k,
    {
        if text[at + k] != pattern[k] {
            proof {
                let window = text@.subrange(at as int, at + pattern@.len());
                assert(window[k as int] == text@[at + k]);
            }
            return false;
        }
        k += 1;
    }
    proof {
        assert(text@.subrange(at as int, at + pattern@.len()) =~= pattern@);
    }
    true
}

/// Whether `text` begins with `pattern`.
pub fn bytes_start_with(text: &[u8], pattern: &[u8]) -> (found: bool)
    ensures
        found == pattern@.is_prefix_of(text@),
{
    if pattern.len() > text.len() {
        return false;
    }
    matches_at(text, pattern, 0)
}

/// Whether `text` ends with `pattern`.
pub fn bytes_end_with(text: &[u8], pattern: &[u8]) -> (found: bool)
    ensures
        found == pattern@.is_suffix_of(text@),
{
    if pattern.len() > text.len() {
        return false;
    }
    matches_at(text, pattern, text.len() - pattern.len())
}

/// Whether `pattern` stands somewhere in `text`.
pub fn bytes_contain(text: &[u8], pattern: &[u8]) -> (found: bool)
    ensures
        found == occurs_in(pattern@, text@),
{
    if pattern.len() > text.len() {
        proof {
            assert forall|at: int| !occurs_at(pattern@, text@, at) by {}
        }
        return false;
    }
    let last: usize = text.len() - pattern.len();
    let mut at: usize = 0;
    loop
        invariant
            last == text@.len() - pattern@.len(),
            at <= last,
            forall|j: int| 0 <= j < at ==> !occurs_at(pattern@, text@, j),
        decreases last - at,
    {
        if matches_at(text, pattern, at) {
            return true;
        }
        if at == last {
            proof {
                assert forall|j: int| !occurs_at(pattern@, text@, j) by {
                    if 0 <= j <= at {
                    }
                }
            }
            return false;
        }
        at += 1;
    }
}

/// Whether `message` begins with `pattern`.
pub fn starts_with(message: &str, pattern: &str) -> (found: bool)
    ensures
        found == begins_with(message@, pattern@),
{
    proof {
        lemma_prefix_by_bytes(message@, pattern@);
    }
    bytes_start_with(message.as_bytes(), pattern.as_bytes())
}

/// Whether `message` ends with `pattern`.
pub fn ends_with(message: &str, pattern: &str) -> (found: bool)
    ensures
        found == finishes_with(message@, pattern@),
{
    proof {
        lemma_suffix_by_bytes(message@, pattern@);
    }
    bytes_end_with(message.as_bytes(), pattern.as_bytes())
}

/// Whether `pattern` stands somewhere in `message`.
pub fn contains(message: &str, pattern: &str) -> (found: bool)
    ensures
        found == includes(message@, pattern@),
{
    proof {
        lemma_infix_by_bytes(message@, pattern@);
    }
    bytes_contain(message.as_bytes(), pattern.as_bytes())
}

} // verus!
