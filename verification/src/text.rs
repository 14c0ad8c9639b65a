//! Byte strings: the raw form in which option values arrive.

use vstd::prelude::*;
use vstd::utf8::*;

verus! {

/// The bytes that spell `word` in UTF-8.
pub open spec fn spelled(word: Seq<char>) -> Seq<u8> {
    encode_utf8(word)
}

/// The first position of `byte` in `s`, or `None` where `s` does not hold it.
pub open spec fn first_index(s: Seq<u8>, byte: u8) -> Option<int> {
    s.index_of_first(byte)
}

/// [`first_index`] is `None` exactly when `byte` does not occur. Otherwise
/// `byte` stands where it points, and nowhere before.
pub proof fn lemma_first_index(s: Seq<u8>, byte: u8)
    ensures
        first_index(s, byte) is None <==> !s.contains(byte),
        first_index(s, byte) matches Some(i) ==> 0 <= i < s.len() && s[i] == byte && !s.take(
            i,
        ).contains(byte),
{
    s.index_of_first_ensures(byte);
    if let Some(i) = first_index(s, byte) {
        assert forall|j: int| 0 <= j < s.take(i).len() implies s.take(i)[j] != byte by {
            assert(s.take(i)[j] == s[j]);
        }
    }
}

/// A position that holds `byte` with no `byte` before it is the first one.
pub proof fn lemma_first_index_unique(s: Seq<u8>, byte: u8, i: int)
    requires
        0 <= i < s.len(),
        s[i] == byte,
        forall|j: int| 0 <= j < i ==> s[j] != byte,
    ensures
        first_index(s, byte) == Some(i),
{
    s.index_of_first_ensures(byte);
    assert(s.contains(byte));
}

/// Two texts with the same UTF-8 bytes are the same text.
pub proof fn lemma_spelled_injective(a: Seq<char>, b: Seq<char>)
    requires
        spelled(a) == spelled(b),
    ensures
        a == b,
{
    encode_utf8_decode_utf8(a);
    encode_utf8_decode_utf8(b);
}

/// ASCII text is spelled with one byte for each character: the character's
/// own number.
pub proof fn lemma_spelled_ascii(word: Seq<char>)
    requires
        is_ascii_chars(word),
    ensures
        spelled(word) == Seq::new(word.len(), |i: int| word[i] as u8),
{
    is_ascii_chars_encode_utf8(word);
    assert(spelled(word) =~= Seq::new(word.len(), |i: int| word[i] as u8));
}

/// Bytes below `0x80` are ASCII, and ASCII is valid UTF-8.
pub proof fn lemma_ascii_is_utf8(s: Seq<u8>)
    requires
        forall|i: int| 0 <= i < s.len() ==> #[trigger] s[i] < 0x80,
    ensures
        valid_utf8(s),
{
    assert(s.subrange(0, 0) =~= Seq::<u8>::empty());
    assert(partial_valid_utf8(s, 0));
    assert forall|i: int| 0 <= 0 <= i < s.len() <= s.len() implies #[trigger] is_leading_byte_width_1(
        s[i],
    ) by {
        assert(s[i] < 0x80);
    }
    partial_valid_utf8_extend_ascii_block(s, 0, s.len() as int);
    assert(s.subrange(0, s.len() as int) =~= s);
}

/// Whether two byte strings are equal.
pub fn bytes_eq(a: &[u8], b: &[u8]) -> (r: bool)
    ensures
        r == (a@ == b@),
{
    if a.len() != b.len() {
        return false;
    }
    let mut i: usize = 0;
    while i < a.len()
        invariant
            0 <= i <= a@.len(),
            a@.len() == b@.len(),
            a@.take(i as int) == b@.take(i as int),
        decreases a@.len() - i,
    {
        if a[i] != b[i] {
            return false;
        }
        assert(a@.take(i + 1) =~= a@.take(i as int).push(a@[i as int]));
        assert(b@.take(i + 1) =~= b@.take(i as int).push(b@[i as int]));
        i = i + 1;
    }
    assert(a@ =~= a@.take(i as int));
    assert(b@ =~= b@.take(i as int));
    true
}

/// Whether `value` is the UTF-8 spelling of `word`.
pub fn spells(value: &[u8], word: &str) -> (r: bool)
    ensures
        r == (value@ == spelled(word@)),
{
    bytes_eq(value, word.as_bytes())
}

/// Whether two texts are equal.
pub fn same_text(a: &str, b: &str) -> (r: bool)
    ensures
        r == (a@ == b@),
{
    let r = bytes_eq(a.as_bytes(), b.as_bytes());
    proof {
        if r {
            lemma_spelled_injective(a@, b@);
        }
    }
    r
}

/// The first position of `byte` in `text`, if it occurs there.
pub fn find_byte(text: &[u8], byte: u8) -> (r: Option<usize>)
    ensures
        r is Some <==> text@.contains(byte),
        r matches Some(i) ==> i < text@.len() && first_index(text@, byte) == Some(i as int),
        r is None ==> first_index(text@, byte) is None,
{
    let mut i: usize = 0;
    while i < text.len()
        invariant
            0 <= i <= text@.len(),
            forall|j: int| 0 <= j < i ==> text@[j] != byte,
        decreases text@.len() - i,
    {
        if text[i] == byte {
            proof {
                lemma_first_index_unique(text@, byte, i as int);
            }
            return Some(i);
        }
        i = i + 1;
    }
    proof {
        lemma_first_index(text@, byte);
    }
    None
}

/// Whether `bytes` is well-formed UTF-8.
///
/// Calls `std::str::from_utf8`, which is documented to succeed exactly on the
/// slices that are valid UTF-8. The contract takes that to be what
/// `vstd::utf8::valid_utf8` spells out; this is believed, not proved.
#[verifier::external_body]
pub(crate) fn is_utf8(bytes: &[u8]) -> (ok: bool)
    ensures
        ok == valid_utf8(bytes@),
{
    std::str::from_utf8(bytes).is_ok()
}

} // verus!
