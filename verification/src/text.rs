//! Character-level helpers on strings, each with the specification that
//! the rest of the library states its contracts in.
use vstd::prelude::*;

verus! {

/// The characters that Unicode gives the `White_Space` property, which is
/// the set that `char::is_whitespace` (and so `str::split_whitespace`) uses.
pub open spec fn is_unicode_whitespace(c: char) -> bool {
    ||| ('\u{9}' <= c && c <= '\u{d}')
    ||| c == ' '
    ||| c == '\u{85}'
    ||| c == '\u{a0}'
    ||| c == '\u{1680}'
    ||| ('\u{2000}' <= c && c <= '\u{200a}')
    ||| c == '\u{2028}'
    ||| c == '\u{2029}'
    ||| c == '\u{202f}'
    ||| c == '\u{205f}'
    ||| c == '\u{3000}'
}

/// Whether `c` is Unicode white space.
pub fn is_whitespace(c: char) -> (r: bool)
    ensures
        r == is_unicode_whitespace(c),
{
    ('\u{9}' <= c && c <= '\u{d}') || c == ' ' || c == '\u{85}' || c == '\u{a0}' || c
        == '\u{1680}' || ('\u{2000}' <= c && c <= '\u{200a}') || c == '\u{2028}' || c
        == '\u{2029}' || c == '\u{202f}' || c == '\u{205f}' || c == '\u{3000}'
}

/// The maximal runs of non-white-space characters of `s`, in order: what
/// `str::split_whitespace` yields. Defined by reading `s` from the left:
/// a white-space character ends the current word, any other character
/// either extends the word that the previous character belongs to or
/// starts a new one.
pub open spec fn ws_words(s: Seq<char>) -> Seq<Seq<char>>
    decreases s.len(),
{
    if s.len() == 0 {
        seq![]
    } else {
        let prev = ws_words(s.drop_last());
        let c = s.last();
        if is_unicode_whitespace(c) {
            prev
        } else if s.len() >= 2 && !is_unicode_whitespace(s[s.len() - 2]) {
            prev.update(prev.len() - 1, prev.last().push(c))
        } else {
            prev.push(seq![c])
        }
    }
}

/// Every word of a text is non-empty and free of white space, and the last
/// word ends the text unless the text ends in white space.
pub proof fn lemma_words_are_nonempty_runs(s: Seq<char>)
    ensures
        forall|k: int|
            0 <= k < ws_words(s).len() ==> #[trigger] ws_words(s)[k].len() > 0 && forall|i: int|
                0 <= i < ws_words(s)[k].len() ==> !is_unicode_whitespace(ws_words(s)[k][i]),
        s.len() > 0 && !is_unicode_whitespace(s.last()) ==> ws_words(s).len() > 0,
    decreases s.len(),
{
    if s.len() > 0 {
        let prev = s.drop_last();
        lemma_words_are_nonempty_runs(prev);
        let c = s.last();
        if !is_unicode_whitespace(c) && s.len() >= 2 && !is_unicode_whitespace(s[s.len() - 2]) {
            assert(prev.last() == s[s.len() - 2]);
            let w = ws_words(prev);
            let last = w.last().push(c);
            assert forall|k: int| 0 <= k < ws_words(s).len() implies #[trigger] ws_words(s)[k].len()
                > 0 && forall|i: int|
                0 <= i < ws_words(s)[k].len() ==> !is_unicode_whitespace(ws_words(s)[k][i]) by {
                if k == w.len() - 1 {
                    assert(ws_words(s)[k] == last);
                    assert forall|i: int| 0 <= i < last.len() implies !is_unicode_whitespace(last[i]) by {
                        if i < last.len() - 1 {
                            assert(last[i] == w[k][i]);
                        }
                    }
                } else {
                    assert(ws_words(s)[k] == w[k]);
                }
            }
        } else if !is_unicode_whitespace(c) {
            let w = ws_words(prev);
            assert forall|k: int| 0 <= k < ws_words(s).len() implies #[trigger] ws_words(s)[k].len()
                > 0 && forall|i: int|
                0 <= i < ws_words(s)[k].len() ==> !is_unicode_whitespace(ws_words(s)[k][i]) by {
                if k < w.len() {
                    assert(ws_words(s)[k] == w[k]);
                } else {
                    assert(ws_words(s)[k] == seq![c]);
                }
            }
        }
    }
}

/// Splits `s` into its white-space separated words.
pub fn split_whitespace(s: &str) -> (r: Vec<String>)
    ensures
        r@.len() == ws_words(s@).len(),
        forall|k: int| 0 <= k < r@.len() ==> #[trigger] r@[k]@ == ws_words(s@)[k],
{
    let n = s.unicode_len();
    let mut words: Vec<String> = Vec::new();
    let mut in_word = false;
    let mut start: usize = 0;
    let mut i: usize = 0;
    assert(s@.take(0) =~= Seq::<char>::empty());
    while i < n
        invariant
            n == s@.len(),
            i <= n,
            start <= i,
            in_word ==> start < i && !is_unicode_whitespace(s@[i - 1]),
            !in_word && i > 0 ==> is_unicode_whitespace(s@[i - 1]),
            in_word ==> ws_words(s@.take(i as int)).len() == words@.len() + 1,
            in_word ==> ws_words(s@.take(i as int)).last() == s@.subrange(start as int, i as int),
            !in_word ==> ws_words(s@.take(i as int)).len() == words@.len(),
            forall|k: int|
                0 <= k < words@.len() ==> #[trigger] words@[k]@ == ws_words(s@.take(i as int))[k],
        decreases n - i,
    {
        let c = s.get_char(i);
        let ghost prev = s@.take(i as int);
        let ghost next = s@.take(i + 1);
        assert(next.drop_last() =~= prev);
        assert(next.last() == c);
        if is_whitespace(c) {
            if in_word {
                let w = s.substring_char(start, i).to_owned();
                words.push(w);
            }
            in_word = false;
        } else {
            if !in_word {
                start = i;
                in_word = true;
                assert(s@.subrange(start as int, i + 1) =~= seq![c]);
            } else {
                assert(s@.subrange(start as int, i + 1) =~= s@.subrange(start as int, i as int).push(
                    c,
                ));
                assert(next.len() >= 2 && next[next.len() - 2] == s@[i - 1]);
            }
        }
        i = i + 1;
    }
    if in_word {
        let w = s.substring_char(start, n).to_owned();
        words.push(w);
    }
    assert(s@.take(n as int) =~= s@);
    words
}

/// Whether two strings hold the same characters.
pub fn str_eq(a: &str, b: &str) -> (r: bool)
    ensures
        r == (a@ == b@),
{
    let a_owned = a.to_owned();
    let b_owned = b.to_owned();
    a_owned == b_owned
}

/// Whether two byte strings are equal.
pub fn bytes_eq(a: &[u8], b: &[u8]) -> (r: bool)
    ensures
        r == (a@ == b@),
{
    if a.len() != b.len() {
        return false;
    }
    let mut i: usize = 0;
    while i < a.len()
        invariant
            a@.len() == b@.len(),
            i <= a@.len(),
            forall|k: int| 0 <= k < i ==> a@[k] == b@[k],
        decreases a@.len() - i,
    {
        if a[i] != b[i] {
            return false;
        }
        i = i + 1;
    }
    assert(a@ =~= b@);
    true
}

/// Bytes that are all ASCII are valid UTF-8.
pub proof fn lemma_ascii_bytes_are_utf8(bytes: Seq<u8>)
    requires
        forall|i: int| 0 <= i < bytes.len() ==> #[trigger] bytes[i] < 128,
    ensures
        vstd::utf8::valid_utf8(bytes),
    decreases bytes.len(),
{
    if bytes.len() > 0 {
        let b = bytes[0];
        assert(b & 0x7f == b) by (bit_vector)
            requires
                b < 128,
        ;
        let rest = bytes.subrange(1, bytes.len() as int);
        assert(vstd::utf8::pop_first_scalar(bytes) == rest);
        assert forall|i: int| 0 <= i < rest.len() implies #[trigger] rest[i] < 128 by {
            assert(rest[i] == bytes[i + 1]);
        }
        lemma_ascii_bytes_are_utf8(rest);
    }
}

/// Makes a string of UTF-8 bytes with `String::from_utf8`. Trusted, as std
/// documents it: it succeeds exactly when the bytes are valid UTF-8, and
/// the string holds the characters that they encode.
#[verifier::external_body]
pub fn string_from_utf8(bytes: Vec<u8>) -> (r: Option<String>)
    ensures
        r is Some <==> vstd::utf8::valid_utf8(bytes@),
        r matches Some(s) ==> s@ == vstd::utf8::decode_utf8(bytes@),
{
    String::from_utf8(bytes).ok()
}

} // verus!
