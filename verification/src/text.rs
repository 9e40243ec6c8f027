use vstd::prelude::*;
use vstd::string::StrSliceExecFns;

verus! {

/// `needle` occurs in `hay` starting at position `i`.
pub open spec fn matches_at(hay: Seq<char>, needle: Seq<char>, i: int) -> bool {
    &&& 0 <= i
    &&& i + needle.len() <= hay.len()
    &&& forall|j: int| 0 <= j < needle.len() ==> hay[i + j] == needle[j]
}

/// `needle` occurs somewhere in `hay`.
pub open spec fn contains_seq(hay: Seq<char>, needle: Seq<char>) -> bool {
    exists|i: int| matches_at(hay, needle, i)
}

/// What `str::to_lowercase` returns for a given sequence of characters; the
/// folding depends on the characters alone.
pub uninterp spec fn lower_of(s: Seq<char>) -> Seq<char>;

/// Relies on `str::to_lowercase`: the result is a function of the characters
/// of `s` alone (no locale is consulted).
#[verifier::external_body]
pub(crate) fn lowercase(s: &str) -> (r: String)
    ensures
        r@ == lower_of(s@),
{
    s.to_lowercase()
}

/// A hexadecimal digit, in either case.
pub open spec fn is_hex_digit(c: char) -> bool {
    ||| '0' <= c && c <= '9'
    ||| 'a' <= c && c <= 'f'
    ||| 'A' <= c && c <= 'F'
}

/// The digit part of a hash string: what follows an optional `0x` or `0X`
/// prefix.
pub open spec fn hash_digits(s: Seq<char>) -> Seq<char> {
    if s.len() >= 2 && s[0] == '0' && (s[1] == 'x' || s[1] == 'X') {
        s.skip(2)
    } else {
        s
    }
}

/// The strings that parse as a 32-byte transaction hash: exactly 64
/// hexadecimal digits after an optional `0x`/`0X` prefix.
pub open spec fn is_tx_hash(s: Seq<char>) -> bool {
    &&& hash_digits(s).len() == 64
    &&& forall|i: int| 0 <= i < 64 ==> is_hex_digit(#[trigger] hash_digits(s)[i])
}

/// The numeric value of a hexadecimal digit.
pub open spec fn hex_val(c: char) -> u8 {
    if '0' <= c && c <= '9' {
        ((c as u32) - 48) as u8
    } else if 'a' <= c && c <= 'f' {
        ((c as u32) - 87) as u8
    } else {
        ((c as u32) - 55) as u8
    }
}

/// The bytes a hash string denotes: byte `i` is the value of digits `2i` and
/// `2i + 1`, the first of the pair the high half.
pub open spec fn tx_hash_bytes(s: Seq<char>) -> Seq<u8> {
    Seq::new(
        (hash_digits(s).len() / 2) as nat,
        |i: int|
            (hex_val(hash_digits(s)[2 * i]) * 16 + hex_val(hash_digits(s)[2 * i + 1])) as u8,
    )
}

/// Whether `needle` occurs in `hay`, by a direct scan.
pub fn contains_str(hay: &str, needle: &str) -> (r: bool)
    ensures
        r == contains_seq(hay@, needle@),
{
    let hay_len = hay.unicode_len();
    let needle_len = needle.unicode_len();
    if needle_len > hay_len {
        assert(forall|i: int| !matches_at(hay@, needle@, i));
        return false;
    }
    let mut i: usize = 0;
    while i <= hay_len - needle_len
        invariant
            needle_len <= hay_len,
            hay_len == hay@.len(),
            needle_len == needle@.len(),
            i <= hay_len - needle_len + 1,
            forall|k: int| 0 <= k < i ==> !matches_at(hay@, needle@, k),
        decreases hay_len - needle_len - i + 1,
    {
        let mut j: usize = 0;
        let mut mismatch = false;
        while j < needle_len
            invariant
                needle_len <= hay_len,
                hay_len == hay@.len(),
                needle_len == needle@.len(),
                i + needle_len <= hay_len,
                j <= needle_len,
                !mismatch ==> forall|t: int| 0 <= t < j ==> hay@[i + t] == needle@[t],
                mismatch ==> !matches_at(hay@, needle@, i as int),
            decreases needle_len - j,
        {
            if hay.get_char(i + j) != needle.get_char(j) {
                assert(hay@[i + j] != needle@[j as int]);
                mismatch = true;
                j = needle_len;
            } else {
                j = j + 1;
            }
        }
        if !mismatch {
            assert(matches_at(hay@, needle@, i as int));
            return true;
        }
        i = i + 1;
    }
    assert forall|k: int| !matches_at(hay@, needle@, k) by {
        if 0 <= k && k + needle@.len() <= hay@.len() {
            assert(k < i);
        }
    }
    false
}

} // verus!
