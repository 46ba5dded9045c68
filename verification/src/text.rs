//! Small verified helpers on text.

use vstd::prelude::*;

verus! {

/// The models of a list of texts.
pub open spec fn texts(v: Seq<String>) -> Seq<Seq<char>> {
    v.map_values(|s: String| s@)
}

/// The model of an optional text.
pub open spec fn opt_text(o: Option<String>) -> Option<Seq<char>> {
    match o {
        Some(s) => Some(s@),
        None => None,
    }
}

/// Whether `s` begins with the character `c`.
pub fn starts_with(s: &str, c: char) -> (r: bool)
    ensures
        r == (s@.len() > 0 && s@[0] == c),
{
    s.unicode_len() > 0 && s.get_char(0) == c
}

/// Whether the character `c` occurs in `s`.
pub fn contains(s: &str, c: char) -> (r: bool)
    ensures
        r == s@.contains(c),
{
    let n: usize = s.unicode_len();
    let mut i: usize = 0;
    while i < n
        invariant
            n == s@.len(),
            i <= n,
            forall|j: int| 0 <= j < i ==> s@[j] != c,
        decreases n - i,
    {
        if s.get_char(i) == c {
            return true;
        }
        i += 1;
    }
    false
}

/// Whether two texts are the same.
pub fn same_text(a: &str, b: &str) -> (r: bool)
    ensures
        r == (a@ == b@),
{
    let x = String::from_str(a);
    let y = String::from_str(b);
    x == y
}

/// The pieces of `s` between the occurrences of `sep` at or after `i`, the
/// first of them starting at `start`.
pub open spec fn split_from(s: Seq<char>, sep: char, start: int, i: int) -> Seq<Seq<char>>
    recommends
        0 <= start <= i <= s.len(),
    decreases s.len() - i,
{
    if i >= s.len() {
        seq![s.subrange(start, s.len() as int)]
    } else if s[i] == sep {
        seq![s.subrange(start, i)] + split_from(s, sep, i + 1, i + 1)
    } else {
        split_from(s, sep, start, i + 1)
    }
}

/// The pieces of `s` between the occurrences of `sep`; an empty text has one
/// empty piece.
pub open spec fn split_spec(s: Seq<char>, sep: char) -> Seq<Seq<char>> {
    split_from(s, sep, 0, 0)
}

/// Splits `s` at every occurrence of `sep`.
pub fn split(s: &str, sep: char) -> (r: Vec<String>)
    ensures
        texts(r@) == split_spec(s@, sep),
{
    let n: usize = s.unicode_len();
    let mut out: Vec<String> = Vec::new();
    let mut start: usize = 0;
    let mut i: usize = 0;
    while i < n
        invariant
            n == s@.len(),
            start <= i <= n,
            split_spec(s@, sep) == texts(out@) + split_from(s@, sep, start as int, i as int),
        decreases n - i,
    {
        if s.get_char(i) == sep {
            let piece = String::from_str(s.substring_char(start, i));
            proof {
                assert(texts(out@.push(piece)) =~= texts(out@) + seq![piece@]);
                assert(texts(out@) + (seq![piece@] + split_from(s@, sep, i + 1, i + 1))
                    =~= (texts(out@) + seq![piece@]) + split_from(s@, sep, i + 1, i + 1));
            }
            out.push(piece);
            start = i + 1;
        }
        i += 1;
    }
    let piece = String::from_str(s.substring_char(start, n));
    proof {
        assert(texts(out@.push(piece)) =~= texts(out@) + seq![piece@]);
    }
    out.push(piece);
    out
}

/// Appends the texts of `extra` to `list`.
pub fn push_all(list: &mut Vec<String>, extra: &Vec<String>)
    ensures
        texts(final(list)@) == texts(old(list)@) + texts(extra@),
{
    let mut i: usize = 0;
    while i < extra.len()
        invariant
            i <= extra.len(),
            texts(list@) == texts(old(list)@) + texts(extra@.take(i as int)),
        decreases extra.len() - i,
    {
        let item = extra[i].clone();
        proof {
            assert(texts(list@.push(item)) =~= texts(list@) + seq![item@]);
            assert(texts(extra@.take(i + 1)) =~= texts(extra@.take(i as int)) + seq![item@]);
            assert((texts(old(list)@) + texts(extra@.take(i as int))) + seq![item@]
                =~= texts(old(list)@) + (texts(extra@.take(i as int)) + seq![item@]));
        }
        list.push(item);
        i += 1;
    }
    proof {
        assert(extra@.take(extra.len() as int) =~= extra@);
    }
}

/// How `str` prints a text with `{:?}`: in quotes, with escapes.
pub uninterp spec fn text_debug(s: Seq<char>) -> Seq<char>;

/// Formats a text with `{:?}` of `str`; the result is named by
/// [`text_debug`].
#[verifier::external_body]
pub(crate) fn debug_text(s: &str) -> (r: String)
    ensures
        r@ == text_debug(s@),
{
    format!("{:?}", s)
}

/// What `str::trim` leaves of a text: the text without the white space at
/// its ends.
pub uninterp spec fn text_trim(s: Seq<char>) -> Seq<char>;

/// Calls `str::trim`; the result is named by [`text_trim`].
#[verifier::external_body]
pub(crate) fn trim(s: &str) -> (r: String)
    ensures
        r@ == text_trim(s@),
{
    s.trim().to_string()
}

/// How `std::string::FromUtf8Error` describes why bytes are no UTF-8.
pub uninterp spec fn utf8_error(bytes: Seq<u8>) -> Seq<char>;

/// Calls `String::from_utf8` on a copy of the bytes: the text that the bytes
/// encode, where they are valid UTF-8, and else the description of the error.
#[verifier::external_body]
pub(crate) fn decode(bytes: &Vec<u8>) -> (r: Result<String, String>)
    ensures
        r is Ok <==> vstd::utf8::valid_utf8(bytes@),
        r matches Ok(s) ==> s@ == vstd::utf8::decode_utf8(bytes@),
        r matches Err(e) ==> e@ == utf8_error(bytes@),
{
    match String::from_utf8(bytes.clone()) {
        Ok(s) => Ok(s),
        Err(e) => Err(format!("{}", e)),
    }
}

/// Appends a text to a list.
pub fn push_text(list: &mut Vec<String>, s: &str)
    ensures
        texts(final(list)@) == texts(old(list)@).push(s@),
{
    let item = String::from_str(s);
    assert(texts(list@.push(item)) =~= texts(list@).push(s@));
    list.push(item);
}

} // verus!
