use vstd::prelude::*;

verus! {

use vstd::string::StringSliceAdditionalSpecFns;
use vstd::utf8::encode_utf8;
use vstd::utf8::encode_utf8_decode_utf8;

/// The UTF-8 encoding of a character sequence.  String keys are ordered by
/// their encoded bytes, which coincides with the lexicographic order Rust
/// itself uses for `str`.
pub open spec fn bytes_of(s: Seq<char>) -> Seq<u8> {
    encode_utf8(s)
}

/// Lexicographic `<=` on byte sequences: the empty sequence comes first, and
/// otherwise the first differing byte decides.
pub open spec fn lex_leq(a: Seq<u8>, b: Seq<u8>) -> bool
    decreases a.len(),
{
    if a.len() == 0 {
        true
    } else if b.len() == 0 {
        false
    } else if a[0] < b[0] {
        true
    } else if a[0] > b[0] {
        false
    } else {
        lex_leq(a.drop_first(), b.drop_first())
    }
}

/// `lex_leq` is total: any two byte sequences are comparable.
pub proof fn lemma_lex_leq_total(a: Seq<u8>, b: Seq<u8>)
    ensures
        lex_leq(a, b) || lex_leq(b, a),
    decreases a.len(),
{
    if a.len() == 0 || b.len() == 0 {
    } else if a[0] == b[0] {
        lemma_lex_leq_total(a.drop_first(), b.drop_first());
    }
}

/// `lex_leq` is transitive.
pub proof fn lemma_lex_leq_trans(a: Seq<u8>, b: Seq<u8>, c: Seq<u8>)
    requires
        lex_leq(a, b),
        lex_leq(b, c),
    ensures
        lex_leq(a, c),
    decreases a.len(),
{
    if a.len() == 0 {
    } else {
        if a[0] == b[0] && b[0] == c[0] {
            lemma_lex_leq_trans(a.drop_first(), b.drop_first(), c.drop_first());
        }
    }
}

/// `lex_leq` in both directions forces equality.
pub proof fn lemma_lex_leq_antisym(a: Seq<u8>, b: Seq<u8>)
    requires
        lex_leq(a, b),
        lex_leq(b, a),
    ensures
        a == b,
    decreases a.len(),
{
    if a.len() == 0 {
        assert(b.len() == 0);
        assert(a =~= b);
    } else {
        assert(b.len() > 0);
        assert(a[0] == b[0]);
        lemma_lex_leq_antisym(a.drop_first(), b.drop_first());
        assert forall|i: int| 0 <= i < a.len() implies a[i] == b[i] by {
            if i > 0 {
                assert(a[i] == a.drop_first()[i - 1]);
                assert(b[i] == b.drop_first()[i - 1]);
            }
        }
        assert(a =~= b);
    }
}

/// Equal encodings come from equal character sequences: UTF-8 encoding is
/// injective, shown by decoding the encoded bytes back.
pub proof fn lemma_bytes_of_injective(x: Seq<char>, y: Seq<char>)
    ensures
        bytes_of(x) == bytes_of(y) ==> x == y,
{
    if bytes_of(x) == bytes_of(y) {
        encode_utf8_decode_utf8(x);
        encode_utf8_decode_utf8(y);
    }
}

/// Element-wise equality of two byte slices.
pub fn bytes_eq(a: &[u8], b: &[u8]) -> (r: bool)
    ensures
        r == (a@ == b@),
{
    if a.len() != b.len() {
        return false;
    }
    let mut i: usize = 0;
    while i < a.len()
        invariant
            i <= a@.len(),
            a@.len() == b@.len(),
            forall|j: int| 0 <= j < i ==> a@[j] == b@[j],
        decreases a@.len() - i,
    {
        if a[i] != b[i] {
            return false;
        }
        i = i + 1;
    }
    proof {
        assert(a@ =~= b@);
    }
    true
}

/// Lexicographic comparison of two byte slices.
pub fn bytes_leq(a: &[u8], b: &[u8]) -> (r: bool)
    ensures
        r == lex_leq(a@, b@),
{
    let mut i: usize = 0;
    proof {
        assert(a@.skip(0) =~= a@);
        assert(b@.skip(0) =~= b@);
    }
    loop
        invariant
            i <= a@.len(),
            i <= b@.len(),
            lex_leq(a@, b@) == lex_leq(a@.skip(i as int), b@.skip(i as int)),
        decreases a@.len() - i,
    {
        if i >= a.len() {
            proof {
                assert(a@.skip(i as int) =~= Seq::<u8>::empty());
            }
            return true;
        }
        if i >= b.len() {
            proof {
                assert(b@.skip(i as int) =~= Seq::<u8>::empty());
                assert(a@.skip(i as int).len() > 0);
            }
            return false;
        }
        let x = a[i];
        let y = b[i];
        proof {
            assert(a@.skip(i as int)[0] == a@[i as int]);
            assert(b@.skip(i as int)[0] == b@[i as int]);
            assert(a@.skip(i as int).drop_first() =~= a@.skip(i as int + 1));
            assert(b@.skip(i as int).drop_first() =~= b@.skip(i as int + 1));
        }
        if x < y {
            return true;
        }
        if x > y {
            return false;
        }
        i = i + 1;
    }
}

/// Character-level equality of two strings, decided on their bytes.
pub fn str_eq(a: &String, b: &String) -> (r: bool)
    ensures
        r == (a@ == b@),
{
    let r = bytes_eq(a.as_str().as_bytes(), b.as_str().as_bytes());
    proof {
        lemma_bytes_of_injective(a@, b@);
    }
    r
}

/// Byte-lexicographic comparison of two strings.
pub fn str_leq(a: &String, b: &String) -> (r: bool)
    ensures
        r == lex_leq(bytes_of(a@), bytes_of(b@)),
{
    bytes_leq(a.as_str().as_bytes(), b.as_str().as_bytes())
}

/// `needle` occurs contiguously somewhere in `hay`.
pub open spec fn contains_seq(hay: Seq<u8>, needle: Seq<u8>) -> bool {
    exists|i: int|
        0 <= i <= hay.len() - needle.len() && #[trigger] hay.subrange(i, i + needle.len())
            == needle
}

/// Naive substring search on byte slices.
pub fn bytes_contains(hay: &[u8], needle: &[u8]) -> (r: bool)
    ensures
        r == contains_seq(hay@, needle@),
{
    if needle.len() > hay.len() {
        return false;
    }
    let last = hay.len() - needle.len();
    let mut i: usize = 0;
    while i <= last
        invariant
            i <= last + 1,
            last == hay@.len() - needle@.len(),
            needle@.len() <= hay@.len(),
            hay@.len() <= usize::MAX,
            forall|k: int|
                0 <= k < i ==> #[trigger] hay@.subrange(k, k + needle@.len()) != needle@,
        decreases last + 1 - i,
    {
        let mut j: usize = 0;
        while j < needle.len() && hay[i + j] == needle[j]
            invariant
                j <= needle@.len(),
                i <= last,
                last == hay@.len() - needle@.len(),
                hay@.len() <= usize::MAX,
                forall|m: int| 0 <= m < j ==> hay@[i + m] == needle@[m],
            decreases needle@.len() - j,
        {
            j = j + 1;
        }
        if j == needle.len() {
            proof {
                assert(hay@.subrange(i as int, i + needle@.len()) =~= needle@);
            }
            return true;
        }
        proof {
            assert(hay@.subrange(i as int, i + needle@.len())[j as int] == hay@[i + j]);
            assert(hay@.subrange(i as int, i + needle@.len()) != needle@);
        }
        i = i + 1;
    }
    false
}

/// Substring test on the bytes of two strings.
pub fn str_contains(hay: &String, needle: &str) -> (r: bool)
    ensures
        r == contains_seq(bytes_of(hay@), needle.spec_bytes()),
{
    bytes_contains(hay.as_str().as_bytes(), needle.as_bytes())
}

/// The position of the first occurrence of `b` in `hay`, if any.
pub fn first_byte_index(hay: &[u8], b: u8) -> (r: Option<usize>)
    ensures
        (match r {
            Some(i) => 0 <= i < hay@.len() && hay@[i as int] == b && forall|j: int|
                0 <= j < i ==> hay@[j] != b,
            None => forall|j: int| 0 <= j < hay@.len() ==> hay@[j] != b,
        }),
{
    let mut i: usize = 0;
    while i < hay.len()
        invariant
            i <= hay@.len(),
            forall|j: int| 0 <= j < i ==> hay@[j] != b,
        decreases hay@.len() - i,
    {
        if hay[i] == b {
            return Some(i);
        }
        i = i + 1;
    }
    None
}

/// Relies on `String::push`: appends exactly the one character.
pub assume_specification[ String::push ](s: &mut String, c: char)
    ensures
        final(s)@ == old(s)@ + seq![c],
;

/// The whitespace characters the palette trims from typed input.
pub open spec fn is_blank(c: char) -> bool {
    c == ' ' || c == '\t' || c == '\n' || c == '\r'
}

/// `s` without its leading blanks.
pub open spec fn trim_front(s: Seq<char>) -> Seq<char>
    decreases s.len(),
{
    if s.len() > 0 && is_blank(s[0]) {
        trim_front(s.drop_first())
    } else {
        s
    }
}

/// `s` without its trailing blanks.
pub open spec fn trim_back(s: Seq<char>) -> Seq<char>
    decreases s.len(),
{
    if s.len() > 0 && is_blank(s.last()) {
        trim_back(s.drop_last())
    } else {
        s
    }
}

/// `s` without leading and trailing blanks.
pub open spec fn trimmed(s: Seq<char>) -> Seq<char> {
    trim_back(trim_front(s))
}

/// Build the trimmed text of a character buffer as a `String`.
pub fn to_trimmed_string(chars: &Vec<char>) -> (s: String)
    ensures
        s@ == trimmed(chars@),
{
    let orig = chars;
    let len = orig.len();
    let mut start: usize = 0;
    proof {
        assert(orig@.skip(0) =~= orig@);
    }
    while start < orig.len() && (orig[start] == ' ' || orig[start] == '\t' || orig[start] == '\n'
        || orig[start] == '\r')
        invariant
            start <= orig@.len(),
            trim_front(orig@) == trim_front(orig@.skip(start as int)),
        decreases orig@.len() - start,
    {
        proof {
            assert(orig@.skip(start as int)[0] == orig@[start as int]);
            assert(orig@.skip(start as int).drop_first() =~= orig@.skip(start as int + 1));
        }
        start = start + 1;
    }
    proof {
        assert(trim_front(orig@) == orig@.skip(start as int));
    }
    let ghost u = orig@.skip(start as int);
    let mut end: usize = len;
    proof {
        assert(u.take(end - start as int) =~= u);
    }
    while end > start && (orig[end - 1] == ' ' || orig[end - 1] == '\t' || orig[end - 1] == '\n'
        || orig[end - 1] == '\r')
        invariant
            start <= end <= orig@.len(),
            u == orig@.skip(start as int),
            trim_back(u) == trim_back(u.take(end - start as int)),
        decreases end,
    {
        proof {
            let t = u.take(end - start as int);
            assert(t.last() == orig@[end - 1]);
            assert(t.drop_last() =~= u.take(end - 1 - start as int));
        }
        end = end - 1;
    }
    proof {
        let t = u.take(end - start as int);
        if end > start {
            assert(t.last() == orig@[end - 1]);
        }
        assert(trim_back(t) == t);
        assert(t =~= orig@.subrange(start as int, end as int));
    }
    let mut s = String::new();
    let mut i: usize = start;
    proof {
        assert(orig@.subrange(start as int, start as int) =~= Seq::<char>::empty());
    }
    while i < end
        invariant
            start <= i <= end <= orig@.len(),
            s@ == orig@.subrange(start as int, i as int),
        decreases end - i,
    {
        let c = orig[i];
        s.push(c);
        proof {
            assert(orig@.subrange(start as int, i as int + 1) =~= orig@.subrange(
                start as int,
                i as int,
            ) + seq![c]);
        }
        i = i + 1;
    }
    s
}

} // verus!
