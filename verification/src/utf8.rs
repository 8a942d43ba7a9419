//! UTF-8 well-formedness of byte strings: the wire is UTF-8, and a
//! line that is not is rejected before it is decoded.

use vstd::prelude::*;

verus! {

/// A UTF-8 continuation byte.
pub open spec fn is_utf8_cont(b: u8) -> bool {
    0x80 <= b <= 0xbf
}

/// The length of the well-formed UTF-8 sequence at the head of `s`,
/// or 0 if there is none. Overlong forms, surrogates, and values
/// beyond U+10FFFF are malformed, as in RFC 3629.
pub open spec fn utf8_head_len(s: Seq<u8>) -> int {
    if s.len() >= 1 && s[0] < 0x80 {
        1
    } else if s.len() >= 2 && 0xc2 <= s[0] <= 0xdf && is_utf8_cont(s[1]) {
        2
    } else if s.len() >= 3 && s[0] == 0xe0 && 0xa0 <= s[1] <= 0xbf && is_utf8_cont(s[2]) {
        3
    } else if s.len() >= 3 && 0xe1 <= s[0] <= 0xec && is_utf8_cont(s[1]) && is_utf8_cont(s[2]) {
        3
    } else if s.len() >= 3 && s[0] == 0xed && 0x80 <= s[1] <= 0x9f && is_utf8_cont(s[2]) {
        3
    } else if s.len() >= 3 && 0xee <= s[0] <= 0xef && is_utf8_cont(s[1]) && is_utf8_cont(s[2]) {
        3
    } else if s.len() >= 4 && s[0] == 0xf0 && 0x90 <= s[1] <= 0xbf && is_utf8_cont(s[2])
        && is_utf8_cont(s[3]) {
        4
    } else if s.len() >= 4 && 0xf1 <= s[0] <= 0xf3 && is_utf8_cont(s[1]) && is_utf8_cont(s[2])
        && is_utf8_cont(s[3]) {
        4
    } else if s.len() >= 4 && s[0] == 0xf4 && 0x80 <= s[1] <= 0x8f && is_utf8_cont(s[2])
        && is_utf8_cont(s[3]) {
        4
    } else {
        0
    }
}

/// The byte string is well-formed UTF-8: it parses into a run of
/// well-formed sequences.
pub open spec fn is_utf8(s: Seq<u8>) -> bool
    decreases s.len(),
{
    if s.len() == 0 {
        true
    } else {
        let k = utf8_head_len(s);
        if k <= 0 {
            false
        } else {
            is_utf8(s.skip(k))
        }
    }
}

/// The head sequence fits in the string, and all its bytes after the
/// first are continuation-range bytes.
pub proof fn lemma_head_len_bytes(s: Seq<u8>)
    ensures
        0 <= utf8_head_len(s) <= 4,
        utf8_head_len(s) <= s.len(),
        forall|j: int| 1 <= j < utf8_head_len(s) ==> s[j] >= 0x80,
{
}

/// The head sequence of a byte string does not change when more bytes
/// follow it.
pub proof fn lemma_head_len_concat(a: Seq<u8>, b: Seq<u8>)
    requires
        utf8_head_len(a) > 0,
    ensures
        utf8_head_len(a + b) == utf8_head_len(a),
{
    assert(forall|j: int| 0 <= j < a.len() ==> (a + b)[j] == a[j]);
}

/// Two well-formed byte strings concatenate to a well-formed one.
pub proof fn lemma_utf8_concat(a: Seq<u8>, b: Seq<u8>)
    requires
        is_utf8(a),
        is_utf8(b),
    ensures
        is_utf8(a + b),
    decreases a.len(),
{
    if a.len() == 0 {
        assert(a + b =~= b);
    } else {
        let k = utf8_head_len(a);
        lemma_head_len_bytes(a);
        lemma_head_len_concat(a, b);
        assert((a + b).skip(k) =~= a.skip(k) + b);
        lemma_utf8_concat(a.skip(k), b);
    }
}

/// A byte string of ASCII bytes is well-formed UTF-8.
pub proof fn lemma_utf8_ascii(w: Seq<u8>)
    requires
        forall|j: int| 0 <= j < w.len() ==> w[j] < 0x80,
    ensures
        is_utf8(w),
    decreases w.len(),
{
    if w.len() > 0 {
        assert(utf8_head_len(w) == 1);
        assert(forall|j: int| 0 <= j < w.len() - 1 ==> #[trigger] w.skip(1)[j] == w[j + 1]);
        lemma_utf8_ascii(w.skip(1));
    }
}

/// Dropping a well-formed ASCII prefix keeps well-formedness.
pub proof fn lemma_utf8_drop_ascii_prefix(a: Seq<u8>, b: Seq<u8>)
    requires
        forall|j: int| 0 <= j < a.len() ==> a[j] < 0x80,
        is_utf8(a + b),
    ensures
        is_utf8(b),
    decreases a.len(),
{
    if a.len() == 0 {
        assert(a + b =~= b);
    } else {
        assert((a + b)[0] == a[0]);
        assert(utf8_head_len(a + b) == 1);
        assert((a + b).skip(1) =~= a.skip(1) + b);
        assert(forall|j: int| 0 <= j < a.len() - 1 ==> #[trigger] a.skip(1)[j] == a[j + 1]);
        lemma_utf8_drop_ascii_prefix(a.skip(1), b);
    }
}

/// Dropping a trailing run of ASCII bytes keeps well-formedness: no
/// multi-byte sequence of the front part can reach into ASCII bytes.
pub proof fn lemma_utf8_drop_ascii_suffix(a: Seq<u8>, w: Seq<u8>)
    requires
        forall|j: int| 0 <= j < w.len() ==> w[j] < 0x80,
        is_utf8(a + w),
    ensures
        is_utf8(a),
    decreases a.len(),
{
    if a.len() > 0 {
        let k = utf8_head_len(a + w);
        lemma_head_len_bytes(a + w);
        assert(k > 0);
        if k > a.len() {
            assert((a + w)[a.len() as int] == w[0]);
            assert((a + w)[a.len() as int] >= 0x80);
            assert(false);
        }
        assert(forall|j: int| 0 <= j < a.len() ==> (a + w)[j] == a[j]);
        assert(utf8_head_len(a) == k);
        assert((a + w).skip(k) =~= a.skip(k) + w);
        lemma_utf8_drop_ascii_suffix(a.skip(k), w);
    }
}

/// Surrounding a byte string with ASCII bytes leaves its
/// well-formedness unchanged.
pub proof fn lemma_utf8_ascii_padding(w1: Seq<u8>, s: Seq<u8>, w2: Seq<u8>)
    requires
        forall|j: int| 0 <= j < w1.len() ==> w1[j] < 0x80,
        forall|j: int| 0 <= j < w2.len() ==> w2[j] < 0x80,
    ensures
        is_utf8(w1 + s + w2) == is_utf8(s),
{
    assert(w1 + s + w2 =~= w1 + (s + w2));
    if is_utf8(s) {
        lemma_utf8_ascii(w1);
        lemma_utf8_ascii(w2);
        lemma_utf8_concat(s, w2);
        lemma_utf8_concat(w1, s + w2);
    }
    if is_utf8(w1 + s + w2) {
        lemma_utf8_drop_ascii_prefix(w1, s + w2);
        lemma_utf8_drop_ascii_suffix(s, w2);
    }
}

/// Check a byte string for UTF-8 well-formedness.
pub fn is_valid_utf8(s: &[u8]) -> (r: bool)
    ensures
        r == is_utf8(s@),
{
    let n = s.len();
    let mut i: usize = 0;
    proof {
        assert(s@.skip(0) =~= s@);
    }
    while i < n
        invariant
            0 <= i <= n,
            n == s@.len(),
            is_utf8(s@) == is_utf8(s@.skip(i as int)),
        decreases n - i,
    {
        let ghost rest = s@.skip(i as int);
        proof {
            assert(forall|j: int| 0 <= j < rest.len() ==> rest[j] == s@[i + j]);
        }
        let b0 = s[i];
        let k: usize = if b0 < 0x80 {
            1
        } else if 0xc2 <= b0 && b0 <= 0xdf && n - i >= 2 && cont(s[i + 1]) {
            2
        } else if b0 == 0xe0 && n - i >= 3 && 0xa0 <= s[i + 1] && s[i + 1] <= 0xbf && cont(
            s[i + 2],
        ) {
            3
        } else if 0xe1 <= b0 && b0 <= 0xec && n - i >= 3 && cont(s[i + 1]) && cont(s[i + 2]) {
            3
        } else if b0 == 0xed && n - i >= 3 && 0x80 <= s[i + 1] && s[i + 1] <= 0x9f && cont(
            s[i + 2],
        ) {
            3
        } else if 0xee <= b0 && b0 <= 0xef && n - i >= 3 && cont(s[i + 1]) && cont(s[i + 2]) {
            3
        } else if b0 == 0xf0 && n - i >= 4 && 0x90 <= s[i + 1] && s[i + 1] <= 0xbf && cont(
            s[i + 2],
        ) && cont(s[i + 3]) {
            4
        } else if 0xf1 <= b0 && b0 <= 0xf3 && n - i >= 4 && cont(s[i + 1]) && cont(s[i + 2])
            && cont(s[i + 3]) {
            4
        } else if b0 == 0xf4 && n - i >= 4 && 0x80 <= s[i + 1] && s[i + 1] <= 0x8f && cont(
            s[i + 2],
        ) && cont(s[i + 3]) {
            4
        } else {
            0
        };
        proof {
            assert(rest.len() == n - i);
            assert(k as int == utf8_head_len(rest));
            lemma_head_len_bytes(rest);
        }
        if k == 0 {
            return false;
        }
        proof {
            assert(s@.skip(i as int).skip(k as int) =~= s@.skip(i as int + k as int));
        }
        i = i + k;
    }
    proof {
        assert(s@.skip(n as int) =~= Seq::<u8>::empty());
    }
    true
}

/// Executable test for a continuation byte.
fn cont(b: u8) -> (r: bool)
    ensures
        r == is_utf8_cont(b),
{
    0x80 <= b && b <= 0xbf
}

} // verus!
