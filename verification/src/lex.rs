//! Byte-level lexing for the wire protocol: ASCII-whitespace tokenization
//! and decimal number parsing and printing.

use vstd::prelude::*;

verus! {

/// The ASCII whitespace bytes: tab, line feed, form feed, carriage return, space.
pub open spec fn is_ascii_ws(b: u8) -> bool {
    b == 9 || b == 10 || b == 12 || b == 13 || b == 32
}

/// Executable test for ASCII whitespace.
pub fn byte_is_ws(b: u8) -> (r: bool)
    ensures
        r == is_ascii_ws(b),
{
    b == 9 || b == 10 || b == 12 || b == 13 || b == 32
}

/// The ASCII-whitespace-separated tokens of a byte string, in order.
/// Defined by how appending one byte extends the token list: whitespace
/// closes the current token, a non-whitespace byte either extends the
/// open token or starts a new one.
pub open spec fn tokens_of(s: Seq<u8>) -> Seq<Seq<u8>>
    decreases s.len(),
{
    if s.len() == 0 {
        Seq::empty()
    } else {
        let prefix = s.drop_last();
        let t = tokens_of(prefix);
        let c = s.last();
        if is_ascii_ws(c) {
            t
        } else if prefix.len() > 0 && !is_ascii_ws(prefix.last()) {
            t.update(t.len() - 1, t.last().push(c))
        } else {
            t.push(seq![c])
        }
    }
}

/// A byte string ending in a non-whitespace byte has at least one token,
/// and its last token ends in that byte.
pub proof fn lemma_tokens_last_nonws(s: Seq<u8>)
    requires
        s.len() > 0,
        !is_ascii_ws(s.last()),
    ensures
        tokens_of(s).len() > 0,
        tokens_of(s).last().len() > 0,
        tokens_of(s).last().last() == s.last(),
    decreases s.len(),
{
    let prefix = s.drop_last();
    if prefix.len() > 0 && !is_ascii_ws(prefix.last()) {
        lemma_tokens_last_nonws(prefix);
    }
}

/// Split a byte string into its ASCII-whitespace-separated tokens.
pub fn tokenize(s: &[u8]) -> (toks: Vec<Vec<u8>>)
    ensures
        toks@.len() == tokens_of(s@).len(),
        forall|j: int| 0 <= j < toks@.len() ==> #[trigger] toks@[j]@ == tokens_of(s@)[j],
{
    let mut toks: Vec<Vec<u8>> = Vec::new();
    let mut i: usize = 0;
    let mut in_tok = false;
    while i < s.len()
        invariant
            0 <= i <= s@.len(),
            toks@.len() == tokens_of(s@.subrange(0, i as int)).len(),
            forall|j: int|
                0 <= j < toks@.len() ==> #[trigger] toks@[j]@ == tokens_of(
                    s@.subrange(0, i as int),
                )[j],
            in_tok == (i > 0 && !is_ascii_ws(s@[i as int - 1])),
        decreases s@.len() - i,
    {
        let ghost pfx = s@.subrange(0, i as int);
        let ghost pfx1 = s@.subrange(0, i as int + 1);
        proof {
            assert(pfx1.drop_last() =~= pfx);
            assert(pfx1.last() == s@[i as int]);
        }
        let c = s[i];
        if !byte_is_ws(c) {
            if in_tok {
                proof {
                    lemma_tokens_last_nonws(pfx);
                }
                let mut t = toks.pop().unwrap();
                t.push(c);
                toks.push(t);
            } else {
                let mut t: Vec<u8> = Vec::new();
                t.push(c);
                toks.push(t);
            }
            in_tok = true;
        } else {
            in_tok = false;
        }
        i = i + 1;
    }
    proof {
        assert(s@.subrange(0, s@.len() as int) =~= s@);
    }
    toks
}

/// The tokens joined back into one byte string with single spaces between.
pub open spec fn join_tokens(ts: Seq<Seq<u8>>) -> Seq<u8>
    decreases ts.len(),
{
    if ts.len() == 0 {
        Seq::empty()
    } else if ts.len() == 1 {
        ts[0]
    } else {
        join_tokens(ts.drop_last()) + seq![32u8] + ts.last()
    }
}

/// Join the tokens of `toks` from position `from` on with single spaces.
/// The ghost argument carries the token views, so that callers can speak
/// of the result over their own token sequence.
pub fn join_from(toks: &Vec<Vec<u8>>, from: usize, Ghost(ts): Ghost<Seq<Seq<u8>>>) -> (r: Vec<u8>)
    requires
        toks@.len() == ts.len(),
        forall|j: int| 0 <= j < ts.len() ==> #[trigger] toks@[j]@ == ts[j],
        from <= toks@.len(),
    ensures
        r@ == join_tokens(ts.subrange(from as int, ts.len() as int)),
{
    let mut r: Vec<u8> = Vec::new();
    let mut i: usize = from;
    while i < toks.len()
        invariant
            from <= i <= toks@.len(),
            toks@.len() == ts.len(),
            forall|j: int| 0 <= j < ts.len() ==> #[trigger] toks@[j]@ == ts[j],
            r@ == join_tokens(ts.subrange(from as int, i as int)),
        decreases toks@.len() - i,
    {
        let ghost sub = ts.subrange(from as int, i as int);
        let ghost sub1 = ts.subrange(from as int, i as int + 1);
        proof {
            assert(sub1.drop_last() =~= sub);
            assert(sub1.last() == ts[i as int]);
        }
        if i > from {
            r.push(32);
        } else {
            proof {
                assert(sub.len() == 0);
            }
        }
        let ghost base = r@;
        let t = &toks[i];
        let mut k: usize = 0;
        while k < t.len()
            invariant
                0 <= k <= t@.len(),
                r@ == base + t@.subrange(0, k as int),
            decreases t@.len() - k,
        {
            let b = t[k];
            r.push(b);
            proof {
                assert(base + t@.subrange(0, k as int + 1) =~= (base + t@.subrange(
                    0,
                    k as int,
                )).push(t@[k as int]));
            }
            k = k + 1;
        }
        proof {
            assert(t@.subrange(0, t@.len() as int) =~= t@);
            if i > from {
                assert(base =~= join_tokens(sub) + seq![32u8]);
                assert(r@ =~= join_tokens(sub) + seq![32u8] + ts[i as int]);
            } else {
                assert(base =~= Seq::<u8>::empty());
                assert(r@ =~= ts[i as int]);
            }
        }
        i = i + 1;
    }
    proof {
        assert(ts.subrange(from as int, ts.len() as int).len() == ts.len() - from);
    }
    r
}

/// Compare two byte strings for equality.
pub fn bytes_eq(a: &[u8], b: &[u8]) -> (r: bool)
    ensures
        r == (a@ == b@),
{
    if a.len() != b.len() {
        return false;
    }
    let mut i: usize = 0;
    while i < a.len()
        invariant
            0 <= i <= a@.len(),
            a@.len() == b@.len(),
            forall|j: int| 0 <= j < i ==> a@[j] == b@[j],
        decreases a@.len() - i,
    {
        if a[i] != b[i] {
            return false;
        }
        i = i + 1;
    }
    proof {
        assert(a@ =~= b@);
    }
    true
}

/// Copy a slice of plain values into an owned vector.
pub fn copy_vec<T: Copy>(src: &[T]) -> (r: Vec<T>)
    ensures
        r@ == src@,
{
    let mut r: Vec<T> = Vec::new();
    let mut k: usize = 0;
    while k < src.len()
        invariant
            0 <= k <= src@.len(),
            r@ == src@.subrange(0, k as int),
        decreases src@.len() - k,
    {
        let b = src[k];
        r.push(b);
        proof {
            assert(src@.subrange(0, k as int + 1) =~= src@.subrange(0, k as int).push(
                src@[k as int],
            ));
        }
        k = k + 1;
    }
    proof {
        assert(src@.subrange(0, src@.len() as int) =~= src@);
    }
    r
}

/// Copy a byte slice into an owned vector.
pub fn to_vec_u8(src: &[u8]) -> (r: Vec<u8>)
    ensures
        r@ == src@,
{
    let mut r: Vec<u8> = Vec::new();
    append_bytes(&mut r, src);
    proof {
        assert(Seq::<u8>::empty() + src@ =~= src@);
    }
    r
}

/// Append the bytes of `src` to `dst`.
pub fn append_bytes(dst: &mut Vec<u8>, src: &[u8])
    ensures
        final(dst)@ == old(dst)@ + src@,
{
    let ghost base = dst@;
    let mut k: usize = 0;
    while k < src.len()
        invariant
            0 <= k <= src@.len(),
            dst@ == base + src@.subrange(0, k as int),
        decreases src@.len() - k,
    {
        let b = src[k];
        dst.push(b);
        proof {
            assert(base + src@.subrange(0, k as int + 1) =~= (base + src@.subrange(
                0,
                k as int,
            )).push(src@[k as int]));
        }
        k = k + 1;
    }
    proof {
        assert(src@.subrange(0, src@.len() as int) =~= src@);
    }
}

/// The ASCII decimal digit bytes `'0'..='9'`.
pub open spec fn is_ascii_digit(b: u8) -> bool {
    48 <= b <= 57
}

/// Every byte of `t` is a decimal digit.
pub open spec fn all_digits(t: Seq<u8>) -> bool {
    forall|j: int| 0 <= j < t.len() ==> is_ascii_digit(#[trigger] t[j])
}

/// The numeric value of a digit string, most significant digit first.
pub open spec fn dec_val(t: Seq<u8>) -> int
    decreases t.len(),
{
    if t.len() == 0 {
        0
    } else {
        dec_val(t.drop_last()) * 10 + (t.last() - 48)
    }
}

/// The digits of a number token: an optional leading `'+'` is skipped,
/// as Rust's unsigned decimal parsing accepts one.
pub open spec fn digits_body(t: Seq<u8>) -> Seq<u8> {
    if t.len() > 0 && t[0] == 43 {
        t.subrange(1, t.len() as int)
    } else {
        t
    }
}

/// The value a token denotes as unsigned 64-bit decimal, if it is one.
pub open spec fn parse_u64_spec(t: Seq<u8>) -> Option<u64> {
    let d = digits_body(t);
    if d.len() > 0 && all_digits(d) && dec_val(d) <= u64::MAX {
        Some(dec_val(d) as u64)
    } else {
        None
    }
}

/// The value a token denotes as unsigned 32-bit decimal, if it is one.
pub open spec fn parse_u32_spec(t: Seq<u8>) -> Option<u32> {
    let d = digits_body(t);
    if d.len() > 0 && all_digits(d) && dec_val(d) <= u32::MAX {
        Some(dec_val(d) as u32)
    } else {
        None
    }
}

/// The value of a digit string is nonnegative.
pub proof fn lemma_dec_val_nonneg(t: Seq<u8>)
    requires
        all_digits(t),
    ensures
        dec_val(t) >= 0,
    decreases t.len(),
{
    if t.len() > 0 {
        assert(all_digits(t.drop_last())) by {
            assert(forall|j: int|
                0 <= j < t.len() - 1 ==> #[trigger] t.drop_last()[j] == t[j]);
        }
        lemma_dec_val_nonneg(t.drop_last());
    }
}

/// Extending a digit string with further digits never lowers its value.
pub proof fn lemma_dec_val_extend(t: Seq<u8>, j: int)
    requires
        0 <= j <= t.len(),
        forall|k: int| j <= k < t.len() ==> is_ascii_digit(#[trigger] t[k]),
        dec_val(t.subrange(0, j)) >= 0,
    ensures
        dec_val(t) >= dec_val(t.subrange(0, j)),
    decreases t.len() - j,
{
    if j < t.len() {
        let p = t.drop_last();
        assert(p.subrange(0, j) =~= t.subrange(0, j));
        lemma_dec_val_extend(p, j);
        assert(dec_val(t) == dec_val(p) * 10 + (t.last() - 48));
        assert(t.last() - 48 >= 0);
        assert(dec_val(p) * 10 >= dec_val(p)) by {
            assert(dec_val(p) >= 0);
        }
    } else {
        assert(t.subrange(0, j) =~= t);
    }
}

/// Parse a token as unsigned 64-bit decimal.
pub fn parse_u64(t: &[u8]) -> (r: Option<u64>)
    ensures
        r == parse_u64_spec(t@),
{
    let ghost d = digits_body(t@);
    let start: usize = if t.len() > 0 && t[0] == 43 {
        1
    } else {
        0
    };
    proof {
        assert(d =~= t@.subrange(start as int, t@.len() as int));
    }
    if t.len() == start {
        return None;
    }
    let mut acc: u64 = 0;
    let mut i: usize = start;
    while i < t.len()
        invariant
            start <= i <= t@.len(),
            d == digits_body(t@),
            d.len() > 0,
            d =~= t@.subrange(start as int, t@.len() as int),
            all_digits(t@.subrange(start as int, i as int)),
            acc == dec_val(t@.subrange(start as int, i as int)),
        decreases t@.len() - i,
    {
        let ghost dpre = t@.subrange(start as int, i as int);
        let ghost dpre1 = t@.subrange(start as int, i as int + 1);
        proof {
            assert(dpre1.drop_last() =~= dpre);
            assert(dpre1.last() == t@[i as int]);
        }
        let c = t[i];
        if c < 48 || c > 57 {
            proof {
                assert(d[i - start] == t@[i as int]);
                assert(!all_digits(d));
            }
            return None;
        }
        let dig = (c - 48) as u64;
        let next = match acc.checked_mul(10) {
            Some(m) => m.checked_add(dig),
            None => None,
        };
        match next {
            Some(v) => {
                acc = v;
            },
            None => {
                proof {
                    assert(dec_val(dpre1) == acc * 10 + dig > u64::MAX);
                    if all_digits(d) {
                        assert(all_digits(dpre1)) by {
                            assert(forall|j: int|
                                0 <= j < dpre1.len() - 1 ==> #[trigger] dpre1[j] == dpre[j]);
                        }
                        lemma_dec_val_nonneg(dpre1);
                        assert(forall|k: int|
                            i + 1 - start <= k < d.len() ==> is_ascii_digit(#[trigger] d[k]));
                        assert(d.subrange(0, i + 1 - start) =~= dpre1);
                        lemma_dec_val_extend(d, i + 1 - start);
                        assert(dec_val(d) > u64::MAX);
                    }
                }
                return None;
            },
        }
        i = i + 1;
    }
    proof {
        assert(t@.subrange(start as int, i as int) =~= d);
    }
    Some(acc)
}

/// Parse a token as unsigned 32-bit decimal.
pub fn parse_u32(t: &[u8]) -> (r: Option<u32>)
    ensures
        r == parse_u32_spec(t@),
{
    let r64 = parse_u64(t);
    proof {
        let d = digits_body(t@);
        if d.len() > 0 && all_digits(d) {
            lemma_dec_val_nonneg(d);
        }
    }
    match r64 {
        Some(v) => if v <= 0xffff_ffff {
            Some(v as u32)
        } else {
            None
        },
        None => None,
    }
}

/// The decimal digit string of a nonnegative number, without sign or padding.
pub open spec fn dec_of(n: nat) -> Seq<u8>
    decreases n,
{
    if n <= 9 {
        seq![(48 + n) as u8]
    } else {
        dec_of(n / 10).push((48 + n % 10) as u8)
    }
}

/// Print a number as its decimal digit string.
pub fn u64_to_dec(n: u64) -> (r: Vec<u8>)
    ensures
        r@ == dec_of(n as nat),
    decreases n,
{
    if n <= 9 {
        let mut r: Vec<u8> = Vec::new();
        r.push(48 + n as u8);
        proof {
            assert(r@ =~= dec_of(n as nat));
        }
        r
    } else {
        let mut r = u64_to_dec(n / 10);
        r.push(48 + (n % 10) as u8);
        r
    }
}

/// The decimal digit string of `n` consists of digits, is nonempty, and
/// denotes `n` again.
pub proof fn lemma_dec_of_value(n: nat)
    ensures
        dec_of(n).len() > 0,
        all_digits(dec_of(n)),
        dec_val(dec_of(n)) == n,
    decreases n,
{
    if n <= 9 {
        let r = dec_of(n);
        assert(r =~= seq![(48 + n) as u8]);
        assert(r.drop_last() =~= Seq::<u8>::empty());
        assert(dec_val(Seq::<u8>::empty()) == 0);
        assert(dec_val(r) == 0 * 10 + (r.last() - 48));
    } else {
        lemma_dec_of_value(n / 10);
        let r = dec_of(n);
        assert(r.drop_last() =~= dec_of(n / 10));
        assert(r.last() == (48 + n % 10) as u8);
        assert(all_digits(r)) by {
            assert(forall|j: int|
                0 <= j < r.len() - 1 ==> #[trigger] r[j] == dec_of(n / 10)[j]);
        }
        assert(dec_val(r) == (n / 10) * 10 + n % 10);
        assert((n / 10) * 10 + n % 10 == n) by (nonlinear_arith);
    }
}

/// A decimal digit string round-trips through parsing.
pub proof fn lemma_parse_dec_of(n: u64)
    ensures
        parse_u64_spec(dec_of(n as nat)) == Some(n),
{
    lemma_dec_of_value(n as nat);
    let r = dec_of(n as nat);
    assert(is_ascii_digit(r[0]));
    assert(digits_body(r) == r);
}

/// A decimal digit string of a 32-bit value round-trips through parsing.
pub proof fn lemma_parse_dec_of_u32(n: u32)
    ensures
        parse_u32_spec(dec_of(n as nat)) == Some(n),
{
    lemma_dec_of_value(n as nat);
    let r = dec_of(n as nat);
    assert(is_ascii_digit(r[0]));
    assert(digits_body(r) == r);
}

/// The digits of a decimal digit string are not whitespace.
pub proof fn lemma_dec_of_no_ws(n: nat)
    ensures
        dec_of(n).len() > 0,
        forall|j: int| 0 <= j < dec_of(n).len() ==> !is_ascii_ws(#[trigger] dec_of(n)[j]),
{
    lemma_dec_of_value(n);
    assert(forall|j: int|
        0 <= j < dec_of(n).len() ==> is_ascii_digit(#[trigger] dec_of(n)[j]));
}

/// Appending trailing whitespace leaves the tokens unchanged.
pub proof fn lemma_tokens_append_ws(s: Seq<u8>, w: Seq<u8>)
    requires
        forall|j: int| 0 <= j < w.len() ==> is_ascii_ws(#[trigger] w[j]),
    ensures
        tokens_of(s + w) == tokens_of(s),
    decreases w.len(),
{
    if w.len() == 0 {
        assert(s + w =~= s);
    } else {
        assert((s + w).drop_last() =~= s + w.drop_last());
        assert((s + w).last() == w.last());
        assert(forall|j: int|
            0 <= j < w.len() - 1 ==> #[trigger] w.drop_last()[j] == w[j]);
        lemma_tokens_append_ws(s, w.drop_last());
    }
}

/// Prepending one whitespace byte leaves the tokens unchanged.
pub proof fn lemma_tokens_prepend_ws(c: u8, s: Seq<u8>)
    requires
        is_ascii_ws(c),
    ensures
        tokens_of(seq![c] + s) == tokens_of(s),
    decreases s.len(),
{
    let cs = seq![c] + s;
    assert(tokens_of(Seq::<u8>::empty()) =~= Seq::<Seq<u8>>::empty());
    if s.len() == 0 {
        assert(cs =~= seq![c]);
        assert(cs.drop_last() =~= Seq::<u8>::empty());
        assert(tokens_of(cs) =~= Seq::<Seq<u8>>::empty());
    } else {
        lemma_tokens_prepend_ws(c, s.drop_last());
        assert(cs.drop_last() =~= seq![c] + s.drop_last());
        assert(cs.last() == s.last());
        let p = s.drop_last();
        if !is_ascii_ws(s.last()) {
            if p.len() > 0 && !is_ascii_ws(p.last()) {
                assert(cs.drop_last().last() == p.last());
            } else if p.len() > 0 {
                assert(cs.drop_last().last() == p.last());
            } else {
                assert(cs.drop_last() =~= seq![c]);
                assert(cs.drop_last().last() == c);
            }
        }
    }
}

/// Prepending leading whitespace leaves the tokens unchanged.
pub proof fn lemma_tokens_prepend_ws_seq(w: Seq<u8>, s: Seq<u8>)
    requires
        forall|j: int| 0 <= j < w.len() ==> is_ascii_ws(#[trigger] w[j]),
    ensures
        tokens_of(w + s) == tokens_of(s),
    decreases w.len(),
{
    if w.len() == 0 {
        assert(w + s =~= s);
    } else {
        let w1 = w.subrange(1, w.len() as int);
        lemma_tokens_prepend_ws_seq(w1, s);
        lemma_tokens_prepend_ws(w[0], w1 + s);
        assert(w + s =~= seq![w[0]] + (w1 + s));
    }
}

/// Surrounding a byte string with whitespace leaves the tokens unchanged.
pub proof fn lemma_tokens_padded(w1: Seq<u8>, s: Seq<u8>, w2: Seq<u8>)
    requires
        forall|j: int| 0 <= j < w1.len() ==> is_ascii_ws(#[trigger] w1[j]),
        forall|j: int| 0 <= j < w2.len() ==> is_ascii_ws(#[trigger] w2[j]),
    ensures
        tokens_of(w1 + s + w2) == tokens_of(s),
{
    assert(w1 + s + w2 =~= (w1 + s) + w2);
    lemma_tokens_append_ws(w1 + s, w2);
    lemma_tokens_prepend_ws_seq(w1, s);
}

/// A nonempty byte string without whitespace is one single token.
pub proof fn lemma_tokens_single(t: Seq<u8>)
    requires
        t.len() > 0,
        forall|j: int| 0 <= j < t.len() ==> !is_ascii_ws(#[trigger] t[j]),
    ensures
        tokens_of(t) == seq![t],
    decreases t.len(),
{
    if t.len() == 1 {
        assert(tokens_of(Seq::<u8>::empty()) =~= Seq::<Seq<u8>>::empty());
        assert(t.drop_last() =~= Seq::<u8>::empty());
        assert(seq![t.last()] =~= t);
        assert(tokens_of(t) =~= seq![t]);
    } else {
        let p = t.drop_last();
        assert(forall|j: int| 0 <= j < p.len() ==> #[trigger] p[j] == t[j]);
        lemma_tokens_single(p);
        assert(p.push(t.last()) =~= t);
        assert(seq![p].update(0, t) =~= seq![t]);
    }
}

/// Concatenating two byte strings with a single space between them
/// concatenates their token lists.
pub proof fn lemma_tokens_sep(a: Seq<u8>, b: Seq<u8>)
    ensures
        tokens_of(a + seq![32u8] + b) == tokens_of(a) + tokens_of(b),
    decreases b.len(),
{
    let ta = tokens_of(a);
    if b.len() == 0 {
        assert(a + seq![32u8] + b =~= a + seq![32u8]);
        lemma_tokens_append_ws(a, seq![32u8]);
        assert(ta + tokens_of(b) =~= ta);
    } else {
        let s = a + seq![32u8] + b;
        let b1 = b.drop_last();
        let tb1 = tokens_of(b1);
        lemma_tokens_sep(a, b1);
        assert(s.drop_last() =~= a + seq![32u8] + b1);
        assert(s.last() == b.last());
        let c = b.last();
        if is_ascii_ws(c) {
            // both sides drop the trailing whitespace byte
        } else {
            if b1.len() > 0 && !is_ascii_ws(b1.last()) {
                assert(s.drop_last().last() == b1.last());
                lemma_tokens_last_nonws(b1);
                assert((ta + tb1).last() == tb1.last());
                assert((ta + tb1).update(ta.len() + tb1.len() - 1, tb1.last().push(c)) =~= ta
                    + tb1.update(tb1.len() - 1, tb1.last().push(c)));
            } else {
                if b1.len() == 0 {
                    assert(s.drop_last() =~= a + seq![32u8]);
                    assert(s.drop_last().last() == 32u8);
                } else {
                    assert(s.drop_last().last() == b1.last());
                }
                assert((ta + tb1).push(seq![c]) =~= ta + tb1.push(seq![c]));
            }
        }
    }
}

} // verus!
