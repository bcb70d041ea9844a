//! Ordering of text keys and a stable sort by such keys.

use vstd::prelude::*;

verus! {

broadcast use vstd::seq_lib::group_seq_properties;

/// Lexicographic `<=` on character sequences: the order of `String`
/// (UTF-8 byte order coincides with code-point order).
pub open spec fn lex_le(a: Seq<char>, b: Seq<char>) -> bool
    decreases a.len(),
{
    if a.len() == 0 {
        true
    } else if b.len() == 0 {
        false
    } else if a[0] != b[0] {
        (a[0] as u32) < (b[0] as u32)
    } else {
        lex_le(a.drop_first(), b.drop_first())
    }
}

pub proof fn lemma_lex_le_total(a: Seq<char>, b: Seq<char>)
    ensures
        lex_le(a, b) || lex_le(b, a),
    decreases a.len(),
{
    if a.len() > 0 && b.len() > 0 {
        if a[0] == b[0] {
            lemma_lex_le_total(a.drop_first(), b.drop_first());
        } else {
            vstd::utf8::char_u32_cast(a[0], a[0] as u32);
            vstd::utf8::char_u32_cast(b[0], b[0] as u32);
        }
    }
}

pub proof fn lemma_lex_le_antisym(a: Seq<char>, b: Seq<char>)
    requires
        lex_le(a, b),
        lex_le(b, a),
    ensures
        a == b,
    decreases a.len(),
{
    if a.len() > 0 && b.len() > 0 {
        lemma_lex_le_antisym(a.drop_first(), b.drop_first());
        assert(a =~= seq![a[0]] + a.drop_first());
        assert(b =~= seq![b[0]] + b.drop_first());
    }
}

pub proof fn lemma_lex_le_trans(a: Seq<char>, b: Seq<char>, c: Seq<char>)
    requires
        lex_le(a, b),
        lex_le(b, c),
    ensures
        lex_le(a, c),
    decreases a.len(),
{
    if a.len() > 0 && b.len() > 0 && c.len() > 0 && a[0] == b[0] && b[0] == c[0] {
        lemma_lex_le_trans(a.drop_first(), b.drop_first(), c.drop_first());
    }
}

pub proof fn lemma_lex_le_refl(a: Seq<char>)
    ensures
        lex_le(a, a),
    decreases a.len(),
{
    if a.len() > 0 {
        lemma_lex_le_refl(a.drop_first());
    }
}

/// Executable `lex_le`.
pub fn lex_le_chars(a: &Vec<char>, b: &Vec<char>) -> (r: bool)
    ensures
        r == lex_le(a@, b@),
{
    let mut i: usize = 0;
    while i < a.len() && i < b.len() && a[i] == b[i]
        invariant
            i <= a@.len(),
            i <= b@.len(),
            a@.take(i as int) == b@.take(i as int),
            lex_le(a@, b@) == lex_le(a@.skip(i as int), b@.skip(i as int)),
        decreases a@.len() - i,
    {
        proof {
            let sa = a@.skip(i as int);
            let sb = b@.skip(i as int);
            assert(sa.drop_first() =~= a@.skip(i + 1));
            assert(sb.drop_first() =~= b@.skip(i + 1));
            assert(a@.take(i + 1) =~= a@.take(i as int).push(a@[i as int]));
            assert(b@.take(i + 1) =~= b@.take(i as int).push(b@[i as int]));
        }
        i += 1;
    }
    if i == a.len() {
        true
    } else if i == b.len() {
        false
    } else {
        (a[i] as u32) < (b[i] as u32)
    }
}

/// Every element's key is `<=` every later element's key.
pub open spec fn sorted_by_key<T>(s: Seq<T>, key: spec_fn(T) -> Seq<char>) -> bool {
    forall|i: int, j: int| 0 <= i < j < s.len() ==> lex_le(#[trigger] key(s[i]), #[trigger] key(s[j]))
}

/// The elements of `s` whose key is `k`, in their order in `s`.
pub open spec fn with_key<T>(s: Seq<T>, key: spec_fn(T) -> Seq<char>, k: Seq<char>) -> Seq<T> {
    s.filter(|x: T| key(x) == k)
}

/// `out` is the stable sort of `inp` by `key`: ordered by key, and the
/// elements that share a key keep their relative order (which also makes
/// `out` a rearrangement of `inp`).
pub open spec fn stable_sort_of<T>(out: Seq<T>, inp: Seq<T>, key: spec_fn(T) -> Seq<char>) -> bool {
    &&& out.len() == inp.len()
    &&& sorted_by_key(out, key)
    &&& forall|k: Seq<char>| #[trigger] with_key(out, key, k) == with_key(inp, key, k)
}

proof fn lemma_with_key_push<T>(s: Seq<T>, x: T, key: spec_fn(T) -> Seq<char>, k: Seq<char>)
    ensures
        with_key(s.push(x), key, k) == if key(x) == k {
            with_key(s, key, k).push(x)
        } else {
            with_key(s, key, k)
        },
{
    reveal(Seq::filter);
    assert(s.push(x).drop_last() =~= s);
}

proof fn lemma_with_key_none<T>(s: Seq<T>, key: spec_fn(T) -> Seq<char>, k: Seq<char>)
    requires
        forall|i: int| 0 <= i < s.len() ==> key(#[trigger] s[i]) != k,
    ensures
        with_key(s, key, k) == Seq::<T>::empty(),
    decreases s.len(),
{
    reveal(Seq::filter);
    if s.len() > 0 {
        lemma_with_key_none(s.drop_last(), key, k);
    }
}

proof fn lemma_with_key_insert<T>(
    s: Seq<T>,
    p: int,
    x: T,
    key: spec_fn(T) -> Seq<char>,
    k: Seq<char>,
)
    requires
        0 <= p <= s.len(),
        forall|i: int| p <= i < s.len() ==> key(#[trigger] s[i]) != key(x),
    ensures
        with_key(s.insert(p, x), key, k) == if key(x) == k {
            with_key(s, key, k).push(x)
        } else {
            with_key(s, key, k)
        },
{
    let pred = |y: T| key(y) == k;
    let a = s.take(p);
    let b = s.skip(p);
    assert(s =~= a + b);
    assert(s.insert(p, x) =~= a.push(x) + b);
    Seq::filter_distributes_over_add(a.push(x), b, pred);
    Seq::filter_distributes_over_add(a, b, pred);
    lemma_with_key_push(a, x, key, k);
    if key(x) == k {
        assert forall|i: int| 0 <= i < b.len() implies key(#[trigger] b[i]) != k by {
            assert(b[i] == s[p + i]);
        }
        lemma_with_key_none(b, key, k);
        assert(with_key(a, key, k).push(x) + with_key(b, key, k) =~= (with_key(a, key, k)
            + with_key(b, key, k)).push(x));
    }
}

/// Stable sort of `v` by the keys `keys` (`keys[i]` is the key of `v[i]`),
/// as `slice::sort_by_key` does: insertion after every element whose key
/// is `<=`.
pub fn sort_by_keys<T>(v: Vec<T>, keys: Vec<Vec<char>>, Ghost(key): Ghost<spec_fn(T) -> Seq<char>>) -> (r: Vec<T>)
    requires
        keys@.len() == v@.len(),
        forall|i: int| 0 <= i < v@.len() ==> (#[trigger] keys@[i])@ == key(v@[i]),
    ensures
        stable_sort_of(r@, v@, key),
{
    let ghost inp = v@;
    let mut v = v;
    let mut keys = keys;
    let mut out: Vec<T> = Vec::new();
    let mut out_keys: Vec<Vec<char>> = Vec::new();
    let ghost mut done: int = 0;
    while v.len() > 0
        invariant
            0 <= done <= inp.len(),
            v@ == inp.skip(done),
            keys@.len() == v@.len(),
            forall|i: int| 0 <= i < v@.len() ==> (#[trigger] keys@[i])@ == key(v@[i]),
            out_keys@.len() == out@.len(),
            forall|i: int| 0 <= i < out@.len() ==> (#[trigger] out_keys@[i])@ == key(out@[i]),
            out@.len() == done,
            sorted_by_key(out@, key),
            forall|k: Seq<char>| #[trigger] with_key(out@, key, k) == with_key(inp.take(done), key, k),
        decreases v@.len(),
    {
        let ghost keys0 = keys@;
        let x = v.remove(0);
        let kx = keys.remove(0);
        proof {
            assert(x == inp[done]);
            assert(v@ =~= inp.skip(done + 1));
            assert forall|i: int| 0 <= i < v@.len() implies (#[trigger] keys@[i])@ == key(v@[i]) by {
                assert(keys@[i] == keys0[i + 1]);
            }
        }
        let mut p: usize = 0;
        while p < out.len() && lex_le_chars(&out_keys[p], &kx)
            invariant
                p <= out@.len(),
                out_keys@.len() == out@.len(),
                forall|i: int| 0 <= i < out@.len() ==> (#[trigger] out_keys@[i])@ == key(out@[i]),
                forall|i: int| 0 <= i < p ==> lex_le(key(#[trigger] out@[i]), kx@),
            decreases out@.len() - p,
        {
            p += 1;
        }
        proof {
            // Everything from p on has a key strictly greater than kx.
            assert forall|i: int| p <= i < out@.len() implies !lex_le(key(#[trigger] out@[i]), kx@) by {
                if lex_le(key(out@[i]), kx@) {
                    assert(!lex_le(key(out@[p as int]), kx@));
                    lemma_lex_le_trans(key(out@[p as int]), key(out@[i]), kx@);
                }
            }
            assert forall|i: int| p <= i < out@.len() implies key(#[trigger] out@[i]) != kx@ by {
                lemma_lex_le_refl(kx@);
            }
            assert forall|k: Seq<char>| #[trigger] with_key(out@.insert(p as int, x), key, k)
                == with_key(inp.take(done + 1), key, k) by {
                lemma_with_key_insert(out@, p as int, x, key, k);
                assert(inp.take(done + 1) =~= inp.take(done).push(x));
                lemma_with_key_push(inp.take(done), x, key, k);
            }
            let ins = out@.insert(p as int, x);
            assert forall|i: int, j: int| 0 <= i < j < ins.len() implies lex_le(
                #[trigger] key(ins[i]),
                #[trigger] key(ins[j]),
            ) by {
                if j < p {
                    assert(ins[i] == out@[i] && ins[j] == out@[j]);
                } else if j == p {
                    assert(ins[i] == out@[i]);
                } else if i < p {
                    assert(ins[i] == out@[i] && ins[j] == out@[j - 1]);
                    lemma_lex_le_total(kx@, key(out@[j - 1]));
                    lemma_lex_le_trans(key(out@[i]), kx@, key(out@[j - 1]));
                } else if i == p {
                    assert(ins[j] == out@[j - 1]);
                    lemma_lex_le_total(kx@, key(out@[j - 1]));
                } else {
                    assert(ins[i] == out@[i - 1] && ins[j] == out@[j - 1]);
                }
            }
        }
        let ghost ok0 = out_keys@;
        out.insert(p, x);
        out_keys.insert(p, kx);
        proof {
            done = done + 1;
            assert forall|i: int| 0 <= i < out@.len() implies (#[trigger] out_keys@[i])@ == key(
                out@[i],
            ) by {
                if i < p {
                } else if i == p {
                } else {
                    assert(out_keys@[i] == ok0[i - 1]);
                }
            }
        }
    }
    proof {
        assert(inp.take(done) =~= inp);
    }
    out
}

} // verus!
