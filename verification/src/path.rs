//! Root path normalization.
//!
//! A backend's root is a slash-separated absolute prefix. Normalization
//! collapses runs of separators and guarantees that the result begins and
//! ends with one separator; the empty root normalizes to `/`, the root
//! scope. Normalization is idempotent: see
//! [`lemma_normalize_root_idempotent`].

use vstd::prelude::*;

verus! {

/// One scan step: a separator is appended only when the output does not
/// already end with one; any other character is always appended.
pub open spec fn norm_step(acc: Seq<char>, c: char) -> Seq<char> {
    if c == '/' {
        if acc.len() > 0 && acc.last() == '/' {
            acc
        } else {
            acc.push('/')
        }
    } else {
        acc.push(c)
    }
}

/// The scan of `s` from left to right, starting from `acc`.
pub open spec fn norm_scan(acc: Seq<char>, s: Seq<char>) -> Seq<char>
    decreases s.len(),
{
    if s.len() == 0 {
        acc
    } else {
        norm_scan(norm_step(acc, s[0]), s.drop_first())
    }
}

/// The normalized form of a root: scan from `/`, then close with a trailing
/// separator when the scan did not already end with one.
pub open spec fn normalize_root_spec(s: Seq<char>) -> Seq<char> {
    let t = norm_scan(seq!['/'], s);
    if t.last() == '/' {
        t
    } else {
        t.push('/')
    }
}

/// No two adjacent separators anywhere in `s`.
pub open spec fn no_adjacent_separators(s: Seq<char>) -> bool {
    forall|i: int| 0 <= i < s.len() - 1 && #[trigger] s[i] == '/' ==> s[i + 1] != '/'
}

/// The shape every normalized root has: nonempty, bracketed by separators,
/// and free of separator runs.
pub open spec fn is_normalized_root(s: Seq<char>) -> bool {
    &&& s.len() >= 1
    &&& s[0] == '/'
    &&& s.last() == '/'
    &&& no_adjacent_separators(s)
}

proof fn lemma_no_adj_push(s: Seq<char>, c: char)
    requires
        no_adjacent_separators(s),
        c == '/' ==> s.len() == 0 || s.last() != '/',
    ensures
        no_adjacent_separators(s.push(c)),
{
    let t = s.push(c);
    assert forall|i: int| 0 <= i < t.len() - 1 && #[trigger] t[i] == '/' implies t[i + 1]
        != '/' by {
        if i < s.len() - 1 {
            assert(s[i] == '/');
        }
    }
}

proof fn lemma_norm_scan_shape(acc: Seq<char>, s: Seq<char>)
    requires
        acc.len() > 0,
        acc[0] == '/',
        no_adjacent_separators(acc),
    ensures
        norm_scan(acc, s).len() > 0,
        norm_scan(acc, s)[0] == '/',
        no_adjacent_separators(norm_scan(acc, s)),
    decreases s.len(),
{
    if s.len() == 0 {
    } else {
        let c = s[0];
        let acc2 = norm_step(acc, c);
        if c == '/' && acc.last() == '/' {
        } else {
            lemma_no_adj_push(acc, c);
        }
        lemma_norm_scan_shape(acc2, s.drop_first());
    }
}

/// Scanning a string that has no separator runs, from an output whose last
/// character does not start one, just appends the string.
proof fn lemma_norm_scan_appends(acc: Seq<char>, s: Seq<char>)
    requires
        acc.len() > 0,
        no_adjacent_separators(acc),
        no_adjacent_separators(s),
        s.len() > 0 && s[0] == '/' ==> acc.last() != '/',
    ensures
        norm_scan(acc, s) == acc + s,
    decreases s.len(),
{
    if s.len() == 0 {
        assert(acc + s =~= acc);
    } else {
        let c = s[0];
        assert(c == '/' ==> acc.last() != '/');
        let acc2 = acc.push(c);
        assert(norm_step(acc, c) == acc2);
        lemma_no_adj_push(acc, c);
        let s2 = s.drop_first();
        assert(no_adjacent_separators(s2)) by {
            assert forall|i: int| 0 <= i < s2.len() - 1 && #[trigger] s2[i] == '/' implies s2[i
                + 1] != '/' by {
                assert(s[i + 1] == '/');
            }
        }
        if s2.len() > 0 && s2[0] == '/' {
            assert(s[0] == '/' ==> s[1] != '/');
            assert(acc2.last() != '/');
        }
        lemma_norm_scan_appends(acc2, s2);
        assert(acc2 + s2 =~= acc + s);
    }
}

/// An already-normalized root is a fixed point of normalization.
proof fn lemma_normalized_fixed(s: Seq<char>)
    requires
        is_normalized_root(s),
    ensures
        normalize_root_spec(s) == s,
{
    let start = seq!['/'];
    assert(norm_step(start, s[0]) == start);
    let s2 = s.drop_first();
    assert(norm_scan(start, s) == norm_scan(start, s2));
    assert(no_adjacent_separators(s2)) by {
        assert forall|i: int| 0 <= i < s2.len() - 1 && #[trigger] s2[i] == '/' implies s2[i + 1]
            != '/' by {
            assert(s[i + 1] == '/');
        }
    }
    if s2.len() > 0 && s2[0] == '/' {
        assert(s[0] == '/' && s[1] == '/');
        assert(false);
    }
    lemma_norm_scan_appends(start, s2);
    assert(start + s2 =~= s);
    assert(norm_scan(start, s) == s);
    assert(s.last() == '/');
}

/// Normalizing any root yields a normalized root, and normalizing an
/// already-normalized root changes nothing; hence normalizing twice yields
/// exactly what normalizing once does, and the result always begins and
/// ends with a separator.
pub proof fn lemma_normalize_root_idempotent(s: Seq<char>)
    ensures
        is_normalized_root(normalize_root_spec(s)),
        normalize_root_spec(normalize_root_spec(s)) == normalize_root_spec(s),
{
    let start = seq!['/'];
    assert(no_adjacent_separators(start)) by {
        assert(start.len() == 1);
    }
    lemma_norm_scan_shape(start, s);
    let t = norm_scan(start, s);
    if t.last() == '/' {
    } else {
        lemma_no_adj_push(t, '/');
        assert(t.push('/')[0] == '/');
    }
    lemma_normalized_fixed(normalize_root_spec(s));
}

/// Unfolding a scan at its last character.
proof fn lemma_norm_scan_snoc(acc: Seq<char>, s: Seq<char>)
    requires
        s.len() > 0,
    ensures
        norm_scan(acc, s) == norm_step(norm_scan(acc, s.drop_last()), s.last()),
    decreases s.len(),
{
    if s.len() == 1 {
        assert(s.drop_last() =~= Seq::<char>::empty());
        assert(s.drop_first() =~= Seq::<char>::empty());
        assert(norm_scan(acc, s) == norm_scan(norm_step(acc, s[0]), s.drop_first()));
        assert(norm_scan(norm_step(acc, s[0]), s.drop_first()) == norm_step(acc, s[0]));
        assert(norm_scan(acc, s.drop_last()) == acc);
        assert(s.last() == s[0]);
    } else {
        let s2 = s.drop_first();
        assert(norm_scan(acc, s) == norm_scan(norm_step(acc, s[0]), s2));
        lemma_norm_scan_snoc(norm_step(acc, s[0]), s2);
        assert(s2.drop_last() =~= s.drop_last().drop_first());
        assert(s2.last() == s.last());
        assert(s.drop_last().len() > 0 && s.drop_last()[0] == s[0]);
        assert(norm_scan(acc, s.drop_last()) == norm_scan(
            norm_step(acc, s[0]),
            s.drop_last().drop_first(),
        ));
    }
}

/// Normalize a root to the form `/a/b/`: absolute, with one trailing
/// separator, separator runs collapsed; the empty root becomes `/`.
pub fn normalize_root(v: &str) -> (r: String)
    ensures
        r@ == normalize_root_spec(v@),
{
    let n = v.unicode_len();
    let mut out = String::from_str("/");
    let mut last: char = '/';
    proof {
        reveal_strlit("/");
        assert(out@ =~= seq!['/']);
        assert(v@.take(0) =~= Seq::<char>::empty());
    }
    let mut i: usize = 0;
    while i < n
        invariant
            n == v@.len(),
            i <= n,
            out@ == norm_scan(seq!['/'], v@.take(i as int)),
            out@.len() > 0,
            last == out@.last(),
        decreases n - i,
    {
        let c = v.get_char(i);
        proof {
            let t = v@.take(i as int + 1);
            assert(t.drop_last() =~= v@.take(i as int));
            assert(t.last() == v@[i as int]);
            lemma_norm_scan_snoc(seq!['/'], t);
        }
        if c == '/' {
            if last != '/' {
                out.append("/");
                last = '/';
                proof {
                    reveal_strlit("/");
                    assert(out@ =~= norm_scan(seq!['/'], v@.take(i as int)).push('/'));
                }
            }
        } else {
            let piece = v.substring_char(i, i + 1);
            out.append(piece);
            last = c;
            proof {
                assert(piece@ =~= seq![v@[i as int]]);
                assert(out@ =~= norm_scan(seq!['/'], v@.take(i as int)).push(v@[i as int]));
            }
        }
        i = i + 1;
    }
    proof {
        assert(v@.take(n as int) =~= v@);
    }
    if last != '/' {
        out.append("/");
        proof {
            reveal_strlit("/");
            assert(out@ =~= norm_scan(seq!['/'], v@).push('/'));
        }
    }
    out
}

} // verus!
