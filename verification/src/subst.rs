//! Literal substring replacement, as used for placeholder substitution.
//!
//! [`replace_spec`] is the meaning of replacement: scan left to right, and at
//! each position either consume a match of the token and emit the
//! replacement, or emit the current byte unchanged. Matches never overlap
//! and replacements are never rescanned.
use vstd::prelude::*;

use crate::text::push_all;

verus! {

/// The token occurs in `s` at position `i`.
pub open spec fn token_at(s: Seq<u8>, tok: Seq<u8>, i: int) -> bool {
    0 <= i && i + tok.len() <= s.len() && s.subrange(i, i + tok.len() as int) == tok
}

/// The token occurs somewhere in `s`.
pub open spec fn has_token(s: Seq<u8>, tok: Seq<u8>) -> bool {
    exists|i: int| token_at(s, tok, i)
}

/// `p` is a prefix of `s`.
pub open spec fn is_prefix(p: Seq<u8>, s: Seq<u8>) -> bool {
    p.len() <= s.len() && p == s.take(p.len() as int)
}

/// `s` with every occurrence of `tok` replaced by `rep`, leftmost first.
/// An empty token matches nothing and leaves `s` unchanged.
pub open spec fn replace_spec(s: Seq<u8>, tok: Seq<u8>, rep: Seq<u8>) -> Seq<u8>
    decreases s.len(),
{
    if tok.len() == 0 || s.len() < tok.len() {
        s
    } else if s.take(tok.len() as int) == tok {
        rep + replace_spec(s.skip(tok.len() as int), tok, rep)
    } else {
        seq![s[0]] + replace_spec(s.skip(1), tok, rep)
    }
}

/// Whether `tok` occurs in `s` at position `i`.
fn match_at(s: &Vec<u8>, tok: &Vec<u8>, i: usize) -> (r: bool)
    requires
        tok.len() >= 1,
        i + tok.len() <= s.len(),
    ensures
        r == (s@.subrange(i as int, i + tok@.len()) == tok@),
{
    let mut j: usize = 0;
    while j < tok.len()
        invariant
            j <= tok.len(),
            i + tok.len() <= s.len(),
            forall|k: int| 0 <= k < j ==> s@[i + k] == tok@[k],
        decreases tok.len() - j,
    {
        if s[i + j] != tok[j] {
            proof {
                assert(s@.subrange(i as int, i + tok@.len())[j as int] == s@[i + j]);
            }
            return false;
        }
        j += 1;
    }
    proof {
        assert(s@.subrange(i as int, i + tok@.len()) =~= tok@);
    }
    true
}

/// `s` with every occurrence of `tok` replaced by `rep`, per [`replace_spec`].
pub fn replace_all(s: &Vec<u8>, tok: &Vec<u8>, rep: &Vec<u8>) -> (r: Vec<u8>)
    ensures
        r@ == replace_spec(s@, tok@, rep@),
{
    let mut r: Vec<u8> = Vec::new();
    if tok.len() == 0 {
        push_all(&mut r, s);
        proof {
            assert(Seq::<u8>::empty() + s@ =~= s@);
        }
        return r;
    }
    let mut i: usize = 0;
    proof {
        assert(s@.skip(0) =~= s@);
        assert(Seq::<u8>::empty() + replace_spec(s@, tok@, rep@) =~= replace_spec(
            s@,
            tok@,
            rep@,
        ));
    }
    while i < s.len()
        invariant
            i <= s.len(),
            tok.len() >= 1,
            replace_spec(s@, tok@, rep@) == r@ + replace_spec(s@.skip(i as int), tok@, rep@),
        decreases s.len() - i,
    {
        let ghost r0 = r@;
        let ghost rest = s@.skip(i as int);
        if tok.len() <= s.len() - i && match_at(s, tok, i) {
            proof {
                assert(rest.take(tok@.len() as int) =~= s@.subrange(i as int, i + tok@.len()));
                assert(rest.skip(tok@.len() as int) =~= s@.skip(i + tok.len()));
                assert(replace_spec(rest, tok@, rep@) == rep@ + replace_spec(
                    s@.skip(i + tok.len()),
                    tok@,
                    rep@,
                ));
            }
            push_all(&mut r, rep);
            proof {
                assert(r0 + (rep@ + replace_spec(s@.skip(i + tok.len()), tok@, rep@)) =~= r@
                    + replace_spec(s@.skip(i + tok.len()), tok@, rep@));
            }
            i += tok.len();
        } else {
            proof {
                assert(rest[0] == s@[i as int]);
                assert(rest.skip(1) =~= s@.skip(i + 1));
                if rest.len() >= tok@.len() {
                    assert(rest.take(tok@.len() as int) =~= s@.subrange(
                        i as int,
                        i + tok@.len(),
                    ));
                    assert(rest.take(tok@.len() as int) != tok@);
                }
                assert(replace_spec(rest, tok@, rep@) == seq![s@[i as int]] + replace_spec(
                    s@.skip(i + 1),
                    tok@,
                    rep@,
                ));
            }
            r.push(s[i]);
            proof {
                assert(r0 + (seq![s@[i as int]] + replace_spec(s@.skip(i + 1), tok@, rep@)) =~= r@
                    + replace_spec(s@.skip(i + 1), tok@, rep@));
            }
            i += 1;
        }
    }
    proof {
        assert(s@.skip(s@.len() as int) =~= Seq::<u8>::empty());
        assert(r@ + Seq::<u8>::empty() =~= r@);
    }
    r
}

/// Replacement touches nothing but the token: text without an occurrence
/// comes back unchanged.
pub proof fn lemma_replace_token_free_unchanged(s: Seq<u8>, tok: Seq<u8>, rep: Seq<u8>)
    requires
        !has_token(s, tok),
    ensures
        replace_spec(s, tok, rep) == s,
    decreases s.len(),
{
    if tok.len() == 0 || s.len() < tok.len() {
    } else if s.take(tok.len() as int) == tok {
        assert(s.subrange(0, tok.len() as int) == tok);
        assert(token_at(s, tok, 0));
    } else {
        let s2 = s.skip(1);
        assert forall|p: int| !token_at(s2, tok, p) by {
            if token_at(s2, tok, p) {
                assert(s2.subrange(p, p + tok.len()) =~= s.subrange(p + 1, p + 1 + tok.len()));
                assert(token_at(s, tok, p + 1));
            }
        }
        lemma_replace_token_free_unchanged(s2, tok, rep);
        assert(seq![s[0]] + s2 =~= s);
    }
}

/// `rep` can stand in for `pat` without ever fabricating an occurrence of
/// `pat`, wherever the replacement lands:
/// - `pat` does not occur inside `rep`;
/// - no nonempty proper suffix of `pat` is a prefix of `rep` (text ending
///   just before a replacement cannot complete `pat` into it);
/// - no nonempty suffix of `rep` is a proper prefix of `pat` (a replacement
///   cannot start `pat` and let the following text complete it);
/// - `rep` does not occur inside `pat` after its start (surrounding text
///   cannot wrap a whole replacement into `pat`).
pub open spec fn replacement_safe(pat: Seq<u8>, rep: Seq<u8>) -> bool {
    &&& pat.len() >= 1
    &&& rep.len() >= 1
    &&& !has_token(rep, pat)
    &&& forall|k: int| 1 <= k < pat.len() ==> !is_prefix(#[trigger] pat.skip(k), rep)
    &&& forall|k: int|
        0 <= k < rep.len() ==> !(rep.len() - k < pat.len() && #[trigger] rep.skip(k) == pat.take(
            rep.len() - k,
        ))
    &&& forall|j: int| j >= 1 ==> !token_at(pat, rep, j)
}

/// Replacing `tok` by a replacement that is safe for `pat` never leaves an
/// occurrence of `pat` behind: none when `pat` is the replaced token itself,
/// and none when `pat` is another pattern the input did not contain.
///
/// The second conclusion is the induction strengthening: a nonempty proper
/// suffix of `pat` at the front of the output can only come from input text.
pub proof fn lemma_replace_introduces_no_token(
    s: Seq<u8>,
    tok: Seq<u8>,
    rep: Seq<u8>,
    pat: Seq<u8>,
)
    requires
        tok.len() >= 1,
        replacement_safe(pat, rep),
        pat == tok || !has_token(s, pat),
    ensures
        !has_token(replace_spec(s, tok, rep), pat),
        forall|k: int|
            1 <= k < pat.len() && is_prefix(#[trigger] pat.skip(k), replace_spec(s, tok, rep))
                ==> is_prefix(pat.skip(k), s),
    decreases s.len(),
{
    let r = replace_spec(s, tok, rep);
    if s.len() < tok.len() {
        assert(r == s);
        if pat == tok {
            assert forall|p: int| !token_at(s, pat, p) by {
                if 0 <= p && p + pat.len() <= s.len() {
                    assert(s.len() >= pat.len());
                }
            }
        }
    } else if s.take(tok.len() as int) == tok {
        let s2 = s.skip(tok.len() as int);
        let r2 = replace_spec(s2, tok, rep);
        assert(r == rep + r2);
        if pat != tok {
            assert forall|p: int| !token_at(s2, pat, p) by {
                if token_at(s2, pat, p) {
                    assert(s2.subrange(p, p + pat.len()) =~= s.subrange(
                        p + tok.len(),
                        p + tok.len() + pat.len(),
                    ));
                    assert(token_at(s, pat, p + tok.len()));
                }
            }
        }
        lemma_replace_introduces_no_token(s2, tok, rep, pat);
        // No occurrence of `pat` anywhere in `rep + r2`.
        assert forall|p: int| !token_at(r, pat, p) by {
            if token_at(r, pat, p) {
                if p + pat.len() <= rep.len() {
                    assert(r.subrange(p, p + pat.len()) =~= rep.subrange(p, p + pat.len()));
                    assert(token_at(rep, pat, p));
                } else if p >= rep.len() {
                    assert(r.subrange(p, p + pat.len()) =~= r2.subrange(
                        p - rep.len(),
                        p - rep.len() + pat.len(),
                    ));
                    assert(token_at(r2, pat, p - rep.len()));
                } else {
                    // Spanning: the tail of `rep` from p is a proper prefix
                    // of `pat`, which safety forbids.
                    let m = rep.len() - p;
                    assert(0 < m < pat.len());
                    assert forall|x: int| 0 <= x < m implies rep.skip(p)[x] == pat.take(m)[x] by {
                        assert(pat[x] == r.subrange(p, p + pat.len())[x]);
                        assert(r[p + x] == rep[p + x]);
                    }
                    assert(rep.skip(p) =~= pat.take(m));
                    assert(!(rep.len() - p < pat.len() && rep.skip(p) == pat.take(
                        rep.len() - p,
                    )));
                }
            }
        }
        // A proper suffix of `pat` cannot begin the output at all here:
        // it would be a prefix of `rep` or wrap `rep` inside `pat`.
        assert forall|k: int|
            1 <= k < pat.len() && is_prefix(#[trigger] pat.skip(k), r) implies is_prefix(
            pat.skip(k),
            s,
        ) by {
            let tail = pat.skip(k);
            let len = pat.len() - k;
            if len <= rep.len() {
                assert forall|x: int| 0 <= x < len implies tail[x] == rep.take(len)[x] by {
                    assert(tail[x] == r.take(len)[x]);
                    assert(r[x] == rep[x]);
                }
                assert(tail =~= rep.take(len));
                assert(is_prefix(pat.skip(k), rep));
                assert(false);
            } else {
                assert forall|x: int| 0 <= x < rep.len() implies rep[x] == pat.subrange(
                    k,
                    k + rep.len(),
                )[x] by {
                    assert(tail[x] == r.take(len)[x]);
                    assert(r[x] == rep[x]);
                    assert(tail[x] == pat[k + x]);
                }
                assert(pat.subrange(k, k + rep.len()) =~= rep);
                assert(token_at(pat, rep, k));
                assert(false);
            }
        }
    } else {
        let s2 = s.skip(1);
        let r2 = replace_spec(s2, tok, rep);
        assert(r == seq![s[0]] + r2);
        if pat != tok {
            assert forall|p: int| !token_at(s2, pat, p) by {
                if token_at(s2, pat, p) {
                    assert(s2.subrange(p, p + pat.len()) =~= s.subrange(p + 1, p + 1 + pat.len()));
                    assert(token_at(s, pat, p + 1));
                }
            }
        }
        lemma_replace_introduces_no_token(s2, tok, rep, pat);
        assert forall|p: int| !token_at(r, pat, p) by {
            if token_at(r, pat, p) {
                if p >= 1 {
                    assert(r.subrange(p, p + pat.len()) =~= r2.subrange(
                        p - 1,
                        p - 1 + pat.len(),
                    ));
                    assert(token_at(r2, pat, p - 1));
                } else {
                    // An occurrence at the very front would make `pat` a
                    // prefix of the input itself.
                    assert(pat[0] == r[0]);
                    assert(r[0] == s[0]);
                    if pat.len() >= 2 {
                        assert forall|x: int| 0 <= x < pat.len() - 1 implies pat.skip(1)[x]
                            == r2.take(pat.len() - 1)[x] by {
                            assert(pat[1 + x] == r.subrange(0, pat.len() as int)[1 + x]);
                            assert(r[1 + x] == r2[x]);
                        }
                        assert(pat.skip(1) =~= r2.take(pat.len() - 1));
                        assert(is_prefix(pat.skip(1), r2));
                        assert(is_prefix(pat.skip(1), s2));
                        assert forall|x: int| 0 <= x < pat.len() implies pat[x] == s.take(
                            pat.len() as int,
                        )[x] by {
                            if x >= 1 {
                                assert(pat.skip(1)[x - 1] == s2.take(pat.len() - 1)[x - 1]);
                            }
                        }
                        assert(pat =~= s.take(pat.len() as int));
                    } else {
                        assert(pat =~= s.take(1));
                    }
                    if pat == tok {
                        assert(s.take(tok.len() as int) == tok);
                        assert(false);
                    } else {
                        assert(s.subrange(0, pat.len() as int) == pat);
                        assert(token_at(s, pat, 0));
                        assert(false);
                    }
                }
            }
        }
        assert forall|k: int|
            1 <= k < pat.len() && is_prefix(#[trigger] pat.skip(k), r) implies is_prefix(
            pat.skip(k),
            s,
        ) by {
            let tail = pat.skip(k);
            let len = pat.len() - k;
            assert(tail[0] == r.take(len)[0]);
            assert(r[0] == s[0]);
            if k + 1 == pat.len() {
                assert(tail =~= s.take(1));
            } else {
                assert forall|x: int| 0 <= x < pat.len() - k - 1 implies #[trigger] pat.skip(
                    k + 1,
                )[x] == r2.take(pat.len() - k - 1)[x] by {
                    assert(tail[1 + x] == r.take(len)[1 + x]);
                    assert(r[1 + x] == r2[x]);
                }
                assert(pat.skip(k + 1) =~= r2.take(pat.len() - k - 1));
                assert(is_prefix(pat.skip(k + 1), r2));
                assert(is_prefix(pat.skip(k + 1), s2));
                assert forall|x: int| 0 <= x < len implies tail[x] == s.take(len)[x] by {
                    if x >= 1 {
                        assert(pat.skip(k + 1)[x - 1] == s2.take(pat.len() - k - 1)[x - 1]);
                    }
                }
                assert(tail =~= s.take(len));
            }
        }
    }
}

/// Whether `tok` occurs anywhere in `s`; an empty token never counts.
pub fn contains_token(s: &Vec<u8>, tok: &Vec<u8>) -> (r: bool)
    requires
        tok.len() >= 1,
    ensures
        r == has_token(s@, tok@),
{
    if tok.len() > s.len() {
        proof {
            assert(forall|i: int| !token_at(s@, tok@, i));
        }
        return false;
    }
    let mut i: usize = 0;
    while i <= s.len() - tok.len()
        invariant
            tok.len() >= 1,
            tok.len() <= s.len(),
            i <= s.len(),
            forall|k: int| 0 <= k < i ==> !token_at(s@, tok@, k),
        decreases s.len() - i,
    {
        if match_at(s, tok, i) {
            assert(token_at(s@, tok@, i as int));
            return true;
        }
        i += 1;
    }
    proof {
        assert(forall|k: int| k >= i ==> !token_at(s@, tok@, k));
    }
    false
}

/// Whether the tail of `a` from position `k` is a prefix of `b`.
fn tail_is_prefix(a: &Vec<u8>, k: usize, b: &Vec<u8>) -> (r: bool)
    requires
        k <= a.len(),
    ensures
        r == is_prefix(a@.skip(k as int), b@),
{
    let n = a.len() - k;
    if n > b.len() {
        return false;
    }
    let mut x: usize = 0;
    while x < n
        invariant
            k <= a.len(),
            n == a.len() - k,
            n <= b.len(),
            x <= n,
            forall|t: int| 0 <= t < x ==> a@[k + t] == b@[t],
        decreases n - x,
    {
        if a[k + x] != b[x] {
            proof {
                assert(a@.skip(k as int)[x as int] == a@[k + x]);
                assert(b@.take(n as int)[x as int] == b@[x as int]);
            }
            return false;
        }
        x += 1;
    }
    proof {
        assert(a@.skip(k as int) =~= b@.take(n as int));
    }
    true
}

/// Whether `rep` is a safe replacement for `pat`, per [`replacement_safe`].
pub fn replacement_safe_check(pat: &Vec<u8>, rep: &Vec<u8>) -> (r: bool)
    ensures
        r == replacement_safe(pat@, rep@),
{
    if pat.len() == 0 || rep.len() == 0 {
        return false;
    }
    if contains_token(rep, pat) {
        return false;
    }
    let mut k: usize = 1;
    while k < pat.len()
        invariant
            1 <= k <= pat.len() || pat.len() < 1,
            k >= 1,
            forall|t: int| 1 <= t < k ==> !is_prefix(#[trigger] pat@.skip(t), rep@),
        decreases pat.len() - k,
    {
        if tail_is_prefix(pat, k, rep) {
            return false;
        }
        k += 1;
    }
    let mut k2: usize = 0;
    while k2 < rep.len()
        invariant
            k2 <= rep.len(),
            forall|t: int|
                0 <= t < k2 ==> !(rep@.len() - t < pat@.len() && #[trigger] rep@.skip(t)
                    == pat@.take(rep@.len() - t)),
        decreases rep.len() - k2,
    {
        if rep.len() - k2 < pat.len() && tail_is_prefix(rep, k2, pat) {
            return false;
        }
        k2 += 1;
    }
    if rep.len() <= pat.len() {
        let bound = pat.len() - rep.len();
        let mut j: usize = 1;
        while j <= bound
            invariant
                1 <= j,
                bound == pat.len() - rep.len(),
                rep.len() >= 1,
                forall|t: int| 1 <= t < j ==> !token_at(pat@, rep@, t),
            decreases bound + 1 - j,
        {
            if match_at(pat, rep, j) {
                proof {
                    assert(token_at(pat@, rep@, j as int));
                }
                return false;
            }
            j += 1;
        }
        proof {
            assert(forall|t: int| t > bound ==> !token_at(pat@, rep@, t));
        }
    } else {
        proof {
            assert(forall|t: int| t >= 1 ==> !token_at(pat@, rep@, t));
        }
    }
    true
}

} // verus!
