//! Validation of a requested project name and derivation of its forms.
//!
//! A raw name is trimmed of surrounding whitespace and internal spaces become
//! hyphens; the result must be non-empty, at most [`MAX_NAME_LEN`] bytes, and
//! consist of ASCII letters, digits, hyphens and underscores. From the raw
//! input two further forms are derived: `lower` (hyphens and underscores
//! stripped, letters lower-cased) and `pascal` (split on hyphens, the first
//! byte of each non-empty segment upper-cased, segments concatenated).
use vstd::prelude::*;

use crate::chars::is_ws;
use crate::chars::is_name_byte_spec;
use crate::chars::space_to_hyphen_spec;
use crate::chars::to_lower_spec;
use crate::chars::to_upper_spec;
use crate::chars::is_name_byte;
use crate::chars::space_to_hyphen;
use crate::chars::to_lower_byte;
use crate::chars::to_upper_byte;
use crate::chars::HYPHEN;
use crate::chars::UNDERSCORE;
use crate::error::ScaffoldError;
use crate::text::copy_bytes;

verus! {

/// Longest allowed normalized name, in bytes.
pub const MAX_NAME_LEN: usize = 100;

/// `s` without its leading whitespace.
pub open spec fn trim_front_spec(s: Seq<u8>) -> Seq<u8>
    decreases s.len(),
{
    if s.len() > 0 && is_ws(s[0]) {
        trim_front_spec(s.drop_first())
    } else {
        s
    }
}

/// `s` without its trailing whitespace.
pub open spec fn trim_back_spec(s: Seq<u8>) -> Seq<u8>
    decreases s.len(),
{
    if s.len() > 0 && is_ws(s.last()) {
        trim_back_spec(s.drop_last())
    } else {
        s
    }
}

/// `s` without leading and trailing whitespace.
pub open spec fn trim_spec(s: Seq<u8>) -> Seq<u8> {
    trim_back_spec(trim_front_spec(s))
}

/// The normalized form: trimmed, with each space turned into a hyphen.
pub open spec fn normalize_spec(s: Seq<u8>) -> Seq<u8> {
    Seq::new(trim_spec(s).len(), |i: int| space_to_hyphen_spec(trim_spec(s)[i]))
}

/// Every byte of `s` is allowed in a normalized name.
pub open spec fn all_name_bytes(s: Seq<u8>) -> bool {
    forall|i: int| 0 <= i < s.len() ==> is_name_byte_spec(#[trigger] s[i])
}

/// The raw input passes validation: non-empty once trimmed, not too long,
/// and every normalized byte is a letter, digit, hyphen or underscore.
pub open spec fn valid_name(s: Seq<u8>) -> bool {
    &&& trim_spec(s).len() > 0
    &&& normalize_spec(s).len() <= MAX_NAME_LEN
    &&& all_name_bytes(normalize_spec(s))
}

/// The `lower` form: hyphens and underscores removed, letters lower-cased.
pub open spec fn lower_spec(s: Seq<u8>) -> Seq<u8>
    decreases s.len(),
{
    if s.len() == 0 {
        Seq::empty()
    } else if s[0] == HYPHEN || s[0] == UNDERSCORE {
        lower_spec(s.drop_first())
    } else {
        seq![to_lower_spec(s[0])] + lower_spec(s.drop_first())
    }
}

/// One step of the `pascal` derivation: `seg_start` records whether the next
/// byte begins a segment (and is therefore upper-cased); hyphens separate
/// segments and are dropped, so empty segments contribute nothing.
pub open spec fn pascal_rec(s: Seq<u8>, seg_start: bool) -> Seq<u8>
    decreases s.len(),
{
    if s.len() == 0 {
        Seq::empty()
    } else if s[0] == HYPHEN {
        pascal_rec(s.drop_first(), true)
    } else if seg_start {
        seq![to_upper_spec(s[0])] + pascal_rec(s.drop_first(), false)
    } else {
        seq![s[0]] + pascal_rec(s.drop_first(), false)
    }
}

/// The `pascal` form: split on hyphens, the first byte of each non-empty
/// segment upper-cased, segments concatenated without separators.
pub open spec fn pascal_spec(s: Seq<u8>) -> Seq<u8> {
    pascal_rec(s, true)
}

/// The validated name together with its derived forms.
pub struct AppNameSet {
    /// The input exactly as given.
    pub raw: Vec<u8>,
    /// Trimmed, spaces turned into hyphens; names the project root directory.
    pub normalized: Vec<u8>,
    /// Hyphens and underscores stripped, lower-cased.
    pub lower: Vec<u8>,
    /// Hyphen-separated segments capitalized and joined.
    pub pascal: Vec<u8>,
}

impl AppNameSet {
    /// The fields hold exactly the forms derived from a valid raw input.
    pub open spec fn wf(&self) -> bool {
        &&& valid_name(self.raw@)
        &&& self.normalized@ == normalize_spec(self.raw@)
        &&& self.lower@ == lower_spec(self.raw@)
        &&& self.pascal@ == pascal_spec(self.raw@)
    }
}

proof fn lemma_trim_front_ws_prefix(s: Seq<u8>, i: int)
    requires
        0 <= i <= s.len(),
        forall|k: int| 0 <= k < i ==> is_ws(#[trigger] s[k]),
    ensures
        trim_front_spec(s) == trim_front_spec(s.skip(i)),
    decreases i,
{
    if i > 0 {
        assert(is_ws(s[0]));
        lemma_trim_front_ws_prefix(s.drop_first(), i - 1);
        assert(s.drop_first().skip(i - 1) =~= s.skip(i));
    } else {
        assert(s.skip(0) =~= s);
    }
}

proof fn lemma_trim_back_ws_suffix(t: Seq<u8>, j: int)
    requires
        0 <= j <= t.len(),
        forall|k: int| j <= k < t.len() ==> is_ws(#[trigger] t[k]),
    ensures
        trim_back_spec(t) == trim_back_spec(t.take(j)),
    decreases t.len() - j,
{
    if j < t.len() {
        assert(is_ws(t.last()));
        lemma_trim_back_ws_suffix(t.drop_last(), j);
        assert(t.drop_last().take(j) =~= t.take(j));
    } else {
        assert(t.take(j) =~= t);
    }
}

/// `s` with surrounding whitespace removed.
pub fn trim_bytes(s: &Vec<u8>) -> (r: Vec<u8>)
    ensures
        r@ == trim_spec(s@),
{
    let mut start: usize = 0;
    while start < s.len() && (s[start] == 32 || s[start] == 9 || s[start] == 10 || s[start] == 12
        || s[start] == 13)
        invariant
            start <= s.len(),
            forall|k: int| 0 <= k < start ==> is_ws(#[trigger] s@[k]),
        decreases s.len() - start,
    {
        start += 1;
    }
    let mut end: usize = s.len();
    while end > start && (s[end - 1] == 32 || s[end - 1] == 9 || s[end - 1] == 10 || s[end - 1]
        == 12 || s[end - 1] == 13)
        invariant
            start <= end <= s.len(),
            forall|k: int| 0 <= k < start ==> is_ws(#[trigger] s@[k]),
            forall|k: int| end <= k < s.len() ==> is_ws(#[trigger] s@[k]),
        decreases end,
    {
        end -= 1;
    }
    let mut r: Vec<u8> = Vec::new();
    let mut i: usize = start;
    while i < end
        invariant
            start <= i <= end <= s.len(),
            r@ == s@.subrange(start as int, i as int),
        decreases end - i,
    {
        r.push(s[i]);
        proof {
            assert(s@.subrange(start as int, i + 1) =~= s@.subrange(start as int, i as int).push(
                s@[i as int],
            ));
        }
        i += 1;
    }
    proof {
        lemma_trim_front_ws_prefix(s@, start as int);
        let t = s@.skip(start as int);
        if start < s.len() {
            assert(!is_ws(t[0]));
        }
        assert(trim_front_spec(t) == t);
        lemma_trim_back_ws_suffix(t, end - start);
        let u = t.take(end - start);
        if end > start {
            assert(!is_ws(u.last()));
        }
        assert(trim_back_spec(u) == u);
        assert(u =~= s@.subrange(start as int, end as int));
        assert(r@ == trim_spec(s@));
    }
    r
}

/// The normalized form of the raw input.
pub fn normalize_name(raw: &Vec<u8>) -> (r: Vec<u8>)
    ensures
        r@ == normalize_spec(raw@),
{
    let t = trim_bytes(raw);
    let mut r: Vec<u8> = Vec::new();
    let mut i: usize = 0;
    while i < t.len()
        invariant
            i <= t.len(),
            t@ == trim_spec(raw@),
            r@.len() == i,
            forall|k: int| 0 <= k < i ==> r@[k] == space_to_hyphen_spec(#[trigger] t@[k]),
        decreases t.len() - i,
    {
        let b = space_to_hyphen(t[i]);
        r.push(b);
        i += 1;
    }
    proof {
        assert(r@ =~= normalize_spec(raw@));
    }
    r
}

/// The `lower` form of the raw input.
pub fn lower_of(raw: &Vec<u8>) -> (r: Vec<u8>)
    ensures
        r@ == lower_spec(raw@),
{
    let mut r: Vec<u8> = Vec::new();
    let mut i: usize = 0;
    proof {
        assert(raw@.skip(0) =~= raw@);
        assert(Seq::<u8>::empty() + lower_spec(raw@) =~= lower_spec(raw@));
    }
    while i < raw.len()
        invariant
            i <= raw.len(),
            lower_spec(raw@) == r@ + lower_spec(raw@.skip(i as int)),
        decreases raw.len() - i,
    {
        let ghost r0 = r@;
        let b = raw[i];
        proof {
            assert(raw@.skip(i as int).drop_first() =~= raw@.skip(i + 1));
            assert(raw@.skip(i as int)[0] == raw@[i as int]);
        }
        if b != HYPHEN && b != UNDERSCORE {
            r.push(to_lower_byte(b));
            proof {
                assert(lower_spec(raw@.skip(i as int)) == seq![to_lower_spec(raw@[i as int])]
                    + lower_spec(raw@.skip(i + 1)));
                assert(r0 + (seq![to_lower_spec(raw@[i as int])] + lower_spec(raw@.skip(i + 1)))
                    =~= r@ + lower_spec(raw@.skip(i + 1)));
            }
        }
        i += 1;
    }
    proof {
        assert(raw@.skip(raw@.len() as int) =~= Seq::<u8>::empty());
        assert(r@ + Seq::<u8>::empty() =~= r@);
    }
    r
}

/// The `pascal` form of the raw input.
pub fn pascal_of(raw: &Vec<u8>) -> (r: Vec<u8>)
    ensures
        r@ == pascal_spec(raw@),
{
    let mut r: Vec<u8> = Vec::new();
    let mut seg_start: bool = true;
    let mut i: usize = 0;
    proof {
        assert(raw@.skip(0) =~= raw@);
        assert(Seq::<u8>::empty() + pascal_spec(raw@) =~= pascal_spec(raw@));
    }
    while i < raw.len()
        invariant
            i <= raw.len(),
            pascal_spec(raw@) == r@ + pascal_rec(raw@.skip(i as int), seg_start),
        decreases raw.len() - i,
    {
        let ghost r0 = r@;
        let b = raw[i];
        proof {
            assert(raw@.skip(i as int).drop_first() =~= raw@.skip(i + 1));
            assert(raw@.skip(i as int)[0] == raw@[i as int]);
        }
        if b == HYPHEN {
            seg_start = true;
        } else if seg_start {
            r.push(to_upper_byte(b));
            proof {
                assert(r0 + (seq![to_upper_spec(raw@[i as int])] + pascal_rec(
                    raw@.skip(i + 1),
                    false,
                )) =~= r@ + pascal_rec(raw@.skip(i + 1), false));
            }
            seg_start = false;
        } else {
            r.push(b);
            proof {
                assert(r0 + (seq![raw@[i as int]] + pascal_rec(raw@.skip(i + 1), false)) =~= r@
                    + pascal_rec(raw@.skip(i + 1), false));
            }
        }
        i += 1;
    }
    proof {
        assert(raw@.skip(raw@.len() as int) =~= Seq::<u8>::empty());
        assert(r@ + Seq::<u8>::empty() =~= r@);
    }
    r
}

/// Validate the raw input and derive every name form.
///
/// Succeeds exactly on valid names; any failure is `InvalidName`.
pub fn validate(raw: &Vec<u8>) -> (r: Result<AppNameSet, ScaffoldError>)
    ensures
        r is Ok <==> valid_name(raw@),
        r matches Ok(names) ==> names.wf() && names.raw@ == raw@,
        r matches Err(e) ==> e == ScaffoldError::InvalidName,
{
    let normalized = normalize_name(raw);
    if normalized.len() == 0 {
        return Err(ScaffoldError::InvalidName);
    }
    if normalized.len() > MAX_NAME_LEN {
        return Err(ScaffoldError::InvalidName);
    }
    let mut i: usize = 0;
    while i < normalized.len()
        invariant
            i <= normalized.len(),
            normalized@ == normalize_spec(raw@),
            forall|k: int| 0 <= k < i ==> is_name_byte_spec(#[trigger] normalized@[k]),
        decreases normalized.len() - i,
    {
        if !is_name_byte(normalized[i]) {
            return Err(ScaffoldError::InvalidName);
        }
        i += 1;
    }
    let lower = lower_of(raw);
    let pascal = pascal_of(raw);
    Ok(AppNameSet { raw: copy_bytes(raw), normalized, lower, pascal })
}

/// An empty segment contributes nothing to the `pascal` form: a hyphen in
/// front of the rest — wherever it came from, including one of a
/// consecutive run — is dropped, and the rest starts a fresh segment.
pub proof fn lemma_pascal_empty_segment(s: Seq<u8>, seg_start: bool)
    ensures
        pascal_rec(seq![HYPHEN] + s, seg_start) == pascal_spec(s),
{
    let h = seq![HYPHEN] + s;
    assert(h[0] == HYPHEN);
    assert(h.drop_first() =~= s);
}

/// Normalizing a valid name a second time changes nothing: the normalized
/// form has no whitespace left to trim and no space left to replace.
pub proof fn lemma_normalize_idempotent(s: Seq<u8>)
    requires
        valid_name(s),
    ensures
        normalize_spec(normalize_spec(s)) == normalize_spec(s),
{
    let n = normalize_spec(s);
    assert(forall|k: int| 0 <= k < n.len() ==> !is_ws(#[trigger] n[k]));
    if n.len() > 0 {
        assert(!is_ws(n[0]));
    }
    assert(trim_front_spec(n) == n);
    if n.len() > 0 {
        assert(!is_ws(n.last()));
    }
    assert(trim_back_spec(n) == n);
    assert(trim_spec(n) == n);
    assert(normalize_spec(n) =~= n);
}

} // verus!
