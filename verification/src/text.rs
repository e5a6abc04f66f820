//! Text utilities of the scanner: ASCII-case-insensitive comparison, used by
//! the provider filter, and placeholder substitution, used to build a probe's
//! target URL from a provider's template.

use vstd::prelude::*;
use vstd::string::*;

verus! {

/// The character code after ASCII lower-casing: upper-case ASCII letters are
/// shifted into their lower-case counterparts, all else is untouched.
pub open spec fn lower_val(c: char) -> u32 {
    if 65 <= c as u32 && c as u32 <= 90 {
        (c as u32 + 32) as u32
    } else {
        c as u32
    }
}

/// Two character sequences are equal up to ASCII case.
pub open spec fn eq_ignore_case_spec(a: Seq<char>, b: Seq<char>) -> bool {
    a.len() == b.len() && (forall|i: int| 0 <= i < a.len() ==> lower_val(a[i]) == lower_val(b[i]))
}

fn lower_of(c: char) -> (r: u32)
    ensures
        r == lower_val(c),
{
    let v = c as u32;
    if 65 <= v && v <= 90 {
        v + 32
    } else {
        v
    }
}

/// Compares two strings for equality up to ASCII case.
pub fn eq_ignore_ascii_case(a: &str, b: &str) -> (r: bool)
    ensures
        r == eq_ignore_case_spec(a@, b@),
{
    let an = a.unicode_len();
    let bn = b.unicode_len();
    if an != bn {
        return false;
    }
    let mut i: usize = 0;
    while i < an
        invariant
            an == a@.len(),
            an == b@.len(),
            i <= an,
            forall|j: int| 0 <= j < i ==> lower_val(a@[j]) == lower_val(b@[j]),
        decreases an - i,
    {
        let ca = a.get_char(i);
        let cb = b.get_char(i);
        if lower_of(ca) != lower_of(cb) {
            return false;
        }
        i += 1;
    }
    true
}

/// The pattern `p` occurs in `t` starting at position `i`.
pub open spec fn occurs_at(t: Seq<char>, p: Seq<char>, i: int) -> bool {
    0 <= i && i + p.len() <= t.len() && t.subrange(i, i + p.len() as int) == p
}

/// The first position at or after `i` where `p` occurs in `t`, if any.
/// The empty pattern is taken to occur nowhere.
pub open spec fn find_from(t: Seq<char>, p: Seq<char>, i: int) -> Option<int>
    decreases t.len() - i,
{
    if i < 0 || p.len() == 0 || i + p.len() > t.len() {
        None
    } else if t.subrange(i, i + p.len() as int) == p {
        Some(i)
    } else {
        find_from(t, p, i + 1)
    }
}

/// A found position lies in range: the whole pattern fits at it.
proof fn lemma_find_from_in_range(t: Seq<char>, p: Seq<char>, i: int, k: int)
    requires
        find_from(t, p, i) == Some(k),
    ensures
        i <= k,
        k + p.len() <= t.len(),
        occurs_at(t, p, k),
    decreases t.len() - i,
{
    if t.subrange(i, i + p.len() as int) == p {
    } else {
        lemma_find_from_in_range(t, p, i + 1, k);
    }
}

/// Whether `p` occurs in `t` at exactly position `i`, for in-range `i`.
fn match_at(t: &str, p: &str, i: usize) -> (r: bool)
    requires
        i + p@.len() <= t@.len(),
    ensures
        r == occurs_at(t@, p@, i as int),
{
    let tn = t.unicode_len();
    let pn = p.unicode_len();
    let mut j: usize = 0;
    while j < pn
        invariant
            tn == t@.len(),
            pn == p@.len(),
            i + pn <= tn,
            j <= pn,
            forall|k: int| 0 <= k < j ==> t@[i + k] == p@[k],
        decreases pn - j,
    {
        if t.get_char(i + j) != p.get_char(j) {
            proof {
                assert(t@.subrange(i as int, i + pn as int)[j as int] != p@[j as int]);
            }
            return false;
        }
        j += 1;
    }
    proof {
        assert(t@.subrange(i as int, i + pn as int) =~= p@);
    }
    true
}

/// Finds the first occurrence of `p` in `t`.
fn find_first(t: &str, p: &str) -> (r: Option<usize>)
    ensures
        r matches Some(i) ==> find_from(t@, p@, 0) == Some(i as int),
        r is None ==> find_from(t@, p@, 0) is None,
{
    let tn = t.unicode_len();
    let pn = p.unicode_len();
    if pn > tn || pn == 0 {
        return None;
    }
    let mut i: usize = 0;
    while i <= tn - pn
        invariant
            tn == t@.len(),
            pn == p@.len(),
            0 < pn <= tn,
            i <= tn - pn + 1,
            find_from(t@, p@, 0) == find_from(t@, p@, i as int),
        decreases tn + 1 - i,
    {
        if match_at(t, p, i) {
            return Some(i);
        }
        i += 1;
    }
    None
}

/// The placeholder that a provider's URL template carries where the
/// identifier belongs.
pub open spec fn placeholder() -> Seq<char> {
    "{username}"@
}

/// The result of substituting `u` for the first occurrence of the
/// placeholder in `t`; `t` itself when the placeholder does not occur.
pub open spec fn subst_spec(t: Seq<char>, u: Seq<char>) -> Seq<char> {
    match find_from(t, placeholder(), 0) {
        None => t,
        Some(i) => t.subrange(0, i) + u + t.subrange(i + placeholder().len() as int, t.len() as int),
    }
}

/// Builds a probe's target URL: the identifier is substituted, verbatim and
/// with no escaping, for the first occurrence of the placeholder in the
/// provider's URL template.
pub fn build_url(template: &str, username: &str) -> (r: String)
    ensures
        r@ == subst_spec(template@, username@),
{
    let ph = "{username}";
    proof {
        reveal_strlit("{username}");
    }
    let tn = template.unicode_len();
    match find_first(template, ph) {
        None => template.to_owned(),
        Some(i) => {
            proof {
                lemma_find_from_in_range(template@, ph@, 0, i as int);
            }
            let prefix = template.substring_char(0, i);
            let suffix = template.substring_char(i + 10, tn);
            let mut out = prefix.to_owned();
            out.append(username);
            out.append(suffix);
            out
        },
    }
}

} // verus!
