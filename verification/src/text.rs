//! Text helpers shared by the download pipeline: display-name sanitizing,
//! separator joins, and plain string comparison.

use vstd::prelude::*;
use vstd::string::StrSliceExecFns;
use vstd::string::StringExecFns;

verus! {

/// Characters that are stripped from a display name before it becomes part of
/// a file name on disk.
pub open spec fn spec_forbidden_char(c: char) -> bool {
    c == '/' || c == '<' || c == '>' || c == '"' || c == ' ' || c == '(' || c == ')'
}

/// A sanitized name keeps exactly the characters that are not forbidden, in
/// their original order.
pub open spec fn spec_sanitize(s: Seq<char>) -> Seq<char> {
    s.filter(|c: char| !spec_forbidden_char(c))
}

pub fn forbidden_char(c: char) -> (r: bool)
    ensures
        r == spec_forbidden_char(c),
{
    c == '/' || c == '<' || c == '>' || c == '"' || c == ' ' || c == '(' || c == ')'
}

/// Remove every forbidden character from `s`, keeping all others in order.
pub fn sanitize(s: &str) -> (r: String)
    ensures
        r@ == spec_sanitize(s@),
{
    let n = s.unicode_len();
    let mut out = String::new();
    let mut i: usize = 0;
    while i < n
        invariant
            n == s@.len(),
            i <= n,
            out@ == spec_sanitize(s@.take(i as int)),
        decreases n - i,
    {
        let c = s.get_char(i);
        proof {
            broadcast use vstd::prelude::Seq::lemma_filter_push;

            assert(s@.take(i + 1) =~= s@.take(i as int).push(s@[i as int]));
        }
        if !forbidden_char(c) {
            let piece = s.substring_char(i, i + 1);
            out.append(piece);
            proof {
                assert(out@ =~= spec_sanitize(s@.take(i as int)).push(s@[i as int]));
            }
        }
        i = i + 1;
    }
    proof {
        assert(s@.take(n as int) =~= s@);
    }
    out
}

/// Filtering keeps a sequence unchanged when every element already satisfies
/// the predicate.
proof fn lemma_filter_retains_all<A>(s: Seq<A>, p: spec_fn(A) -> bool)
    requires
        forall|i: int| 0 <= i < s.len() ==> p(s[i]),
    ensures
        s.filter(p) == s,
    decreases s.len(),
{
    reveal(Seq::filter);
    if s.len() == 0 {
        assert(s.filter(p) =~= s);
    } else {
        lemma_filter_retains_all(s.drop_last(), p);
        assert(s.drop_last().push(s.last()) =~= s);
    }
}

/// Sanitizing is idempotent: a name that was sanitized once is left unchanged
/// by a second pass.
pub proof fn lemma_sanitize_idempotent(s: Seq<char>)
    ensures
        spec_sanitize(spec_sanitize(s)) == spec_sanitize(s),
{
    broadcast use vstd::prelude::Seq::lemma_filter_pred;

    let kept = spec_sanitize(s);
    assert(forall|i: int| 0 <= i < kept.len() ==> !spec_forbidden_char(kept[i]));
    lemma_filter_retains_all(kept, |c: char| !spec_forbidden_char(c));
}

/// The pieces joined with `sep` between consecutive pieces: empty for no
/// pieces, and otherwise the pieces in order with one separator before each
/// piece after the first.
pub open spec fn spec_join(parts: Seq<Seq<char>>, sep: Seq<char>) -> Seq<char>
    decreases parts.len(),
{
    if parts.len() == 0 {
        Seq::empty()
    } else if parts.len() == 1 {
        parts[0]
    } else {
        spec_join(parts.drop_last(), sep) + sep + parts.last()
    }
}

/// Join the strings of `parts` with `sep` between consecutive entries.
pub fn join_strings(parts: &Vec<String>, sep: &str) -> (r: String)
    ensures
        r@ == spec_join(parts.deep_view(), sep@),
{
    let mut out = String::new();
    let mut i: usize = 0;
    while i < parts.len()
        invariant
            i <= parts@.len(),
            out@ == spec_join(parts.deep_view().take(i as int), sep@),
        decreases parts@.len() - i,
    {
        if i > 0 {
            out.append(sep);
        }
        out.append(parts[i].as_str());
        proof {
            let dv = parts.deep_view();
            assert(dv.take(i + 1).drop_last() =~= dv.take(i as int));
            assert(dv.take(i + 1).last() == dv[i as int]);
            if i == 0 {
                assert(out@ =~= dv.take(1)[0]);
            }
        }
        i = i + 1;
    }
    proof {
        assert(parts.deep_view().take(parts@.len() as int) =~= parts.deep_view());
    }
    out
}

/// Whether two string slices hold the same characters.
pub fn str_eq(a: &str, b: &str) -> (r: bool)
    ensures
        r == (a@ == b@),
{
    let sa = String::from_str(a);
    let sb = String::from_str(b);
    sa == sb
}

} // verus!
