use vstd::prelude::*;
use vstd::string::*;

verus! {

/// Index of the last path separator in `p`, or `-1` if none occurs.
pub open spec fn last_sep_index(p: Seq<char>) -> int
    decreases p.len(),
{
    if p.len() == 0 {
        -1
    } else if p[p.len() - 1] == '/' {
        p.len() - 1
    } else {
        last_sep_index(p.drop_last())
    }
}

/// A call-site file path has a usable parent directory when a separator
/// occurs past the first character, so that the directory part is non-empty.
/// A broken host invocation that violates this is an internal-consistency
/// failure, not a reportable user error, so [`resolve`] requires it.
pub open spec fn has_parent_dir(p: Seq<char>) -> bool {
    last_sep_index(p) >= 1
}

/// The directory containing the file at `p`: everything before the last
/// separator.
pub open spec fn parent_dir(p: Seq<char>) -> Seq<char> {
    p.subrange(0, last_sep_index(p))
}

/// Standard path-join semantics: an absolute `rel` replaces `dir`; any other
/// `rel` (`..` segments included, which may escape the directory) is appended
/// after a single separator.
pub open spec fn join_paths(dir: Seq<char>, rel: Seq<char>) -> Seq<char> {
    if rel.len() > 0 && rel[0] == '/' {
        rel
    } else {
        dir + seq!['/'] + rel
    }
}

/// The candidate path for a resource reference: the parent directory of the
/// invoking file, joined with the reference.
pub open spec fn resolve_spec(call_site_file: Seq<char>, reference: Seq<char>) -> Seq<char> {
    join_paths(parent_dir(call_site_file), reference)
}

proof fn lemma_last_sep_props(p: Seq<char>)
    requires
        last_sep_index(p) >= 0,
    ensures
        last_sep_index(p) < p.len(),
        p[last_sep_index(p)] == '/',
        forall|j: int| last_sep_index(p) < j < p.len() ==> p[j] != '/',
    decreases p.len(),
{
    if p.len() == 0 {
    } else if p[p.len() - 1] == '/' {
    } else {
        lemma_last_sep_props(p.drop_last());
        assert forall|j: int| last_sep_index(p) < j < p.len() implies p[j] != '/' by {
            if j < p.len() - 1 {
                assert(p.drop_last()[j] == p[j]);
            }
        }
    }
}

/// Produces the resolved candidate path for `reference`, interpreted relative
/// to the directory containing `call_site_file`. Purely computed: the result
/// is never checked for existence here.
pub fn resolve(call_site_file: &str, reference: &str) -> (r: String)
    requires
        has_parent_dir(call_site_file@),
    ensures
        r@ == resolve_spec(call_site_file@, reference@),
{
    proof {
        lemma_last_sep_props(call_site_file@);
    }
    let ghost k: int = last_sep_index(call_site_file@);
    let n = call_site_file.unicode_len();
    let mut i: usize = n;
    while call_site_file.get_char(i - 1) != '/'
        invariant
            k + 1 <= i <= n,
            n == call_site_file@.len(),
            k == last_sep_index(call_site_file@),
            k >= 1,
            call_site_file@[k] == '/',
            forall|j: int| k < j < n ==> call_site_file@[j] != '/',
        decreases i,
    {
        i = i - 1;
    }
    assert(i - 1 == k);
    let parent = call_site_file.substring_char(0, i - 1);
    let ref_len = reference.unicode_len();
    if ref_len > 0 && reference.get_char(0) == '/' {
        reference.to_owned()
    } else {
        let mut r = parent.to_owned();
        r.append("/");
        r.append(reference);
        proof {
            reveal_strlit("/");
            assert(("/")@ =~= seq!['/']);
            assert(r@ =~= resolve_spec(call_site_file@, reference@));
        }
        r
    }
}

} // verus!
