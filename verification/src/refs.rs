//! Naming of git refs.

use vstd::prelude::*;
use crate::text::{has_prefix, starts_with};

verus! {

/// A ref in normal form names a branch or a tag.
pub open spec fn is_normal_ref(r: Seq<char>) -> bool {
    has_prefix(r, "heads/"@) || has_prefix(r, "tags/"@)
}

/// The normal form of a ref: names under `heads/` or `tags/` are kept, a
/// leading `refs/` is dropped, and any name that is then still not under
/// `heads/` or `tags/` is taken as a branch.
pub open spec fn spec_normalize_ref(r: Seq<char>) -> Seq<char> {
    if is_normal_ref(r) {
        r
    } else if has_prefix(r, "refs/"@) {
        if is_normal_ref(r.skip(5)) {
            r.skip(5)
        } else {
            "heads/"@ + r.skip(5)
        }
    } else {
        "heads/"@ + r
    }
}

/// Normalize a ref to `heads/<ref>` or `tags/<ref>` format.
pub fn normalize_ref(git_ref: &str) -> (out: String)
    ensures
        out@ == spec_normalize_ref(git_ref@),
{
    proof {
        reveal_strlit("heads/");
        reveal_strlit("tags/");
        reveal_strlit("refs/");
    }
    if starts_with(git_ref, "heads/") || starts_with(git_ref, "tags/") {
        String::from_str(git_ref)
    } else if starts_with(git_ref, "refs/") {
        let n = git_ref.unicode_len();
        let rest = git_ref.substring_char(5, n);
        proof {
            assert(rest@ =~= git_ref@.skip(5));
        }
        if starts_with(rest, "heads/") || starts_with(rest, "tags/") {
            String::from_str(rest)
        } else {
            String::from_str("heads/").concat(rest)
        }
    } else {
        String::from_str("heads/").concat(git_ref)
    }
}

/// `"heads/"` followed by any name is in normal form.
proof fn lemma_heads_prefix_normal(name: Seq<char>)
    ensures
        is_normal_ref("heads/"@ + name),
{
    reveal_strlit("heads/");
    assert(("heads/"@ + name).subrange(0, 6) =~= "heads/"@);
}

/// Every ref normalizes to `heads/<ref>` or `tags/<ref>` form.
pub proof fn lemma_normalize_ref_gives_normal_form(r: Seq<char>)
    ensures
        is_normal_ref(spec_normalize_ref(r)),
{
    if !is_normal_ref(r) {
        if has_prefix(r, "refs/"@) {
            lemma_heads_prefix_normal(r.skip(5));
        } else {
            lemma_heads_prefix_normal(r);
        }
    }
}

/// Normalizing is idempotent: a ref in normal form is left as it is, so
/// normalizing twice is normalizing once.
pub proof fn lemma_normalize_ref_idempotent(r: Seq<char>)
    ensures
        is_normal_ref(r) ==> spec_normalize_ref(r) == r,
        spec_normalize_ref(spec_normalize_ref(r)) == spec_normalize_ref(r),
{
    lemma_normalize_ref_gives_normal_form(r);
}

/// A full ref name `refs/<name>` normalizes as `<name>` does when `<name>`
/// is in normal form, and as the branch `heads/<name>` otherwise; a short
/// name outside `heads/`, `tags/` and `refs/` is taken as a branch.
pub proof fn lemma_normalize_full_and_short_names(name: Seq<char>)
    ensures
        is_normal_ref(name) ==> spec_normalize_ref("refs/"@ + name) == name,
        !is_normal_ref(name) ==> spec_normalize_ref("refs/"@ + name) == "heads/"@ + name,
        !is_normal_ref(name) && !has_prefix(name, "refs/"@) ==> spec_normalize_ref(name)
            == "heads/"@ + name,
{
    reveal_strlit("heads/");
    reveal_strlit("tags/");
    reveal_strlit("refs/");
    let full = "refs/"@ + name;
    assert(full.subrange(0, 5) =~= "refs/"@);
    assert(full.skip(5) =~= name);
    if has_prefix(full, "heads/"@) {
        assert(full.subrange(0, 6)[0] == full[0]);
    }
    if has_prefix(full, "tags/"@) {
        assert(full.subrange(0, 5)[0] == full[0]);
    }
}

} // verus!
