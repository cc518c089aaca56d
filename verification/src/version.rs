//! The version that the Python package reports.
use vstd::prelude::*;

use crate::text::replace_all;

verus! {

/// The package version `version` as Python writes it: `-alpha` is written `a`
/// and `-beta` is written `b`.
pub open spec fn python_version(version: Seq<char>) -> Seq<char> {
    crate::text::replaced(crate::text::replaced(version, "-alpha"@, "a"@), "-beta"@, "b"@)
}

/// Rewrites the version of the package for Python.
pub fn get_version(version: &str) -> (out: String)
    ensures
        out@ == python_version(version@),
{
    proof {
        reveal_strlit("-alpha");
        reveal_strlit("-beta");
    }
    replace_all(replace_all(version, "-alpha", "a").as_str(), "-beta", "b")
}

/// A version of a final release, in which neither `-alpha` nor `-beta` occurs,
/// is the same in Python.
pub proof fn final_release_unchanged(version: Seq<char>)
    requires
        forall|at: int| !crate::text::occurs_at(version, "-alpha"@, at),
        forall|at: int| !crate::text::occurs_at(version, "-beta"@, at),
    ensures
        python_version(version) == version,
{
    reveal_strlit("-alpha");
    reveal_strlit("-beta");
    crate::text::replaced_without_occurrence(version, "-alpha"@, "a"@);
    crate::text::replaced_without_occurrence(version, "-beta"@, "b"@);
}

/// A version of a pre-release is that of the release with `a` or `b` in place of
/// `-alpha` or `-beta`.
pub proof fn pre_release_is_abbreviated(release: Seq<char>, rest: Seq<char>)
    requires
        forall|i: int| 0 <= i < release.len() ==> #[trigger] release[i] != '-',
        forall|i: int| 0 <= i < rest.len() ==> #[trigger] rest[i] != '-',
    ensures
        python_version(release + "-alpha"@ + rest) == release + "a"@ + rest,
        python_version(release + "-beta"@ + rest) == release + "b"@ + rest,
{
    reveal_strlit("-alpha");
    reveal_strlit("-beta");
    reveal_strlit("a");
    reveal_strlit("b");
    let alpha = release + "-alpha"@ + rest;
    let beta = release + "-beta"@ + rest;
    let short = release + "a"@ + rest;
    assert forall|at: int| 0 <= at < release.len() implies !(#[trigger] crate::text::occurs_at(
        alpha,
        "-alpha"@,
        at,
    )) by {
        assert(release[at] != '-');
        crate::text::occurrence_is_character_by_character(alpha, "-alpha"@, at);
        assert("-alpha"@[0] == '-');
    }
    assert forall|at: int| !crate::text::occurs_at(rest, "-alpha"@, at) by {
        crate::text::occurrence_is_character_by_character(rest, "-alpha"@, at);
        assert("-alpha"@[0] == '-');
    }
    assert forall|at: int| !crate::text::occurs_at(short, "-beta"@, at) by {
        crate::text::occurrence_is_character_by_character(short, "-beta"@, at);
        assert("-beta"@[0] == '-');
    }
    crate::text::first_occurrence_is_replaced(release, "-alpha"@, "a"@, rest);
    crate::text::replaced_without_occurrence(rest, "-alpha"@, "a"@);
    crate::text::replaced_without_occurrence(short, "-beta"@, "b"@);
    assert forall|at: int| !crate::text::occurs_at(beta, "-alpha"@, at) by {
        crate::text::occurrence_is_character_by_character(beta, "-alpha"@, at);
        assert("-alpha"@[0] == '-');
        assert("-alpha"@[1] == 'a');
    }
    assert forall|at: int| 0 <= at < release.len() implies !(#[trigger] crate::text::occurs_at(
        beta,
        "-beta"@,
        at,
    )) by {
        assert(release[at] != '-');
        crate::text::occurrence_is_character_by_character(beta, "-beta"@, at);
        assert("-beta"@[0] == '-');
    }
    assert forall|at: int| !crate::text::occurs_at(rest, "-beta"@, at) by {
        crate::text::occurrence_is_character_by_character(rest, "-beta"@, at);
        assert("-beta"@[0] == '-');
    }
    crate::text::replaced_without_occurrence(beta, "-alpha"@, "a"@);
    crate::text::first_occurrence_is_replaced(release, "-beta"@, "b"@, rest);
    crate::text::replaced_without_occurrence(rest, "-beta"@, "b"@);
}

} // verus!
