//! The order of a run's problems: by the relative path each one concerns,
//! keeping the order in which they were found among equal paths.

use vstd::prelude::*;
use vstd::string::*;
use crate::nixpkgs_problem::{views, NixpkgsProblem, ProblemView};
use crate::structure::{package_dir_of, relative_dir_for_package};

verus! {

/// The relative path a problem concerns: a shard or package directory, or
/// the definition file a problem names, or else the directory of the
/// package the attribute is named after.
pub open spec fn problem_key(p: ProblemView) -> Seq<char> {
    match p {
        ProblemView::ShardNonDir { relative_shard_path } => relative_shard_path,
        ProblemView::InvalidShardName { relative_shard_path, .. } => relative_shard_path,
        ProblemView::CaseSensitiveDuplicate { relative_shard_path, .. } => relative_shard_path,
        ProblemView::PackageNonDir { relative_package_dir } => relative_package_dir,
        ProblemView::InvalidPackageName { relative_package_dir, .. } => relative_package_dir,
        ProblemView::IncorrectShard { relative_package_dir, .. } => relative_package_dir,
        ProblemView::PackageNixNonExistent { relative_package_dir } => relative_package_dir,
        ProblemView::PackageNixDir { relative_package_dir } => relative_package_dir,
        ProblemView::UndefinedAttr { package_name, .. } => package_dir_of(package_name),
        ProblemView::WrongCallPackage { package_name, .. } => package_dir_of(package_name),
        ProblemView::WrongCallPackagePath { package_name, .. } => package_dir_of(package_name),
        ProblemView::NonSyntacticCallPackage { package_name, .. } => package_dir_of(package_name),
        ProblemView::NonDerivation { package_name, .. } => package_dir_of(package_name),
        ProblemView::OutsideSymlink { relative_package_dir, .. } => relative_package_dir,
        ProblemView::UnresolvableSymlink { relative_package_dir, .. } => relative_package_dir,
        ProblemView::PathInterpolation { relative_package_dir, .. } => relative_package_dir,
        ProblemView::SearchPath { relative_package_dir, .. } => relative_package_dir,
        ProblemView::OutsidePathReference { relative_package_dir, .. } => relative_package_dir,
        ProblemView::UnresolvablePathReference { relative_package_dir, .. } => relative_package_dir,
        ProblemView::MovedOutOfByName { package_name, .. } => package_dir_of(package_name),
        ProblemView::NewPackageNotUsingByName { package_name, .. } => package_dir_of(package_name),
        ProblemView::InternalCallPackageUsed { attr_name } => package_dir_of(attr_name),
        ProblemView::CannotDetermineAttributeLocation { attr_name } => package_dir_of(attr_name),
    }
}

/// `a` comes no later than `b`, character code by character code (the
/// byte order of their UTF-8 text).
pub open spec fn text_le(a: Seq<char>, b: Seq<char>) -> bool
    decreases a.len(),
{
    if a.len() == 0 {
        true
    } else if b.len() == 0 {
        false
    } else if a[0] != b[0] {
        (a[0] as u32) < (b[0] as u32)
    } else {
        text_le(a.drop_first(), b.drop_first())
    }
}

/// `x` put into `sorted` after every problem whose key is not greater.
pub open spec fn insert_by_key(sorted: Seq<ProblemView>, x: ProblemView) -> Seq<ProblemView>
    decreases sorted.len(),
{
    if sorted.len() == 0 {
        seq![x]
    } else if text_le(problem_key(sorted.last()), problem_key(x)) {
        sorted.push(x)
    } else {
        insert_by_key(sorted.drop_last(), x).push(sorted.last())
    }
}

/// The problems ordered by key; among equal keys, in the order given.
pub open spec fn sort_by_key(s: Seq<ProblemView>) -> Seq<ProblemView>
    decreases s.len(),
{
    if s.len() == 0 {
        Seq::empty()
    } else {
        insert_by_key(sort_by_key(s.drop_last()), s.last())
    }
}

proof fn lemma_text_le_suffix(a: Seq<char>, b: Seq<char>, i: int)
    requires
        0 <= i <= a.len(),
        i <= b.len(),
        a.take(i) == b.take(i),
    ensures
        text_le(a, b) == text_le(a.skip(i), b.skip(i)),
    decreases i,
{
    if i > 0 {
        assert(a[0] == a.take(i)[0]);
        assert(b[0] == b.take(i)[0]);
        assert(a.drop_first().take(i - 1) =~= a.take(i).drop_first());
        assert(b.drop_first().take(i - 1) =~= b.take(i).drop_first());
        lemma_text_le_suffix(a.drop_first(), b.drop_first(), i - 1);
        assert(a.drop_first().skip(i - 1) =~= a.skip(i));
        assert(b.drop_first().skip(i - 1) =~= b.skip(i));
    } else {
        assert(a.skip(0) =~= a);
        assert(b.skip(0) =~= b);
    }
}

/// Whether `a` comes no later than `b`.
pub fn text_le_exec(a: &str, b: &str) -> (r: bool)
    ensures
        r == text_le(a@, b@),
{
    let n = a.unicode_len();
    let m = b.unicode_len();
    let mut i: usize = 0;
    while i < n && i < m
        invariant
            n == a@.len(),
            m == b@.len(),
            i <= n,
            i <= m,
            a@.take(i as int) == b@.take(i as int),
        decreases n - i,
    {
        let x = a.get_char(i);
        let y = b.get_char(i);
        if x != y {
            proof {
                lemma_text_le_suffix(a@, b@, i as int);
                assert(a@.skip(i as int)[0] == x);
                assert(b@.skip(i as int)[0] == y);
            }
            return (x as u32) < (y as u32);
        }
        assert(a@.take(i + 1) =~= a@.take(i as int).push(x));
        assert(b@.take(i + 1) =~= b@.take(i as int).push(y));
        i = i + 1;
    }
    proof {
        lemma_text_le_suffix(a@, b@, i as int);
    }
    i == n
}

/// The key of a problem.
pub fn key_of(p: &NixpkgsProblem) -> (r: String)
    ensures
        r@ == problem_key(p@),
{
    match p {
        NixpkgsProblem::ShardNonDir { relative_shard_path } => relative_shard_path.clone(),
        NixpkgsProblem::InvalidShardName { relative_shard_path, .. } => relative_shard_path.clone(),
        NixpkgsProblem::CaseSensitiveDuplicate { relative_shard_path, .. } =>
            relative_shard_path.clone(),
        NixpkgsProblem::PackageNonDir { relative_package_dir } => relative_package_dir.clone(),
        NixpkgsProblem::InvalidPackageName { relative_package_dir, .. } =>
            relative_package_dir.clone(),
        NixpkgsProblem::IncorrectShard { relative_package_dir, .. } => relative_package_dir.clone(),
        NixpkgsProblem::PackageNixNonExistent { relative_package_dir } =>
            relative_package_dir.clone(),
        NixpkgsProblem::PackageNixDir { relative_package_dir } => relative_package_dir.clone(),
        NixpkgsProblem::UndefinedAttr { package_name, .. } => relative_dir_for_package(
            package_name.as_str(),
        ),
        NixpkgsProblem::WrongCallPackage { package_name, .. } => relative_dir_for_package(
            package_name.as_str(),
        ),
        NixpkgsProblem::WrongCallPackagePath { package_name, .. } => relative_dir_for_package(
            package_name.as_str(),
        ),
        NixpkgsProblem::NonSyntacticCallPackage { package_name, .. } => relative_dir_for_package(
            package_name.as_str(),
        ),
        NixpkgsProblem::NonDerivation { package_name, .. } => relative_dir_for_package(
            package_name.as_str(),
        ),
        NixpkgsProblem::OutsideSymlink { relative_package_dir, .. } => relative_package_dir.clone(),
        NixpkgsProblem::UnresolvableSymlink { relative_package_dir, .. } =>
            relative_package_dir.clone(),
        NixpkgsProblem::PathInterpolation { relative_package_dir, .. } =>
            relative_package_dir.clone(),
        NixpkgsProblem::SearchPath { relative_package_dir, .. } => relative_package_dir.clone(),
        NixpkgsProblem::OutsidePathReference { relative_package_dir, .. } =>
            relative_package_dir.clone(),
        NixpkgsProblem::UnresolvablePathReference { relative_package_dir, .. } =>
            relative_package_dir.clone(),
        NixpkgsProblem::MovedOutOfByName { package_name, .. } => relative_dir_for_package(
            package_name.as_str(),
        ),
        NixpkgsProblem::NewPackageNotUsingByName { package_name, .. } => relative_dir_for_package(
            package_name.as_str(),
        ),
        NixpkgsProblem::InternalCallPackageUsed { attr_name } => relative_dir_for_package(
            attr_name.as_str(),
        ),
        NixpkgsProblem::CannotDetermineAttributeLocation { attr_name } => relative_dir_for_package(
            attr_name.as_str(),
        ),
    }
}

proof fn lemma_insert_at(sorted: Seq<ProblemView>, x: ProblemView, p: int)
    requires
        0 <= p <= sorted.len(),
        forall|j: int| p <= j < sorted.len() ==> !text_le(problem_key(#[trigger] sorted[j]), problem_key(x)),
        p == 0 || text_le(problem_key(sorted[p - 1]), problem_key(x)),
    ensures
        insert_by_key(sorted, x) == sorted.take(p) + seq![x] + sorted.skip(p),
    decreases sorted.len(),
{
    if sorted.len() == 0 {
        assert(sorted.take(p) + seq![x] + sorted.skip(p) =~= seq![x]);
    } else if p == sorted.len() {
        assert(sorted.take(p) + seq![x] + sorted.skip(p) =~= sorted.push(x));
    } else {
        let last = sorted.last();
        assert(!text_le(problem_key(sorted[sorted.len() - 1]), problem_key(x)));
        let rest = sorted.drop_last();
        assert forall|j: int| p <= j < rest.len() implies !text_le(
            problem_key(#[trigger] rest[j]),
            problem_key(x),
        ) by {
            assert(rest[j] == sorted[j]);
        }
        if p > 0 {
            assert(rest[p - 1] == sorted[p - 1]);
        }
        lemma_insert_at(rest, x, p);
        assert((rest.take(p) + seq![x] + rest.skip(p)).push(last) =~= sorted.take(p) + seq![x]
            + sorted.skip(p));
    }
}

/// Orders problems by the path they concern, keeping the order in which
/// they were found among equal paths.
pub fn sort_problems(problems: Vec<NixpkgsProblem>) -> (r: Vec<NixpkgsProblem>)
    ensures
        views(r@) == sort_by_key(views(problems@)),
{
    let ghost all = views(problems@);
    let mut rest = problems;
    let mut r: Vec<NixpkgsProblem> = Vec::new();
    let mut keys: Vec<String> = Vec::new();
    let n = rest.len();
    let mut i: usize = 0;
    assert(all.take(0) =~= Seq::<ProblemView>::empty());
    while i < n
        invariant
            i <= n,
            n == all.len(),
            views(rest@) == all.skip(i as int),
            views(r@) == sort_by_key(all.take(i as int)),
            keys@.len() == r@.len(),
            forall|j: int| 0 <= j < r@.len() ==> (#[trigger] keys@[j])@ == problem_key(r@[j]@),
        decreases n - i,
    {
        let ghost old_rest = rest@;
        assert(views(old_rest).len() == old_rest.len());
        assert(views(old_rest)[0] == all[i as int]);
        let x = rest.remove(0);
        assert(views(rest@) =~= views(old_rest).skip(1));
        assert(views(old_rest).skip(1) =~= all.skip(i + 1));
        let kx = key_of(&x);
        let ghost sorted = views(r@);
        let mut p = r.len();
        while p > 0 && !text_le_exec(keys[p - 1].as_str(), kx.as_str())
            invariant
                p <= r@.len(),
                keys@.len() == r@.len(),
                sorted == views(r@),
                forall|j: int| 0 <= j < r@.len() ==> (#[trigger] keys@[j])@ == problem_key(r@[j]@),
                kx@ == problem_key(x@),
                forall|j: int| p <= j < sorted.len() ==> !text_le(problem_key(#[trigger] sorted[j]), problem_key(x@)),
            decreases p,
        {
            assert(sorted[p - 1] == r@[p - 1]@);
            p = p - 1;
        }
        proof {
            if p > 0 {
                assert(sorted[p - 1] == r@[p - 1]@);
            }
            lemma_insert_at(sorted, x@, p as int);
            assert(all.take(i + 1).drop_last() =~= all.take(i as int));
            assert(all.take(i + 1).last() == x@);
        }
        let ghost old_r = r@;
        let ghost old_keys = keys@;
        r.insert(p, x);
        keys.insert(p, kx);
        assert(views(r@) =~= sorted.take(p as int) + seq![x@] + sorted.skip(p as int));
        assert forall|j: int| 0 <= j < r@.len() implies (#[trigger] keys@[j])@ == problem_key(r@[j]@) by {
            if j < p {
                assert(keys@[j] == old_keys[j] && r@[j] == old_r[j]);
            } else if j > p {
                assert(keys@[j] == old_keys[j - 1] && r@[j] == old_r[j - 1]);
            }
        }
        i = i + 1;
    }
    assert(all.take(n as int) =~= all);
    r
}

} // verus!
