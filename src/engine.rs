//! The whole check: the structural phase, then each package's attribute and
//! containment findings, then the attributes that no by-name directory
//! backs, merged in that fixed order.

use vstd::prelude::*;
use vstd::string::*;
use crate::attributes::{
    by_name_attribute_problem, check_by_name_attribute, check_manual_attribute,
    manual_attribute_problem, opt_problem_view, AttributeDefinition,
};
use crate::containment::{
    check_path_reference, check_symlink, reference_problem, symlink_problem, PathReference,
    Resolution,
};
use crate::nixpkgs_problem::{append_problems, push_problem, views, NixpkgsProblem, ProblemView};
use crate::order::{sort_by_key, sort_problems};
use crate::structure::{package_dir_in, relative_dir_for_shard};
use crate::tree::{check_tree, tree_problems, ShardEntry};

verus! {

/// A symlink inside a package directory, at `subpath` below it.
#[derive(Clone, Debug)]
pub struct SymlinkFinding {
    pub subpath: String,
    pub resolution: Resolution,
}

/// A path reference in the source file at `subpath` below a package
/// directory.
#[derive(Clone, Debug)]
pub struct ReferenceFinding {
    pub subpath: String,
    pub reference: PathReference,
}

/// What the evaluator and the file walk found for one package directory of
/// the tree.
#[derive(Clone, Debug)]
pub struct PackageFindings {
    pub shard: String,
    pub package_name: String,
    pub attribute: AttributeDefinition,
    pub symlinks: Vec<SymlinkFinding>,
    pub references: Vec<ReferenceFinding>,
}

/// An attribute that no by-name directory backs.
#[derive(Clone, Debug)]
pub struct ManualAttribute {
    pub name: String,
    pub definition: AttributeDefinition,
    pub previously_by_name: bool,
}

pub open spec fn opt_seq(p: Option<ProblemView>) -> Seq<ProblemView> {
    match p {
        Some(q) => seq![q],
        None => Seq::empty(),
    }
}

pub open spec fn symlinks_problems(dir: Seq<char>, s: Seq<SymlinkFinding>) -> Seq<ProblemView>
    decreases s.len(),
{
    if s.len() == 0 {
        Seq::empty()
    } else {
        symlinks_problems(dir, s.drop_last()) + opt_seq(
            symlink_problem(dir, s.last().subpath@, s.last().resolution),
        )
    }
}

pub open spec fn references_problems(dir: Seq<char>, s: Seq<ReferenceFinding>) -> Seq<ProblemView>
    decreases s.len(),
{
    if s.len() == 0 {
        Seq::empty()
    } else {
        references_problems(dir, s.drop_last()) + opt_seq(
            reference_problem(dir, s.last().subpath@, s.last().reference),
        )
    }
}

/// The problems of one package: its attribute, then its symlinks, then its
/// path references, each in the order found.
pub open spec fn findings_problems(f: PackageFindings) -> Seq<ProblemView> {
    let dir = package_dir_in(f.shard@, f.package_name@);
    opt_seq(by_name_attribute_problem(f.package_name@, f.attribute)) + symlinks_problems(
        dir,
        f.symlinks@,
    ) + references_problems(dir, f.references@)
}

pub open spec fn all_findings_problems(fs: Seq<PackageFindings>) -> Seq<ProblemView>
    decreases fs.len(),
{
    if fs.len() == 0 {
        Seq::empty()
    } else {
        all_findings_problems(fs.drop_last()) + findings_problems(fs.last())
    }
}

pub open spec fn manual_problems(ms: Seq<ManualAttribute>) -> Seq<ProblemView>
    decreases ms.len(),
{
    if ms.len() == 0 {
        Seq::empty()
    } else {
        manual_problems(ms.drop_last()) + opt_seq(
            manual_attribute_problem(ms.last().name@, ms.last().definition, ms.last().previously_by_name),
        )
    }
}

/// Every problem of a run, phase after phase.
pub open spec fn all_problems(
    shards: Seq<ShardEntry>,
    packages: Seq<PackageFindings>,
    manual: Seq<ManualAttribute>,
) -> Seq<ProblemView> {
    tree_problems(shards) + all_findings_problems(packages) + manual_problems(manual)
}

fn push_opt(r: &mut Vec<NixpkgsProblem>, p: Option<NixpkgsProblem>)
    ensures
        views(final(r)@) == views(old(r)@) + opt_seq(opt_problem_view(p)),
{
    match p {
        Some(q) => push_problem(r, q),
        None => {
            assert(views(r@) =~= views(r@) + opt_seq(opt_problem_view(p)));
        },
    }
}

/// Checks what was found for one package.
pub fn check_findings(f: &PackageFindings) -> (r: Vec<NixpkgsProblem>)
    ensures
        views(r@) == findings_problems(*f),
{
    let dir = relative_dir_for_shard(f.shard.as_str()).concat("/").concat(f.package_name.as_str());
    let mut r: Vec<NixpkgsProblem> = Vec::new();
    push_opt(&mut r, check_by_name_attribute(f.package_name.as_str(), &f.attribute));
    assert(views(r@) =~= opt_seq(by_name_attribute_problem(f.package_name@, f.attribute)));
    let ghost head = views(r@);
    let n = f.symlinks.len();
    let mut i: usize = 0;
    assert(f.symlinks@.take(0) =~= Seq::<SymlinkFinding>::empty());
    while i < n
        invariant
            i <= n,
            n == f.symlinks@.len(),
            dir@ == package_dir_in(f.shard@, f.package_name@),
            views(r@) == head + symlinks_problems(dir@, f.symlinks@.take(i as int)),
        decreases n - i,
    {
        let s = &f.symlinks[i];
        push_opt(&mut r, check_symlink(dir.as_str(), s.subpath.as_str(), &s.resolution));
        assert(f.symlinks@.take(i + 1).drop_last() =~= f.symlinks@.take(i as int));
        assert(views(r@) =~= head + symlinks_problems(dir@, f.symlinks@.take(i + 1)));
        i = i + 1;
    }
    assert(f.symlinks@.take(n as int) =~= f.symlinks@);
    let ghost mid = views(r@);
    let m = f.references.len();
    let mut k: usize = 0;
    assert(f.references@.take(0) =~= Seq::<ReferenceFinding>::empty());
    while k < m
        invariant
            k <= m,
            m == f.references@.len(),
            dir@ == package_dir_in(f.shard@, f.package_name@),
            views(r@) == mid + references_problems(dir@, f.references@.take(k as int)),
        decreases m - k,
    {
        let x = &f.references[k];
        push_opt(&mut r, check_path_reference(dir.as_str(), x.subpath.as_str(), &x.reference));
        assert(f.references@.take(k + 1).drop_last() =~= f.references@.take(k as int));
        assert(views(r@) =~= mid + references_problems(dir@, f.references@.take(k + 1)));
        k = k + 1;
    }
    assert(f.references@.take(m as int) =~= f.references@);
    r
}

/// Runs every phase and puts their problems one after the other: the
/// tree's structure, then each package's findings in order, then the manual
/// attributes in order.
pub fn collect_problems(
    shards: &Vec<ShardEntry>,
    packages: &Vec<PackageFindings>,
    manual: &Vec<ManualAttribute>,
) -> (r: Vec<NixpkgsProblem>)
    ensures
        views(r@) == all_problems(shards@, packages@, manual@),
{
    let mut r = check_tree(shards);
    let ghost head = views(r@);
    let n = packages.len();
    let mut i: usize = 0;
    assert(packages@.take(0) =~= Seq::<PackageFindings>::empty());
    while i < n
        invariant
            i <= n,
            n == packages@.len(),
            head == tree_problems(shards@),
            views(r@) == head + all_findings_problems(packages@.take(i as int)),
        decreases n - i,
    {
        append_problems(&mut r, check_findings(&packages[i]));
        assert(packages@.take(i + 1).drop_last() =~= packages@.take(i as int));
        assert(views(r@) =~= head + all_findings_problems(packages@.take(i + 1)));
        i = i + 1;
    }
    assert(packages@.take(n as int) =~= packages@);
    let ghost mid = views(r@);
    let m = manual.len();
    let mut k: usize = 0;
    assert(manual@.take(0) =~= Seq::<ManualAttribute>::empty());
    while k < m
        invariant
            k <= m,
            m == manual@.len(),
            mid == tree_problems(shards@) + all_findings_problems(packages@),
            views(r@) == mid + manual_problems(manual@.take(k as int)),
        decreases m - k,
    {
        let a = &manual[k];
        push_opt(
            &mut r,
            check_manual_attribute(a.name.as_str(), &a.definition, a.previously_by_name),
        );
        assert(manual@.take(k + 1).drop_last() =~= manual@.take(k as int));
        assert(views(r@) =~= mid + manual_problems(manual@.take(k + 1)));
        k = k + 1;
    }
    assert(manual@.take(m as int) =~= manual@);
    r
}

/// The problems of a run, ordered by the path each concerns, then by
/// phase, then in the order found.
pub open spec fn run_problems(
    shards: Seq<ShardEntry>,
    packages: Seq<PackageFindings>,
    manual: Seq<ManualAttribute>,
) -> Seq<ProblemView> {
    sort_by_key(all_problems(shards, packages, manual))
}

/// Runs the whole check. The run passes when the result is empty.
pub fn check_all(
    shards: &Vec<ShardEntry>,
    packages: &Vec<PackageFindings>,
    manual: &Vec<ManualAttribute>,
) -> (r: Vec<NixpkgsProblem>)
    ensures
        views(r@) == run_problems(shards@, packages@, manual@),
{
    sort_problems(collect_problems(shards, packages, manual))
}

} // verus!
