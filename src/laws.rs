//! Properties of the whole check, proved over the specifications of its
//! phases.

use vstd::prelude::*;
use crate::attributes::{by_name_attribute_problem, AttributeDefinition};
use crate::containment::{path_within, reference_problem, symlink_problem, PathReference, Resolution};
use crate::engine::{
    all_findings_problems, all_problems, findings_problems, manual_problems, opt_seq, references_problems,
    run_problems, symlinks_problems, ManualAttribute, PackageFindings, ReferenceFinding, SymlinkFinding,
};
use crate::nixpkgs_problem::ProblemView;
use crate::order::{insert_by_key, problem_key, sort_by_key, text_le};
use crate::structure::{
    package_dir_in, package_dir_of, package_file_of, shard_dir_of, shard_of, valid_package_name,
    valid_shard_name,
};
use crate::tree::{
    duplicates_upto, first_same, package_problems, packages_upto, same_ignoring_case,
    shard_problems, tree_problems, PackageEntry, PackageFileState, ShardEntry,
};

verus! {

/// A package directory that follows every rule of its shard.
pub open spec fn conformant_package(shard: Seq<char>, e: PackageEntry) -> bool {
    e.is_dir && valid_package_name(e.name@) && shard_of(e.name@) == shard && e.package_file
        == PackageFileState::File
}

/// A shard that follows every rule: a directory with a valid name, whose
/// entries are conformant and pairwise different up to case.
pub open spec fn conformant_shard(s: ShardEntry) -> bool {
    &&& s.is_dir
    &&& valid_shard_name(s.name@)
    &&& forall|i: int| 0 <= i < s.packages@.len() ==> conformant_package(s.name@, #[trigger] s.packages@[i])
    &&& forall|i: int, j: int|
        0 <= i < j < s.packages@.len() ==> !same_ignoring_case(
            #[trigger] s.packages@[i].name@,
            #[trigger] s.packages@[j].name@,
        )
}

/// A symlink that resolves inside `dir`.
pub open spec fn symlink_stays(dir: Seq<char>, s: SymlinkFinding) -> bool {
    match s.resolution {
        Resolution::Resolved { target } => path_within(target@, dir),
        Resolution::Failed { .. } => false,
    }
}

/// A literal path reference that resolves inside `dir`.
pub open spec fn reference_stays(dir: Seq<char>, r: ReferenceFinding) -> bool {
    match r.reference {
        PathReference::Literal { resolution, .. } => match resolution {
            Resolution::Resolved { target } => path_within(target@, dir),
            Resolution::Failed { .. } => false,
        },
        _ => false,
    }
}

/// A package whose attribute is wired by name to a derivation, and whose
/// symlinks and literal paths all stay inside its directory.
pub open spec fn conformant_findings(f: PackageFindings) -> bool {
    let dir = package_dir_in(f.shard@, f.package_name@);
    &&& match f.attribute {
        AttributeDefinition::ByNameFile { is_derivation } => is_derivation,
        AttributeDefinition::CallPackage { path, empty_arg, .. } => !empty_arg && (path matches Some(p)
            && p@ == package_file_of(f.package_name@)),
        _ => false,
    }
    &&& forall|i: int| 0 <= i < f.symlinks@.len() ==> symlink_stays(dir, #[trigger] f.symlinks@[i])
    &&& forall|i: int| 0 <= i < f.references@.len() ==> reference_stays(dir, #[trigger] f.references@[i])
}

/// An attribute outside the tree that is neither a `callPackage` call nor
/// the internal helper.
pub open spec fn conformant_manual(m: ManualAttribute) -> bool {
    !(m.definition is InternalHelper) && !(m.definition is CallPackage)
}

proof fn lemma_no_first_same(entries: Seq<PackageEntry>, j: int, k: int)
    requires
        0 <= k <= j < entries.len(),
        forall|i: int| 0 <= i < j ==> !same_ignoring_case(#[trigger] entries[i].name@, entries[j].name@),
    ensures
        first_same(entries, entries[j].name@, k) == -1,
    decreases k,
{
    if k > 0 {
        lemma_no_first_same(entries, j, k - 1);
    }
}

proof fn lemma_shard_prefix_clean(s: ShardEntry, k: int)
    requires
        conformant_shard(s),
        0 <= k <= s.packages@.len(),
    ensures
        duplicates_upto(s.name@, s.packages@, k) == Seq::<ProblemView>::empty(),
        packages_upto(s.name@, s.packages@, k) == Seq::<ProblemView>::empty(),
    decreases k,
{
    if k > 0 {
        let entries = s.packages@;
        let j = k - 1;
        lemma_shard_prefix_clean(s, j);
        assert forall|i: int| 0 <= i < j implies !same_ignoring_case(
            #[trigger] entries[i].name@,
            entries[j].name@,
        ) by {
            assert(!same_ignoring_case(s.packages@[i].name@, s.packages@[j].name@));
        }
        lemma_no_first_same(entries, j, j);
        assert(conformant_package(s.name@, entries[j]));
        assert(package_problems(s.name@, entries[j]) =~= Seq::<ProblemView>::empty());
        assert(duplicates_upto(s.name@, entries, k) =~= Seq::<ProblemView>::empty());
        assert(packages_upto(s.name@, entries, k) =~= Seq::<ProblemView>::empty());
    }
}

proof fn lemma_conformant_shard_clean(s: ShardEntry)
    requires
        conformant_shard(s),
    ensures
        shard_problems(s) == Seq::<ProblemView>::empty(),
{
    lemma_shard_prefix_clean(s, s.packages@.len() as int);
    assert(shard_problems(s) =~= Seq::<ProblemView>::empty());
}

proof fn lemma_symlinks_clean(dir: Seq<char>, ss: Seq<SymlinkFinding>)
    requires
        forall|i: int| 0 <= i < ss.len() ==> symlink_stays(dir, #[trigger] ss[i]),
    ensures
        symlinks_problems(dir, ss) == Seq::<ProblemView>::empty(),
    decreases ss.len(),
{
    if ss.len() > 0 {
        lemma_symlinks_clean(dir, ss.drop_last());
        assert(symlink_stays(dir, ss[ss.len() - 1]));
        assert(symlinks_problems(dir, ss) =~= Seq::<ProblemView>::empty());
    }
}

proof fn lemma_references_clean(dir: Seq<char>, rs: Seq<ReferenceFinding>)
    requires
        forall|i: int| 0 <= i < rs.len() ==> reference_stays(dir, #[trigger] rs[i]),
    ensures
        references_problems(dir, rs) == Seq::<ProblemView>::empty(),
    decreases rs.len(),
{
    if rs.len() > 0 {
        lemma_references_clean(dir, rs.drop_last());
        assert(reference_stays(dir, rs[rs.len() - 1]));
        assert(references_problems(dir, rs) =~= Seq::<ProblemView>::empty());
    }
}

proof fn lemma_conformant_findings_clean(f: PackageFindings)
    requires
        conformant_findings(f),
    ensures
        findings_problems(f) == Seq::<ProblemView>::empty(),
{
    let dir = package_dir_in(f.shard@, f.package_name@);
    lemma_symlinks_clean(dir, f.symlinks@);
    lemma_references_clean(dir, f.references@);
    assert(findings_problems(f) =~= Seq::<ProblemView>::empty());
}

/// A run over a tree, packages and attributes that all follow the rules
/// reports no problem.
pub proof fn lemma_conformant_run_is_clean(
    shards: Seq<ShardEntry>,
    packages: Seq<PackageFindings>,
    manual: Seq<ManualAttribute>,
)
    requires
        forall|i: int| 0 <= i < shards.len() ==> conformant_shard(#[trigger] shards[i]),
        forall|i: int| 0 <= i < packages.len() ==> conformant_findings(#[trigger] packages[i]),
        forall|i: int| 0 <= i < manual.len() ==> conformant_manual(#[trigger] manual[i]),
    ensures
        all_problems(shards, packages, manual) == Seq::<ProblemView>::empty(),
        run_problems(shards, packages, manual) == Seq::<ProblemView>::empty(),
    decreases shards.len() + packages.len() + manual.len(),
{
    if shards.len() > 0 {
        lemma_conformant_shard_clean(shards.last());
        lemma_conformant_run_is_clean(shards.drop_last(), Seq::empty(), Seq::empty());
        assert(tree_problems(shards) =~= Seq::<ProblemView>::empty());
    }
    if packages.len() > 0 {
        lemma_conformant_findings_clean(packages.last());
        lemma_conformant_run_is_clean(Seq::empty(), packages.drop_last(), Seq::empty());
        assert(all_findings_problems(packages) =~= Seq::<ProblemView>::empty());
    }
    if manual.len() > 0 {
        lemma_conformant_run_is_clean(Seq::empty(), Seq::empty(), manual.drop_last());
        assert(manual_problems(manual) =~= Seq::<ProblemView>::empty());
    }
    assert(all_problems(shards, packages, manual) =~= Seq::<ProblemView>::empty());
    assert(run_problems(shards, packages, manual) =~= Seq::<ProblemView>::empty());
}

/// Two runs on the same inputs report the same problems in the same order.
pub proof fn lemma_run_is_deterministic(
    shards1: Seq<ShardEntry>,
    packages1: Seq<PackageFindings>,
    manual1: Seq<ManualAttribute>,
    shards2: Seq<ShardEntry>,
    packages2: Seq<PackageFindings>,
    manual2: Seq<ManualAttribute>,
)
    requires
        shards1 == shards2,
        packages1 == packages2,
        manual1 == manual2,
    ensures
        run_problems(shards1, packages1, manual1) == run_problems(shards2, packages2, manual2),
{
}

/// The problems of a tree split at any point are those of both parts.
pub proof fn lemma_tree_problems_concat(a: Seq<ShardEntry>, b: Seq<ShardEntry>)
    ensures
        tree_problems(a + b) == tree_problems(a) + tree_problems(b),
    decreases b.len(),
{
    if b.len() == 0 {
        assert(a + b =~= a);
        assert(tree_problems(a) + tree_problems(b) =~= tree_problems(a));
    } else {
        assert((a + b).drop_last() =~= a + b.drop_last());
        lemma_tree_problems_concat(a, b.drop_last());
        assert(tree_problems(a + b) =~= tree_problems(a) + tree_problems(b));
    }
}

/// The problems of a list of packages split at any point are those of both
/// parts.
pub proof fn lemma_findings_problems_concat(a: Seq<PackageFindings>, b: Seq<PackageFindings>)
    ensures
        all_findings_problems(a + b) == all_findings_problems(a) + all_findings_problems(b),
    decreases b.len(),
{
    if b.len() == 0 {
        assert(a + b =~= a);
        assert(all_findings_problems(a) + all_findings_problems(b) =~= all_findings_problems(a));
    } else {
        assert((a + b).drop_last() =~= a + b.drop_last());
        lemma_findings_problems_concat(a, b.drop_last());
        assert(all_findings_problems(a + b) =~= all_findings_problems(a) + all_findings_problems(b));
    }
}

/// The problems of a tree, with shard `i` set apart.
proof fn lemma_tree_split(shards: Seq<ShardEntry>, i: int)
    requires
        0 <= i < shards.len(),
    ensures
        tree_problems(shards) == tree_problems(shards.take(i)) + shard_problems(shards[i])
            + tree_problems(shards.skip(i + 1)),
{
    assert(shards =~= shards.take(i) + (seq![shards[i]] + shards.skip(i + 1)));
    lemma_tree_problems_concat(shards.take(i), seq![shards[i]] + shards.skip(i + 1));
    lemma_tree_problems_concat(seq![shards[i]], shards.skip(i + 1));
    let one = seq![shards[i]];
    assert(one.drop_last() =~= Seq::<ShardEntry>::empty());
    assert(one.last() == shards[i]);
    assert(tree_problems(one.drop_last()) =~= Seq::<ProblemView>::empty());
    assert(tree_problems(one) =~= shard_problems(shards[i]));
}

/// Fixing one shard of a tree changes only that shard's problems: those of
/// every other shard stay as they were, in place, and the count drops by
/// what the fix removed.
pub proof fn lemma_shard_fix_is_local(shards: Seq<ShardEntry>, i: int, fixed: ShardEntry)
    requires
        0 <= i < shards.len(),
    ensures
        tree_problems(shards) == tree_problems(shards.take(i)) + shard_problems(shards[i])
            + tree_problems(shards.skip(i + 1)),
        tree_problems(shards.update(i, fixed)) == tree_problems(shards.take(i)) + shard_problems(
            fixed,
        ) + tree_problems(shards.skip(i + 1)),
        tree_problems(shards.update(i, fixed)).len() + shard_problems(shards[i]).len()
            == tree_problems(shards).len() + shard_problems(fixed).len(),
{
    lemma_tree_split(shards, i);
    let u = shards.update(i, fixed);
    lemma_tree_split(u, i);
    assert(u.take(i) =~= shards.take(i));
    assert(u.skip(i + 1) =~= shards.skip(i + 1));
}

/// The problems of a list of packages, with package `i` set apart.
proof fn lemma_findings_split(fs: Seq<PackageFindings>, i: int)
    requires
        0 <= i < fs.len(),
    ensures
        all_findings_problems(fs) == all_findings_problems(fs.take(i)) + findings_problems(fs[i])
            + all_findings_problems(fs.skip(i + 1)),
{
    assert(fs =~= fs.take(i) + (seq![fs[i]] + fs.skip(i + 1)));
    lemma_findings_problems_concat(fs.take(i), seq![fs[i]] + fs.skip(i + 1));
    lemma_findings_problems_concat(seq![fs[i]], fs.skip(i + 1));
    let one = seq![fs[i]];
    assert(one.drop_last() =~= Seq::<PackageFindings>::empty());
    assert(one.last() == fs[i]);
    assert(all_findings_problems(one.drop_last()) =~= Seq::<ProblemView>::empty());
    assert(all_findings_problems(one) =~= findings_problems(fs[i]));
}

/// Fixing what was found for one package changes only that package's
/// problems: those of every other package stay as they were, in place.
pub proof fn lemma_package_fix_is_local(fs: Seq<PackageFindings>, i: int, fixed: PackageFindings)
    requires
        0 <= i < fs.len(),
    ensures
        all_findings_problems(fs) == all_findings_problems(fs.take(i)) + findings_problems(fs[i])
            + all_findings_problems(fs.skip(i + 1)),
        all_findings_problems(fs.update(i, fixed)) == all_findings_problems(fs.take(i))
            + findings_problems(fixed) + all_findings_problems(fs.skip(i + 1)),
{
    lemma_findings_split(fs, i);
    let u = fs.update(i, fixed);
    lemma_findings_split(u, i);
    assert(u.take(i) =~= fs.take(i));
    assert(u.skip(i + 1) =~= fs.skip(i + 1));
}

proof fn lemma_insert_multiset(sorted: Seq<ProblemView>, x: ProblemView)
    ensures
        insert_by_key(sorted, x).to_multiset() == sorted.to_multiset().insert(x),
    decreases sorted.len(),
{
    broadcast use vstd::seq_lib::group_to_multiset_ensures;

    if sorted.len() == 0 {
        assert(seq![x] =~= Seq::<ProblemView>::empty().push(x));
    } else if !text_le(problem_key(sorted.last()), problem_key(x)) {
        lemma_insert_multiset(sorted.drop_last(), x);
        assert(sorted.drop_last().push(sorted.last()) =~= sorted);
        assert(sorted.to_multiset() =~= sorted.drop_last().to_multiset().insert(sorted.last()));
        assert(insert_by_key(sorted, x).to_multiset() =~= sorted.to_multiset().insert(x));
    }
}

/// Ordering a run's problems keeps each of them, as often as it occurs.
pub proof fn lemma_sort_keeps_problems(s: Seq<ProblemView>)
    ensures
        sort_by_key(s).to_multiset() == s.to_multiset(),
        sort_by_key(s).len() == s.len(),
    decreases s.len(),
{
    broadcast use vstd::seq_lib::group_to_multiset_ensures;

    if s.len() > 0 {
        lemma_sort_keeps_problems(s.drop_last());
        lemma_insert_multiset(sort_by_key(s.drop_last()), s.last());
        assert(s.drop_last().push(s.last()) =~= s);
        assert(s.to_multiset() =~= s.drop_last().to_multiset().insert(s.last()));
    }
    assert(sort_by_key(s).to_multiset().len() == s.to_multiset().len());
}

/// Fixing one shard of a tree changes a run's problems by exactly those of
/// that shard: the problems of the rest stay, and the count drops by what
/// the fix removed.
pub proof fn lemma_run_fix_is_local(
    shards: Seq<ShardEntry>,
    i: int,
    fixed: ShardEntry,
    packages: Seq<PackageFindings>,
    manual: Seq<ManualAttribute>,
)
    requires
        0 <= i < shards.len(),
    ensures
        run_problems(shards.update(i, fixed), packages, manual).to_multiset().add(
            shard_problems(shards[i]).to_multiset(),
        ) == run_problems(shards, packages, manual).to_multiset().add(
            shard_problems(fixed).to_multiset(),
        ),
        run_problems(shards.update(i, fixed), packages, manual).len() + shard_problems(
            shards[i],
        ).len() == run_problems(shards, packages, manual).len() + shard_problems(fixed).len(),
{
    broadcast use vstd::seq_lib::lemma_multiset_commutative;

    let u = shards.update(i, fixed);
    lemma_shard_fix_is_local(shards, i, fixed);
    lemma_sort_keeps_problems(all_problems(shards, packages, manual));
    lemma_sort_keeps_problems(all_problems(u, packages, manual));
    let pre = tree_problems(shards.take(i));
    let post = tree_problems(shards.skip(i + 1));
    let rest = all_findings_problems(packages) + manual_problems(manual);
    assert(all_problems(shards, packages, manual) =~= pre + shard_problems(shards[i]) + post + rest);
    assert(all_problems(u, packages, manual) =~= pre + shard_problems(fixed) + post + rest);
    assert(all_problems(shards, packages, manual).to_multiset() =~= pre.to_multiset().add(
        shard_problems(shards[i]).to_multiset(),
    ).add(post.to_multiset()).add(rest.to_multiset()));
    assert(all_problems(u, packages, manual).to_multiset() =~= pre.to_multiset().add(
        shard_problems(fixed).to_multiset(),
    ).add(post.to_multiset()).add(rest.to_multiset()));
    assert(run_problems(u, packages, manual).to_multiset().add(
        shard_problems(shards[i]).to_multiset(),
    ) =~= run_problems(shards, packages, manual).to_multiset().add(
        shard_problems(fixed).to_multiset(),
    ));
}

proof fn lemma_one_defect_prefix(s: ShardEntry, j: int, k: int)
    requires
        s.is_dir,
        valid_shard_name(s.name@),
        0 <= j < s.packages@.len(),
        0 <= k <= s.packages@.len(),
        forall|i: int|
            0 <= i < s.packages@.len() && i != j ==> conformant_package(s.name@, #[trigger] s.packages@[i]),
        forall|a: int, b: int|
            0 <= a < b < s.packages@.len() ==> !same_ignoring_case(
                #[trigger] s.packages@[a].name@,
                #[trigger] s.packages@[b].name@,
            ),
    ensures
        duplicates_upto(s.name@, s.packages@, k) == Seq::<ProblemView>::empty(),
        packages_upto(s.name@, s.packages@, k) == if k > j {
            package_problems(s.name@, s.packages@[j])
        } else {
            Seq::<ProblemView>::empty()
        },
    decreases k,
{
    if k > 0 {
        let entries = s.packages@;
        let m = k - 1;
        lemma_one_defect_prefix(s, j, m);
        assert forall|i: int| 0 <= i < m implies !same_ignoring_case(
            #[trigger] entries[i].name@,
            entries[m].name@,
        ) by {
            assert(!same_ignoring_case(s.packages@[i].name@, s.packages@[m].name@));
        }
        lemma_no_first_same(entries, m, m);
        assert(duplicates_upto(s.name@, entries, k) =~= Seq::<ProblemView>::empty());
        if m != j {
            assert(conformant_package(s.name@, entries[m]));
            assert(package_problems(s.name@, entries[m]) =~= Seq::<ProblemView>::empty());
        }
        assert(packages_upto(s.name@, entries, k) =~= (if k > j {
            package_problems(s.name@, s.packages@[j])
        } else {
            Seq::<ProblemView>::empty()
        }));
    }
}

/// In a valid shard whose entries differ pairwise up to case, and all but
/// one follow the rules, the shard's problems are exactly those of that one
/// entry.
pub proof fn lemma_one_defective_package(s: ShardEntry, j: int)
    requires
        s.is_dir,
        valid_shard_name(s.name@),
        0 <= j < s.packages@.len(),
        forall|i: int|
            0 <= i < s.packages@.len() && i != j ==> conformant_package(s.name@, #[trigger] s.packages@[i]),
        forall|a: int, b: int|
            0 <= a < b < s.packages@.len() ==> !same_ignoring_case(
                #[trigger] s.packages@[a].name@,
                #[trigger] s.packages@[b].name@,
            ),
    ensures
        shard_problems(s) == package_problems(s.name@, s.packages@[j]),
{
    lemma_one_defect_prefix(s, j, s.packages@.len() as int);
    assert(shard_problems(s) =~= package_problems(s.name@, s.packages@[j]));
}

/// A valid package directory placed in a shard other than the one its name
/// derives, in an otherwise conformant shard, gives exactly one problem: an
/// incorrect shard that names the right place.
pub proof fn lemma_wrong_shard_reported(s: ShardEntry, j: int)
    requires
        s.is_dir,
        valid_shard_name(s.name@),
        0 <= j < s.packages@.len(),
        forall|i: int|
            0 <= i < s.packages@.len() && i != j ==> conformant_package(s.name@, #[trigger] s.packages@[i]),
        forall|a: int, b: int|
            0 <= a < b < s.packages@.len() ==> !same_ignoring_case(
                #[trigger] s.packages@[a].name@,
                #[trigger] s.packages@[b].name@,
            ),
        s.packages@[j].is_dir,
        valid_package_name(s.packages@[j].name@),
        s.packages@[j].package_file == PackageFileState::File,
        shard_of(s.packages@[j].name@) != s.name@,
    ensures
        shard_problems(s) == seq![
            ProblemView::IncorrectShard {
                relative_package_dir: package_dir_in(s.name@, s.packages@[j].name@),
                correct_relative_package_dir: package_dir_of(s.packages@[j].name@),
            },
        ],
{
    lemma_one_defective_package(s, j);
    assert(package_problems(s.name@, s.packages@[j]) =~= seq![
        ProblemView::IncorrectShard {
            relative_package_dir: package_dir_in(s.name@, s.packages@[j].name@),
            correct_relative_package_dir: package_dir_of(s.packages@[j].name@),
        },
    ]);
}

/// A package directory without a definition file, in an otherwise
/// conformant shard, gives exactly one problem: the missing file.
pub proof fn lemma_missing_file_reported(s: ShardEntry, j: int)
    requires
        s.is_dir,
        valid_shard_name(s.name@),
        0 <= j < s.packages@.len(),
        forall|i: int|
            0 <= i < s.packages@.len() && i != j ==> conformant_package(s.name@, #[trigger] s.packages@[i]),
        forall|a: int, b: int|
            0 <= a < b < s.packages@.len() ==> !same_ignoring_case(
                #[trigger] s.packages@[a].name@,
                #[trigger] s.packages@[b].name@,
            ),
        s.packages@[j].is_dir,
        valid_package_name(s.packages@[j].name@),
        shard_of(s.packages@[j].name@) == s.name@,
        s.packages@[j].package_file == PackageFileState::Missing,
    ensures
        shard_problems(s) == seq![
            ProblemView::PackageNixNonExistent {
                relative_package_dir: package_dir_in(s.name@, s.packages@[j].name@),
            },
        ],
{
    lemma_one_defective_package(s, j);
    assert(package_problems(s.name@, s.packages@[j]) =~= seq![
        ProblemView::PackageNixNonExistent {
            relative_package_dir: package_dir_in(s.name@, s.packages@[j].name@),
        },
    ]);
}

/// Two conformant package directories of one valid shard whose names differ
/// only in case give exactly one problem: a duplicate that names the
/// byte-wise smaller one first.
pub proof fn lemma_case_duplicate_reported(s: ShardEntry)
    requires
        s.is_dir,
        valid_shard_name(s.name@),
        s.packages@.len() == 2,
        conformant_package(s.name@, s.packages@[0]),
        conformant_package(s.name@, s.packages@[1]),
        same_ignoring_case(s.packages@[0].name@, s.packages@[1].name@),
    ensures
        shard_problems(s) == seq![
            if text_le(s.packages@[0].name@, s.packages@[1].name@) {
                ProblemView::CaseSensitiveDuplicate {
                    relative_shard_path: shard_dir_of(s.name@),
                    first: s.packages@[0].name@,
                    second: s.packages@[1].name@,
                }
            } else {
                ProblemView::CaseSensitiveDuplicate {
                    relative_shard_path: shard_dir_of(s.name@),
                    first: s.packages@[1].name@,
                    second: s.packages@[0].name@,
                }
            },
        ],
{
    let e = s.packages@;
    assert(first_same(e, e[1].name@, 0) == -1);
    assert(first_same(e, e[1].name@, 1) == 0);
    assert(first_same(e, e[0].name@, 0) == -1);
    assert(package_problems(s.name@, e[0]) =~= Seq::<ProblemView>::empty());
    assert(package_problems(s.name@, e[1]) =~= Seq::<ProblemView>::empty());
    reveal_with_fuel(duplicates_upto, 3);
    reveal_with_fuel(packages_upto, 3);
    assert(shard_problems(s) =~= seq![
        if text_le(e[0].name@, e[1].name@) {
            ProblemView::CaseSensitiveDuplicate {
                relative_shard_path: shard_dir_of(s.name@),
                first: e[0].name@,
                second: e[1].name@,
            }
        } else {
            ProblemView::CaseSensitiveDuplicate {
                relative_shard_path: shard_dir_of(s.name@),
                first: e[1].name@,
                second: e[0].name@,
            }
        },
    ]);
}

/// A package whose attribute is wired by name to a derivation, with no path
/// references and one symlink, gives exactly the symlink's problem: none
/// when it resolves inside the package directory, an outside symlink when
/// it resolves elsewhere, and an unresolvable one, with its cause, when it
/// cannot be resolved.
pub proof fn lemma_single_symlink_reported(f: PackageFindings)
    requires
        f.attribute == (AttributeDefinition::ByNameFile { is_derivation: true }),
        f.symlinks@.len() == 1,
        f.references@.len() == 0,
    ensures
        findings_problems(f) == match f.symlinks@[0].resolution {
            Resolution::Resolved { target } => if path_within(
                target@,
                package_dir_in(f.shard@, f.package_name@),
            ) {
                Seq::<ProblemView>::empty()
            } else {
                seq![
                    ProblemView::OutsideSymlink {
                        relative_package_dir: package_dir_in(f.shard@, f.package_name@),
                        subpath: f.symlinks@[0].subpath@,
                    },
                ]
            },
            Resolution::Failed { io_error } => seq![
                ProblemView::UnresolvableSymlink {
                    relative_package_dir: package_dir_in(f.shard@, f.package_name@),
                    subpath: f.symlinks@[0].subpath@,
                    io_error: io_error@,
                },
            ],
        },
{
    let dir = package_dir_in(f.shard@, f.package_name@);
    assert(f.symlinks@.drop_last() =~= Seq::<SymlinkFinding>::empty());
    assert(f.symlinks@.last() == f.symlinks@[0]);
    assert(symlinks_problems(dir, f.symlinks@.drop_last()) =~= Seq::<ProblemView>::empty());
    assert(references_problems(dir, f.references@) =~= Seq::<ProblemView>::empty());
    assert(symlinks_problems(dir, f.symlinks@) =~= opt_seq(
        symlink_problem(dir, f.symlinks@[0].subpath@, f.symlinks@[0].resolution),
    ));
    assert(findings_problems(f) =~= match f.symlinks@[0].resolution {
        Resolution::Resolved { target } => if path_within(
            target@,
            package_dir_in(f.shard@, f.package_name@),
        ) {
            Seq::<ProblemView>::empty()
        } else {
            seq![
                ProblemView::OutsideSymlink {
                    relative_package_dir: package_dir_in(f.shard@, f.package_name@),
                    subpath: f.symlinks@[0].subpath@,
                },
            ]
        },
        Resolution::Failed { io_error } => seq![
            ProblemView::UnresolvableSymlink {
                relative_package_dir: package_dir_in(f.shard@, f.package_name@),
                subpath: f.symlinks@[0].subpath@,
                io_error: io_error@,
            },
        ],
    });
}

/// A package defined by a `callPackage` of a path other than its own
/// definition file, with no symlinks or path references, gives exactly one
/// problem: the wrong path, with both paths and the exact position.
pub proof fn lemma_wrong_call_package_path_reported(f: PackageFindings)
    requires
        f.attribute matches AttributeDefinition::CallPackage { path: Some(p), .. } && p@
            != package_file_of(f.package_name@),
        f.symlinks@.len() == 0,
        f.references@.len() == 0,
    ensures
        findings_problems(f) == match f.attribute {
            AttributeDefinition::CallPackage { file, line, column, path, .. } => seq![
                ProblemView::WrongCallPackagePath {
                    package_name: f.package_name@,
                    file: file@,
                    line: line as nat,
                    column: column as nat,
                    actual_path: path.unwrap()@,
                    expected_path: package_file_of(f.package_name@),
                },
            ],
            _ => Seq::<ProblemView>::empty(),
        },
{
    assert(findings_problems(f) =~= match f.attribute {
        AttributeDefinition::CallPackage { file, line, column, path, .. } => seq![
            ProblemView::WrongCallPackagePath {
                package_name: f.package_name@,
                file: file@,
                line: line as nat,
                column: column as nat,
                actual_path: path.unwrap()@,
                expected_path: package_file_of(f.package_name@),
            },
        ],
        _ => Seq::<ProblemView>::empty(),
    });
}

/// A package with no symlinks or path references gives exactly the problem
/// of its attribute, if any: one problem, of the kind its definition calls
/// for.
pub proof fn lemma_attribute_alone_reported(f: PackageFindings)
    requires
        f.symlinks@.len() == 0,
        f.references@.len() == 0,
    ensures
        findings_problems(f) == opt_seq(by_name_attribute_problem(f.package_name@, f.attribute)),
{
    assert(findings_problems(f) =~= opt_seq(by_name_attribute_problem(f.package_name@, f.attribute)));
}

/// A package whose attribute is wired by name to a derivation, with no
/// symlinks and one path reference, gives exactly that reference's problem,
/// if any.
pub proof fn lemma_single_reference_reported(f: PackageFindings)
    requires
        f.attribute == (AttributeDefinition::ByNameFile { is_derivation: true }),
        f.symlinks@.len() == 0,
        f.references@.len() == 1,
    ensures
        findings_problems(f) == opt_seq(
            reference_problem(
                package_dir_in(f.shard@, f.package_name@),
                f.references@[0].subpath@,
                f.references@[0].reference,
            ),
        ),
{
    let dir = package_dir_in(f.shard@, f.package_name@);
    assert(f.references@.drop_last() =~= Seq::<ReferenceFinding>::empty());
    assert(f.references@.last() == f.references@[0]);
    assert(references_problems(dir, f.references@.drop_last()) =~= Seq::<ProblemView>::empty());
    assert(symlinks_problems(dir, f.symlinks@) =~= Seq::<ProblemView>::empty());
    assert(findings_problems(f) =~= opt_seq(
        reference_problem(dir, f.references@[0].subpath@, f.references@[0].reference),
    ));
}

} // verus!
