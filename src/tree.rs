//! The structural phase: shards, package directories, their names and their
//! definition files.

use vstd::prelude::*;
use vstd::string::*;
use crate::nixpkgs_problem::{append_problems, push_problem, views, NixpkgsProblem, ProblemView};
use crate::order::{text_le, text_le_exec};
use crate::text::str_eq;
use crate::structure::{
    ascii_fold,
    is_valid_package_name, is_valid_shard_name, package_dir_in, package_dir_of,
    relative_dir_for_package, relative_dir_for_shard, shard_dir_of, shard_for_package, shard_of,
    valid_package_name, valid_shard_name,
};

verus! {

/// What stands at the place of a package's definition file.
#[derive(Clone, Copy, PartialEq, Eq, Debug)]
pub enum PackageFileState {
    File,
    Directory,
    Missing,
}

/// An entry of a shard directory.
#[derive(Clone, Debug)]
pub struct PackageEntry {
    pub name: String,
    pub is_dir: bool,
    pub package_file: PackageFileState,
}

/// An entry at the top of the by-name tree, with the entries inside it in
/// listing order.
#[derive(Clone, Debug)]
pub struct ShardEntry {
    pub name: String,
    pub is_dir: bool,
    pub packages: Vec<PackageEntry>,
}

/// Equality of names up to ASCII case.
pub open spec fn same_ignoring_case(a: Seq<char>, b: Seq<char>) -> bool {
    a.len() == b.len() && forall|i: int| 0 <= i < a.len() ==> #[trigger] ascii_fold(a[i]) == ascii_fold(b[i])
}

/// The first index below `k` whose entry has a name equal to `x` up to case,
/// or -1.
pub open spec fn first_same(entries: Seq<PackageEntry>, x: Seq<char>, k: int) -> int
    decreases k,
{
    if k <= 0 {
        -1
    } else {
        let e = first_same(entries, x, k - 1);
        if e >= 0 {
            e
        } else if same_ignoring_case(entries[k - 1].name@, x) {
            k - 1
        } else {
            -1
        }
    }
}

/// The duplicate reported for entry `j`, when it collides with an earlier
/// entry of the shard: of the two names, the one that comes first
/// byte-wise is `first`.
pub open spec fn duplicate_problems(
    shard: Seq<char>,
    entries: Seq<PackageEntry>,
    j: int,
) -> Seq<ProblemView> {
    let f = first_same(entries, entries[j].name@, j);
    if f >= 0 {
        let (a, b) = if text_le(entries[f].name@, entries[j].name@) {
            (entries[f].name@, entries[j].name@)
        } else {
            (entries[j].name@, entries[f].name@)
        };
        seq![
            ProblemView::CaseSensitiveDuplicate {
                relative_shard_path: shard_dir_of(shard),
                first: a,
                second: b,
            },
        ]
    } else {
        Seq::empty()
    }
}

/// The duplicates reported for the first `k` entries of a shard.
pub open spec fn duplicates_upto(
    shard: Seq<char>,
    entries: Seq<PackageEntry>,
    k: int,
) -> Seq<ProblemView>
    decreases k,
{
    if k <= 0 {
        Seq::empty()
    } else {
        duplicates_upto(shard, entries, k - 1) + duplicate_problems(shard, entries, k - 1)
    }
}

/// The problems of one entry of the shard `shard`.
pub open spec fn package_problems(shard: Seq<char>, e: PackageEntry) -> Seq<ProblemView> {
    let dir = package_dir_in(shard, e.name@);
    if !e.is_dir {
        seq![ProblemView::PackageNonDir { relative_package_dir: dir }]
    } else {
        (if valid_package_name(e.name@) {
            Seq::empty()
        } else {
            seq![ProblemView::InvalidPackageName { relative_package_dir: dir, package_name: e.name@ }]
        }) + (if shard_of(e.name@) == shard {
            Seq::empty()
        } else {
            seq![
                ProblemView::IncorrectShard {
                    relative_package_dir: dir,
                    correct_relative_package_dir: package_dir_of(e.name@),
                },
            ]
        }) + match e.package_file {
            PackageFileState::File => Seq::empty(),
            PackageFileState::Directory => seq![ProblemView::PackageNixDir { relative_package_dir: dir }],
            PackageFileState::Missing => seq![
                ProblemView::PackageNixNonExistent { relative_package_dir: dir },
            ],
        }
    }
}

/// The problems of the first `k` entries of a shard, entry by entry.
pub open spec fn packages_upto(shard: Seq<char>, entries: Seq<PackageEntry>, k: int) -> Seq<
    ProblemView,
>
    decreases k,
{
    if k <= 0 {
        Seq::empty()
    } else {
        packages_upto(shard, entries, k - 1) + package_problems(shard, entries[k - 1])
    }
}

/// The problems of one top-level entry: a shard is a directory with a valid
/// name; inside it, the case collisions come first, then each entry's own
/// problems in listing order.
pub open spec fn shard_problems(s: ShardEntry) -> Seq<ProblemView> {
    let dir = shard_dir_of(s.name@);
    if !s.is_dir {
        seq![ProblemView::ShardNonDir { relative_shard_path: dir }]
    } else if !valid_shard_name(s.name@) {
        seq![ProblemView::InvalidShardName { relative_shard_path: dir, shard_name: s.name@ }]
    } else {
        duplicates_upto(s.name@, s.packages@, s.packages@.len() as int) + packages_upto(
            s.name@,
            s.packages@,
            s.packages@.len() as int,
        )
    }
}

/// The problems of a whole tree, shard by shard in listing order.
pub open spec fn tree_problems(shards: Seq<ShardEntry>) -> Seq<ProblemView>
    decreases shards.len(),
{
    if shards.len() == 0 {
        Seq::empty()
    } else {
        tree_problems(shards.drop_last()) + shard_problems(shards.last())
    }
}

/// Whether two names are equal up to ASCII case.
pub fn same_name_ignoring_case(a: &str, b: &str) -> (r: bool)
    ensures
        r == same_ignoring_case(a@, b@),
{
    let n = a.unicode_len();
    if n != b.unicode_len() {
        return false;
    }
    let mut i: usize = 0;
    while i < n
        invariant
            n == a@.len(),
            n == b@.len(),
            i <= n,
            forall|j: int| 0 <= j < i ==> #[trigger] ascii_fold(a@[j]) == ascii_fold(b@[j]),
        decreases n - i,
    {
        let x = a.get_char(i);
        let y = b.get_char(i);
        let fx: u32 = if 'A' <= x && x <= 'Z' { x as u32 + 32 } else { x as u32 };
        let fy: u32 = if 'A' <= y && y <= 'Z' { y as u32 + 32 } else { y as u32 };
        if fx != fy {
            assert(ascii_fold(a@[i as int]) != ascii_fold(b@[i as int]));
            return false;
        }
        i = i + 1;
    }
    true
}

/// Checks one entry of the shard `shard_name`.
pub fn check_package(shard_name: &str, e: &PackageEntry) -> (r: Vec<NixpkgsProblem>)
    ensures
        views(r@) == package_problems(shard_name@, *e),
{
    let name = e.name.as_str();
    let dir = relative_dir_for_shard(shard_name).concat("/").concat(name);
    let mut r: Vec<NixpkgsProblem> = Vec::new();
    if !e.is_dir {
        push_problem(&mut r, NixpkgsProblem::PackageNonDir { relative_package_dir: dir });
        assert(views(r@) =~= package_problems(shard_name@, *e));
        return r;
    }
    if !is_valid_package_name(name) {
        push_problem(
            &mut r,
            NixpkgsProblem::InvalidPackageName {
                relative_package_dir: dir.clone(),
                package_name: e.name.clone(),
            },
        );
    }
    let shard = shard_for_package(name);
    if !str_eq(shard.as_str(), shard_name) {
        push_problem(
            &mut r,
            NixpkgsProblem::IncorrectShard {
                relative_package_dir: dir.clone(),
                correct_relative_package_dir: relative_dir_for_package(name),
            },
        );
    }
    match e.package_file {
        PackageFileState::File => {},
        PackageFileState::Directory => {
            push_problem(&mut r, NixpkgsProblem::PackageNixDir { relative_package_dir: dir });
        },
        PackageFileState::Missing => {
            push_problem(&mut r, NixpkgsProblem::PackageNixNonExistent { relative_package_dir: dir });
        },
    }
    assert(views(r@) =~= package_problems(shard_name@, *e));
    r
}

proof fn lemma_first_same_stable(entries: Seq<PackageEntry>, x: Seq<char>, k: int, m: int)
    requires
        first_same(entries, x, k) >= 0,
        k <= m,
    ensures
        first_same(entries, x, m) == first_same(entries, x, k),
    decreases m - k,
{
    if k < m {
        lemma_first_same_stable(entries, x, k, m - 1);
    }
}

/// The earliest entry before `j` whose name equals that of entry `j` up to
/// case.
fn find_first_same(entries: &Vec<PackageEntry>, j: usize) -> (r: Option<usize>)
    requires
        j < entries@.len(),
    ensures
        match r {
            Some(f) => f < j && first_same(entries@, entries@[j as int].name@, j as int) == f,
            None => first_same(entries@, entries@[j as int].name@, j as int) == -1,
        },
{
    let x = entries[j].name.as_str();
    let mut i: usize = 0;
    while i < j
        invariant
            i <= j,
            j < entries@.len(),
            x@ == entries@[j as int].name@,
            first_same(entries@, x@, i as int) == -1,
        decreases j - i,
    {
        if same_name_ignoring_case(entries[i].name.as_str(), x) {
            proof {
                lemma_first_same_stable(entries@, x@, i + 1, j as int);
            }
            return Some(i);
        }
        i = i + 1;
    }
    None
}

/// Checks one top-level entry of the tree.
pub fn check_shard(s: &ShardEntry) -> (r: Vec<NixpkgsProblem>)
    ensures
        views(r@) == shard_problems(*s),
{
    let name = s.name.as_str();
    let dir = relative_dir_for_shard(name);
    let mut r: Vec<NixpkgsProblem> = Vec::new();
    if !s.is_dir {
        push_problem(&mut r, NixpkgsProblem::ShardNonDir { relative_shard_path: dir });
        assert(views(r@) =~= shard_problems(*s));
        return r;
    }
    if !is_valid_shard_name(name) {
        push_problem(
            &mut r,
            NixpkgsProblem::InvalidShardName { relative_shard_path: dir, shard_name: s.name.clone() },
        );
        assert(views(r@) =~= shard_problems(*s));
        return r;
    }
    let n = s.packages.len();
    let mut j: usize = 0;
    while j < n
        invariant
            j <= n,
            n == s.packages@.len(),
            name@ == s.name@,
            dir@ == shard_dir_of(s.name@),
            views(r@) == duplicates_upto(s.name@, s.packages@, j as int),
        decreases n - j,
    {
        match find_first_same(&s.packages, j) {
            Some(f) => {
                let earlier = &s.packages[f].name;
                let later = &s.packages[j].name;
                let (first, second) = if text_le_exec(earlier.as_str(), later.as_str()) {
                    (earlier.clone(), later.clone())
                } else {
                    (later.clone(), earlier.clone())
                };
                push_problem(
                    &mut r,
                    NixpkgsProblem::CaseSensitiveDuplicate {
                        relative_shard_path: dir.clone(),
                        first,
                        second,
                    },
                );
            },
            None => {},
        }
        assert(views(r@) =~= duplicates_upto(s.name@, s.packages@, j + 1));
        j = j + 1;
    }
    let ghost dups = views(r@);
    let mut k: usize = 0;
    while k < n
        invariant
            k <= n,
            n == s.packages@.len(),
            name@ == s.name@,
            dups == duplicates_upto(s.name@, s.packages@, n as int),
            views(r@) == dups + packages_upto(s.name@, s.packages@, k as int),
        decreases n - k,
    {
        append_problems(&mut r, check_package(name, &s.packages[k]));
        assert(views(r@) =~= dups + packages_upto(s.name@, s.packages@, k + 1));
        k = k + 1;
    }
    r
}

/// Checks a whole tree, given its top-level entries in listing order.
pub fn check_tree(shards: &Vec<ShardEntry>) -> (r: Vec<NixpkgsProblem>)
    ensures
        views(r@) == tree_problems(shards@),
{
    let mut r: Vec<NixpkgsProblem> = Vec::new();
    let n = shards.len();
    let mut i: usize = 0;
    assert(shards@.take(0) =~= Seq::<ShardEntry>::empty());
    while i < n
        invariant
            i <= n,
            n == shards@.len(),
            views(r@) == tree_problems(shards@.take(i as int)),
        decreases n - i,
    {
        append_problems(&mut r, check_shard(&shards[i]));
        assert(shards@.take(i + 1).drop_last() =~= shards@.take(i as int));
        i = i + 1;
    }
    assert(shards@.take(n as int) =~= shards@);
    r
}

} // verus!
