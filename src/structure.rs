//! Naming rules of the by-name tree and the locations derived from a
//! package's name.

use vstd::prelude::*;
use vstd::string::*;

verus! {

/// What `str::to_lowercase` returns for a string: it depends on the
/// characters alone.
pub uninterp spec fn lower_of(s: Seq<char>) -> Seq<char>;

/// The character code `c` has once ASCII upper case is folded to lower case.
pub open spec fn ascii_fold(c: char) -> u32 {
    if 'A' <= c && c <= 'Z' {
        (c as u32 + 32) as u32
    } else {
        c as u32
    }
}

/// The ASCII lowercase of a character: upper-case ASCII letters become
/// lower case, every other character stays.
pub open spec fn ascii_lower(c: char) -> char {
    if 'A' <= c && c <= 'Z' {
        ((c as u32) + 32) as char
    } else {
        c
    }
}

/// The ASCII lowercase of a text.
pub open spec fn ascii_lower_text(s: Seq<char>) -> Seq<char> {
    s.map_values(|c: char| ascii_lower(c))
}

/// All characters of `s` are ASCII.
pub open spec fn all_ascii(s: Seq<char>) -> bool {
    forall|i: int| 0 <= i < s.len() ==> (#[trigger] s[i] as u32) < 128
}

/// Relies on `str::to_lowercase`: the Unicode lowercase of the string,
/// which on ASCII text lowercases each ASCII letter and keeps the rest.
#[verifier::external_body]
fn lowercase(s: &str) -> (r: String)
    ensures
        r@ == lower_of(s@),
        all_ascii(s@) ==> r@ == ascii_lower_text(s@),
{
    s.to_lowercase()
}

/// Characters allowed in a shard directory name.
pub open spec fn is_shard_char(c: char) -> bool {
    ('a' <= c && c <= 'z') || ('0' <= c && c <= '9') || c == '_' || c == '-'
}

/// Characters allowed in a package directory name.
pub open spec fn is_package_name_char(c: char) -> bool {
    is_shard_char(c) || ('A' <= c && c <= 'Z')
}

/// A shard name is one or two characters of `[a-z0-9_-]`.
pub open spec fn valid_shard_name(s: Seq<char>) -> bool {
    1 <= s.len() <= 2 && forall|i: int| 0 <= i < s.len() ==> #[trigger] is_shard_char(s[i])
}

/// A package name is one or more characters of `[A-Za-z0-9_-]`.
pub open spec fn valid_package_name(s: Seq<char>) -> bool {
    1 <= s.len() && forall|i: int| 0 <= i < s.len() ==> #[trigger] is_package_name_char(s[i])
}

/// The shard a package belongs to: the first two characters of its
/// lowercased name.
pub open spec fn shard_of(name: Seq<char>) -> Seq<char> {
    let l = lower_of(name);
    if l.len() <= 2 {
        l
    } else {
        l.take(2)
    }
}

/// The root of the by-name tree, relative to the repository.
pub open spec fn base_subpath() -> Seq<char> {
    "pkgs/by-name"@
}

/// The name of the definition file inside each package directory.
pub open spec fn package_file_name() -> Seq<char> {
    "package.nix"@
}

pub open spec fn shard_dir_of(shard: Seq<char>) -> Seq<char> {
    base_subpath() + "/"@ + shard
}

pub open spec fn package_dir_in(shard: Seq<char>, name: Seq<char>) -> Seq<char> {
    shard_dir_of(shard) + "/"@ + name
}

pub open spec fn package_dir_of(name: Seq<char>) -> Seq<char> {
    package_dir_in(shard_of(name), name)
}

pub open spec fn package_file_of(name: Seq<char>) -> Seq<char> {
    package_dir_of(name) + "/"@ + package_file_name()
}

/// Whether every character of `s` satisfies the shard character class.
fn all_shard_chars(s: &str) -> (r: bool)
    ensures
        r == forall|i: int| 0 <= i < s@.len() ==> #[trigger] is_shard_char(s@[i]),
{
    let n = s.unicode_len();
    let mut i: usize = 0;
    while i < n
        invariant
            n == s@.len(),
            i <= n,
            forall|j: int| 0 <= j < i ==> #[trigger] is_shard_char(s@[j]),
        decreases n - i,
    {
        let c = s.get_char(i);
        if !(('a' <= c && c <= 'z') || ('0' <= c && c <= '9') || c == '_' || c == '-') {
            assert(!is_shard_char(s@[i as int]));
            return false;
        }
        i = i + 1;
    }
    true
}

/// Whether `s` is a valid shard directory name.
pub fn is_valid_shard_name(s: &str) -> (r: bool)
    ensures
        r == valid_shard_name(s@),
{
    let n = s.unicode_len();
    if n < 1 || n > 2 {
        return false;
    }
    all_shard_chars(s)
}

/// Whether `s` is a valid package directory name.
pub fn is_valid_package_name(s: &str) -> (r: bool)
    ensures
        r == valid_package_name(s@),
{
    let n = s.unicode_len();
    if n < 1 {
        return false;
    }
    let mut i: usize = 0;
    while i < n
        invariant
            n == s@.len(),
            i <= n,
            forall|j: int| 0 <= j < i ==> #[trigger] is_package_name_char(s@[j]),
        decreases n - i,
    {
        let c = s.get_char(i);
        if !(('a' <= c && c <= 'z') || ('A' <= c && c <= 'Z') || ('0' <= c && c <= '9')
            || c == '_' || c == '-') {
            assert(!is_package_name_char(s@[i as int]));
            return false;
        }
        i = i + 1;
    }
    true
}

/// The shard directory name derived from a package name.
pub fn shard_for_package(package_name: &str) -> (r: String)
    ensures
        r@ == shard_of(package_name@),
        all_ascii(package_name@) ==> r@ == (if package_name@.len() <= 2 {
            ascii_lower_text(package_name@)
        } else {
            ascii_lower_text(package_name@).take(2)
        }),
{
    let lower = lowercase(package_name);
    let n = lower.as_str().unicode_len();
    if n <= 2 {
        lower
    } else {
        lower.as_str().substring_char(0, 2).to_owned()
    }
}

/// The shard directory, relative to the repository root.
pub fn relative_dir_for_shard(shard_name: &str) -> (r: String)
    ensures
        r@ == shard_dir_of(shard_name@),
{
    String::from_str("pkgs/by-name").concat("/").concat(shard_name)
}

/// The directory a package should live in, relative to the repository root.
pub fn relative_dir_for_package(package_name: &str) -> (r: String)
    ensures
        r@ == package_dir_of(package_name@),
{
    let shard = shard_for_package(package_name);
    relative_dir_for_shard(shard.as_str()).concat("/").concat(package_name)
}

/// The definition file a package should have, relative to the repository root.
pub fn relative_file_for_package(package_name: &str) -> (r: String)
    ensures
        r@ == package_file_of(package_name@),
{
    relative_dir_for_package(package_name).concat("/").concat("package.nix")
}

} // verus!
