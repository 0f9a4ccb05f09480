//! Finding path-like syntax in one line of source text: search paths
//! `<...>`, paths built by interpolation, and literal paths. Text in double
//! quotes, comments and URIs are passed over.

use vstd::prelude::*;
use vstd::string::*;

verus! {

/// The three path-like syntaxes.
#[derive(Clone, Copy, PartialEq, Eq, Structural, Debug)]
pub enum PathSyntax {
    SearchPath,
    Interpolation,
    Literal,
}

/// A path-like expression found in a line, with its exact text.
#[derive(Clone, Debug)]
pub struct FoundPath {
    pub kind: PathSyntax,
    pub text: String,
}

pub open spec fn is_alnum(c: char) -> bool {
    ('a' <= c && c <= 'z') || ('A' <= c && c <= 'Z') || ('0' <= c && c <= '9')
}

/// Characters inside `<...>`.
pub open spec fn is_search_char(c: char) -> bool {
    is_alnum(c) || c == '.' || c == '_' || c == '-' || c == '+' || c == '/'
}

/// Characters of a path, with those of an interpolation `${...}`.
pub open spec fn is_path_char(c: char) -> bool {
    is_search_char(c) || c == '~' || c == '$' || c == '{' || c == '}'
}

/// The end of the run of path characters that starts at `j`.
pub open spec fn run_end(s: Seq<char>, j: int) -> int
    decreases s.len() - j,
{
    if 0 <= j < s.len() && is_path_char(s[j]) {
        run_end(s, j + 1)
    } else {
        j
    }
}

/// The end of the run of search-path characters that starts at `j`.
pub open spec fn search_end(s: Seq<char>, j: int) -> int
    decreases s.len() - j,
{
    if 0 <= j < s.len() && is_search_char(s[j]) {
        search_end(s, j + 1)
    } else {
        j
    }
}

/// The end of the text that starts at `j` and reaches the next blank.
pub open spec fn blank_end(s: Seq<char>, j: int) -> int
    decreases s.len() - j,
{
    if 0 <= j < s.len() && s[j] != ' ' && s[j] != '\t' {
        blank_end(s, j + 1)
    } else {
        j
    }
}

/// Just past the closing quote of a string whose text starts at `j`, or
/// the end of the line; a backslash escapes the next character.
pub open spec fn string_end(s: Seq<char>, j: int) -> int
    decreases s.len() - j,
{
    if j < 0 || j >= s.len() {
        s.len() as int
    } else if s[j] == '\\' {
        if j + 1 >= s.len() {
            s.len() as int
        } else {
            string_end(s, j + 2)
        }
    } else if s[j] == '"' {
        j + 1
    } else {
        string_end(s, j + 1)
    }
}

pub open spec fn has_slash(r: Seq<char>) -> bool {
    exists|k: int| 0 <= k < r.len() && r[k] == '/'
}

/// `${` starts at `k`.
pub open spec fn interpolation_at(r: Seq<char>, k: int) -> bool {
    r[k] == '$' && r[k + 1] == '{'
}

pub open spec fn has_interpolation(r: Seq<char>) -> bool {
    exists|k: int| 0 <= k < r.len() - 1 && #[trigger] interpolation_at(r, k)
}

/// What a run of path characters is: a path when it holds a slash, built
/// by interpolation when it holds `${`.
pub open spec fn run_token(r: Seq<char>) -> Seq<(PathSyntax, Seq<char>)> {
    if !has_slash(r) {
        Seq::empty()
    } else if has_interpolation(r) {
        seq![(PathSyntax::Interpolation, r)]
    } else {
        seq![(PathSyntax::Literal, r)]
    }
}

/// The path-like expressions of `s` from position `i` on, in order.
pub open spec fn scan(s: Seq<char>, i: int) -> Seq<(PathSyntax, Seq<char>)>
    decreases s.len() - i,
{
    if i < 0 || i >= s.len() {
        Seq::empty()
    } else if s[i] == '#' {
        Seq::empty()
    } else if s[i] == '"' {
        let e = string_end(s, i + 1);
        if e <= i || e > s.len() {
            Seq::empty()
        } else {
            scan(s, e)
        }
    } else if s[i] == '<' && search_end(s, i + 1) > i + 1 && search_end(s, i + 1) < s.len()
        && s[search_end(s, i + 1)] == '>' {
        let e = search_end(s, i + 1);
        seq![(PathSyntax::SearchPath, s.subrange(i, e + 1))] + scan(s, e + 1)
    } else if is_path_char(s[i]) {
        let e = run_end(s, i);
        if e <= i || e > s.len() {
            Seq::empty()
        } else if e < s.len() && s[e] == ':' {
            let f = blank_end(s, e);
            if f <= i || f > s.len() {
                Seq::empty()
            } else {
                scan(s, f)
            }
        } else {
            run_token(s.subrange(i, e)) + scan(s, e)
        }
    } else {
        scan(s, i + 1)
    }
}

pub open spec fn found_views(r: Seq<FoundPath>) -> Seq<(PathSyntax, Seq<char>)> {
    r.map_values(|p: FoundPath| (p.kind, p.text@))
}

proof fn lemma_run_end_bounds(s: Seq<char>, j: int)
    requires
        0 <= j <= s.len(),
    ensures
        j <= run_end(s, j) <= s.len(),
    decreases s.len() - j,
{
    if j < s.len() && is_path_char(s[j]) {
        lemma_run_end_bounds(s, j + 1);
    }
}

fn path_char(c: char) -> (r: bool)
    ensures
        r == is_path_char(c),
{
    ('a' <= c && c <= 'z') || ('A' <= c && c <= 'Z') || ('0' <= c && c <= '9') || c == '.' || c
        == '_' || c == '-' || c == '+' || c == '/' || c == '~' || c == '$' || c == '{' || c == '}'
}

fn search_char(c: char) -> (r: bool)
    ensures
        r == is_search_char(c),
{
    ('a' <= c && c <= 'z') || ('A' <= c && c <= 'Z') || ('0' <= c && c <= '9') || c == '.' || c
        == '_' || c == '-' || c == '+' || c == '/'
}

fn find_run_end(s: &str, n: usize, j: usize) -> (r: usize)
    requires
        n == s@.len(),
        j <= n,
    ensures
        r == run_end(s@, j as int),
        j <= r <= n,
{
    let mut k = j;
    while k < n && path_char(s.get_char(k))
        invariant
            n == s@.len(),
            j <= k <= n,
            run_end(s@, j as int) == run_end(s@, k as int),
        decreases n - k,
    {
        k = k + 1;
    }
    k
}

fn find_search_end(s: &str, n: usize, j: usize) -> (r: usize)
    requires
        n == s@.len(),
        j <= n,
    ensures
        r == search_end(s@, j as int),
        j <= r <= n,
{
    let mut k = j;
    while k < n && search_char(s.get_char(k))
        invariant
            n == s@.len(),
            j <= k <= n,
            search_end(s@, j as int) == search_end(s@, k as int),
        decreases n - k,
    {
        k = k + 1;
    }
    k
}

fn find_blank_end(s: &str, n: usize, j: usize) -> (r: usize)
    requires
        n == s@.len(),
        j <= n,
    ensures
        r == blank_end(s@, j as int),
        j <= r <= n,
{
    let mut k = j;
    while k < n && s.get_char(k) != ' ' && s.get_char(k) != '\t'
        invariant
            n == s@.len(),
            j <= k <= n,
            blank_end(s@, j as int) == blank_end(s@, k as int),
        decreases n - k,
    {
        k = k + 1;
    }
    k
}

fn find_string_end(s: &str, n: usize, j: usize) -> (r: usize)
    requires
        n == s@.len(),
        j <= n,
    ensures
        r == string_end(s@, j as int),
        r <= n,
{
    let mut k = j;
    while k < n
        invariant
            n == s@.len(),
            k <= n,
            string_end(s@, j as int) == string_end(s@, k as int),
        decreases n - k,
    {
        let c = s.get_char(k);
        if c == '\\' {
            if k + 1 >= n {
                return n;
            }
            k = k + 2;
        } else if c == '"' {
            return k + 1;
        } else {
            k = k + 1;
        }
    }
    n
}

/// The kind of the run `s[i..e]`, if it is a path.
fn classify_run(s: &str, i: usize, e: usize) -> (r: Option<PathSyntax>)
    requires
        i <= e <= s@.len(),
    ensures
        run_token(s@.subrange(i as int, e as int)) == match r {
            Some(k) => seq![(k, s@.subrange(i as int, e as int))],
            None => Seq::empty(),
        },
{
    let ghost run = s@.subrange(i as int, e as int);
    let mut slash = false;
    let mut interp = false;
    let mut k = i;
    while k < e
        invariant
            i <= k <= e <= s@.len(),
            run == s@.subrange(i as int, e as int),
            slash == exists|m: int| 0 <= m < k - i && #[trigger] run[m] == '/',
            interp == exists|m: int| 0 <= m < k - i - 1 && #[trigger] interpolation_at(run, m),
        decreases e - k,
    {
        let c = s.get_char(k);
        if c == '/' {
            slash = true;
            assert(run[k - i] == '/');
        }
        if c == '{' && k > i && s.get_char(k - 1) == '$' {
            interp = true;
            assert(interpolation_at(run, k - i - 1));
        }
        proof {
            if !slash {
                assert forall|m: int| 0 <= m < k + 1 - i implies run[m] != '/' by {
                    if m == k - i {
                        assert(run[m] == s@[k as int]);
                    }
                }
            }
            if !interp {
                assert forall|m: int| 0 <= m < k + 1 - i - 1 implies !#[trigger] interpolation_at(
                    run,
                    m,
                ) by {
                    if m == k - i - 1 {
                        assert(run[m + 1] == s@[k as int]);
                        assert(run[m] == s@[k - 1]);
                    }
                }
            }
        }
        k = k + 1;
    }
    if !slash {
        None
    } else if interp {
        Some(PathSyntax::Interpolation)
    } else {
        Some(PathSyntax::Literal)
    }
}

fn push_found(r: &mut Vec<FoundPath>, kind: PathSyntax, text: &str)
    ensures
        found_views(final(r)@) == found_views(old(r)@) + seq![(kind, text@)],
{
    let ghost before = r@;
    r.push(FoundPath { kind, text: text.to_owned() });
    assert(found_views(r@) =~= found_views(before) + seq![(kind, text@)]);
}

/// The path-like expressions of one line of source text, in order.
pub fn scan_line(line: &str) -> (r: Vec<FoundPath>)
    ensures
        found_views(r@) == scan(line@, 0),
{
    let ghost s = line@;
    let n = line.unicode_len();
    let mut r: Vec<FoundPath> = Vec::new();
    let mut i: usize = 0;
    while i < n
        invariant
            n == s.len(),
            s == line@,
            i <= n,
            scan(s, 0) == found_views(r@) + scan(s, i as int),
        decreases n - i,
    {
        let c = line.get_char(i);
        if c == '#' {
            i = n;
        } else if c == '"' {
            let e = find_string_end(line, n, i + 1);
            if e <= i {
                i = n;
            } else {
                i = e;
            }
        } else {
            let se = if c == '<' {
                find_search_end(line, n, i + 1)
            } else {
                0
            };
            if c == '<' && se > i + 1 && se < n && line.get_char(se) == '>' {
                let ghost before = r@;
                push_found(&mut r, PathSyntax::SearchPath, line.substring_char(i, se + 1));
                assert(found_views(r@) + scan(s, se + 1) =~= found_views(before) + scan(
                    s,
                    i as int,
                ));
                i = se + 1;
            } else if path_char(c) {
                let e = find_run_end(line, n, i);
                proof {
                    lemma_run_end_bounds(s, i as int);
                }
                if e <= i {
                    i = n;
                } else if e < n && line.get_char(e) == ':' {
                    let f = find_blank_end(line, n, e);
                    i = f;
                } else {
                    let ghost before = r@;
                    match classify_run(line, i, e) {
                        Some(kind) => {
                            push_found(&mut r, kind, line.substring_char(i, e));
                        },
                        None => {},
                    }
                    assert(found_views(r@) + scan(s, e as int) =~= found_views(before) + scan(
                        s,
                        i as int,
                    ));
                    i = e;
                }
            } else {
                i = i + 1;
            }
        }
    }
    assert(found_views(r@) + scan(s, n as int) =~= found_views(r@));
    r
}

/// A path-like expression found at `line` (counted from one) of a file.
#[derive(Clone, Debug)]
pub struct LinePath {
    pub line: usize,
    pub found: FoundPath,
}

/// The end of the line that starts at `j`: the next newline or the end of
/// the text.
pub open spec fn line_end(s: Seq<char>, j: int) -> int
    decreases s.len() - j,
{
    if 0 <= j < s.len() && s[j] != '\n' {
        line_end(s, j + 1)
    } else {
        j
    }
}

pub open spec fn at_line(k: nat, found: Seq<(PathSyntax, Seq<char>)>) -> Seq<(nat, PathSyntax, Seq<char>)> {
    found.map_values(|f: (PathSyntax, Seq<char>)| (k, f.0, f.1))
}

/// The path-like expressions of the text from position `i` on, where line
/// `k` starts, line by line.
pub open spec fn scan_lines(s: Seq<char>, i: int, k: nat) -> Seq<(nat, PathSyntax, Seq<char>)>
    decreases s.len() - i,
{
    if i < 0 || i >= s.len() {
        Seq::empty()
    } else {
        let e = line_end(s, i);
        if e < i || e >= s.len() {
            at_line(k, scan(s.subrange(i, e), 0))
        } else {
            at_line(k, scan(s.subrange(i, e), 0)) + scan_lines(s, e + 1, k + 1)
        }
    }
}

pub open spec fn line_path_views(r: Seq<LinePath>) -> Seq<(nat, PathSyntax, Seq<char>)> {
    r.map_values(|p: LinePath| (p.line as nat, p.found.kind, p.found.text@))
}

fn find_line_end(s: &str, n: usize, j: usize) -> (r: usize)
    requires
        n == s@.len(),
        j <= n,
    ensures
        r == line_end(s@, j as int),
        j <= r <= n,
{
    let mut k = j;
    while k < n && s.get_char(k) != '\n'
        invariant
            n == s@.len(),
            j <= k <= n,
            line_end(s@, j as int) == line_end(s@, k as int),
        decreases n - k,
    {
        k = k + 1;
    }
    k
}

/// The path-like expressions of a whole source file, with the line each
/// stands on.
pub fn scan_source(text: &str) -> (r: Vec<LinePath>)
    requires
        text@.len() < usize::MAX,
    ensures
        line_path_views(r@) == scan_lines(text@, 0, 1),
{
    let ghost s = text@;
    let n = text.unicode_len();
    let mut r: Vec<LinePath> = Vec::new();
    let mut i: usize = 0;
    let mut k: usize = 1;
    while i < n
        invariant
            n == s.len(),
            s == text@,
            n < usize::MAX,
            i <= n + 1,
            1 <= k <= i + 1,
            scan_lines(s, 0, 1) == line_path_views(r@) + scan_lines(s, i as int, k as nat),
        decreases n + 1 - i,
    {
        let e = find_line_end(text, n, i);
        let found = scan_line(text.substring_char(i, e));
        let ghost before = r@;
        let mut j: usize = 0;
        while j < found.len()
            invariant
                j <= found@.len(),
                line_path_views(r@) == line_path_views(before) + at_line(
                    k as nat,
                    found_views(found@.take(j as int)),
                ),
            decreases found@.len() - j,
        {
            let f = &found[j];
            let ghost mid = r@;
            r.push(LinePath { line: k, found: FoundPath { kind: f.kind, text: f.text.clone() } });
            assert(found_views(found@.take(j + 1)) =~= found_views(found@.take(j as int)).push(
                (f.kind, f.text@),
            ));
            assert(line_path_views(r@) =~= line_path_views(mid).push((k as nat, f.kind, f.text@)));
            assert(line_path_views(r@) =~= line_path_views(before) + at_line(
                k as nat,
                found_views(found@.take(j + 1)),
            ));
            j = j + 1;
        }
        assert(found@.take(found@.len() as int) =~= found@);
        if e >= n {
            assert(scan_lines(s, e as int + 1, (k + 1) as nat) =~= Seq::empty());
        }
        assert(scan_lines(s, i as int, k as nat) =~= at_line(
            k as nat,
            scan(s.subrange(i as int, e as int), 0),
        ) + scan_lines(s, e as int + 1, (k + 1) as nat));
        i = e + 1;
        k = k + 1;
    }
    assert(scan_lines(s, i as int, k as nat) =~= Seq::empty());
    r
}

} // verus!
