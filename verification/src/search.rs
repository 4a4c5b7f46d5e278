//! File-name glob matching and the filters applied while searching a tree.

use vstd::prelude::*;
use crate::drives::opt_view;
use crate::text::{chars_of, lines, split_lines, string_from_chars, vecs_view};

verus! {

/// Whether `name` matches the glob `pattern`, where `*` matches any run of
/// characters (possibly empty) and `?` matches exactly one character; every
/// other pattern character matches itself.
pub open spec fn glob_matches(pattern: Seq<char>, name: Seq<char>) -> bool
    decreases pattern.len() + name.len(),
{
    if pattern.len() == 0 {
        name.len() == 0
    } else if pattern.last() == '*' {
        glob_matches(pattern.drop_last(), name)
            || (name.len() > 0 && glob_matches(pattern, name.drop_last()))
    } else {
        name.len() > 0
            && (pattern.last() == '?' || pattern.last() == name.last())
            && glob_matches(pattern.drop_last(), name.drop_last())
    }
}

/// A lone `*` matches every name.
pub proof fn lemma_star_matches_all(name: Seq<char>)
    ensures
        glob_matches(seq!['*'], name),
    decreases name.len(),
{
    let p = seq!['*'];
    assert(p.len() == 1);
    assert(p.drop_last() =~= Seq::<char>::empty());
    assert(p.last() == '*');
    if name.len() > 0 {
        lemma_star_matches_all(name.drop_last());
        assert(glob_matches(p, name.drop_last()));
    } else {
        assert(glob_matches(p.drop_last(), name));
    }
}

/// A pattern without `*` matches exactly the names of its own length in
/// which every character equals the pattern's at that place or stands under
/// a `?`: each `?` takes exactly one character.
pub proof fn lemma_star_free_pattern(pattern: Seq<char>, name: Seq<char>)
    requires
        forall|i: int| 0 <= i < pattern.len() ==> #[trigger] pattern[i] != '*',
    ensures
        glob_matches(pattern, name) <==> (name.len() == pattern.len()
            && forall|i: int| 0 <= i < pattern.len() ==> #[trigger] pattern[i] == '?' || pattern[i] == name[i]),
    decreases pattern.len() + name.len(),
{
    if pattern.len() == 0 {
    } else {
        let pd = pattern.drop_last();
        assert(pattern.last() == pattern[pattern.len() - 1]);
        assert forall|i: int| 0 <= i < pd.len() implies #[trigger] pd[i] != '*' by {
            assert(pd[i] == pattern[i]);
        }
        if name.len() > 0 {
            let nd = name.drop_last();
            lemma_star_free_pattern(pd, nd);
            if glob_matches(pattern, name) {
                assert forall|i: int| 0 <= i < pattern.len() implies #[trigger] pattern[i] == '?' || pattern[i] == name[i] by {
                    if i < pattern.len() - 1 {
                        assert(pd[i] == pattern[i]);
                        assert(nd[i] == name[i]);
                    }
                }
            }
            if name.len() == pattern.len() && forall|i: int| 0 <= i < pattern.len() ==> #[trigger] pattern[i] == '?' || pattern[i] == name[i] {
                assert forall|i: int| 0 <= i < pd.len() implies #[trigger] pd[i] == '?' || pd[i] == nd[i] by {
                    assert(pd[i] == pattern[i]);
                    assert(nd[i] == name[i]);
                    assert(pattern[i] == '?' || pattern[i] == name[i]);
                }
                assert(pattern[pattern.len() - 1] == '?' || pattern[pattern.len() - 1] == name[pattern.len() - 1]);
            }
        }
    }
}

/// A trailing `*` matches any run of characters, the empty run included:
/// `pattern*` matches a name exactly when some prefix of the name matches
/// `pattern`.
pub proof fn lemma_trailing_star(pattern: Seq<char>, name: Seq<char>)
    ensures
        glob_matches(pattern.push('*'), name) <==> exists|k: int| 0 <= k <= name.len()
            && #[trigger] glob_matches(pattern, name.take(k)),
    decreases name.len(),
{
    let ps = pattern.push('*');
    assert(ps.last() == '*');
    assert(ps.drop_last() =~= pattern);
    assert(ps.len() > 0);
    assert(name.take(name.len() as int) =~= name);
    if name.len() == 0 {
        assert(name.take(0) =~= name);
        if glob_matches(ps, name) {
            assert(glob_matches(pattern, name.take(0)));
        }
        if exists|k: int| 0 <= k <= name.len() && #[trigger] glob_matches(pattern, name.take(k)) {
            let k = choose|k: int| 0 <= k <= name.len() && #[trigger] glob_matches(pattern, name.take(k));
            assert(k == 0);
            assert(name.take(k) =~= name);
        }
    } else {
        let nd = name.drop_last();
        lemma_trailing_star(pattern, nd);
        if glob_matches(ps, name) {
            if glob_matches(pattern, name) {
                assert(glob_matches(pattern, name.take(name.len() as int)));
            } else {
                let k = choose|k: int| 0 <= k <= nd.len() && #[trigger] glob_matches(pattern, nd.take(k));
                assert(nd.take(k) =~= name.take(k));
                assert(glob_matches(pattern, name.take(k)));
            }
        }
        if exists|k: int| 0 <= k <= name.len() && #[trigger] glob_matches(pattern, name.take(k)) {
            let k = choose|k: int| 0 <= k <= name.len() && #[trigger] glob_matches(pattern, name.take(k));
            if k == name.len() {
                assert(glob_matches(pattern, name));
            } else {
                assert(nd.take(k) =~= name.take(k));
                assert(glob_matches(pattern, nd.take(k)));
                assert(glob_matches(ps, nd));
            }
        }
    }
}

/// A pattern without wildcards matches exactly the name equal to it.
pub proof fn lemma_literal_pattern(pattern: Seq<char>, name: Seq<char>)
    requires
        forall|i: int| 0 <= i < pattern.len() ==> #[trigger] pattern[i] != '*' && pattern[i] != '?',
    ensures
        glob_matches(pattern, name) <==> pattern == name,
    decreases pattern.len() + name.len(),
{
    if pattern.len() == 0 {
        if name.len() == 0 {
            assert(pattern =~= name);
        }
    } else {
        let pd = pattern.drop_last();
        assert(pattern.last() == pattern[pattern.len() - 1]);
        assert forall|i: int| 0 <= i < pd.len() implies #[trigger] pd[i] != '*' && pd[i] != '?' by {
            assert(pd[i] == pattern[i]);
        }
        if name.len() > 0 {
            lemma_literal_pattern(pd, name.drop_last());
            if pattern.last() == name.last() && pd == name.drop_last() {
                assert forall|i: int| 0 <= i < pattern.len() implies pattern[i] == name[i] by {
                    if i < pattern.len() - 1 {
                        assert(pd[i] == pattern[i]);
                        assert(name.drop_last()[i] == name[i]);
                    }
                }
                assert(pattern =~= name);
            }
            if pattern == name {
                assert(pd =~= name.drop_last());
            }
        }
    }
}

/// What `str::to_lowercase` returns for a string (full Unicode lowercase
/// mapping).
pub uninterp spec fn lowercase(s: Seq<char>) -> Seq<char>;

/// A character lowercased as ASCII: `A`–`Z` become `a`–`z`, anything else
/// stays.
pub open spec fn ascii_lower(c: char) -> char {
    if 'A' <= c && c <= 'Z' { ((c as u32) + 32) as char } else { c }
}

/// Every character of `s` is ASCII.
pub open spec fn all_ascii(s: Seq<char>) -> bool {
    forall|i: int| 0 <= i < s.len() ==> (#[trigger] s[i] as u32) < 128
}

/// `str::to_lowercase`.
/// Trusted: the result is the Unicode lowercase mapping of `s`, a function of
/// the characters of `s` alone; on ASCII text that mapping turns `A`–`Z`
/// into `a`–`z` and leaves every other character as it is. Beyond ASCII its
/// table is not restated here.
#[verifier::external_body]
pub(crate) fn to_lowercase(s: &str) -> (r: String)
    ensures
        r@ == lowercase(s@),
        all_ascii(s@) ==> r@ == s@.map_values(|c: char| ascii_lower(c)),
{
    s.to_lowercase()
}

/// Case-insensitive glob match: both sides are lowercased first.
pub fn glob_match(pattern: &str, name: &str) -> (r: bool)
    ensures
        r == glob_matches(lowercase(pattern@), lowercase(name@)),
        all_ascii(pattern@) && all_ascii(name@) ==> r == glob_matches(
            pattern@.map_values(|c: char| ascii_lower(c)),
            name@.map_values(|c: char| ascii_lower(c)),
        ),
{
    let pattern = to_lowercase(pattern);
    let name = to_lowercase(name);
    glob_match_inner(pattern.as_str(), name.as_str())
}

/// Case-sensitive glob match by dynamic programming over prefixes.
pub fn glob_match_inner(pattern: &str, name: &str) -> (r: bool)
    ensures
        r == glob_matches(pattern@, name@),
{
    let p = chars_of(pattern);
    let n = chars_of(name);
    let plen = p.len();
    let nlen = n.len();
    // Row 0: the empty pattern matches only the empty name.
    let mut prev: Vec<bool> = Vec::new();
    prev.push(true);
    for j in 0..nlen
        invariant
            nlen == n@.len(),
            prev@.len() == j + 1,
            forall|k: int| 0 <= k <= j ==> prev@[k] == glob_matches(p@.take(0), #[trigger] n@.take(k)),
    {
        prev.push(false);
        assert(glob_matches(p@.take(0), n@.take(j + 1)) == false);
    }
    for i in 0..plen
        invariant
            plen == p@.len(),
            nlen == n@.len(),
            prev@.len() == nlen + 1,
            forall|k: int| 0 <= k <= nlen ==> prev@[k] == glob_matches(p@.take(i as int), #[trigger] n@.take(k)),
    {
        let pc = p[i];
        let ghost pi = p@.take(i + 1);
        assert(pi.drop_last() == p@.take(i as int));
        assert(pi.last() == pc);
        let mut cur: Vec<bool> = Vec::new();
        let first = if pc == '*' { prev[0] } else { false };
        assert(n@.take(0).len() == 0);
        cur.push(first);
        for j in 0..nlen
            invariant
                plen == p@.len(),
                nlen == n@.len(),
                i < plen,
                pc == p@[i as int],
                pi == p@.take(i + 1),
                pi.drop_last() == p@.take(i as int),
                pi.last() == pc,
                prev@.len() == nlen + 1,
                forall|k: int| 0 <= k <= nlen ==> prev@[k] == glob_matches(p@.take(i as int), #[trigger] n@.take(k)),
                cur@.len() == j + 1,
                forall|k: int| 0 <= k <= j ==> cur@[k] == glob_matches(pi, #[trigger] n@.take(k)),
        {
            let nc = n[j];
            let ghost nj = n@.take(j + 1);
            assert(nj.drop_last() == n@.take(j as int));
            assert(nj.last() == nc);
            let v = if pc == '*' {
                prev[j + 1] || cur[j]
            } else if pc == '?' || pc == nc {
                prev[j]
            } else {
                false
            };
            assert(v == glob_matches(pi, nj));
            cur.push(v);
        }
        prev = cur;
    }
    assert(p@.take(plen as int) == p@);
    assert(n@.take(nlen as int) == n@);
    prev[nlen]
}

/// Options controlling a file search.
#[derive(Debug, Clone)]
pub struct SearchOpts {
    /// Glob pattern for file names (e.g. "*.rs")
    pub name_glob: Option<String>,
    /// Substring to find in file content
    pub content_pattern: Option<String>,
    /// Maximum directory depth (None = unlimited)
    pub max_depth: Option<usize>,
    /// Minimum file size in bytes
    pub min_size: Option<u64>,
    /// Maximum file size in bytes
    pub max_size: Option<u64>,
    /// Whether to follow symlinks
    pub follow_symlinks: bool,
}

impl Default for SearchOpts {
    fn default() -> (o: Self)
        ensures
            o.name_glob is None,
            o.content_pattern is None,
            o.max_depth is None,
            o.min_size is None,
            o.max_size is None,
            !o.follow_symlinks,
    {
        SearchOpts {
            name_glob: None,
            content_pattern: None,
            max_depth: None,
            min_size: None,
            max_size: None,
            follow_symlinks: false,
        }
    }
}

/// The value of search options: patterns by their characters.
pub struct SearchOptsModel {
    pub name_glob: Option<Seq<char>>,
    pub content_pattern: Option<Seq<char>>,
    pub max_depth: Option<usize>,
    pub min_size: Option<u64>,
    pub max_size: Option<u64>,
    pub follow_symlinks: bool,
}

impl View for SearchOpts {
    type V = SearchOptsModel;

    open spec fn view(&self) -> SearchOptsModel {
        SearchOptsModel {
            name_glob: opt_view(self.name_glob),
            content_pattern: opt_view(self.content_pattern),
            max_depth: self.max_depth,
            min_size: self.min_size,
            max_size: self.max_size,
            follow_symlinks: self.follow_symlinks,
        }
    }
}

/// A single search result.
#[derive(Debug)]
pub struct SearchResult {
    /// Path to the matching file
    pub path: std::path::PathBuf,
    /// Matching line and its 1-based line number (for content search)
    pub match_line: Option<(usize, String)>,
}

/// A file passes the name and size filters: its name matches the glob (when
/// one is given) and, when its size is known, it is within the bounds.
pub open spec fn passes_filters(opts: SearchOpts, file_name: Seq<char>, size: Option<u64>) -> bool {
    &&& (opts.name_glob matches Some(g) ==> glob_matches(lowercase(g@), lowercase(file_name)))
    &&& (size matches Some(sz) ==> {
        &&& (opts.min_size matches Some(min) ==> sz >= min)
        &&& (opts.max_size matches Some(max) ==> sz <= max)
    })
}

/// Whether a file with this name and (known or unknown) size passes the
/// name and size filters of `opts`.
pub fn file_passes(opts: &SearchOpts, file_name: &str, size: Option<u64>) -> (r: bool)
    ensures
        r == passes_filters(*opts, file_name@, size),
{
    if let Some(pattern) = &opts.name_glob {
        if !glob_match(pattern.as_str(), file_name) {
            return false;
        }
    }
    if let Some(sz) = size {
        if let Some(min) = opts.min_size {
            if sz < min {
                return false;
            }
        }
        if let Some(max) = opts.max_size {
            if sz > max {
                return false;
            }
        }
    }
    true
}

/// `pattern` occurs in `line`.
pub open spec fn contains_seq(line: Seq<char>, pattern: Seq<char>) -> bool {
    exists|i: int| 0 <= i && i + pattern.len() <= line.len() && #[trigger] line.subrange(i, i + pattern.len()) == pattern
}

/// The first line (from index `k` on) that contains `pattern`, with its
/// 1-based number.
pub open spec fn first_match_from(ls: Seq<Seq<char>>, pattern: Seq<char>, k: nat) -> Option<(nat, Seq<char>)>
    decreases ls.len() - k,
{
    if k >= ls.len() {
        None
    } else if contains_seq(ls[k as int], pattern) {
        Some((k + 1, ls[k as int]))
    } else {
        first_match_from(ls, pattern, k + 1)
    }
}

/// The content match is the first line that holds the pattern: its number
/// counts lines from 1, the line holds the pattern, and no line before it
/// (from index `k` on) does; there is none only when no such line holds
/// it.
pub proof fn lemma_first_match(ls: Seq<Seq<char>>, pattern: Seq<char>, k: nat)
    ensures
        first_match_from(ls, pattern, k) matches Some((n, line)) ==> {
            &&& k + 1 <= n <= ls.len()
            &&& line == ls[n - 1]
            &&& contains_seq(line, pattern)
            &&& forall|j: int| k <= j < n - 1 ==> !contains_seq(#[trigger] ls[j], pattern)
        },
        first_match_from(ls, pattern, k) is None ==> forall|j: int| k <= j < ls.len() ==> !contains_seq(
            #[trigger] ls[j],
            pattern,
        ),
    decreases ls.len() - k,
{
    if k < ls.len() && !contains_seq(ls[k as int], pattern) {
        lemma_first_match(ls, pattern, k + 1);
    }
}

/// Whether `pattern` occurs in `line`.
pub fn contains_chars(line: &[char], pattern: &[char]) -> (r: bool)
    ensures
        r == contains_seq(line@, pattern@),
{
    if pattern.len() > line.len() {
        return false;
    }
    if pattern.len() == 0 {
        assert(line@.subrange(0, 0 + pattern@.len() as int) =~= pattern@);
        return true;
    }
    let last = line.len() - pattern.len();
    let mut i: usize = 0;
    while i <= last
        invariant
            last == line@.len() - pattern@.len(),
            pattern@.len() >= 1,
            line@.len() <= usize::MAX,
            i <= last + 1,
            forall|k: int| 0 <= k < i ==> #[trigger] line@.subrange(k, k + pattern@.len()) != pattern@,
        decreases last + 1 - i,
    {
        let mut j: usize = 0;
        let mut ok = true;
        while j < pattern.len()
            invariant
                i <= last,
                last == line@.len() - pattern@.len(),
                line@.len() <= usize::MAX,
                j <= pattern@.len(),
                ok ==> forall|t: int| 0 <= t < j ==> line@[i + t] == pattern@[t],
                !ok ==> line@.subrange(i as int, i + pattern@.len()) != pattern@,
            decreases pattern@.len() - j,
        {
            if line[i + j] != pattern[j] {
                ok = false;
                assert(line@.subrange(i as int, i + pattern@.len())[j as int] != pattern@[j as int]);
            }
            j += 1;
        }
        if ok {
            assert(line@.subrange(i as int, i + pattern@.len()) =~= pattern@);
            return true;
        }
        i += 1;
    }
    false
}

/// The first line of `content` (split as `str::lines` does) that contains
/// `pattern`, with its 1-based line number.
pub fn first_matching_line(content: &str, pattern: &str) -> (r: Option<(usize, String)>)
    ensures
        match first_match_from(lines(content@), pattern@, 0) {
            Some((n, l)) => r matches Some((rn, rl)) && rn == n && rl@ == l,
            None => r is None,
        },
{
    let c = chars_of(content);
    let p = chars_of(pattern);
    let ls = split_lines(&c);
    let ghost all = vecs_view(ls@);
    let mut k: usize = 0;
    while k < ls.len()
        invariant
            all == vecs_view(ls@),
            all == lines(content@),
            p@ == pattern@,
            k <= ls@.len(),
            first_match_from(all, p@, 0) == first_match_from(all, p@, k as nat),
        decreases ls@.len() - k,
    {
        if contains_chars(&ls[k], &p) {
            assert(all[k as int] == ls@[k as int]@);
            return Some((k + 1, string_from_chars(&ls[k])));
        }
        k += 1;
    }
    None
}

/// What the search reports for one regular file, from its name, its size
/// (`None` when its metadata could not be read) and its text (`None` when it
/// could not be read as UTF-8 text).
pub open spec fn entry_outcome(
    opts: SearchOpts,
    file_name: Seq<char>,
    size: Option<u64>,
    content: Option<Seq<char>>,
) -> Option<Option<(nat, Seq<char>)>> {
    if !passes_filters(opts, file_name, size) {
        None
    } else {
        match opts.content_pattern {
            None => Some(None),
            Some(p) => match content {
                None => None,
                Some(c) => match first_match_from(lines(c), p@, 0) {
                    Some(m) => Some(Some(m)),
                    None => None,
                },
            },
        }
    }
}

/// The result the search records for one regular file at `path`, or `None`
/// when the file is filtered out: by name, by size, by being unreadable as
/// text, or by not containing the content pattern (the first matching line
/// is reported).
pub fn entry_result(
    opts: &SearchOpts,
    path: &std::path::PathBuf,
    file_name: &str,
    size: Option<u64>,
    content: Option<&str>,
) -> (r: Option<SearchResult>)
    ensures
        match entry_outcome(
            *opts,
            file_name@,
            size,
            match content { Some(c) => Some(c@), None => None },
        ) {
            None => r is None,
            Some(m) => r matches Some(res) && res.path == *path && match m {
                None => res.match_line is None,
                Some((n, l)) => res.match_line matches Some((rn, rl)) && rn == n && rl@ == l,
            },
        },
{
    if !file_passes(opts, file_name, size) {
        return None;
    }
    match &opts.content_pattern {
        None => Some(SearchResult { path: path.clone(), match_line: None }),
        Some(pattern) => match content {
            None => None,
            Some(text) => match first_matching_line(text, pattern.as_str()) {
                Some(m) => Some(SearchResult { path: path.clone(), match_line: Some(m) }),
                None => None,
            },
        },
    }
}

} // verus!
