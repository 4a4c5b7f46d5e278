//! The shell session behind the terminal panel: which shell runs, where,
//! at what size, and with which environment.

use vstd::prelude::*;

verus! {

/// Options for spawning a shell session.
#[derive(Debug)]
pub struct PtyOptions {
    /// Shell binary to run (e.g. "/usr/bin/zsh")
    pub shell: String,
    /// Initial working directory
    pub cwd: std::path::PathBuf,
    /// Terminal size
    pub cols: u16,
    pub rows: u16,
}

impl PtyOptions {
    /// Options for running `shell` in `cwd` on a 120 × 40 terminal.
    pub fn new(shell: String, cwd: std::path::PathBuf) -> (o: PtyOptions)
        ensures
            o.shell == shell,
            o.cwd == cwd,
            o.cols == 120,
            o.rows == 40,
    {
        PtyOptions { shell, cwd, cols: 120, rows: 40 }
    }
}

/// The shells tried, best first.
pub open spec fn shell_candidates() -> Seq<Seq<char>> {
    seq!["/usr/bin/zsh"@, "/bin/zsh"@, "/usr/bin/bash"@, "/bin/bash"@, "/bin/sh"@]
}

/// The shell to run: the first candidate, from `k` on, that is present
/// (`present[i]` tells whether candidate `i` exists), else `/bin/sh`.
pub open spec fn chosen_shell(present: Seq<bool>, k: int) -> Seq<char>
    decreases shell_candidates().len() - k,
{
    if k < 0 || k >= shell_candidates().len() {
        "/bin/sh"@
    } else if k < present.len() && present[k] {
        shell_candidates()[k]
    } else {
        chosen_shell(present, k + 1)
    }
}

/// The paths of the shells tried, best first: zsh, bash, then sh.
pub fn shell_paths() -> (r: Vec<&'static str>)
    ensures
        r@.map_values(|s: &str| s@) == shell_candidates(),
{
    let mut r: Vec<&'static str> = Vec::new();
    r.push("/usr/bin/zsh");
    r.push("/bin/zsh");
    r.push("/usr/bin/bash");
    r.push("/bin/bash");
    r.push("/bin/sh");
    assert(r@.map_values(|s: &str| s@) =~= shell_candidates());
    r
}

/// The best available shell, given which of `shell_paths()` exist on this
/// system (`present[i]` for path `i`; missing entries count as absent).
pub fn find_shell(present: &[bool]) -> (r: String)
    ensures
        r@ == chosen_shell(present@, 0),
{
    let paths = shell_paths();
    let ghost cands = shell_candidates();
    let mut i: usize = 0;
    while i < paths.len()
        invariant
            paths@.map_values(|s: &str| s@) == cands,
            cands == shell_candidates(),
            i <= paths@.len(),
            chosen_shell(present@, 0) == chosen_shell(present@, i as int),
        decreases paths@.len() - i,
    {
        assert(paths@.map_values(|s: &str| s@)[i as int] == paths@[i as int]@);
        if i < present.len() && present[i] {
            return String::from_str(paths[i]);
        }
        i += 1;
    }
    String::from_str("/bin/sh")
}

/// The environment the shell starts with, beyond the inherited one.
pub open spec fn shell_environment_of(version: Seq<char>) -> Seq<(Seq<char>, Seq<char>)> {
    seq![("TERM"@, "xterm-256color"@), ("COLORTERM"@, "truecolor"@), ("IRONKEY_VERSION"@, version)]
}

/// The environment the shell starts with: a 256-colour, true-colour
/// terminal and the IronKey version.
pub fn shell_environment(version: &str) -> (r: Vec<(String, String)>)
    ensures
        r@.map_values(|p: (String, String)| (p.0@, p.1@)) == shell_environment_of(version@),
{
    let mut r: Vec<(String, String)> = Vec::new();
    r.push((String::from_str("TERM"), String::from_str("xterm-256color")));
    r.push((String::from_str("COLORTERM"), String::from_str("truecolor")));
    r.push((String::from_str("IRONKEY_VERSION"), String::from_str(version)));
    assert(r@.map_values(|p: (String, String)| (p.0@, p.1@)) =~= shell_environment_of(version@));
    r
}

} // verus!
