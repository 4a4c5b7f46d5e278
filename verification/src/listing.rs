//! Directory listing records: file kinds, permission strings, sizes and the
//! order in which a directory's entries are shown.

use vstd::prelude::*;
use crate::search::{lowercase, to_lowercase};
use crate::sorting::{SortKey, key_le, sort_by_keys, stably_sorted_by, text_lt};
use crate::text::{chars_of, push_char};
use crate::units::{format_size_steps, size_text};

verus! {

#[verifier::external_type_specification]
#[verifier::external_body]
pub struct ExPathBuf(std::path::PathBuf);

/// `PathBuf::clone`.
/// Trusted: cloning a path buffer yields an equal path.
pub assume_specification[ <std::path::PathBuf as Clone>::clone ](p: &std::path::PathBuf) -> (r: std::path::PathBuf)
    ensures
        r == *p,
;

/// The kind of a filesystem entry.
#[derive(Debug, Clone, Copy, PartialEq, Eq, Structural)]
pub enum FileKind {
    Directory,
    RegularFile,
    Symlink,
    Other,
}

/// A single entry in a directory listing.
#[derive(Debug)]
pub struct FileEntry {
    /// File or directory name
    pub name: String,
    /// Full path
    pub path: std::path::PathBuf,
    /// File kind
    pub kind: FileKind,
    /// Size in bytes (0 for directories)
    pub size: u64,
    /// Last modification time, in seconds since the Unix epoch
    pub modified: Option<i64>,
    /// File permissions as a Unix mode string, e.g. "rwxr-xr-x"
    pub permissions: String,
    /// Extension (lowercase, without the dot)
    pub extension: Option<String>,
}

/// The value of an entry: names and strings by their characters.
pub struct FileEntryModel {
    pub name: Seq<char>,
    pub path: std::path::PathBuf,
    pub kind: FileKind,
    pub size: u64,
    pub modified: Option<i64>,
    pub permissions: Seq<char>,
    pub extension: Option<Seq<char>>,
}

impl View for FileEntry {
    type V = FileEntryModel;

    open spec fn view(&self) -> FileEntryModel {
        FileEntryModel {
            name: self.name@,
            path: self.path,
            kind: self.kind,
            size: self.size,
            modified: self.modified,
            permissions: self.permissions@,
            extension: match self.extension {
                Some(e) => Some(e@),
                None => None,
            },
        }
    }
}

impl Clone for FileEntry {
    fn clone(&self) -> (r: Self)
        ensures
            r@ == self@,
    {
        FileEntry {
            name: self.name.clone(),
            path: self.path.clone(),
            kind: self.kind,
            size: self.size,
            modified: self.modified,
            permissions: self.permissions.clone(),
            extension: match &self.extension {
                Some(e) => Some(e.clone()),
                None => None,
            },
        }
    }
}

/// `bytes` in units up to TB, as the browser shows sizes.
pub fn format_size(bytes: u64) -> (s: String)
    ensures
        s@ == size_text(bytes as nat, 4),
{
    format_size_steps(bytes, 4)
}

impl FileEntry {
    /// Returns true if this entry is a directory.
    pub fn is_dir(&self) -> (r: bool)
        ensures
            r == (self.kind == FileKind::Directory),
    {
        self.kind == FileKind::Directory
    }

    /// Returns a short human-readable size string (empty for directories).
    pub fn size_display(&self) -> (s: String)
        ensures
            s@ == (if self.kind == FileKind::Directory { Seq::empty() } else { size_text(self.size as nat, 4) }),
    {
        if self.is_dir() {
            return String::new();
        }
        format_size(self.size)
    }
}

/// Bit `k` of `mode` is set.
pub open spec fn mode_bit(mode: u32, k: u32) -> bool {
    (mode / pow2_u32(k)) % 2 == 1
}

/// 2^k as a `u32`.
pub open spec fn pow2_u32(k: u32) -> u32
    decreases k,
{
    if k == 0 { 1 } else { (2 * pow2_u32((k - 1) as u32)) as u32 }
}

/// The `rwxrwxrwx` string of the permission bits of `mode`: owner, group,
/// other; a letter where the bit is set, `-` where it is not.
pub open spec fn permission_string(mode: u32) -> Seq<char> {
    seq![
        if mode_bit(mode, 8) { 'r' } else { '-' },
        if mode_bit(mode, 7) { 'w' } else { '-' },
        if mode_bit(mode, 6) { 'x' } else { '-' },
        if mode_bit(mode, 5) { 'r' } else { '-' },
        if mode_bit(mode, 4) { 'w' } else { '-' },
        if mode_bit(mode, 3) { 'x' } else { '-' },
        if mode_bit(mode, 2) { 'r' } else { '-' },
        if mode_bit(mode, 1) { 'w' } else { '-' },
        if mode_bit(mode, 0) { 'x' } else { '-' },
    ]
}

/// Formats the permission bits of a Unix file mode.
pub fn format_permissions(mode: u32) -> (s: String)
    ensures
        s@ == permission_string(mode),
{
    proof {
        reveal_with_fuel(pow2_u32, 9);
    }
    let letters: [char; 3] = ['r', 'w', 'x'];
    let mut s = String::new();
    let mut bit: u32 = 256;
    let mut i: usize = 0;
    let ghost target = permission_string(mode);
    while i < 9
        invariant
            i <= 9,
            i < 9 ==> bit == pow2_u32((8 - i) as u32),
            s@ == target.take(i as int),
            target == permission_string(mode),
            letters@ == seq!['r', 'w', 'x'],
        decreases 9 - i,
    {
        proof {
            reveal_with_fuel(pow2_u32, 9);
        }
        let c = if (mode / bit) % 2 == 1 { letters[i % 3] } else { '-' };
        assert(c == target[i as int]);
        push_char(&mut s, c);
        assert(target.take(i + 1) == target.take(i as int).push(target[i as int]));
        i += 1;
        if i < 9 {
            bit = bit / 2;
        }
    }
    assert(target.take(9) == target);
    s
}

/// The kind of an entry from its metadata: a directory, else a symlink, else
/// a regular file, else something else.
pub open spec fn kind_of(is_dir: bool, is_symlink: bool, is_file: bool) -> FileKind {
    if is_dir {
        FileKind::Directory
    } else if is_symlink {
        FileKind::Symlink
    } else if is_file {
        FileKind::RegularFile
    } else {
        FileKind::Other
    }
}

/// A listing entry from a directory entry's name, path and metadata; the
/// extension is lowercased and only regular files report a size.
pub fn file_entry(
    name: String,
    path: std::path::PathBuf,
    is_dir: bool,
    is_symlink: bool,
    is_file: bool,
    len: u64,
    modified: Option<i64>,
    mode: u32,
    extension: Option<String>,
) -> (e: FileEntry)
    ensures
        e.name@ == name@,
        e.path == path,
        e.kind == kind_of(is_dir, is_symlink, is_file),
        e.size == (if is_file { len } else { 0 }),
        e.modified == modified,
        e.permissions@ == permission_string(mode),
        match extension {
            Some(x) => e.extension matches Some(l) && l@ == lowercase(x@),
            None => e.extension is None,
        },
{
    let kind = if is_dir {
        FileKind::Directory
    } else if is_symlink {
        FileKind::Symlink
    } else if is_file {
        FileKind::RegularFile
    } else {
        FileKind::Other
    };
    let extension = match extension {
        Some(x) => Some(to_lowercase(x.as_str())),
        None => None,
    };
    FileEntry {
        name,
        path,
        kind,
        size: if is_file { len } else { 0 },
        modified,
        permissions: format_permissions(mode),
        extension,
    }
}

/// The listing key of an entry: directories first, then by lowercased name.
pub open spec fn listing_key(e: FileEntryModel) -> (u8, Seq<char>) {
    (if e.kind == FileKind::Directory { 0u8 } else { 1u8 }, lowercase(e.name))
}

/// Orders a directory listing: directories first, then files, both groups
/// sorted alphabetically (case-insensitive), equal names keeping their order.
pub fn sort_listing(entries: Vec<FileEntry>) -> (r: Vec<FileEntry>)
    ensures
        stably_sorted_by(entries@, entries@.map_values(|e: FileEntry| listing_key(e@)), r@),
{
    let mut keys: Vec<SortKey> = Vec::new();
    for i in 0..entries.len()
        invariant
            keys@.len() == i,
            forall|k: int| 0 <= k < i ==> #[trigger] keys@[k]@ == listing_key(entries@[k]@),
    {
        let e = &entries[i];
        let lower = to_lowercase(e.name.as_str());
        let rank: u8 = if e.is_dir() { 0 } else { 1 };
        keys.push(SortKey { rank, text: chars_of(lower.as_str()) });
    }
    let ghost ks = keys@.map_values(|k: SortKey| k@);
    assert(ks =~= entries@.map_values(|e: FileEntry| listing_key(e@)));
    sort_by_keys(entries, keys)
}

/// A file-browser entry for a search hit: a regular file known by its path,
/// name and (lowercased) extension only.
pub fn search_hit_entry(path: std::path::PathBuf, name: String, extension: Option<String>) -> (e: FileEntry)
    ensures
        e.name@ == name@,
        e.path == path,
        e.kind == FileKind::RegularFile,
        e.size == 0,
        e.modified is None,
        e.permissions@ == Seq::<char>::empty(),
        match extension {
            Some(x) => e.extension matches Some(l) && l@ == lowercase(x@),
            None => e.extension is None,
        },
{
    let extension = match extension {
        Some(x) => Some(to_lowercase(x.as_str())),
        None => None,
    };
    FileEntry {
        name,
        path,
        kind: FileKind::RegularFile,
        size: 0,
        modified: None,
        permissions: String::new(),
        extension,
    }
}

/// Whether the extension is one of `names`.
pub open spec fn ext_in(ext: Seq<char>, names: Seq<Seq<char>>) -> bool {
    names.contains(ext)
}

/// The icon the browser shows for an entry of this kind and extension.
pub open spec fn icon_of(kind: FileKind, ext: Option<Seq<char>>) -> Seq<char> {
    match kind {
        FileKind::Directory => "📁"@,
        FileKind::Symlink => "🔗"@,
        FileKind::Other => "❓"@,
        FileKind::RegularFile => match ext {
            None => "📄"@,
            Some(e) => if e == "rs"@ {
                "🦀"@
            } else if ext_in(e, seq!["txt"@, "md"@, "log"@]) {
                "📄"@
            } else if ext_in(e, seq!["png"@, "jpg"@, "jpeg"@, "gif"@, "bmp"@, "svg"@]) {
                "🖼"@
            } else if ext_in(e, seq!["zip"@, "tar"@, "gz"@, "xz"@, "bz2"@, "zst"@]) {
                "📦"@
            } else if ext_in(e, seq!["py"@, "js"@, "ts"@, "go"@, "c"@, "cpp"@, "h"@]) {
                "📝"@
            } else if ext_in(e, seq!["json"@, "toml"@, "yaml"@, "yml"@, "xml"@]) {
                "⚙"@
            } else if ext_in(e, seq!["sh"@, "bash"@, "zsh"@]) {
                "🐚"@
            } else if e == "pdf"@ {
                "📕"@
            } else if ext_in(e, seq!["iso"@, "img"@]) {
                "💿"@
            } else {
                "📄"@
            },
        },
    }
}

fn ext_among(e: &str, names: &[&str]) -> (r: bool)
    ensures
        r == ext_in(e@, names@.map_values(|n: &str| n@)),
{
    let ghost views = names@.map_values(|n: &str| n@);
    for i in 0..names.len()
        invariant
            views == names@.map_values(|n: &str| n@),
            forall|k: int| 0 <= k < i ==> views[k] != e@,
    {
        if crate::text::str_eq(e, names[i]) {
            assert(views[i as int] == e@);
            return true;
        }
    }
    assert(!views.contains(e@)) by {
        if views.contains(e@) {
            let k = choose|k: int| 0 <= k < views.len() && views[k] == e@;
            assert(views[k] != e@);
        }
    }
    false
}

/// The icon the browser shows for an entry of this kind and extension.
pub fn file_icon(kind: &FileKind, ext: Option<&str>) -> (r: &'static str)
    ensures
        r@ == icon_of(*kind, match ext { Some(e) => Some(e@), None => None }),
{
    match kind {
        FileKind::Directory => "📁",
        FileKind::Symlink => "🔗",
        FileKind::Other => "❓",
        FileKind::RegularFile => match ext {
            None => "📄",
            Some(e) => {
                let group1: [&str; 3] = ["txt", "md", "log"];
                let group2: [&str; 6] = ["png", "jpg", "jpeg", "gif", "bmp", "svg"];
                let group3: [&str; 6] = ["zip", "tar", "gz", "xz", "bz2", "zst"];
                let group4: [&str; 7] = ["py", "js", "ts", "go", "c", "cpp", "h"];
                let group5: [&str; 5] = ["json", "toml", "yaml", "yml", "xml"];
                let group6: [&str; 3] = ["sh", "bash", "zsh"];
                let group7: [&str; 2] = ["iso", "img"];
                assert(group1@.map_values(|n: &str| n@) =~= seq!["txt"@, "md"@, "log"@]);
                assert(group2@.map_values(|n: &str| n@) =~= seq!["png"@, "jpg"@, "jpeg"@, "gif"@, "bmp"@, "svg"@]);
                assert(group3@.map_values(|n: &str| n@) =~= seq!["zip"@, "tar"@, "gz"@, "xz"@, "bz2"@, "zst"@]);
                assert(group4@.map_values(|n: &str| n@) =~= seq!["py"@, "js"@, "ts"@, "go"@, "c"@, "cpp"@, "h"@]);
                assert(group5@.map_values(|n: &str| n@) =~= seq!["json"@, "toml"@, "yaml"@, "yml"@, "xml"@]);
                assert(group6@.map_values(|n: &str| n@) =~= seq!["sh"@, "bash"@, "zsh"@]);
                assert(group7@.map_values(|n: &str| n@) =~= seq!["iso"@, "img"@]);
                if crate::text::str_eq(e, "rs") {
                    "🦀"
                } else if ext_among(e, &group1) {
                    "📄"
                } else if ext_among(e, &group2) {
                    "🖼"
                } else if ext_among(e, &group3) {
                    "📦"
                } else if ext_among(e, &group4) {
                    "📝"
                } else if ext_among(e, &group5) {
                    "⚙"
                } else if ext_among(e, &group6) {
                    "🐚"
                } else if crate::text::str_eq(e, "pdf") {
                    "📕"
                } else if ext_among(e, &group7) {
                    "💿"
                } else {
                    "📄"
                }
            },
        },
    }
}

/// In a sorted listing directories come before everything else, and within
/// each group no name comes after a later one (names compared lowercased).
pub proof fn lemma_listing_order(entries: Seq<FileEntry>, r: Seq<FileEntry>, i: int, j: int)
    requires
        stably_sorted_by(entries, entries.map_values(|e: FileEntry| listing_key(e@)), r),
        0 <= i < j < r.len(),
    ensures
        r[j].kind == FileKind::Directory ==> r[i].kind == FileKind::Directory,
        (r[i].kind == FileKind::Directory) == (r[j].kind == FileKind::Directory)
            ==> !text_lt(lowercase(r[j].name@), lowercase(r[i].name@)),
{
    let keys = entries.map_values(|e: FileEntry| listing_key(e@));
    let perm = choose|perm: Seq<int>| {
        &&& crate::sorting::is_permutation(perm, entries.len())
        &&& r.len() == entries.len()
        &&& forall|k: int| 0 <= k < entries.len() ==> #[trigger] r[k] == entries[perm[k]]
        &&& forall|a: int, b: int| 0 <= a < b < entries.len() ==>
            key_le(keys[#[trigger] perm[a]], keys[#[trigger] perm[b]])
        &&& forall|a: int, b: int| 0 <= a < b < entries.len() && keys[perm[a]] == keys[perm[b]] ==>
            #[trigger] perm[a] < #[trigger] perm[b]
    };
    assert(r[i] == entries[perm[i]]);
    assert(r[j] == entries[perm[j]]);
    assert(key_le(keys[perm[i]], keys[perm[j]]));
    assert(keys[perm[i]] == listing_key(r[i]@));
    assert(keys[perm[j]] == listing_key(r[j]@));
}

} // verus!
