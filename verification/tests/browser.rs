use ironkey::text::char_is_whitespace;
use ironkey::listing::{file_entry, file_icon, format_permissions, format_size, search_hit_entry, sort_listing, FileEntry, FileKind};
use ironkey::search::{contains_chars, entry_result, file_passes, first_matching_line, glob_match, glob_match_inner, SearchOpts};
use ironkey::viewer::{build_hex_dump, is_text_content, unreadable_content, view_bytes, view_read_len, HexLine, ViewMode, MAX_VIEW_BYTES};
use std::path::PathBuf;

fn entry(name: &str, kind: FileKind) -> FileEntry {
    FileEntry {
        name: name.to_string(),
        path: PathBuf::from(format!("/tmp/{}", name)),
        kind,
        size: 0,
        modified: None,
        permissions: String::new(),
        extension: None,
    }
}

#[test]
fn format_size_cases() {
    assert_eq!(format_size(0), "0 B");
    assert_eq!(format_size(1024), "1.0 KB");
    assert_eq!(format_size(1024 * 1024), "1.0 MB");
}

#[test]
fn file_entry_size_display_dir() {
    let entry = FileEntry {
        name: "testdir".to_string(),
        path: std::path::PathBuf::from("/tmp/testdir"),
        kind: FileKind::Directory,
        size: 0,
        modified: None,
        permissions: "rwxr-xr-x".to_string(),
        extension: None,
    };
    assert_eq!(entry.size_display(), "");
}

#[test]
fn glob_star() {
    assert!(glob_match("*.rs", "main.rs"));
    assert!(!glob_match("*.rs", "main.py"));
}

#[test]
fn glob_question() {
    assert!(glob_match("ma?n.rs", "main.rs"));
    assert!(!glob_match("ma?n.rs", "maiin.rs"));
}

#[test]
fn glob_no_wildcard() {
    assert!(glob_match("main.rs", "main.rs"));
    assert!(!glob_match("main.rs", "main.py"));
}

#[test]
fn glob_case_insensitive() {
    assert!(glob_match("*.RS", "main.rs"));
}

#[test]
fn glob_star_alone_matches_everything() {
    for name in ["", "a", "main.rs", "ÄÖÜ", "*?"] {
        assert!(glob_match("*", name));
    }
}

#[test]
fn glob_inner_is_case_sensitive() {
    assert!(!glob_match_inner("*.RS", "main.rs"));
    assert!(glob_match_inner("*.rs", "main.rs"));
    assert!(glob_match_inner("", ""));
    assert!(!glob_match_inner("", "a"));
    assert!(glob_match_inner("a*b*c", "aXXbYYc"));
    assert!(!glob_match_inner("a*b*c", "aXXbYY"));
}

#[test]
fn glob_lowercases_unicode() {
    assert!(glob_match("ÄPFEL.TXT", "äpfel.txt"));
}

#[test]
fn hex_line_rendering() {
    let line = HexLine { offset: 0, bytes: vec![0x48, 0x65, 0x6C, 0x6C, 0x6F] };
    assert_eq!(line.hex_str(), "48 65 6C 6C 6F");
    assert_eq!(line.ascii_str(), "Hello");
}

#[test]
fn hex_line_non_printable() {
    let line = HexLine { offset: 0, bytes: vec![0x00, 0x01, 0x41] };
    assert_eq!(line.ascii_str(), "..A");
}

#[test]
fn hex_line_edges() {
    let line = HexLine { offset: 0, bytes: vec![0x20, 0x7E, 0x7F, 0xFF, 0x0A] };
    assert_eq!(line.hex_str(), "20 7E 7F FF 0A");
    assert_eq!(line.ascii_str(), " ~...");
    let empty = HexLine { offset: 0, bytes: vec![] };
    assert_eq!(empty.hex_str(), "");
    assert_eq!(empty.ascii_str(), "");
}

#[test]
fn hex_text_reads_back_as_bytes() {
    let bytes: Vec<u8> = (0..=255u8).step_by(7).collect();
    let line = HexLine { offset: 4096, bytes: bytes.clone() };
    let text = line.hex_str();
    assert_eq!(text.len(), 3 * bytes.len() - 1);
    let back: Vec<u8> = text.split(' ').map(|t| u8::from_str_radix(t, 16).unwrap()).collect();
    assert_eq!(back, bytes);
    let moved = HexLine { offset: 0, bytes };
    assert_eq!(moved.hex_str(), text);
}

#[test]
fn text_detection() {
    assert!(is_text_content(b"hello world\n"));
    assert!(!is_text_content(b"\x00\x01\x02\x03"));
}

#[test]
fn text_detection_ratio_and_utf8() {
    assert!(is_text_content(b""));
    // invalid UTF-8
    assert!(!is_text_content(b"abc\xff"));
    // high bytes must stay under 5% of the buffer
    let mut s = "é".as_bytes().to_vec(); // two high bytes
    s.extend_from_slice(&[b'a'; 38]); // 40 bytes in all: exactly 5%
    assert_eq!(s.len(), 40);
    assert!(!is_text_content(&s));
    s.push(b'b'); // 2 / 41 < 5%
    assert!(is_text_content(&s));
    // 2 / 21 is under 10% but not under 5%
    let mut t = "é".as_bytes().to_vec();
    t.extend_from_slice(&[b'a'; 19]);
    assert!(!is_text_content(&t));
}

#[test]
fn hex_dump_lines() {
    let buf: Vec<u8> = (0u8..40).collect();
    let lines = build_hex_dump(&buf);
    assert_eq!(lines.len(), 3);
    assert_eq!(lines[0].offset, 0);
    assert_eq!(lines[1].offset, 16);
    assert_eq!(lines[2].offset, 32);
    assert_eq!(lines[2].bytes, (32u8..40).collect::<Vec<u8>>());
    let joined: Vec<u8> = lines.iter().flat_map(|l| l.bytes.clone()).collect();
    assert_eq!(joined, buf);
    assert_eq!(build_hex_dump(&[]).len(), 0);
}

#[test]
fn view_bytes_modes() {
    let v = view_bytes(b"hello\n", 6);
    assert_eq!(v.mode, ViewMode::Text);
    assert_eq!(v.text.as_deref(), Some("hello\n"));
    assert_eq!(v.bytes_read, 6);
    assert!(!v.truncated);
    let v = view_bytes(&[0u8, 1, 2], 3);
    assert_eq!(v.mode, ViewMode::Hex);
    assert!(v.text.is_none());
    assert_eq!(v.hex_lines.len(), 1);
    let v = view_bytes(b"abc", (MAX_VIEW_BYTES as u64) + 1);
    assert!(v.truncated);
    assert_eq!(view_read_len(10), 10);
    assert_eq!(view_read_len(u64::MAX), MAX_VIEW_BYTES);
}

#[test]
fn unreadable_file_message() {
    let v = unreadable_content();
    assert_eq!(v.mode, ViewMode::Text);
    assert_eq!(v.text.as_deref(), Some("(Could not read file)"));
    assert_eq!(v.file_size, 0);
}

#[test]
fn permissions_strings() {
    assert_eq!(format_permissions(0o755), "rwxr-xr-x");
    assert_eq!(format_permissions(0o644), "rw-r--r--");
    assert_eq!(format_permissions(0), "---------");
    assert_eq!(format_permissions(0o100777), "rwxrwxrwx");
}

#[test]
fn file_entry_from_metadata() {
    let e = file_entry(
        "Notes.TXT".to_string(),
        PathBuf::from("/home/Notes.TXT"),
        false,
        false,
        true,
        2048,
        Some(1_700_000_000),
        0o640,
        Some("TXT".to_string()),
    );
    assert_eq!(e.kind, FileKind::RegularFile);
    assert_eq!(e.size, 2048);
    assert_eq!(e.permissions, "rw-r-----");
    assert_eq!(e.extension.as_deref(), Some("txt"));
    assert_eq!(e.size_display(), "2.0 KB");
    let d = file_entry("d".to_string(), PathBuf::from("/d"), true, false, false, 4096, None, 0o755, None);
    assert_eq!(d.kind, FileKind::Directory);
    assert_eq!(d.size, 0);
    let l = file_entry("l".to_string(), PathBuf::from("/l"), false, true, false, 7, None, 0o777, None);
    assert_eq!(l.kind, FileKind::Symlink);
    assert_eq!(l.size, 0);
}

#[test]
fn listing_directories_first_then_names() {
    let entries = vec![
        entry("b.txt", FileKind::RegularFile),
        entry("Zeta", FileKind::Directory),
        entry("A.txt", FileKind::RegularFile),
        entry("alpha", FileKind::Directory),
    ];
    let sorted = sort_listing(entries);
    let names: Vec<&str> = sorted.iter().map(|e| e.name.as_str()).collect();
    assert_eq!(names, vec!["alpha", "Zeta", "A.txt", "b.txt"]);
}

#[test]
fn listing_sort_is_stable() {
    let entries = vec![entry("X", FileKind::RegularFile), entry("x", FileKind::RegularFile)];
    let sorted = sort_listing(entries);
    assert_eq!(sorted[0].name, "X");
    assert_eq!(sorted[1].name, "x");
}

#[test]
fn search_hit_entries() {
    let e = search_hit_entry(PathBuf::from("/a/Run.SH"), "Run.SH".to_string(), Some("SH".to_string()));
    assert_eq!(e.kind, FileKind::RegularFile);
    assert_eq!(e.extension.as_deref(), Some("sh"));
    assert_eq!(e.size, 0);
    assert_eq!(e.permissions, "");
}

#[test]
fn file_icons() {
    assert_eq!(file_icon(&FileKind::Directory, None), "📁");
    assert_eq!(file_icon(&FileKind::Symlink, Some("rs")), "🔗");
    assert_eq!(file_icon(&FileKind::Other, None), "❓");
    assert_eq!(file_icon(&FileKind::RegularFile, Some("rs")), "🦀");
    assert_eq!(file_icon(&FileKind::RegularFile, Some("jpeg")), "🖼");
    assert_eq!(file_icon(&FileKind::RegularFile, Some("zst")), "📦");
    assert_eq!(file_icon(&FileKind::RegularFile, Some("h")), "📝");
    assert_eq!(file_icon(&FileKind::RegularFile, Some("yml")), "⚙");
    assert_eq!(file_icon(&FileKind::RegularFile, Some("zsh")), "🐚");
    assert_eq!(file_icon(&FileKind::RegularFile, Some("pdf")), "📕");
    assert_eq!(file_icon(&FileKind::RegularFile, Some("img")), "💿");
    assert_eq!(file_icon(&FileKind::RegularFile, Some("exe")), "📄");
    assert_eq!(file_icon(&FileKind::RegularFile, None), "📄");
}

#[test]
fn search_filters() {
    let opts = SearchOpts {
        name_glob: Some("*.log".to_string()),
        content_pattern: None,
        max_depth: None,
        min_size: Some(10),
        max_size: Some(100),
        follow_symlinks: false,
    };
    assert!(file_passes(&opts, "app.LOG", Some(50)));
    assert!(!file_passes(&opts, "app.txt", Some(50)));
    assert!(!file_passes(&opts, "app.log", Some(5)));
    assert!(!file_passes(&opts, "app.log", Some(101)));
    // unknown size passes the size filters
    assert!(file_passes(&opts, "app.log", None));
    let all = SearchOpts::default();
    assert!(file_passes(&all, "anything", Some(0)));
}

#[test]
fn content_matching() {
    let line: Vec<char> = "hello world".chars().collect();
    let pat: Vec<char> = "o w".chars().collect();
    assert!(contains_chars(&line, &pat));
    assert!(contains_chars(&line, &[]));
    assert!(!contains_chars(&line, &"xyz".chars().collect::<Vec<char>>()));
    assert_eq!(first_matching_line("a\nbcd\r\nxbc\n", "bc"), Some((2, "bcd".to_string())));
    assert_eq!(first_matching_line("a\nb\n", "z"), None);
    assert_eq!(first_matching_line("", ""), None);
    assert_eq!(first_matching_line("x", ""), Some((1, "x".to_string())));
}

#[test]
fn search_entry_results() {
    let path = PathBuf::from("/srv/notes.txt");
    let by_name = SearchOpts { name_glob: Some("*.txt".to_string()), ..SearchOpts::default() };
    let r = entry_result(&by_name, &path, "notes.txt", Some(3), None).unwrap();
    assert_eq!(r.path, path);
    assert!(r.match_line.is_none());
    assert!(entry_result(&by_name, &path, "notes.md", Some(3), None).is_none());

    let by_content = SearchOpts { content_pattern: Some("NOTE".to_string()), ..SearchOpts::default() };
    let r = entry_result(&by_content, &path, "notes.txt", None, Some("x\nfix NOTE now\nNOTE 2")).unwrap();
    assert_eq!(r.match_line, Some((2, "fix NOTE now".to_string())));
    assert!(entry_result(&by_content, &path, "notes.txt", None, Some("nothing")).is_none());
    // unreadable as text
    assert!(entry_result(&by_content, &path, "notes.txt", None, None).is_none());
}

#[test]
fn viewer_columns() {
    let line = HexLine { offset: 0x1230, bytes: vec![0x48, 0x65, 0x6C, 0x6C, 0x6F, 0, 1, 2, 3, 4] };
    assert_eq!(line.offset_label(), "00001230");
    assert_eq!(line.padded_hex(), "48 65 6C 6C 6F 00 01 02  03 04                  ");
    let full = HexLine { offset: 0x1_0000_0000, bytes: (0u8..16).collect() };
    assert_eq!(full.offset_label(), "100000000");
    assert_eq!(full.padded_hex(), "00 01 02 03 04 05 06 07  08 09 0A 0B 0C 0D 0E 0F");
    let empty = HexLine { offset: 0, bytes: vec![] };
    assert_eq!(empty.padded_hex(), format!("{}  {}", vec!["  "; 8].join(" "), vec!["  "; 8].join(" ")));
    for (offset, bytes) in [(0u64, vec![7u8]), (u64::MAX, vec![0xAB; 20]), (0xFFFF_FFFF, vec![])] {
        let l = HexLine { offset, bytes: bytes.clone() };
        assert_eq!(l.offset_label(), format!("{:08X}", offset));
        let mut parts: Vec<String> = bytes.iter().map(|b| format!("{:02X}", b)).collect();
        while parts.len() < 16 {
            parts.push("  ".to_string());
        }
        assert_eq!(l.padded_hex(), parts[..8].join(" ") + "  " + &parts[8..].join(" "));
    }
}

#[test]
fn viewer_summary_line() {
    let v = view_bytes(b"hi", 1536);
    assert_eq!(ironkey::viewer::content_summary(&v), "1.5 KB  TEXT");
    let v = view_bytes(&[0u8], (MAX_VIEW_BYTES as u64) * 4);
    assert_eq!(ironkey::viewer::content_summary(&v), "2.0 MB  HEX  (truncated — first 512 KiB shown)");
}

#[test]
fn whitespace_matches_std_on_every_char() {
    for u in 0..=0x10FFFFu32 {
        if let Some(c) = char::from_u32(u) {
            assert_eq!(char_is_whitespace(c), c.is_whitespace(), "U+{:04X}", u);
        }
    }
}
