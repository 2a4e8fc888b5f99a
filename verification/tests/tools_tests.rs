use fs_mcp::globbing::keeps_entry;
use fs_mcp::globbing::pattern_error;
use fs_mcp::session::SessionStore;
use fs_mcp::sorting::sort_strings;
use fs_mcp::state::FsTools;
use fs_mcp::text::chars_of;
use fs_mcp::text::replace_all;
use fs_mcp::text::split_lines;
use fs_mcp::text::trim_chars;
use fs_mcp::tools::delete::Delete;
use fs_mcp::tools::list::split_path_and_pattern;
use fs_mcp::tools::list::EntryMetadata;
use fs_mcp::tools::list::List;
use fs_mcp::tools::list_directory::ListDirectory;
use fs_mcp::tools::move_file::Move;
use fs_mcp::tools::move_file::MovePlan;
use fs_mcp::tools::move_file::MoveRefusal;
use fs_mcp::tools::read::Read;
use fs_mcp::tools::read::ReadStage;
use fs_mcp::tools::search::HighlightStyle;
use fs_mcp::tools::search::Search;
use fs_mcp::tools::search::SearchResult;
use fs_mcp::tools::search::SearchStage;
use fs_mcp::tools::write::Opening;
use fs_mcp::tools::write::Write;
use fs_mcp::tools::write::WriteMode;
use fs_mcp::tools::write::WriteStage;
use fs_mcp::tools::write::WriteStep;
use fs_mcp::tools::write_file::WriteFile;

fn text(chars: &Vec<char>) -> String {
    chars.iter().collect()
}

fn list(path: Option<&str>) -> List {
    List { path: path.map(|p| p.to_string()), recursive: None, include_metadata: None }
}

fn search(pattern: &str) -> Search {
    Search {
        pattern: pattern.to_string(),
        path: None,
        case_sensitive: None,
        include_extensions: None,
        max_results: None,
        highlight_style: HighlightStyle::Box,
        context_lines: None,
    }
}

fn write(contents: &str, overwrite: Option<bool>, append: Option<bool>) -> Write {
    Write { path: "f".to_string(), contents: contents.to_string(), overwrite, append, create_directories: None }
}

#[test]
fn path_without_glob_is_a_directory() {
    assert_eq!(split_path_and_pattern("src/tools"), ("src/tools".to_string(), None));
    assert_eq!(split_path_and_pattern(""), ("".to_string(), None));
    assert_eq!(list(None).parse_path_and_pattern(), (".".to_string(), None));
}

#[test]
fn path_with_glob_is_split_at_the_last_separator_before_it() {
    assert_eq!(split_path_and_pattern("src/**/*.rs"), ("src".to_string(), Some("**/*.rs".to_string())));
    assert_eq!(
        split_path_and_pattern("src/languages/*.rs"),
        ("src/languages".to_string(), Some("*.rs".to_string()))
    );
    assert_eq!(split_path_and_pattern("*.rs"), ("".to_string(), Some("*.rs".to_string())));
    assert_eq!(split_path_and_pattern("/a/b?c/d"), ("/a".to_string(), Some("b?c/d".to_string())));
    assert_eq!(split_path_and_pattern("/*"), ("".to_string(), Some("*".to_string())));
    assert_eq!(split_path_and_pattern("a/[xy]"), ("a".to_string(), Some("[xy]".to_string())));
    assert_eq!(split_path_and_pattern("dir\\sub\\*.txt"), ("dir\\sub".to_string(), Some("*.txt".to_string())));
    assert_eq!(split_path_and_pattern("a\\b/c\\*.txt"), ("a\\b".to_string(), Some("c\\*.txt".to_string())));
    assert_eq!(
        list(Some("src/**/*")).parse_path_and_pattern(),
        ("src".to_string(), Some("**/*".to_string()))
    );
}

#[test]
fn list_flags_default_to_off() {
    let tool = list(None);
    assert!(!tool.recursive());
    assert!(!tool.include_metadata());
    assert!(tool.depth_limited(false));
    assert!(!tool.depth_limited(true));
    let tool = List { path: None, recursive: Some(true), include_metadata: Some(true) };
    assert!(tool.recursive());
    assert!(tool.include_metadata());
    assert!(!tool.depth_limited(false));
}

#[test]
fn list_entries_are_named_from_the_base() {
    let metadata =
        EntryMetadata { len: 2, created_secs: 86400, created_nanos: 0, modified_secs: 3600, modified_nanos: 0 };
    let tool = list(None);
    assert_eq!(tool.entry_line("/foo/bar/baz", "/foo/bar", false, metadata), "baz");
    assert_eq!(tool.entry_line("/foo/bar/baz", "/foo/bar", true, metadata), "baz/");
    assert_eq!(tool.entry_line("/foo/bar", "/foo/bar", true, metadata), "");
    assert_eq!(tool.entry_line("/foo/bar/quux", "/foo/bar/baz", false, metadata), "../quux");
    assert_eq!(tool.entry_line("rel/file", "/abs", false, metadata), "rel/file");
    let tool = List { path: None, recursive: None, include_metadata: Some(true) };
    assert_eq!(
        tool.entry_line("/foo/bar/baz", "/foo/bar", false, metadata),
        "baz | 2 bytes | created 1 day ago | modified 1 hour ago"
    );
}

#[test]
fn list_report_sorts_the_entries() {
    let entries = vec!["b.rs".to_string(), "a/".to_string(), "a.rs".to_string(), "B".to_string(), "a".to_string()];
    assert_eq!(List::build_entries("/w", entries), "All paths relative to /w:\n\nB\na\na.rs\na/\nb.rs");
    assert_eq!(List::build_entries("/w", vec![]), "All paths relative to /w:\n\n");
    assert_eq!(List::report("/w", &vec!["z".to_string(), "a".to_string()]), "All paths relative to /w:\n\nz\na");
    assert_eq!(List::not_a_directory("/w/x"), "Path is not a directory: /w/x");
}

#[test]
fn sorting_orders_like_strings() {
    let mut expected = vec!["é", "z", "", "a", "ab", "a", "Z", "10", "9", "日本", "a\u{10000}"];
    let input: Vec<String> = expected.iter().map(|s| s.to_string()).collect();
    expected.sort();
    assert_eq!(sort_strings(input), expected);
}

#[test]
fn list_directory_resolves_against_the_named_session() {
    let mut state = FsTools::new(SessionStore::new());
    state.set_working_directory("/proj".to_string(), Some("s1"));
    let tool = ListDirectory {
        path: "src/languages/*.rs".to_string(),
        session_id: Some("s1".to_string()),
        include_gitignore: None,
        recursive: None,
    };
    let plan = tool.parse_path_and_pattern(&mut state).unwrap();
    assert_eq!(plan.base_path, "/proj/src/languages");
    assert_eq!(plan.pattern.as_deref(), Some("*.rs"));
    assert!(!tool.depth_limited(true));
    assert!(!tool.include_gitignore());

    let tool = ListDirectory { path: "src".to_string(), session_id: None, include_gitignore: None, recursive: None };
    let error = tool.parse_path_and_pattern(&mut state).unwrap_err();
    assert_eq!(
        error.message(),
        "No context found for `default`. Use set_working_directory first or provide an absolute path."
    );
    state.set_working_directory("/w".to_string(), None);
    let plan = tool.parse_path_and_pattern(&mut state).unwrap();
    assert_eq!(plan.base_path, "/w/src");
    assert_eq!(plan.pattern, None);
    assert_eq!(tool.resolve_path("src", &mut state).unwrap(), "/w/src");
    let tool = ListDirectory {
        path: "src".to_string(),
        session_id: Some("other".to_string()),
        include_gitignore: None,
        recursive: None,
    };
    let error = tool.parse_path_and_pattern(&mut state).unwrap_err();
    assert_eq!(
        error.message(),
        "No context found for `other`. Use set_working_directory first or provide an absolute path."
    );
    let tool = ListDirectory { path: "/abs".to_string(), session_id: None, include_gitignore: None, recursive: None };
    assert_eq!(tool.resolve_path("/abs", &mut state).unwrap(), "/abs");
}

#[test]
fn list_directory_report_marks_entries_and_notes_a_missing_session() {
    assert_eq!(ListDirectory::entry_line("/p/src", "/p", true), "[DIR] src");
    assert_eq!(ListDirectory::entry_line("/p/a.rs", "/p", false), "[FILE] a.rs");
    let tool = ListDirectory {
        path: "src".to_string(),
        session_id: Some("s".to_string()),
        include_gitignore: None,
        recursive: None,
    };
    let entries = vec!["[DIR] a".to_string(), "[FILE] b".to_string()];
    assert_eq!(tool.report(&entries), "Directory listing for src:\n[DIR] a\n[FILE] b\n");
    let tool = ListDirectory { path: "/x".to_string(), session_id: None, include_gitignore: None, recursive: None };
    assert_eq!(
        tool.report(&entries),
        "Directory listing for /x:\n[DIR] a\n[FILE] b\n\n[Session Notice: This operation used global state. Consider providing --session-id for better isolation and context management. See set_context for details.]"
    );
    let tool = ListDirectory {
        path: "src".to_string(),
        session_id: Some("s".to_string()),
        include_gitignore: None,
        recursive: None,
    };
    let unsorted = vec!["[FILE] b".to_string(), "[DIR] z".to_string(), "[FILE] a".to_string(), "[DIR] a".to_string()];
    assert_eq!(tool.build_entries(unsorted), "Directory listing for src:\n[DIR] a\n[DIR] z\n[FILE] a\n[FILE] b\n");
    assert_eq!(tool.build_entries(vec![]), "Directory listing for src:\n\n");
}

#[test]
fn delete_resolves_and_reports() {
    let mut state = FsTools::new(SessionStore::new());
    state.set_working_directory("/w".to_string(), None);
    let tool = Delete { path: "src/mod/file.rs".to_string() };
    assert_eq!(tool.prepare(&mut state).unwrap(), "/w/src/mod/file.rs");
    assert_eq!(Delete::report("/w/src/mod/file.rs"), "Successfully deleted /w/src/mod/file.rs");
}

#[test]
fn move_checks_destination_before_source() {
    let tool = Move {
        source: "a".to_string(),
        destination: "b".to_string(),
        session_id: None,
        overwrite: None,
        create_directories: None,
    };
    assert!(!tool.overwrite());
    assert!(tool.create_directories());
    assert_eq!(tool.check(true, false), Err(MoveRefusal::DestinationExists));
    assert_eq!(tool.check(true, true), Err(MoveRefusal::DestinationExists));
    assert_eq!(tool.check(false, false), Err(MoveRefusal::SourceMissing));
    assert_eq!(tool.check(false, true), Ok(()));
    let tool = Move { overwrite: Some(true), create_directories: Some(false), ..tool };
    assert!(!tool.create_directories());
    assert_eq!(tool.check(true, true), Ok(()));
    assert_eq!(tool.check(true, false), Err(MoveRefusal::SourceMissing));
    let plan = MovePlan { source: "/w/a".to_string(), destination: "/w/b".to_string() };
    assert_eq!(plan.report(), "Successfully moved /w/a to /w/b");
    assert_eq!(
        plan.refusal(MoveRefusal::DestinationExists),
        "/w/b already exists, use `overwrite` to intentionally replace it"
    );
    assert_eq!(plan.refusal(MoveRefusal::SourceMissing), "/w/a not found");
}

#[test]
fn move_resolves_both_paths_for_its_session() {
    let mut state = FsTools::new(SessionStore::new());
    state.set_working_directory("/s".to_string(), Some("some_rust_session_unique_id"));
    let tool = Move {
        source: "src/tool.rs".to_string(),
        destination: "src/tool/mod.rs".to_string(),
        session_id: Some("some_rust_session_unique_id".to_string()),
        overwrite: None,
        create_directories: Some(true),
    };
    let plan = tool.prepare(&mut state).unwrap();
    assert_eq!(plan.source, "/s/src/tool.rs");
    assert_eq!(plan.destination, "/s/src/tool/mod.rs");
    let tool = Move { session_id: None, ..tool };
    assert!(tool.prepare(&mut state).is_err());
}

#[test]
fn write_modes() {
    assert_eq!(write("", None, None).mode(), Some(WriteMode::CreateNew));
    assert_eq!(write("", Some(true), None).mode(), Some(WriteMode::Overwrite));
    assert_eq!(write("", None, Some(true)).mode(), Some(WriteMode::Append));
    assert_eq!(write("", Some(false), Some(true)).mode(), Some(WriteMode::Append));
    assert_eq!(write("", Some(true), Some(true)).mode(), None);
    assert!(write("", None, None).create_directories());
    assert!(!write("", None, None).overwrite());
    assert!(!write("", None, None).append());
}

#[test]
fn write_texts() {
    assert_eq!(
        Write::conflict(),
        "`overwrite` and `append` are mutually exclusive. No filesystem operation has been performed"
    );
    assert_eq!(
        Write::already_exists("/w/f"),
        "File /w/f already exists, use \"overwrite\": true if you intend to replace it, or \"append\": true if you intend to add content to the end of the file."
    );
    assert_eq!(Write::open_failure("/w/f", "Permission denied"), "Failed to open /w/f for writing: Permission denied");
    assert_eq!(Write::failure(WriteStage::CreateDirectories, "/w"), "Failed to create directories for /w");
    assert_eq!(Write::failure(WriteStage::Write, "/w/f"), "Failed to write to /w/f");
    assert_eq!(Write::failure(WriteStage::Metadata, "/w/f"), "Failed to get metadata for /w/f");
}

#[test]
fn write_report_counts_bytes_and_shows_the_seam_when_appending() {
    let tool = write("héllo", None, None);
    assert_eq!(tool.report("/w/f", 6, ""), "Successfully wrote 6 bytes to /w/f (total: 6 bytes)");
    let tool = write("x", Some(true), None);
    assert_eq!(tool.report("/w/f", 1536, "ignored"), "Successfully wrote 1 bytes to /w/f (total: 1.50 KiB)");
    let tool = write("new1\nnew2", None, Some(true));
    assert_eq!(
        tool.report("/w/f", 20, "old1\nold2"),
        "Successfully wrote 9 bytes to /w/f (total: 20 bytes)\nContext around append point (last 3 lines):\nold1\nold2\n\n<<< APPENDED >>>\nnew1\nnew2"
    );
    let tool = write("", None, Some(true));
    assert_eq!(tool.report("/w/f", 0, ""), "Successfully wrote 0 bytes to /w/f (total: 0 bytes)");
    assert_eq!(
        tool.report("/w/f", 3, "abc"),
        "Successfully wrote 0 bytes to /w/f (total: 3 bytes)\nContext around append point (last 3 lines):\nabc\n\n<<< APPENDED >>>\n"
    );
}

#[test]
fn seam_display() {
    assert_eq!(Write::format_seam_display("", "", 3), "\n<<< APPENDED >>>\n");
    assert_eq!(Write::format_seam_display("", "a\nb", 3), "\n<<< APPENDED >>>\na\nb");
    assert_eq!(
        Write::format_seam_display("t1\nt2", "a\nb\nc\nd\ne", 3),
        "\nContext around append point (last 3 lines):\nt1\nt2\n\n<<< APPENDED >>>\na\nb\nc\n... (2 more lines)"
    );
    assert_eq!(
        Write::format_seam_display("t", "a\r\nb\n", 1),
        "\nContext around append point (last 1 lines):\nt\n\n<<< APPENDED >>>\na\n... (1 more lines)"
    );
    assert_eq!(Write::format_seam_display("t", "a\nb", 0), "\nContext around append point (last 0 lines):\nt\n\n<<< APPENDED >>>\n");
    assert_eq!(
        Write::format_seam_display("t", "a", 12),
        "\nContext around append point (last 12 lines):\nt\n\n<<< APPENDED >>>\na"
    );
}

#[test]
fn file_tail() {
    assert_eq!(Write::read_file_tail("", 3), "");
    assert_eq!(Write::read_file_tail("a\nb\nc\nd\n", 3), "b\nc\nd");
    assert_eq!(Write::read_file_tail("a\nb", 3), "a\nb");
    assert_eq!(Write::read_file_tail("a\r\nb\r\nc", 2), "b\nc");
    assert_eq!(Write::read_file_tail("a\nb", 0), "");
    assert_eq!(Write::read_file_tail("\n\n", 5), "\n");
}

#[test]
fn lines_are_split_like_str_lines() {
    for sample in ["", "a", "a\n", "a\nb", "a\r\nb\r\n", "\n", "\n\n", "a\rb", "a\r", "\r\n", "x\n\ny", "é\n日本\r\n"] {
        let expected: Vec<String> = sample.lines().map(|l| l.to_string()).collect();
        let found: Vec<String> = split_lines(&chars_of(sample)).iter().map(text).collect();
        assert_eq!(found, expected, "lines of {:?}", sample);
    }
}

#[test]
fn trimming_is_like_str_trim() {
    for sample in ["", " ", "a", "  a b \t\n", "\u{2003}x\u{a0}", "x  ", "  x", " \n\t "] {
        assert_eq!(text(&trim_chars(&chars_of(sample))), sample.trim(), "trim of {:?}", sample);
    }
}

#[test]
fn white_space_is_what_char_says() {
    for code in 0..=0x10ffffu32 {
        if let Some(c) = char::from_u32(code) {
            assert_eq!(fs_mcp::text::char_is_whitespace(c), c.is_whitespace(), "for {:?}", c);
        }
    }
}

#[test]
fn replacing_is_like_str_replace() {
    for (sample, needle, with) in [("aXbXc", "X", "--"), ("aaa", "aa", "b"), ("abc", "abc", ""), ("abc", "d", "x"), ("", "a", "b"), ("abab", "ab", "ab")] {
        let found = replace_all(&chars_of(sample), &chars_of(needle), &chars_of(with));
        assert_eq!(text(&found), sample.replace(needle, with));
    }
    assert_eq!(text(&replace_all(&chars_of("abc"), &chars_of(""), &chars_of("x"))), "abc");
}

#[test]
fn write_file_reports_and_resolves() {
    let mut state = FsTools::new(SessionStore::new());
    state.set_working_directory("/s".to_string(), Some("some_rust_session_unique_id"));
    let tool = WriteFile {
        path: "src/main.rs".to_string(),
        session_id: Some("some_rust_session_unique_id".to_string()),
        contents: "#[main]\nfn main() {\n  todo!()\n }".to_string(),
        overwrite: None,
        create_directories: None,
    };
    assert!(!tool.overwrite());
    assert!(tool.create_directories());
    assert_eq!(tool.prepare(&mut state).unwrap(), "/s/src/main.rs");
    assert_eq!(tool.report("/s/src/main.rs"), "Successfully wrote 32 bytes to /s/src/main.rs");
}

#[test]
fn read_blocks() {
    assert_eq!(
        Read::format_file("SEP", "/w/a.txt", "héllo\n"),
        "==SEP BEGIN /w/a.txt, LENGTH: 7 SEP==\nhéllo\n\n==SEP END /w/a.txt, LENGTH: 7 SEP==\n"
    );
    assert_eq!(
        Read::format_head("SEP", "/w/a.txt", 1000, 100, "head"),
        "==SEP BEGIN TRUNCATED /w/a.txt, FULL LENGTH: 1000, TRUNCATED LENGTH: 100 SEP==\nhead\n==SEP END TRUNCATED /w/a.txt, FULL LENGTH: 1000, TRUNCATED LENGTH: 100 SEP==\n"
    );
    assert_eq!(
        Read::format_error("SEP", "a.txt", "/w/a.txt does not exist"),
        "==SEP BEGIN ERROR a.txt SEP==\n/w/a.txt does not exist\n==SEP END ERROR a.txt SEP=="
    );
    assert_eq!(Read::failure(ReadStage::Missing, "/w/a"), "/w/a does not exist");
    assert_eq!(Read::failure(ReadStage::Metadata, "/w/a"), "Unable to open metadata for /w/a");
    assert_eq!(Read::failure(ReadStage::Open, "/w/a"), "Unable to open /w/a");
    assert_eq!(Read::failure(ReadStage::ReadHead, "/w/a"), "Unable to read from /w/a");
    assert_eq!(Read::failure(ReadStage::ReadAll, "/w/a"), "Unable to read /w/a");
}

#[test]
fn read_head_is_taken_only_from_longer_files() {
    let tool = Read { paths: vec![], max_length: Some(100) };
    assert_eq!(tool.head_length(101), Some(100));
    assert_eq!(tool.head_length(100), None);
    assert_eq!(tool.head_length(0), None);
    let tool = Read { paths: vec![], max_length: None };
    assert_eq!(tool.head_length(usize::MAX), None);
}

#[test]
fn separators_are_ten_alphanumerics_and_differ() {
    let first = Read::fresh_separator();
    assert_eq!(first.chars().count(), 10);
    assert!(first.chars().all(|c| c.is_ascii_alphanumeric()));
    let others: Vec<String> = (0..20).map(|_| Read::fresh_separator()).collect();
    assert!(others.iter().any(|other| *other != first));
}

#[test]
fn read_resolves_each_path_on_its_own() {
    let mut state = FsTools::new(SessionStore::new());
    let tool = Read { paths: vec!["/abs".to_string(), "rel".to_string()], max_length: None };
    let targets = tool.resolve_all(&mut state);
    assert_eq!(targets.len(), 2);
    assert_eq!(targets[0].as_ref().unwrap(), "/abs");
    assert!(targets[1].is_err());
}

#[test]
fn search_defaults() {
    let tool = search("x");
    assert!(!tool.case_sensitive());
    assert_eq!(tool.max_results(), 50);
    assert_eq!(tool.context_lines(), 1);
    assert_eq!(tool.highlight_style(), HighlightStyle::Box);
    assert_eq!(HighlightStyle::default(), HighlightStyle::Box);
    assert_eq!(HighlightStyle::from_name("none"), Some(HighlightStyle::Plain));
    assert_eq!(HighlightStyle::from_name("markdown"), Some(HighlightStyle::Markdown));
    assert_eq!(HighlightStyle::from_name("Box"), None);
}

#[test]
fn files_are_searched_by_extension() {
    let tool = search("x");
    assert!(tool.should_search_file("/w/src/main.rs"));
    assert!(tool.should_search_file("/w/Makefile"));
    assert!(tool.should_search_file("/w/.gitignore"));
    assert!(!tool.should_search_file("/w/a.png"));
    assert!(!tool.should_search_file("/w/lib.so"));
    assert!(!tool.should_search_file("/w/archive.tar.gz"));
    assert!(tool.should_search_file("/w/a.PNG"));
    let tool = Search { include_extensions: Some(vec!["rs".to_string(), "js".to_string()]), ..search("x") };
    assert!(tool.should_search_file("/w/src/main.rs"));
    assert!(tool.should_search_file("/w/a.b.js"));
    assert!(!tool.should_search_file("/w/a.py"));
    assert!(!tool.should_search_file("/w/Makefile"));
    assert!(!tool.should_search_file("/w/.rs"));
    let tool = Search { include_extensions: Some(vec!["png".to_string()]), ..search("x") };
    assert!(tool.should_search_file("/w/a.png"));
    let tool = Search { include_extensions: Some(vec![]), ..search("x") };
    assert!(!tool.should_search_file("/w/a.rs"));
}

#[test]
fn paths_through_build_and_vcs_directories_are_excluded() {
    let tool = search("x");
    assert!(tool.should_exclude_path("/w/.git/config"));
    assert!(tool.should_exclude_path("/w/target/debug/x"));
    assert!(tool.should_exclude_path("/w/node_modules/a/b.js"));
    assert!(tool.should_exclude_path("/w/.svn/x"));
    assert!(tool.should_exclude_path("/w/.hg/x"));
    assert!(!tool.should_exclude_path("/w/.git"));
    assert!(!tool.should_exclude_path("/w/target"));
    assert!(!tool.should_exclude_path("/w/src/targets/a"));
    assert!(!tool.should_exclude_path(""));
}

#[test]
fn search_collects_matches_with_context() {
    let tool = search("fn main");
    let mut results: Vec<SearchResult> = Vec::new();
    let mut total = 0usize;
    tool.search_file("/w/a.rs", "use x;\n\nFN MAIN() {\n  body\n}\nfn main2\n", &mut results, &mut total, 50);
    assert_eq!(total, 2);
    assert_eq!(results.len(), 2);
    assert_eq!(results[0].file_path, "/w/a.rs");
    assert_eq!(results[0].line_number, 3);
    assert_eq!(results[0].line_content, "FN MAIN() {");
    assert_eq!(results[0].context_before, vec![""]);
    assert_eq!(results[0].context_after, vec!["  body"]);
    assert_eq!(results[1].line_number, 6);
    assert_eq!(results[1].context_before, vec!["}"]);
    assert!(results[1].context_after.is_empty());
}

#[test]
fn search_respects_case_limit_and_context_settings() {
    let tool = Search { case_sensitive: Some(true), context_lines: Some(0), ..search("a") };
    let mut results: Vec<SearchResult> = Vec::new();
    let mut total = 0usize;
    tool.search_file("f", "A\na\nba\nc\na", &mut results, &mut total, 2);
    assert_eq!(total, 2);
    assert_eq!(results.iter().map(|r| r.line_number).collect::<Vec<_>>(), vec![2, 3]);
    assert!(results.iter().all(|r| r.context_before.is_empty() && r.context_after.is_empty()));
    tool.search_file("g", "a\na", &mut results, &mut total, 2);
    assert_eq!(total, 2);
    assert_eq!(results.len(), 2);
    tool.search_file("g", "a\nx\na", &mut results, &mut total, 3);
    assert_eq!(total, 3);
    assert_eq!(results[2].file_path, "g");
    assert_eq!(results[2].line_number, 1);

    let tool = Search { context_lines: Some(5), ..search("m") };
    let mut results: Vec<SearchResult> = Vec::new();
    let mut total = 0usize;
    tool.search_file("f", "1\n2\nm\n4", &mut results, &mut total, 10);
    assert_eq!(results[0].context_before, vec!["1", "2"]);
    assert_eq!(results[0].context_after, vec!["4"]);
}

#[test]
fn search_with_an_invalid_pattern_finds_nothing() {
    let tool = search("(unclosed");
    assert!(!tool.pattern_is_valid());
    assert!(search("fn \\w+").pattern_is_valid());
    let mut results: Vec<SearchResult> = Vec::new();
    let mut total = 0usize;
    tool.search_file("f", "(unclosed", &mut results, &mut total, 10);
    assert_eq!(total, 0);
    assert!(results.is_empty());
}

#[test]
fn search_answer() {
    let tool = search("todo");
    assert_eq!(tool.format_results("/w/src", &vec![], 0), "No matches found for pattern \"todo\" in /w/src");
    let mut results: Vec<SearchResult> = Vec::new();
    let mut total = 0usize;
    tool.search_file("/w/a.rs", "fn a() {\n    // TODO: x\n}\n", &mut results, &mut total, 50);
    tool.search_file("/w/b.rs", "todo!()", &mut results, &mut total, 50);
    assert_eq!(
        tool.format_results("/w", &results, total),
        "Found 2 matches for pattern \"todo\":\n\n/w/a.rs:1: fn a() {\n/w/a.rs:2: // ┌─TODO─┐: x\n/w/a.rs:3: }\n--\n/w/b.rs:1: ┌─todo─┐!()\n"
    );
    let tool = Search { max_results: Some(1), highlight_style: HighlightStyle::Plain, context_lines: Some(0), ..search("todo") };
    assert_eq!(
        tool.format_results("/w", &results, 3),
        "Found 2 matches for pattern \"todo\":\n\n/w/a.rs:1: fn a() {\n/w/a.rs:2: // TODO: x\n/w/a.rs:3: }\n/w/b.rs:1: todo!()\n\n... and 2 more matches (limit 1)"
    );
}

#[test]
fn highlighting_styles() {
    assert_eq!(HighlightStyle::Plain.highlight("a match", "match", true), "a match");
    assert_eq!(HighlightStyle::Box.highlight("a match", "match", true), "a ┌─match─┐");
    assert_eq!(HighlightStyle::Emphasis.highlight("a match", "match", true), "a ⦗match⦘");
    assert_eq!(HighlightStyle::Ansi.highlight("a match", "match", true), "a \x1b[93mmatch\x1b[0m");
    assert_eq!(HighlightStyle::Markdown.highlight("a match", "match", true), "a **match**");
    assert_eq!(HighlightStyle::Markdown.highlight("Aa aA", "a+", false), "**Aa** **aA**");
    assert_eq!(HighlightStyle::Markdown.highlight("Aa aA", "a+", true), "A**a** **a**A");
    assert_eq!(HighlightStyle::Markdown.highlight("x1y22", "\\d+", true), "x**1**y**22**");
}

#[test]
fn highlighting_falls_back_to_literal_text() {
    assert_eq!(HighlightStyle::Markdown.highlight("f(x) and f(x)", "f(", true), "**f(**x) and **f(**x)");
    assert_eq!(HighlightStyle::Markdown.highlight("F(x) and f(x)", "f(", false), "**F(**x) and f(x)");
    assert_eq!(HighlightStyle::Markdown.highlight("nothing", "f(", false), "nothing");
    assert_eq!(HighlightStyle::Box.replace_matches("a[b", "[", true, "<", ">"), "a<[>b");
}

#[test]
fn glob_patterns_are_checked_and_matched() {
    assert_eq!(pattern_error("*.rs"), None);
    assert_eq!(pattern_error("a/**/b"), None);
    assert_eq!(
        pattern_error("a**b"),
        Some("Pattern syntax error near position 0: recursive wildcards must form a single path component".to_string())
    );
    assert_eq!(pattern_error("abc[def"), Some("Pattern syntax error near position 3: invalid range pattern".to_string()));
    assert!(keeps_entry("", "cat", "c?t"));
    assert!(keeps_entry("", "kitteh", "k[!e]tteh"));
    assert!(keeps_entry("", "doog", "d*g"));
    assert!(!keeps_entry("", "dot", "d*g"));
    assert!(!keeps_entry("", "*.rsx", "*.rs"));
    assert!(!keeps_entry("", "abc[def", "abc[def"));
    assert!(keeps_entry("/w", "/w/a.rs", "/w/*.rs"));
    assert!(!keeps_entry("/w/a.rs", "/w/a.rs", "/w/*.rs"));
    assert!(!keeps_entry("/w", "/w/a.py", "/w/*.rs"));
    assert!(ListDirectory::walks_entry(true, "/w/src", Some("*.rs")));
    assert!(!ListDirectory::walks_entry(false, "/w/a.py", Some("*.rs")));
    assert!(ListDirectory::walks_entry(false, "a.rs", Some("*.rs")));
    assert!(ListDirectory::walks_entry(false, "/w/a.py", None));
    assert!(ListDirectory::shows_entry("/w/a", "/w", None));
    assert!(!ListDirectory::shows_entry("/w", "/w", None));
    assert!(!ListDirectory::shows_entry("/w/a.py", "/w", Some("*.rs")));
    assert!(ListDirectory::shows_entry("/w/a.rs", "/w", Some("/w/*.rs")));
}

#[test]
fn head_of_a_file_is_read_lossily() {
    let bytes = vec![b'a', 0xff, b'b', 0xe2, 0x82];
    assert_eq!(
        Read::read_head("S", "/w/f", 9, 5, &bytes),
        "==S BEGIN TRUNCATED /w/f, FULL LENGTH: 9, TRUNCATED LENGTH: 5 S==\na\u{fffd}b\u{fffd}\n==S END TRUNCATED /w/f, FULL LENGTH: 9, TRUNCATED LENGTH: 5 S==\n"
    );
}

#[test]
fn write_with_both_flags_ends_as_a_success_before_any_file_is_opened() {
    match write("x", Some(true), Some(true)).begin() {
        WriteStep::Done(Ok(text)) => assert_eq!(
            text,
            "`overwrite` and `append` are mutually exclusive. No filesystem operation has been performed"
        ),
        other => panic!("expected the request to end, got {:?}", other),
    }
}

#[test]
fn write_opens_the_file_in_the_mode_asked_for() {
    assert!(matches!(write("x", None, None).begin(), WriteStep::Open(WriteMode::CreateNew)));
    assert!(matches!(write("x", Some(true), None).begin(), WriteStep::Open(WriteMode::Overwrite)));
    assert!(matches!(write("x", None, Some(true)).begin(), WriteStep::Open(WriteMode::Append)));
    assert!(matches!(write("x", Some(true), Some(false)).begin(), WriteStep::Open(WriteMode::Overwrite)));
}

#[test]
fn write_to_a_file_that_exists_is_answered_as_a_success() {
    assert_eq!(
        Write::after_open("/w/f", Opening::AlreadyExists),
        Some(Ok("File /w/f already exists, use \"overwrite\": true if you intend to replace it, or \"append\": true if you intend to add content to the end of the file.".to_string()))
    );
}

#[test]
fn write_goes_on_once_the_file_is_open_and_fails_when_it_cannot_be_opened() {
    assert_eq!(Write::after_open("/w/f", Opening::Opened), None);
    assert_eq!(
        Write::after_open("/w/f", Opening::Failed("Permission denied".to_string())),
        Some(Err("Failed to open /w/f for writing: Permission denied".to_string()))
    );
}

#[test]
fn search_begins_only_with_a_valid_pattern() {
    assert_eq!(search("fn \\w+").begin(), Ok(()));
    assert_eq!(search("(unclosed").begin(), Err("Invalid regex pattern".to_string()));
}

#[test]
fn search_failure_texts_name_the_path() {
    assert_eq!(Search::failure(SearchStage::ReadFile, "/w/a.rs"), "Failed to read file: /w/a.rs");
    assert_eq!(Search::failure(SearchStage::ReadDirectory, "/w"), "Failed to read directory: /w");
}

#[test]
fn write_keeps_the_last_three_lines_only_when_appending() {
    assert_eq!(Write::tail_before(WriteMode::Append, Some("a\nb\nc\nd\ne")), "c\nd\ne");
    assert_eq!(Write::tail_before(WriteMode::Append, Some("a\nb")), "a\nb");
    assert_eq!(Write::tail_before(WriteMode::Append, None), "");
    assert_eq!(Write::tail_before(WriteMode::Overwrite, Some("a\nb\nc\nd\ne")), "");
    assert_eq!(Write::tail_before(WriteMode::CreateNew, Some("a")), "");
}
