//! Listing what a directory holds, optionally narrowed by a glob pattern.

use crate::text::chars_of;
use crate::text::last_char_before;
use crate::text::last_index_of;
use crate::text::push_str;
use crate::text::string_of;
use crate::arguments::optional_bool;
use crate::arguments::optional_text;
use crate::arguments::read_optional_bool;
use crate::arguments::read_optional_text;
use crate::arguments::text_of;
use crate::json::Json;
use crate::json::JsonValue;
use crate::arguments::texts_of;
use crate::formats::elapsed_display;
use crate::formats::format_elapsed;
use crate::formats::format_size;
use crate::formats::size_display;
use crate::paths::joined;
use crate::paths::path_difference;
use crate::paths::relative_to;
use crate::sorting::ordered;
use crate::sorting::sort_strings;
use crate::text::joined_lines;
use vstd::prelude::*;

verus! {

/// List file system contents with session context support and globbing
#[derive(Debug)]
pub struct List {
    /// Directory path or glob pattern.
    /// Can be absolute, or relative to session context path. Can include wildcards like 'src/**/*'.
    /// Defaults to the current session context if not provided
    pub path: Option<String>,
    /// Recurse into directories (only relevant if path does not contain a glob pattern)
    pub recursive: Option<bool>,
    /// Include metadata like file size and last modified
    pub include_metadata: Option<bool>,
}

/// A character that makes a path a glob pattern.
pub open spec fn is_glob_char(c: char) -> bool {
    c == '*' || c == '?' || c == '['
}

/// The position of the first glob character in `path`, or the length of
/// `path` if it holds none.
pub open spec fn first_glob(path: Seq<char>) -> int
    decreases path.len(),
{
    if path.len() == 0 || is_glob_char(path[0]) {
        0
    } else {
        1 + first_glob(path.skip(1))
    }
}

/// Where a path with a glob character at `glob` is split: at the last `/`
/// before the glob character, or else at the last `\` before it.
pub open spec fn split_position(path: Seq<char>, glob: int) -> Option<int> {
    match last_index_of(path.take(glob), '/') {
        Some(at) => Some(at),
        None => last_index_of(path.take(glob), '\\'),
    }
}

/// The directory and the glob pattern that `path` names. A path without glob
/// characters names a directory and no pattern. Otherwise the pattern starts
/// after the last separator before the first glob character and the directory
/// is what stands before that separator; without such a separator the whole
/// path is the pattern and the directory is empty.
pub open spec fn path_and_pattern(path: Seq<char>) -> (Seq<char>, Option<Seq<char>>) {
    let glob = first_glob(path);
    if glob >= path.len() {
        (path, None)
    } else {
        match split_position(path, glob) {
            Some(at) => (path.take(at), Some(path.skip(at + 1))),
            None => (Seq::empty(), Some(path)),
        }
    }
}

/// Splits a path into the directory and the glob pattern that it names.
pub fn split_path_and_pattern(path: &str) -> (parts: (String, Option<String>))
    ensures
        parts.0@ == path_and_pattern(path@).0,
        match parts.1 {
            Some(pattern) => path_and_pattern(path@).1 == Some(pattern@),
            None => path_and_pattern(path@).1 is None,
        },
{
    let chars = chars_of(path);
    let mut glob: usize = 0;
    proof {
        assert(chars@.skip(0) =~= chars@);
    }
    while glob < chars.len() && !(chars[glob] == '*' || chars[glob] == '?' || chars[glob] == '[')
        invariant
            glob <= chars.len(),
            first_glob(chars@) == glob + first_glob(chars@.skip(glob as int)),
        decreases chars.len() - glob,
    {
        assert(chars@.skip(glob as int).skip(1) =~= chars@.skip(glob + 1));
        glob += 1;
    }
    if glob >= chars.len() {
        return (string_of(&chars), None);
    }
    let split = match last_char_before(&chars, glob, '/') {
        Some(at) => Some(at),
        None => last_char_before(&chars, glob, '\\'),
    };
    match split {
        Some(at) => {
            let mut directory: Vec<char> = Vec::new();
            let mut pattern: Vec<char> = Vec::new();
            let mut i: usize = 0;
            while i < at
                invariant
                    i <= at < chars.len(),
                    directory@ == chars@.take(i as int),
                decreases at - i,
            {
                directory.push(chars[i]);
                i += 1;
                assert(directory@ =~= chars@.take(i as int));
            }
            let mut j: usize = at + 1;
            while j < chars.len()
                invariant
                    at < j <= chars.len(),
                    pattern@ == chars@.subrange(at + 1, j as int),
                decreases chars.len() - j,
            {
                pattern.push(chars[j]);
                j += 1;
                assert(pattern@ =~= chars@.subrange(at + 1, j as int));
            }
            assert(pattern@ =~= chars@.skip(at + 1));
            (string_of(&directory), Some(string_of(&pattern)))
        },
        None => (String::new(), Some(string_of(&chars))),
    }
}

impl List {
    /// The path to list: the one given, or the working directory itself.
    pub open spec fn path_text(&self) -> Seq<char> {
        match self.path {
            Some(path) => path@,
            None => "."@,
        }
    }

    pub open spec fn spec_recursive(&self) -> bool {
        match self.recursive {
            Some(value) => value,
            None => false,
        }
    }

    pub open spec fn spec_include_metadata(&self) -> bool {
        match self.include_metadata {
            Some(value) => value,
            None => false,
        }
    }

    /// Parse a path string that might contain glob patterns
    /// Returns (base_directory_path, optional_pattern)
    pub fn parse_path_and_pattern(&self) -> (parts: (String, Option<String>))
        ensures
            parts.0@ == path_and_pattern(self.path_text()).0,
            match parts.1 {
                Some(pattern) => path_and_pattern(self.path_text()).1 == Some(pattern@),
                None => path_and_pattern(self.path_text()).1 is None,
            },
    {
        match &self.path {
            Some(path) => split_path_and_pattern(path.as_str()),
            None => split_path_and_pattern("."),
        }
    }

    #[verifier::when_used_as_spec(spec_recursive)]
    pub fn recursive(&self) -> (value: bool)
        ensures
            value == self.spec_recursive(),
    {
        match self.recursive {
            Some(value) => value,
            None => false,
        }
    }

    #[verifier::when_used_as_spec(spec_include_metadata)]
    pub fn include_metadata(&self) -> (value: bool)
        ensures
            value == self.spec_include_metadata(),
    {
        match self.include_metadata {
            Some(value) => value,
            None => false,
        }
    }
}

impl List {
    /// The arguments `args` can be read as a request to list.
    pub open spec fn readable(args: JsonValue) -> bool {
        &&& optional_text(args, "path"@) is Some
        &&& optional_bool(args, "recursive"@) is Some
        &&& optional_bool(args, "include_metadata"@) is Some
    }

    /// This request is what the arguments `args` say.
    pub open spec fn reads(&self, args: JsonValue) -> bool {
        &&& optional_text(args, "path"@) == Some(text_of(self.path))
        &&& optional_bool(args, "recursive"@) == Some(self.recursive)
        &&& optional_bool(args, "include_metadata"@) == Some(self.include_metadata)
    }

    /// Reads the request from its arguments.
    pub fn decode(args: &Json) -> (tool: Option<List>)
        ensures
            tool is Some == List::readable(args@),
            tool is Some ==> tool->0.reads(args@),
    {
        let path = match read_optional_text(args, "path") {
            Some(path) => path,
            None => {
                return None;
            },
        };
        let recursive = match read_optional_bool(args, "recursive") {
            Some(recursive) => recursive,
            None => {
                return None;
            },
        };
        let include_metadata = match read_optional_bool(args, "include_metadata") {
            Some(include_metadata) => include_metadata,
            None => {
                return None;
            },
        };
        Some(List { path, recursive, include_metadata })
    }
}

/// What is known of a file besides its name: how many bytes it holds, and how
/// long ago it was created and last changed, in seconds and nanoseconds.
#[derive(Debug, Clone, Copy)]
pub struct EntryMetadata {
    pub len: u64,
    pub created_secs: u64,
    pub created_nanos: u32,
    pub modified_secs: u64,
    pub modified_nanos: u32,
}

/// The name under which an entry is listed: the way to it from the directory
/// listed, or its path where there is no such way, with a separator after the
/// name of a directory.
pub open spec fn entry_name(path: Seq<char>, base: Seq<char>, is_dir: bool) -> Seq<char> {
    let way = match path_difference(path, base) {
        Some(way) => way,
        None => path,
    };
    if is_dir {
        joined(way, Seq::empty())
    } else {
        way
    }
}

/// What is listed of the metadata of an entry.
pub open spec fn metadata_text(metadata: EntryMetadata) -> Seq<char> {
    " | "@ + size_display(metadata.len) + " | created "@ + elapsed_display(
        metadata.created_secs,
        metadata.created_nanos,
    ) + " | modified "@ + elapsed_display(metadata.modified_secs, metadata.modified_nanos)
}

/// The line that lists an entry.
pub open spec fn entry_text(
    path: Seq<char>,
    base: Seq<char>,
    is_dir: bool,
    metadata: Option<EntryMetadata>,
) -> Seq<char> {
    entry_name(path, base, is_dir) + match metadata {
        Some(metadata) => metadata_text(metadata),
        None => Seq::empty(),
    }
}

/// The answer that lists `lines` for the directory `base`.
pub open spec fn listing_text(base: Seq<char>, lines: Seq<Seq<char>>) -> Seq<char> {
    "All paths relative to "@ + base + ":\n\n"@ + joined_lines(lines)
}

impl EntryMetadata {
    /// The nanoseconds stay below one second.
    pub open spec fn wf(self) -> bool {
        self.created_nanos < 1_000_000_000 && self.modified_nanos < 1_000_000_000
    }
}

impl List {
    /// Whether only the directory itself is listed, and not what is below
    /// it: that is so unless a pattern is given or recursion is asked for.
    pub fn depth_limited(&self, has_pattern: bool) -> (limited: bool)
        ensures
            limited == (!has_pattern && !self.spec_recursive()),
    {
        !has_pattern && !self.recursive()
    }

    /// The error when what is to be listed is no directory.
    pub fn not_a_directory(base_path: &str) -> (text: String)
        ensures
            text@ == "Path is not a directory: "@ + base_path@,
    {
        let mut out: Vec<char> = Vec::new();
        push_str(&mut out, "Path is not a directory: ");
        push_str(&mut out, base_path);
        string_of(&out)
    }

    /// The line that lists the entry at `path`, found below `base_path`.
    /// Metadata is shown if the request asks for it.
    pub fn entry_line(&self, path: &str, base_path: &str, is_dir: bool, metadata: EntryMetadata) -> (line:
        String)
        requires
            metadata.wf(),
        ensures
            line@ == entry_text(
                path@,
                base_path@,
                is_dir,
                if self.spec_include_metadata() {
                    Some(metadata)
                } else {
                    None
                },
            ),
    {
        let way = match relative_to(path, base_path) {
            Some(way) => way,
            None => path.to_owned(),
        };
        proof {
            reveal_strlit("");
            assert(""@ =~= Seq::<char>::empty());
        }
        let name = if is_dir {
            crate::paths::join_paths(way.as_str(), "")
        } else {
            way
        };
        assert(name@ == entry_name(path@, base_path@, is_dir));
        let mut out: Vec<char> = Vec::new();
        push_str(&mut out, name.as_str());
        if self.include_metadata() {
            push_str(&mut out, " | ");
            push_str(&mut out, format_size(metadata.len).as_str());
            push_str(&mut out, " | created ");
            push_str(
                &mut out,
                format_elapsed(metadata.created_secs, metadata.created_nanos).as_str(),
            );
            push_str(&mut out, " | modified ");
            push_str(
                &mut out,
                format_elapsed(metadata.modified_secs, metadata.modified_nanos).as_str(),
            );
            proof {
                assert(out@ =~= entry_name(path@, base_path@, is_dir) + metadata_text(metadata));
            }
        } else {
            proof {
                assert(out@ =~= entry_name(path@, base_path@, is_dir) + Seq::<char>::empty());
            }
        }
        string_of(&out)
    }

    /// The answer that lists `entries`, in the order given, for the directory
    /// `base_path`.
    pub fn report(base_path: &str, entries: &Vec<String>) -> (text: String)
        ensures
            text@ == listing_text(base_path@, texts_of(entries@)),
    {
        let mut out: Vec<char> = Vec::new();
        push_str(&mut out, "All paths relative to ");
        push_str(&mut out, base_path);
        push_str(&mut out, ":\n\n");
        let ghost head = out@;
        let mut i: usize = 0;
        proof {
            assert(texts_of(entries@).take(0) =~= Seq::<Seq<char>>::empty());
            assert(out@ =~= head + joined_lines(texts_of(entries@).take(0)));
        }
        while i < entries.len()
            invariant
                i <= entries.len(),
                out@ == head + joined_lines(texts_of(entries@).take(i as int)),
            decreases entries.len() - i,
        {
            let ghost before = texts_of(entries@).take(i as int);
            let ghost after = texts_of(entries@).take(i + 1);
            proof {
                assert(after.drop_last() =~= before);
                assert(after.last() == entries@[i as int]@);
            }
            if i > 0 {
                out.push('\n');
            }
            push_str(&mut out, entries[i].as_str());
            proof {
                if i > 0 {
                    assert(out@ =~= head + (joined_lines(before) + seq!['\n'] + entries@[i as int]@));
                } else {
                    assert(after.len() == 1);
                    assert(joined_lines(before) =~= Seq::<char>::empty());
                    assert(out@ =~= head + entries@[i as int]@);
                }
            }
            i += 1;
        }
        proof {
            assert(texts_of(entries@).take(i as int) =~= texts_of(entries@));
        }
        string_of(&out)
    }

    /// The answer that lists `entries` in order for the directory
    /// `base_path`.
    pub fn build_entries(base_path: &str, entries: Vec<String>) -> (text: String)
        ensures
            exists|sorted: Seq<String>|
                {
                    &&& #[trigger] ordered(sorted)
                    &&& sorted.to_multiset() == entries@.to_multiset()
                    &&& text@ == listing_text(base_path@, texts_of(sorted))
                },
    {
        let sorted = sort_strings(entries);
        let text = List::report(base_path, &sorted);
        assert(ordered(sorted@));
        text
    }
}

} // verus!
