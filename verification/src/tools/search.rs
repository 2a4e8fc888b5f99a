//! Searching files for a pattern.

use crate::state::resolves_to;
use crate::state::FsTools;
use crate::state::ResolveError;
use crate::state::DEFAULT_SESSION_ID;
use crate::arguments::list_of;
use crate::arguments::optional_bool;
use crate::arguments::optional_count;
use crate::arguments::optional_text;
use crate::arguments::optional_texts;
use crate::arguments::read_optional_bool;
use crate::arguments::read_optional_count;
use crate::arguments::read_optional_text;
use crate::arguments::read_optional_texts;
use crate::arguments::read_required_text;
use crate::arguments::required_text;
use crate::arguments::text_of;
use crate::json::Json;
use crate::json::JsonValue;
use crate::text::same_text;
use crate::arguments::texts_of;
use crate::paths::extension_of;
use crate::paths::path_extension;
use crate::text::chars_of;
use crate::text::contains_text;
use crate::text::has_text;
use crate::text::lines_of;
use crate::text::split_lines;
use crate::text::string_of;
use crate::text::texts;
use grep::matcher::Matcher;
use crate::text::decimal;
use crate::text::first_occurrence;
use crate::text::lowercase;
use crate::text::position_of;
use crate::text::push_chars;
use crate::text::push_decimal;
use crate::text::push_range;
use crate::text::push_str;
use crate::text::replace_all;
use crate::text::replaced;
use crate::text::to_lowercase;
use crate::text::trim_chars;
use crate::text::trimmed;
use crate::state::change_tracked;
use crate::state::lookup_tracked;
use vstd::prelude::*;

verus! {

/// How matches are marked in the output.
#[derive(Debug, Clone, Copy, PartialEq, Eq, Structural)]
pub enum HighlightStyle {
    /// Matches are not marked.
    Plain,
    Box,
    Emphasis,
    Ansi,
    Markdown,
}

impl Default for HighlightStyle {
    fn default() -> (style: Self)
        ensures
            style == HighlightStyle::Box,
    {
        HighlightStyle::Box
    }
}

/// Search for text patterns in files using ripgrep-like functionality
#[derive(Debug)]
pub struct Search {
    /// Pattern to search for (supports regex)
    pub pattern: String,
    /// Path to search in (can be file or directory)
    /// Defaults to current session context if not provided.
    pub path: Option<String>,
    /// Case sensitive search
    /// Default: false
    pub case_sensitive: Option<bool>,
    /// File extensions to include (e.g., ["rs", "js", "py"])
    /// If not specified, searches all text files
    pub include_extensions: Option<Vec<String>>,
    /// Maximum number of results to return
    /// Default: 50
    pub max_results: Option<usize>,
    /// Highlight style for matches in output
    /// Default: "box"
    pub highlight_style: HighlightStyle,
    /// Number of context lines to show before and after each match
    /// Default: 1
    pub context_lines: Option<usize>,
}

impl Search {
    /// The path to search: the one given, or the working directory itself.
    pub open spec fn path_text(&self) -> Seq<char> {
        match self.path {
            Some(path) => path@,
            None => "."@,
        }
    }

    pub open spec fn spec_case_sensitive(&self) -> bool {
        match self.case_sensitive {
            Some(value) => value,
            None => false,
        }
    }

    pub open spec fn spec_max_results(&self) -> usize {
        match self.max_results {
            Some(value) => value,
            None => 50,
        }
    }

    pub open spec fn spec_highlight_style(&self) -> HighlightStyle {
        self.highlight_style
    }

    pub open spec fn spec_context_lines(&self) -> usize {
        match self.context_lines {
            Some(value) => value,
            None => 1,
        }
    }

    #[verifier::when_used_as_spec(spec_case_sensitive)]
    pub fn case_sensitive(&self) -> (value: bool)
        ensures
            value == self.spec_case_sensitive(),
    {
        match self.case_sensitive {
            Some(value) => value,
            None => false,
        }
    }

    #[verifier::when_used_as_spec(spec_max_results)]
    pub fn max_results(&self) -> (value: usize)
        ensures
            value == self.spec_max_results(),
    {
        match self.max_results {
            Some(value) => value,
            None => 50,
        }
    }

    #[verifier::when_used_as_spec(spec_highlight_style)]
    pub fn highlight_style(&self) -> (style: HighlightStyle)
        ensures
            style == self.spec_highlight_style(),
    {
        self.highlight_style
    }

    #[verifier::when_used_as_spec(spec_context_lines)]
    pub fn context_lines(&self) -> (value: usize)
        ensures
            value == self.spec_context_lines(),
    {
        match self.context_lines {
            Some(value) => value,
            None => 1,
        }
    }

    /// Resolves the path to search.
    pub fn prepare(&self, state: &mut FsTools) -> (target: Result<String, ResolveError>)
        requires
            old(state).wf(),
        ensures
            final(state).wf(),
            change_tracked(
                old(state).unsaved(),
                final(state).unsaved(),
                old(state)@,
                final(state)@,
            ),
            lookup_tracked(old(state).unsaved(), final(state).unsaved(), self.path_text()),
            resolves_to(old(state)@, final(state)@, self.path_text(), DEFAULT_SESSION_ID@, target),
    {
        match &self.path {
            Some(path) => state.resolve_path(path.as_str(), None),
            None => state.resolve_path(".", None),
        }
    }
}

/// The highlight style that `name` names.
pub open spec fn style_named(name: Seq<char>) -> Option<HighlightStyle> {
    if name == "none"@ {
        Some(HighlightStyle::Plain)
    } else if name == "box"@ {
        Some(HighlightStyle::Box)
    } else if name == "emphasis"@ {
        Some(HighlightStyle::Emphasis)
    } else if name == "ansi"@ {
        Some(HighlightStyle::Ansi)
    } else if name == "markdown"@ {
        Some(HighlightStyle::Markdown)
    } else {
        None
    }
}

/// The highlight style that the arguments ask for: the default where the
/// member is missing, and otherwise the style that the member names.
pub open spec fn style_asked(args: JsonValue) -> Option<HighlightStyle> {
    match args.field("highlight_style"@) {
        None => Some(HighlightStyle::Box),
        Some(value) => match value.as_text() {
            Some(name) => style_named(name),
            None => None,
        },
    }
}

impl HighlightStyle {
    /// The highlight style that `name` names.
    pub fn from_name(name: &str) -> (style: Option<HighlightStyle>)
        ensures
            style == style_named(name@),
    {
        if same_text(name, "none") {
            Some(HighlightStyle::Plain)
        } else if same_text(name, "box") {
            Some(HighlightStyle::Box)
        } else if same_text(name, "emphasis") {
            Some(HighlightStyle::Emphasis)
        } else if same_text(name, "ansi") {
            Some(HighlightStyle::Ansi)
        } else if same_text(name, "markdown") {
            Some(HighlightStyle::Markdown)
        } else {
            None
        }
    }
}

impl Search {
    /// The arguments `args` can be read as a request to search.
    pub open spec fn readable(args: JsonValue) -> bool {
        &&& required_text(args, "pattern"@) is Some
        &&& optional_text(args, "path"@) is Some
        &&& optional_bool(args, "case_sensitive"@) is Some
        &&& optional_texts(args, "include_extensions"@) is Some
        &&& optional_count(args, "max_results"@) is Some
        &&& style_asked(args) is Some
        &&& optional_count(args, "context_lines"@) is Some
    }

    /// This request is what the arguments `args` say.
    pub open spec fn reads(&self, args: JsonValue) -> bool {
        &&& required_text(args, "pattern"@) == Some(self.pattern@)
        &&& optional_text(args, "path"@) == Some(text_of(self.path))
        &&& optional_bool(args, "case_sensitive"@) == Some(self.case_sensitive)
        &&& optional_texts(args, "include_extensions"@) == Some(list_of(self.include_extensions))
        &&& optional_count(args, "max_results"@) == Some(self.max_results)
        &&& style_asked(args) == Some(self.highlight_style)
        &&& optional_count(args, "context_lines"@) == Some(self.context_lines)
    }

    /// Reads the request from its arguments.
    pub fn decode(args: &Json) -> (tool: Option<Search>)
        ensures
            tool is Some == Search::readable(args@),
            tool is Some ==> tool->0.reads(args@),
    {
        let pattern = match read_required_text(args, "pattern") {
            Some(pattern) => pattern,
            None => {
                return None;
            },
        };
        let path = match read_optional_text(args, "path") {
            Some(path) => path,
            None => {
                return None;
            },
        };
        let case_sensitive = match read_optional_bool(args, "case_sensitive") {
            Some(case_sensitive) => case_sensitive,
            None => {
                return None;
            },
        };
        let include_extensions = match read_optional_texts(args, "include_extensions") {
            Some(include_extensions) => include_extensions,
            None => {
                return None;
            },
        };
        let max_results = match read_optional_count(args, "max_results") {
            Some(max_results) => max_results,
            None => {
                return None;
            },
        };
        let highlight_style = match args.get("highlight_style") {
            None => HighlightStyle::Box,
            Some(value) => match value.as_str() {
                Some(name) => match HighlightStyle::from_name(name) {
                    Some(style) => style,
                    None => {
                        return None;
                    },
                },
                None => {
                    return None;
                },
            },
        };
        let context_lines = match read_optional_count(args, "context_lines") {
            Some(context_lines) => context_lines,
            None => {
                return None;
            },
        };
        Some(
            Search {
                pattern,
                path,
                case_sensitive,
                include_extensions,
                max_results,
                highlight_style,
                context_lines,
            },
        )
    }
}

/// A file extension that marks a file as not being text.
pub open spec fn is_binary_extension(extension: Seq<char>) -> bool {
    ||| extension == "exe"@
    ||| extension == "dll"@
    ||| extension == "so"@
    ||| extension == "dylib"@
    ||| extension == "a"@
    ||| extension == "o"@
    ||| extension == "obj"@
    ||| extension == "png"@
    ||| extension == "jpg"@
    ||| extension == "jpeg"@
    ||| extension == "gif"@
    ||| extension == "bmp"@
    ||| extension == "ico"@
    ||| extension == "mp3"@
    ||| extension == "mp4"@
    ||| extension == "avi"@
    ||| extension == "mov"@
    ||| extension == "zip"@
    ||| extension == "tar"@
    ||| extension == "gz"@
}

/// The path runs through a directory that holds no sources.
pub open spec fn is_excluded_path(path: Seq<char>) -> bool {
    ||| contains_text(path, "/.git/"@)
    ||| contains_text(path, "/target/"@)
    ||| contains_text(path, "/node_modules/"@)
    ||| contains_text(path, "/.svn/"@)
    ||| contains_text(path, "/.hg/"@)
}

/// Some text of `allowed` is `extension`.
pub open spec fn is_listed(allowed: Seq<Seq<char>>, extension: Seq<char>) -> bool {
    exists|i: int| 0 <= i < allowed.len() && #[trigger] allowed[i] == extension
}

fn binary_extension(extension: &str) -> (binary: bool)
    ensures
        binary == is_binary_extension(extension@),
{
    same_text(extension, "exe") || same_text(extension, "dll") || same_text(extension, "so")
        || same_text(extension, "dylib") || same_text(extension, "a") || same_text(extension, "o")
        || same_text(extension, "obj") || same_text(extension, "png") || same_text(
        extension,
        "jpg",
    ) || same_text(extension, "jpeg") || same_text(extension, "gif") || same_text(
        extension,
        "bmp",
    ) || same_text(extension, "ico") || same_text(extension, "mp3") || same_text(
        extension,
        "mp4",
    ) || same_text(extension, "avi") || same_text(extension, "mov") || same_text(
        extension,
        "zip",
    ) || same_text(extension, "tar") || same_text(extension, "gz")
}

/// The pattern is a regular expression that the search can be made with.
pub uninterp spec fn regex_valid(pattern: Seq<char>, case_insensitive: bool) -> bool;

/// The regular expression `pattern` matches somewhere in `line`.
pub uninterp spec fn regex_finds(pattern: Seq<char>, case_insensitive: bool, line: Seq<char>) -> bool;

/// Builds a matcher with `grep::regex::RegexMatcherBuilder::build` and asks
/// it with `grep::matcher::Matcher::find`, line by line, whether the line
/// holds a match. No answer is given where `build` refuses the pattern. The
/// contract gives the validity of a pattern and the answer for a line a name
/// each.
#[verifier::external_body]
fn find_matching_lines(pattern: &str, case_insensitive: bool, lines: &Vec<String>) -> (flags:
    Option<Vec<bool>>)
    ensures
        match flags {
            Some(flags) => {
                &&& regex_valid(pattern@, case_insensitive)
                &&& flags@.len() == lines@.len()
                &&& forall|i: int|
                    0 <= i < lines@.len() ==> #[trigger] flags@[i] == regex_finds(
                        pattern@,
                        case_insensitive,
                        lines@[i]@,
                    )
            },
            None => !regex_valid(pattern@, case_insensitive),
        },
{
    let mut builder = grep::regex::RegexMatcherBuilder::new();
    let matcher = builder.case_insensitive(case_insensitive).build(pattern).ok()?;
    Some(lines.iter().map(|line| matches!(matcher.find(line.as_bytes()), Ok(Some(_)))).collect())
}

/// One line that holds a match, with the lines around it.
#[derive(Debug)]
pub struct SearchResult {
    pub file_path: String,
    pub line_number: u64,
    pub line_content: String,
    pub context_before: Vec<String>,
    pub context_after: Vec<String>,
}

/// What a search result holds.
pub struct Hit {
    pub file_path: Seq<char>,
    pub line_number: nat,
    pub line_content: Seq<char>,
    pub context_before: Seq<Seq<char>>,
    pub context_after: Seq<Seq<char>>,
}

impl View for SearchResult {
    type V = Hit;

    open spec fn view(&self) -> Hit {
        Hit {
            file_path: self.file_path@,
            line_number: self.line_number as nat,
            line_content: self.line_content@,
            context_before: texts_of(self.context_before@),
            context_after: texts_of(self.context_after@),
        }
    }
}

/// What a list of search results holds.
pub open spec fn hits_of(results: Seq<SearchResult>) -> Seq<Hit> {
    Seq::new(results.len(), |i: int| results[i]@)
}

/// The result for a match in line `index` of `lines`, counted from zero, with
/// up to `context` lines before and after it. Lines are numbered from one.
pub open spec fn hit_at(path: Seq<char>, lines: Seq<Seq<char>>, index: int, context: nat) -> Hit {
    let start = if index >= context {
        index - context
    } else {
        0
    };
    let end = if index + 1 + context <= lines.len() {
        index + 1 + context
    } else {
        lines.len() as int
    };
    Hit {
        file_path: path,
        line_number: (index + 1) as nat,
        line_content: lines[index],
        context_before: lines.subrange(start, index),
        context_after: lines.subrange(index + 1, end),
    }
}

/// The results for the first `upto` lines of a file: one for each line that
/// holds a match, in order, until `budget` results are found.
pub open spec fn found(
    path: Seq<char>,
    lines: Seq<Seq<char>>,
    flags: Seq<bool>,
    context: nat,
    budget: nat,
    upto: int,
) -> Seq<Hit>
    decreases upto,
{
    if upto <= 0 {
        Seq::empty()
    } else {
        let before = found(path, lines, flags, context, budget, upto - 1);
        if flags[upto - 1] && before.len() < budget {
            before.push(hit_at(path, lines, upto - 1, context))
        } else {
            before
        }
    }
}

/// The flags say, line by line, whether the pattern matches.
pub open spec fn flags_for(pattern: Seq<char>, case_insensitive: bool, lines: Seq<Seq<char>>) -> Seq<
    bool,
> {
    Seq::new(lines.len(), |i: int| regex_finds(pattern, case_insensitive, lines[i]))
}

/// How many more results can be taken when `total` of at most `max` are
/// found.
pub open spec fn budget_left(total: usize, max: usize) -> nat {
    if total < max {
        (max - total) as nat
    } else {
        0
    }
}

fn copy_lines(lines: &Vec<String>, from: usize, to: usize) -> (copies: Vec<String>)
    requires
        from <= to <= lines.len(),
    ensures
        texts_of(copies@) == texts_of(lines@).subrange(from as int, to as int),
{
    let mut copies: Vec<String> = Vec::new();
    let mut i: usize = from;
    while i < to
        invariant
            from <= i <= to <= lines.len(),
            copies@.len() == i - from,
            forall|k: int| 0 <= k < copies@.len() ==> (#[trigger] copies@[k])@ == lines@[from + k]@,
        decreases to - i,
    {
        copies.push(lines[i].clone());
        i += 1;
    }
    assert(texts_of(copies@) =~= texts_of(lines@).subrange(from as int, to as int));
    copies
}

impl Search {
    /// Whether a file is searched: with a list of extensions, a file whose
    /// extension is listed; without one, every file but those whose extension
    /// marks them as not being text.
    pub open spec fn searches_file(&self, path: Seq<char>) -> bool {
        match self.include_extensions {
            Some(allowed) => match path_extension(path) {
                Some(extension) => is_listed(texts_of(allowed@), extension),
                None => false,
            },
            None => match path_extension(path) {
                Some(extension) => !is_binary_extension(extension),
                None => true,
            },
        }
    }

    /// Whether a file is searched.
    pub fn should_search_file(&self, path: &str) -> (searched: bool)
        ensures
            searched == self.searches_file(path@),
    {
        let extension = extension_of(path);
        match &self.include_extensions {
            Some(allowed) => match extension {
                Some(extension) => {
                    let mut i: usize = 0;
                    while i < allowed.len()
                        invariant
                            i <= allowed.len(),
                            self.include_extensions == Some(*allowed),
                            path_extension(path@) == Some(extension@),
                            forall|k: int| 0 <= k < i ==> (#[trigger] allowed@[k])@ != extension@,
                        decreases allowed.len() - i,
                    {
                        if same_text(allowed[i].as_str(), extension.as_str()) {
                            assert(texts_of(allowed@)[i as int] == extension@);
                            assert(is_listed(texts_of(allowed@), extension@));
                            return true;
                        }
                        i += 1;
                    }
                    assert forall|k: int| 0 <= k < texts_of(allowed@).len() implies texts_of(
                        allowed@,
                    )[k] != extension@ by {
                        assert(allowed@[k]@ != extension@);
                    }
                    false
                },
                None => false,
            },
            None => match extension {
                Some(extension) => !binary_extension(extension.as_str()),
                None => true,
            },
        }
    }

    /// Whether a path is left out of the search because it runs through a
    /// directory that holds no sources.
    pub fn should_exclude_path(&self, path: &str) -> (excluded: bool)
        ensures
            excluded == is_excluded_path(path@),
    {
        let chars = chars_of(path);
        has_text(&chars, &chars_of("/.git/")) || has_text(&chars, &chars_of("/target/"))
            || has_text(&chars, &chars_of("/node_modules/")) || has_text(
            &chars,
            &chars_of("/.svn/"),
        ) || has_text(&chars, &chars_of("/.hg/"))
    }

    /// Whether the pattern is a regular expression that the search can be
    /// made with.
    pub fn pattern_is_valid(&self) -> (valid: bool)
        ensures
            valid == regex_valid(self.pattern@, !self.spec_case_sensitive()),
    {
        let nothing: Vec<String> = Vec::new();
        find_matching_lines(self.pattern.as_str(), !self.case_sensitive(), &nothing).is_some()
    }

    /// Searches what a file holds, line by line, and adds a result for each
    /// line that holds a match, until `max_results` results are found in all.
    /// With a pattern that is no regular expression nothing is found.
    pub fn search_file(
        &self,
        file_path: &str,
        content: &str,
        results: &mut Vec<SearchResult>,
        total_matches: &mut usize,
        max_results: usize,
    )
        ensures
            regex_valid(self.pattern@, !self.spec_case_sensitive()) ==> {
                let hits = found(
                    file_path@,
                    lines_of(content@),
                    flags_for(self.pattern@, !self.spec_case_sensitive(), lines_of(content@)),
                    self.spec_context_lines() as nat,
                    budget_left(*old(total_matches), max_results),
                    lines_of(content@).len() as int,
                );
                &&& hits_of(final(results)@) == hits_of(old(results)@) + hits
                &&& *final(total_matches) == *old(total_matches) + hits.len()
            },
            !regex_valid(self.pattern@, !self.spec_case_sensitive()) ==> {
                &&& *final(results) == *old(results)
                &&& *final(total_matches) == *old(total_matches)
            },
            (forall|i: int| 0 <= i < old(results)@.len() ==> numbered((#[trigger] old(results)@[i])@))
                ==> (forall|i: int|
                0 <= i < final(results)@.len() ==> numbered((#[trigger] final(results)@[i])@)),
    {
        let chars = chars_of(content);
        let split = split_lines(&chars);
        let mut lines: Vec<String> = Vec::new();
        let mut k: usize = 0;
        while k < split.len()
            invariant
                k <= split.len(),
                lines@.len() == k,
                forall|j: int| 0 <= j < k ==> (#[trigger] lines@[j])@ == split@[j]@,
            decreases split.len() - k,
        {
            lines.push(string_of(&split[k]));
            k += 1;
        }
        let ghost shown = lines_of(content@);
        proof {
            assert(texts_of(lines@) =~= texts(split@));
        }
        let case_insensitive = !self.case_sensitive();
        let flags = match find_matching_lines(self.pattern.as_str(), case_insensitive, &lines) {
            Some(flags) => flags,
            None => {
                return ;
            },
        };
        let ghost marks = flags_for(self.pattern@, case_insensitive, shown);
        proof {
            assert(flags@ =~= marks);
        }
        let context_lines = self.context_lines();
        let ghost budget = budget_left(*old(total_matches), max_results);
        let mut line_idx: usize = 0;
        proof {
            assert(hits_of(results@) =~= hits_of(old(results)@) + Seq::<Hit>::empty());
        }
        while line_idx < lines.len()
            invariant
                line_idx <= lines.len(),
                flags@.len() == lines@.len(),
                flags@ == marks,
                texts_of(lines@) == shown,
                budget == budget_left(*old(total_matches), max_results),
                context_lines == self.spec_context_lines(),
                hits_of(results@) == hits_of(old(results)@) + found(
                    file_path@,
                    shown,
                    marks,
                    context_lines as nat,
                    budget,
                    line_idx as int,
                ),
                *total_matches == *old(total_matches) + found(
                    file_path@,
                    shown,
                    marks,
                    context_lines as nat,
                    budget,
                    line_idx as int,
                ).len(),
                found(file_path@, shown, marks, context_lines as nat, budget, line_idx as int).len()
                    <= budget,
                (forall|i: int|
                    0 <= i < old(results)@.len() ==> numbered((#[trigger] old(results)@[i])@)) ==> (
                forall|i: int| 0 <= i < results@.len() ==> numbered((#[trigger] results@[i])@)),
            decreases lines.len() - line_idx,
        {
            let ghost before = found(
                file_path@,
                shown,
                marks,
                context_lines as nat,
                budget,
                line_idx as int,
            );
            if *total_matches < max_results && flags[line_idx] {
                let start: usize = if line_idx >= context_lines {
                    line_idx - context_lines
                } else {
                    0
                };
                let end: usize = if context_lines <= lines.len() - (line_idx + 1) {
                    line_idx + 1 + context_lines
                } else {
                    lines.len()
                };
                let context_before = copy_lines(&lines, start, line_idx);
                let context_after = copy_lines(&lines, line_idx + 1, end);
                let result = SearchResult {
                    file_path: file_path.to_owned(),
                    line_number: (line_idx + 1) as u64,
                    line_content: lines[line_idx].clone(),
                    context_before,
                    context_after,
                };
                proof {
                    assert(shown[line_idx as int] == lines@[line_idx as int]@);
                    assert(result@ == hit_at(file_path@, shown, line_idx as int, context_lines as nat));
                    assert(before.len() < budget);
                }
                let ghost held = hits_of(results@);
                let ghost kept = results@;
                assert(numbered(result@));
                results.push(result);
                assert(forall|i: int| 0 <= i < kept.len() ==> results@[i] == kept[i]);
                *total_matches = *total_matches + 1;
                proof {
                    assert(hits_of(results@) =~= held.push(result@));
                    assert(hits_of(results@) =~= hits_of(old(results)@) + before.push(result@));
                }
            } else {
                proof {
                    if flags@[line_idx as int] {
                        assert(!(before.len() < budget));
                    }
                }
            }
            line_idx += 1;
        }
    }
}

/// `text` with every match of the regular expression `pattern` put between
/// `prefix` and `suffix`, if `pattern` is a regular expression.
pub uninterp spec fn regex_marked(
    pattern: Seq<char>,
    case_insensitive: bool,
    text: Seq<char>,
    prefix: Seq<char>,
    suffix: Seq<char>,
) -> Option<Seq<char>>;

/// A match between the two marks.
pub fn wrap_match(prefix: &str, matched: &str, suffix: &str) -> (wrapped: String)
    ensures
        wrapped@ == prefix@ + matched@ + suffix@,
{
    let mut out: Vec<char> = Vec::new();
    push_str(&mut out, prefix);
    push_str(&mut out, matched);
    push_str(&mut out, suffix);
    string_of(&out)
}

/// Builds a regular expression with `regex::RegexBuilder::build` and has
/// `regex::Regex::replace_all` put every match between the two marks. No
/// answer is given where `build` refuses the pattern. The contract gives the
/// result a name.
#[verifier::external_body]
fn mark_matches(pattern: &str, case_insensitive: bool, text: &str, prefix: &str, suffix: &str) -> (marked:
    Option<String>)
    ensures
        match marked {
            Some(marked) => regex_marked(pattern@, case_insensitive, text@, prefix@, suffix@)
                == Some(marked@),
            None => regex_marked(pattern@, case_insensitive, text@, prefix@, suffix@) is None,
        },
{
    let regex = regex::RegexBuilder::new(pattern).case_insensitive(case_insensitive).build().ok()?;
    let wrap = |caps: &regex::Captures| wrap_match(prefix, &caps[0], suffix);
    Some(regex.replace_all(text, wrap).into_owned())
}

/// The marks that a style puts around a match; the plain style has none.
pub open spec fn style_marks(style: HighlightStyle) -> Option<(Seq<char>, Seq<char>)> {
    match style {
        HighlightStyle::Plain => None,
        HighlightStyle::Box => Some(("┌─"@, "─┐"@)),
        HighlightStyle::Emphasis => Some(("⦗"@, "⦘"@)),
        HighlightStyle::Ansi => Some(("\x1b[93m"@, "\x1b[0m"@)),
        HighlightStyle::Markdown => Some(("**"@, "**"@)),
    }
}

/// `text` with the first place marked at which `pattern` stands in it when
/// the case of letters is ignored: the place is looked for in the lower-case
/// forms of both, and what stands at that place in `text`, as long as the
/// pattern, is put between the marks.
pub open spec fn marked_ignoring_case(
    text: Seq<char>,
    pattern: Seq<char>,
    prefix: Seq<char>,
    suffix: Seq<char>,
) -> Seq<char> {
    match first_occurrence(lowercase(text), lowercase(pattern)) {
        Some(at) => if at + pattern.len() <= text.len() {
            text.take(at) + prefix + text.subrange(at, at + pattern.len()) + suffix + text.skip(
                at + pattern.len(),
            )
        } else {
            text
        },
        None => text,
    }
}

/// `text` with the matches of `pattern` put between the marks. A pattern
/// that is a regular expression is matched as one. Any other pattern is
/// taken literally: with regard to case, every occurrence is marked; without
/// regard to case, the first.
pub open spec fn matches_marked(
    text: Seq<char>,
    pattern: Seq<char>,
    case_sensitive: bool,
    prefix: Seq<char>,
    suffix: Seq<char>,
) -> Seq<char> {
    match regex_marked(pattern, !case_sensitive, text, prefix, suffix) {
        Some(marked) => marked,
        None => if case_sensitive {
            replaced(text, pattern, prefix + pattern + suffix)
        } else {
            marked_ignoring_case(text, pattern, prefix, suffix)
        },
    }
}

/// `text` with the matches of `pattern` marked in the style `style`.
pub open spec fn highlighted(
    style: HighlightStyle,
    text: Seq<char>,
    pattern: Seq<char>,
    case_sensitive: bool,
) -> Seq<char> {
    match style_marks(style) {
        None => text,
        Some((prefix, suffix)) => matches_marked(text, pattern, case_sensitive, prefix, suffix),
    }
}

fn mark_first_ignoring_case(
    text_chars: &Vec<char>,
    pattern_chars: &Vec<char>,
    text: &str,
    pattern: &str,
    prefix: &str,
    suffix: &str,
) -> (out: Vec<char>)
    requires
        text_chars@ == text@,
        pattern_chars@ == pattern@,
    ensures
        out@ == marked_ignoring_case(text@, pattern@, prefix@, suffix@),
{
    let lower_text = chars_of(to_lowercase(text).as_str());
    let lower_pattern = chars_of(to_lowercase(pattern).as_str());
    let mut out: Vec<char> = Vec::new();
    match position_of(&lower_text, &lower_pattern) {
        Some(at) => {
            if at <= text_chars.len() && pattern_chars.len() <= text_chars.len() - at {
                let stop: usize = at + pattern_chars.len();
                push_range(&mut out, text_chars, 0, at);
                push_str(&mut out, prefix);
                push_range(&mut out, text_chars, at, stop);
                push_str(&mut out, suffix);
                push_range(&mut out, text_chars, stop, text_chars.len());
                proof {
                    assert(text_chars@.subrange(0, at as int) =~= text_chars@.take(at as int));
                    assert(text_chars@.subrange(stop as int, text_chars.len() as int)
                        =~= text_chars@.skip(stop as int));
                }
            } else {
                push_chars(&mut out, text_chars);
            }
        },
        None => {
            push_chars(&mut out, text_chars);
        },
    }
    assert(out@ =~= marked_ignoring_case(text@, pattern@, prefix@, suffix@));
    out
}

impl HighlightStyle {
    /// Marks the matches of `pattern` in `text` in this style.
    pub fn highlight(&self, text: &str, pattern: &str, case_sensitive: bool) -> (marked: String)
        ensures
            marked@ == highlighted(*self, text@, pattern@, case_sensitive),
    {
        match self {
            HighlightStyle::Plain => text.to_owned(),
            HighlightStyle::Box => self.replace_matches(text, pattern, case_sensitive, "┌─", "─┐"),
            HighlightStyle::Emphasis => self.replace_matches(
                text,
                pattern,
                case_sensitive,
                "⦗",
                "⦘",
            ),
            HighlightStyle::Ansi => self.replace_matches(
                text,
                pattern,
                case_sensitive,
                "\x1b[93m",
                "\x1b[0m",
            ),
            HighlightStyle::Markdown => self.replace_matches(
                text,
                pattern,
                case_sensitive,
                "**",
                "**",
            ),
        }
    }

    /// Puts the matches of `pattern` in `text` between `prefix` and `suffix`.
    pub fn replace_matches(
        &self,
        text: &str,
        pattern: &str,
        case_sensitive: bool,
        prefix: &str,
        suffix: &str,
    ) -> (marked: String)
        ensures
            marked@ == matches_marked(text@, pattern@, case_sensitive, prefix@, suffix@),
    {
        match mark_matches(pattern, !case_sensitive, text, prefix, suffix) {
            Some(marked) => marked,
            None => {
                let text_chars = chars_of(text);
                let pattern_chars = chars_of(pattern);
                if case_sensitive {
                    let mut replacement: Vec<char> = Vec::new();
                    push_str(&mut replacement, prefix);
                    push_chars(&mut replacement, &pattern_chars);
                    push_str(&mut replacement, suffix);
                    let out = replace_all(&text_chars, &pattern_chars, &replacement);
                    string_of(&out)
                } else {
                    let out = mark_first_ignoring_case(
                        &text_chars,
                        &pattern_chars,
                        text,
                        pattern,
                        prefix,
                        suffix,
                    );
                    string_of(&out)
                }
            },
        }
    }
}

/// A search result is well-formed when its lines can be numbered: the lines
/// before the match have numbers of their own, and the numbers of the lines
/// after it fit the number type.
pub open spec fn numbered(hit: Hit) -> bool {
    &&& hit.context_before.len() < hit.line_number
    &&& hit.line_number + hit.context_after.len() <= u64::MAX
}

/// One line of output: where the line stands, and the line itself without
/// the white space around it.
pub open spec fn output_line(path: Seq<char>, number: nat, line: Seq<char>) -> Seq<char> {
    path + seq![':'] + decimal(number) + ": "@ + trimmed(line) + seq!['\n']
}

/// The output lines for the first `upto` of `lines`, which are numbered from
/// `first` on.
pub open spec fn output_lines(path: Seq<char>, first: nat, lines: Seq<Seq<char>>, upto: int) -> Seq<
    char,
>
    decreases upto,
{
    if upto <= 0 {
        Seq::empty()
    } else {
        output_lines(path, first, lines, upto - 1) + output_line(
            path,
            (first + upto - 1) as nat,
            lines[upto - 1],
        )
    }
}

/// What is shown of one search result: the lines before the match, the line
/// of the match with the matches marked, the lines after it, and a separator
/// if lines of context are asked for and there are any.
pub open spec fn hit_text(
    hit: Hit,
    pattern: Seq<char>,
    style: HighlightStyle,
    case_sensitive: bool,
    context_lines: nat,
) -> Seq<char> {
    output_lines(
        hit.file_path,
        (hit.line_number - hit.context_before.len()) as nat,
        hit.context_before,
        hit.context_before.len() as int,
    ) + output_line(
        hit.file_path,
        hit.line_number,
        highlighted(style, hit.line_content, pattern, case_sensitive),
    ) + output_lines(
        hit.file_path,
        hit.line_number + 1,
        hit.context_after,
        hit.context_after.len() as int,
    ) + (if context_lines > 0 && (hit.context_before.len() > 0 || hit.context_after.len() > 0) {
        "--\n"@
    } else {
        Seq::empty()
    })
}

/// What is shown of the first `upto` search results.
pub open spec fn hits_text(
    hits: Seq<Hit>,
    pattern: Seq<char>,
    style: HighlightStyle,
    case_sensitive: bool,
    context_lines: nat,
    upto: int,
) -> Seq<char>
    decreases upto,
{
    if upto <= 0 {
        Seq::empty()
    } else {
        hits_text(hits, pattern, style, case_sensitive, context_lines, upto - 1) + hit_text(
            hits[upto - 1],
            pattern,
            style,
            case_sensitive,
            context_lines,
        )
    }
}

fn push_output_line(out: &mut Vec<char>, path: &str, number: u64, line: &str)
    ensures
        final(out)@ == old(out)@ + output_line(path@, number as nat, line@),
{
    push_str(out, path);
    out.push(':');
    push_decimal(out, number);
    push_str(out, ": ");
    let kept = trim_chars(&chars_of(line));
    push_chars(out, &kept);
    out.push('\n');
    assert(out@ =~= old(out)@ + output_line(path@, number as nat, line@));
}

fn push_output_lines(out: &mut Vec<char>, path: &str, first: u64, lines: &Vec<String>)
    requires
        lines.len() > 0 ==> first + lines.len() - 1 <= u64::MAX,
    ensures
        final(out)@ == old(out)@ + output_lines(
            path@,
            first as nat,
            texts_of(lines@),
            lines.len() as int,
        ),
{
    let mut i: usize = 0;
    proof {
        assert(out@ =~= old(out)@ + Seq::<char>::empty());
    }
    while i < lines.len()
        invariant
            i <= lines.len(),
            lines.len() > 0 ==> first + lines.len() - 1 <= u64::MAX,
            out@ == old(out)@ + output_lines(path@, first as nat, texts_of(lines@), i as int),
        decreases lines.len() - i,
    {
        let ghost done = out@;
        push_output_line(out, path, first + i as u64, lines[i].as_str());
        i += 1;
        proof {
            assert(texts_of(lines@)[i - 1] == lines@[i - 1]@);
            assert(out@ =~= old(out)@ + (output_lines(
                path@,
                first as nat,
                texts_of(lines@),
                i - 1,
            ) + output_line(path@, (first + i - 1) as nat, lines@[i - 1]@)));
        }
    }
}

fn push_hit(
    output: &mut Vec<char>,
    result: &SearchResult,
    pattern: &str,
    highlight_style: HighlightStyle,
    case_sensitive: bool,
    context_lines: usize,
)
    requires
        numbered(result@),
    ensures
        final(output)@ == old(output)@ + hit_text(
            result@,
            pattern@,
            highlight_style,
            case_sensitive,
            context_lines as nat,
        ),
{
    let highlighted_content = highlight_style.highlight(
        result.line_content.as_str(),
        pattern,
        case_sensitive,
    );
    let first: u64 = result.line_number - result.context_before.len() as u64;
    push_output_lines(output, result.file_path.as_str(), first, &result.context_before);
    push_output_line(
        output,
        result.file_path.as_str(),
        result.line_number,
        highlighted_content.as_str(),
    );
    if result.context_after.len() > 0 {
        push_output_lines(
            output,
            result.file_path.as_str(),
            result.line_number + 1,
            &result.context_after,
        );
    }
    if context_lines > 0 && (result.context_before.len() > 0 || result.context_after.len() > 0) {
        push_str(output, "--\n");
    }
    proof {
        assert(texts_of(result.context_before@).len() == result.context_before@.len());
        assert(texts_of(result.context_after@).len() == result.context_after@.len());
        assert(output@ =~= old(output)@ + hit_text(
            result@,
            pattern@,
            highlight_style,
            case_sensitive,
            context_lines as nat,
        ));
    }
}

impl Search {
    /// The answer when nothing was found.
    pub open spec fn nothing_found_text(&self, search_path: Seq<char>) -> Seq<char> {
        "No matches found for pattern \""@ + self.pattern@ + "\" in "@ + search_path
    }

    /// The answer that shows what was found: a count, the results with their
    /// context, and, if more matches were counted than are allowed, a note on
    /// how many are left out.
    pub open spec fn results_text(&self, hits: Seq<Hit>, total_matches: usize) -> Seq<char> {
        "Found "@ + decimal(hits.len()) + " matches for pattern \""@ + self.pattern@ + "\":\n\n"@
            + hits_text(
            hits,
            self.pattern@,
            self.highlight_style,
            self.spec_case_sensitive(),
            self.spec_context_lines() as nat,
            hits.len() as int,
        ) + (if total_matches > self.spec_max_results() {
            "\n... and "@ + decimal((total_matches - self.spec_max_results()) as nat)
                + " more matches (limit "@ + decimal(self.spec_max_results() as nat) + ")"@
        } else {
            Seq::empty()
        })
    }

    /// The answer to a search.
    pub open spec fn answer_text(
        &self,
        search_path: Seq<char>,
        hits: Seq<Hit>,
        total_matches: usize,
    ) -> Seq<char> {
        if hits.len() == 0 {
            self.nothing_found_text(search_path)
        } else {
            self.results_text(hits, total_matches)
        }
    }

    /// The answer to a search of `search_path` that ended with `results`,
    /// having counted `total_matches` matches.
    pub fn format_results(
        &self,
        search_path: &str,
        results: &Vec<SearchResult>,
        total_matches: usize,
    ) -> (answer: String)
        requires
            forall|i: int| 0 <= i < results@.len() ==> numbered((#[trigger] results@[i])@),
        ensures
            answer@ == self.answer_text(search_path@, hits_of(results@), total_matches),
    {
        let mut output: Vec<char> = Vec::new();
        if results.len() == 0 {
            push_str(&mut output, "No matches found for pattern \"");
            push_str(&mut output, self.pattern.as_str());
            push_str(&mut output, "\" in ");
            push_str(&mut output, search_path);
            return string_of(&output);
        }
        push_str(&mut output, "Found ");
        push_decimal(&mut output, results.len() as u64);
        push_str(&mut output, " matches for pattern \"");
        push_str(&mut output, self.pattern.as_str());
        push_str(&mut output, "\":\n\n");
        let ghost head = output@;
        let ghost hits = hits_of(results@);
        let highlight_style = self.highlight_style();
        let case_sensitive = self.case_sensitive();
        let context_lines = self.context_lines();
        let mut k: usize = 0;
        proof {
            assert(output@ =~= head + Seq::<char>::empty());
        }
        while k < results.len()
            invariant
                k <= results.len(),
                hits == hits_of(results@),
                highlight_style == self.highlight_style,
                case_sensitive == self.spec_case_sensitive(),
                context_lines == self.spec_context_lines(),
                forall|i: int| 0 <= i < results@.len() ==> numbered((#[trigger] results@[i])@),
                output@ == head + hits_text(
                    hits,
                    self.pattern@,
                    highlight_style,
                    case_sensitive,
                    context_lines as nat,
                    k as int,
                ),
            decreases results.len() - k,
        {
            let ghost done = output@;
            proof {
                assert(numbered(results@[k as int]@));
                assert(hits[k as int] == results@[k as int]@);
            }
            push_hit(
                &mut output,
                &results[k],
                self.pattern.as_str(),
                highlight_style,
                case_sensitive,
                context_lines,
            );
            proof {
                assert(output@ =~= head + (hits_text(
                    hits,
                    self.pattern@,
                    highlight_style,
                    case_sensitive,
                    context_lines as nat,
                    k as int,
                ) + hit_text(
                    hits[k as int],
                    self.pattern@,
                    highlight_style,
                    case_sensitive,
                    context_lines as nat,
                )));
            }
            k += 1;
        }
        let max_results = self.max_results();
        if total_matches > max_results {
            push_str(&mut output, "\n... and ");
            push_decimal(&mut output, (total_matches - max_results) as u64);
            push_str(&mut output, " more matches (limit ");
            push_decimal(&mut output, max_results as u64);
            push_str(&mut output, ")");
        }
        proof {
            assert(hits.len() == results@.len());
            assert(output@ =~= self.results_text(hits, total_matches));
        }
        string_of(&output)
    }
}

/// A step of searching at which the file system can fail.
#[derive(Debug, Clone, Copy, PartialEq, Eq, Structural)]
pub enum SearchStage {
    ReadFile,
    ReadDirectory,
}

impl Search {
    /// The error when the pattern is no regular expression.
    pub open spec fn invalid_pattern_text() -> Seq<char> {
        "Invalid regex pattern"@
    }

    /// The error when the file system failed at `stage`.
    pub open spec fn failure_text(stage: SearchStage, path: Seq<char>) -> Seq<char> {
        match stage {
            SearchStage::ReadFile => "Failed to read file: "@ + path,
            SearchStage::ReadDirectory => "Failed to read directory: "@ + path,
        }
    }

    /// Decides whether the search is made at all: a pattern that is no
    /// regular expression ends the request with an error before any file is
    /// read.
    pub fn begin(&self) -> (verdict: Result<(), String>)
        ensures
            match verdict {
                Ok(_) => regex_valid(self.pattern@, !self.spec_case_sensitive()),
                Err(text) => !regex_valid(self.pattern@, !self.spec_case_sensitive()) && text@
                    == Search::invalid_pattern_text(),
            },
    {
        if self.pattern_is_valid() {
            Ok(())
        } else {
            Err("Invalid regex pattern".to_owned())
        }
    }

    /// The error when the file system failed at `stage`.
    pub fn failure(stage: SearchStage, path: &str) -> (text: String)
        ensures
            text@ == Search::failure_text(stage, path@),
    {
        let mut out: Vec<char> = Vec::new();
        match stage {
            SearchStage::ReadFile => {
                push_str(&mut out, "Failed to read file: ");
            },
            SearchStage::ReadDirectory => {
                push_str(&mut out, "Failed to read directory: ");
            },
        }
        push_str(&mut out, path);
        string_of(&out)
    }
}

} // verus!
