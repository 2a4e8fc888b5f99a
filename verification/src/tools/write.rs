//! Writing contents to a file.

use crate::state::resolves_to;
use crate::state::FsTools;
use crate::state::ResolveError;
use crate::state::DEFAULT_SESSION_ID;
use crate::arguments::optional_bool;
use crate::arguments::read_optional_bool;
use crate::arguments::read_required_text;
use crate::arguments::required_text;
use crate::json::Json;
use crate::json::JsonValue;
use crate::formats::format_size;
use crate::formats::size_display;
use crate::text::chars_of;
use crate::text::decimal;
use crate::text::joined_lines;
use crate::text::lines_of;
use crate::text::push_chars;
use crate::text::push_decimal;
use crate::text::push_joined;
use crate::text::push_str;
use crate::text::split_lines;
use crate::text::string_of;
use crate::text::texts;
use vstd::utf8::encode_utf8;
use crate::state::change_tracked;
use crate::state::lookup_tracked;
use vstd::prelude::*;

verus! {

/// Write contents to a file, optionally creating any directories needed
#[derive(Debug)]
pub struct Write {
    /// Path to write to
    /// Can be absolute, or relative to session context path.
    pub path: String,
    /// The full contents of the file, expressed as a utf8 string, or in the case of `append`, the
    /// next chunk to write.
    pub contents: String,
    /// Overwrite file if it exists
    ///
    /// Default: false
    pub overwrite: Option<bool>,
    /// Append to existing file
    ///
    /// Default: false
    pub append: Option<bool>,
    /// Create any directories leading up to this file if they don't already exist.
    ///
    /// Default: true
    pub create_directories: Option<bool>,
}

/// How the file is opened for writing.
#[derive(Debug, Clone, Copy, PartialEq, Eq, Structural)]
pub enum WriteMode {
    /// Add to the end of the file, creating it if it does not exist.
    Append,
    /// Replace the contents of a file that exists.
    Overwrite,
    /// Create the file, which must not exist yet.
    CreateNew,
}

impl Write {
    pub open spec fn spec_overwrite(&self) -> bool {
        match self.overwrite {
            Some(value) => value,
            None => false,
        }
    }

    pub open spec fn spec_append(&self) -> bool {
        match self.append {
            Some(value) => value,
            None => false,
        }
    }

    pub open spec fn spec_create_directories(&self) -> bool {
        match self.create_directories {
            Some(value) => value,
            None => true,
        }
    }

    /// The mode in which the file is opened, unless the request contradicts
    /// itself by asking both to append and to overwrite.
    pub open spec fn spec_mode(&self) -> Option<WriteMode> {
        if self.spec_append() && self.spec_overwrite() {
            None
        } else if self.spec_append() {
            Some(WriteMode::Append)
        } else if self.spec_overwrite() {
            Some(WriteMode::Overwrite)
        } else {
            Some(WriteMode::CreateNew)
        }
    }

    #[verifier::when_used_as_spec(spec_overwrite)]
    pub fn overwrite(&self) -> (value: bool)
        ensures
            value == self.spec_overwrite(),
    {
        match self.overwrite {
            Some(value) => value,
            None => false,
        }
    }

    #[verifier::when_used_as_spec(spec_append)]
    pub fn append(&self) -> (value: bool)
        ensures
            value == self.spec_append(),
    {
        match self.append {
            Some(value) => value,
            None => false,
        }
    }

    #[verifier::when_used_as_spec(spec_create_directories)]
    pub fn create_directories(&self) -> (value: bool)
        ensures
            value == self.spec_create_directories(),
    {
        match self.create_directories {
            Some(value) => value,
            None => true,
        }
    }

    /// The mode in which the file is opened, unless the request contradicts
    /// itself.
    #[verifier::when_used_as_spec(spec_mode)]
    pub fn mode(&self) -> (mode: Option<WriteMode>)
        ensures
            mode == self.spec_mode(),
    {
        if self.append() && self.overwrite() {
            None
        } else if self.append() {
            Some(WriteMode::Append)
        } else if self.overwrite() {
            Some(WriteMode::Overwrite)
        } else {
            Some(WriteMode::CreateNew)
        }
    }

    /// Resolves the path of the file to write.
    pub fn prepare(&self, state: &mut FsTools) -> (target: Result<String, ResolveError>)
        requires
            old(state).wf(),
        ensures
            final(state).wf(),
            change_tracked(
                old(state).unsaved(),
                final(state).unsaved(),
                old(state)@,
                final(state)@,
            ),
            lookup_tracked(old(state).unsaved(), final(state).unsaved(), self.path@),
            resolves_to(old(state)@, final(state)@, self.path@, DEFAULT_SESSION_ID@, target),
    {
        state.resolve_path(self.path.as_str(), None)
    }
}

impl Write {
    /// The arguments `args` can be read as a request to write.
    pub open spec fn readable(args: JsonValue) -> bool {
        &&& required_text(args, "path"@) is Some
        &&& required_text(args, "contents"@) is Some
        &&& optional_bool(args, "overwrite"@) is Some
        &&& optional_bool(args, "append"@) is Some
        &&& optional_bool(args, "create_directories"@) is Some
    }

    /// This request is what the arguments `args` say.
    pub open spec fn reads(&self, args: JsonValue) -> bool {
        &&& required_text(args, "path"@) == Some(self.path@)
        &&& required_text(args, "contents"@) == Some(self.contents@)
        &&& optional_bool(args, "overwrite"@) == Some(self.overwrite)
        &&& optional_bool(args, "append"@) == Some(self.append)
        &&& optional_bool(args, "create_directories"@) == Some(self.create_directories)
    }

    /// Reads the request from its arguments.
    pub fn decode(args: &Json) -> (tool: Option<Write>)
        ensures
            tool is Some == Write::readable(args@),
            tool is Some ==> tool->0.reads(args@),
    {
        let path = match read_required_text(args, "path") {
            Some(path) => path,
            None => {
                return None;
            },
        };
        let contents = match read_required_text(args, "contents") {
            Some(contents) => contents,
            None => {
                return None;
            },
        };
        let overwrite = match read_optional_bool(args, "overwrite") {
            Some(overwrite) => overwrite,
            None => {
                return None;
            },
        };
        let append = match read_optional_bool(args, "append") {
            Some(append) => append,
            None => {
                return None;
            },
        };
        let create_directories = match read_optional_bool(args, "create_directories") {
            Some(create_directories) => create_directories,
            None => {
                return None;
            },
        };
        Some(Write { path, contents, overwrite, append, create_directories })
    }
}

/// A step of writing at which the file system can fail.
#[derive(Debug, Clone, Copy, PartialEq, Eq, Structural)]
pub enum WriteStage {
    CreateDirectories,
    Write,
    Metadata,
}

/// The last `lines` lines of `content`, put together again.
pub open spec fn tail_text(content: Seq<char>, lines: nat) -> Seq<char> {
    let all = lines_of(content);
    if all.len() <= lines {
        joined_lines(all)
    } else {
        joined_lines(all.skip(all.len() - lines))
    }
}

/// What is shown of the place where new content was appended: the end of
/// what the file held before, if it held anything, a marker, and the first
/// `lines_to_show` lines of the new content with a count of those left out.
pub open spec fn seam_display(tail: Seq<char>, appended: Seq<char>, lines_to_show: nat) -> Seq<
    char,
> {
    let context = if tail.len() > 0 {
        "\nContext around append point (last "@ + decimal(lines_to_show) + " lines):\n"@ + tail
            + seq!['\n']
    } else {
        Seq::empty()
    };
    let lines = lines_of(appended);
    let shown = if lines_to_show <= lines.len() {
        lines_to_show
    } else {
        lines.len()
    };
    let head = if shown > 0 {
        joined_lines(lines.take(shown as int))
    } else {
        Seq::empty()
    };
    let rest = if shown > 0 && lines.len() > shown {
        "\n... ("@ + decimal((lines.len() - shown) as nat) + " more lines)"@
    } else {
        Seq::empty()
    };
    context + "\n<<< APPENDED >>>\n"@ + head + rest
}

impl Write {
    /// The answer to a request that asks both to append and to overwrite.
    pub open spec fn conflict_text() -> Seq<char> {
        "`overwrite` and `append` are mutually exclusive. No filesystem operation has been performed"@
    }

    /// The answer when the file exists and was to be created.
    pub open spec fn exists_text(path: Seq<char>) -> Seq<char> {
        "File "@ + path
            + " already exists, use \"overwrite\": true if you intend to replace it, or \"append\": true if you intend to add content to the end of the file."@
    }

    /// The error when the file could not be opened.
    pub open spec fn open_failure_text(path: Seq<char>, cause: Seq<char>) -> Seq<char> {
        "Failed to open "@ + path + " for writing: "@ + cause
    }

    /// The error when the file system failed at `stage`.
    pub open spec fn failure_text(stage: WriteStage, path: Seq<char>) -> Seq<char> {
        match stage {
            WriteStage::CreateDirectories => "Failed to create directories for "@ + path,
            WriteStage::Write => "Failed to write to "@ + path,
            WriteStage::Metadata => "Failed to get metadata for "@ + path,
        }
    }

    /// The answer after the contents were written to `path`, where the file
    /// now holds `total` bytes and `tail` is the end of what it held before.
    pub open spec fn report_text(&self, path: Seq<char>, total: u64, tail: Seq<char>) -> Seq<char> {
        let written = "Successfully wrote "@ + decimal(encode_utf8(self.contents@).len())
            + " bytes to "@ + path + " (total: "@ + size_display(total) + ")"@;
        if self.spec_append() && (tail.len() > 0 || self.contents@.len() > 0) {
            written + seam_display(tail, self.contents@, 3)
        } else {
            written
        }
    }

    /// The answer to a request that asks both to append and to overwrite.
    pub fn conflict() -> (text: String)
        ensures
            text@ == Write::conflict_text(),
    {
        "`overwrite` and `append` are mutually exclusive. No filesystem operation has been performed".to_owned()
    }

    /// The answer when the file exists and was to be created.
    pub fn already_exists(path: &str) -> (text: String)
        ensures
            text@ == Write::exists_text(path@),
    {
        let mut out: Vec<char> = Vec::new();
        push_str(&mut out, "File ");
        push_str(&mut out, path);
        push_str(
            &mut out,
            " already exists, use \"overwrite\": true if you intend to replace it, or \"append\": true if you intend to add content to the end of the file.",
        );
        string_of(&out)
    }

    /// The error when the file could not be opened.
    pub fn open_failure(path: &str, cause: &str) -> (text: String)
        ensures
            text@ == Write::open_failure_text(path@, cause@),
    {
        let mut out: Vec<char> = Vec::new();
        push_str(&mut out, "Failed to open ");
        push_str(&mut out, path);
        push_str(&mut out, " for writing: ");
        push_str(&mut out, cause);
        string_of(&out)
    }

    /// The error when the file system failed at `stage`.
    pub fn failure(stage: WriteStage, path: &str) -> (text: String)
        ensures
            text@ == Write::failure_text(stage, path@),
    {
        let mut out: Vec<char> = Vec::new();
        match stage {
            WriteStage::CreateDirectories => {
                push_str(&mut out, "Failed to create directories for ");
            },
            WriteStage::Write => {
                push_str(&mut out, "Failed to write to ");
            },
            WriteStage::Metadata => {
                push_str(&mut out, "Failed to get metadata for ");
            },
        }
        push_str(&mut out, path);
        string_of(&out)
    }

    /// The last `lines` lines of what a file holds.
    pub fn read_file_tail(content: &str, lines: usize) -> (tail: String)
        ensures
            tail@ == tail_text(content@, lines as nat),
    {
        let chars = chars_of(content);
        let file_lines = split_lines(&chars);
        let start: usize = if file_lines.len() <= lines {
            0
        } else {
            file_lines.len() - lines
        };
        let mut out: Vec<char> = Vec::new();
        push_joined(&mut out, &file_lines, start, file_lines.len());
        proof {
            let all = lines_of(content@);
            assert(texts(file_lines@).subrange(start as int, file_lines@.len() as int) =~= all.skip(
                start as int,
            ));
            assert(all.skip(0) =~= all);
        }
        string_of(&out)
    }

    /// What is kept of the file as it was before the write, to show the
    /// place where content was appended: the last three lines of what the
    /// file held, when content is appended and the file could be read, and
    /// nothing in every other case.
    pub fn tail_before(mode: WriteMode, existing: Option<&str>) -> (tail: String)
        ensures
            tail@ == match existing {
                Some(content) if mode == WriteMode::Append => tail_text(content@, 3),
                _ => Seq::<char>::empty(),
            },
    {
        match existing {
            Some(content) if mode == WriteMode::Append => Write::read_file_tail(content, 3),
            _ => {
                proof {
                    reveal_strlit("");
                }
                "".to_owned()
            },
        }
    }

    /// What is shown of the place where new content was appended.
    pub fn format_seam_display(tail: &str, appended: &str, lines_to_show: usize) -> (display: String)
        ensures
            display@ == seam_display(tail@, appended@, lines_to_show as nat),
    {
        let mut result: Vec<char> = Vec::new();
        let tail_chars = chars_of(tail);
        if tail_chars.len() > 0 {
            push_str(&mut result, "\nContext around append point (last ");
            push_decimal(&mut result, lines_to_show as u64);
            push_str(&mut result, " lines):\n");
            push_chars(&mut result, &tail_chars);
            result.push('\n');
        }
        let ghost context = result@;
        push_str(&mut result, "\n<<< APPENDED >>>\n");
        let appended_chars = chars_of(appended);
        let appended_lines = split_lines(&appended_chars);
        let shown: usize = if lines_to_show <= appended_lines.len() {
            lines_to_show
        } else {
            appended_lines.len()
        };
        if shown > 0 {
            push_joined(&mut result, &appended_lines, 0, shown);
            proof {
                assert(texts(appended_lines@).subrange(0, shown as int) =~= lines_of(appended@).take(
                    shown as int,
                ));
            }
            if appended_lines.len() > shown {
                push_str(&mut result, "\n... (");
                push_decimal(&mut result, (appended_lines.len() - shown) as u64);
                push_str(&mut result, " more lines)");
            }
        }
        proof {
            assert(result@ =~= seam_display(tail@, appended@, lines_to_show as nat));
        }
        string_of(&result)
    }

    /// The answer after the contents were written to `path`.
    pub fn report(&self, path: &str, total: u64, tail: &str) -> (text: String)
        ensures
            text@ == self.report_text(path@, total, tail@),
    {
        let mut out: Vec<char> = Vec::new();
        push_str(&mut out, "Successfully wrote ");
        let contents = self.contents.as_str();
        let written_bytes: usize = contents.as_bytes().len();
        assert(written_bytes == encode_utf8(self.contents@).len());
        push_decimal(&mut out, written_bytes as u64);
        push_str(&mut out, " bytes to ");
        push_str(&mut out, path);
        push_str(&mut out, " (total: ");
        let size = format_size(total);
        push_str(&mut out, size.as_str());
        push_str(&mut out, ")");
        let ghost written = out@;
        proof {
            assert(written =~= "Successfully wrote "@ + decimal(encode_utf8(self.contents@).len())
                + " bytes to "@ + path@ + " (total: "@ + size_display(total) + ")"@);
        }
        let tail_chars = chars_of(tail);
        let contents_chars = chars_of(self.contents.as_str());
        if self.append() && (tail_chars.len() > 0 || contents_chars.len() > 0) {
            let seam = Write::format_seam_display(tail, self.contents.as_str(), 3);
            push_str(&mut out, seam.as_str());
        }
        proof {
            assert(out@ =~= self.report_text(path@, total, tail@));
        }
        string_of(&out)
    }
}

/// What a request to write leads to before any file is touched.
#[derive(Debug)]
pub enum WriteStep {
    /// The file is to be opened in this mode and written.
    Open(WriteMode),
    /// Nothing is opened; this is how the request ends.
    Done(Result<String, String>),
}

/// How the opening of the file ended.
#[derive(Debug)]
pub enum Opening {
    /// The file is open for writing.
    Opened,
    /// The file was to be created, and a file of that name exists.
    AlreadyExists,
    /// The file could not be opened; the cause, in words.
    Failed(String),
}

impl Write {
    /// Decides what the request leads to before any file is touched. A
    /// request that asks both to append and to overwrite ends at once, with a
    /// successful answer that says so, and nothing is opened. Any other
    /// request has the file opened in the mode it asks for.
    pub fn begin(&self) -> (step: WriteStep)
        ensures
            match self.spec_mode() {
                Some(mode) => step == WriteStep::Open(mode),
                None => step matches WriteStep::Done(Ok(text)) && text@ == Write::conflict_text(),
            },
    {
        match self.mode() {
            Some(mode) => WriteStep::Open(mode),
            None => WriteStep::Done(Ok(Write::conflict())),
        }
    }

    /// Decides how the request ends once the opening of the file at `path`
    /// has ended. A file that is open is written, so the request goes on. A
    /// file that exists and was to be created ends the request with a
    /// successful answer that names the path and the two ways to go on; the
    /// file is left as it is. Any other failure ends the request with an
    /// error.
    pub fn after_open(path: &str, opening: Opening) -> (answer: Option<Result<String, String>>)
        ensures
            match opening {
                Opening::Opened => answer is None,
                Opening::AlreadyExists => answer matches Some(Ok(text)) && text@
                    == Write::exists_text(path@),
                Opening::Failed(cause) => answer matches Some(Err(text)) && text@
                    == Write::open_failure_text(path@, cause@),
            },
    {
        match opening {
            Opening::Opened => None,
            Opening::AlreadyExists => Some(Ok(Write::already_exists(path))),
            Opening::Failed(cause) => Some(Err(Write::open_failure(path, cause.as_str()))),
        }
    }
}

} // verus!
