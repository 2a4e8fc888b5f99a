//! Reading files as text.

use crate::state::resolves_to;
use crate::state::FsTools;
use crate::state::ResolveError;
use crate::state::DEFAULT_SESSION_ID;
use crate::arguments::optional_count;
use crate::arguments::read_optional_count;
use crate::arguments::read_required_texts;
use crate::arguments::required_texts;
use crate::arguments::texts_of;
use crate::json::Json;
use crate::json::JsonValue;
use crate::session::SessionEntry;
use crate::state::SharedContextData;
use crate::text::chars_of;
use crate::text::decimal;
use crate::text::push_chars;
use crate::text::push_decimal;
use crate::text::push_str;
use crate::text::string_of;
use vstd::utf8::encode_utf8;
use crate::state::change_tracked;
use crate::state::lemma_lookup_one_more;
use crate::state::lookups_tracked;
use crate::state::lookup_tracked;
use vstd::prelude::*;

verus! {

/// Read utf8 contents from a file. Non-utf8 characters will be replaced lossily
#[derive(Debug)]
pub struct Read {
    /// Path or paths to read
    /// Can be absolute, or relative to session context path.
    pub paths: Vec<String>,
    /// Max length in bytes to read. Will truncate response and indicate truncation.
    pub max_length: Option<usize>,
}

impl Read {
    /// Resolves one of the paths to read.
    pub fn prepare(&self, state: &mut FsTools, index: usize) -> (target: Result<
        String,
        ResolveError,
    >)
        requires
            old(state).wf(),
            index < self.paths.len(),
        ensures
            final(state).wf(),
            change_tracked(
                old(state).unsaved(),
                final(state).unsaved(),
                old(state)@,
                final(state)@,
            ),
            lookup_tracked(old(state).unsaved(), final(state).unsaved(), self.paths[index as int]@),
            resolves_to(
                old(state)@,
                final(state)@,
                self.paths[index as int]@,
                DEFAULT_SESSION_ID@,
                target,
            ),
    {
        state.resolve_path(self.paths[index].as_str(), None)
    }

    /// How many bytes to read from a file of `actual_length` bytes when only
    /// its head is wanted: the limit, where there is one and the file is
    /// longer than it.
    pub open spec fn spec_head_length(&self, actual_length: usize) -> Option<usize> {
        match self.max_length {
            Some(max_length) => if max_length < actual_length {
                Some(max_length)
            } else {
                None
            },
            None => None,
        }
    }

    #[verifier::when_used_as_spec(spec_head_length)]
    pub fn head_length(&self, actual_length: usize) -> (head: Option<usize>)
        ensures
            head == self.spec_head_length(actual_length),
    {
        match self.max_length {
            Some(max_length) => if max_length < actual_length {
                Some(max_length)
            } else {
                None
            },
            None => None,
        }
    }
}

impl Read {
    /// The arguments `args` can be read as a request to read.
    pub open spec fn readable(args: JsonValue) -> bool {
        &&& required_texts(args, "paths"@) is Some
        &&& optional_count(args, "max_length"@) is Some
    }

    /// This request is what the arguments `args` say.
    pub open spec fn reads(&self, args: JsonValue) -> bool {
        &&& required_texts(args, "paths"@) == Some(texts_of(self.paths@))
        &&& optional_count(args, "max_length"@) == Some(self.max_length)
    }

    /// Reads the request from its arguments.
    pub fn decode(args: &Json) -> (tool: Option<Read>)
        ensures
            tool is Some == Read::readable(args@),
            tool is Some ==> tool->0.reads(args@),
    {
        let paths = match read_required_texts(args, "paths") {
            Some(paths) => paths,
            None => {
                return None;
            },
        };
        let max_length = match read_optional_count(args, "max_length") {
            Some(max_length) => max_length,
            None => {
                return None;
            },
        };
        Some(Read { paths, max_length })
    }
}

/// What resolving `paths` one after the other does and gives: each path is
/// resolved against the sessions as the path before it left them.
pub open spec fn resolved_all(
    before: Map<Seq<char>, SessionEntry<SharedContextData>>,
    after: Map<Seq<char>, SessionEntry<SharedContextData>>,
    paths: Seq<Seq<char>>,
    targets: Seq<Result<String, ResolveError>>,
) -> bool
    decreases paths.len(),
{
    if paths.len() == 0 {
        after == before && targets.len() == 0
    } else {
        &&& targets.len() == paths.len()
        &&& exists|between: Map<Seq<char>, SessionEntry<SharedContextData>>|
            {
                &&& resolved_all(before, between, paths.drop_last(), targets.drop_last())
                &&& #[trigger] resolves_to(
                    between,
                    after,
                    paths.last(),
                    DEFAULT_SESSION_ID@,
                    targets.last(),
                )
            }
    }
}

proof fn lemma_resolved_one_more(
    before: Map<Seq<char>, SessionEntry<SharedContextData>>,
    between: Map<Seq<char>, SessionEntry<SharedContextData>>,
    after: Map<Seq<char>, SessionEntry<SharedContextData>>,
    paths: Seq<Seq<char>>,
    targets: Seq<Result<String, ResolveError>>,
)
    requires
        paths.len() > 0,
        targets.len() == paths.len(),
        resolved_all(before, between, paths.drop_last(), targets.drop_last()),
        resolves_to(between, after, paths.last(), DEFAULT_SESSION_ID@, targets.last()),
    ensures
        resolved_all(before, after, paths, targets),
{
}

impl Read {
    /// Resolves every path to read, first to last. A path that cannot be
    /// resolved does not keep the others from being resolved.
    pub fn resolve_all(&self, state: &mut FsTools) -> (targets: Vec<Result<String, ResolveError>>)
        requires
            old(state).wf(),
        ensures
            final(state).wf(),
            change_tracked(
                old(state).unsaved(),
                final(state).unsaved(),
                old(state)@,
                final(state)@,
            ),
            lookups_tracked(old(state).unsaved(), final(state).unsaved(), texts_of(self.paths@)),
            resolved_all(old(state)@, final(state)@, texts_of(self.paths@), targets@),
    {
        let mut targets: Vec<Result<String, ResolveError>> = Vec::new();
        let mut i: usize = 0;
        proof {
            assert(texts_of(self.paths@).take(0).len() == 0);
        }
        while i < self.paths.len()
            invariant
                i <= self.paths.len(),
                state.wf(),
                change_tracked(old(state).unsaved(), state.unsaved(), old(state)@, state@),
                lookups_tracked(
                    old(state).unsaved(),
                    state.unsaved(),
                    texts_of(self.paths@).take(i as int),
                ),
                targets@.len() == i,
                resolved_all(old(state)@, state@, texts_of(self.paths@).take(i as int), targets@),
            decreases self.paths.len() - i,
        {
            let ghost between = state@;
            let ghost unsaved_between = state.unsaved();
            let ghost found = targets@;
            let target = self.prepare(state, i);
            targets.push(target);
            proof {
                let paths = texts_of(self.paths@).take(i + 1);
                assert(paths.drop_last() =~= texts_of(self.paths@).take(i as int));
                assert(targets@.drop_last() =~= found);
                assert(paths.last() == self.paths@[i as int]@);
                assert(resolved_all(old(state)@, between, paths.drop_last(), targets@.drop_last()));
                assert(targets@.last() == target);
                assert(paths.len() == i + 1);
                assert(resolves_to(between, state@, paths.last(), DEFAULT_SESSION_ID@, targets@.last()));
                lemma_resolved_one_more(old(state)@, between, state@, paths, targets@);
                lemma_lookup_one_more(
                    old(state).unsaved(),
                    unsaved_between,
                    state.unsaved(),
                    paths,
                );
            }
            i += 1;
        }
        proof {
            assert(texts_of(self.paths@).take(i as int) =~= texts_of(self.paths@));
        }
        targets
    }
}

/// A letter of the English alphabet or a digit.
pub open spec fn is_alphanumeric(c: char) -> bool {
    ('a' <= c && c <= 'z') || ('A' <= c && c <= 'Z') || ('0' <= c && c <= '9')
}

/// Draws a character with `fastrand::alphanumeric`, which picks one of the
/// letters a-z, A-Z and the digits 0-9 at random. Which one is not
/// foreseeable; the contract only says that it is one of them.
#[verifier::external_body]
fn random_alphanumeric() -> (c: char)
    ensures
        is_alphanumeric(c),
{
    fastrand::alphanumeric()
}

/// The text that bytes are read as, with a mark in place of every part that
/// is not valid UTF-8.
pub uninterp spec fn lossy_text(bytes: Seq<u8>) -> Seq<char>;

/// Reads bytes as text with `String::from_utf8_lossy`, which puts the
/// replacement character in place of what is not valid UTF-8. The contract
/// gives the text a name.
#[verifier::external_body]
fn text_of_bytes(bytes: &Vec<u8>) -> (text: String)
    ensures
        text@ == lossy_text(bytes@),
{
    String::from_utf8_lossy(bytes).into_owned()
}

/// A step of reading at which the file system can fail.
#[derive(Debug, Clone, Copy, PartialEq, Eq, Structural)]
pub enum ReadStage {
    Missing,
    Metadata,
    Open,
    ReadHead,
    ReadAll,
}

/// The line that opens or closes a block: the separator on both sides of the
/// label.
pub open spec fn marker(separator: Seq<char>, label: Seq<char>) -> Seq<char> {
    "=="@ + separator + seq![' '] + label + seq![' '] + separator + "=="@
}

/// The label of the block that holds a whole file.
pub open spec fn full_label(word: Seq<char>, path: Seq<char>, length: nat) -> Seq<char> {
    word + seq![' '] + path + ", LENGTH: "@ + decimal(length)
}

/// The label of the block that holds the head of a file.
pub open spec fn truncated_label(
    word: Seq<char>,
    path: Seq<char>,
    actual_length: nat,
    max_length: nat,
) -> Seq<char> {
    word + " TRUNCATED "@ + path + ", FULL LENGTH: "@ + decimal(actual_length)
        + ", TRUNCATED LENGTH: "@ + decimal(max_length)
}

/// The block that holds a whole file.
pub open spec fn full_block(separator: Seq<char>, path: Seq<char>, contents: Seq<char>) -> Seq<
    char,
> {
    let length = encode_utf8(contents).len();
    marker(separator, full_label("BEGIN"@, path, length)) + seq!['\n'] + contents + seq!['\n']
        + marker(separator, full_label("END"@, path, length)) + seq!['\n']
}

/// The block that holds the head of a file.
pub open spec fn truncated_block(
    separator: Seq<char>,
    path: Seq<char>,
    actual_length: nat,
    max_length: nat,
    content: Seq<char>,
) -> Seq<char> {
    marker(separator, truncated_label("BEGIN"@, path, actual_length, max_length)) + seq!['\n']
        + content + seq!['\n'] + marker(
        separator,
        truncated_label("END"@, path, actual_length, max_length),
    ) + seq!['\n']
}

/// The block that tells that a file could not be read.
pub open spec fn error_block(separator: Seq<char>, path: Seq<char>, error: Seq<char>) -> Seq<
    char,
> {
    marker(separator, "BEGIN ERROR "@ + path) + seq!['\n'] + error + seq!['\n'] + marker(
        separator,
        "END ERROR "@ + path,
    )
}

/// The error when the file system failed at `stage`.
pub open spec fn read_failure_text(stage: ReadStage, path: Seq<char>) -> Seq<char> {
    match stage {
        ReadStage::Missing => path + " does not exist"@,
        ReadStage::Metadata => "Unable to open metadata for "@ + path,
        ReadStage::Open => "Unable to open "@ + path,
        ReadStage::ReadHead => "Unable to read from "@ + path,
        ReadStage::ReadAll => "Unable to read "@ + path,
    }
}

fn push_marker(out: &mut Vec<char>, separator: &Vec<char>, label: &Vec<char>)
    ensures
        final(out)@ == old(out)@ + marker(separator@, label@),
{
    push_str(out, "==");
    push_chars(out, separator);
    out.push(' ');
    push_chars(out, label);
    out.push(' ');
    push_chars(out, separator);
    push_str(out, "==");
    assert(out@ =~= old(out)@ + marker(separator@, label@));
}

impl Read {
    /// A separator for the blocks of one answer: ten characters drawn at
    /// random, so that what a file holds is unlikely to be taken for the end
    /// of its block.
    pub fn fresh_separator() -> (separator: String)
        ensures
            separator@.len() == 10,
            forall|i: int| 0 <= i < 10 ==> is_alphanumeric(#[trigger] separator@[i]),
    {
        let mut chars: Vec<char> = Vec::new();
        let mut i: usize = 0;
        while i < 10
            invariant
                i <= 10,
                chars@.len() == i,
                forall|k: int| 0 <= k < i ==> is_alphanumeric(#[trigger] chars@[k]),
            decreases 10 - i,
        {
            chars.push(random_alphanumeric());
            i += 1;
        }
        string_of(&chars)
    }

    /// The block that holds the whole of the file at `path`.
    pub fn format_file(separator: &str, path: &str, contents: &str) -> (block: String)
        ensures
            block@ == full_block(separator@, path@, contents@),
    {
        let separator = chars_of(separator);
        let length: usize = contents.as_bytes().len();
        let mut begin: Vec<char> = Vec::new();
        push_str(&mut begin, "BEGIN");
        begin.push(' ');
        push_str(&mut begin, path);
        push_str(&mut begin, ", LENGTH: ");
        push_decimal(&mut begin, length as u64);
        let mut end: Vec<char> = Vec::new();
        push_str(&mut end, "END");
        end.push(' ');
        push_str(&mut end, path);
        push_str(&mut end, ", LENGTH: ");
        push_decimal(&mut end, length as u64);
        proof {
            assert(begin@ =~= full_label("BEGIN"@, path@, length as nat));
            assert(end@ =~= full_label("END"@, path@, length as nat));
        }
        let mut out: Vec<char> = Vec::new();
        push_marker(&mut out, &separator, &begin);
        out.push('\n');
        push_str(&mut out, contents);
        out.push('\n');
        push_marker(&mut out, &separator, &end);
        out.push('\n');
        proof {
            assert(out@ =~= full_block(separator@, path@, contents@));
        }
        string_of(&out)
    }

    /// The block that holds the first `max_length` bytes of the file at
    /// `path`, which holds `actual_length` bytes; `bytes` are those first
    /// bytes.
    pub fn read_head(
        separator: &str,
        path: &str,
        actual_length: usize,
        max_length: usize,
        bytes: &Vec<u8>,
    ) -> (block: String)
        ensures
            block@ == truncated_block(
                separator@,
                path@,
                actual_length as nat,
                max_length as nat,
                lossy_text(bytes@),
            ),
    {
        let content = text_of_bytes(bytes);
        Read::format_head(separator, path, actual_length, max_length, content.as_str())
    }

    /// The block that holds the head of the file at `path`, where `content`
    /// is the head as text.
    pub fn format_head(
        separator: &str,
        path: &str,
        actual_length: usize,
        max_length: usize,
        content: &str,
    ) -> (block: String)
        ensures
            block@ == truncated_block(
                separator@,
                path@,
                actual_length as nat,
                max_length as nat,
                content@,
            ),
    {
        let separator = chars_of(separator);
        let mut begin: Vec<char> = Vec::new();
        push_str(&mut begin, "BEGIN");
        push_str(&mut begin, " TRUNCATED ");
        push_str(&mut begin, path);
        push_str(&mut begin, ", FULL LENGTH: ");
        push_decimal(&mut begin, actual_length as u64);
        push_str(&mut begin, ", TRUNCATED LENGTH: ");
        push_decimal(&mut begin, max_length as u64);
        let mut end: Vec<char> = Vec::new();
        push_str(&mut end, "END");
        push_str(&mut end, " TRUNCATED ");
        push_str(&mut end, path);
        push_str(&mut end, ", FULL LENGTH: ");
        push_decimal(&mut end, actual_length as u64);
        push_str(&mut end, ", TRUNCATED LENGTH: ");
        push_decimal(&mut end, max_length as u64);
        proof {
            assert(begin@ =~= truncated_label(
                "BEGIN"@,
                path@,
                actual_length as nat,
                max_length as nat,
            ));
            assert(end@ =~= truncated_label("END"@, path@, actual_length as nat, max_length as nat));
        }
        let mut out: Vec<char> = Vec::new();
        push_marker(&mut out, &separator, &begin);
        out.push('\n');
        push_str(&mut out, content);
        out.push('\n');
        push_marker(&mut out, &separator, &end);
        out.push('\n');
        proof {
            assert(out@ =~= truncated_block(
                separator@,
                path@,
                actual_length as nat,
                max_length as nat,
                content@,
            ));
        }
        string_of(&out)
    }

    /// The block that tells that the file asked for as `path` could not be
    /// read.
    pub fn format_error(separator: &str, path: &str, error: &str) -> (block: String)
        ensures
            block@ == error_block(separator@, path@, error@),
    {
        let separator = chars_of(separator);
        let mut begin: Vec<char> = Vec::new();
        push_str(&mut begin, "BEGIN ERROR ");
        push_str(&mut begin, path);
        let mut end: Vec<char> = Vec::new();
        push_str(&mut end, "END ERROR ");
        push_str(&mut end, path);
        let mut out: Vec<char> = Vec::new();
        push_marker(&mut out, &separator, &begin);
        out.push('\n');
        push_str(&mut out, error);
        out.push('\n');
        push_marker(&mut out, &separator, &end);
        proof {
            assert(out@ =~= error_block(separator@, path@, error@));
        }
        string_of(&out)
    }

    /// The error when the file system failed at `stage`.
    pub fn failure(stage: ReadStage, path: &str) -> (text: String)
        ensures
            text@ == read_failure_text(stage, path@),
    {
        let mut out: Vec<char> = Vec::new();
        match stage {
            ReadStage::Missing => {
                push_str(&mut out, path);
                push_str(&mut out, " does not exist");
            },
            ReadStage::Metadata => {
                push_str(&mut out, "Unable to open metadata for ");
                push_str(&mut out, path);
            },
            ReadStage::Open => {
                push_str(&mut out, "Unable to open ");
                push_str(&mut out, path);
            },
            ReadStage::ReadHead => {
                push_str(&mut out, "Unable to read from ");
                push_str(&mut out, path);
            },
            ReadStage::ReadAll => {
                push_str(&mut out, "Unable to read ");
                push_str(&mut out, path);
            },
        }
        string_of(&out)
    }
}

} // verus!
