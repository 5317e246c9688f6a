//! The rule that keeps executable binary files out of commits.
//!
//! Whether a file is binary is known to the content store only. The hook
//! first says whether the store has to be asked at all, and then judges the
//! file by the store's answer.

use vstd::prelude::*;
use vstd::string::StringExecFns;

verus! {

/// The type of a committed file.
#[derive(Clone, Copy, Debug, PartialEq, Eq, Structural)]
pub enum FileType {
    Regular,
    Executable,
    Symlink,
    GitSubmodule,
}

/// The identifier of a file's content.
#[derive(Clone, Copy, Debug, PartialEq, Eq, Hash)]
pub struct ContentId(pub [u8; 32]);

/// A file as a commit adds or changes it.
#[derive(Clone, Copy, Debug, PartialEq, Eq)]
pub struct BasicFileChange {
    content_id: ContentId,
    file_type: FileType,
    size: u64,
}

impl BasicFileChange {
    pub closed spec fn spec_content_id(&self) -> ContentId {
        self.content_id
    }

    pub closed spec fn spec_file_type(&self) -> FileType {
        self.file_type
    }

    pub closed spec fn spec_size(&self) -> u64 {
        self.size
    }

    pub fn new(content_id: ContentId, file_type: FileType, size: u64) -> (c: BasicFileChange)
        ensures
            c.spec_content_id() == content_id,
            c.spec_file_type() == file_type,
            c.spec_size() == size,
    {
        BasicFileChange { content_id, file_type, size }
    }

    #[verifier::when_used_as_spec(spec_content_id)]
    pub fn content_id(&self) -> (id: ContentId)
        ensures
            id == self.spec_content_id(),
    {
        self.content_id
    }

    #[verifier::when_used_as_spec(spec_file_type)]
    pub fn file_type(&self) -> (t: FileType)
        ensures
            t == self.spec_file_type(),
    {
        self.file_type
    }

    #[verifier::when_used_as_spec(spec_size)]
    pub fn size(&self) -> (n: u64)
        ensures
            n == self.spec_size(),
    {
        self.size
    }
}

/// Why a hook rejects a file.
#[derive(Clone, Debug, PartialEq, Eq)]
pub struct HookRejectionInfo {
    pub description: String,
    pub long_description: String,
}

pub struct HookRejectionView {
    pub description: Seq<char>,
    pub long_description: Seq<char>,
}

impl View for HookRejectionInfo {
    type V = HookRejectionView;

    open spec fn view(&self) -> HookRejectionView {
        HookRejectionView {
            description: self.description@,
            long_description: self.long_description@,
        }
    }
}

impl HookRejectionInfo {
    pub fn new_long(description: &str, long_description: String) -> (info: HookRejectionInfo)
        ensures
            info@ == (HookRejectionView {
                description: description@,
                long_description: long_description@,
            }),
    {
        HookRejectionInfo { description: String::from_str(description), long_description }
    }
}

/// The verdict of a hook on one file.
#[derive(Clone, Debug, PartialEq, Eq)]
pub enum HookExecution {
    Accepted,
    Rejected(HookRejectionInfo),
}

pub enum HookExecutionView {
    Accepted,
    Rejected(HookRejectionView),
}

impl View for HookExecution {
    type V = HookExecutionView;

    open spec fn view(&self) -> HookExecutionView {
        match self {
            HookExecution::Accepted => HookExecutionView::Accepted,
            HookExecution::Rejected(info) => HookExecutionView::Rejected(info@),
        }
    }
}

/// What the hook does with a file before the store has been asked.
#[derive(Clone, Copy, Debug, PartialEq, Eq)]
pub enum HookStep {
    /// The file passes without a look at its content.
    Accepted,
    /// Ask the store whether the content with this identifier is binary,
    /// and let the hook conclude.
    Inspect(ContentId),
}

/// The hook's settings.
#[derive(Clone, Debug)]
pub struct NoExecutableBinariesConfig {
    /// The message for a rejected file. Every `${filename}` in it stands for
    /// the file's path.
    illegal_executable_binary_message: String,
}

impl View for NoExecutableBinariesConfig {
    type V = Seq<char>;

    closed spec fn view(&self) -> Seq<char> {
        self.illegal_executable_binary_message@
    }
}

impl NoExecutableBinariesConfig {
    pub fn new(illegal_executable_binary_message: String) -> (c: NoExecutableBinariesConfig)
        ensures
            c@ == illegal_executable_binary_message@,
    {
        NoExecutableBinariesConfig { illegal_executable_binary_message }
    }

    pub fn illegal_executable_binary_message(&self) -> (m: &String)
        ensures
            m@ == self@,
    {
        &self.illegal_executable_binary_message
    }
}

/// `text` with every occurrence of `pattern` replaced by `with`.
/// Occurrences are found from the left and do not overlap. An empty pattern
/// replaces nothing.
pub open spec fn replaced(text: Seq<char>, pattern: Seq<char>, with: Seq<char>) -> Seq<char>
    decreases text.len(),
{
    if pattern.len() == 0 || text.len() < pattern.len() {
        text
    } else if text.subrange(0, pattern.len() as int) == pattern {
        with + replaced(text.subrange(pattern.len() as int, text.len() as int), pattern, with)
    } else {
        seq![text[0]] + replaced(text.subrange(1, text.len() as int), pattern, with)
    }
}

/// `str::replace` with a string as the pattern: a new string in which all
/// matches of the pattern, taken from the left and not overlapping, are
/// replaced.
#[verifier::external_body]
fn replace_all(text: &str, pattern: &str, with: &str) -> (r: String)
    requires
        pattern@.len() > 0,
    ensures
        r@ == replaced(text@, pattern@, with@),
{
    text.replace(pattern, with)
}

/// The word that stands for the file's path in the message.
pub open spec fn filename_placeholder() -> Seq<char> {
    "${filename}"@
}

/// The short reason given with every rejection.
pub open spec fn rejection_description() -> Seq<char> {
    "Illegal executable file"@
}

/// Whether the content has to be looked at: only a file that is committed
/// and executable can be rejected.
pub open spec fn first_step(change: Option<BasicFileChange>) -> HookStep {
    match change {
        Some(c) => if c.spec_file_type() == FileType::Executable {
            HookStep::Inspect(c.spec_content_id())
        } else {
            HookStep::Accepted
        },
        None => HookStep::Accepted,
    }
}

/// The verdict on an executable file once it is known whether it is binary.
pub open spec fn verdict(message: Seq<char>, is_binary: bool, path: Seq<char>) -> HookExecutionView {
    if is_binary {
        HookExecutionView::Rejected(
            HookRejectionView {
                description: rejection_description(),
                long_description: replaced(message, filename_placeholder(), path),
            },
        )
    } else {
        HookExecutionView::Accepted
    }
}

/// The verdict on a file, from all that bears on it.
pub open spec fn hook_outcome(
    message: Seq<char>,
    change: Option<BasicFileChange>,
    is_binary: bool,
    path: Seq<char>,
) -> HookExecutionView {
    match first_step(change) {
        HookStep::Accepted => HookExecutionView::Accepted,
        HookStep::Inspect(_) => verdict(message, is_binary, path),
    }
}

/// A file is rejected exactly when it is committed, executable and binary.
pub proof fn lemma_rejects_executable_binaries_only(
    message: Seq<char>,
    change: Option<BasicFileChange>,
    is_binary: bool,
    path: Seq<char>,
)
    ensures
        hook_outcome(message, change, is_binary, path) is Rejected <==> (change matches Some(c)
            && c.spec_file_type() == FileType::Executable && is_binary),
{
}

/// A message without the placeholder is given as it is.
pub proof fn lemma_replaced_without_pattern(text: Seq<char>, pattern: Seq<char>, with: Seq<char>)
    requires
        forall|i: int|
            0 <= i && i + pattern.len() <= text.len() ==> #[trigger] text.subrange(
                i,
                i + pattern.len(),
            ) != pattern,
    ensures
        replaced(text, pattern, with) == text,
    decreases text.len(),
{
    if pattern.len() == 0 || text.len() < pattern.len() {
    } else {
        assert(text.subrange(0int, 0int + pattern.len()) != pattern);
        let rest = text.subrange(1, text.len() as int);
        assert forall|i: int| 0 <= i && i + pattern.len() <= rest.len() implies #[trigger] rest.subrange(
            i,
            i + pattern.len(),
        ) != pattern by {
            assert(rest.subrange(i, i + pattern.len()) =~= text.subrange(
                i + 1,
                i + 1 + pattern.len(),
            ));
        }
        lemma_replaced_without_pattern(rest, pattern, with);
        assert(seq![text[0]] + rest =~= text);
    }
}

/// Blocks commits that carry executable binary files.
#[derive(Clone, Debug)]
pub struct NoExecutableBinariesHook {
    config: NoExecutableBinariesConfig,
}

impl View for NoExecutableBinariesHook {
    type V = Seq<char>;

    /// The hook's message.
    closed spec fn view(&self) -> Seq<char> {
        self.config@
    }
}

impl NoExecutableBinariesHook {
    pub fn with_config(config: NoExecutableBinariesConfig) -> (hook: NoExecutableBinariesHook)
        ensures
            hook@ == config@,
    {
        Self { config }
    }

    /// Looks at the change itself. A file that is not committed, or not
    /// executable, passes right away.
    pub fn run(&self, change: Option<&BasicFileChange>) -> (step: HookStep)
        ensures
            step == first_step(
                match change {
                    Some(c) => Some(*c),
                    None => None,
                },
            ),
    {
        match change {
            Some(basic_fc) => {
                match basic_fc.file_type() {
                    FileType::Executable => HookStep::Inspect(basic_fc.content_id()),
                    _ => HookStep::Accepted,
                }
            },
            None => HookStep::Accepted,
        }
    }

    /// Judges an executable file at `path` by what the store says of its
    /// content.
    pub fn conclude(&self, is_binary: bool, path: &str) -> (execution: HookExecution)
        ensures
            execution@ == verdict(self@, is_binary, path@),
    {
        if is_binary {
            proof {
                reveal_strlit("${filename}");
            }
            HookExecution::Rejected(
                HookRejectionInfo::new_long(
                    "Illegal executable file",
                    replace_all(
                        self.config.illegal_executable_binary_message.as_str(),
                        "${filename}",
                        path,
                    ),
                ),
            )
        } else {
            HookExecution::Accepted
        }
    }
}

} // verus!
