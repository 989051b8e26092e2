use vstd::prelude::*;

use crate::error::MadmError;

verus! {

/// A Git process for the host to run.
///
/// `args` is the whole argument list after the program name `git`; the host
/// removes `GIT_DIR` and `GIT_WORK_TREE` from the environment. A `captured`
/// run gets a closed standard input and `LC_ALL=C`, and its output comes
/// back; otherwise the process shares the terminal.
pub struct GitCall {
    pub args: Vec<Vec<u8>>,
    pub captured: bool,
}

/// How a Git process ended: its exit code (none after a signal) and, for a
/// captured run, what it wrote.
pub struct GitOutcome {
    pub code: Option<i32>,
    pub stdout: Vec<u8>,
    pub stderr: Vec<u8>,
}

/// What went wrong with an operating-system request.
#[derive(PartialEq, Eq, Structural, Debug, Clone, Copy)]
pub enum FailureKind {
    NotFound,
    AlreadyExists,
    Other,
}

/// An operating-system error: its kind and its text.
pub struct IoFailure {
    pub kind: FailureKind,
    pub detail: String,
}

/// What `symlink_metadata` says of a path.
#[derive(PartialEq, Eq, Structural, Debug, Clone, Copy)]
pub enum PathKind {
    Directory,
    NotDirectory,
}

/// What the library asks its host to do next.
pub enum Request {
    /// Run Git; answered with `Reply::Ran` or `Reply::Failed`.
    RunGit(GitCall),
    /// Ask the user; answered with `Reply::Answer` or `Reply::Refused`.
    Ask(String),
    /// Write text to standard output as it is; answered with `Reply::Ack`.
    Say(String),
    /// Write text and a line break to standard error; answered with `Reply::Ack`.
    Complain(String),
    /// `symlink_metadata` of a path; answered with `Reply::Kind` or `Reply::Failed`.
    Inspect(Vec<u8>),
    /// Whether a path exists (following links); answered with `Reply::Flag`.
    Exists(Vec<u8>),
    /// Whether a path is a directory (following links); answered with `Reply::Flag`.
    IsDir(Vec<u8>),
    /// Create one directory; answered with `Reply::Ack` or `Reply::Failed`.
    MakeDir(Vec<u8>),
    /// Create a directory and its parents; answered with `Reply::Ack` or `Reply::Failed`.
    MakeDirAll(Vec<u8>),
    /// Remove an empty directory; answered with `Reply::Ack` or `Reply::Failed`.
    RemoveDir(Vec<u8>),
    /// Remove a directory and everything in it; answered with `Reply::Ack` or `Reply::Failed`.
    RemoveTree(Vec<u8>),
    /// Remove a file; answered with `Reply::Ack` or `Reply::Failed`.
    RemoveFile(Vec<u8>),
    /// Read a whole file; answered with `Reply::Content` or `Reply::Failed`.
    Read(Vec<u8>),
    /// Append bytes to a file, creating it if needed; answered with `Reply::Ack` or `Reply::Failed`.
    Append(Vec<u8>, Vec<u8>),
    /// Create a fresh temporary directory whose name starts with the prefix;
    /// answered with `Reply::Content` (its path) or `Reply::Refused`.
    MakeTemp(String),
    /// Remove the temporary directory made last; answered with `Reply::Ack` or `Reply::Refused`.
    DropTemp,
}

/// What the host answers.
pub enum Reply {
    /// The first call, before any request.
    Start,
    /// The request was carried out.
    Ack,
    /// A Git process ended.
    Ran(GitOutcome),
    /// The user's answer.
    Answer(String),
    /// The kind of an inspected path.
    Kind(PathKind),
    /// A yes/no answer.
    Flag(bool),
    /// Bytes: a file's content or a temporary directory's path.
    Content(Vec<u8>),
    /// The operating system refused the request.
    Failed(IoFailure),
    /// The file was opened for appending, but writing to it failed.
    WriteFailed(IoFailure),
    /// The request failed with an error already worded for the user.
    Refused(MadmError),
}

/// A Git process by its arguments and whether its output is captured.
pub struct GitCallView {
    pub args: Seq<Seq<u8>>,
    pub captured: bool,
}

impl View for GitCall {
    type V = GitCallView;

    open spec fn view(&self) -> GitCallView {
        GitCallView { args: self.args.deep_view(), captured: self.captured }
    }
}

/// An error by its message and exit code.
pub type ErrorView = (Seq<char>, i32);

pub open spec fn error_view(e: MadmError) -> ErrorView {
    (e.text(), e.exit_code())
}

/// A request, with texts and paths as sequences.
pub enum RequestView {
    RunGit(GitCallView),
    Ask(Seq<char>),
    Say(Seq<char>),
    Complain(Seq<char>),
    Inspect(Seq<u8>),
    Exists(Seq<u8>),
    IsDir(Seq<u8>),
    MakeDir(Seq<u8>),
    MakeDirAll(Seq<u8>),
    RemoveDir(Seq<u8>),
    RemoveTree(Seq<u8>),
    RemoveFile(Seq<u8>),
    Read(Seq<u8>),
    Append(Seq<u8>, Seq<u8>),
    MakeTemp(Seq<char>),
    DropTemp,
}

impl View for Request {
    type V = RequestView;

    open spec fn view(&self) -> RequestView {
        match self {
            Request::RunGit(c) => RequestView::RunGit(c@),
            Request::Ask(t) => RequestView::Ask(t@),
            Request::Say(t) => RequestView::Say(t@),
            Request::Complain(t) => RequestView::Complain(t@),
            Request::Inspect(p) => RequestView::Inspect(p@),
            Request::Exists(p) => RequestView::Exists(p@),
            Request::IsDir(p) => RequestView::IsDir(p@),
            Request::MakeDir(p) => RequestView::MakeDir(p@),
            Request::MakeDirAll(p) => RequestView::MakeDirAll(p@),
            Request::RemoveDir(p) => RequestView::RemoveDir(p@),
            Request::RemoveTree(p) => RequestView::RemoveTree(p@),
            Request::RemoveFile(p) => RequestView::RemoveFile(p@),
            Request::Read(p) => RequestView::Read(p@),
            Request::Append(p, b) => RequestView::Append(p@, b@),
            Request::MakeTemp(t) => RequestView::MakeTemp(t@),
            Request::DropTemp => RequestView::DropTemp,
        }
    }
}

/// How a Git process ended, with its output as sequences.
pub struct OutcomeView {
    pub code: Option<i32>,
    pub stdout: Seq<u8>,
    pub stderr: Seq<u8>,
}

impl View for GitOutcome {
    type V = OutcomeView;

    open spec fn view(&self) -> OutcomeView {
        OutcomeView { code: self.code, stdout: self.stdout@, stderr: self.stderr@ }
    }
}

/// A reply, with texts and bytes as sequences.
pub enum ReplyView {
    Start,
    Ack,
    Ran(OutcomeView),
    Answer(Seq<char>),
    Kind(PathKind),
    Flag(bool),
    Content(Seq<u8>),
    Failed(FailureKind, Seq<char>),
    WriteFailed(FailureKind, Seq<char>),
    Refused(ErrorView),
}

impl View for Reply {
    type V = ReplyView;

    open spec fn view(&self) -> ReplyView {
        match self {
            Reply::Start => ReplyView::Start,
            Reply::Ack => ReplyView::Ack,
            Reply::Ran(o) => ReplyView::Ran(o@),
            Reply::Answer(t) => ReplyView::Answer(t@),
            Reply::Kind(k) => ReplyView::Kind(*k),
            Reply::Flag(b) => ReplyView::Flag(*b),
            Reply::Content(b) => ReplyView::Content(b@),
            Reply::Failed(f) => ReplyView::Failed(f.kind, f.detail@),
            Reply::WriteFailed(f) => ReplyView::WriteFailed(f.kind, f.detail@),
            Reply::Refused(e) => ReplyView::Refused(error_view(*e)),
        }
    }
}

/// One step of a piece of work: a request to the host, or the result.
pub enum Progress<T> {
    Ask(Request),
    Done(Result<T, MadmError>),
}

pub enum ProgressView<V> {
    Ask(RequestView),
    Done(Result<V, ErrorView>),
}

impl<T: DeepView> View for Progress<T> {
    type V = ProgressView<T::V>;

    open spec fn view(&self) -> ProgressView<T::V> {
        match self {
            Progress::Ask(r) => ProgressView::Ask(r@),
            Progress::Done(Ok(v)) => ProgressView::Done(Ok(v.deep_view())),
            Progress::Done(Err(e)) => ProgressView::Done(Err(error_view(*e))),
        }
    }
}

} // verus!
