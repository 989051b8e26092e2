use vstd::prelude::*;

use crate::cli::word;
use crate::commands::steps::{ask_git, copy_bytes, git_request, word_list, words_of};
use crate::context::{
    join, join_path, repository_path, REPOSITORY_EXCLUDE_PATTERN, REPOSITORY_RELATIVE_GIT_PATH,
    Context,
};
use crate::error::MadmError;
use crate::exclude::{bytes_of_spec, exclusion_addition, exclusion_update, EXCLUDE_COMMENT};
use crate::git::{
    output_error, output_error_view, process_error, process_error_view, push_arg, push_word,
    status_error, status_error_view, succeeded,
};
use crate::host::{
    error_view, ErrorView, FailureKind, GitOutcome, OutcomeView, PathKind, Progress, ProgressView,
    Reply, ReplyView, Request, RequestView,
};
use crate::path::{unexpected, unexpected_reply};
use crate::text::{bytes_of, lossy, lossy_text};

verus! {

/// `<repository>/info` and `<repository>/info/exclude`.
pub open spec fn info_dir(home: Seq<u8>) -> Seq<u8> {
    join(repository_path(home), word("info"@))
}

pub open spec fn exclude_file(home: Seq<u8>) -> Seq<u8> {
    join(info_dir(home), word("exclude"@))
}

pub open spec fn io_error(action: Seq<char>, detail: Seq<char>) -> ErrorView {
    (action + ": "@ + detail, 1)
}

/// Where keeping the repository out of its own index stands.
#[derive(Copy, Clone, Debug, PartialEq, Eq, Structural)]
pub enum ExclusionPhase {
    Begin,
    Reading,
    Creating,
    Appending,
    Over,
}

/// `ensure_repository_excluded`: adds the anchored repository pattern to
/// `info/exclude` unless a line already is that pattern.
pub struct Exclusion {
    context: Context,
    phase: ExclusionPhase,
    addition: Vec<u8>,
    existing: Vec<u8>,
}

pub struct ExclusionView {
    pub home: Seq<u8>,
    pub phase: ExclusionPhase,
    pub addition: Seq<u8>,
    /// The content the exclude file had when it was read.
    pub existing: Seq<u8>,
}

/// What must be appended to exclude content: the comment and pattern lines
/// of this repository.
pub open spec fn repository_addition(content: Seq<u8>) -> Option<Seq<u8>> {
    exclusion_addition(content, bytes_of_spec(EXCLUDE_COMMENT@), bytes_of_spec(REPOSITORY_EXCLUDE_PATTERN@))
}

impl Exclusion {
    pub closed spec fn view(&self) -> ExclusionView {
        ExclusionView {
            home: self.context.home_path(),
            phase: self.phase,
            addition: self.addition@,
            existing: self.existing@,
        }
    }

    pub open spec fn initial(home: Seq<u8>) -> ExclusionView {
        ExclusionView { home, phase: ExclusionPhase::Begin, addition: Seq::empty(), existing: Seq::empty() }
    }

    /// Decides on the exclude file's content: done when the pattern is
    /// there, otherwise the info directory is created and the lines appended.
    pub open spec fn decide(s: ExclusionView, content: Seq<u8>) -> (ExclusionView, ProgressView<()>) {
        match repository_addition(content) {
            None => (
                ExclusionView { phase: ExclusionPhase::Over, existing: content, ..s },
                ProgressView::Done(Ok(())),
            ),
            Some(a) => (
                ExclusionView { phase: ExclusionPhase::Creating, addition: a, existing: content, ..s },
                ProgressView::Ask(RequestView::MakeDirAll(info_dir(s.home))),
            ),
        }
    }

    pub open spec fn next(s: ExclusionView, r: ReplyView) -> (ExclusionView, ProgressView<()>) {
        let over = ExclusionView { phase: ExclusionPhase::Over, ..s };
        match s.phase {
            ExclusionPhase::Begin => (
                ExclusionView { phase: ExclusionPhase::Reading, ..s },
                ProgressView::Ask(RequestView::Read(exclude_file(s.home))),
            ),
            ExclusionPhase::Reading => match r {
                ReplyView::Content(c) => Self::decide(s, c),
                ReplyView::Failed(k, d) => if k == FailureKind::NotFound {
                    Self::decide(s, Seq::empty())
                } else {
                    (over, ProgressView::Done(Err(io_error("read repository exclude file"@, d))))
                },
                _ => (over, ProgressView::Done(Err(unexpected_reply()))),
            },
            ExclusionPhase::Creating => match r {
                ReplyView::Ack => (
                    ExclusionView { phase: ExclusionPhase::Appending, ..s },
                    ProgressView::Ask(RequestView::Append(exclude_file(s.home), s.addition)),
                ),
                ReplyView::Failed(k, d) => (
                    over,
                    ProgressView::Done(Err(io_error("create repository info directory"@, d))),
                ),
                _ => (over, ProgressView::Done(Err(unexpected_reply()))),
            },
            ExclusionPhase::Appending => match r {
                ReplyView::Ack => (over, ProgressView::Done(Ok(()))),
                ReplyView::Failed(k, d) => (
                    over,
                    ProgressView::Done(Err(io_error("open repository exclude file"@, d))),
                ),
                ReplyView::WriteFailed(k, d) => (
                    over,
                    ProgressView::Done(Err(io_error("update repository exclude file"@, d))),
                ),
                _ => (over, ProgressView::Done(Err(unexpected_reply()))),
            },
            ExclusionPhase::Over => (over, ProgressView::Done(Err(unexpected_reply()))),
        }
    }

    pub fn new(context: &Context) -> (res: Exclusion)
        ensures
            res.view() == Self::initial(context.home_path()),
    {
        let res = Exclusion {
            context: context.copy(),
            phase: ExclusionPhase::Begin,
            addition: Vec::new(),
            existing: Vec::new(),
        };
        assert(res.view().addition =~= Seq::<u8>::empty());
        assert(res.view().existing =~= Seq::<u8>::empty());
        res
    }

    fn info_path(&self) -> (res: Vec<u8>)
        ensures
            res@ == info_dir(self.view().home),
    {
        let info = bytes_of("info");
        join_path(self.context.repository(), info.as_slice())
    }

    fn file_path(&self) -> (res: Vec<u8>)
        ensures
            res@ == exclude_file(self.view().home),
    {
        let info = self.info_path();
        let name = bytes_of("exclude");
        join_path(info.as_slice(), name.as_slice())
    }

    fn decide_exec(&mut self, content: &[u8]) -> (res: Progress<()>)
        ensures
            (final(self).view(), res@) == Self::decide(old(self).view(), content@),
    {
        self.existing = copy_bytes(content);
        match exclusion_update(content, EXCLUDE_COMMENT, REPOSITORY_EXCLUDE_PATTERN) {
            None => {
                self.phase = ExclusionPhase::Over;
                Progress::Done(Ok(()))
            },
            Some(a) => {
                self.phase = ExclusionPhase::Creating;
                self.addition = a;
                Progress::Ask(Request::MakeDirAll(self.info_path()))
            },
        }
    }

    pub fn step(&mut self, reply: Reply) -> (res: Progress<()>)
        ensures
            (final(self).view(), res@) == Self::next(old(self).view(), reply@),
    {
        match self.phase {
            ExclusionPhase::Begin => {
                self.phase = ExclusionPhase::Reading;
                Progress::Ask(Request::Read(self.file_path()))
            },
            ExclusionPhase::Reading => match reply {
                Reply::Content(c) => self.decide_exec(c.as_slice()),
                Reply::Failed(f) => {
                    if f.kind == FailureKind::NotFound {
                        let empty: Vec<u8> = Vec::new();
                        assert(empty@ =~= Seq::<u8>::empty());
                        self.decide_exec(empty.as_slice())
                    } else {
                        self.phase = ExclusionPhase::Over;
                        Progress::Done(Err(MadmError::io("read repository exclude file", f.detail.as_str())))
                    }
                },
                _ => {
                    self.phase = ExclusionPhase::Over;
                    Progress::Done(Err(unexpected()))
                },
            },
            ExclusionPhase::Creating => match reply {
                Reply::Ack => {
                    self.phase = ExclusionPhase::Appending;
                    Progress::Ask(Request::Append(self.file_path(), copy_bytes(self.addition.as_slice())))
                },
                Reply::Failed(f) => {
                    self.phase = ExclusionPhase::Over;
                    Progress::Done(Err(MadmError::io("create repository info directory", f.detail.as_str())))
                },
                _ => {
                    self.phase = ExclusionPhase::Over;
                    Progress::Done(Err(unexpected()))
                },
            },
            ExclusionPhase::Appending => {
                self.phase = ExclusionPhase::Over;
                match reply {
                    Reply::Ack => Progress::Done(Ok(())),
                    Reply::Failed(f) => Progress::Done(Err(MadmError::io("open repository exclude file", f.detail.as_str()))),
                    Reply::WriteFailed(f) => Progress::Done(
                        Err(MadmError::io("update repository exclude file", f.detail.as_str())),
                    ),
                    _ => Progress::Done(Err(unexpected())),
                }
            },
            ExclusionPhase::Over => Progress::Done(Err(unexpected())),
        }
    }
}

/// `git ls-files -z -- .local/share/madm/repo.git`: tracked files below the
/// repository's own path.
pub open spec fn reserved_args() -> Seq<Seq<u8>> {
    words_of(seq!["ls-files", "-z", "--", REPOSITORY_RELATIVE_GIT_PATH])
}

pub open spec fn reserved_message() -> Seq<char> {
    "the repository tracks files below the reserved path '.local/share/madm/repo.git'; remove them from the Git index before using madm"@
}

/// What the reserved-path listing says: fine when it is empty.
pub open spec fn reserved_result(o: OutcomeView) -> Result<(), ErrorView> {
    if !succeeded(o) {
        Err(output_error_view("check reserved repository path"@, o))
    } else if o.stdout.len() == 0 {
        Ok(())
    } else {
        Err((reserved_message(), 1))
    }
}

pub fn reserved_request(context: &Context) -> (res: Request)
    ensures
        res@ == RequestView::RunGit(crate::git::git_call(context.home_path(), reserved_args(), true)),
{
    let args = word_list(&["ls-files", "-z", "--", REPOSITORY_RELATIVE_GIT_PATH]);
    git_request(context, args, true)
}

/// `ensure_reserved_path_is_untracked` on the listing's outcome.
pub fn reserved_check(o: &GitOutcome) -> (res: Result<(), MadmError>)
    ensures
        match reserved_result(o@) {
            Ok(()) => res is Ok,
            Err(e) => res matches Err(r) && error_view(r) == e,
        },
{
    if !crate::git::is_success(o) {
        return Err(output_error("check reserved repository path", o));
    }
    if o.stdout.len() == 0 {
        Ok(())
    } else {
        Err(MadmError::new(String::from_str(
            "the repository tracks files below the reserved path '.local/share/madm/repo.git'; remove them from the Git index before using madm",
        )))
    }
}

/// `git ls-tree -r --name-only -z <revision> -- .local/share/madm/repo.git`.
pub open spec fn tree_reserved_args(revision: Seq<char>) -> Seq<Seq<u8>> {
    words_of(seq!["ls-tree", "-r", "--name-only", "-z"]).push(word(revision)).push(
        word("--"@),
    ).push(word(REPOSITORY_RELATIVE_GIT_PATH@))
}

pub open spec fn tree_reserved_result(revision: Seq<char>, o: OutcomeView) -> Result<(), ErrorView> {
    if !succeeded(o) {
        Err(output_error_view("check reserved repository path in incoming tree"@, o))
    } else if o.stdout.len() == 0 {
        Ok(())
    } else {
        Err(
            (
                "refusing to use Git tree "@ + revision
                    + " because it tracks files below the reserved path '"@
                    + REPOSITORY_RELATIVE_GIT_PATH@ + "'"@,
                1,
            ),
        )
    }
}

pub fn tree_reserved_request(context: &Context, revision: &str) -> (res: Request)
    ensures
        res@ == RequestView::RunGit(
            crate::git::git_call(context.home_path(), tree_reserved_args(revision@), true),
        ),
{
    let mut args = word_list(&["ls-tree", "-r", "--name-only", "-z"]);
    push_word(&mut args, revision);
    push_word(&mut args, "--");
    push_word(&mut args, REPOSITORY_RELATIVE_GIT_PATH);
    git_request(context, args, true)
}

/// `ensure_revision_avoids_reserved_path` on the listing's outcome.
pub fn tree_reserved_check(revision: &str, o: &GitOutcome) -> (res: Result<(), MadmError>)
    ensures
        match tree_reserved_result(revision@, o@) {
            Ok(()) => res is Ok,
            Err(e) => res matches Err(r) && error_view(r) == e,
        },
{
    if !crate::git::is_success(o) {
        return Err(output_error("check reserved repository path in incoming tree", o));
    }
    if o.stdout.len() == 0 {
        Ok(())
    } else {
        let mut message = String::from_str("refusing to use Git tree ");
        message.append(revision);
        message.append(" because it tracks files below the reserved path '");
        message.append(REPOSITORY_RELATIVE_GIT_PATH);
        message.append("'");
        Err(MadmError::new(message))
    }
}

/// Where preparing the repository for a command stands.
#[derive(Copy, Clone, Debug, PartialEq, Eq, Structural)]
pub enum PreparePhase {
    Begin,
    Inspecting,
    Validating,
    Excluding,
    Reserved,
    Over,
}

/// `prepare_repository`: the repository must be a directory Git accepts;
/// it is made to exclude itself, and it must not track its own path.
pub struct Prepare {
    context: Context,
    phase: PreparePhase,
    exclusion: Exclusion,
}

pub struct PrepareView {
    pub home: Seq<u8>,
    pub phase: PreparePhase,
    pub exclusion: ExclusionView,
}

pub open spec fn not_directory_message(home: Seq<u8>) -> Seq<char> {
    "the madm repository path is not a directory: "@ + lossy_text(repository_path(home))
}

pub open spec fn no_repository_message(home: Seq<u8>) -> Seq<char> {
    "no madm repository found at "@ + lossy_text(repository_path(home))
        + "; run 'madm init' or 'madm clone <url>'"@
}

impl Prepare {
    pub closed spec fn view(&self) -> PrepareView {
        PrepareView {
            home: self.context.home_path(),
            phase: self.phase,
            exclusion: self.exclusion.view(),
        }
    }

    pub open spec fn initial(home: Seq<u8>) -> PrepareView {
        PrepareView { home, phase: PreparePhase::Begin, exclusion: Exclusion::initial(home) }
    }

    /// Hands a reply to the exclusion and checks the reserved path after it.
    pub open spec fn excluding(s: PrepareView, r: ReplyView) -> (PrepareView, ProgressView<Seq<u8>>) {
        let (ev, p) = Exclusion::next(s.exclusion, r);
        let t = PrepareView { exclusion: ev, ..s };
        match p {
            ProgressView::Ask(q) => (PrepareView { phase: PreparePhase::Excluding, ..t }, ProgressView::Ask(q)),
            ProgressView::Done(Err(e)) => (PrepareView { phase: PreparePhase::Over, ..t }, ProgressView::Done(Err(e))),
            ProgressView::Done(Ok(_)) => (
                PrepareView { phase: PreparePhase::Reserved, ..t },
                ask_git(s.home, reserved_args(), true),
            ),
        }
    }

    /// One step of the preparation; its result is the context's home.
    pub open spec fn next(s: PrepareView, r: ReplyView) -> (PrepareView, ProgressView<Seq<u8>>) {
        let over = PrepareView { phase: PreparePhase::Over, ..s };
        match s.phase {
            PreparePhase::Begin => (
                PrepareView { phase: PreparePhase::Inspecting, ..s },
                ProgressView::Ask(RequestView::Inspect(repository_path(s.home))),
            ),
            PreparePhase::Inspecting => match r {
                ReplyView::Kind(PathKind::Directory) => (
                    PrepareView { phase: PreparePhase::Validating, ..s },
                    ask_git(s.home, words_of(seq!["rev-parse", "--git-dir"]), true),
                ),
                ReplyView::Kind(PathKind::NotDirectory) => (
                    over,
                    ProgressView::Done(Err((not_directory_message(s.home), 1))),
                ),
                ReplyView::Failed(k, d) => if k == FailureKind::NotFound {
                    (over, ProgressView::Done(Err((no_repository_message(s.home), 1))))
                } else {
                    (over, ProgressView::Done(Err(io_error("inspect madm repository path"@, d))))
                },
                _ => (over, ProgressView::Done(Err(unexpected_reply()))),
            },
            PreparePhase::Validating => match r {
                ReplyView::Failed(k, d) => (over, ProgressView::Done(Err(process_error_view(k, d)))),
                ReplyView::Ran(o) => if !succeeded(o) {
                    (over, ProgressView::Done(Err(output_error_view("validate repository"@, o))))
                } else {
                    Self::excluding(
                        PrepareView { exclusion: Exclusion::initial(s.home), ..s },
                        ReplyView::Start,
                    )
                },
                _ => (over, ProgressView::Done(Err(unexpected_reply()))),
            },
            PreparePhase::Excluding => Self::excluding(s, r),
            PreparePhase::Reserved => match r {
                ReplyView::Failed(k, d) => (over, ProgressView::Done(Err(process_error_view(k, d)))),
                ReplyView::Ran(o) => match reserved_result(o) {
                    Err(e) => (over, ProgressView::Done(Err(e))),
                    Ok(_) => (over, ProgressView::Done(Ok(s.home))),
                },
                _ => (over, ProgressView::Done(Err(unexpected_reply()))),
            },
            PreparePhase::Over => (over, ProgressView::Done(Err(unexpected_reply()))),
        }
    }

    pub fn new(context: &Context) -> (res: Prepare)
        ensures
            res.view() == Self::initial(context.home_path()),
    {
        Prepare { context: context.copy(), phase: PreparePhase::Begin, exclusion: Exclusion::new(context) }
    }

    fn excluding_exec(&mut self, reply: Reply) -> (res: Progress<Context>)
        ensures
            (final(self).view(), res@) == Self::excluding(old(self).view(), reply@),
    {
        match self.exclusion.step(reply) {
            Progress::Ask(q) => {
                self.phase = PreparePhase::Excluding;
                Progress::Ask(q)
            },
            Progress::Done(Err(e)) => {
                self.phase = PreparePhase::Over;
                Progress::Done(Err(e))
            },
            Progress::Done(Ok(())) => {
                self.phase = PreparePhase::Reserved;
                Progress::Ask(reserved_request(&self.context))
            },
        }
    }

    fn repository_message(&self, first: &str, last: &str) -> (res: MadmError)
        ensures
            res.text() == first@ + lossy_text(repository_path(self.view().home)) + last@,
            res.exit_code() == 1,
    {
        let mut message = String::from_str(first);
        let shown = lossy(self.context.repository());
        message.append(shown.as_str());
        message.append(last);
        MadmError::new(message)
    }

    pub fn step(&mut self, reply: Reply) -> (res: Progress<Context>)
        ensures
            (final(self).view(), res@) == Self::next(old(self).view(), reply@),
    {
        match self.phase {
            PreparePhase::Begin => {
                self.phase = PreparePhase::Inspecting;
                Progress::Ask(Request::Inspect(copy_bytes(self.context.repository())))
            },
            PreparePhase::Inspecting => {
                self.phase = PreparePhase::Over;
                match reply {
                    Reply::Kind(PathKind::Directory) => {
                        self.phase = PreparePhase::Validating;
                        let args = word_list(&["rev-parse", "--git-dir"]);
                        Progress::Ask(git_request(&self.context, args, true))
                    },
                    Reply::Kind(PathKind::NotDirectory) => {
                        proof {
                            reveal_strlit("");
                        }
                        let e = self.repository_message("the madm repository path is not a directory: ", "");
                        assert(e.text() =~= not_directory_message(self.view().home));
                        Progress::Done(Err(e))
                    },
                    Reply::Failed(f) => {
                        if f.kind == FailureKind::NotFound {
                            Progress::Done(
                                Err(
                                    self.repository_message(
                                        "no madm repository found at ",
                                        "; run 'madm init' or 'madm clone <url>'",
                                    ),
                                ),
                            )
                        } else {
                            Progress::Done(Err(MadmError::io("inspect madm repository path", f.detail.as_str())))
                        }
                    },
                    _ => Progress::Done(Err(unexpected())),
                }
            },
            PreparePhase::Validating => {
                self.phase = PreparePhase::Over;
                match reply {
                    Reply::Failed(f) => Progress::Done(Err(process_error(&f))),
                    Reply::Ran(o) => {
                        if !crate::git::is_success(&o) {
                            Progress::Done(Err(output_error("validate repository", &o)))
                        } else {
                            self.exclusion = Exclusion::new(&self.context);
                            self.excluding_exec(Reply::Start)
                        }
                    },
                    _ => Progress::Done(Err(unexpected())),
                }
            },
            PreparePhase::Excluding => self.excluding_exec(reply),
            PreparePhase::Reserved => {
                self.phase = PreparePhase::Over;
                match reply {
                    Reply::Failed(f) => Progress::Done(Err(process_error(&f))),
                    Reply::Ran(o) => match reserved_check(&o) {
                        Err(e) => Progress::Done(Err(e)),
                        Ok(()) => Progress::Done(Ok(self.context.copy())),
                    },
                    _ => Progress::Done(Err(unexpected())),
                }
            },
            PreparePhase::Over => Progress::Done(Err(unexpected())),
        }
    }
}

/// A command gets the repository only after the exclusion is in place and
/// the listing of the reserved path came back empty: a repository that
/// tracks its own path is rejected before anything else runs.
pub proof fn lemma_prepared_only_when_safe(s: PrepareView, r: ReplyView)
    ensures
        ({
            let (t, p) = Prepare::next(s, r);
            &&& p is Done && (p matches ProgressView::Done(Ok(_))) ==> s.phase == PreparePhase::Reserved
                && (r matches ReplyView::Ran(o) && reserved_result(o) is Ok)
            &&& t.phase == PreparePhase::Reserved && s.phase != PreparePhase::Reserved ==> Exclusion::next(
                if s.phase == PreparePhase::Excluding {
                    s.exclusion
                } else {
                    Exclusion::initial(s.home)
                },
                if s.phase == PreparePhase::Excluding {
                    r
                } else {
                    ReplyView::Start
                },
            ).1 == ProgressView::<()>::Done(Ok(()))
        }),
{
}

/// Where configuring a new repository stands.
#[derive(Copy, Clone, Debug, PartialEq, Eq, Structural)]
pub enum ConfigurePhase {
    Begin,
    Bare,
    WorkTree,
    Untracked,
    Excluding,
    Over,
}

/// `configure_new_repository`: `core.bare=false`, `core.worktree=<home>`,
/// `status.showUntrackedFiles=no`, then the exclusion.
pub struct Configure {
    context: Context,
    phase: ConfigurePhase,
    exclusion: Exclusion,
}

pub struct ConfigureView {
    pub home: Seq<u8>,
    pub phase: ConfigurePhase,
    pub exclusion: ExclusionView,
}

pub open spec fn worktree_args(home: Seq<u8>) -> Seq<Seq<u8>> {
    words_of(seq!["config", "core.worktree"]).push(home)
}

impl Configure {
    pub closed spec fn view(&self) -> ConfigureView {
        ConfigureView { home: self.context.home_path(), phase: self.phase, exclusion: self.exclusion.view() }
    }

    pub open spec fn initial(home: Seq<u8>) -> ConfigureView {
        ConfigureView { home, phase: ConfigurePhase::Begin, exclusion: Exclusion::initial(home) }
    }

    pub open spec fn excluding(s: ConfigureView, r: ReplyView) -> (ConfigureView, ProgressView<()>) {
        let (ev, p) = Exclusion::next(s.exclusion, r);
        let t = ConfigureView { exclusion: ev, ..s };
        match p {
            ProgressView::Ask(q) => (ConfigureView { phase: ConfigurePhase::Excluding, ..t }, ProgressView::Ask(q)),
            ProgressView::Done(res) => (ConfigureView { phase: ConfigurePhase::Over, ..t }, ProgressView::Done(res)),
        }
    }

    pub open spec fn next(s: ConfigureView, r: ReplyView) -> (ConfigureView, ProgressView<()>) {
        let over = ConfigureView { phase: ConfigurePhase::Over, ..s };
        match s.phase {
            ConfigurePhase::Begin => (
                ConfigureView { phase: ConfigurePhase::Bare, ..s },
                ask_git(s.home, words_of(seq!["config", "core.bare", "false"]), false),
            ),
            ConfigurePhase::Excluding => Self::excluding(s, r),
            ConfigurePhase::Over => (over, ProgressView::Done(Err(unexpected_reply()))),
            _ => match r {
                ReplyView::Failed(k, d) => (over, ProgressView::Done(Err(process_error_view(k, d)))),
                ReplyView::Ran(o) => match s.phase {
                    ConfigurePhase::Bare => if !succeeded(o) {
                        (over, ProgressView::Done(Err(status_error_view("configure repository work tree"@, o.code))))
                    } else {
                        (ConfigureView { phase: ConfigurePhase::WorkTree, ..s }, ask_git(s.home, worktree_args(s.home), false))
                    },
                    ConfigurePhase::WorkTree => if !succeeded(o) {
                        (over, ProgressView::Done(Err(status_error_view("configure repository work tree"@, o.code))))
                    } else {
                        (
                            ConfigureView { phase: ConfigurePhase::Untracked, ..s },
                            ask_git(s.home, words_of(seq!["config", "status.showUntrackedFiles", "no"]), false),
                        )
                    },
                    _ => if !succeeded(o) {
                        (over, ProgressView::Done(Err(status_error_view("configure untracked-file status"@, o.code))))
                    } else {
                        Self::excluding(ConfigureView { exclusion: Exclusion::initial(s.home), ..s }, ReplyView::Start)
                    },
                },
                _ => (over, ProgressView::Done(Err(unexpected_reply()))),
            },
        }
    }

    pub fn new(context: &Context) -> (res: Configure)
        ensures
            res.view() == Self::initial(context.home_path()),
    {
        Configure { context: context.copy(), phase: ConfigurePhase::Begin, exclusion: Exclusion::new(context) }
    }

    fn excluding_exec(&mut self, reply: Reply) -> (res: Progress<()>)
        ensures
            (final(self).view(), res@) == Self::excluding(old(self).view(), reply@),
    {
        match self.exclusion.step(reply) {
            Progress::Ask(q) => {
                self.phase = ConfigurePhase::Excluding;
                Progress::Ask(q)
            },
            Progress::Done(res) => {
                self.phase = ConfigurePhase::Over;
                Progress::Done(res)
            },
        }
    }

    pub fn step(&mut self, reply: Reply) -> (res: Progress<()>)
        ensures
            (final(self).view(), res@) == Self::next(old(self).view(), reply@),
    {
        match self.phase {
            ConfigurePhase::Begin => {
                self.phase = ConfigurePhase::Bare;
                let args = word_list(&["config", "core.bare", "false"]);
                return Progress::Ask(git_request(&self.context, args, false));
            },
            ConfigurePhase::Excluding => {
                return self.excluding_exec(reply);
            },
            ConfigurePhase::Over => {
                return Progress::Done(Err(unexpected()));
            },
            _ => {},
        }
        let phase = self.phase;
        self.phase = ConfigurePhase::Over;
        let o = match reply {
            Reply::Failed(f) => {
                return Progress::Done(Err(process_error(&f)));
            },
            Reply::Ran(o) => o,
            _ => {
                return Progress::Done(Err(unexpected()));
            },
        };
        let ok = crate::git::is_success(&o);
        match phase {
            ConfigurePhase::Bare => {
                if !ok {
                    return Progress::Done(Err(status_error("configure repository work tree", o.code)));
                }
                self.phase = ConfigurePhase::WorkTree;
                let mut args = word_list(&["config", "core.worktree"]);
                push_arg(&mut args, copy_bytes(self.context.home()));
                Progress::Ask(git_request(&self.context, args, false))
            },
            ConfigurePhase::WorkTree => {
                if !ok {
                    return Progress::Done(Err(status_error("configure repository work tree", o.code)));
                }
                self.phase = ConfigurePhase::Untracked;
                let args = word_list(&["config", "status.showUntrackedFiles", "no"]);
                Progress::Ask(git_request(&self.context, args, false))
            },
            _ => {
                if !ok {
                    return Progress::Done(Err(status_error("configure untracked-file status", o.code)));
                }
                self.exclusion = Exclusion::new(&self.context);
                self.excluding_exec(Reply::Start)
            },
        }
    }
}

} // verus!
