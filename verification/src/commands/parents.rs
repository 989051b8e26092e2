use vstd::prelude::*;

use crate::cli::word;
use crate::commands::setup::io_error;
use crate::commands::steps::copy_bytes;
use crate::context::{join, repository_parent_path, repository_path, Context};
use crate::error::MadmError;
use crate::host::{
    error_view, ErrorView, FailureKind, PathKind, Progress, ProgressView, Reply, ReplyView, Request,
    RequestView,
};
use crate::path::{unexpected, unexpected_reply};
use crate::text::{join_texts, joined, lossy, lossy_text, texts};

verus! {

/// The directories that must exist for the repository, outermost first:
/// `<home>/.local`, `<home>/.local/share`, `<home>/.local/share/madm`.
pub open spec fn parent_chain(home: Seq<u8>) -> Seq<Seq<u8>> {
    seq![
        join(home, word(".local"@)),
        join(home, word(".local/share"@)),
        repository_parent_path(home),
    ]
}

pub open spec fn parent_not_directory(path: Seq<u8>) -> Seq<char> {
    "repository parent path is not a directory: "@ + lossy_text(path)
}

/// Where creating the repository's parent directories stands.
#[derive(Copy, Clone, Debug, PartialEq, Eq, Structural)]
pub enum ParentsPhase {
    Begin,
    Inspecting,
    Making,
    Checking,
    Undoing,
    Over,
}

/// `create_repository_parent`: creates the missing parent directories one
/// by one and yields the ones it created; on a failure it removes those
/// again, newest first, and fails.
pub struct ParentCreation {
    context: Context,
    chain: Vec<Vec<u8>>,
    index: usize,
    created: Vec<Vec<u8>>,
    phase: ParentsPhase,
    undo: usize,
    error: MadmError,
}

pub struct ParentsView {
    pub home: Seq<u8>,
    pub index: int,
    pub created: Seq<Seq<u8>>,
    pub phase: ParentsPhase,
    pub undo: int,
    pub error: ErrorView,
}

impl ParentCreation {
    #[verifier::type_invariant]
    closed spec fn well_formed(&self) -> bool {
        &&& self.chain.deep_view() == parent_chain(self.context.home_path())
        &&& self.index < 3
        &&& self.undo <= self.created@.len()
    }

    pub closed spec fn view(&self) -> ParentsView {
        ParentsView {
            home: self.context.home_path(),
            index: self.index as int,
            created: self.created.deep_view(),
            phase: self.phase,
            undo: self.undo as int,
            error: error_view(self.error),
        }
    }

    pub open spec fn initial(home: Seq<u8>) -> ParentsView {
        ParentsView {
            home,
            index: 0,
            created: Seq::empty(),
            phase: ParentsPhase::Begin,
            undo: 0,
            error: (Seq::empty(), 1),
        }
    }

    /// Inspects the directory at `index`.
    pub open spec fn inspect(s: ParentsView) -> (ParentsView, ProgressView<Seq<Seq<u8>>>) {
        (
            ParentsView { phase: ParentsPhase::Inspecting, ..s },
            ProgressView::Ask(RequestView::Inspect(parent_chain(s.home)[s.index])),
        )
    }

    /// Goes on with the next directory, or ends with the created ones.
    pub open spec fn advance(s: ParentsView) -> (ParentsView, ProgressView<Seq<Seq<u8>>>) {
        if s.index + 1 < 3 {
            Self::inspect(ParentsView { index: s.index + 1, ..s })
        } else {
            (
                ParentsView { phase: ParentsPhase::Over, created: Seq::empty(), undo: 0, ..s },
                ProgressView::Done(Ok(s.created)),
            )
        }
    }

    /// Removes the next created directory, newest first, or fails when none
    /// is left; whether a removal worked does not matter.
    pub open spec fn unwind(s: ParentsView) -> (ParentsView, ProgressView<Seq<Seq<u8>>>) {
        if s.undo <= 0 {
            (
                ParentsView { phase: ParentsPhase::Over, error: (Seq::empty(), 1), ..s },
                ProgressView::Done(Err(s.error)),
            )
        } else {
            (
                ParentsView { phase: ParentsPhase::Undoing, undo: s.undo - 1, ..s },
                ProgressView::Ask(RequestView::RemoveDir(s.created[s.undo - 1])),
            )
        }
    }

    /// Fails with `e` once the created directories are gone.
    pub open spec fn fail(s: ParentsView, e: ErrorView) -> (ParentsView, ProgressView<Seq<Seq<u8>>>) {
        Self::unwind(ParentsView { undo: s.created.len() as int, error: e, ..s })
    }

    pub open spec fn next(s: ParentsView, r: ReplyView) -> (ParentsView, ProgressView<Seq<Seq<u8>>>) {
        let path = parent_chain(s.home)[s.index];
        let over = ParentsView { phase: ParentsPhase::Over, ..s };
        match s.phase {
            ParentsPhase::Begin => Self::inspect(s),
            ParentsPhase::Inspecting => match r {
                ReplyView::Kind(PathKind::Directory) => Self::advance(s),
                ReplyView::Kind(PathKind::NotDirectory) => Self::fail(s, (parent_not_directory(path), 1)),
                ReplyView::Failed(k, d) => if k == FailureKind::NotFound {
                    (ParentsView { phase: ParentsPhase::Making, ..s }, ProgressView::Ask(RequestView::MakeDir(path)))
                } else {
                    Self::fail(s, io_error("inspect repository parent directory "@ + lossy_text(path), d))
                },
                _ => (over, ProgressView::Done(Err(unexpected_reply()))),
            },
            ParentsPhase::Making => match r {
                ReplyView::Ack => Self::advance(ParentsView { created: s.created.push(path), ..s }),
                ReplyView::Failed(k, d) => if k == FailureKind::AlreadyExists {
                    (ParentsView { phase: ParentsPhase::Checking, ..s }, ProgressView::Ask(RequestView::IsDir(path)))
                } else {
                    Self::fail(s, io_error("create repository parent directory "@ + lossy_text(path), d))
                },
                _ => (over, ProgressView::Done(Err(unexpected_reply()))),
            },
            ParentsPhase::Checking => match r {
                ReplyView::Flag(true) => Self::advance(s),
                ReplyView::Flag(false) => Self::fail(s, (parent_not_directory(path), 1)),
                _ => (over, ProgressView::Done(Err(unexpected_reply()))),
            },
            ParentsPhase::Undoing => match r {
                ReplyView::Ack => Self::unwind(s),
                ReplyView::Failed(_, _) => Self::unwind(s),
                _ => (over, ProgressView::Done(Err(unexpected_reply()))),
            },
            ParentsPhase::Over => (over, ProgressView::Done(Err(unexpected_reply()))),
        }
    }

    pub fn new(context: &Context) -> (res: ParentCreation)
        ensures
            res.view() == Self::initial(context.home_path()),
    {
        let res = ParentCreation {
            context: context.copy(),
            chain: context.repository_parent_chain(),
            index: 0,
            created: Vec::new(),
            phase: ParentsPhase::Begin,
            undo: 0,
            error: MadmError::new(String::new()),
        };
        assert(res.view().created =~= Seq::<Seq<u8>>::empty());
        res
    }

    fn path(&self) -> (res: Vec<u8>)
        ensures
            res@ == parent_chain(self.view().home)[self.view().index],
    {
        proof {
            use_type_invariant(self);
            assert(self.chain.deep_view().len() == self.chain@.len());
            assert(self.chain@[self.index as int].deep_view() =~= self.chain@[self.index as int]@);
        }
        copy_bytes(self.chain[self.index].as_slice())
    }

    fn inspect_exec(&mut self) -> (res: Progress<Vec<Vec<u8>>>)
        ensures
            (final(self).view(), res@) == Self::inspect(old(self).view()),
    {
        proof {
            use_type_invariant(&*self);
        }
        self.phase = ParentsPhase::Inspecting;
        Progress::Ask(Request::Inspect(self.path()))
    }

    fn advance_exec(&mut self) -> (res: Progress<Vec<Vec<u8>>>)
        ensures
            (final(self).view(), res@) == Self::advance(old(self).view()),
    {
        proof {
            use_type_invariant(&*self);
        }
        if self.index + 1 < 3 {
            self.index = self.index + 1;
            self.inspect_exec()
        } else {
            self.phase = ParentsPhase::Over;
            self.undo = 0;
            let mut created: Vec<Vec<u8>> = Vec::new();
            std::mem::swap(&mut created, &mut self.created);
            assert(self.created.deep_view() =~= Seq::<Seq<u8>>::empty());
            Progress::Done(Ok(created))
        }
    }

    fn unwind_exec(&mut self) -> (res: Progress<Vec<Vec<u8>>>)
        ensures
            (final(self).view(), res@) == Self::unwind(old(self).view()),
    {
        proof {
            use_type_invariant(&*self);
        }
        if self.undo == 0 {
            self.phase = ParentsPhase::Over;
            let mut e = MadmError::new(String::new());
            std::mem::swap(&mut e, &mut self.error);
            Progress::Done(Err(e))
        } else {
            self.phase = ParentsPhase::Undoing;
            self.undo = self.undo - 1;
            proof {
                assert(self.created@[self.undo as int].deep_view() =~= self.created@[self.undo as int]@);
            }
            Progress::Ask(Request::RemoveDir(copy_bytes(self.created[self.undo].as_slice())))
        }
    }

    fn fail_exec(&mut self, e: MadmError) -> (res: Progress<Vec<Vec<u8>>>)
        ensures
            (final(self).view(), res@) == Self::fail(old(self).view(), error_view(e)),
    {
        proof {
            use_type_invariant(&*self);
        }
        self.error = e;
        self.undo = self.created.len();
        self.unwind_exec()
    }

    fn path_message(&self, first: &str) -> (res: String)
        ensures
            res@ == first@ + lossy_text(parent_chain(self.view().home)[self.view().index]),
    {
        let path = self.path();
        let mut text = String::from_str(first);
        let shown = lossy(path.as_slice());
        text.append(shown.as_str());
        text
    }

    /// Takes the host's reply and says what comes next.
    pub fn step(&mut self, reply: Reply) -> (res: Progress<Vec<Vec<u8>>>)
        ensures
            (final(self).view(), res@) == Self::next(old(self).view(), reply@),
    {
        proof {
            use_type_invariant(&*self);
        }
        match self.phase {
            ParentsPhase::Begin => self.inspect_exec(),
            ParentsPhase::Inspecting => match reply {
                Reply::Kind(PathKind::Directory) => self.advance_exec(),
                Reply::Kind(PathKind::NotDirectory) => {
                    let m = self.path_message("repository parent path is not a directory: ");
                    self.fail_exec(MadmError::new(m))
                },
                Reply::Failed(f) => {
                    if f.kind == FailureKind::NotFound {
                        self.phase = ParentsPhase::Making;
                        Progress::Ask(Request::MakeDir(self.path()))
                    } else {
                        let action = self.path_message("inspect repository parent directory ");
                        self.fail_exec(MadmError::io(action.as_str(), f.detail.as_str()))
                    }
                },
                _ => {
                    self.phase = ParentsPhase::Over;
                    Progress::Done(Err(unexpected()))
                },
            },
            ParentsPhase::Making => match reply {
                Reply::Ack => {
                    let path = self.path();
                    let ghost before = self.created.deep_view();
                    let ghost p = path@;
                    let undo = self.undo;
                    self.undo = 0;
                    let mut created: Vec<Vec<u8>> = Vec::new();
                    std::mem::swap(&mut created, &mut self.created);
                    created.push(path);
                    self.created = created;
                    self.undo = undo;
                    assert(self.created@.last().deep_view() =~= p);
                    assert(self.created.deep_view() =~= before.push(parent_chain(self.view().home)[self.view().index]));
                    self.advance_exec()
                },
                Reply::Failed(f) => {
                    if f.kind == FailureKind::AlreadyExists {
                        self.phase = ParentsPhase::Checking;
                        Progress::Ask(Request::IsDir(self.path()))
                    } else {
                        let action = self.path_message("create repository parent directory ");
                        self.fail_exec(MadmError::io(action.as_str(), f.detail.as_str()))
                    }
                },
                _ => {
                    self.phase = ParentsPhase::Over;
                    Progress::Done(Err(unexpected()))
                },
            },
            ParentsPhase::Checking => match reply {
                Reply::Flag(true) => self.advance_exec(),
                Reply::Flag(false) => {
                    let m = self.path_message("repository parent path is not a directory: ");
                    self.fail_exec(MadmError::new(m))
                },
                _ => {
                    self.phase = ParentsPhase::Over;
                    Progress::Done(Err(unexpected()))
                },
            },
            ParentsPhase::Undoing => match reply {
                Reply::Ack => self.unwind_exec(),
                Reply::Failed(_) => self.unwind_exec(),
                _ => {
                    self.phase = ParentsPhase::Over;
                    Progress::Done(Err(unexpected()))
                },
            },
            ParentsPhase::Over => Progress::Done(Err(unexpected())),
        }
    }
}

/// Where the cleanup after a failed setup stands.
#[derive(Copy, Clone, Debug, PartialEq, Eq, Structural)]
pub enum CleanupPhase {
    Begin,
    Inspecting,
    Removing,
    Parents,
    Over,
}

/// `cleanup_failed_setup`: removes the repository path and the parent
/// directories the setup created, newest first, and fails with the error
/// that caused the cleanup, or with it and what could not be cleaned up.
pub struct Cleanup {
    context: Context,
    created: Vec<Vec<u8>>,
    undo: usize,
    cause: MadmError,
    errors: Vec<String>,
    phase: CleanupPhase,
}

pub struct CleanupView {
    pub home: Seq<u8>,
    pub created: Seq<Seq<u8>>,
    pub undo: int,
    pub cause: ErrorView,
    pub errors: Seq<Seq<char>>,
    pub phase: CleanupPhase,
}

/// The error after a cleanup that left something behind.
pub open spec fn incomplete_message(cause: Seq<char>, errors: Seq<Seq<char>>) -> Seq<char> {
    cause + "; setup cleanup was incomplete: "@ + joined(errors, "; "@)
}

pub open spec fn removal_error(path: Seq<u8>, detail: Seq<char>) -> Seq<char> {
    "remove "@ + lossy_text(path) + ": "@ + detail
}

/// Starts cleaning up after a failed setup of the repository below
/// `context`'s home.
pub fn cleanup_failed_setup(context: &Context, created: Vec<Vec<u8>>, cause: MadmError) -> (res: Cleanup)
    ensures
        res.view() == Cleanup::initial(context.home_path(), created.deep_view(), error_view(cause)),
{
    let res = Cleanup {
        context: context.copy(),
        created,
        undo: 0,
        cause,
        errors: Vec::new(),
        phase: CleanupPhase::Begin,
    };
    assert(res.view().errors =~= Seq::<Seq<char>>::empty());
    res
}

impl Cleanup {
    #[verifier::type_invariant]
    closed spec fn well_formed(&self) -> bool {
        &&& self.undo <= self.created@.len()
        &&& self.phase == CleanupPhase::Parents ==> self.undo < self.created@.len()
    }

    pub closed spec fn view(&self) -> CleanupView {
        CleanupView {
            home: self.context.home_path(),
            created: self.created.deep_view(),
            undo: self.undo as int,
            cause: error_view(self.cause),
            errors: texts(self.errors@),
            phase: self.phase,
        }
    }

    pub open spec fn initial(home: Seq<u8>, created: Seq<Seq<u8>>, cause: ErrorView) -> CleanupView {
        CleanupView { home, created, undo: 0, cause, errors: Seq::empty(), phase: CleanupPhase::Begin }
    }

    /// Fails with the error that caused the cleanup, extended by what was
    /// left behind.
    pub open spec fn finish(s: CleanupView) -> (CleanupView, ProgressView<i32>) {
        (
            CleanupView { phase: CleanupPhase::Over, cause: (Seq::empty(), 1), ..s },
            ProgressView::Done(
                Err(
                    if s.errors.len() == 0 {
                        s.cause
                    } else {
                        (incomplete_message(s.cause.0, s.errors), 1)
                    },
                ),
            ),
        )
    }

    /// Removes the next created parent directory, newest first.
    pub open spec fn unwind(s: CleanupView) -> (CleanupView, ProgressView<i32>) {
        if s.undo <= 0 {
            Self::finish(s)
        } else {
            (
                CleanupView { phase: CleanupPhase::Parents, undo: s.undo - 1, ..s },
                ProgressView::Ask(RequestView::RemoveDir(s.created[s.undo - 1])),
            )
        }
    }

    pub open spec fn parents(s: CleanupView) -> (CleanupView, ProgressView<i32>) {
        Self::unwind(CleanupView { undo: s.created.len() as int, ..s })
    }

    /// One step of the cleanup. Only the repository path and the directories
    /// the setup created are removed.
    pub open spec fn next(s: CleanupView, r: ReplyView) -> (CleanupView, ProgressView<i32>) {
        let repo = repository_path(s.home);
        let over = CleanupView { phase: CleanupPhase::Over, ..s };
        match s.phase {
            CleanupPhase::Begin => (
                CleanupView { phase: CleanupPhase::Inspecting, ..s },
                ProgressView::Ask(RequestView::Inspect(repo)),
            ),
            CleanupPhase::Inspecting => match r {
                ReplyView::Kind(PathKind::Directory) => (
                    CleanupView { phase: CleanupPhase::Removing, ..s },
                    ProgressView::Ask(RequestView::RemoveTree(repo)),
                ),
                ReplyView::Kind(PathKind::NotDirectory) => (
                    CleanupView { phase: CleanupPhase::Removing, ..s },
                    ProgressView::Ask(RequestView::RemoveFile(repo)),
                ),
                ReplyView::Failed(k, d) => if k == FailureKind::NotFound {
                    Self::parents(s)
                } else {
                    Self::parents(
                        CleanupView { errors: s.errors.push("inspect "@ + lossy_text(repo) + ": "@ + d), ..s },
                    )
                },
                _ => (over, ProgressView::Done(Err(unexpected_reply()))),
            },
            CleanupPhase::Removing => match r {
                ReplyView::Ack => Self::parents(s),
                ReplyView::Failed(_, d) => Self::parents(
                    CleanupView { errors: s.errors.push(removal_error(repo, d)), ..s },
                ),
                _ => (over, ProgressView::Done(Err(unexpected_reply()))),
            },
            CleanupPhase::Parents => match r {
                ReplyView::Ack => Self::unwind(s),
                ReplyView::Failed(_, d) => Self::unwind(
                    CleanupView { errors: s.errors.push(removal_error(s.created[s.undo], d)), ..s },
                ),
                _ => (over, ProgressView::Done(Err(unexpected_reply()))),
            },
            CleanupPhase::Over => (over, ProgressView::Done(Err(unexpected_reply()))),
        }
    }

    fn finish_exec(&mut self) -> (res: Progress<i32>)
        ensures
            (final(self).view(), res@) == Self::finish(old(self).view()),
    {
        proof {
            use_type_invariant(&*self);
        }
        self.phase = CleanupPhase::Over;
        let mut e = MadmError::new(String::new());
        std::mem::swap(&mut e, &mut self.cause);
        if self.errors.len() == 0 {
            Progress::Done(Err(e))
        } else {
            let mut message = String::from_str(e.message());
            message.append("; setup cleanup was incomplete: ");
            let rest = join_texts(&self.errors, "; ");
            message.append(rest.as_str());
            Progress::Done(Err(MadmError::new(message)))
        }
    }

    fn unwind_exec(&mut self) -> (res: Progress<i32>)
        ensures
            (final(self).view(), res@) == Self::unwind(old(self).view()),
    {
        proof {
            use_type_invariant(&*self);
        }
        if self.undo == 0 {
            self.finish_exec()
        } else {
            self.undo = self.undo - 1;
            self.phase = CleanupPhase::Parents;
            proof {
                assert(self.created@[self.undo as int].deep_view() =~= self.created@[self.undo as int]@);
            }
            Progress::Ask(Request::RemoveDir(copy_bytes(self.created[self.undo].as_slice())))
        }
    }

    fn parents_exec(&mut self) -> (res: Progress<i32>)
        ensures
            (final(self).view(), res@) == Self::parents(old(self).view()),
    {
        proof {
            use_type_invariant(&*self);
        }
        self.phase = CleanupPhase::Over;
        self.undo = self.created.len();
        self.unwind_exec()
    }

    fn push_error(&mut self, first: &str, path: &[u8], detail: &str)
        ensures
            final(self).view() == (CleanupView {
                errors: old(self).view().errors.push(first@ + lossy_text(path@) + ": "@ + detail@),
                ..old(self).view()
            }),
    {
        proof {
            use_type_invariant(&*self);
        }
        let mut text = String::from_str(first);
        let shown = lossy(path);
        text.append(shown.as_str());
        text.append(": ");
        text.append(detail);
        let ghost before = self.errors@;
        let ghost t = text@;
        let mut errors: Vec<String> = Vec::new();
        std::mem::swap(&mut errors, &mut self.errors);
        errors.push(text);
        self.errors = errors;
        assert(texts(self.errors@) =~= texts(before).push(t));
    }

    pub fn step(&mut self, reply: Reply) -> (res: Progress<i32>)
        ensures
            (final(self).view(), res@) == Self::next(old(self).view(), reply@),
    {
        proof {
            use_type_invariant(&*self);
        }
        match self.phase {
            CleanupPhase::Begin => {
                self.phase = CleanupPhase::Inspecting;
                Progress::Ask(Request::Inspect(copy_bytes(self.context.repository())))
            },
            CleanupPhase::Inspecting => match reply {
                Reply::Kind(PathKind::Directory) => {
                    self.phase = CleanupPhase::Removing;
                    Progress::Ask(Request::RemoveTree(copy_bytes(self.context.repository())))
                },
                Reply::Kind(PathKind::NotDirectory) => {
                    self.phase = CleanupPhase::Removing;
                    Progress::Ask(Request::RemoveFile(copy_bytes(self.context.repository())))
                },
                Reply::Failed(f) => {
                    if f.kind != FailureKind::NotFound {
                        let repo = copy_bytes(self.context.repository());
                        self.push_error("inspect ", repo.as_slice(), f.detail.as_str());
                    }
                    self.parents_exec()
                },
                _ => {
                    self.phase = CleanupPhase::Over;
                    Progress::Done(Err(unexpected()))
                },
            },
            CleanupPhase::Removing => match reply {
                Reply::Ack => self.parents_exec(),
                Reply::Failed(f) => {
                    let repo = copy_bytes(self.context.repository());
                    self.push_error("remove ", repo.as_slice(), f.detail.as_str());
                    self.parents_exec()
                },
                _ => {
                    self.phase = CleanupPhase::Over;
                    Progress::Done(Err(unexpected()))
                },
            },
            CleanupPhase::Parents => match reply {
                Reply::Ack => self.unwind_exec(),
                Reply::Failed(f) => {
                    proof {
                        assert(self.created@[self.undo as int].deep_view() =~= self.created@[self.undo as int]@);
                    }
                    let path = copy_bytes(self.created[self.undo].as_slice());
                    self.push_error("remove ", path.as_slice(), f.detail.as_str());
                    self.unwind_exec()
                },
                _ => {
                    self.phase = CleanupPhase::Over;
                    Progress::Done(Err(unexpected()))
                },
            },
            CleanupPhase::Over => Progress::Done(Err(unexpected())),
        }
    }
}

/// Every path listed is one of the repository's parent directories.
pub open spec fn chain_only(home: Seq<u8>, paths: Seq<Seq<u8>>) -> bool {
    forall|i: int| 0 <= i < paths.len() ==> parent_chain(home).contains(#[trigger] paths[i])
}

/// A request about the repository's parent directories only.
pub open spec fn parents_request(home: Seq<u8>, q: RequestView) -> bool {
    match q {
        RequestView::Inspect(p) => parent_chain(home).contains(p),
        RequestView::MakeDir(p) => parent_chain(home).contains(p),
        RequestView::IsDir(p) => parent_chain(home).contains(p),
        RequestView::RemoveDir(p) => parent_chain(home).contains(p),
        _ => false,
    }
}

/// What the creation of parent directories keeps: a directory to look at,
/// at most as many to remove as were made, and only the repository's
/// parents among those made.
pub open spec fn parents_inv(s: ParentsView) -> bool {
    &&& 0 <= s.index < 3
    &&& 0 <= s.undo <= s.created.len()
    &&& chain_only(s.home, s.created)
}

/// Only directories that this setup made are ever removed again, and those
/// are parents of the repository.
pub proof fn lemma_parents_remove_only_created(s: ParentsView, r: ReplyView)
    requires
        parents_inv(s),
    ensures
        parents_inv(ParentCreation::next(s, r).0),
        ParentCreation::next(s, r).0.home == s.home,
        ParentCreation::next(s, r).1 matches ProgressView::Ask(q) ==> parents_request(s.home, q),
        ParentCreation::next(s, r).1 matches ProgressView::Ask(RequestView::RemoveDir(p)) ==> s.created.contains(p),
        ParentCreation::next(s, r).1 matches ProgressView::Done(Ok(c)) ==> chain_only(s.home, c),
{
    let path = parent_chain(s.home)[s.index];
    assert(parent_chain(s.home).contains(path));
    if s.phase == ParentsPhase::Making && r == ReplyView::Ack {
        let t = ParentsView { created: s.created.push(path), ..s };
        assert(forall|i: int| 0 <= i < t.created.len() ==> parent_chain(s.home).contains(#[trigger] t.created[i])) by {
            assert forall|i: int| 0 <= i < t.created.len() implies parent_chain(s.home).contains(#[trigger] t.created[i]) by {
                if i < s.created.len() {
                    assert(t.created[i] == s.created[i]);
                }
            }
        }
    }
    if let ProgressView::Ask(RequestView::RemoveDir(p)) = ParentCreation::next(s, r).1 {
        let t = ParentCreation::next(s, r).0;
        assert(t.created == s.created);
        assert(s.created[t.undo] == p);
    }
}

/// The cleanup after a failed setup removes only the repository path and
/// the parent directories that the setup made.
pub proof fn lemma_cleanup_removes_only_setup(s: CleanupView, r: ReplyView)
    requires
        0 <= s.undo <= s.created.len(),
        s.phase == CleanupPhase::Parents ==> s.undo < s.created.len(),
    ensures
        ({
            let (t, p) = Cleanup::next(s, r);
            &&& t.created == s.created
            &&& 0 <= t.undo <= t.created.len()
            &&& t.phase == CleanupPhase::Parents ==> t.undo < t.created.len()
            &&& p matches ProgressView::Ask(RequestView::RemoveTree(x)) ==> x == repository_path(s.home)
            &&& p matches ProgressView::Ask(RequestView::RemoveFile(x)) ==> x == repository_path(s.home)
            &&& p matches ProgressView::Ask(RequestView::RemoveDir(x)) ==> s.created.contains(x)
        }),
{
    let (t, p) = Cleanup::next(s, r);
    if let ProgressView::Ask(RequestView::RemoveDir(x)) = p {
        assert(s.created[t.undo] == x);
    }
}

} // verus!
