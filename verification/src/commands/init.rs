use vstd::prelude::*;

use crate::cli::word;
use crate::commands::parents::{
    chain_only, cleanup_failed_setup, lemma_cleanup_removes_only_setup,
    lemma_parents_remove_only_created, parent_chain, parents_inv, Cleanup, CleanupPhase,
    CleanupView, ParentCreation, ParentsView,
};
use crate::commands::steps::ask_git;
use crate::commands::setup::{
    repository_addition, ConfigurePhase, ExclusionPhase,
    exclude_file, info_dir, io_error, worktree_args, Configure, ConfigureView,
};
use crate::commands::steps::{copy_bytes, lemma_words_of_first, raw_request, word_list, words_of};
use crate::context::{repository_path, Context, REPOSITORY_EXCLUDE_PATTERN};
use crate::exclude::{bytes_of_spec, has_line, lemma_repository_exclusion_idempotent};
use crate::error::MadmError;
use crate::git::{
    code_of, git_call, process_error, process_error_view, push_arg, raw_call, status_code,
    succeeded,
};
use crate::host::{
    error_view, ErrorView, FailureKind, GitCallView, PathKind, Progress, ProgressView, Reply,
    ReplyView, Request, RequestView,
};
use crate::path::{unexpected, unexpected_reply};
use crate::text::{lossy, lossy_text};

verus! {

/// Where `madm init` stands.
#[derive(Copy, Clone, Debug, PartialEq, Eq, Structural)]
pub enum InitPhase {
    Begin,
    Inspecting,
    Parents,
    Initializing,
    Configuring,
    CleaningUp,
    Announcing,
    Over,
}

/// `madm init`: creates the bare repository at its fixed path and
/// configures it for the home work tree; a failed setup is removed again.
pub struct InitRun {
    context: Context,
    phase: InitPhase,
    parents: ParentCreation,
    created: Vec<Vec<u8>>,
    configure: Configure,
    cleanup: Cleanup,
}

pub struct InitView {
    pub home: Seq<u8>,
    pub phase: InitPhase,
    pub parents: ParentsView,
    pub created: Seq<Seq<u8>>,
    pub configure: ConfigureView,
    pub cleanup: CleanupView,
}

pub open spec fn existing_message(home: Seq<u8>) -> Seq<char> {
    "refusing to overwrite existing repository path: "@ + lossy_text(repository_path(home))
}

/// `git init --bare <repository>`, run outside any repository.
pub open spec fn init_args(home: Seq<u8>) -> Seq<Seq<u8>> {
    words_of(seq!["init", "--bare"]).push(repository_path(home))
}

pub open spec fn initialized_text(home: Seq<u8>) -> Seq<char> {
    "Initialized madm repository at "@ + lossy_text(repository_path(home)) + "\n"@
}

/// Starts `madm init` for the home directory of `context`.
pub fn run(context: &Context) -> (res: InitRun)
    ensures
        res.view() == InitRun::initial(context.home_path()),
{
    let res = InitRun {
        context: context.copy(),
        phase: InitPhase::Begin,
        parents: ParentCreation::new(context),
        created: Vec::new(),
        configure: Configure::new(context),
        cleanup: cleanup_failed_setup(context, Vec::new(), MadmError::new(String::new())),
    };
    assert(res.view().created =~= Seq::<Seq<u8>>::empty());
    assert(res.view().cleanup == Cleanup::initial(context.home_path(), Seq::empty(), (Seq::empty(), 1)));
    res
}

impl InitRun {
    pub closed spec fn view(&self) -> InitView {
        InitView {
            home: self.context.home_path(),
            phase: self.phase,
            parents: self.parents.view(),
            created: self.created.deep_view(),
            configure: self.configure.view(),
            cleanup: self.cleanup.view(),
        }
    }

    pub open spec fn initial(home: Seq<u8>) -> InitView {
        InitView {
            home,
            phase: InitPhase::Begin,
            parents: ParentCreation::initial(home),
            created: Seq::empty(),
            configure: Configure::initial(home),
            cleanup: Cleanup::initial(home, Seq::empty(), (Seq::empty(), 1)),
        }
    }

    pub open spec fn cleaning(s: InitView, r: ReplyView) -> (InitView, ProgressView<i32>) {
        let (cv, p) = Cleanup::next(s.cleanup, r);
        let t = InitView { cleanup: cv, ..s };
        match p {
            ProgressView::Ask(q) => (InitView { phase: InitPhase::CleaningUp, ..t }, ProgressView::Ask(q)),
            ProgressView::Done(res) => (InitView { phase: InitPhase::Over, ..t }, ProgressView::Done(res)),
        }
    }

    /// Fails with `e` after removing what the setup made.
    pub open spec fn fail(s: InitView, e: ErrorView) -> (InitView, ProgressView<i32>) {
        Self::cleaning(
            InitView { cleanup: Cleanup::initial(s.home, s.created, e), created: Seq::empty(), ..s },
            ReplyView::Start,
        )
    }

    pub open spec fn parenting(s: InitView, r: ReplyView) -> (InitView, ProgressView<i32>) {
        let (pv, p) = ParentCreation::next(s.parents, r);
        let t = InitView { parents: pv, ..s };
        match p {
            ProgressView::Ask(q) => (InitView { phase: InitPhase::Parents, ..t }, ProgressView::Ask(q)),
            ProgressView::Done(Err(e)) => (InitView { phase: InitPhase::Over, ..t }, ProgressView::Done(Err(e))),
            ProgressView::Done(Ok(c)) => (
                InitView { phase: InitPhase::Initializing, created: c, ..t },
                ProgressView::Ask(RequestView::RunGit(raw_call(init_args(s.home), false))),
            ),
        }
    }

    pub open spec fn configuring(s: InitView, r: ReplyView) -> (InitView, ProgressView<i32>) {
        let (cv, p) = Configure::next(s.configure, r);
        let t = InitView { configure: cv, ..s };
        match p {
            ProgressView::Ask(q) => (InitView { phase: InitPhase::Configuring, ..t }, ProgressView::Ask(q)),
            ProgressView::Done(Err(e)) => Self::fail(t, e),
            ProgressView::Done(Ok(_)) => (
                InitView { phase: InitPhase::Announcing, ..t },
                ProgressView::Ask(RequestView::Say(initialized_text(s.home))),
            ),
        }
    }

    /// One step of `madm init`. An existing repository path is never
    /// touched; once parent directories were made, every failure removes
    /// the repository path and those directories again.
    pub open spec fn next(s: InitView, r: ReplyView) -> (InitView, ProgressView<i32>) {
        let over = InitView { phase: InitPhase::Over, ..s };
        match s.phase {
            InitPhase::Begin => (
                InitView { phase: InitPhase::Inspecting, ..s },
                ProgressView::Ask(RequestView::Inspect(repository_path(s.home))),
            ),
            InitPhase::Inspecting => match r {
                ReplyView::Kind(_) => (over, ProgressView::Done(Err((existing_message(s.home), 1)))),
                ReplyView::Failed(k, d) => if k == FailureKind::NotFound {
                    Self::parenting(InitView { parents: ParentCreation::initial(s.home), ..s }, ReplyView::Start)
                } else {
                    (over, ProgressView::Done(Err(io_error("inspect repository path"@, d))))
                },
                _ => (over, ProgressView::Done(Err(unexpected_reply()))),
            },
            InitPhase::Parents => Self::parenting(s, r),
            InitPhase::Initializing => match r {
                ReplyView::Failed(k, d) => Self::fail(s, process_error_view(k, d)),
                ReplyView::Ran(o) => if succeeded(o) {
                    Self::configuring(InitView { configure: Configure::initial(s.home), ..s }, ReplyView::Start)
                } else {
                    Self::fail(s, ("Git could not initialize the madm repository"@, code_of(o.code)))
                },
                _ => (over, ProgressView::Done(Err(unexpected_reply()))),
            },
            InitPhase::Configuring => Self::configuring(s, r),
            InitPhase::CleaningUp => Self::cleaning(s, r),
            InitPhase::Announcing => match r {
                ReplyView::Ack => (over, ProgressView::Done(Ok(0))),
                _ => (over, ProgressView::Done(Err(unexpected_reply()))),
            },
            InitPhase::Over => (over, ProgressView::Done(Err(unexpected_reply()))),
        }
    }

    fn cleaning_exec(&mut self, reply: Reply) -> (res: Progress<i32>)
        ensures
            (final(self).view(), res@) == Self::cleaning(old(self).view(), reply@),
    {
        match self.cleanup.step(reply) {
            Progress::Ask(q) => {
                self.phase = InitPhase::CleaningUp;
                Progress::Ask(q)
            },
            Progress::Done(res) => {
                self.phase = InitPhase::Over;
                Progress::Done(res)
            },
        }
    }

    fn fail_exec(&mut self, e: MadmError) -> (res: Progress<i32>)
        ensures
            (final(self).view(), res@) == Self::fail(old(self).view(), error_view(e)),
    {
        let mut created: Vec<Vec<u8>> = Vec::new();
        std::mem::swap(&mut created, &mut self.created);
        assert(self.created.deep_view() =~= Seq::<Seq<u8>>::empty());
        self.cleanup = cleanup_failed_setup(&self.context, created, e);
        self.cleaning_exec(Reply::Start)
    }

    fn parenting_exec(&mut self, reply: Reply) -> (res: Progress<i32>)
        ensures
            (final(self).view(), res@) == Self::parenting(old(self).view(), reply@),
    {
        match self.parents.step(reply) {
            Progress::Ask(q) => {
                self.phase = InitPhase::Parents;
                Progress::Ask(q)
            },
            Progress::Done(Err(e)) => {
                self.phase = InitPhase::Over;
                Progress::Done(Err(e))
            },
            Progress::Done(Ok(c)) => {
                self.phase = InitPhase::Initializing;
                self.created = c;
                let mut args = word_list(&["init", "--bare"]);
                push_arg(&mut args, copy_bytes(self.context.repository()));
                Progress::Ask(raw_request(args, false))
            },
        }
    }

    fn configuring_exec(&mut self, reply: Reply) -> (res: Progress<i32>)
        ensures
            (final(self).view(), res@) == Self::configuring(old(self).view(), reply@),
    {
        match self.configure.step(reply) {
            Progress::Ask(q) => {
                self.phase = InitPhase::Configuring;
                Progress::Ask(q)
            },
            Progress::Done(Err(e)) => self.fail_exec(e),
            Progress::Done(Ok(())) => {
                self.phase = InitPhase::Announcing;
                let mut text = String::from_str("Initialized madm repository at ");
                let shown = lossy(self.context.repository());
                text.append(shown.as_str());
                text.append("\n");
                Progress::Ask(Request::Say(text))
            },
        }
    }

    pub fn step(&mut self, reply: Reply) -> (res: Progress<i32>)
        ensures
            (final(self).view(), res@) == Self::next(old(self).view(), reply@),
    {
        match self.phase {
            InitPhase::Begin => {
                self.phase = InitPhase::Inspecting;
                Progress::Ask(Request::Inspect(copy_bytes(self.context.repository())))
            },
            InitPhase::Inspecting => {
                self.phase = InitPhase::Over;
                match reply {
                    Reply::Kind(_) => {
                        let mut message = String::from_str("refusing to overwrite existing repository path: ");
                        let shown = lossy(self.context.repository());
                        message.append(shown.as_str());
                        Progress::Done(Err(MadmError::new(message)))
                    },
                    Reply::Failed(f) => {
                        if f.kind == FailureKind::NotFound {
                            self.phase = InitPhase::Inspecting;
                            self.parents = ParentCreation::new(&self.context);
                            self.parenting_exec(Reply::Start)
                        } else {
                            Progress::Done(Err(MadmError::io("inspect repository path", f.detail.as_str())))
                        }
                    },
                    _ => Progress::Done(Err(unexpected())),
                }
            },
            InitPhase::Parents => self.parenting_exec(reply),
            InitPhase::Initializing => match reply {
                Reply::Failed(f) => self.fail_exec(process_error(&f)),
                Reply::Ran(o) => {
                    if crate::git::is_success(&o) {
                        self.configure = Configure::new(&self.context);
                        self.configuring_exec(Reply::Start)
                    } else {
                        let e = MadmError::with_code(
                            String::from_str("Git could not initialize the madm repository"),
                            status_code(o.code),
                        );
                        self.fail_exec(e)
                    }
                },
                _ => {
                    self.phase = InitPhase::Over;
                    Progress::Done(Err(unexpected()))
                },
            },
            InitPhase::Configuring => self.configuring_exec(reply),
            InitPhase::CleaningUp => self.cleaning_exec(reply),
            InitPhase::Announcing => {
                self.phase = InitPhase::Over;
                match reply {
                    Reply::Ack => Progress::Done(Ok(0)),
                    _ => Progress::Done(Err(unexpected())),
                }
            },
            InitPhase::Over => Progress::Done(Err(unexpected())),
        }
    }
}

/// `madm init` never touches an existing repository path: whatever is
/// there, it fails at once.
pub proof fn lemma_init_refuses_existing(s: InitView, k: PathKind)
    requires
        s.phase == InitPhase::Inspecting,
    ensures
        InitRun::next(s, ReplyView::Kind(k)).1 == ProgressView::<i32>::Done(Err((existing_message(s.home), 1))),
{
}

/// A request that concerns the new repository alone: its path, the
/// directories above it, its `info/exclude` file, `git init --bare` of it,
/// `git config` in it, or text for the user.
pub open spec fn setup_request(home: Seq<u8>, q: RequestView) -> bool {
    match q {
        RequestView::Inspect(p) => p == repository_path(home) || parent_chain(home).contains(p),
        RequestView::MakeDir(p) => parent_chain(home).contains(p),
        RequestView::IsDir(p) => parent_chain(home).contains(p),
        RequestView::RemoveDir(p) => parent_chain(home).contains(p),
        RequestView::RemoveTree(p) => p == repository_path(home),
        RequestView::RemoveFile(p) => p == repository_path(home),
        RequestView::Read(p) => p == exclude_file(home),
        RequestView::MakeDirAll(p) => p == info_dir(home),
        RequestView::Append(p, _) => p == exclude_file(home),
        RequestView::Say(_) => true,
        RequestView::RunGit(c) => c == raw_call(init_args(home), false) || config_call(home, c),
        _ => false,
    }
}

/// `git config ...` against the repository.
pub open spec fn config_call(home: Seq<u8>, c: GitCallView) -> bool {
    exists|a: Seq<Seq<u8>>| c == git_call(home, a, false) && a.len() > 0 && a[0] == word("config"@)
}

proof fn lemma_config_call(home: Seq<u8>, a: Seq<Seq<u8>>)
    requires
        a.len() > 0,
        a[0] == word("config"@),
    ensures
        config_call(home, git_call(home, a, false)),
{
}

proof fn lemma_configure_requests(s: ConfigureView, r: ReplyView)
    requires
        s.exclusion.home == s.home,
    ensures
        Configure::next(s, r).0.home == s.home,
        Configure::next(s, r).0.exclusion.home == s.home,
        Configure::next(s, r).1 matches ProgressView::Ask(q) ==> setup_request(s.home, q),
{
    lemma_words_of_first(seq!["config", "core.bare", "false"]);
    lemma_words_of_first(seq!["config", "core.worktree"]);
    lemma_words_of_first(seq!["config", "status.showUntrackedFiles", "no"]);
    lemma_config_call(s.home, words_of(seq!["config", "core.bare", "false"]));
    lemma_config_call(s.home, worktree_args(s.home));
    lemma_config_call(s.home, words_of(seq!["config", "status.showUntrackedFiles", "no"]));
}

/// What every state of `madm init` keeps: its parts work on its home, and
/// the directories it knows as created are parents of the repository.
pub open spec fn init_inv(s: InitView) -> bool {
    &&& s.parents.home == s.home
    &&& parents_inv(s.parents)
    &&& s.configure.home == s.home
    &&& s.configure.exclusion.home == s.home
    &&& s.cleanup.home == s.home
    &&& 0 <= s.cleanup.undo <= s.cleanup.created.len()
    &&& s.cleanup.phase == CleanupPhase::Parents ==> s.cleanup.undo < s.cleanup.created.len()
    &&& chain_only(s.home, s.cleanup.created)
    &&& chain_only(s.home, s.created)
}

/// `madm init` does not look at, add, move or remove any home file: every
/// request of every step concerns the new repository, the directories
/// above it, or its own `info/exclude`.
#[verifier::rlimit(80)]
pub proof fn lemma_init_touches_only_the_repository(s: InitView, r: ReplyView)
    requires
        init_inv(s),
    ensures
        init_inv(InitRun::next(s, r).0),
        InitRun::next(s, r).1 matches ProgressView::Ask(q) ==> setup_request(s.home, q),
{
    match s.phase {
        InitPhase::Inspecting => {
            lemma_parents_remove_only_created(ParentCreation::initial(s.home), ReplyView::Start);
        },
        InitPhase::Parents => {
            lemma_parents_remove_only_created(s.parents, r);
        },
        InitPhase::Initializing => {
            lemma_configure_requests(Configure::initial(s.home), ReplyView::Start);
        },
        InitPhase::Configuring => {
            lemma_configure_requests(s.configure, r);
        },
        InitPhase::CleaningUp => {
            lemma_cleanup_removes_only_setup(s.cleanup, r);
            let (t, p) = Cleanup::next(s.cleanup, r);
            if let ProgressView::Ask(RequestView::RemoveDir(x)) = p {
                let i = choose|i: int| 0 <= i < s.cleanup.created.len() && s.cleanup.created[i] == x;
                assert(parent_chain(s.home).contains(s.cleanup.created[i]));
            }
        },
        _ => {},
    }
}

/// `madm init` starts in a state that keeps `init_inv`.
pub proof fn lemma_init_starts_well(home: Seq<u8>)
    ensures
        init_inv(InitRun::initial(home)),
{
}

/// What `madm init` asks for and ends with, reply by reply, and the state
/// after the last reply.
pub open spec fn init_run(s: InitView, replies: Seq<ReplyView>) -> (InitView, Seq<ProgressView<i32>>)
    decreases replies.len(),
{
    if replies.len() == 0 {
        (s, Seq::empty())
    } else {
        let (t, p) = InitRun::next(s, replies[0]);
        let (u, ps) = init_run(t, replies.drop_first());
        (u, seq![p] + ps)
    }
}

pub open spec fn init_request(home: Seq<u8>) -> ProgressView<i32> {
    ProgressView::Ask(RequestView::RunGit(raw_call(init_args(home), false)))
}

pub open spec fn bare_request(home: Seq<u8>) -> ProgressView<i32> {
    ask_git(home, words_of(seq!["config", "core.bare", "false"]), false)
}

pub open spec fn worktree_request(home: Seq<u8>) -> ProgressView<i32> {
    ask_git(home, worktree_args(home), false)
}

pub open spec fn untracked_request(home: Seq<u8>) -> ProgressView<i32> {
    ask_git(home, words_of(seq!["config", "status.showUntrackedFiles", "no"]), false)
}

pub open spec fn read_request(home: Seq<u8>) -> ProgressView<i32> {
    ProgressView::Ask(RequestView::Read(exclude_file(home)))
}

/// The append of the repository's exclude lines to exclude content `content`.
pub open spec fn append_request(home: Seq<u8>, content: Seq<u8>) -> ProgressView<i32> {
    ProgressView::Ask(RequestView::Append(exclude_file(home), repository_addition(content)->0))
}

pub open spec fn configuring_past(s: InitView, phase: ConfigurePhase) -> bool {
    s.phase == InitPhase::Announcing || (s.phase == InitPhase::Configuring && s.configure.phase == phase)
}

/// The repository was made: `git init --bare` was asked for.
pub open spec fn made(s: InitView) -> bool {
    s.phase == InitPhase::Initializing || s.phase == InitPhase::Configuring || s.phase
        == InitPhase::Announcing
}

/// `core.bare` was set (asked for).
pub open spec fn bare_set(s: InitView) -> bool {
    s.phase == InitPhase::Announcing || (s.phase == InitPhase::Configuring && s.configure.phase
        != ConfigurePhase::Begin)
}

/// `core.worktree` was asked for.
pub open spec fn worktree_set(s: InitView) -> bool {
    ||| configuring_past(s, ConfigurePhase::WorkTree)
    ||| configuring_past(s, ConfigurePhase::Untracked)
    ||| configuring_past(s, ConfigurePhase::Excluding)
    ||| configuring_past(s, ConfigurePhase::Over)
}

/// `status.showUntrackedFiles` was asked for.
pub open spec fn untracked_set(s: InitView) -> bool {
    ||| configuring_past(s, ConfigurePhase::Untracked)
    ||| configuring_past(s, ConfigurePhase::Excluding)
    ||| configuring_past(s, ConfigurePhase::Over)
}

/// The exclude file was read.
pub open spec fn exclude_read(s: InitView) -> bool {
    ||| s.phase == InitPhase::Announcing
    ||| s.phase == InitPhase::Configuring && s.configure.phase == ConfigurePhase::Over
    ||| s.phase == InitPhase::Configuring && s.configure.phase == ConfigurePhase::Excluding
        && s.configure.exclusion.phase != ExclusionPhase::Begin
}

/// The exclude lines were asked to be appended, or were not needed.
pub open spec fn exclude_settled(s: InitView) -> bool {
    ||| s.phase == InitPhase::Announcing
    ||| s.phase == InitPhase::Configuring && s.configure.phase == ConfigurePhase::Over
    ||| s.phase == InitPhase::Configuring && s.configure.phase == ConfigurePhase::Excluding
        && (s.configure.exclusion.phase == ExclusionPhase::Appending || s.configure.exclusion.phase
        == ExclusionPhase::Over)
}

/// The addition being made is the one the read content calls for.
pub open spec fn addition_inv(s: InitView) -> bool {
    let e = s.configure.exclusion;
    (e.phase == ExclusionPhase::Creating || e.phase == ExclusionPhase::Appending)
        ==> repository_addition(e.existing) == Some(e.addition)
}

/// What one step does to the record of what `madm init` has asked for.
#[verifier::rlimit(80)]
proof fn lemma_init_step_records(s: InitView, r: ReplyView)
    requires
        init_inv(s),
        addition_inv(s),
    ensures
        ({
            let (t, p) = InitRun::next(s, r);
            &&& init_inv(t)
            &&& addition_inv(t)
            &&& made(t) && !made(s) ==> p == init_request(s.home)
            &&& bare_set(t) && !bare_set(s) ==> p == bare_request(s.home)
            &&& worktree_set(t) && !worktree_set(s) ==> p == worktree_request(s.home)
            &&& untracked_set(t) && !untracked_set(s) ==> p == untracked_request(s.home)
            &&& exclude_read(t) && !exclude_read(s) ==> p == read_request(s.home)
            &&& exclude_settled(t) && !exclude_settled(s) ==> (p == append_request(
                s.home,
                t.configure.exclusion.existing,
            ) || repository_addition(t.configure.exclusion.existing) is None)
            &&& exclude_settled(t) && exclude_settled(s) ==> t.configure.exclusion.existing
                == s.configure.exclusion.existing
            &&& p == ProgressView::<i32>::Done(Ok(0)) ==> s.phase == InitPhase::Announcing
                && t.phase == InitPhase::Over && t.configure == s.configure
        }),
{
    lemma_init_touches_only_the_repository(s, r);
}

/// After `madm init` is over, further replies change nothing of its
/// configuration.
proof fn lemma_init_over_keeps(s: InitView, replies: Seq<ReplyView>)
    requires
        s.phase == InitPhase::Over,
    ensures
        init_run(s, replies).0.configure == s.configure,
    decreases replies.len(),
{
    if replies.len() > 0 {
        lemma_init_over_keeps(InitRun::next(s, replies[0]).0, replies.drop_first());
    }
}

proof fn lemma_init_run_records(s: InitView, replies: Seq<ReplyView>)
    requires
        init_inv(s),
        addition_inv(s),
    ensures
        ({
            let (u, outs) = init_run(s, replies);
            let c = u.configure.exclusion.existing;
            outs.contains(ProgressView::<i32>::Done(Ok(0))) ==> {
                &&& made(s) || outs.contains(init_request(s.home))
                &&& bare_set(s) || outs.contains(bare_request(s.home))
                &&& worktree_set(s) || outs.contains(worktree_request(s.home))
                &&& untracked_set(s) || outs.contains(untracked_request(s.home))
                &&& exclude_read(s) || outs.contains(read_request(s.home))
                &&& (exclude_settled(s) && c == s.configure.exclusion.existing) || repository_addition(c) is None
                    || outs.contains(append_request(s.home, c))
            }
        }),
    decreases replies.len(),
{
    if replies.len() > 0 {
        let (t, p) = InitRun::next(s, replies[0]);
        let rest = replies.drop_first();
        let (u, ps) = init_run(t, rest);
        let outs = seq![p] + ps;
        assert(init_run(s, replies) == (u, outs));
        lemma_init_step_records(s, replies[0]);
        lemma_init_run_records(t, rest);
        if outs.contains(ProgressView::<i32>::Done(Ok(0))) {
            let k = choose|k: int| 0 <= k < outs.len() && outs[k] == ProgressView::<i32>::Done(Ok(0));
            if k == 0 {
                lemma_init_over_keeps(t, rest);
            } else {
                assert(ps[k - 1] == outs[k]);
                assert(ps.contains(ProgressView::<i32>::Done(Ok(0))));
                assert(outs[0] == p);
                assert forall|x: ProgressView<i32>| ps.contains(x) implies outs.contains(x) by {
                    let j = choose|j: int| 0 <= j < ps.len() && ps[j] == x;
                    assert(outs[j + 1] == x);
                }
                assert(outs.contains(p));
            }
        }
    }
}

/// The whole of `madm init`. Once it has ended with exit code 0, it has
/// run `git init --bare <repository>`, set `core.bare=false`,
/// `core.worktree=<home>` and `status.showUntrackedFiles=no`, read the
/// repository's `info/exclude`, and appended the repository's own pattern
/// unless that content already had it, so the file then has the pattern.
/// An existing repository path ends it at once, with nothing else asked.
pub proof fn lemma_init_law(home: Seq<u8>, replies: Seq<ReplyView>, k: PathKind)
    ensures
        ({
            let (u, outs) = init_run(InitRun::initial(home), replies);
            let c = u.configure.exclusion.existing;
            outs.contains(ProgressView::<i32>::Done(Ok(0))) ==> {
                &&& outs.contains(init_request(home))
                &&& outs.contains(bare_request(home))
                &&& outs.contains(worktree_request(home))
                &&& outs.contains(untracked_request(home))
                &&& outs.contains(read_request(home))
                &&& has_line(c, bytes_of_spec(REPOSITORY_EXCLUDE_PATTERN@)) || {
                    &&& outs.contains(append_request(home, c))
                    &&& has_line(c + repository_addition(c)->0, bytes_of_spec(REPOSITORY_EXCLUDE_PATTERN@))
                }
            }
        }),
        init_run(InitRun::initial(home), seq![ReplyView::Start, ReplyView::Kind(k)]).1 == seq![
            ProgressView::<i32>::Ask(RequestView::Inspect(repository_path(home))),
            ProgressView::<i32>::Done(Err((existing_message(home), 1))),
        ],
{
    lemma_init_starts_well(home);
    lemma_init_run_records(InitRun::initial(home), replies);
    let (u, outs) = init_run(InitRun::initial(home), replies);
    lemma_repository_exclusion_idempotent(u.configure.exclusion.existing);
    let two = seq![ReplyView::Start, ReplyView::Kind(k)];
    let s0 = InitRun::initial(home);
    let (s1, p1) = InitRun::next(s0, ReplyView::Start);
    let (s2, p2) = InitRun::next(s1, ReplyView::Kind(k));
    assert(two.drop_first() =~= seq![ReplyView::Kind(k)]);
    assert(seq![ReplyView::Kind(k)].drop_first() =~= Seq::<ReplyView>::empty());
    assert(init_run(s2, Seq::empty()).1 =~= Seq::<ProgressView<i32>>::empty());
    assert(init_run(s1, seq![ReplyView::Kind(k)]).1 =~= seq![p2]);
    assert(init_run(s0, two).1 =~= seq![p1, p2]);
}

} // verus!
