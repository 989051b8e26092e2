use vstd::prelude::*;

use crate::cli::word;
use crate::commands::init::existing_message;
use crate::commands::parents::{
    cleanup_failed_setup, Cleanup, CleanupView, ParentCreation, ParentsView,
};
use crate::commands::resolve::{pseudo_ref_args, pseudo_ref_request};
use crate::commands::setup::{
    io_error, reserved_args, reserved_check, reserved_request, reserved_result, tree_reserved_args,
    tree_reserved_check, tree_reserved_request, tree_reserved_result, Configure, ConfigureView,
};
use crate::commands::steps::{
    answer_is, answer_letter, append_path, append_path_lines, ask_git, copy_bytes, git_request,
    path_lines, raw_request, word_list, words_of, words_then_path,
};
use crate::context::{join, join_path, repository_path, Context};
use crate::error::MadmError;
use crate::git::{
    code_of, concat_bytes, is_success, output_error, output_error_view, process_error,
    process_error_view, push_arg, raw_call, status_code, status_error, status_error_view, succeeded,
};
use crate::host::{
    error_view, ErrorView, FailureKind, PathKind, Progress, ProgressView, Reply, ReplyView, Request,
    RequestView,
};
use crate::path::{
    nul_paths, nul_paths_spec, unexpected, unexpected_reply, BlockerSearch, BlockerSearchView,
    SearchStep, SearchStepView,
};
use crate::text::{bytes_of, lossy, lossy_text, same_bytes};

verus! {

/// The sequence without repeats, each element kept where it first occurs.
pub open spec fn unique(s: Seq<Seq<u8>>) -> Seq<Seq<u8>>
    decreases s.len(),
{
    if s.len() == 0 {
        s
    } else {
        let u = unique(s.drop_last());
        if u.contains(s.last()) {
            u
        } else {
            u.push(s.last())
        }
    }
}

fn contains_path(paths: &Vec<Vec<u8>>, path: &[u8]) -> (res: bool)
    ensures
        res == paths.deep_view().contains(path@),
{
    let mut i: usize = 0;
    while i < paths.len()
        invariant
            i <= paths@.len(),
            forall|j: int| 0 <= j < i ==> #[trigger] paths.deep_view()[j] != path@,
        decreases paths@.len() - i,
    {
        assert(paths.deep_view()[i as int] =~= paths@[i as int]@);
        if same_bytes(paths[i].as_slice(), path) {
            assert(paths.deep_view()[i as int] == path@);
            return true;
        }
        i = i + 1;
    }
    false
}

/// The paths of both lists, each once, in order of first occurrence.
pub fn merge_unique_paths(first: Vec<Vec<u8>>, second: Vec<Vec<u8>>) -> (res: Vec<Vec<u8>>)
    ensures
        res.deep_view() == unique(first.deep_view() + second.deep_view()),
{
    let ghost want = first.deep_view() + second.deep_view();
    let mut all = first;
    let mut second = second;
    all.append(&mut second);
    assert(all.deep_view() =~= want);
    let mut out: Vec<Vec<u8>> = Vec::new();
    let mut k: usize = 0;
    assert(want.take(0) =~= Seq::<Seq<u8>>::empty());
    while k < all.len()
        invariant
            k <= all@.len(),
            all.deep_view() == want,
            out.deep_view() == unique(want.take(k as int)),
        decreases all@.len() - k,
    {
        let item = vstd::slice::slice_to_vec(all[k].as_slice());
        assert(item@ == want[k as int]) by {
            assert(all@[k as int].deep_view() =~= all@[k as int]@);
        }
        assert(want.take(k + 1).drop_last() =~= want.take(k as int));
        assert(want.take(k + 1).last() == item@);
        if !contains_path(&out, item.as_slice()) {
            let ghost before = out.deep_view();
            let ghost iv = item@;
            out.push(item);
            assert(out@.last().deep_view() =~= iv);
            assert(out.deep_view() =~= before.push(iv));
        }
        k = k + 1;
    }
    assert(want.take(k as int) =~= want);
    out
}

/// Removing repeats keeps every element and repeats none.
pub proof fn lemma_unique(s: Seq<Seq<u8>>)
    ensures
        unique(s).no_duplicates(),
        forall|x: Seq<u8>| #[trigger] unique(s).contains(x) <==> s.contains(x),
    decreases s.len(),
{
    if s.len() > 0 {
        lemma_unique(s.drop_last());
        let u = unique(s.drop_last());
        assert forall|x: Seq<u8>| #[trigger] unique(s).contains(x) <==> s.contains(x) by {
            if s.contains(x) && !s.drop_last().contains(x) {
                let i = choose|i: int| 0 <= i < s.len() && s[i] == x;
                if i < s.len() - 1 {
                    assert(s.drop_last()[i] == x);
                }
            }
            if s.drop_last().contains(x) {
                let i = choose|i: int| 0 <= i < s.drop_last().len() && s.drop_last()[i] == x;
                assert(s[i] == x);
            }
            if !u.contains(s.last()) {
                assert(u.push(s.last()).last() == s.last());
                if u.push(s.last()).contains(x) && x != s.last() {
                    let i = choose|i: int| 0 <= i < u.push(s.last()).len() && u.push(s.last())[i] == x;
                    assert(u[i] == x);
                }
                if u.contains(x) {
                    let i = choose|i: int| 0 <= i < u.len() && u[i] == x;
                    assert(u.push(s.last())[i] == x);
                }
            }
        }
    }
}

/// Where the review of differing local files stands.
#[derive(Copy, Clone, Debug, PartialEq, Eq, Structural)]
pub enum ReconcilePhase {
    Begin,
    Prompting,
    Replacing,
    Diffing,
    Warned,
    Announced,
    Reporting,
    Over,
}

/// Going through the cloned paths that differ from local files
/// (`reconcile_existing_files`): each is kept unless the user asks for the
/// remote version.
pub struct Reconcile {
    context: Context,
    interactive: bool,
    paths: Vec<Vec<u8>>,
    index: usize,
    phase: ReconcilePhase,
}

pub struct ReconcileView {
    pub home: Seq<u8>,
    pub interactive: bool,
    pub paths: Seq<Seq<u8>>,
    pub index: int,
    pub phase: ReconcilePhase,
}

pub open spec fn keep_prompt(path: Seq<u8>) -> Seq<char> {
    lossy_text(path) + " differs [Enter=keep local, a=keep all, r=remote, m=difftool, q=quit]: "@
}

/// `git checkout -- <path>`: the remote version of one path.
pub open spec fn checkout_args(path: Seq<u8>) -> Seq<Seq<u8>> {
    words_of(seq!["checkout", "--"]).push(path)
}

/// `git difftool --no-prompt -- <path>`.
pub open spec fn difftool_args(path: Seq<u8>) -> Seq<Seq<u8>> {
    words_of(seq!["difftool", "--no-prompt", "--"]).push(path)
}

pub open spec fn kept_all_text(paths: Seq<Seq<u8>>) -> Seq<char> {
    "Kept differing local files untouched and unstaged:\n"@ + path_lines(paths)
        + "Run 'madm diff' or 'madm compare' to review them.\n"@
}

pub open spec fn kept_rest_text(paths: Seq<Seq<u8>>) -> Seq<char> {
    "Kept remaining local files untouched and unstaged:\n"@ + path_lines(paths)
}

impl Reconcile {
    pub closed spec fn view(&self) -> ReconcileView {
        ReconcileView {
            home: self.context.home_path(),
            interactive: self.interactive,
            paths: self.paths.deep_view(),
            index: self.index as int,
            phase: self.phase,
        }
    }

    pub open spec fn initial(home: Seq<u8>, interactive: bool, paths: Seq<Seq<u8>>) -> ReconcileView {
        ReconcileView { home, interactive, paths, index: 0, phase: ReconcilePhase::Begin }
    }

    pub open spec fn valid(s: ReconcileView) -> bool {
        &&& 0 <= s.index
        &&& s.phase != ReconcilePhase::Begin && s.phase != ReconcilePhase::Over && s.phase
            != ReconcilePhase::Reporting ==> s.index < s.paths.len()
    }

    pub open spec fn prompt(s: ReconcileView) -> (ReconcileView, ProgressView<()>) {
        (
            ReconcileView { phase: ReconcilePhase::Prompting, ..s },
            ProgressView::Ask(RequestView::Ask(keep_prompt(s.paths[s.index]))),
        )
    }

    pub open spec fn advance(s: ReconcileView) -> (ReconcileView, ProgressView<()>) {
        if s.index + 1 < s.paths.len() {
            Self::prompt(ReconcileView { index: s.index + 1, ..s })
        } else {
            (ReconcileView { phase: ReconcilePhase::Over, ..s }, ProgressView::Done(Ok(())))
        }
    }

    pub open spec fn say(s: ReconcileView, phase: ReconcilePhase, text: Seq<char>) -> (
        ReconcileView,
        ProgressView<()>,
    ) {
        (ReconcileView { phase, ..s }, ProgressView::Ask(RequestView::Say(text)))
    }

    /// One step of the review. Without a terminal every differing file is
    /// kept and listed. Enter keeps the current file, `a` and `q` keep all
    /// remaining ones, `r` checks out the remote version of this path only,
    /// `m` runs the diff tool and leaves its result unstaged.
    pub open spec fn next(s: ReconcileView, r: ReplyView) -> (ReconcileView, ProgressView<()>) {
        let over = ReconcileView { phase: ReconcilePhase::Over, ..s };
        let p = s.paths[s.index];
        match s.phase {
            ReconcilePhase::Begin => if s.paths.len() == 0 {
                (over, ProgressView::Done(Ok(())))
            } else if !s.interactive {
                Self::say(s, ReconcilePhase::Reporting, kept_all_text(s.paths))
            } else {
                Self::prompt(ReconcileView { index: 0, ..s })
            },
            ReconcilePhase::Prompting => match r {
                ReplyView::Refused(e) => (over, ProgressView::Done(Err(e))),
                ReplyView::Answer(a) => if a.len() == 0 {
                    Self::say(
                        s,
                        ReconcilePhase::Announced,
                        "Kept "@ + lossy_text(p) + " untouched and unstaged.\n"@,
                    )
                } else if answer_is(a, 'a') || answer_is(a, 'q') {
                    Self::say(s, ReconcilePhase::Reporting, kept_rest_text(s.paths.skip(s.index)))
                } else if answer_is(a, 'r') {
                    (
                        ReconcileView { phase: ReconcilePhase::Replacing, ..s },
                        ask_git(s.home, checkout_args(p), false),
                    )
                } else if answer_is(a, 'm') {
                    (
                        ReconcileView { phase: ReconcilePhase::Diffing, ..s },
                        ask_git(s.home, difftool_args(p), false),
                    )
                } else {
                    (
                        ReconcileView { phase: ReconcilePhase::Warned, ..s },
                        ProgressView::Ask(
                            RequestView::Complain("madm: choose Enter, a, r, m, or q"@),
                        ),
                    )
                },
                _ => (over, ProgressView::Done(Err(unexpected_reply()))),
            },
            ReconcilePhase::Replacing => match r {
                ReplyView::Failed(k, d) => (over, ProgressView::Done(Err(process_error_view(k, d)))),
                ReplyView::Ran(o) => if !succeeded(o) {
                    (
                        over,
                        ProgressView::Done(
                            Err(
                                status_error_view(
                                    "replace "@ + lossy_text(p) + " with the remote version"@,
                                    o.code,
                                ),
                            ),
                        ),
                    )
                } else {
                    Self::say(
                        s,
                        ReconcilePhase::Announced,
                        "Replaced "@ + lossy_text(p) + " with the remote version.\n"@,
                    )
                },
                _ => (over, ProgressView::Done(Err(unexpected_reply()))),
            },
            ReconcilePhase::Diffing => match r {
                ReplyView::Failed(k, d) => (over, ProgressView::Done(Err(process_error_view(k, d)))),
                ReplyView::Ran(o) => if succeeded(o) {
                    Self::say(
                        s,
                        ReconcilePhase::Announced,
                        "Left the difftool result for "@ + lossy_text(p) + " unstaged.\n"@,
                    )
                } else {
                    (
                        ReconcileView { phase: ReconcilePhase::Warned, ..s },
                        ProgressView::Ask(
                            RequestView::Complain(
                                "madm: the configured Git diff tool failed for "@ + lossy_text(p)
                                    + "; choose another action"@,
                            ),
                        ),
                    )
                },
                _ => (over, ProgressView::Done(Err(unexpected_reply()))),
            },
            ReconcilePhase::Warned => match r {
                ReplyView::Ack => Self::prompt(s),
                _ => (over, ProgressView::Done(Err(unexpected_reply()))),
            },
            ReconcilePhase::Announced => match r {
                ReplyView::Ack => Self::advance(s),
                _ => (over, ProgressView::Done(Err(unexpected_reply()))),
            },
            ReconcilePhase::Reporting => match r {
                ReplyView::Ack => (over, ProgressView::Done(Ok(()))),
                _ => (over, ProgressView::Done(Err(unexpected_reply()))),
            },
            ReconcilePhase::Over => (over, ProgressView::Done(Err(unexpected_reply()))),
        }
    }

    pub fn new(context: &Context, interactive: bool, paths: Vec<Vec<u8>>) -> (res: Reconcile)
        ensures
            res.view() == Self::initial(context.home_path(), interactive, paths.deep_view()),
            Self::valid(res.view()),
    {
        Reconcile { context: context.copy(), interactive, paths, index: 0, phase: ReconcilePhase::Begin }
    }

    fn current_text(&self, first: &str, second: &str) -> (res: String)
        requires
            self.index < self.paths@.len(),
        ensures
            res@ == first@ + lossy_text(self.view().paths[self.index as int]) + second@,
    {
        proof {
            assert(self.paths@[self.index as int].deep_view() =~= self.paths@[self.index as int]@);
        }
        let mut text = String::from_str(first);
        append_path(&mut text, self.paths[self.index].as_slice());
        text.append(second);
        text
    }

    fn prompt_exec(&mut self) -> (res: Progress<()>)
        requires
            old(self).index < old(self).paths@.len(),
        ensures
            (final(self).view(), res@) == Self::prompt(old(self).view()),
    {
        self.phase = ReconcilePhase::Prompting;
        let text = self.current_text(
            "",
            " differs [Enter=keep local, a=keep all, r=remote, m=difftool, q=quit]: ",
        );
        proof {
            reveal_strlit("");
            assert(text@ =~= keep_prompt(self.view().paths[self.index as int]));
        }
        Progress::Ask(Request::Ask(text))
    }

    fn path_call(&self, words: &[&str]) -> (res: Request)
        requires
            self.index < self.paths@.len(),
        ensures
            res@ == RequestView::RunGit(
                crate::git::git_call(
                    self.view().home,
                    words_of(words@).push(self.view().paths[self.index as int]),
                    false,
                ),
            ),
    {
        proof {
            assert(self.paths@[self.index as int].deep_view() =~= self.paths@[self.index as int]@);
        }
        let args = words_then_path(words, self.paths[self.index].as_slice());
        git_request(&self.context, args, false)
    }

    pub fn step(&mut self, reply: Reply) -> (res: Progress<()>)
        requires
            Self::valid(old(self).view()),
        ensures
            (final(self).view(), res@) == Self::next(old(self).view(), reply@),
            Self::valid(final(self).view()),
    {
        let ghost s = self.view();
        match self.phase {
            ReconcilePhase::Begin => {
                if self.paths.len() == 0 {
                    self.phase = ReconcilePhase::Over;
                    Progress::Done(Ok(()))
                } else if !self.interactive {
                    self.phase = ReconcilePhase::Reporting;
                    let mut text = String::from_str("Kept differing local files untouched and unstaged:\n");
                    append_path_lines(&mut text, &self.paths, 0);
                    text.append("Run 'madm diff' or 'madm compare' to review them.\n");
                    assert(self.paths.deep_view().skip(0) =~= self.paths.deep_view());
                    Progress::Ask(Request::Say(text))
                } else {
                    self.index = 0;
                    self.prompt_exec()
                }
            },
            ReconcilePhase::Prompting => {
                let answer = match reply {
                    Reply::Refused(e) => {
                        self.phase = ReconcilePhase::Over;
                        return Progress::Done(Err(e));
                    },
                    Reply::Answer(a) => a,
                    _ => {
                        self.phase = ReconcilePhase::Over;
                        return Progress::Done(Err(unexpected()));
                    },
                };
                let letter = answer_letter(answer.as_str());
                if answer.as_str().unicode_len() == 0 {
                    self.phase = ReconcilePhase::Announced;
                    Progress::Ask(Request::Say(self.current_text("Kept ", " untouched and unstaged.\n")))
                } else if letter == Some('a') || letter == Some('q') {
                    self.phase = ReconcilePhase::Reporting;
                    let mut text = String::from_str("Kept remaining local files untouched and unstaged:\n");
                    append_path_lines(&mut text, &self.paths, self.index);
                    Progress::Ask(Request::Say(text))
                } else if letter == Some('r') {
                    self.phase = ReconcilePhase::Replacing;
                    Progress::Ask(self.path_call(&["checkout", "--"]))
                } else if letter == Some('m') {
                    self.phase = ReconcilePhase::Diffing;
                    Progress::Ask(self.path_call(&["difftool", "--no-prompt", "--"]))
                } else {
                    self.phase = ReconcilePhase::Warned;
                    Progress::Ask(Request::Complain(String::from_str("madm: choose Enter, a, r, m, or q")))
                }
            },
            ReconcilePhase::Replacing | ReconcilePhase::Diffing => {
                let outcome = match reply {
                    Reply::Failed(f) => {
                        self.phase = ReconcilePhase::Over;
                        return Progress::Done(Err(process_error(&f)));
                    },
                    Reply::Ran(o) => o,
                    _ => {
                        self.phase = ReconcilePhase::Over;
                        return Progress::Done(Err(unexpected()));
                    },
                };
                let ok = crate::git::is_success(&outcome);
                if self.phase == ReconcilePhase::Replacing {
                    if !ok {
                        let action = self.current_text("replace ", " with the remote version");
                        self.phase = ReconcilePhase::Over;
                        return Progress::Done(Err(status_error(action.as_str(), outcome.code)));
                    }
                    self.phase = ReconcilePhase::Announced;
                    Progress::Ask(Request::Say(self.current_text("Replaced ", " with the remote version.\n")))
                } else if ok {
                    self.phase = ReconcilePhase::Announced;
                    Progress::Ask(Request::Say(self.current_text("Left the difftool result for ", " unstaged.\n")))
                } else {
                    self.phase = ReconcilePhase::Warned;
                    Progress::Ask(
                        Request::Complain(
                            self.current_text(
                                "madm: the configured Git diff tool failed for ",
                                "; choose another action",
                            ),
                        ),
                    )
                }
            },
            ReconcilePhase::Warned => match reply {
                Reply::Ack => self.prompt_exec(),
                _ => {
                    self.phase = ReconcilePhase::Over;
                    Progress::Done(Err(unexpected()))
                },
            },
            ReconcilePhase::Announced => match reply {
                Reply::Ack => {
                    if self.index < self.paths.len() - 1 {
                        self.index = self.index + 1;
                        self.prompt_exec()
                    } else {
                        self.phase = ReconcilePhase::Over;
                        Progress::Done(Ok(()))
                    }
                },
                _ => {
                    self.phase = ReconcilePhase::Over;
                    Progress::Done(Err(unexpected()))
                },
            },
            ReconcilePhase::Reporting => {
                self.phase = ReconcilePhase::Over;
                match reply {
                    Reply::Ack => Progress::Done(Ok(())),
                    _ => Progress::Done(Err(unexpected())),
                }
            },
            ReconcilePhase::Over => Progress::Done(Err(unexpected())),
        }
    }
}

/// A local file is replaced only by the answer `r` for that very file:
/// the only Git runs of the review check out or diff the current path, and
/// nothing is ever staged.
pub proof fn lemma_replace_only_on_request(s: ReconcileView, r: ReplyView)
    requires
        Reconcile::valid(s),
    ensures
        ({
            let (t, p) = Reconcile::next(s, r);
            &&& t.phase == ReconcilePhase::Replacing && s.phase != ReconcilePhase::Replacing
                ==> (s.phase == ReconcilePhase::Prompting && (r matches ReplyView::Answer(a)
                && answer_is(a, 'r')) && p == ask_git::<()>(s.home, checkout_args(s.paths[s.index]), false))
            &&& p matches ProgressView::Ask(RequestView::RunGit(c)) ==> (c == crate::git::git_call(
                s.home,
                checkout_args(s.paths[s.index]),
                false,
            ) || c == crate::git::git_call(s.home, difftool_args(s.paths[s.index]), false))
        }),
{
}

/// Without a terminal no Git command runs: every differing file is kept.
pub proof fn lemma_unattended_keeps_everything(s: ReconcileView, r: ReplyView)
    requires
        !s.interactive,
        s.phase == ReconcilePhase::Begin || s.phase == ReconcilePhase::Reporting
            || s.phase == ReconcilePhase::Over,
    ensures
        ({
            let (t, p) = Reconcile::next(s, r);
            &&& t.phase == ReconcilePhase::Reporting || t.phase == ReconcilePhase::Over
            &&& !(p matches ProgressView::Ask(RequestView::RunGit(_)))
        }),
{
}

/// Where the checks of a freshly cloned repository stand.
#[derive(Copy, Clone, Debug, PartialEq, Eq, Structural)]
pub enum ClonedPhase {
    Configuring,
    Head,
    TreeCheck,
    Reset,
    Reserved,
    Over,
}

/// `prepare_cloned_repository`: configures the clone; when it has a
/// commit, that commit must not track the repository's path, the index is
/// filled from it, and the index must not track that path either.
pub struct ClonedPreparation {
    context: Context,
    phase: ClonedPhase,
    configure: Configure,
}

pub struct ClonedView {
    pub home: Seq<u8>,
    pub phase: ClonedPhase,
    pub configure: ConfigureView,
}

/// `git reset --quiet -- :/`.
pub open spec fn reset_args() -> Seq<Seq<u8>> {
    words_of(seq!["reset", "--quiet", "--", ":/"])
}

impl ClonedPreparation {
    pub closed spec fn view(&self) -> ClonedView {
        ClonedView { home: self.context.home_path(), phase: self.phase, configure: self.configure.view() }
    }

    pub open spec fn initial(home: Seq<u8>) -> ClonedView {
        ClonedView { home, phase: ClonedPhase::Configuring, configure: Configure::initial(home) }
    }

    pub open spec fn next(s: ClonedView, r: ReplyView) -> (ClonedView, ProgressView<()>) {
        let over = ClonedView { phase: ClonedPhase::Over, ..s };
        match s.phase {
            ClonedPhase::Configuring => {
                let (cv, p) = Configure::next(s.configure, r);
                let t = ClonedView { configure: cv, ..s };
                match p {
                    ProgressView::Ask(q) => (t, ProgressView::Ask(q)),
                    ProgressView::Done(Err(e)) => (ClonedView { phase: ClonedPhase::Over, ..t }, ProgressView::Done(Err(e))),
                    ProgressView::Done(Ok(_)) => (
                        ClonedView { phase: ClonedPhase::Head, ..t },
                        ask_git(s.home, pseudo_ref_args("HEAD"@), true),
                    ),
                }
            },
            ClonedPhase::Over => (over, ProgressView::Done(Err(unexpected_reply()))),
            _ => match r {
                ReplyView::Failed(k, d) => (over, ProgressView::Done(Err(process_error_view(k, d)))),
                ReplyView::Ran(o) => match s.phase {
                    ClonedPhase::Head => if succeeded(o) {
                        (ClonedView { phase: ClonedPhase::TreeCheck, ..s }, ask_git(s.home, tree_reserved_args("HEAD"@), true))
                    } else {
                        (over, ProgressView::Done(Ok(())))
                    },
                    ClonedPhase::TreeCheck => match tree_reserved_result("HEAD"@, o) {
                        Err(e) => (over, ProgressView::Done(Err(e))),
                        Ok(_) => (ClonedView { phase: ClonedPhase::Reset, ..s }, ask_git(s.home, reset_args(), false)),
                    },
                    ClonedPhase::Reset => if !succeeded(o) {
                        (over, ProgressView::Done(Err(status_error_view("populate the cloned repository index"@, o.code))))
                    } else {
                        (ClonedView { phase: ClonedPhase::Reserved, ..s }, ask_git(s.home, reserved_args(), true))
                    },
                    _ => match reserved_result(o) {
                        Err(e) => (over, ProgressView::Done(Err(e))),
                        Ok(_) => (over, ProgressView::Done(Ok(()))),
                    },
                },
                _ => (over, ProgressView::Done(Err(unexpected_reply()))),
            },
        }
    }

    pub fn new(context: &Context) -> (res: ClonedPreparation)
        ensures
            res.view() == Self::initial(context.home_path()),
    {
        ClonedPreparation { context: context.copy(), phase: ClonedPhase::Configuring, configure: Configure::new(context) }
    }

    pub fn step(&mut self, reply: Reply) -> (res: Progress<()>)
        ensures
            (final(self).view(), res@) == Self::next(old(self).view(), reply@),
    {
        let phase = self.phase;
        match phase {
            ClonedPhase::Configuring => {
                return match self.configure.step(reply) {
                    Progress::Ask(q) => Progress::Ask(q),
                    Progress::Done(Err(e)) => {
                        self.phase = ClonedPhase::Over;
                        Progress::Done(Err(e))
                    },
                    Progress::Done(Ok(())) => {
                        self.phase = ClonedPhase::Head;
                        Progress::Ask(pseudo_ref_request(&self.context, "HEAD"))
                    },
                };
            },
            ClonedPhase::Over => {
                return Progress::Done(Err(unexpected()));
            },
            _ => {},
        }
        self.phase = ClonedPhase::Over;
        let o = match reply {
            Reply::Failed(f) => {
                return Progress::Done(Err(process_error(&f)));
            },
            Reply::Ran(o) => o,
            _ => {
                return Progress::Done(Err(unexpected()));
            },
        };
        match phase {
            ClonedPhase::Head => {
                if is_success(&o) {
                    self.phase = ClonedPhase::TreeCheck;
                    Progress::Ask(tree_reserved_request(&self.context, "HEAD"))
                } else {
                    Progress::Done(Ok(()))
                }
            },
            ClonedPhase::TreeCheck => match tree_reserved_check("HEAD", &o) {
                Err(e) => Progress::Done(Err(e)),
                Ok(()) => {
                    self.phase = ClonedPhase::Reset;
                    let args = word_list(&["reset", "--quiet", "--", ":/"]);
                    Progress::Ask(git_request(&self.context, args, false))
                },
            },
            ClonedPhase::Reset => {
                if !is_success(&o) {
                    Progress::Done(Err(status_error("populate the cloned repository index", o.code)))
                } else {
                    self.phase = ClonedPhase::Reserved;
                    Progress::Ask(reserved_request(&self.context))
                }
            },
            _ => match reserved_check(&o) {
                Err(e) => Progress::Done(Err(e)),
                Ok(()) => Progress::Done(Ok(())),
            },
        }
    }
}

/// `git ls-files --deleted -z`: tracked files missing from the home.
pub open spec fn missing_args() -> Seq<Seq<u8>> {
    words_of(seq!["ls-files", "--deleted", "-z"])
}

/// `git ls-files --modified -z`: tracked files that differ locally.
pub open spec fn modified_args() -> Seq<Seq<u8>> {
    words_of(seq!["ls-files", "--modified", "-z"])
}

pub open spec fn unsafe_checkout_text(path: Seq<u8>) -> Seq<char> {
    "madm: could not safely check out "@ + lossy_text(path) + "; the local path was left untouched"@
}

/// Where installing the missing cloned files stands.
#[derive(Copy, Clone, Debug, PartialEq, Eq, Structural)]
pub enum MissingPhase {
    Begin,
    Listing,
    Searching,
    CheckingOut,
    Complaining,
    Over,
}

/// `checkout_missing_files`: each tracked file missing from the home is
/// checked out unless a local path is in its way; the paths left out are
/// the result.
pub struct CheckoutMissing {
    context: Context,
    phase: MissingPhase,
    missing: Vec<Vec<u8>>,
    index: usize,
    search: BlockerSearch,
    conflicts: Vec<Vec<u8>>,
}

pub struct MissingView {
    pub home: Seq<u8>,
    pub phase: MissingPhase,
    pub missing: Seq<Seq<u8>>,
    pub index: int,
    pub search: BlockerSearchView,
    pub conflicts: Seq<Seq<u8>>,
}

impl CheckoutMissing {
    pub closed spec fn view(&self) -> MissingView {
        MissingView {
            home: self.context.home_path(),
            phase: self.phase,
            missing: self.missing.deep_view(),
            index: self.index as int,
            search: self.search.view(),
            conflicts: self.conflicts.deep_view(),
        }
    }

    pub open spec fn initial(home: Seq<u8>) -> MissingView {
        MissingView {
            home,
            phase: MissingPhase::Begin,
            missing: Seq::empty(),
            index: 0,
            search: BlockerSearch::initial(home, Seq::empty()),
            conflicts: Seq::empty(),
        }
    }

    pub open spec fn valid(s: MissingView) -> bool {
        (s.phase == MissingPhase::Searching || s.phase == MissingPhase::CheckingOut || s.phase
            == MissingPhase::Complaining) ==> 0 <= s.index < s.missing.len()
    }

    /// Starts on the path at `index`, or ends with the paths left out.
    pub open spec fn visit(s: MissingView) -> (MissingView, ProgressView<Seq<Seq<u8>>>)
        decreases s.missing.len() - s.index, 1int,
    {
        if s.index >= s.missing.len() {
            (
                MissingView { phase: MissingPhase::Over, conflicts: Seq::empty(), ..s },
                ProgressView::Done(Ok(s.conflicts)),
            )
        } else {
            let (bv, st) = BlockerSearch::next(BlockerSearch::initial(s.home, s.missing[s.index]), ReplyView::Start);
            Self::after_search(MissingView { search: bv, ..s }, st)
        }
    }

    /// A path with a local path in its way is left out; a free one is
    /// checked out.
    pub open spec fn after_search(s: MissingView, st: SearchStepView) -> (MissingView, ProgressView<Seq<Seq<u8>>>)
        decreases s.missing.len() - s.index, 0int,
    {
        if s.index >= s.missing.len() {
            (MissingView { phase: MissingPhase::Over, ..s }, ProgressView::Done(Err(unexpected_reply())))
        } else {
            match st {
                SearchStepView::Ask(q) => (MissingView { phase: MissingPhase::Searching, ..s }, ProgressView::Ask(q)),
                SearchStepView::Found(Err(e)) => (MissingView { phase: MissingPhase::Over, ..s }, ProgressView::Done(Err(e))),
                SearchStepView::Found(Ok(Some(_))) => Self::visit(
                    MissingView { conflicts: s.conflicts.push(s.missing[s.index]), index: s.index + 1, ..s },
                ),
                SearchStepView::Found(Ok(None)) => (
                    MissingView { phase: MissingPhase::CheckingOut, ..s },
                    ask_git(s.home, checkout_args(s.missing[s.index]), false),
                ),
            }
        }
    }

    pub open spec fn next(s: MissingView, r: ReplyView) -> (MissingView, ProgressView<Seq<Seq<u8>>>) {
        let over = MissingView { phase: MissingPhase::Over, ..s };
        match s.phase {
            MissingPhase::Begin => (MissingView { phase: MissingPhase::Listing, ..s }, ask_git(s.home, missing_args(), true)),
            MissingPhase::Searching => {
                let (bv, st) = BlockerSearch::next(s.search, r);
                Self::after_search(MissingView { search: bv, ..s }, st)
            },
            MissingPhase::Complaining => match r {
                ReplyView::Ack => Self::visit(
                    MissingView { conflicts: s.conflicts.push(s.missing[s.index]), index: s.index + 1, ..s },
                ),
                _ => (over, ProgressView::Done(Err(unexpected_reply()))),
            },
            MissingPhase::Over => (over, ProgressView::Done(Err(unexpected_reply()))),
            _ => match r {
                ReplyView::Failed(k, d) => (over, ProgressView::Done(Err(process_error_view(k, d)))),
                ReplyView::Ran(o) => if s.phase == MissingPhase::Listing {
                    if !succeeded(o) {
                        (over, ProgressView::Done(Err(output_error_view("list missing cloned files"@, o))))
                    } else {
                        Self::visit(MissingView { missing: nul_paths_spec(o.stdout), index: 0, ..s })
                    }
                } else if succeeded(o) {
                    Self::visit(MissingView { index: s.index + 1, ..s })
                } else {
                    (
                        MissingView { phase: MissingPhase::Complaining, ..s },
                        ProgressView::Ask(RequestView::Complain(unsafe_checkout_text(s.missing[s.index]))),
                    )
                },
                _ => (over, ProgressView::Done(Err(unexpected_reply()))),
            },
        }
    }

    pub fn new(context: &Context) -> (res: CheckoutMissing)
        ensures
            res.view() == Self::initial(context.home_path()),
            Self::valid(res.view()),
    {
        let empty: Vec<u8> = Vec::new();
        let res = CheckoutMissing {
            context: context.copy(),
            phase: MissingPhase::Begin,
            missing: Vec::new(),
            index: 0,
            search: BlockerSearch::new(context.home(), empty.as_slice()),
            conflicts: Vec::new(),
        };
        assert(res.view().missing =~= Seq::<Seq<u8>>::empty());
        assert(res.view().conflicts =~= Seq::<Seq<u8>>::empty());
        assert(res.view().search == BlockerSearch::initial(context.home_path(), Seq::empty())) by {
            assert(empty@ =~= Seq::<u8>::empty());
        }
        res
    }

    /// Leaves the current path out and moves past it.
    fn skip_current(&mut self)
        requires
            old(self).index < old(self).missing@.len(),
        ensures
            final(self).view() == (MissingView {
                conflicts: old(self).view().conflicts.push(old(self).view().missing[old(self).view().index]),
                index: old(self).view().index + 1,
                ..old(self).view()
            }),
    {
        proof {
            assert(self.missing@[self.index as int].deep_view() =~= self.missing@[self.index as int]@);
        }
        let n = self.missing.len();
        let path = copy_bytes(self.missing[self.index].as_slice());
        let ghost before = self.conflicts.deep_view();
        let ghost p = path@;
        self.conflicts.push(path);
        assert(self.conflicts@.last().deep_view() =~= p);
        assert(self.conflicts.deep_view() =~= before.push(p));
        self.index = self.index + 1;
    }

    fn finish_exec(&mut self) -> (res: Progress<Vec<Vec<u8>>>)
        ensures
            final(self).view() == (MissingView { phase: MissingPhase::Over, conflicts: Seq::empty(), ..old(self).view() }),
            res@ == ProgressView::<Seq<Seq<u8>>>::Done(Ok(old(self).view().conflicts)),
    {
        self.phase = MissingPhase::Over;
        let mut conflicts: Vec<Vec<u8>> = Vec::new();
        std::mem::swap(&mut conflicts, &mut self.conflicts);
        assert(self.conflicts.deep_view() =~= Seq::<Seq<u8>>::empty());
        Progress::Done(Ok(conflicts))
    }

    fn checkout_exec(&mut self) -> (res: Progress<Vec<Vec<u8>>>)
        requires
            old(self).index < old(self).missing@.len(),
        ensures
            final(self).view() == (MissingView { phase: MissingPhase::CheckingOut, ..old(self).view() }),
            res@ == ask_git::<Seq<Seq<u8>>>(
                old(self).view().home,
                checkout_args(old(self).view().missing[old(self).view().index]),
                false,
            ),
    {
        self.phase = MissingPhase::CheckingOut;
        proof {
            assert(self.missing@[self.index as int].deep_view() =~= self.missing@[self.index as int]@);
        }
        let args = words_then_path(&["checkout", "--"], self.missing[self.index].as_slice());
        Progress::Ask(git_request(&self.context, args, false))
    }

    fn visit_exec(&mut self) -> (res: Progress<Vec<Vec<u8>>>)
        ensures
            (final(self).view(), res@) == Self::visit(old(self).view()),
            Self::valid(final(self).view()),
    {
        let ghost target = Self::visit(self.view());
        loop
            invariant
                Self::visit(self.view()) == target,
                target == Self::visit(old(self).view()),
            decreases self.missing@.len() - self.index,
        {
            let n = self.missing.len();
            assert(self.missing.deep_view().len() == n);
            if self.index >= n {
                return self.finish_exec();
            }
            proof {
                assert(self.missing@[self.index as int].deep_view() =~= self.missing@[self.index as int]@);
            }
            self.search = BlockerSearch::new(self.context.home(), self.missing[self.index].as_slice());
            let st = self.search.step(Reply::Start);
            match st {
                SearchStep::Ask(q) => {
                    self.phase = MissingPhase::Searching;
                    return Progress::Ask(q);
                },
                SearchStep::Found(Err(e)) => {
                    self.phase = MissingPhase::Over;
                    return Progress::Done(Err(e));
                },
                SearchStep::Found(Ok(Some(_))) => {
                    self.skip_current();
                },
                SearchStep::Found(Ok(None)) => {
                    return self.checkout_exec();
                },
            }
        }
    }

    fn after_search_exec(&mut self, st: SearchStep) -> (res: Progress<Vec<Vec<u8>>>)
        requires
            old(self).index < old(self).missing@.len(),
        ensures
            (final(self).view(), res@) == Self::after_search(old(self).view(), st@),
            Self::valid(final(self).view()),
    {
        let n = self.missing.len();
        assert(self.missing.deep_view().len() == n);
        match st {
            SearchStep::Ask(q) => {
                self.phase = MissingPhase::Searching;
                Progress::Ask(q)
            },
            SearchStep::Found(Err(e)) => {
                self.phase = MissingPhase::Over;
                Progress::Done(Err(e))
            },
            SearchStep::Found(Ok(Some(_))) => {
                self.skip_current();
                self.visit_exec()
            },
            SearchStep::Found(Ok(None)) => self.checkout_exec(),
        }
    }

    pub fn step(&mut self, reply: Reply) -> (res: Progress<Vec<Vec<u8>>>)
        requires
            Self::valid(old(self).view()),
        ensures
            (final(self).view(), res@) == Self::next(old(self).view(), reply@),
            Self::valid(final(self).view()),
    {
        let phase = self.phase;
        match phase {
            MissingPhase::Begin => {
                self.phase = MissingPhase::Listing;
                let args = word_list(&["ls-files", "--deleted", "-z"]);
                return Progress::Ask(git_request(&self.context, args, true));
            },
            MissingPhase::Searching => {
                let st = self.search.step(reply);
                return self.after_search_exec(st);
            },
            MissingPhase::Complaining => {
                return match reply {
                    Reply::Ack => {
                        self.skip_current();
                        self.visit_exec()
                    },
                    _ => {
                        self.phase = MissingPhase::Over;
                        Progress::Done(Err(unexpected()))
                    },
                };
            },
            MissingPhase::Over => {
                return Progress::Done(Err(unexpected()));
            },
            _ => {},
        }
        let o = match reply {
            Reply::Failed(f) => {
                self.phase = MissingPhase::Over;
                return Progress::Done(Err(process_error(&f)));
            },
            Reply::Ran(o) => o,
            _ => {
                self.phase = MissingPhase::Over;
                return Progress::Done(Err(unexpected()));
            },
        };
        if phase == MissingPhase::Listing {
            if !is_success(&o) {
                self.phase = MissingPhase::Over;
                return Progress::Done(Err(output_error("list missing cloned files", &o)));
            }
            self.missing = nul_paths(o.stdout.as_slice());
            self.index = 0;
            return self.visit_exec();
        }
        let n = self.missing.len();
        if is_success(&o) {
            self.index = self.index + 1;
            self.visit_exec()
        } else {
            self.phase = MissingPhase::Complaining;
            proof {
                assert(self.missing@[self.index as int].deep_view() =~= self.missing@[self.index as int]@);
            }
            let mut text = String::from_str("madm: could not safely check out ");
            append_path(&mut text, self.missing[self.index].as_slice());
            text.append("; the local path was left untouched");
            Progress::Ask(Request::Complain(text))
        }
    }
}

/// The request that checks out the tracked version of `path`.
pub open spec fn missing_checkout(home: Seq<u8>, path: Seq<u8>) -> ProgressView<Seq<Seq<u8>>> {
    ask_git(home, words_of(seq!["checkout", "--"]).push(path), false)
}

/// The steps of installing the missing files, one reply each.
pub open spec fn missing_run(s: MissingView, replies: Seq<ReplyView>) -> (
    MissingView,
    Seq<ProgressView<Seq<Seq<u8>>>>,
)
    decreases replies.len(),
{
    if replies.len() == 0 {
        (s, Seq::empty())
    } else {
        let (t, p) = CheckoutMissing::next(s, replies[0]);
        let (u, ps) = missing_run(t, replies.drop_first());
        (u, seq![p] + ps)
    }
}

/// Every listed path before `index` is left out or was asked to be checked
/// out, and only listed paths are left out.
pub open spec fn missing_handled(s: MissingView, hist: Seq<ProgressView<Seq<Seq<u8>>>>) -> bool {
    &&& forall|i: int|
        0 <= i < s.index && i < s.missing.len() ==> s.conflicts.contains(#[trigger] s.missing[i])
            || hist.contains(missing_checkout(s.home, s.missing[i]))
    &&& forall|j: int| 0 <= j < s.conflicts.len() ==> s.missing.contains(#[trigger] s.conflicts[j])
}

pub open spec fn missing_active(s: MissingView, hist: Seq<ProgressView<Seq<Seq<u8>>>>) -> bool {
    &&& s.phase == MissingPhase::Searching || s.phase == MissingPhase::CheckingOut || s.phase
        == MissingPhase::Complaining
    &&& 0 <= s.index < s.missing.len()
    &&& missing_handled(s, hist)
    &&& s.phase != MissingPhase::Searching ==> hist.contains(missing_checkout(s.home, s.missing[s.index]))
}

pub open spec fn missing_inv(s: MissingView, hist: Seq<ProgressView<Seq<Seq<u8>>>>) -> bool {
    match s.phase {
        MissingPhase::Begin | MissingPhase::Listing => s.conflicts.len() == 0,
        MissingPhase::Over => true,
        _ => missing_active(s, hist),
    }
}

/// What a finished run left out, `c`, against the listed paths: each one
/// is left out or was asked to be checked out, and only listed paths are
/// left out.
pub open spec fn missing_complete(
    home: Seq<u8>,
    listed: Seq<Seq<u8>>,
    c: Seq<Seq<u8>>,
    hist: Seq<ProgressView<Seq<Seq<u8>>>>,
) -> bool {
    &&& forall|i: int|
        0 <= i < listed.len() ==> c.contains(#[trigger] listed[i]) || hist.contains(
            missing_checkout(home, listed[i]),
        )
    &&& forall|j: int| 0 <= j < c.len() ==> listed.contains(#[trigger] c[j])
}

pub open spec fn missing_step_ok(
    s: MissingView,
    t: MissingView,
    p: ProgressView<Seq<Seq<u8>>>,
    hist: Seq<ProgressView<Seq<Seq<u8>>>>,
) -> bool {
    &&& t.home == s.home
    &&& p is Done ==> t.phase == MissingPhase::Over
    &&& missing_inv(t, hist.push(p))
    &&& p matches ProgressView::Done(Ok(c)) ==> missing_complete(t.home, t.missing, c, hist.push(p))
}

proof fn lemma_history_grows<T>(h: Seq<T>, p: T)
    ensures
        forall|x: T| h.contains(x) ==> #[trigger] h.push(p).contains(x),
        h.push(p).contains(p),
{
    assert forall|x: T| h.contains(x) implies #[trigger] h.push(p).contains(x) by {
        let k = choose|k: int| 0 <= k < h.len() && h[k] == x;
        assert(h.push(p)[k] == x);
    }
    assert(h.push(p)[h.len() as int] == p);
}

proof fn lemma_missing_visit(s: MissingView, hist: Seq<ProgressView<Seq<Seq<u8>>>>)
    requires
        0 <= s.index,
        missing_handled(s, hist),
    ensures
        ({
            let (t, p) = CheckoutMissing::visit(s);
            &&& t.missing == s.missing
            &&& t.phase != MissingPhase::Begin && t.phase != MissingPhase::Listing
            &&& missing_step_ok(s, t, p, hist)
        }),
    decreases s.missing.len() - s.index, 1int,
{
    let (t, p) = CheckoutMissing::visit(s);
    lemma_history_grows(hist, p);
    if s.index < s.missing.len() {
        let (bv, st) = BlockerSearch::next(BlockerSearch::initial(s.home, s.missing[s.index]), ReplyView::Start);
        lemma_missing_after_search(MissingView { search: bv, ..s }, st, hist);
    } else {
        assert forall|i: int| 0 <= i < s.missing.len() implies s.conflicts.contains(#[trigger] s.missing[i])
            || hist.push(p).contains(missing_checkout(s.home, s.missing[i])) by {}
    }
}

proof fn lemma_missing_after_search(
    s: MissingView,
    st: SearchStepView,
    hist: Seq<ProgressView<Seq<Seq<u8>>>>,
)
    requires
        0 <= s.index,
        missing_handled(s, hist),
    ensures
        ({
            let (t, p) = CheckoutMissing::after_search(s, st);
            &&& t.missing == s.missing
            &&& t.phase != MissingPhase::Begin && t.phase != MissingPhase::Listing
            &&& missing_step_ok(s, t, p, hist)
        }),
    decreases s.missing.len() - s.index, 0int,
{
    let (t, p) = CheckoutMissing::after_search(s, st);
    lemma_history_grows(hist, p);
    if s.index < s.missing.len() {
        match st {
            SearchStepView::Found(Ok(Some(_))) => {
                let u = MissingView { conflicts: s.conflicts.push(s.missing[s.index]), index: s.index + 1, ..s };
                lemma_missing_pass_over(s, hist);
                lemma_missing_visit(u, hist);
            },
            _ => {},
        }
    }
}

/// Leaving out the current path keeps every earlier path handled.
proof fn lemma_missing_pass_over(s: MissingView, hist: Seq<ProgressView<Seq<Seq<u8>>>>)
    requires
        0 <= s.index < s.missing.len(),
        missing_handled(s, hist),
    ensures
        missing_handled(
            MissingView { conflicts: s.conflicts.push(s.missing[s.index]), index: s.index + 1, ..s },
            hist,
        ),
{
    let u = MissingView { conflicts: s.conflicts.push(s.missing[s.index]), index: s.index + 1, ..s };
    lemma_history_grows(s.conflicts, s.missing[s.index]);
    assert forall|j: int| 0 <= j < u.conflicts.len() implies u.missing.contains(#[trigger] u.conflicts[j]) by {
        if j == s.conflicts.len() {
            assert(u.missing[s.index] == u.conflicts[j]);
        } else {
            assert(u.conflicts[j] == s.conflicts[j]);
        }
    }
}

proof fn lemma_missing_step(s: MissingView, r: ReplyView, hist: Seq<ProgressView<Seq<Seq<u8>>>>)
    requires
        missing_inv(s, hist),
    ensures
        ({
            let (t, p) = CheckoutMissing::next(s, r);
            &&& missing_step_ok(s, t, p, hist)
            &&& s.phase != MissingPhase::Begin && s.phase != MissingPhase::Listing ==> t.missing == s.missing
                && t.phase != MissingPhase::Begin && t.phase != MissingPhase::Listing
            &&& s.phase == MissingPhase::Listing && !(p is Done) ==> (r is Ran && t.missing
                == nul_paths_spec(r->Ran_0.stdout))
            &&& (s.phase == MissingPhase::Listing && p is Done && p->Done_0 is Ok) ==> (r is Ran
                && t.missing == nul_paths_spec(r->Ran_0.stdout))
        }),
{
    let (t, p) = CheckoutMissing::next(s, r);
    lemma_history_grows(hist, p);
    match s.phase {
        MissingPhase::Searching => {
            let (bv, st) = BlockerSearch::next(s.search, r);
            lemma_missing_after_search(MissingView { search: bv, ..s }, st, hist);
        },
        MissingPhase::Complaining => {
            if r is Ack {
                lemma_missing_pass_over(s, hist);
                lemma_missing_visit(
                    MissingView { conflicts: s.conflicts.push(s.missing[s.index]), index: s.index + 1, ..s },
                    hist,
                );
            }
        },
        MissingPhase::Listing => {
            if let ReplyView::Ran(o) = r {
                if succeeded(o) {
                    lemma_missing_visit(MissingView { missing: nul_paths_spec(o.stdout), index: 0, ..s }, hist);
                }
            }
        },
        MissingPhase::CheckingOut => {
            if let ReplyView::Ran(o) = r {
                if succeeded(o) {
                    let u = MissingView { index: s.index + 1, ..s };
                    assert(missing_handled(u, hist));
                    lemma_missing_visit(u, hist);
                }
            }
        },
        _ => {},
    }
}

proof fn lemma_missing_over_stays(s: MissingView, replies: Seq<ReplyView>)
    requires
        s.phase == MissingPhase::Over,
    ensures
        forall|c: Seq<Seq<u8>>|
            !(#[trigger] missing_run(s, replies).1.contains(ProgressView::Done(Ok(c)))),
    decreases replies.len(),
{
    if replies.len() > 0 {
        let (t, p) = CheckoutMissing::next(s, replies[0]);
        let rest = replies.drop_first();
        lemma_missing_over_stays(t, rest);
        let outs = missing_run(s, replies).1;
        assert(outs == seq![p] + missing_run(t, rest).1);
        assert forall|c: Seq<Seq<u8>>| !(#[trigger] outs.contains(ProgressView::Done(Ok(c)))) by {
            if outs.contains(ProgressView::Done(Ok(c))) {
                let k = choose|k: int| 0 <= k < outs.len() && outs[k] == ProgressView::<Seq<Seq<u8>>>::Done(Ok(c));
                if k > 0 {
                    assert(missing_run(t, rest).1[k - 1] == outs[k]);
                    assert(missing_run(t, rest).1.contains(ProgressView::Done(Ok(c))));
                }
            }
        }
    }
}

proof fn lemma_missing_run(
    s: MissingView,
    replies: Seq<ReplyView>,
    hist: Seq<ProgressView<Seq<Seq<u8>>>>,
    c: Seq<Seq<u8>>,
)
    requires
        missing_inv(s, hist),
        s.phase != MissingPhase::Begin && s.phase != MissingPhase::Listing,
        missing_run(s, replies).1.contains(ProgressView::Done(Ok(c))),
    ensures
        missing_complete(s.home, s.missing, c, hist + missing_run(s, replies).1),
    decreases replies.len(),
{
    let (t, p) = CheckoutMissing::next(s, replies[0]);
    let rest = replies.drop_first();
    let outs = missing_run(s, replies).1;
    let more = missing_run(t, rest).1;
    assert(outs == seq![p] + more);
    lemma_missing_step(s, replies[0], hist);
    assert(hist + outs =~= hist.push(p) + more);
    let k = choose|k: int| 0 <= k < outs.len() && outs[k] == ProgressView::<Seq<Seq<u8>>>::Done(Ok(c));
    if k == 0 {
        lemma_seq_prefix_contains(hist.push(p), more);
    } else {
        assert(more[k - 1] == outs[k]);
        assert(more.contains(ProgressView::Done(Ok(c))));
        if t.phase == MissingPhase::Over {
            lemma_missing_over_stays(t, rest);
        } else {
            lemma_missing_run(t, rest, hist.push(p), c);
        }
    }
}

proof fn lemma_seq_prefix_contains<T>(a: Seq<T>, b: Seq<T>)
    ensures
        forall|x: T| a.contains(x) ==> #[trigger] (a + b).contains(x),
{
    assert forall|x: T| a.contains(x) implies #[trigger] (a + b).contains(x) by {
        let k = choose|k: int| 0 <= k < a.len() && a[k] == x;
        assert((a + b)[k] == x);
    }
}

/// Starting on a path leaves out nothing by itself: a blocker is only
/// found after a local path was inspected.
proof fn lemma_missing_start_keeps(u: MissingView)
    requires
        0 <= u.index,
    ensures
        ({
            let (t, p) = CheckoutMissing::visit(u);
            &&& (p is Done && p->Done_0 is Ok) ==> p->Done_0->Ok_0 == u.conflicts
            &&& !(p is Done) ==> t.conflicts == u.conflicts
        }),
{
    if u.index < u.missing.len() {
        let (bv, st) = BlockerSearch::next(BlockerSearch::initial(u.home, u.missing[u.index]), ReplyView::Start);
        assert(!(st is Found && st->Found_0 is Ok && st->Found_0->Ok_0 is Some));
    }
}

/// A missing path is handled by what its blocker search finds: with
/// nothing in the way it is checked out with `git checkout -- <path>` and
/// not left out; with a local path in the way it is left out. A path whose
/// checkout worked is not left out.
pub proof fn lemma_missing_paths_follow_the_search(s: MissingView, r: ReplyView)
    requires
        CheckoutMissing::valid(s),
    ensures
        ({
            let st = BlockerSearch::next(s.search, r).1;
            let (t, p) = CheckoutMissing::next(s, r);
            &&& s.phase == MissingPhase::Searching && st == SearchStepView::Found(Ok(None)) ==> {
                &&& p == ask_git::<Seq<Seq<u8>>>(
                    s.home,
                    words_of(seq!["checkout", "--"]).push(s.missing[s.index]),
                    false,
                )
                &&& t.conflicts == s.conflicts
            }
            &&& (s.phase == MissingPhase::Searching && st is Found && st->Found_0 is Ok
                && st->Found_0->Ok_0 is Some) ==> {
                &&& (p is Done && p->Done_0 is Ok) ==> p->Done_0->Ok_0 == s.conflicts.push(
                    s.missing[s.index],
                )
                &&& !(p is Done) ==> t.conflicts == s.conflicts.push(s.missing[s.index])
            }
            &&& (s.phase == MissingPhase::CheckingOut && r is Ran && succeeded(r->Ran_0)) ==> {
                &&& (p is Done && p->Done_0 is Ok) ==> p->Done_0->Ok_0 == s.conflicts
                &&& !(p is Done) ==> t.conflicts == s.conflicts
            }
        }),
{
    match s.phase {
        MissingPhase::Searching => {
            let (bv, st) = BlockerSearch::next(s.search, r);
            lemma_missing_start_keeps(
                MissingView { search: bv, conflicts: s.conflicts.push(s.missing[s.index]), index: s.index + 1, ..s },
            );
        },
        MissingPhase::CheckingOut => {
            lemma_missing_start_keeps(MissingView { index: s.index + 1, ..s });
        },
        _ => {},
    }
}

/// When installing the missing files succeeds with the paths `c` left
/// out, every path that `git ls-files --deleted -z` listed is either in
/// `c` or was asked to be checked out with `git checkout -- <path>`, and
/// `c` holds only listed paths.
pub proof fn lemma_missing_files_all_handled(home: Seq<u8>, replies: Seq<ReplyView>, c: Seq<Seq<u8>>)
    requires
        replies.len() >= 2,
        replies[1] is Ran,
    ensures
        ({
            let outs = missing_run(CheckoutMissing::initial(home), replies).1;
            let listed = nul_paths_spec(replies[1]->Ran_0.stdout);
            outs.contains(ProgressView::Done(Ok(c))) ==> {
                &&& forall|i: int|
                    0 <= i < listed.len() ==> c.contains(#[trigger] listed[i]) || outs.contains(
                        ask_git(home, words_of(seq!["checkout", "--"]).push(listed[i]), false),
                    )
                &&& forall|j: int| 0 <= j < c.len() ==> listed.contains(#[trigger] c[j])
            }
        }),
{
    let s0 = CheckoutMissing::initial(home);
    let e = Seq::<ProgressView<Seq<Seq<u8>>>>::empty();
    let (s1, p1) = CheckoutMissing::next(s0, replies[0]);
    let r1 = replies.drop_first();
    let (s2, p2) = CheckoutMissing::next(s1, r1[0]);
    let r2 = r1.drop_first();
    let outs = missing_run(s0, replies).1;
    let more = missing_run(s2, r2).1;
    assert(r1[0] == replies[1]);
    assert(missing_run(s1, r1).1 == seq![p2] + more);
    assert(outs == seq![p1] + (seq![p2] + more));
    lemma_missing_step(s0, replies[0], e);
    lemma_missing_step(s1, r1[0], e.push(p1));
    let h2 = e.push(p1).push(p2);
    assert(outs =~= h2 + more);
    if outs.contains(ProgressView::Done(Ok(c))) {
        let k = choose|k: int| 0 <= k < outs.len() && outs[k] == ProgressView::<Seq<Seq<u8>>>::Done(Ok(c));
        if k == 0 {
        } else if k == 1 {
            lemma_seq_prefix_contains(h2, more);
        } else {
            assert(more[k - 2] == outs[k]);
            assert(more.contains(ProgressView::Done(Ok(c))));
            if s2.phase == MissingPhase::Over {
                lemma_missing_over_stays(s2, r2);
            } else {
                lemma_missing_run(s2, r2, h2, c);
            }
        }
    }
}

/// `git clone --no-checkout --separate-git-dir=<repository> <url> <temp>/checkout`,
/// run outside any repository.
pub open spec fn clone_args(home: Seq<u8>, url: Seq<u8>, temp: Seq<u8>) -> Seq<Seq<u8>> {
    words_of(seq!["clone", "--no-checkout"]).push(word("--separate-git-dir="@) + repository_path(home)).push(
        url,
    ).push(join(temp, word("checkout"@)))
}

pub open spec fn cloned_text(home: Seq<u8>) -> Seq<char> {
    "Cloned madm repository into "@ + lossy_text(repository_path(home)) + "\n"@
}

/// Where `madm clone` stands.
#[derive(Copy, Clone, Debug, PartialEq, Eq, Structural)]
pub enum ClonePhase {
    Begin,
    Inspecting,
    MakingTemp,
    Parents,
    Cloning,
    Preparing,
    Removing,
    RemovingAgain,
    CleaningUp,
    Dropping,
    Missing,
    Modified,
    Announcing,
    Reconciling,
    Over,
}

/// `madm clone <url>`: clones into the fixed repository path without a
/// checkout, installs the missing files that nothing local is in the way
/// of, and leaves every differing local file as it is unless the user asks
/// for the remote version. A failed setup is removed again.
pub struct CloneRun {
    context: Context,
    url: Vec<u8>,
    interactive: bool,
    phase: ClonePhase,
    temp: Vec<u8>,
    temp_live: bool,
    parents: ParentCreation,
    created: Vec<Vec<u8>>,
    cleanup: Cleanup,
    prepared: ClonedPreparation,
    missing: CheckoutMissing,
    conflicts: Vec<Vec<u8>>,
    reconcile: Reconcile,
    pending: MadmError,
}

pub struct CloneView {
    pub home: Seq<u8>,
    pub url: Seq<u8>,
    pub interactive: bool,
    pub phase: ClonePhase,
    pub temp: Seq<u8>,
    pub temp_live: bool,
    pub parents: ParentsView,
    pub created: Seq<Seq<u8>>,
    pub cleanup: CleanupView,
    pub prepared: ClonedView,
    pub missing: MissingView,
    pub conflicts: Seq<Seq<u8>>,
    pub reconcile: ReconcileView,
    pub pending: ErrorView,
}

/// Starts `madm clone` of `url` for the home directory of `context`.
pub fn run(context: &Context, url: Vec<u8>, interactive: bool) -> (res: CloneRun)
    ensures
        res.view() == CloneRun::initial(context.home_path(), url@, interactive),
        CloneRun::valid(res.view()),
{
    let res = CloneRun {
        context: context.copy(),
        url,
        interactive,
        phase: ClonePhase::Begin,
        temp: Vec::new(),
        temp_live: false,
        parents: ParentCreation::new(context),
        created: Vec::new(),
        cleanup: cleanup_failed_setup(context, Vec::new(), MadmError::new(String::new())),
        prepared: ClonedPreparation::new(context),
        missing: CheckoutMissing::new(context),
        conflicts: Vec::new(),
        reconcile: Reconcile::new(context, interactive, Vec::new()),
        pending: MadmError::new(String::new()),
    };
    assert(res.view().created =~= Seq::<Seq<u8>>::empty());
    assert(res.view().conflicts =~= Seq::<Seq<u8>>::empty());
    assert(res.view().temp =~= Seq::<u8>::empty());
    assert(res.view().cleanup == Cleanup::initial(context.home_path(), Seq::empty(), (Seq::empty(), 1)));
    assert(res.view().reconcile == Reconcile::initial(context.home_path(), interactive, Seq::empty()));
    res
}

impl CloneRun {
    pub closed spec fn view(&self) -> CloneView {
        CloneView {
            home: self.context.home_path(),
            url: self.url@,
            interactive: self.interactive,
            phase: self.phase,
            temp: self.temp@,
            temp_live: self.temp_live,
            parents: self.parents.view(),
            created: self.created.deep_view(),
            cleanup: self.cleanup.view(),
            prepared: self.prepared.view(),
            missing: self.missing.view(),
            conflicts: self.conflicts.deep_view(),
            reconcile: self.reconcile.view(),
            pending: error_view(self.pending),
        }
    }

    pub open spec fn initial(home: Seq<u8>, url: Seq<u8>, interactive: bool) -> CloneView {
        CloneView {
            home,
            url,
            interactive,
            phase: ClonePhase::Begin,
            temp: Seq::empty(),
            temp_live: false,
            parents: ParentCreation::initial(home),
            created: Seq::empty(),
            cleanup: Cleanup::initial(home, Seq::empty(), (Seq::empty(), 1)),
            prepared: ClonedPreparation::initial(home),
            missing: CheckoutMissing::initial(home),
            conflicts: Seq::empty(),
            reconcile: Reconcile::initial(home, interactive, Seq::empty()),
            pending: (Seq::empty(), 1),
        }
    }

    pub open spec fn valid(s: CloneView) -> bool {
        CheckoutMissing::valid(s.missing) && Reconcile::valid(s.reconcile)
    }

    /// Removes the temporary directory, whatever comes of it, and fails with `e`.
    pub open spec fn drop_temp(s: CloneView, e: ErrorView) -> (CloneView, ProgressView<i32>) {
        (
            CloneView { phase: ClonePhase::Dropping, pending: e, temp_live: false, ..s },
            ProgressView::Ask(RequestView::DropTemp),
        )
    }

    pub open spec fn cleaning(s: CloneView, r: ReplyView) -> (CloneView, ProgressView<i32>) {
        let (cv, p) = Cleanup::next(s.cleanup, r);
        let t = CloneView { cleanup: cv, ..s };
        match p {
            ProgressView::Ask(q) => (CloneView { phase: ClonePhase::CleaningUp, ..t }, ProgressView::Ask(q)),
            ProgressView::Done(Err(e)) => if s.temp_live {
                Self::drop_temp(t, e)
            } else {
                (CloneView { phase: ClonePhase::Over, ..t }, ProgressView::Done(Err(e)))
            },
            ProgressView::Done(Ok(c)) => (CloneView { phase: ClonePhase::Over, ..t }, ProgressView::Done(Ok(c))),
        }
    }

    /// Fails with `e` after removing what the setup made.
    pub open spec fn fail(s: CloneView, e: ErrorView) -> (CloneView, ProgressView<i32>) {
        Self::cleaning(
            CloneView { cleanup: Cleanup::initial(s.home, s.created, e), created: Seq::empty(), ..s },
            ReplyView::Start,
        )
    }

    pub open spec fn parenting(s: CloneView, r: ReplyView) -> (CloneView, ProgressView<i32>) {
        let (pv, p) = ParentCreation::next(s.parents, r);
        let t = CloneView { parents: pv, ..s };
        match p {
            ProgressView::Ask(q) => (CloneView { phase: ClonePhase::Parents, ..t }, ProgressView::Ask(q)),
            ProgressView::Done(Err(e)) => Self::drop_temp(t, e),
            ProgressView::Done(Ok(c)) => (
                CloneView { phase: ClonePhase::Cloning, created: c, ..t },
                ProgressView::Ask(RequestView::RunGit(raw_call(clone_args(s.home, s.url, s.temp), false))),
            ),
        }
    }

    pub open spec fn preparing(s: CloneView, r: ReplyView) -> (CloneView, ProgressView<i32>) {
        let (pv, p) = ClonedPreparation::next(s.prepared, r);
        let t = CloneView { prepared: pv, ..s };
        match p {
            ProgressView::Ask(q) => (CloneView { phase: ClonePhase::Preparing, ..t }, ProgressView::Ask(q)),
            ProgressView::Done(Err(e)) => Self::fail(t, e),
            ProgressView::Done(Ok(_)) => (
                CloneView { phase: ClonePhase::Removing, temp_live: false, ..t },
                ProgressView::Ask(RequestView::DropTemp),
            ),
        }
    }

    pub open spec fn checking(s: CloneView, r: ReplyView) -> (CloneView, ProgressView<i32>) {
        let (mv, p) = CheckoutMissing::next(s.missing, r);
        let t = CloneView { missing: mv, ..s };
        match p {
            ProgressView::Ask(q) => (CloneView { phase: ClonePhase::Missing, ..t }, ProgressView::Ask(q)),
            ProgressView::Done(Err(e)) => (CloneView { phase: ClonePhase::Over, ..t }, ProgressView::Done(Err(e))),
            ProgressView::Done(Ok(c)) => (
                CloneView { phase: ClonePhase::Modified, conflicts: c, ..t },
                ask_git(s.home, modified_args(), true),
            ),
        }
    }

    pub open spec fn reconciling(s: CloneView, r: ReplyView) -> (CloneView, ProgressView<i32>) {
        let (rv, p) = Reconcile::next(s.reconcile, r);
        let t = CloneView { reconcile: rv, ..s };
        match p {
            ProgressView::Ask(q) => (CloneView { phase: ClonePhase::Reconciling, ..t }, ProgressView::Ask(q)),
            ProgressView::Done(Err(e)) => (CloneView { phase: ClonePhase::Over, ..t }, ProgressView::Done(Err(e))),
            ProgressView::Done(Ok(_)) => (CloneView { phase: ClonePhase::Over, ..t }, ProgressView::Done(Ok(0))),
        }
    }

    /// One step of `madm clone`. An existing repository path is never
    /// touched; until the clone is checked, every failure removes the
    /// repository path, the directories made for it and the temporary
    /// checkout directory.
    pub open spec fn next(s: CloneView, r: ReplyView) -> (CloneView, ProgressView<i32>) {
        let over = CloneView { phase: ClonePhase::Over, ..s };
        match s.phase {
            ClonePhase::Begin => (
                CloneView { phase: ClonePhase::Inspecting, ..s },
                ProgressView::Ask(RequestView::Inspect(repository_path(s.home))),
            ),
            ClonePhase::Inspecting => match r {
                ReplyView::Kind(_) => (over, ProgressView::Done(Err((existing_message(s.home), 1)))),
                ReplyView::Failed(k, d) => if k == FailureKind::NotFound {
                    (
                        CloneView { phase: ClonePhase::MakingTemp, ..s },
                        ProgressView::Ask(RequestView::MakeTemp("madm-clone"@)),
                    )
                } else {
                    (over, ProgressView::Done(Err(io_error("inspect repository path"@, d))))
                },
                _ => (over, ProgressView::Done(Err(unexpected_reply()))),
            },
            ClonePhase::MakingTemp => match r {
                ReplyView::Content(p) => Self::parenting(
                    CloneView { temp: p, temp_live: true, parents: ParentCreation::initial(s.home), ..s },
                    ReplyView::Start,
                ),
                ReplyView::Refused(e) => (over, ProgressView::Done(Err(e))),
                _ => (over, ProgressView::Done(Err(unexpected_reply()))),
            },
            ClonePhase::Parents => Self::parenting(s, r),
            ClonePhase::Cloning => match r {
                ReplyView::Failed(k, d) => Self::fail(s, process_error_view(k, d)),
                ReplyView::Ran(o) => if succeeded(o) {
                    Self::preparing(CloneView { prepared: ClonedPreparation::initial(s.home), ..s }, ReplyView::Start)
                } else {
                    Self::fail(s, ("Git could not clone the madm repository"@, code_of(o.code)))
                },
                _ => (over, ProgressView::Done(Err(unexpected_reply()))),
            },
            ClonePhase::Preparing => Self::preparing(s, r),
            ClonePhase::Removing => match r {
                ReplyView::Ack => Self::checking(CloneView { missing: CheckoutMissing::initial(s.home), ..s }, ReplyView::Start),
                ReplyView::Refused(e) => (
                    CloneView { phase: ClonePhase::RemovingAgain, pending: e, ..s },
                    ProgressView::Ask(RequestView::DropTemp),
                ),
                _ => (over, ProgressView::Done(Err(unexpected_reply()))),
            },
            ClonePhase::RemovingAgain => match r {
                ReplyView::Ack => Self::fail(CloneView { pending: (Seq::empty(), 1), ..s }, s.pending),
                ReplyView::Refused(_) => Self::fail(CloneView { pending: (Seq::empty(), 1), ..s }, s.pending),
                _ => (over, ProgressView::Done(Err(unexpected_reply()))),
            },
            ClonePhase::CleaningUp => Self::cleaning(s, r),
            ClonePhase::Dropping => match r {
                ReplyView::Ack => (
                    CloneView { pending: (Seq::empty(), 1), ..over },
                    ProgressView::Done(Err(s.pending)),
                ),
                ReplyView::Refused(_) => (
                    CloneView { pending: (Seq::empty(), 1), ..over },
                    ProgressView::Done(Err(s.pending)),
                ),
                _ => (over, ProgressView::Done(Err(unexpected_reply()))),
            },
            ClonePhase::Missing => Self::checking(s, r),
            ClonePhase::Modified => match r {
                ReplyView::Failed(k, d) => (over, ProgressView::Done(Err(process_error_view(k, d)))),
                ReplyView::Ran(o) => if !succeeded(o) {
                    (over, ProgressView::Done(Err(output_error_view("list differing cloned files"@, o))))
                } else {
                    (
                        CloneView {
                            phase: ClonePhase::Announcing,
                            reconcile: Reconcile::initial(
                                s.home,
                                s.interactive,
                                unique(s.conflicts + nul_paths_spec(o.stdout)),
                            ),
                            conflicts: Seq::empty(),
                            ..s
                        },
                        ProgressView::Ask(RequestView::Say(cloned_text(s.home))),
                    )
                },
                _ => (over, ProgressView::Done(Err(unexpected_reply()))),
            },
            ClonePhase::Announcing => match r {
                ReplyView::Ack => Self::reconciling(s, ReplyView::Start),
                _ => (over, ProgressView::Done(Err(unexpected_reply()))),
            },
            ClonePhase::Reconciling => Self::reconciling(s, r),
            ClonePhase::Over => (over, ProgressView::Done(Err(unexpected_reply()))),
        }
    }

    fn take_pending(&mut self) -> (res: MadmError)
        ensures
            final(self).view() == (CloneView { pending: (Seq::empty(), 1), ..old(self).view() }),
            error_view(res) == old(self).view().pending,
    {
        let mut e = MadmError::new(String::new());
        std::mem::swap(&mut e, &mut self.pending);
        e
    }

    fn drop_temp_exec(&mut self, e: MadmError) -> (res: Progress<i32>)
        ensures
            (final(self).view(), res@) == Self::drop_temp(old(self).view(), error_view(e)),
    {
        self.phase = ClonePhase::Dropping;
        self.pending = e;
        self.temp_live = false;
        Progress::Ask(Request::DropTemp)
    }

    fn cleaning_exec(&mut self, reply: Reply) -> (res: Progress<i32>)
        ensures
            (final(self).view(), res@) == Self::cleaning(old(self).view(), reply@),
    {
        match self.cleanup.step(reply) {
            Progress::Ask(q) => {
                self.phase = ClonePhase::CleaningUp;
                Progress::Ask(q)
            },
            Progress::Done(Err(e)) => {
                if self.temp_live {
                    self.drop_temp_exec(e)
                } else {
                    self.phase = ClonePhase::Over;
                    Progress::Done(Err(e))
                }
            },
            Progress::Done(Ok(c)) => {
                self.phase = ClonePhase::Over;
                Progress::Done(Ok(c))
            },
        }
    }

    fn fail_exec(&mut self, e: MadmError) -> (res: Progress<i32>)
        ensures
            (final(self).view(), res@) == Self::fail(old(self).view(), error_view(e)),
    {
        let mut created: Vec<Vec<u8>> = Vec::new();
        std::mem::swap(&mut created, &mut self.created);
        assert(self.created.deep_view() =~= Seq::<Seq<u8>>::empty());
        self.cleanup = cleanup_failed_setup(&self.context, created, e);
        self.cleaning_exec(Reply::Start)
    }

    fn parenting_exec(&mut self, reply: Reply) -> (res: Progress<i32>)
        ensures
            (final(self).view(), res@) == Self::parenting(old(self).view(), reply@),
    {
        match self.parents.step(reply) {
            Progress::Ask(q) => {
                self.phase = ClonePhase::Parents;
                Progress::Ask(q)
            },
            Progress::Done(Err(e)) => self.drop_temp_exec(e),
            Progress::Done(Ok(c)) => {
                self.phase = ClonePhase::Cloning;
                self.created = c;
                let mut args = word_list(&["clone", "--no-checkout"]);
                let flag = bytes_of("--separate-git-dir=");
                push_arg(&mut args, concat_bytes(flag.as_slice(), self.context.repository()));
                push_arg(&mut args, copy_bytes(self.url.as_slice()));
                let name = bytes_of("checkout");
                push_arg(&mut args, join_path(self.temp.as_slice(), name.as_slice()));
                Progress::Ask(raw_request(args, false))
            },
        }
    }

    fn preparing_exec(&mut self, reply: Reply) -> (res: Progress<i32>)
        ensures
            (final(self).view(), res@) == Self::preparing(old(self).view(), reply@),
    {
        match self.prepared.step(reply) {
            Progress::Ask(q) => {
                self.phase = ClonePhase::Preparing;
                Progress::Ask(q)
            },
            Progress::Done(Err(e)) => self.fail_exec(e),
            Progress::Done(Ok(())) => {
                self.phase = ClonePhase::Removing;
                self.temp_live = false;
                Progress::Ask(Request::DropTemp)
            },
        }
    }

    fn checking_exec(&mut self, reply: Reply) -> (res: Progress<i32>)
        requires
            Self::valid(old(self).view()),
        ensures
            (final(self).view(), res@) == Self::checking(old(self).view(), reply@),
            Self::valid(final(self).view()),
    {
        match self.missing.step(reply) {
            Progress::Ask(q) => {
                self.phase = ClonePhase::Missing;
                Progress::Ask(q)
            },
            Progress::Done(Err(e)) => {
                self.phase = ClonePhase::Over;
                Progress::Done(Err(e))
            },
            Progress::Done(Ok(c)) => {
                self.phase = ClonePhase::Modified;
                self.conflicts = c;
                let args = word_list(&["ls-files", "--modified", "-z"]);
                Progress::Ask(git_request(&self.context, args, true))
            },
        }
    }

    fn reconciling_exec(&mut self, reply: Reply) -> (res: Progress<i32>)
        requires
            Self::valid(old(self).view()),
        ensures
            (final(self).view(), res@) == Self::reconciling(old(self).view(), reply@),
            Self::valid(final(self).view()),
    {
        match self.reconcile.step(reply) {
            Progress::Ask(q) => {
                self.phase = ClonePhase::Reconciling;
                Progress::Ask(q)
            },
            Progress::Done(Err(e)) => {
                self.phase = ClonePhase::Over;
                Progress::Done(Err(e))
            },
            Progress::Done(Ok(())) => {
                self.phase = ClonePhase::Over;
                Progress::Done(Ok(0))
            },
        }
    }

    fn modified_exec(&mut self, reply: Reply) -> (res: Progress<i32>)
        requires
            Self::valid(old(self).view()),
            old(self).view().phase == ClonePhase::Modified,
        ensures
            (final(self).view(), res@) == Self::next(old(self).view(), reply@),
            Self::valid(final(self).view()),
    {
        self.phase = ClonePhase::Over;
        match reply {
            Reply::Failed(f) => Progress::Done(Err(process_error(&f))),
            Reply::Ran(o) => {
                if !is_success(&o) {
                    Progress::Done(Err(output_error("list differing cloned files", &o)))
                } else {
                    let modified = nul_paths(o.stdout.as_slice());
                    let mut conflicts: Vec<Vec<u8>> = Vec::new();
                    std::mem::swap(&mut conflicts, &mut self.conflicts);
                    assert(self.conflicts.deep_view() =~= Seq::<Seq<u8>>::empty());
                    let paths = merge_unique_paths(conflicts, modified);
                    self.reconcile = Reconcile::new(&self.context, self.interactive, paths);
                    self.phase = ClonePhase::Announcing;
                    let mut text = String::from_str("Cloned madm repository into ");
                    let shown = lossy(self.context.repository());
                    text.append(shown.as_str());
                    text.append("\n");
                    Progress::Ask(Request::Say(text))
                }
            },
            _ => Progress::Done(Err(unexpected())),
        }
    }

    #[verifier::rlimit(40)]
    pub fn step(&mut self, reply: Reply) -> (res: Progress<i32>)
        requires
            Self::valid(old(self).view()),
        ensures
            (final(self).view(), res@) == Self::next(old(self).view(), reply@),
            Self::valid(final(self).view()),
    {
        match self.phase {
            ClonePhase::Begin => {
                self.phase = ClonePhase::Inspecting;
                Progress::Ask(Request::Inspect(copy_bytes(self.context.repository())))
            },
            ClonePhase::Inspecting => {
                self.phase = ClonePhase::Over;
                match reply {
                    Reply::Kind(_) => {
                        let mut message = String::from_str("refusing to overwrite existing repository path: ");
                        let shown = lossy(self.context.repository());
                        message.append(shown.as_str());
                        Progress::Done(Err(MadmError::new(message)))
                    },
                    Reply::Failed(f) => {
                        if f.kind == FailureKind::NotFound {
                            self.phase = ClonePhase::MakingTemp;
                            Progress::Ask(Request::MakeTemp(String::from_str("madm-clone")))
                        } else {
                            Progress::Done(Err(MadmError::io("inspect repository path", f.detail.as_str())))
                        }
                    },
                    _ => Progress::Done(Err(unexpected())),
                }
            },
            ClonePhase::MakingTemp => match reply {
                Reply::Content(p) => {
                    self.temp = p;
                    self.temp_live = true;
                    self.parents = ParentCreation::new(&self.context);
                    self.parenting_exec(Reply::Start)
                },
                Reply::Refused(e) => {
                    self.phase = ClonePhase::Over;
                    Progress::Done(Err(e))
                },
                _ => {
                    self.phase = ClonePhase::Over;
                    Progress::Done(Err(unexpected()))
                },
            },
            ClonePhase::Parents => self.parenting_exec(reply),
            ClonePhase::Cloning => match reply {
                Reply::Failed(f) => self.fail_exec(process_error(&f)),
                Reply::Ran(o) => {
                    if is_success(&o) {
                        self.prepared = ClonedPreparation::new(&self.context);
                        self.preparing_exec(Reply::Start)
                    } else {
                        let e = MadmError::with_code(
                            String::from_str("Git could not clone the madm repository"),
                            status_code(o.code),
                        );
                        self.fail_exec(e)
                    }
                },
                _ => {
                    self.phase = ClonePhase::Over;
                    Progress::Done(Err(unexpected()))
                },
            },
            ClonePhase::Preparing => self.preparing_exec(reply),
            ClonePhase::Removing => match reply {
                Reply::Ack => {
                    self.missing = CheckoutMissing::new(&self.context);
                    self.checking_exec(Reply::Start)
                },
                Reply::Refused(e) => {
                    self.phase = ClonePhase::RemovingAgain;
                    self.pending = e;
                    Progress::Ask(Request::DropTemp)
                },
                _ => {
                    self.phase = ClonePhase::Over;
                    Progress::Done(Err(unexpected()))
                },
            },
            ClonePhase::RemovingAgain => match reply {
                Reply::Ack => {
                    let e = self.take_pending();
                    self.fail_exec(e)
                },
                Reply::Refused(_) => {
                    let e = self.take_pending();
                    self.fail_exec(e)
                },
                _ => {
                    self.phase = ClonePhase::Over;
                    Progress::Done(Err(unexpected()))
                },
            },
            ClonePhase::CleaningUp => self.cleaning_exec(reply),
            ClonePhase::Dropping => {
                self.phase = ClonePhase::Over;
                match reply {
                    Reply::Ack => Progress::Done(Err(self.take_pending())),
                    Reply::Refused(_) => Progress::Done(Err(self.take_pending())),
                    _ => Progress::Done(Err(unexpected())),
                }
            },
            ClonePhase::Missing => self.checking_exec(reply),
            ClonePhase::Modified => self.modified_exec(reply),
            ClonePhase::Announcing => match reply {
                Reply::Ack => self.reconciling_exec(Reply::Start),
                _ => {
                    self.phase = ClonePhase::Over;
                    Progress::Done(Err(unexpected()))
                },
            },
            ClonePhase::Reconciling => self.reconciling_exec(reply),
            ClonePhase::Over => Progress::Done(Err(unexpected())),
        }
    }
}

/// `madm clone` never touches an existing repository path: whatever is
/// there, it fails at once.
pub proof fn lemma_clone_refuses_existing(s: CloneView, k: PathKind)
    requires
        s.phase == ClonePhase::Inspecting,
    ensures
        CloneRun::next(s, ReplyView::Kind(k)).1 == ProgressView::<i32>::Done(Err((existing_message(s.home), 1))),
{
}

/// The search for a local path in the way of `path` that starts at its
/// first component finds nothing at once.
pub open spec fn free_at_once(home: Seq<u8>, path: Seq<u8>) -> bool {
    BlockerSearch::next(BlockerSearch::initial(home, path), ReplyView::Start).1
        == SearchStepView::Found(Ok(None))
}

proof fn lemma_visit_checks_out_free(s: MissingView)
    requires
        0 <= s.index,
    ensures
        ({
            let (t, p) = CheckoutMissing::visit(s);
            t.phase == MissingPhase::CheckingOut ==> {
                &&& t.home == s.home
                &&& t.missing == s.missing
                &&& 0 <= t.index < t.missing.len()
                &&& free_at_once(s.home, t.missing[t.index])
                &&& p == ask_git::<Seq<Seq<u8>>>(s.home, checkout_args(t.missing[t.index]), false)
            }
        }),
    decreases s.missing.len() - s.index,
{
    if s.index < s.missing.len() {
        let (bv, st) = BlockerSearch::next(BlockerSearch::initial(s.home, s.missing[s.index]), ReplyView::Start);
        let u = MissingView { search: bv, ..s };
        if let SearchStepView::Found(Ok(Some(_))) = st {
            lemma_visit_checks_out_free(
                MissingView { conflicts: u.conflicts.push(u.missing[u.index]), index: u.index + 1, ..u },
            );
        }
    }
}

/// A missing file is checked out only when the search for a local path in
/// its way found none: an untracked local file or directory there is never
/// overwritten.
pub proof fn lemma_checkout_only_when_free(s: MissingView, r: ReplyView)
    requires
        0 <= s.index,
    ensures
        ({
            let (t, p) = CheckoutMissing::next(s, r);
            t.phase == MissingPhase::CheckingOut ==> {
                &&& 0 <= t.index < t.missing.len()
                &&& p == ask_git::<Seq<Seq<u8>>>(s.home, checkout_args(t.missing[t.index]), false)
                &&& {
                    ||| s.phase == MissingPhase::Searching && t.index == s.index
                        && BlockerSearch::next(s.search, r).1 == SearchStepView::Found(Ok(None))
                    ||| free_at_once(s.home, t.missing[t.index])
                }
            }
        }),
{
    match s.phase {
        MissingPhase::Searching => {
            let (bv, st) = BlockerSearch::next(s.search, r);
            let u = MissingView { search: bv, ..s };
            if s.index < s.missing.len() {
                if let SearchStepView::Found(Ok(Some(_))) = st {
                    lemma_visit_checks_out_free(
                        MissingView { conflicts: u.conflicts.push(u.missing[u.index]), index: u.index + 1, ..u },
                    );
                }
            }
        },
        MissingPhase::Complaining => {
            lemma_visit_checks_out_free(
                MissingView { conflicts: s.conflicts.push(s.missing[s.index]), index: s.index + 1, ..s },
            );
        },
        MissingPhase::Listing => {
            if let ReplyView::Ran(o) = r {
                lemma_visit_checks_out_free(MissingView { missing: nul_paths_spec(o.stdout), index: 0, ..s });
            }
        },
        MissingPhase::CheckingOut => {
            lemma_visit_checks_out_free(MissingView { index: s.index + 1, ..s });
        },
        _ => {},
    }
}

} // verus!
