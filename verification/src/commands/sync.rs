use vstd::prelude::*;

use crate::cli::word;
use crate::commands::compare::{
    asks_only_leaving, lemma_prepare_leaves_tree, lemma_resolution_leaves_tree, reading_args,
};
use crate::commands::resolve::{
    commit_args, merge_is_active, operation_message, pseudo_ref_args, pseudo_ref_request,
    pseudo_ref_result, side_flag, stages_args, unresolved_args, PENDING_RESOLUTION_EXIT_CODE,
    Detection, DetectionView, MergeResolution, MergeView, Operation, SelectSide, SelectView, Side,
};
use crate::commands::setup::{
    tree_reserved_args, tree_reserved_check, tree_reserved_request, tree_reserved_result, Prepare,
    PrepareView,
};
use crate::commands::steps::{
    ask_git, copy_bytes, git_request, lemma_words_of_first, word_list, words_of, words_then_path,
};
use crate::commands::upstream::{
    empty_upstream, head_exists, revision_args, revision_request, revision_result, ResolutionView,
    Upstream, UpstreamResolution, UpstreamView,
};
use crate::context::Context;
use crate::error::MadmError;
use crate::git::{
    code_of, context_args, git_call, output_error, output_error_view, process_error, process_error_view, push_word,
    status_code, succeeded, text_view, Git,
};
use crate::host::{
    GitOutcome, OutcomeView, Progress, ProgressView, Reply, ReplyView, Request, RequestView,
};
use crate::path::{
    nul_paths, nul_paths_spec, unexpected, unexpected_reply, BlockerSearch, BlockerSearchView,
    SearchStep, SearchStepView,
};
use crate::text::{
    chars_of, join_texts, joined, lossy, lossy_text, same_bytes, same_text, string_of, texts,
};

verus! {

/// `"` escaped as `\"`, as `str::replace('"', "\\\"")` gives it.
pub open spec fn escape_quotes(t: Seq<char>) -> Seq<char>
    decreases t.len(),
{
    if t.len() == 0 {
        Seq::empty()
    } else {
        escape_quotes(t.drop_last()) + if t.last() == '"' {
            seq!['\\', '"']
        } else {
            seq![t.last()]
        }
    }
}

/// The displayed form of a path with its double quotes escaped.
pub fn escape_double_quotes(path: &[u8]) -> (res: String)
    ensures
        res@ == escape_quotes(lossy_text(path@)),
{
    let shown = lossy(path);
    let chars = chars_of(shown.as_str());
    let mut out: Vec<char> = Vec::new();
    let mut i: usize = 0;
    assert(chars@.take(0) =~= Seq::<char>::empty());
    while i < chars.len()
        invariant
            i <= chars@.len(),
            chars@ == lossy_text(path@),
            out@ == escape_quotes(chars@.take(i as int)),
        decreases chars@.len() - i,
    {
        assert(chars@.take(i + 1).drop_last() =~= chars@.take(i as int));
        let c = chars[i];
        if c == '"' {
            out.push('\\');
            out.push('"');
        } else {
            out.push(c);
        }
        assert(out@ =~= escape_quotes(chars@.take(i + 1)));
        i = i + 1;
    }
    assert(chars@.take(chars@.len() as int) =~= chars@);
    string_of(out.as_slice())
}

/// An incoming path that an untracked local path is in the way of.
pub struct Collision {
    pub remote_path: Vec<u8>,
    pub local_blocker: Vec<u8>,
    pub ignored: bool,
}

pub struct CollisionView {
    pub remote_path: Seq<u8>,
    pub local_blocker: Seq<u8>,
    pub ignored: bool,
}

impl View for Collision {
    type V = CollisionView;

    open spec fn view(&self) -> CollisionView {
        CollisionView {
            remote_path: self.remote_path@,
            local_blocker: self.local_blocker@,
            ignored: self.ignored,
        }
    }
}

pub open spec fn collision_views(cs: Seq<Collision>) -> Seq<CollisionView> {
    cs.map_values(|c: Collision| c@)
}

/// `"  upstream <path> is blocked by local <blocker>"`.
pub open spec fn detail_line(c: CollisionView) -> Seq<char> {
    "  upstream "@ + lossy_text(c.remote_path) + " is blocked by local "@ + lossy_text(c.local_blocker)
}

/// `"  madm add [-f] -- \"<blocker>\""`: `-f` for an ignored blocker.
pub open spec fn add_line(c: CollisionView) -> Seq<char> {
    "  madm add"@ + (if c.ignored {
        " -f"@
    } else {
        ""@
    }) + " -- \""@ + escape_quotes(lossy_text(c.local_blocker)) + "\""@
}

pub open spec fn detail_lines(cs: Seq<CollisionView>) -> Seq<Seq<char>>
    decreases cs.len(),
{
    if cs.len() == 0 {
        Seq::empty()
    } else {
        detail_lines(cs.drop_last()).push(detail_line(cs.last()))
    }
}

pub open spec fn add_lines(cs: Seq<CollisionView>) -> Seq<Seq<char>>
    decreases cs.len(),
{
    if cs.len() == 0 {
        Seq::empty()
    } else {
        add_lines(cs.drop_last()).push(add_line(cs.last()))
    }
}

/// The error that lists the collisions and how to track the local content.
pub open spec fn collision_message(cs: Seq<CollisionView>) -> Seq<char> {
    "upstream would overwrite untracked home content; nothing was changed\nCollisions:\n"@
        + joined(detail_lines(cs), "\n"@)
        + "\nTrack the local content so Git can merge it normally:\n"@ + joined(add_lines(cs), "\n"@)
        + "\n  madm commit\n  madm sync"@
}

fn detail_text(c: &Collision) -> (res: String)
    ensures
        res@ == detail_line(c@),
{
    let mut t = String::from_str("  upstream ");
    let r = lossy(c.remote_path.as_slice());
    t.append(r.as_str());
    t.append(" is blocked by local ");
    let b = lossy(c.local_blocker.as_slice());
    t.append(b.as_str());
    t
}

fn add_text(c: &Collision) -> (res: String)
    ensures
        res@ == add_line(c@),
{
    let mut t = String::from_str("  madm add");
    if c.ignored {
        t.append(" -f");
    }
    proof {
        reveal_strlit("");
    }
    t.append(" -- \"");
    let e = escape_double_quotes(c.local_blocker.as_slice());
    t.append(e.as_str());
    t.append("\"");
    assert(t@ =~= add_line(c@));
    t
}

/// The error for a non-empty list of collisions.
pub fn collision_error(collisions: &Vec<Collision>) -> (res: MadmError)
    ensures
        res.text() == collision_message(collision_views(collisions@)),
        res.exit_code() == 1,
{
    let ghost cs = collision_views(collisions@);
    let mut details: Vec<String> = Vec::new();
    let mut adds: Vec<String> = Vec::new();
    let mut i: usize = 0;
    assert(cs.take(0) =~= Seq::<CollisionView>::empty());
    assert(texts(details@) =~= Seq::<Seq<char>>::empty());
    while i < collisions.len()
        invariant
            i <= collisions@.len(),
            cs == collision_views(collisions@),
            texts(details@) == detail_lines(cs.take(i as int)),
            texts(adds@) == add_lines(cs.take(i as int)),
        decreases collisions@.len() - i,
    {
        assert(cs.take(i + 1).drop_last() =~= cs.take(i as int));
        assert(cs.take(i + 1).last() == collisions@[i as int]@);
        let d = detail_text(&collisions[i]);
        let a = add_text(&collisions[i]);
        let ghost dv = details@;
        let ghost av = adds@;
        details.push(d);
        adds.push(a);
        assert(texts(details@) =~= texts(dv).push(detail_line(collisions@[i as int]@)));
        assert(texts(adds@) =~= texts(av).push(add_line(collisions@[i as int]@)));
        i = i + 1;
    }
    assert(cs.take(collisions@.len() as int) =~= cs);
    let mut message = String::from_str(
        "upstream would overwrite untracked home content; nothing was changed\nCollisions:\n",
    );
    let d = join_texts(&details, "\n");
    message.append(d.as_str());
    message.append("\nTrack the local content so Git can merge it normally:\n");
    let a = join_texts(&adds, "\n");
    message.append(a.as_str());
    message.append("\n  madm commit\n  madm sync");
    MadmError::new(message)
}

/// `git diff --name-only --diff-filter=A --no-renames -z HEAD <upstream> --`:
/// the paths upstream adds.
pub open spec fn added_args(reference: Seq<char>) -> Seq<Seq<u8>> {
    words_of(seq!["diff", "--name-only", "--diff-filter=A", "--no-renames", "-z", "HEAD"]).push(
        word(reference),
    ).push(word("--"@))
}

/// `git check-ignore --quiet -- <path>`.
pub open spec fn ignore_args(path: Seq<u8>) -> Seq<Seq<u8>> {
    words_of(seq!["check-ignore", "--quiet", "--"]).push(path)
}

/// Whether a blocker is already listed.
pub open spec fn seen(cs: Seq<CollisionView>, blocker: Seq<u8>) -> bool {
    exists|j: int| 0 <= j < cs.len() && cs[j].local_blocker == blocker
}

/// Where the search for untracked content in upstream's way stands.
#[derive(Copy, Clone, Debug, PartialEq, Eq, Structural)]
pub enum CollisionPhase {
    Begin,
    Listing,
    Searching,
    Ignoring,
    Over,
}

/// `reject_untracked_collisions`: for each path upstream adds, the local
/// path in its way, each blocker once, with whether Git ignores it; any
/// collision fails the sync before anything is changed.
pub struct CollisionCheck {
    context: Context,
    reference: String,
    phase: CollisionPhase,
    added: Vec<Vec<u8>>,
    index: usize,
    search: BlockerSearch,
    collisions: Vec<Collision>,
    pending: Vec<u8>,
}

pub struct CollisionCheckView {
    pub home: Seq<u8>,
    pub reference: Seq<char>,
    pub phase: CollisionPhase,
    pub added: Seq<Seq<u8>>,
    pub index: int,
    pub search: BlockerSearchView,
    pub collisions: Seq<CollisionView>,
    pub pending: Seq<u8>,
}

impl CollisionCheck {
    pub closed spec fn view(&self) -> CollisionCheckView {
        CollisionCheckView {
            home: self.context.home_path(),
            reference: self.reference@,
            phase: self.phase,
            added: self.added.deep_view(),
            index: self.index as int,
            search: self.search.view(),
            collisions: collision_views(self.collisions@),
            pending: self.pending@,
        }
    }

    pub open spec fn initial(home: Seq<u8>, reference: Seq<char>) -> CollisionCheckView {
        CollisionCheckView {
            home,
            reference,
            phase: CollisionPhase::Begin,
            added: Seq::empty(),
            index: 0,
            search: BlockerSearch::initial(home, Seq::empty()),
            collisions: Seq::empty(),
            pending: Seq::empty(),
        }
    }

    /// The states in which a current path exists.
    pub open spec fn valid(s: CollisionCheckView) -> bool {
        (s.phase == CollisionPhase::Searching || s.phase == CollisionPhase::Ignoring) ==> 0 <= s.index
            < s.added.len()
    }

    /// Done: fine without collisions, else the error that lists them.
    pub open spec fn finish(s: CollisionCheckView) -> (CollisionCheckView, ProgressView<()>) {
        if s.collisions.len() == 0 {
            (CollisionCheckView { phase: CollisionPhase::Over, ..s }, ProgressView::Done(Ok(())))
        } else {
            (
                CollisionCheckView { phase: CollisionPhase::Over, ..s },
                ProgressView::Done(Err((collision_message(s.collisions), 1))),
            )
        }
    }

    /// Starts the search for the path at `index`, or finishes after the last.
    pub open spec fn visit(s: CollisionCheckView) -> (CollisionCheckView, ProgressView<()>)
        decreases s.added.len() - s.index, 1int,
    {
        if s.index >= s.added.len() {
            Self::finish(s)
        } else {
            let (bv, st) = BlockerSearch::next(
                BlockerSearch::initial(s.home, s.added[s.index]),
                ReplyView::Start,
            );
            Self::after_search(CollisionCheckView { search: bv, ..s }, st)
        }
    }

    /// What a step of the search for the current path leads to: a blocker
    /// not listed yet is checked against the ignore rules.
    pub open spec fn after_search(s: CollisionCheckView, st: SearchStepView) -> (
        CollisionCheckView,
        ProgressView<()>,
    )
        decreases s.added.len() - s.index, 0int,
    {
        if s.index >= s.added.len() {
            (CollisionCheckView { phase: CollisionPhase::Over, ..s }, ProgressView::Done(Err(unexpected_reply())))
        } else {
            match st {
                SearchStepView::Ask(q) => (
                    CollisionCheckView { phase: CollisionPhase::Searching, ..s },
                    ProgressView::Ask(q),
                ),
                SearchStepView::Found(Err(e)) => (
                    CollisionCheckView { phase: CollisionPhase::Over, ..s },
                    ProgressView::Done(Err(e)),
                ),
                SearchStepView::Found(Ok(None)) => Self::visit(CollisionCheckView { index: s.index + 1, ..s }),
                SearchStepView::Found(Ok(Some(b))) => if seen(s.collisions, b) {
                    Self::visit(CollisionCheckView { index: s.index + 1, ..s })
                } else {
                    (
                        CollisionCheckView { phase: CollisionPhase::Ignoring, pending: b, ..s },
                        ask_git(s.home, ignore_args(b), true),
                    )
                },
            }
        }
    }

    /// Lists the current path's collision and goes on with the next path.
    pub open spec fn record(s: CollisionCheckView, ignored: bool) -> (CollisionCheckView, ProgressView<()>) {
        Self::visit(
            CollisionCheckView {
                collisions: s.collisions.push(
                    CollisionView { remote_path: s.added[s.index], local_blocker: s.pending, ignored },
                ),
                index: s.index + 1,
                ..s
            },
        )
    }

    pub open spec fn next(s: CollisionCheckView, r: ReplyView) -> (CollisionCheckView, ProgressView<()>) {
        let over = CollisionCheckView { phase: CollisionPhase::Over, ..s };
        match s.phase {
            CollisionPhase::Begin => (
                CollisionCheckView { phase: CollisionPhase::Listing, ..s },
                ask_git(s.home, added_args(s.reference), true),
            ),
            CollisionPhase::Searching => {
                let (bv, st) = BlockerSearch::next(s.search, r);
                Self::after_search(CollisionCheckView { search: bv, ..s }, st)
            },
            CollisionPhase::Over => (over, ProgressView::Done(Err(unexpected_reply()))),
            _ => match r {
                ReplyView::Failed(k, d) => (over, ProgressView::Done(Err(process_error_view(k, d)))),
                ReplyView::Ran(o) => if s.phase == CollisionPhase::Listing {
                    if !succeeded(o) {
                        (over, ProgressView::Done(Err(output_error_view("inspect upstream-added paths"@, o))))
                    } else {
                        Self::visit(CollisionCheckView { added: nul_paths_spec(o.stdout), index: 0, ..s })
                    }
                } else if succeeded(o) {
                    Self::record(s, true)
                } else if o.code == Some(1i32) {
                    Self::record(s, false)
                } else {
                    (
                        over,
                        ProgressView::Done(
                            Err(output_error_view("check ignore rules for "@ + lossy_text(s.pending), o)),
                        ),
                    )
                },
                _ => (over, ProgressView::Done(Err(unexpected_reply()))),
            },
        }
    }

    pub fn new(context: &Context, reference: &str) -> (res: CollisionCheck)
        ensures
            res.view() == Self::initial(context.home_path(), reference@),
            Self::valid(res.view()),
    {
        let empty: Vec<u8> = Vec::new();
        let res = CollisionCheck {
            context: context.copy(),
            reference: String::from_str(reference),
            phase: CollisionPhase::Begin,
            added: Vec::new(),
            index: 0,
            search: BlockerSearch::new(context.home(), empty.as_slice()),
            collisions: Vec::new(),
            pending: Vec::new(),
        };
        assert(res.view().added =~= Seq::<Seq<u8>>::empty());
        assert(res.view().collisions =~= Seq::<CollisionView>::empty());
        assert(res.view().pending =~= Seq::<u8>::empty());
        assert(res.view().search == BlockerSearch::initial(context.home_path(), Seq::empty())) by {
            assert(empty@ =~= Seq::<u8>::empty());
        }
        res
    }

    fn seen_exec(&self, blocker: &[u8]) -> (res: bool)
        ensures
            res == seen(self.view().collisions, blocker@),
    {
        let ghost cs = self.view().collisions;
        let mut j: usize = 0;
        while j < self.collisions.len()
            invariant
                j <= self.collisions@.len(),
                cs == collision_views(self.collisions@),
                forall|k: int| 0 <= k < j ==> cs[k].local_blocker != blocker@,
            decreases self.collisions@.len() - j,
        {
            if same_bytes(self.collisions[j].local_blocker.as_slice(), blocker) {
                assert(cs[j as int].local_blocker == blocker@);
                return true;
            }
            j = j + 1;
        }
        false
    }

    fn finish_exec(&mut self) -> (res: Progress<()>)
        ensures
            (final(self).view(), res@) == Self::finish(old(self).view()),
    {
        self.phase = CollisionPhase::Over;
        if self.collisions.len() == 0 {
            Progress::Done(Ok(()))
        } else {
            Progress::Done(Err(collision_error(&self.collisions)))
        }
    }

    /// Handles a step of the current search; the current path exists.
    fn after_search_exec(&mut self, st: SearchStep) -> (res: Progress<()>)
        requires
            old(self).index < old(self).added@.len(),
        ensures
            (final(self).view(), res@) == Self::after_search(old(self).view(), st@),
            Self::valid(final(self).view()),
    {
        let n = self.added.len();
        assert(self.added.deep_view().len() == n);
        match st {
            SearchStep::Ask(q) => {
                self.phase = CollisionPhase::Searching;
                Progress::Ask(q)
            },
            SearchStep::Found(Err(e)) => {
                self.phase = CollisionPhase::Over;
                Progress::Done(Err(e))
            },
            SearchStep::Found(Ok(None)) => {
                self.index = self.index + 1;
                self.visit_exec()
            },
            SearchStep::Found(Ok(Some(b))) => {
                if self.seen_exec(b.as_slice()) {
                    self.index = self.index + 1;
                    self.visit_exec()
                } else {
                    self.phase = CollisionPhase::Ignoring;
                    let args = words_then_path(&["check-ignore", "--quiet", "--"], b.as_slice());
                    self.pending = b;
                    Progress::Ask(git_request(&self.context, args, true))
                }
            },
        }
    }

    fn visit_exec(&mut self) -> (res: Progress<()>)
        ensures
            (final(self).view(), res@) == Self::visit(old(self).view()),
            Self::valid(final(self).view()),
    {
        let ghost target = Self::visit(self.view());
        loop
            invariant
                Self::visit(self.view()) == target,
                target == Self::visit(old(self).view()),
            decreases self.added@.len() - self.index,
        {
            let n = self.added.len();
            assert(self.added.deep_view().len() == n);
            if self.index >= n {
                return self.finish_exec();
            }
            proof {
                assert(self.added@[self.index as int].deep_view() =~= self.added@[self.index as int]@);
            }
            self.search = BlockerSearch::new(self.context.home(), self.added[self.index].as_slice());
            let st = self.search.step(Reply::Start);
            match st {
                SearchStep::Ask(q) => {
                    self.phase = CollisionPhase::Searching;
                    return Progress::Ask(q);
                },
                SearchStep::Found(Err(e)) => {
                    self.phase = CollisionPhase::Over;
                    return Progress::Done(Err(e));
                },
                SearchStep::Found(Ok(None)) => {
                    self.index = self.index + 1;
                },
                SearchStep::Found(Ok(Some(b))) => {
                    if self.seen_exec(b.as_slice()) {
                        self.index = self.index + 1;
                    } else {
                        self.phase = CollisionPhase::Ignoring;
                        let args = words_then_path(&["check-ignore", "--quiet", "--"], b.as_slice());
                        self.pending = b;
                        return Progress::Ask(git_request(&self.context, args, true));
                    }
                },
            }
        }
    }

    fn record_exec(&mut self, ignored: bool) -> (res: Progress<()>)
        requires
            old(self).index < old(self).added@.len(),
        ensures
            (final(self).view(), res@) == Self::record(old(self).view(), ignored),
            Self::valid(final(self).view()),
    {
        proof {
            assert(self.added@[self.index as int].deep_view() =~= self.added@[self.index as int]@);
        }
        let c = Collision {
            remote_path: copy_bytes(self.added[self.index].as_slice()),
            local_blocker: copy_bytes(self.pending.as_slice()),
            ignored,
        };
        let n = self.added.len();
        let ghost before = self.collisions@;
        self.collisions.push(c);
        assert(collision_views(self.collisions@) =~= collision_views(before).push(c@));
        self.index = self.index + 1;
        self.visit_exec()
    }

    pub fn step(&mut self, reply: Reply) -> (res: Progress<()>)
        requires
            Self::valid(old(self).view()),
        ensures
            (final(self).view(), res@) == Self::next(old(self).view(), reply@),
            Self::valid(final(self).view()),
    {
        let phase = self.phase;
        match phase {
            CollisionPhase::Begin => {
                self.phase = CollisionPhase::Listing;
                let mut args = word_list(&["diff", "--name-only", "--diff-filter=A", "--no-renames", "-z", "HEAD"]);
                push_word(&mut args, self.reference.as_str());
                push_word(&mut args, "--");
                return Progress::Ask(git_request(&self.context, args, true));
            },
            CollisionPhase::Searching => {
                let st = self.search.step(reply);
                return self.after_search_exec(st);
            },
            CollisionPhase::Over => {
                return Progress::Done(Err(unexpected()));
            },
            _ => {},
        }
        self.phase = CollisionPhase::Over;
        let o = match reply {
            Reply::Failed(f) => {
                return Progress::Done(Err(process_error(&f)));
            },
            Reply::Ran(o) => o,
            _ => {
                return Progress::Done(Err(unexpected()));
            },
        };
        if phase == CollisionPhase::Listing {
            if !crate::git::is_success(&o) {
                return Progress::Done(Err(output_error("inspect upstream-added paths", &o)));
            }
            self.added = nul_paths(o.stdout.as_slice());
            self.index = 0;
            self.phase = phase;
            return self.visit_exec();
        }
        self.phase = phase;
        if crate::git::is_success(&o) {
            self.record_exec(true)
        } else if o.code == Some(1i32) {
            self.record_exec(false)
        } else {
            self.phase = CollisionPhase::Over;
            let mut action = String::from_str("check ignore rules for ");
            let shown = lossy(self.pending.as_slice());
            action.append(shown.as_str());
            Progress::Done(Err(output_error(action.as_str(), &o)))
        }
    }
}

/// `git status --porcelain=v1 -z --untracked-files=no`.
pub open spec fn clean_args() -> Seq<Seq<u8>> {
    words_of(seq!["status", "--porcelain=v1", "-z", "--untracked-files=no"])
}

/// `git status --short --untracked-files=no`.
pub open spec fn summary_args() -> Seq<Seq<u8>> {
    words_of(seq!["status", "--short", "--untracked-files=no"])
}

/// `git merge --ff --no-edit <upstream>`.
pub open spec fn merge_args(reference: Seq<char>) -> Seq<Seq<u8>> {
    words_of(seq!["merge", "--ff", "--no-edit"]).push(word(reference))
}

/// `refs/heads/<branch>` on the remote, written to from `HEAD`; no `+`
/// in front, so Git never forces it.
pub open spec fn push_refspec(remote_branch: Seq<char>) -> Seq<char> {
    "HEAD:refs/heads/"@ + remote_branch
}

/// `git push [--set-upstream] <remote> HEAD:refs/heads/<branch>`, with
/// `--set-upstream` for an inferred upstream.
pub open spec fn push_args(u: UpstreamView) -> Seq<Seq<u8>> {
    seq![word("push"@)] + (if u.inferred {
        seq![word("--set-upstream"@)]
    } else {
        Seq::empty()
    }) + seq![word(u.remote), word(push_refspec(u.remote_branch))]
}

pub open spec fn no_commits_message() -> Seq<char> {
    "the current branch has no commits\nCreate the first commit, then sync:\n  madm add -- <path>\n  madm commit\n  madm sync"@
}

pub open spec fn dirty_message(summary: Seq<char>) -> Seq<char> {
    "sync requires a clean tracked work tree and index\nTracked changes:\n"@ + summary
        + "\nCommit them, then retry:\n  madm add -u\n  madm commit\n  madm sync"@
}

pub open spec fn local_upstream_message() -> Seq<char> {
    "the current branch tracks another local branch; madm sync requires a remote upstream"@
}

pub open spec fn merge_failed_message() -> Seq<char> {
    "Git could not merge upstream; no files were forcefully overwritten"@
}

pub open spec fn push_failed_message() -> Seq<char> {
    "push was rejected or failed; no force push was attempted. Run 'madm sync' again after reviewing the remote update"@
}

pub open spec fn synchronized_text(u: UpstreamView) -> Seq<char> {
    "Synchronized '"@ + u.local_branch + "' with "@ + u.remote + "/"@ + u.remote_branch + ".\n"@
}

/// Where `madm sync` stands.
#[derive(Copy, Clone, Debug, PartialEq, Eq, Structural)]
pub enum SyncPhase {
    Preparing,
    Detecting,
    Settling(bool),
    Head,
    Clean,
    Summary,
    Resolving,
    TreeCheck,
    Colliding,
    Merging,
    MergeCheck,
    Pushing,
    Announcing,
    Over,
}

/// `madm sync`: finishes a pending merge first, then requires a commit and
/// a clean tracked state, merges upstream when it exists (after checking
/// that it does not track the repository's path and that no untracked
/// local content is in its way), and pushes without force.
pub struct SyncRun {
    context: Context,
    interactive: bool,
    phase: SyncPhase,
    prepare: Prepare,
    detection: Detection,
    merge: MergeResolution,
    resolution: UpstreamResolution,
    upstream: Upstream,
    collisions: CollisionCheck,
    merge_code: Option<i32>,
}

pub struct SyncView {
    pub home: Seq<u8>,
    pub interactive: bool,
    pub phase: SyncPhase,
    pub prepare: PrepareView,
    pub detection: DetectionView,
    pub merge: MergeView,
    pub resolution: ResolutionView,
    pub upstream: UpstreamView,
    pub collisions: CollisionCheckView,
    pub merge_code: Option<i32>,
}

/// Starts `madm sync` for the repository below `context`'s home.
pub fn run(context: &Context, interactive: bool) -> (res: SyncRun)
    ensures
        res.view() == SyncRun::initial(context.home_path(), interactive),
        SyncRun::valid(res.view()),
{
    let res = SyncRun {
        context: context.copy(),
        interactive,
        phase: SyncPhase::Preparing,
        prepare: Prepare::new(context),
        detection: Detection::new(context),
        merge: MergeResolution::new(context, interactive),
        resolution: UpstreamResolution::new(context, true),
        upstream: Upstream {
            local_branch: String::new(),
            remote: String::new(),
            remote_branch: String::new(),
            reference: String::new(),
            inferred: false,
            exists: false,
        },
        collisions: CollisionCheck::new(context, ""),
        merge_code: None,
    };
    proof {
        reveal_strlit("");
    }
    assert(""@ =~= Seq::<char>::empty());
    assert(res.view().upstream == empty_upstream());
    res
}

impl SyncRun {
    pub closed spec fn view(&self) -> SyncView {
        SyncView {
            home: self.context.home_path(),
            interactive: self.interactive,
            phase: self.phase,
            prepare: self.prepare.view(),
            detection: self.detection.view(),
            merge: self.merge.view(),
            resolution: self.resolution.view(),
            upstream: self.upstream.deep_view(),
            collisions: self.collisions.view(),
            merge_code: self.merge_code,
        }
    }

    pub open spec fn initial(home: Seq<u8>, interactive: bool) -> SyncView {
        SyncView {
            home,
            interactive,
            phase: SyncPhase::Preparing,
            prepare: Prepare::initial(home),
            detection: Detection::initial(home),
            merge: MergeResolution::initial(home, interactive),
            resolution: UpstreamResolution::initial(home, true),
            upstream: empty_upstream(),
            collisions: CollisionCheck::initial(home, Seq::empty()),
            merge_code: None,
        }
    }

    pub open spec fn valid(s: SyncView) -> bool {
        MergeResolution::valid(s.merge) && CollisionCheck::valid(s.collisions)
    }

    /// Asks whether the current branch has a commit.
    pub open spec fn head(s: SyncView) -> (SyncView, ProgressView<i32>) {
        (SyncView { phase: SyncPhase::Head, ..s }, ask_git(s.home, revision_args("HEAD"@), true))
    }

    /// Publishes the branch.
    pub open spec fn push(s: SyncView) -> (SyncView, ProgressView<i32>) {
        (SyncView { phase: SyncPhase::Pushing, ..s }, ask_git(s.home, push_args(s.upstream), false))
    }

    /// A step of the merge resolution; `after` when it follows the merge of
    /// upstream, else it finishes a merge that was pending before the sync.
    pub open spec fn settling(s: SyncView, after: bool, r: ReplyView) -> (SyncView, ProgressView<i32>) {
        let (mv, p) = MergeResolution::next(s.merge, r);
        let t = SyncView { merge: mv, ..s };
        match p {
            ProgressView::Ask(q) => (SyncView { phase: SyncPhase::Settling(after), ..t }, ProgressView::Ask(q)),
            ProgressView::Done(Err(e)) => (SyncView { phase: SyncPhase::Over, ..t }, ProgressView::Done(Err(e))),
            ProgressView::Done(Ok(false)) => (
                SyncView { phase: SyncPhase::Over, ..t },
                ProgressView::Done(Ok(PENDING_RESOLUTION_EXIT_CODE)),
            ),
            ProgressView::Done(Ok(true)) => if after {
                Self::push(t)
            } else {
                Self::head(t)
            },
        }
    }

    pub open spec fn detecting(s: SyncView, r: ReplyView) -> (SyncView, ProgressView<i32>) {
        let (dv, p) = Detection::next(s.detection, r);
        let t = SyncView { detection: dv, ..s };
        match p {
            ProgressView::Ask(q) => (SyncView { phase: SyncPhase::Detecting, ..t }, ProgressView::Ask(q)),
            ProgressView::Done(Err(e)) => (SyncView { phase: SyncPhase::Over, ..t }, ProgressView::Done(Err(e))),
            ProgressView::Done(Ok(op)) => if op == Operation::Nothing {
                Self::head(t)
            } else if op == Operation::Merge {
                Self::settling(
                    SyncView { merge: MergeResolution::initial(s.home, s.interactive), ..t },
                    false,
                    ReplyView::Start,
                )
            } else {
                (SyncView { phase: SyncPhase::Over, ..t }, ProgressView::Done(Err((operation_message(op), 1))))
            },
        }
    }

    pub open spec fn resolving(s: SyncView, r: ReplyView) -> (SyncView, ProgressView<i32>) {
        let (rv, p) = UpstreamResolution::next(s.resolution, r);
        let t = SyncView { resolution: rv, ..s };
        match p {
            ProgressView::Ask(q) => (SyncView { phase: SyncPhase::Resolving, ..t }, ProgressView::Ask(q)),
            ProgressView::Done(Err(e)) => (SyncView { phase: SyncPhase::Over, ..t }, ProgressView::Done(Err(e))),
            ProgressView::Done(Ok(u)) => if u.remote == "."@ {
                (
                    SyncView { phase: SyncPhase::Over, upstream: u, ..t },
                    ProgressView::Done(Err((local_upstream_message(), 1))),
                )
            } else if u.exists {
                (
                    SyncView { phase: SyncPhase::TreeCheck, upstream: u, ..t },
                    ask_git(s.home, tree_reserved_args(u.reference), true),
                )
            } else {
                Self::push(SyncView { upstream: u, ..t })
            },
        }
    }

    pub open spec fn colliding(s: SyncView, r: ReplyView) -> (SyncView, ProgressView<i32>) {
        let (cv, p) = CollisionCheck::next(s.collisions, r);
        let t = SyncView { collisions: cv, ..s };
        match p {
            ProgressView::Ask(q) => (SyncView { phase: SyncPhase::Colliding, ..t }, ProgressView::Ask(q)),
            ProgressView::Done(Err(e)) => (SyncView { phase: SyncPhase::Over, ..t }, ProgressView::Done(Err(e))),
            ProgressView::Done(Ok(_)) => (
                SyncView { phase: SyncPhase::Merging, ..t },
                ask_git(s.home, merge_args(s.upstream.reference), false),
            ),
        }
    }

    /// A finished Git run in one of the phases that wait for one.
    pub open spec fn ran(s: SyncView, o: OutcomeView) -> (SyncView, ProgressView<i32>) {
        let over = SyncView { phase: SyncPhase::Over, ..s };
        match s.phase {
            SyncPhase::Head => match revision_result("HEAD"@, o) {
                Err(e) => (over, ProgressView::Done(Err(e))),
                Ok(None) => (over, ProgressView::Done(Err((no_commits_message(), 1)))),
                Ok(Some(_)) => (SyncView { phase: SyncPhase::Clean, ..s }, ask_git(s.home, clean_args(), true)),
            },
            SyncPhase::Clean => if !succeeded(o) {
                (over, ProgressView::Done(Err(output_error_view("inspect tracked home state"@, o))))
            } else if o.stdout.len() == 0 {
                Self::resolving(
                    SyncView { resolution: UpstreamResolution::initial(s.home, true), ..s },
                    ReplyView::Start,
                )
            } else {
                (SyncView { phase: SyncPhase::Summary, ..s }, ask_git(s.home, summary_args(), true))
            },
            SyncPhase::Summary => match text_view("summarize tracked home changes"@, o) {
                Err(e) => (over, ProgressView::Done(Err(e))),
                Ok(t) => (over, ProgressView::Done(Err((dirty_message(t), 1)))),
            },
            SyncPhase::TreeCheck => match tree_reserved_result(s.upstream.reference, o) {
                Err(e) => (over, ProgressView::Done(Err(e))),
                Ok(_) => Self::colliding(
                    SyncView { collisions: CollisionCheck::initial(s.home, s.upstream.reference), ..s },
                    ReplyView::Start,
                ),
            },
            SyncPhase::Merging => if succeeded(o) {
                Self::push(s)
            } else {
                (
                    SyncView { phase: SyncPhase::MergeCheck, merge_code: o.code, ..s },
                    ask_git(s.home, pseudo_ref_args("MERGE_HEAD"@), true),
                )
            },
            SyncPhase::MergeCheck => match pseudo_ref_result("MERGE_HEAD"@, o) {
                Err(e) => (over, ProgressView::Done(Err(e))),
                Ok(true) => Self::settling(
                    SyncView { merge: MergeResolution::initial(s.home, s.interactive), ..s },
                    true,
                    ReplyView::Start,
                ),
                Ok(false) => (over, ProgressView::Done(Err((merge_failed_message(), code_of(s.merge_code))))),
            },
            SyncPhase::Pushing => if succeeded(o) {
                (
                    SyncView { phase: SyncPhase::Announcing, ..s },
                    ProgressView::Ask(RequestView::Say(synchronized_text(s.upstream))),
                )
            } else {
                (over, ProgressView::Done(Err((push_failed_message(), code_of(o.code)))))
            },
            _ => (over, ProgressView::Done(Err(unexpected_reply()))),
        }
    }

    /// One step of `madm sync`; exit code 0 once pushed, 2 while merge
    /// conflicts remain for `madm resolve`.
    pub open spec fn next(s: SyncView, r: ReplyView) -> (SyncView, ProgressView<i32>) {
        let over = SyncView { phase: SyncPhase::Over, ..s };
        match s.phase {
            SyncPhase::Preparing => {
                let (pv, p) = Prepare::next(s.prepare, r);
                let t = SyncView { prepare: pv, ..s };
                match p {
                    ProgressView::Ask(q) => (t, ProgressView::Ask(q)),
                    ProgressView::Done(Err(e)) => (SyncView { phase: SyncPhase::Over, ..t }, ProgressView::Done(Err(e))),
                    ProgressView::Done(Ok(_)) => Self::detecting(
                        SyncView { detection: Detection::initial(s.home), ..t },
                        ReplyView::Start,
                    ),
                }
            },
            SyncPhase::Detecting => Self::detecting(s, r),
            SyncPhase::Settling(after) => Self::settling(s, after, r),
            SyncPhase::Resolving => Self::resolving(s, r),
            SyncPhase::Colliding => Self::colliding(s, r),
            SyncPhase::Announcing => match r {
                ReplyView::Ack => (over, ProgressView::Done(Ok(0))),
                _ => (over, ProgressView::Done(Err(unexpected_reply()))),
            },
            SyncPhase::Over => (over, ProgressView::Done(Err(unexpected_reply()))),
            _ => match r {
                ReplyView::Failed(k, d) => (over, ProgressView::Done(Err(process_error_view(k, d)))),
                ReplyView::Ran(o) => Self::ran(s, o),
                _ => (over, ProgressView::Done(Err(unexpected_reply()))),
            },
        }
    }

    fn head_exec(&mut self) -> (res: Progress<i32>)
        ensures
            (final(self).view(), res@) == Self::head(old(self).view()),
    {
        self.phase = SyncPhase::Head;
        Progress::Ask(revision_request(&self.context, "HEAD"))
    }

    fn push_exec(&mut self) -> (res: Progress<i32>)
        ensures
            (final(self).view(), res@) == Self::push(old(self).view()),
    {
        self.phase = SyncPhase::Pushing;
        let mut args: Vec<Vec<u8>> = Vec::new();
        push_word(&mut args, "push");
        if self.upstream.inferred {
            push_word(&mut args, "--set-upstream");
        }
        push_word(&mut args, self.upstream.remote.as_str());
        let mut refspec = String::from_str("HEAD:refs/heads/");
        refspec.append(self.upstream.remote_branch.as_str());
        push_word(&mut args, refspec.as_str());
        assert(args.deep_view() =~= push_args(self.view().upstream));
        Progress::Ask(git_request(&self.context, args, false))
    }

    fn settling_exec(&mut self, after: bool, reply: Reply) -> (res: Progress<i32>)
        requires
            Self::valid(old(self).view()),
        ensures
            (final(self).view(), res@) == Self::settling(old(self).view(), after, reply@),
            Self::valid(final(self).view()),
    {
        match self.merge.step(reply) {
            Progress::Ask(q) => {
                self.phase = SyncPhase::Settling(after);
                Progress::Ask(q)
            },
            Progress::Done(Err(e)) => {
                self.phase = SyncPhase::Over;
                Progress::Done(Err(e))
            },
            Progress::Done(Ok(false)) => {
                self.phase = SyncPhase::Over;
                Progress::Done(Ok(PENDING_RESOLUTION_EXIT_CODE))
            },
            Progress::Done(Ok(true)) => {
                if after {
                    self.push_exec()
                } else {
                    self.head_exec()
                }
            },
        }
    }

    fn detecting_exec(&mut self, reply: Reply) -> (res: Progress<i32>)
        requires
            Self::valid(old(self).view()),
        ensures
            (final(self).view(), res@) == Self::detecting(old(self).view(), reply@),
            Self::valid(final(self).view()),
    {
        match self.detection.step(reply) {
            Progress::Ask(q) => {
                self.phase = SyncPhase::Detecting;
                Progress::Ask(q)
            },
            Progress::Done(Err(e)) => {
                self.phase = SyncPhase::Over;
                Progress::Done(Err(e))
            },
            Progress::Done(Ok(op)) => {
                if op == Operation::Nothing {
                    self.head_exec()
                } else if op == Operation::Merge {
                    self.merge = MergeResolution::new(&self.context, self.interactive);
                    self.settling_exec(false, Reply::Start)
                } else {
                    self.phase = SyncPhase::Over;
                    Progress::Done(Err(crate::commands::resolve::non_merge_operation_error(op)))
                }
            },
        }
    }

    fn resolving_exec(&mut self, reply: Reply) -> (res: Progress<i32>)
        requires
            Self::valid(old(self).view()),
        ensures
            (final(self).view(), res@) == Self::resolving(old(self).view(), reply@),
            Self::valid(final(self).view()),
    {
        match self.resolution.step(reply) {
            Progress::Ask(q) => {
                self.phase = SyncPhase::Resolving;
                Progress::Ask(q)
            },
            Progress::Done(Err(e)) => {
                self.phase = SyncPhase::Over;
                Progress::Done(Err(e))
            },
            Progress::Done(Ok(u)) => {
                self.upstream = u;
                if same_text(self.upstream.remote.as_str(), ".") {
                    self.phase = SyncPhase::Over;
                    Progress::Done(
                        Err(MadmError::new(String::from_str(
                            "the current branch tracks another local branch; madm sync requires a remote upstream",
                        ))),
                    )
                } else if self.upstream.exists {
                    self.phase = SyncPhase::TreeCheck;
                    Progress::Ask(tree_reserved_request(&self.context, self.upstream.reference.as_str()))
                } else {
                    self.push_exec()
                }
            },
        }
    }

    fn colliding_exec(&mut self, reply: Reply) -> (res: Progress<i32>)
        requires
            Self::valid(old(self).view()),
        ensures
            (final(self).view(), res@) == Self::colliding(old(self).view(), reply@),
            Self::valid(final(self).view()),
    {
        match self.collisions.step(reply) {
            Progress::Ask(q) => {
                self.phase = SyncPhase::Colliding;
                Progress::Ask(q)
            },
            Progress::Done(Err(e)) => {
                self.phase = SyncPhase::Over;
                Progress::Done(Err(e))
            },
            Progress::Done(Ok(())) => {
                self.phase = SyncPhase::Merging;
                let mut args = word_list(&["merge", "--ff", "--no-edit"]);
                push_word(&mut args, self.upstream.reference.as_str());
                Progress::Ask(git_request(&self.context, args, false))
            },
        }
    }

    fn ran_exec(&mut self, o: GitOutcome) -> (res: Progress<i32>)
        requires
            Self::valid(old(self).view()),
        ensures
            (final(self).view(), res@) == Self::ran(old(self).view(), o@),
            Self::valid(final(self).view()),
    {
        let phase = self.phase;
        self.phase = SyncPhase::Over;
        match phase {
            SyncPhase::Head => match head_exists(&o) {
                Err(e) => Progress::Done(Err(e)),
                Ok(false) => Progress::Done(
                    Err(MadmError::new(String::from_str(
                        "the current branch has no commits\nCreate the first commit, then sync:\n  madm add -- <path>\n  madm commit\n  madm sync",
                    ))),
                ),
                Ok(true) => {
                    self.phase = SyncPhase::Clean;
                    let args = word_list(&["status", "--porcelain=v1", "-z", "--untracked-files=no"]);
                    Progress::Ask(git_request(&self.context, args, true))
                },
            },
            SyncPhase::Clean => {
                if !crate::git::is_success(&o) {
                    Progress::Done(Err(output_error("inspect tracked home state", &o)))
                } else if o.stdout.len() == 0 {
                    self.phase = phase;
                    self.resolution = UpstreamResolution::new(&self.context, true);
                    self.resolving_exec(Reply::Start)
                } else {
                    self.phase = SyncPhase::Summary;
                    let args = word_list(&["status", "--short", "--untracked-files=no"]);
                    Progress::Ask(git_request(&self.context, args, true))
                }
            },
            SyncPhase::Summary => match Git::text(o, "summarize tracked home changes") {
                Err(e) => Progress::Done(Err(e)),
                Ok(t) => {
                    let mut message = String::from_str(
                        "sync requires a clean tracked work tree and index\nTracked changes:\n",
                    );
                    message.append(t.as_str());
                    message.append("\nCommit them, then retry:\n  madm add -u\n  madm commit\n  madm sync");
                    Progress::Done(Err(MadmError::new(message)))
                },
            },
            SyncPhase::TreeCheck => match tree_reserved_check(self.upstream.reference.as_str(), &o) {
                Err(e) => Progress::Done(Err(e)),
                Ok(()) => {
                    self.phase = phase;
                    self.collisions = CollisionCheck::new(&self.context, self.upstream.reference.as_str());
                    self.colliding_exec(Reply::Start)
                },
            },
            SyncPhase::Merging => {
                self.phase = phase;
                if crate::git::is_success(&o) {
                    self.push_exec()
                } else {
                    self.phase = SyncPhase::MergeCheck;
                    self.merge_code = o.code;
                    Progress::Ask(pseudo_ref_request(&self.context, "MERGE_HEAD"))
                }
            },
            SyncPhase::MergeCheck => match merge_is_active(&o) {
                Err(e) => Progress::Done(Err(e)),
                Ok(true) => {
                    self.phase = phase;
                    self.merge = MergeResolution::new(&self.context, self.interactive);
                    self.settling_exec(true, Reply::Start)
                },
                Ok(false) => Progress::Done(
                    Err(
                        MadmError::with_code(
                            String::from_str("Git could not merge upstream; no files were forcefully overwritten"),
                            status_code(self.merge_code),
                        ),
                    ),
                ),
            },
            SyncPhase::Pushing => {
                if crate::git::is_success(&o) {
                    self.phase = SyncPhase::Announcing;
                    let u = &self.upstream;
                    let mut t = String::from_str("Synchronized '");
                    t.append(u.local_branch.as_str());
                    t.append("' with ");
                    t.append(u.remote.as_str());
                    t.append("/");
                    t.append(u.remote_branch.as_str());
                    t.append(".\n");
                    Progress::Ask(Request::Say(t))
                } else {
                    Progress::Done(
                        Err(
                            MadmError::with_code(
                                String::from_str(
                                    "push was rejected or failed; no force push was attempted. Run 'madm sync' again after reviewing the remote update",
                                ),
                                status_code(o.code),
                            ),
                        ),
                    )
                }
            },
            _ => Progress::Done(Err(unexpected())),
        }
    }

    pub fn step(&mut self, reply: Reply) -> (res: Progress<i32>)
        requires
            Self::valid(old(self).view()),
        ensures
            (final(self).view(), res@) == Self::next(old(self).view(), reply@),
            Self::valid(final(self).view()),
    {
        match self.phase {
            SyncPhase::Preparing => {
                return match self.prepare.step(reply) {
                    Progress::Ask(q) => Progress::Ask(q),
                    Progress::Done(Err(e)) => {
                        self.phase = SyncPhase::Over;
                        Progress::Done(Err(e))
                    },
                    Progress::Done(Ok(_)) => {
                        self.detection = Detection::new(&self.context);
                        self.detecting_exec(Reply::Start)
                    },
                };
            },
            SyncPhase::Detecting => {
                return self.detecting_exec(reply);
            },
            SyncPhase::Settling(after) => {
                return self.settling_exec(after, reply);
            },
            SyncPhase::Resolving => {
                return self.resolving_exec(reply);
            },
            SyncPhase::Colliding => {
                return self.colliding_exec(reply);
            },
            SyncPhase::Announcing => {
                self.phase = SyncPhase::Over;
                return match reply {
                    Reply::Ack => Progress::Done(Ok(0)),
                    _ => Progress::Done(Err(unexpected())),
                };
            },
            SyncPhase::Over => {
                return Progress::Done(Err(unexpected()));
            },
            _ => {},
        }
        match reply {
            Reply::Failed(f) => {
                self.phase = SyncPhase::Over;
                Progress::Done(Err(process_error(&f)))
            },
            Reply::Ran(o) => self.ran_exec(o),
            _ => {
                self.phase = SyncPhase::Over;
                Progress::Done(Err(unexpected()))
            },
        }
    }
}

/// No local blocker is listed twice.
pub open spec fn distinct_blockers(cs: Seq<CollisionView>) -> bool {
    forall|i: int, j: int| 0 <= i < j < cs.len() ==> cs[i].local_blocker != cs[j].local_blocker
}

/// What every state of the collision check keeps: distinct blockers, and
/// the blocker being checked is not listed yet.
pub open spec fn collision_inv(s: CollisionCheckView) -> bool {
    &&& distinct_blockers(s.collisions)
    &&& s.phase == CollisionPhase::Ignoring ==> !seen(s.collisions, s.pending)
}

proof fn lemma_visit_keeps(s: CollisionCheckView)
    ensures
        ({
            let (t, p) = CollisionCheck::visit(s);
            &&& t.collisions == s.collisions
            &&& t.added == s.added
            &&& t.phase == CollisionPhase::Ignoring ==> !seen(s.collisions, t.pending)
            &&& p == ProgressView::<()>::Done(Ok(())) ==> s.collisions.len() == 0
        }),
    decreases s.added.len() - s.index,
{
    if s.index < s.added.len() {
        let (bv, st) = BlockerSearch::next(BlockerSearch::initial(s.home, s.added[s.index]), ReplyView::Start);
        let t = CollisionCheckView { search: bv, ..s };
        lemma_after_search_keeps(t, st);
    }
}

proof fn lemma_after_search_keeps(s: CollisionCheckView, st: SearchStepView)
    ensures
        ({
            let (t, p) = CollisionCheck::after_search(s, st);
            &&& t.collisions == s.collisions
            &&& t.added == s.added
            &&& t.phase == CollisionPhase::Ignoring ==> !seen(s.collisions, t.pending)
            &&& p == ProgressView::<()>::Done(Ok(())) ==> s.collisions.len() == 0
        }),
    decreases s.added.len() - s.index, 0int,
{
    if s.index < s.added.len() {
        match st {
            SearchStepView::Found(Ok(None)) => lemma_visit_keeps(CollisionCheckView { index: s.index + 1, ..s }),
            SearchStepView::Found(Ok(Some(b))) => if seen(s.collisions, b) {
                lemma_visit_keeps(CollisionCheckView { index: s.index + 1, ..s });
            },
            _ => {},
        }
    }
}

/// Each local blocker is listed once, however many incoming paths it
/// blocks, and the check passes only when nothing is in the way.
pub proof fn lemma_collisions_listed_once(s: CollisionCheckView, r: ReplyView)
    requires
        collision_inv(s),
    ensures
        collision_inv(CollisionCheck::next(s, r).0),
        CollisionCheck::next(s, r).1 == ProgressView::<()>::Done(Ok(())) ==> CollisionCheck::next(
            s,
            r,
        ).0.collisions.len() == 0,
{
    match s.phase {
        CollisionPhase::Searching => {
            let (bv, st) = BlockerSearch::next(s.search, r);
            lemma_after_search_keeps(CollisionCheckView { search: bv, ..s }, st);
        },
        CollisionPhase::Listing => {
            if let ReplyView::Ran(o) = r {
                lemma_visit_keeps(CollisionCheckView { added: nul_paths_spec(o.stdout), index: 0, ..s });
            }
        },
        CollisionPhase::Ignoring => {
            if let ReplyView::Ran(o) = r {
                let ignored = succeeded(o);
                let c = CollisionView { remote_path: s.added[s.index], local_blocker: s.pending, ignored };
                let u = CollisionCheckView { collisions: s.collisions.push(c), index: s.index + 1, ..s };
                assert(distinct_blockers(u.collisions)) by {
                    assert forall|i: int, j: int| 0 <= i < j < u.collisions.len() implies u.collisions[i].local_blocker
                        != u.collisions[j].local_blocker by {
                        if j == s.collisions.len() {
                            assert(!seen(s.collisions, s.pending));
                            assert(u.collisions[i] == s.collisions[i]);
                        }
                    }
                }
                lemma_visit_keeps(u);
                let c2 = CollisionView { remote_path: s.added[s.index], local_blocker: s.pending, ignored: false };
                let u2 = CollisionCheckView { collisions: s.collisions.push(c2), index: s.index + 1, ..s };
                assert(distinct_blockers(u2.collisions)) by {
                    assert forall|i: int, j: int| 0 <= i < j < u2.collisions.len() implies u2.collisions[i].local_blocker
                        != u2.collisions[j].local_blocker by {
                        if j == s.collisions.len() {
                            assert(!seen(s.collisions, s.pending));
                            assert(u2.collisions[i] == s.collisions[i]);
                        }
                    }
                }
                lemma_visit_keeps(u2);
            }
        },
        _ => {},
    }
}

/// The blocker search for `path` ends at once with nothing in the way
/// (the path has no component to inspect).
pub open spec fn clear_at_once(home: Seq<u8>, path: Seq<u8>) -> bool {
    BlockerSearch::next(BlockerSearch::initial(home, path), ReplyView::Start).1
        == SearchStepView::Found(Ok(None))
}

proof fn lemma_visit_passes_only_when_clear(s: CollisionCheckView)
    requires
        0 <= s.index,
    ensures
        CollisionCheck::visit(s).1 == ProgressView::<()>::Done(Ok(())) ==> {
            &&& s.collisions.len() == 0
            &&& forall|j: int| s.index <= j < s.added.len() ==> clear_at_once(s.home, #[trigger] s.added[j])
        },
    decreases s.added.len() - s.index,
{
    lemma_visit_keeps(s);
    if s.index < s.added.len() {
        let (bv, st) = BlockerSearch::next(BlockerSearch::initial(s.home, s.added[s.index]), ReplyView::Start);
        let t = CollisionCheckView { search: bv, ..s };
        lemma_after_search_passes_only_when_clear(t, st);
    }
}

proof fn lemma_after_search_passes_only_when_clear(s: CollisionCheckView, st: SearchStepView)
    requires
        0 <= s.index,
    ensures
        CollisionCheck::after_search(s, st).1 == ProgressView::<()>::Done(Ok(())) ==> {
            &&& s.collisions.len() == 0
            &&& st == SearchStepView::Found(Ok(None))
            &&& forall|j: int| s.index < j < s.added.len() ==> clear_at_once(s.home, #[trigger] s.added[j])
        },
    decreases s.added.len() - s.index, 0int,
{
    lemma_after_search_keeps(s, st);
    if s.index < s.added.len() {
        let u = CollisionCheckView { index: s.index + 1, ..s };
        match st {
            SearchStepView::Found(Ok(None)) => lemma_visit_passes_only_when_clear(u),
            SearchStepView::Found(Ok(Some(b))) => if seen(s.collisions, b) {
                lemma_visit_passes_only_when_clear(u);
            },
            _ => {},
        }
    }
}

/// The collision check passes only when every path upstream adds was
/// searched and nothing local is in its way: from the listing, each added
/// path's search must end with no blocker; during a search, the current
/// path's search must have found no blocker and so must every path after
/// it. A blocker found for any added path, listed or waiting for the
/// ignore check, makes the check fail.
pub proof fn lemma_collision_check_passes_only_when_clear(s: CollisionCheckView, r: ReplyView)
    requires
        CollisionCheck::valid(s),
    ensures
        CollisionCheck::next(s, r).1 == ProgressView::<()>::Done(Ok(())) ==> {
            let t = CollisionCheck::next(s, r).0;
            &&& t.collisions.len() == 0
            &&& s.phase == CollisionPhase::Listing || s.phase == CollisionPhase::Searching
        },
        CollisionCheck::next(s, r).1 == ProgressView::<()>::Done(Ok(())) && s.phase
            == CollisionPhase::Listing ==> {
            let t = CollisionCheck::next(s, r).0;
            &&& r is Ran
            &&& t.added == nul_paths_spec(r->Ran_0.stdout)
            &&& forall|j: int| 0 <= j < t.added.len() ==> clear_at_once(s.home, #[trigger] t.added[j])
        },
        CollisionCheck::next(s, r).1 == ProgressView::<()>::Done(Ok(())) && s.phase
            == CollisionPhase::Searching ==> {
            &&& BlockerSearch::next(s.search, r).1 == SearchStepView::Found(Ok(None))
            &&& forall|j: int| s.index < j < s.added.len() ==> clear_at_once(s.home, #[trigger] s.added[j])
        },
{
    match s.phase {
        CollisionPhase::Searching => {
            let (bv, st) = BlockerSearch::next(s.search, r);
            let u = CollisionCheckView { search: bv, ..s };
            lemma_after_search_passes_only_when_clear(u, st);
            lemma_after_search_keeps(u, st);
        },
        CollisionPhase::Listing => {
            if let ReplyView::Ran(o) = r {
                if succeeded(o) {
                    lemma_visit_passes_only_when_clear(
                        CollisionCheckView { added: nul_paths_spec(o.stdout), index: 0, ..s },
                    );
                    lemma_visit_keeps(CollisionCheckView { added: nul_paths_spec(o.stdout), index: 0, ..s });
                }
            }
        },
        CollisionPhase::Ignoring => {
            if let ReplyView::Ran(o) = r {
                let c = CollisionView { remote_path: s.added[s.index], local_blocker: s.pending, ignored: succeeded(o) };
                let u = CollisionCheckView { collisions: s.collisions.push(c), index: s.index + 1, ..s };
                lemma_visit_keeps(u);
                let c2 = CollisionView { remote_path: s.added[s.index], local_blocker: s.pending, ignored: false };
                let u2 = CollisionCheckView { collisions: s.collisions.push(c2), index: s.index + 1, ..s };
                lemma_visit_keeps(u2);
            }
        },
        _ => {},
    }
}

/// No local blocker that a search finds is passed over: it is listed
/// already or is the one whose ignore status is asked next, and once the
/// ignore check answers it is listed. Listed collisions are never dropped.
pub proof fn lemma_found_blockers_are_listed(s: CollisionCheckView, r: ReplyView)
    requires
        CollisionCheck::valid(s),
    ensures
        CollisionCheck::next(s, r).0.collisions.take(s.collisions.len() as int) == s.collisions,
        CollisionCheck::next(s, r).0.collisions.len() >= s.collisions.len(),
        s.phase == CollisionPhase::Searching && BlockerSearch::next(s.search, r).1 is Found
            && BlockerSearch::next(s.search, r).1->Found_0 is Ok && BlockerSearch::next(s.search, r).1->Found_0->Ok_0
            is Some ==> {
            let b = BlockerSearch::next(s.search, r).1->Found_0->Ok_0->0;
            let t = CollisionCheck::next(s, r).0;
            seen(t.collisions, b) || (t.phase == CollisionPhase::Ignoring && t.pending == b)
        },
        s.phase == CollisionPhase::Ignoring && r is Ran && (succeeded(r->Ran_0) || r->Ran_0.code == Some(
            1i32,
        )) ==> seen(CollisionCheck::next(s, r).0.collisions, s.pending),
{
    match s.phase {
        CollisionPhase::Searching => {
            let (bv, st) = BlockerSearch::next(s.search, r);
            let u = CollisionCheckView { search: bv, ..s };
            lemma_after_search_keeps(u, st);
            assert(s.collisions.take(s.collisions.len() as int) =~= s.collisions);
        },
        CollisionPhase::Listing => {
            if let ReplyView::Ran(o) = r {
                lemma_visit_keeps(CollisionCheckView { added: nul_paths_spec(o.stdout), index: 0, ..s });
            }
            assert(s.collisions.take(s.collisions.len() as int) =~= s.collisions);
        },
        CollisionPhase::Ignoring => {
            if let ReplyView::Ran(o) = r {
                let ignored = succeeded(o);
                let c = CollisionView { remote_path: s.added[s.index], local_blocker: s.pending, ignored };
                let u = CollisionCheckView { collisions: s.collisions.push(c), index: s.index + 1, ..s };
                lemma_visit_keeps(u);
                assert(u.collisions[s.collisions.len() as int].local_blocker == s.pending);
                assert(u.collisions.take(s.collisions.len() as int) =~= s.collisions);
                let c2 = CollisionView { remote_path: s.added[s.index], local_blocker: s.pending, ignored: false };
                let u2 = CollisionCheckView { collisions: s.collisions.push(c2), index: s.index + 1, ..s };
                lemma_visit_keeps(u2);
                assert(u2.collisions[s.collisions.len() as int].local_blocker == s.pending);
                assert(u2.collisions.take(s.collisions.len() as int) =~= s.collisions);
            }
            assert(s.collisions.take(s.collisions.len() as int) =~= s.collisions);
        },
        _ => {
            assert(s.collisions.take(s.collisions.len() as int) =~= s.collisions);
        },
    }
}

/// Sync pushes only once upstream is merged: after a merge that Git
/// completed, after a merge commit the resolution made, or when upstream
/// has no branch yet. The push names the branch by `HEAD:refs/heads/...`,
/// with no `+` that would force it.
pub proof fn lemma_push_only_after_merge(s: SyncView, r: ReplyView)
    ensures
        ({
            let (t, p) = SyncRun::next(s, r);
            t.phase == SyncPhase::Pushing && s.phase != SyncPhase::Pushing ==> {
                &&& p == ask_git::<i32>(s.home, push_args(t.upstream), false)
                &&& push_refspec(t.upstream.remote_branch).take(5) == "HEAD:"@
                &&& {
                    ||| s.phase == SyncPhase::Merging && (r matches ReplyView::Ran(o) && succeeded(o))
                    ||| s.phase == SyncPhase::Settling(true) && MergeResolution::next(s.merge, r).1
                        == ProgressView::<bool>::Done(Ok(true))
                    ||| s.phase == SyncPhase::Resolving && !t.upstream.exists
                }
            }
        }),
{
    assert(push_refspec(SyncRun::next(s, r).0.upstream.remote_branch).take(5) =~= "HEAD:"@) by {
        reveal_strlit("HEAD:refs/heads/");
        reveal_strlit("HEAD:");
    }
}

/// Upstream is merged only after the tracked state was found clean, its
/// tree was checked for the repository's path, and no untracked local
/// content was found in its way.
#[verifier::rlimit(80)]
pub proof fn lemma_merge_only_when_clear(s: SyncView, r: ReplyView)
    ensures
        ({
            let (t, p) = SyncRun::next(s, r);
            t.phase == SyncPhase::Merging && s.phase != SyncPhase::Merging ==> {
                &&& s.phase == SyncPhase::Colliding
                &&& CollisionCheck::next(s.collisions, r).1 is Done
                &&& CollisionCheck::next(s.collisions, r).1->Done_0 is Ok
                &&& p == ask_git::<i32>(s.home, merge_args(s.upstream.reference), false)
            }
        }),
{
    match s.phase {
        SyncPhase::Colliding => {},
        SyncPhase::Preparing => {
            let (pv, p) = Prepare::next(s.prepare, r);
            let t = SyncView { prepare: pv, ..s };
            let d = SyncView { detection: Detection::initial(s.home), ..t };
            assert(SyncRun::detecting(d, ReplyView::Start).0.phase == SyncPhase::Detecting);
        },
        SyncPhase::Detecting => {},
        SyncPhase::Settling(_) => {},
        SyncPhase::Resolving => {},
        _ => match r {
            ReplyView::Ran(o) => {
                if s.phase == SyncPhase::Clean {
                    let u = SyncView { resolution: UpstreamResolution::initial(s.home, true), ..s };
                    assert(SyncRun::resolving(u, ReplyView::Start).0.phase == SyncPhase::Resolving);
                } else if s.phase == SyncPhase::TreeCheck {
                    let u = SyncView { collisions: CollisionCheck::initial(s.home, s.upstream.reference), ..s };
                    assert(SyncRun::colliding(u, ReplyView::Start).0.phase == SyncPhase::Colliding);
                } else if s.phase == SyncPhase::MergeCheck {
                    let u = SyncView { merge: MergeResolution::initial(s.home, s.interactive), ..s };
                    assert(SyncRun::settling(u, true, ReplyView::Start).0.phase == SyncPhase::Settling(true));
                }
            },
            _ => {},
        },
    }
}

/// Sync looks for its upstream only after the tracked work tree and index
/// were found clean: with tracked changes nothing is fetched, merged or
/// pushed, and the error gives the steps to commit them.
#[verifier::rlimit(80)]
pub proof fn lemma_sync_requires_clean(s: SyncView, r: ReplyView)
    ensures
        ({
            let (t, p) = SyncRun::next(s, r);
            &&& t.phase == SyncPhase::Resolving && s.phase != SyncPhase::Resolving ==> {
                &&& s.phase == SyncPhase::Clean
                &&& r matches ReplyView::Ran(o) && succeeded(o) && o.stdout.len() == 0
            }
            &&& s.phase == SyncPhase::Summary && (r matches ReplyView::Ran(o) && text_view(
                "summarize tracked home changes"@,
                o,
            ) is Ok) ==> p == ProgressView::<i32>::Done(
                Err((dirty_message(text_view("summarize tracked home changes"@, r->Ran_0)->Ok_0), 1)),
            )
        }),
{
    match s.phase {
        SyncPhase::Preparing => {
            let (pv, p) = Prepare::next(s.prepare, r);
            let t = SyncView { prepare: pv, ..s };
            let d = SyncView { detection: Detection::initial(s.home), ..t };
            assert(SyncRun::detecting(d, ReplyView::Start).0.phase == SyncPhase::Detecting);
        },
        _ => match r {
            ReplyView::Ran(o) => {
                if s.phase == SyncPhase::TreeCheck {
                    let u = SyncView { collisions: CollisionCheck::initial(s.home, s.upstream.reference), ..s };
                    assert(SyncRun::colliding(u, ReplyView::Start).0.phase == SyncPhase::Colliding);
                } else if s.phase == SyncPhase::MergeCheck {
                    let u = SyncView { merge: MergeResolution::initial(s.home, s.interactive), ..s };
                    assert(SyncRun::settling(u, true, ReplyView::Start).0.phase == SyncPhase::Settling(true));
                }
            },
            _ => {},
        },
    }
}

/// The collision check starts in a state that keeps `collision_inv`.
pub proof fn lemma_collisions_start_well(home: Seq<u8>, reference: Seq<char>)
    ensures
        collision_inv(CollisionCheck::initial(home, reference)),
{
}

/// The Git commands sync may run: reading ones, the fetch, the merge and
/// push of the workflow, and the ones that resolve and commit a merge.
/// Neither `stash`, `rebase`, `reset` nor any other command that rewrites
/// commits is among them.
pub open spec fn sync_args(a: Seq<Seq<u8>>) -> bool {
    ||| reading_args(a)
    ||| a.len() > 0 && a[0] == word("status"@)
    ||| a.len() > 0 && a[0] == word("ls-tree"@)
    ||| a.len() > 0 && a[0] == word("check-ignore"@)
    ||| a.len() > 0 && a[0] == word("merge"@)
    ||| a.len() > 0 && a[0] == word("checkout"@)
    ||| a.len() > 0 && a[0] == word("add"@)
    ||| a.len() > 0 && a[0] == word("rm"@)
    ||| a.len() > 0 && a[0] == word("mergetool"@)
    ||| a == commit_args()
    ||| exists|u: UpstreamView| a == push_args(u)
}

/// A request whose Git run, if it is one, is a sync command against the
/// repository.
pub open spec fn sync_request(home: Seq<u8>, q: RequestView) -> bool {
    q matches RequestView::RunGit(c) ==> exists|a: Seq<Seq<u8>>| c.args == context_args(home) + a
        && sync_args(a)
}

pub open spec fn asks_sync<V>(home: Seq<u8>, p: ProgressView<V>) -> bool {
    p matches ProgressView::Ask(q) ==> sync_request(home, q)
}

proof fn lemma_sync_call<V>(home: Seq<u8>, a: Seq<Seq<u8>>, captured: bool)
    requires
        sync_args(a),
    ensures
        asks_sync(home, ask_git::<V>(home, a, captured)),
{
    assert(git_call(home, a, captured).args == context_args(home) + a);
}

proof fn lemma_leaving_is_sync<V>(home: Seq<u8>, p: ProgressView<V>)
    requires
        asks_only_leaving(home, p),
    ensures
        asks_sync(home, p),
{
    if let ProgressView::Ask(RequestView::RunGit(c)) = p {
        let a = choose|a: Seq<Seq<u8>>| c.args == context_args(home) + a && reading_args(a);
        assert(sync_args(a));
    }
}

/// The search for a local path in the way only looks at paths.
proof fn lemma_search_only_inspects(s: BlockerSearchView, r: ReplyView)
    ensures
        BlockerSearch::next(s, r).1 matches SearchStepView::Ask(q) ==> q is Inspect,
{
}

proof fn lemma_detection_sync(s: DetectionView, r: ReplyView)
    ensures
        asks_sync(s.home, Detection::next(s, r).1),
        Detection::next(s, r).0.home == s.home,
{
    lemma_words_of_first(seq!["rev-parse", "--verify", "--quiet"]);
    lemma_sync_call::<Operation>(s.home, pseudo_ref_args("MERGE_HEAD"@), true);
    lemma_sync_call::<Operation>(s.home, pseudo_ref_args("CHERRY_PICK_HEAD"@), true);
    lemma_sync_call::<Operation>(s.home, pseudo_ref_args("REVERT_HEAD"@), true);
}

proof fn lemma_select_sync(s: SelectView, r: ReplyView)
    ensures
        asks_sync(s.home, SelectSide::next(s, r).1),
        SelectSide::next(s, r).0.home == s.home,
{
    lemma_words_of_first(seq!["ls-files", "--unmerged", "-z", "--"]);
    lemma_words_of_first(seq!["checkout", side_flag(s.side), "--"]);
    lemma_words_of_first(seq!["rm", "-f", "--"]);
    lemma_words_of_first(seq!["add", "--"]);
    lemma_sync_call::<()>(s.home, stages_args(s.path), true);
    lemma_sync_call::<()>(s.home, words_of(seq!["checkout", side_flag(s.side), "--"]).push(s.path), false);
    lemma_sync_call::<()>(s.home, words_of(seq!["rm", "-f", "--"]).push(s.path), false);
    lemma_sync_call::<()>(s.home, words_of(seq!["add", "--"]).push(s.path), false);
}

#[verifier::rlimit(80)]
proof fn lemma_merge_resolution_sync(s: MergeView, r: ReplyView)
    requires
        s.select.home == s.home,
    ensures
        asks_sync(s.home, MergeResolution::next(s, r).1),
        MergeResolution::next(s, r).0.home == s.home,
        MergeResolution::next(s, r).0.select.home == s.home,
{
    lemma_words_of_first(seq!["diff", "--name-only", "--diff-filter=U", "-z", "--"]);
    lemma_words_of_first(seq!["ls-files", "--unmerged", "-z", "--"]);
    lemma_words_of_first(seq!["mergetool", "--no-prompt", "--"]);
    lemma_sync_call::<bool>(s.home, unresolved_args(), true);
    lemma_sync_call::<bool>(s.home, commit_args(), false);
    let p = s.paths[s.index];
    let q = s.paths[s.index + 1];
    lemma_sync_call::<bool>(s.home, stages_args(p), true);
    lemma_sync_call::<bool>(s.home, stages_args(q), true);
    lemma_sync_call::<bool>(s.home, words_of(seq!["mergetool", "--no-prompt", "--"]).push(p), false);
    if let ReplyView::Ran(o) = r {
        lemma_sync_call::<bool>(s.home, stages_args(nul_paths_spec(o.stdout)[0]), true);
    }
    lemma_select_sync(s.select, r);
    lemma_select_sync(SelectSide::initial(s.home, p, Side::Local), ReplyView::Start);
    lemma_select_sync(SelectSide::initial(s.home, p, Side::Upstream), ReplyView::Start);
}

proof fn lemma_collision_visit_sync(s: CollisionCheckView)
    ensures
        asks_sync(s.home, CollisionCheck::visit(s).1),
        CollisionCheck::visit(s).0.home == s.home,
    decreases s.added.len() - s.index,
{
    if s.index < s.added.len() {
        let (bv, st) = BlockerSearch::next(BlockerSearch::initial(s.home, s.added[s.index]), ReplyView::Start);
        lemma_search_only_inspects(BlockerSearch::initial(s.home, s.added[s.index]), ReplyView::Start);
        lemma_collision_after_search_sync(CollisionCheckView { search: bv, ..s }, st);
    }
}

proof fn lemma_collision_after_search_sync(s: CollisionCheckView, st: SearchStepView)
    requires
        st matches SearchStepView::Ask(q) ==> q is Inspect,
    ensures
        asks_sync(s.home, CollisionCheck::after_search(s, st).1),
        CollisionCheck::after_search(s, st).0.home == s.home,
    decreases s.added.len() - s.index, 0int,
{
    lemma_words_of_first(seq!["check-ignore", "--quiet", "--"]);
    if s.index < s.added.len() {
        match st {
            SearchStepView::Found(Ok(None)) => lemma_collision_visit_sync(CollisionCheckView { index: s.index + 1, ..s }),
            SearchStepView::Found(Ok(Some(b))) => {
                lemma_sync_call::<()>(s.home, ignore_args(b), true);
                if seen(s.collisions, b) {
                    lemma_collision_visit_sync(CollisionCheckView { index: s.index + 1, ..s });
                }
            },
            _ => {},
        }
    }
}

proof fn lemma_collision_sync(s: CollisionCheckView, r: ReplyView)
    ensures
        asks_sync(s.home, CollisionCheck::next(s, r).1),
        CollisionCheck::next(s, r).0.home == s.home,
{
    lemma_words_of_first(seq!["diff", "--name-only", "--diff-filter=A", "--no-renames", "-z", "HEAD"]);
    lemma_sync_call::<()>(s.home, added_args(s.reference), true);
    match s.phase {
        CollisionPhase::Searching => {
            let (bv, st) = BlockerSearch::next(s.search, r);
            lemma_search_only_inspects(s.search, r);
            lemma_collision_after_search_sync(CollisionCheckView { search: bv, ..s }, st);
        },
        CollisionPhase::Listing => {
            if let ReplyView::Ran(o) = r {
                lemma_collision_visit_sync(CollisionCheckView { added: nul_paths_spec(o.stdout), index: 0, ..s });
            }
        },
        CollisionPhase::Ignoring => {
            lemma_collision_visit_sync(
                CollisionCheckView {
                    collisions: s.collisions.push(
                        CollisionView { remote_path: s.added[s.index], local_blocker: s.pending, ignored: true },
                    ),
                    index: s.index + 1,
                    ..s
                },
            );
            lemma_collision_visit_sync(
                CollisionCheckView {
                    collisions: s.collisions.push(
                        CollisionView { remote_path: s.added[s.index], local_blocker: s.pending, ignored: false },
                    ),
                    index: s.index + 1,
                    ..s
                },
            );
        },
        _ => {},
    }
}

/// What every state of `madm sync` keeps: its parts work on its home.
pub open spec fn sync_inv(s: SyncView) -> bool {
    &&& s.prepare.home == s.home
    &&& s.prepare.exclusion.home == s.home
    &&& s.detection.home == s.home
    &&& s.merge.home == s.home
    &&& s.merge.select.home == s.home
    &&& s.resolution.home == s.home
    &&& s.collisions.home == s.home
}

/// `madm sync` never stashes, rebases, resets or force-pushes: every Git
/// command of every step is a reading one, the fetch, `status`, `ls-tree`,
/// `check-ignore`, the merge of upstream, the commands that resolve and
/// commit a conflicted merge, or a push of the form `push_args`, whose
/// refspec has no `+`.
#[verifier::rlimit(80)]
pub proof fn lemma_sync_never_rewrites(s: SyncView, r: ReplyView)
    requires
        sync_inv(s),
    ensures
        sync_inv(SyncRun::next(s, r).0),
        asks_sync(s.home, SyncRun::next(s, r).1),
{
    lemma_words_of_first(seq!["status", "--porcelain=v1", "-z", "--untracked-files=no"]);
    lemma_words_of_first(seq!["status", "--short", "--untracked-files=no"]);
    lemma_words_of_first(seq!["merge", "--ff", "--no-edit"]);
    lemma_words_of_first(seq!["ls-tree", "-r", "--name-only", "-z"]);
    lemma_words_of_first(seq!["rev-parse", "--verify", "--quiet"]);
    lemma_sync_call::<i32>(s.home, revision_args("HEAD"@), true);
    lemma_sync_call::<i32>(s.home, clean_args(), true);
    lemma_sync_call::<i32>(s.home, summary_args(), true);
    lemma_sync_call::<i32>(s.home, merge_args(s.upstream.reference), false);
    lemma_sync_call::<i32>(s.home, push_args(s.upstream), false);
    lemma_sync_call::<i32>(s.home, pseudo_ref_args("MERGE_HEAD"@), true);
    match s.phase {
        SyncPhase::Preparing => {
            lemma_prepare_leaves_tree(s.prepare, r);
            lemma_leaving_is_sync(s.home, Prepare::next(s.prepare, r).1);
            lemma_detection_sync(Detection::initial(s.home), ReplyView::Start);
        },
        SyncPhase::Detecting => {
            lemma_detection_sync(s.detection, r);
            lemma_merge_resolution_sync(MergeResolution::initial(s.home, s.interactive), ReplyView::Start);
            if let ProgressView::Done(Ok(_)) = Detection::next(s.detection, r).1 {
                let t = SyncView { detection: Detection::next(s.detection, r).0, ..s };
                lemma_sync_call::<i32>(s.home, push_args(t.upstream), false);
            }
        },
        SyncPhase::Settling(_) => {
            lemma_merge_resolution_sync(s.merge, r);
        },
        SyncPhase::Resolving => {
            lemma_resolution_leaves_tree(s.resolution, r);
            lemma_leaving_is_sync(s.home, UpstreamResolution::next(s.resolution, r).1);
            if let ProgressView::Done(Ok(u)) = UpstreamResolution::next(s.resolution, r).1 {
                lemma_sync_call::<i32>(s.home, tree_reserved_args(u.reference), true);
                lemma_sync_call::<i32>(s.home, push_args(u), false);
            }
        },
        SyncPhase::Colliding => {
            lemma_collision_sync(s.collisions, r);
        },
        _ => {
            lemma_resolution_leaves_tree(UpstreamResolution::initial(s.home, true), ReplyView::Start);
            lemma_leaving_is_sync(
                s.home,
                UpstreamResolution::next(UpstreamResolution::initial(s.home, true), ReplyView::Start).1,
            );
            lemma_collision_sync(CollisionCheck::initial(s.home, s.upstream.reference), ReplyView::Start);
            lemma_merge_resolution_sync(MergeResolution::initial(s.home, s.interactive), ReplyView::Start);
        },
    }
}

/// `madm sync` starts in a state that keeps `sync_inv`.
pub proof fn lemma_sync_starts_well(home: Seq<u8>, interactive: bool)
    ensures
        sync_inv(SyncRun::initial(home, interactive)),
{
}

} // verus!
