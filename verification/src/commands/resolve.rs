use vstd::prelude::*;
use vstd::utf8::*;

use crate::cli::word;
use crate::commands::setup::{Prepare, PrepareView};
use crate::commands::steps::{
    answer_is, answer_letter, append_path, append_path_lines, ask_git, copy_bytes, git_request,
    path_lines, word_list, words_of, words_then_path,
};
use crate::context::{join, join_path, repository_path, Context};
use crate::error::MadmError;
use crate::git::{
    git_call, is_success, output_error, output_error_view, process_error, process_error_view,
    push_word, status_error, status_error_view, succeeded,
};
use crate::host::{
    error_view, ErrorView, GitOutcome, OutcomeView, Progress, ProgressView, Reply, ReplyView,
    Request, RequestView,
};
use crate::path::{nul_paths, nul_paths_spec, unexpected, unexpected_reply};
use crate::text::{
    bytes_of, chars_of, lossy_text, parse_unsigned, parse_unsigned_text, split_words, utf8_text,
    words,
};

verus! {

/// A Git operation that may be in progress in the repository.
#[derive(Copy, Clone, Debug, PartialEq, Eq, Structural)]
pub enum Operation {
    Nothing,
    Merge,
    Rebase,
    CherryPick,
    Revert,
}

/// The error for an operation that `resolve` does not handle.
pub open spec fn operation_message(operation: Operation) -> Seq<char> {
    match operation {
        Operation::Rebase => "a rebase is in progress; madm resolve handles merges only\nResolve paths with 'madm status' and 'madm add -- <path>', then run:\n  madm rebase --continue"@,
        Operation::CherryPick => "a cherry-pick is in progress; madm resolve handles merges only\nResolve paths with 'madm status' and 'madm add -- <path>', then run:\n  madm cherry-pick --continue"@,
        Operation::Revert => "a revert is in progress; madm resolve handles merges only\nResolve paths with 'madm status' and 'madm add -- <path>', then run:\n  madm revert --continue"@,
        Operation::Nothing => "no Git merge is in progress"@,
        Operation::Merge => "a Git merge is already in progress"@,
    }
}

/// The error that tells how to continue an operation other than a merge.
pub fn non_merge_operation_error(operation: Operation) -> (res: MadmError)
    ensures
        res.text() == operation_message(operation),
        res.exit_code() == 1,
{
    let message = match operation {
        Operation::Rebase => String::from_str(
            "a rebase is in progress; madm resolve handles merges only\nResolve paths with 'madm status' and 'madm add -- <path>', then run:\n  madm rebase --continue",
        ),
        Operation::CherryPick => String::from_str(
            "a cherry-pick is in progress; madm resolve handles merges only\nResolve paths with 'madm status' and 'madm add -- <path>', then run:\n  madm cherry-pick --continue",
        ),
        Operation::Revert => String::from_str(
            "a revert is in progress; madm resolve handles merges only\nResolve paths with 'madm status' and 'madm add -- <path>', then run:\n  madm revert --continue",
        ),
        Operation::Nothing => String::from_str("no Git merge is in progress"),
        Operation::Merge => String::from_str("a Git merge is already in progress"),
    };
    MadmError::new(message)
}

/// Which operation is in progress, from what the repository shows: a merge
/// first, then a rebase, a cherry-pick, a revert.
pub open spec fn operation_spec(
    merge_head: bool,
    rebase_dir: bool,
    cherry_pick_head: bool,
    revert_head: bool,
) -> Operation {
    if merge_head {
        Operation::Merge
    } else if rebase_dir {
        Operation::Rebase
    } else if cherry_pick_head {
        Operation::CherryPick
    } else if revert_head {
        Operation::Revert
    } else {
        Operation::Nothing
    }
}

/// The operation in progress, given whether `MERGE_HEAD` resolves, whether
/// a `rebase-merge` or `rebase-apply` directory exists, and whether
/// `CHERRY_PICK_HEAD` and `REVERT_HEAD` resolve.
pub fn current_operation(
    merge_head: bool,
    rebase_dir: bool,
    cherry_pick_head: bool,
    revert_head: bool,
) -> (res: Operation)
    ensures
        res == operation_spec(merge_head, rebase_dir, cherry_pick_head, revert_head),
{
    if merge_head {
        Operation::Merge
    } else if rebase_dir {
        Operation::Rebase
    } else if cherry_pick_head {
        Operation::CherryPick
    } else if revert_head {
        Operation::Revert
    } else {
        Operation::Nothing
    }
}

/// The index of the first `b` in `s`.
pub open spec fn find_byte(s: Seq<u8>, b: u8) -> Option<int>
    decreases s.len(),
{
    if s.len() == 0 {
        None
    } else if s[0] == b {
        Some(0)
    } else {
        match find_byte(s.drop_first(), b) {
            Some(i) => Some(i + 1),
            None => None,
        }
    }
}

pub open spec fn no_path_message() -> Seq<char> {
    "unexpected Git unmerged-index output without a path"@
}

pub open spec fn metadata_message() -> Seq<char> {
    "unexpected non-UTF-8 Git index metadata"@
}

pub open spec fn stage_message() -> Seq<char> {
    "unexpected Git unmerged-index stage"@
}

/// The stage number of one `ls-files --unmerged` entry: the third field of
/// the header in front of the tab.
pub open spec fn entry_stage(entry: Seq<u8>) -> Result<u8, Seq<char>> {
    match find_byte(entry, 9) {
        None => Err(no_path_message()),
        Some(tab) => {
            let header = entry.take(tab);
            if !valid_utf8(header) {
                Err(metadata_message())
            } else {
                let w = words(decode_utf8(header));
                if w.len() >= 3 && parse_unsigned(w[2], 255) is Some {
                    Ok(parse_unsigned(w[2], 255)->0 as u8)
                } else {
                    Err(stage_message())
                }
            }
        },
    }
}

/// The stages of all entries; the first bad entry decides the error.
pub open spec fn stages_of(entries: Seq<Seq<u8>>) -> Result<Set<u8>, Seq<char>>
    decreases entries.len(),
{
    if entries.len() == 0 {
        Ok(Set::empty())
    } else {
        match stages_of(entries.drop_last()) {
            Err(m) => Err(m),
            Ok(s) => match entry_stage(entries.last()) {
                Ok(v) => Ok(s.insert(v)),
                Err(m) => Err(m),
            },
        }
    }
}

fn find_tab(entry: &[u8]) -> (res: Option<usize>)
    ensures
        match res {
            Some(t) => t < entry@.len() && find_byte(entry@, 9) == Some(t as int),
            None => find_byte(entry@, 9) is None,
        },
{
    let mut i: usize = 0;
    assert(entry@.skip(0) =~= entry@);
    while i < entry.len()
        invariant
            i <= entry@.len(),
            find_byte(entry@, 9) == match find_byte(entry@.skip(i as int), 9) {
                Some(j) => Some(j + i),
                None => None,
            },
        decreases entry@.len() - i,
    {
        assert(entry@.skip(i as int).drop_first() =~= entry@.skip(i + 1));
        if entry[i] == 9 {
            return Some(i);
        }
        i = i + 1;
    }
    assert(entry@.skip(i as int) =~= Seq::<u8>::empty());
    None
}

proof fn lemma_stages_error_persists(entries: Seq<Seq<u8>>, k: int, m: Seq<char>)
    requires
        0 <= k <= entries.len(),
        stages_of(entries.take(k)) == Err::<Set<u8>, Seq<char>>(m),
    ensures
        stages_of(entries) == Err::<Set<u8>, Seq<char>>(m),
    decreases entries.len() - k,
{
    if k == entries.len() {
        assert(entries.take(k) =~= entries);
    } else {
        assert(entries.take(k + 1).drop_last() =~= entries.take(k));
        lemma_stages_error_persists(entries, k + 1, m);
    }
}

fn stage_of(entry: &[u8]) -> (res: Result<u8, MadmError>)
    ensures
        match entry_stage(entry@) {
            Ok(v) => res == Ok::<u8, MadmError>(v),
            Err(m) => res matches Err(e) && e.text() == m && e.exit_code() == 1,
        },
{
    let tab = match find_tab(entry) {
        Some(t) => t,
        None => {
            return Err(MadmError::new(String::from_str(
                "unexpected Git unmerged-index output without a path",
            )));
        },
    };
    let header = vstd::slice::slice_subrange(entry, 0, tab);
    assert(header@ =~= entry@.take(tab as int));
    let text = match utf8_text(header) {
        Some(t) => t,
        None => {
            return Err(MadmError::new(String::from_str("unexpected non-UTF-8 Git index metadata")));
        },
    };
    let chars = chars_of(text.as_str());
    let fields = split_words(chars.as_slice());
    if fields.len() < 3 {
        return Err(MadmError::new(String::from_str("unexpected Git unmerged-index stage")));
    }
    assert(fields@[2].deep_view() =~= fields@[2]@);
    match parse_unsigned_text(fields[2].as_slice(), 255) {
        Some(v) => Ok(v as u8),
        None => Err(MadmError::new(String::from_str("unexpected Git unmerged-index stage"))),
    }
}

/// The set of stage numbers in `git ls-files --unmerged -z` output.
pub fn parse_unmerged_stages(entries: &[u8]) -> (res: Result<
    std::collections::HashSet<u8>,
    MadmError,
>)
    ensures
        match stages_of(nul_paths_spec(entries@)) {
            Ok(s) => res matches Ok(h) && h@ == s,
            Err(m) => res matches Err(e) && e.text() == m && e.exit_code() == 1,
        },
{
    broadcast use vstd::std_specs::hash::group_hash_axioms;

    let list = nul_paths(entries);
    let ghost all = nul_paths_spec(entries@);
    let mut stages: std::collections::HashSet<u8> = std::collections::HashSet::new();
    let mut i: usize = 0;
    assert(all.take(0) =~= Seq::<Seq<u8>>::empty());
    while i < list.len()
        invariant
            list.deep_view() == all,
            all == nul_paths_spec(entries@),
            i <= all.len(),
            stages_of(all.take(i as int)) == Ok::<Set<u8>, Seq<char>>(stages@),
        decreases all.len() - i,
    {
        assert(list@[i as int].deep_view() =~= list@[i as int]@);
        assert(all[i as int] == list@[i as int]@);
        assert(all.take(i + 1).drop_last() =~= all.take(i as int));
        assert(all.take(i + 1).last() == all[i as int]);
        let stage = match stage_of(list[i].as_slice()) {
            Ok(v) => v,
            Err(e) => {
                proof {
                    assert(entry_stage(all[i as int]) == Err::<u8, Seq<char>>(e.text()));
                    assert(stages_of(all.take(i + 1)) == Err::<Set<u8>, Seq<char>>(e.text()));
                    lemma_stages_error_persists(all, i + 1, e.text());
                }
                return Err(e);
            },
        };
        stages.insert(stage);
        i = i + 1;
    }
    assert(all.take(all.len() as int) =~= all);
    Ok(stages)
}

/// The side of a conflict that the user picks.
#[derive(Copy, Clone, Debug, PartialEq, Eq, Structural)]
pub enum Side {
    Local,
    Upstream,
}

/// The index stage that holds a side: 2 for the local one, 3 for upstream.
pub open spec fn side_stage(side: Side) -> u8 {
    match side {
        Side::Local => 2,
        Side::Upstream => 3,
    }
}

pub open spec fn side_flag(side: Side) -> &'static str {
    match side {
        Side::Local => "--ours",
        Side::Upstream => "--theirs",
    }
}

pub open spec fn side_label(side: Side) -> Seq<char> {
    match side {
        Side::Local => "local"@,
        Side::Upstream => "upstream"@,
    }
}

/// Where picking a side stands.
#[derive(Copy, Clone, Debug, PartialEq, Eq, Structural)]
pub enum SelectPhase {
    Begin,
    Stages,
    Checkout,
    Adding,
    Removing,
    Over,
}

/// Resolving one conflicted path with one side (`select_side`).
pub struct SelectSide {
    context: Context,
    path: Vec<u8>,
    side: Side,
    phase: SelectPhase,
}

pub struct SelectView {
    pub home: Seq<u8>,
    pub path: Seq<u8>,
    pub side: Side,
    pub phase: SelectPhase,
}

pub open spec fn stages_args(path: Seq<u8>) -> Seq<Seq<u8>> {
    words_of(seq!["ls-files", "--unmerged", "-z", "--"]).push(path)
}

impl SelectSide {
    pub closed spec fn view(&self) -> SelectView {
        SelectView {
            home: self.context.home_path(),
            path: self.path@,
            side: self.side,
            phase: self.phase,
        }
    }

    pub open spec fn initial(home: Seq<u8>, path: Seq<u8>, side: Side) -> SelectView {
        SelectView { home, path, side, phase: SelectPhase::Begin }
    }

    /// The local or upstream content of a conflicted path is checked out and
    /// staged; when that side deleted the path, the path is removed.
    pub open spec fn next(s: SelectView, r: ReplyView) -> (SelectView, ProgressView<()>) {
        let over = SelectView { phase: SelectPhase::Over, ..s };
        let label = side_label(s.side);
        let shown = lossy_text(s.path);
        match s.phase {
            SelectPhase::Begin => (
                SelectView { phase: SelectPhase::Stages, ..s },
                ask_git(s.home, stages_args(s.path), true),
            ),
            SelectPhase::Over => (over, ProgressView::Done(Err(unexpected_reply()))),
            _ => match r {
                ReplyView::Failed(k, d) => (over, ProgressView::Done(Err(process_error_view(k, d)))),
                ReplyView::Ran(o) => match s.phase {
                    SelectPhase::Stages => if !succeeded(o) {
                        (over, ProgressView::Done(Err(output_error_view("inspect merge stages"@, o))))
                    } else {
                        match stages_of(nul_paths_spec(o.stdout)) {
                            Err(m) => (over, ProgressView::Done(Err((m, 1)))),
                            Ok(set) => if set.contains(side_stage(s.side)) {
                                (
                                    SelectView { phase: SelectPhase::Checkout, ..s },
                                    ask_git(
                                        s.home,
                                        words_of(seq!["checkout", side_flag(s.side), "--"]).push(
                                            s.path,
                                        ),
                                        false,
                                    ),
                                )
                            } else {
                                (
                                    SelectView { phase: SelectPhase::Removing, ..s },
                                    ask_git(s.home, words_of(seq!["rm", "-f", "--"]).push(s.path), false),
                                )
                            },
                        }
                    },
                    SelectPhase::Checkout => if !succeeded(o) {
                        (
                            over,
                            ProgressView::Done(
                                Err(status_error_view("check out the "@ + label + " side of "@ + shown, o.code)),
                            ),
                        )
                    } else {
                        (
                            SelectView { phase: SelectPhase::Adding, ..s },
                            ask_git(s.home, words_of(seq!["add", "--"]).push(s.path), false),
                        )
                    },
                    SelectPhase::Adding => if !succeeded(o) {
                        (
                            over,
                            ProgressView::Done(
                                Err(status_error_view("stage the "@ + label + " resolution for "@ + shown, o.code)),
                            ),
                        )
                    } else {
                        (over, ProgressView::Done(Ok(())))
                    },
                    _ => if !succeeded(o) {
                        (
                            over,
                            ProgressView::Done(
                                Err(status_error_view("stage the "@ + label + " deletion for "@ + shown, o.code)),
                            ),
                        )
                    } else {
                        (over, ProgressView::Done(Ok(())))
                    },
                },
                _ => (over, ProgressView::Done(Err(unexpected_reply()))),
            },
        }
    }

    pub fn new(context: &Context, path: &[u8], side: Side) -> (res: SelectSide)
        ensures
            res.view() == Self::initial(context.home_path(), path@, side),
    {
        SelectSide { context: context.copy(), path: copy_bytes(path), side, phase: SelectPhase::Begin }
    }

    fn action(&self, first: &str, second: &str) -> (res: String)
        ensures
            res@ == first@ + side_label(self.side) + second@ + lossy_text(self.path@),
    {
        let mut text = String::from_str(first);
        match self.side {
            Side::Local => text.append("local"),
            Side::Upstream => text.append("upstream"),
        }
        text.append(second);
        append_path(&mut text, self.path.as_slice());
        text
    }

    pub fn step(&mut self, reply: Reply) -> (res: Progress<()>)
        ensures
            (final(self).view(), res@) == Self::next(old(self).view(), reply@),
    {
        match self.phase {
            SelectPhase::Begin => {
                self.phase = SelectPhase::Stages;
                let args = words_then_path(&["ls-files", "--unmerged", "-z", "--"], self.path.as_slice());
                return Progress::Ask(git_request(&self.context, args, true));
            },
            SelectPhase::Over => {
                return Progress::Done(Err(unexpected()));
            },
            _ => {},
        }
        let phase = self.phase;
        self.phase = SelectPhase::Over;
        let outcome = match reply {
            Reply::Failed(f) => {
                return Progress::Done(Err(process_error(&f)));
            },
            Reply::Ran(o) => o,
            _ => {
                return Progress::Done(Err(unexpected()));
            },
        };
        let ok = crate::git::is_success(&outcome);
        match phase {
            SelectPhase::Stages => {
                if !ok {
                    return Progress::Done(Err(output_error("inspect merge stages", &outcome)));
                }
                let stages = match parse_unmerged_stages(outcome.stdout.as_slice()) {
                    Ok(set) => set,
                    Err(e) => {
                        return Progress::Done(Err(e));
                    },
                };
                let stage: u8 = match self.side {
                    Side::Local => 2,
                    Side::Upstream => 3,
                };
                broadcast use vstd::std_specs::hash::group_hash_axioms;
                if stages.contains(&stage) {
                    self.phase = SelectPhase::Checkout;
                    let flag = match self.side {
                        Side::Local => "--ours",
                        Side::Upstream => "--theirs",
                    };
                    let args = words_then_path(&["checkout", flag, "--"], self.path.as_slice());
                    Progress::Ask(git_request(&self.context, args, false))
                } else {
                    self.phase = SelectPhase::Removing;
                    let args = words_then_path(&["rm", "-f", "--"], self.path.as_slice());
                    Progress::Ask(git_request(&self.context, args, false))
                }
            },
            SelectPhase::Checkout => {
                if !ok {
                    let action = self.action("check out the ", " side of ");
                    return Progress::Done(Err(status_error(action.as_str(), outcome.code)));
                }
                self.phase = SelectPhase::Adding;
                let args = words_then_path(&["add", "--"], self.path.as_slice());
                Progress::Ask(git_request(&self.context, args, false))
            },
            SelectPhase::Adding => {
                if !ok {
                    let action = self.action("stage the ", " resolution for ");
                    return Progress::Done(Err(status_error(action.as_str(), outcome.code)));
                }
                Progress::Done(Ok(()))
            },
            _ => {
                if !ok {
                    let action = self.action("stage the ", " deletion for ");
                    return Progress::Done(Err(status_error(action.as_str(), outcome.code)));
                }
                Progress::Done(Ok(()))
            },
        }
    }
}

/// Where the merge-resolution dialogue stands.
#[derive(Copy, Clone, Debug, PartialEq, Eq, Structural)]
pub enum MergePhase {
    Begin,
    Listing,
    Checking,
    Prompting,
    Selecting(Side),
    Tool,
    ToolCheck,
    Warned,
    Announced,
    Relisting,
    Committing,
    Reporting(bool),
    Over,
}

/// Resuming a conflicted merge path by path (`resolve_merge`); the result
/// tells whether the merge commit was made.
pub struct MergeResolution {
    context: Context,
    interactive: bool,
    paths: Vec<Vec<u8>>,
    index: usize,
    phase: MergePhase,
    select: SelectSide,
}

pub struct MergeView {
    pub home: Seq<u8>,
    pub interactive: bool,
    pub paths: Seq<Seq<u8>>,
    pub index: int,
    pub phase: MergePhase,
    pub select: SelectView,
}

/// `git diff --name-only --diff-filter=U -z --`: the unresolved paths.
pub open spec fn unresolved_args() -> Seq<Seq<u8>> {
    words_of(seq!["diff", "--name-only", "--diff-filter=U", "-z", "--"])
}

/// `git commit --no-edit`: the prepared merge commit.
pub open spec fn commit_args() -> Seq<Seq<u8>> {
    words_of(seq!["commit", "--no-edit"])
}

/// The report of paths that still need resolution.
pub open spec fn pending_text(paths: Seq<Seq<u8>>) -> Seq<char> {
    "Merge conflicts still need resolution:\n"@ + path_lines(paths)
        + "Run 'madm resolve' in an interactive terminal to continue.\n"@
}

pub open spec fn prompt_text(path: Seq<u8>) -> Seq<char> {
    lossy_text(path) + " is unresolved [Enter=skip, l=local, u=upstream, m=mergetool, q=quit]: "@
}

pub open spec fn resolved_text(path: Seq<u8>, how: Seq<char>) -> Seq<char> {
    "Resolved "@ + lossy_text(path) + how + ".\n"@
}

pub open spec fn tool_failed_text(path: Seq<u8>) -> Seq<char> {
    "madm: the merge tool did not resolve "@ + lossy_text(path) + "; choose another action"@
}

impl MergeResolution {
    pub closed spec fn view(&self) -> MergeView {
        MergeView {
            home: self.context.home_path(),
            interactive: self.interactive,
            paths: self.paths.deep_view(),
            index: self.index as int,
            phase: self.phase,
            select: self.select.view(),
        }
    }

    pub open spec fn initial(home: Seq<u8>, interactive: bool) -> MergeView {
        MergeView {
            home,
            interactive,
            paths: Seq::empty(),
            index: 0,
            phase: MergePhase::Begin,
            select: SelectSide::initial(home, Seq::empty(), Side::Local),
        }
    }

    /// Asks whether the current path is still unresolved.
    pub open spec fn check(s: MergeView) -> (MergeView, ProgressView<bool>) {
        (
            MergeView { phase: MergePhase::Checking, ..s },
            ask_git(s.home, stages_args(s.paths[s.index]), true),
        )
    }

    /// Moves on to the next path, or lists what is left after the last.
    pub open spec fn advance(s: MergeView) -> (MergeView, ProgressView<bool>) {
        if s.index + 1 < s.paths.len() {
            Self::check(MergeView { index: s.index + 1, ..s })
        } else {
            (MergeView { phase: MergePhase::Relisting, ..s }, ask_git(s.home, unresolved_args(), true))
        }
    }

    /// Makes the merge commit.
    pub open spec fn commit(s: MergeView) -> (MergeView, ProgressView<bool>) {
        (MergeView { phase: MergePhase::Committing, ..s }, ask_git(s.home, commit_args(), false))
    }

    /// Tells what is still pending and ends without the commit.
    pub open spec fn report_pending(s: MergeView, paths: Seq<Seq<u8>>) -> (MergeView, ProgressView<bool>) {
        (
            MergeView { phase: MergePhase::Reporting(false), ..s },
            ProgressView::Ask(RequestView::Say(pending_text(paths))),
        )
    }

    /// Hands a reply to the side selection and goes on when it is done.
    pub open spec fn selecting(s: MergeView, side: Side, r: ReplyView) -> (MergeView, ProgressView<bool>) {
        let (sv, p) = SelectSide::next(s.select, r);
        let t = MergeView { select: sv, ..s };
        match p {
            ProgressView::Ask(q) => (t, ProgressView::Ask(q)),
            ProgressView::Done(Err(e)) => (
                MergeView { phase: MergePhase::Over, ..t },
                ProgressView::Done(Err(e)),
            ),
            ProgressView::Done(Ok(_)) => (
                MergeView { phase: MergePhase::Announced, ..t },
                ProgressView::Ask(
                    RequestView::Say(
                        resolved_text(
                            s.paths[s.index],
                            if side == Side::Local {
                                " with the local side"@
                            } else {
                                " with the upstream side"@
                            },
                        ),
                    ),
                ),
            ),
        }
    }

    /// One step of the dialogue. The merge commit is asked for only when the
    /// list of unresolved paths comes back empty; without a terminal the
    /// pending paths are reported and nothing is touched; per path, Enter or
    /// `s` skips, `q` stops, `l` and `u` pick a side, `m` runs the merge tool.
    pub open spec fn next(s: MergeView, r: ReplyView) -> (MergeView, ProgressView<bool>) {
        let over = MergeView { phase: MergePhase::Over, ..s };
        match s.phase {
            MergePhase::Begin => (
                MergeView { phase: MergePhase::Listing, ..s },
                ask_git(s.home, unresolved_args(), true),
            ),
            MergePhase::Over => (over, ProgressView::Done(Err(unexpected_reply()))),
            MergePhase::Selecting(side) => Self::selecting(s, side, r),
            MergePhase::Prompting => Self::answered(s, r),
            MergePhase::Warned => match r {
                ReplyView::Ack => Self::check(s),
                _ => (over, ProgressView::Done(Err(unexpected_reply()))),
            },
            MergePhase::Announced => match r {
                ReplyView::Ack => Self::advance(s),
                _ => (over, ProgressView::Done(Err(unexpected_reply()))),
            },
            MergePhase::Reporting(done) => match r {
                ReplyView::Ack => (over, ProgressView::Done(Ok(done))),
                _ => (over, ProgressView::Done(Err(unexpected_reply()))),
            },
            _ => Self::ran(s, r),
        }
    }

    /// The answer to the prompt for the current path.
    pub open spec fn answered(s: MergeView, r: ReplyView) -> (MergeView, ProgressView<bool>) {
        let over = MergeView { phase: MergePhase::Over, ..s };
        match r {
                    ReplyView::Refused(e) => (over, ProgressView::Done(Err(e))),
                    ReplyView::Answer(a) => if a.len() == 0 || answer_is(a, 's') {
                        Self::advance(s)
                    } else if answer_is(a, 'q') {
                        Self::report_pending(s, s.paths.skip(s.index))
                    } else if answer_is(a, 'l') || answer_is(a, 'u') {
                        let side = if answer_is(a, 'l') {
                            Side::Local
                        } else {
                            Side::Upstream
                        };
                        Self::selecting(
                            MergeView {
                                phase: MergePhase::Selecting(side),
                                select: SelectSide::initial(s.home, s.paths[s.index], side),
                                ..s
                            },
                            side,
                            ReplyView::Start,
                        )
                    } else if answer_is(a, 'm') {
                        (
                            MergeView { phase: MergePhase::Tool, ..s },
                            ask_git(
                                s.home,
                                words_of(seq!["mergetool", "--no-prompt", "--"]).push(s.paths[s.index]),
                                false,
                            ),
                        )
                    } else {
                        (
                            MergeView { phase: MergePhase::Warned, ..s },
                            ProgressView::Ask(
                                RequestView::Complain("madm: choose Enter, l, u, m, or q"@),
                            ),
                        )
                    },
                    _ => (over, ProgressView::Done(Err(unexpected_reply()))),
                }
    }

    /// A finished Git run in one of the phases that wait for one.
    pub open spec fn ran(s: MergeView, r: ReplyView) -> (MergeView, ProgressView<bool>) {
        let over = MergeView { phase: MergePhase::Over, ..s };
        match r {
                    ReplyView::Failed(k, d) => (over, ProgressView::Done(Err(process_error_view(k, d)))),
                    ReplyView::Ran(o) => match s.phase {
                        MergePhase::Listing => if !succeeded(o) {
                            (over, ProgressView::Done(Err(output_error_view("list unresolved merge paths"@, o))))
                        } else {
                            let paths = nul_paths_spec(o.stdout);
                            let t = MergeView { paths, index: 0, ..s };
                            if paths.len() == 0 {
                                Self::commit(t)
                            } else if !s.interactive {
                                Self::report_pending(t, paths)
                            } else {
                                Self::check(t)
                            }
                        },
                        MergePhase::Checking => if !succeeded(o) {
                            (over, ProgressView::Done(Err(output_error_view("inspect unresolved merge path"@, o))))
                        } else if o.stdout.len() == 0 {
                            Self::advance(s)
                        } else {
                            (
                                MergeView { phase: MergePhase::Prompting, ..s },
                                ProgressView::Ask(RequestView::Ask(prompt_text(s.paths[s.index]))),
                            )
                        },
                        MergePhase::Tool => if succeeded(o) {
                            (
                                MergeView { phase: MergePhase::ToolCheck, ..s },
                                ask_git(s.home, stages_args(s.paths[s.index]), true),
                            )
                        } else {
                            (
                                MergeView { phase: MergePhase::Warned, ..s },
                                ProgressView::Ask(RequestView::Complain(tool_failed_text(s.paths[s.index]))),
                            )
                        },
                        MergePhase::ToolCheck => if !succeeded(o) {
                            (over, ProgressView::Done(Err(output_error_view("inspect unresolved merge path"@, o))))
                        } else if o.stdout.len() == 0 {
                            (
                                MergeView { phase: MergePhase::Announced, ..s },
                                ProgressView::Ask(
                                    RequestView::Say(
                                        resolved_text(s.paths[s.index], " with the configured merge tool"@),
                                    ),
                                ),
                            )
                        } else {
                            (
                                MergeView { phase: MergePhase::Warned, ..s },
                                ProgressView::Ask(RequestView::Complain(tool_failed_text(s.paths[s.index]))),
                            )
                        },
                        MergePhase::Relisting => if !succeeded(o) {
                            (over, ProgressView::Done(Err(output_error_view("list unresolved merge paths"@, o))))
                        } else {
                            let remaining = nul_paths_spec(o.stdout);
                            if remaining.len() == 0 {
                                Self::commit(s)
                            } else {
                                Self::report_pending(s, remaining)
                            }
                        },
                        _ => if !succeeded(o) {
                            (over, ProgressView::Done(Err(status_error_view("finish the merge commit"@, o.code))))
                        } else {
                            (
                                MergeView { phase: MergePhase::Reporting(true), ..s },
                                ProgressView::Ask(RequestView::Say("Finished the merge commit.\n"@)),
                            )
                        },
                    },
                    _ => (over, ProgressView::Done(Err(unexpected_reply()))),
                }
    }

    /// The states the dialogue can be in: a current path exists wherever one
    /// is used.
    pub open spec fn valid(s: MergeView) -> bool {
        match s.phase {
            MergePhase::Checking | MergePhase::Prompting | MergePhase::Selecting(_)
            | MergePhase::Tool | MergePhase::ToolCheck | MergePhase::Warned
            | MergePhase::Announced => 0 <= s.index < s.paths.len(),
            _ => 0 <= s.index,
        }
    }

    pub fn new(context: &Context, interactive: bool) -> (res: MergeResolution)
        ensures
            res.view() == Self::initial(context.home_path(), interactive),
            Self::valid(res.view()),
    {
        let empty: Vec<u8> = Vec::new();
        let select = SelectSide::new(context, empty.as_slice(), Side::Local);
        let res = MergeResolution {
            context: context.copy(),
            interactive,
            paths: Vec::new(),
            index: 0,
            phase: MergePhase::Begin,
            select,
        };
        assert(res.view().paths =~= Seq::<Seq<u8>>::empty());
        assert(res.view().select.path =~= Seq::<u8>::empty());
        res
    }

    fn check_exec(&mut self) -> (res: Progress<bool>)
        requires
            old(self).index < old(self).paths@.len(),
        ensures
            (final(self).view(), res@) == Self::check(old(self).view()),
    {
        self.phase = MergePhase::Checking;
        proof {
            assert(self.paths@[self.index as int].deep_view() =~= self.paths@[self.index as int]@);
        }
        let args = words_then_path(&["ls-files", "--unmerged", "-z", "--"], self.paths[self.index].as_slice());
        Progress::Ask(git_request(&self.context, args, true))
    }

    fn advance_exec(&mut self) -> (res: Progress<bool>)
        requires
            old(self).index < old(self).paths@.len(),
        ensures
            (final(self).view(), res@) == Self::advance(old(self).view()),
    {
        if self.index < self.paths.len() - 1 {
            self.index = self.index + 1;
            self.check_exec()
        } else {
            self.phase = MergePhase::Relisting;
            let args = word_list(&["diff", "--name-only", "--diff-filter=U", "-z", "--"]);
            Progress::Ask(git_request(&self.context, args, true))
        }
    }

    fn commit_exec(&mut self) -> (res: Progress<bool>)
        ensures
            (final(self).view(), res@) == Self::commit(old(self).view()),
    {
        self.phase = MergePhase::Committing;
        let args = word_list(&["commit", "--no-edit"]);
        Progress::Ask(git_request(&self.context, args, false))
    }

    fn report_exec(&mut self, paths: &Vec<Vec<u8>>, from: usize) -> (res: Progress<bool>)
        requires
            from <= paths@.len(),
        ensures
            (final(self).view(), res@) == Self::report_pending(
                old(self).view(),
                paths.deep_view().skip(from as int),
            ),
    {
        self.phase = MergePhase::Reporting(false);
        let mut text = String::from_str("Merge conflicts still need resolution:\n");
        append_path_lines(&mut text, paths, from);
        text.append("Run 'madm resolve' in an interactive terminal to continue.\n");
        Progress::Ask(Request::Say(text))
    }

    fn path_text(&self, first: &str, second: &str) -> (res: String)
        requires
            self.index < self.paths@.len(),
        ensures
            res@ == first@ + lossy_text(self.view().paths[self.index as int]) + second@,
    {
        proof {
            assert(self.paths@[self.index as int].deep_view() =~= self.paths@[self.index as int]@);
        }
        let mut text = String::from_str(first);
        append_path(&mut text, self.paths[self.index].as_slice());
        text.append(second);
        text
    }

    fn selecting_exec(&mut self, side: Side, reply: Reply) -> (res: Progress<bool>)
        requires
            old(self).index < old(self).paths@.len(),
        ensures
            (final(self).view(), res@) == Self::selecting(old(self).view(), side, reply@),
    {
        match self.select.step(reply) {
            Progress::Ask(q) => Progress::Ask(q),
            Progress::Done(Err(e)) => {
                self.phase = MergePhase::Over;
                Progress::Done(Err(e))
            },
            Progress::Done(Ok(())) => {
                self.phase = MergePhase::Announced;
                let text = match side {
                    Side::Local => self.path_text("Resolved ", " with the local side.\n"),
                    Side::Upstream => self.path_text("Resolved ", " with the upstream side.\n"),
                };
                proof {
                    reveal_strlit(" with the local side.\n");
                    reveal_strlit(" with the local side");
                    reveal_strlit(" with the upstream side.\n");
                    reveal_strlit(" with the upstream side");
                    reveal_strlit(".\n");
                    let p = lossy_text(self.view().paths[self.index as int]);
                    if side == Side::Local {
                        assert(text@ =~= resolved_text(self.view().paths[self.index as int], " with the local side"@));
                    } else {
                        assert(text@ =~= resolved_text(self.view().paths[self.index as int], " with the upstream side"@));
                    }
                }
                Progress::Ask(Request::Say(text))
            },
        }
    }

    fn answered_exec(&mut self, reply: Reply) -> (res: Progress<bool>)
        requires
            Self::valid(old(self).view()),
            old(self).phase == MergePhase::Prompting,
        ensures
            (final(self).view(), res@) == Self::answered(old(self).view(), reply@),
            Self::valid(final(self).view()),
    {
        let ghost s = self.view();
        let answer = match reply {
            Reply::Refused(e) => {
                self.phase = MergePhase::Over;
                return Progress::Done(Err(e));
            },
            Reply::Answer(a) => a,
            _ => {
                self.phase = MergePhase::Over;
                return Progress::Done(Err(unexpected()));
            },
        };
        let letter = answer_letter(answer.as_str());
        if answer.as_str().unicode_len() == 0 || letter == Some('s') {
            return self.advance_exec();
        }
        if letter == Some('q') {
            let paths = &self.paths;
            let from = self.index;
            self.phase = MergePhase::Reporting(false);
            let mut text = String::from_str("Merge conflicts still need resolution:\n");
            append_path_lines(&mut text, &self.paths, from);
            text.append("Run 'madm resolve' in an interactive terminal to continue.\n");
            return Progress::Ask(Request::Say(text));
        }
        if letter == Some('l') || letter == Some('u') {
            let side = if letter == Some('l') {
                Side::Local
            } else {
                Side::Upstream
            };
            proof {
                assert(self.paths@[self.index as int].deep_view() =~= self.paths@[self.index as int]@);
            }
            self.select = SelectSide::new(&self.context, self.paths[self.index].as_slice(), side);
            self.phase = MergePhase::Selecting(side);
            return self.selecting_exec(side, Reply::Start);
        }
        if letter == Some('m') {
            self.phase = MergePhase::Tool;
            proof {
                assert(self.paths@[self.index as int].deep_view() =~= self.paths@[self.index as int]@);
            }
            let args = words_then_path(&["mergetool", "--no-prompt", "--"], self.paths[self.index].as_slice());
            return Progress::Ask(git_request(&self.context, args, false));
        }
        self.phase = MergePhase::Warned;
        return Progress::Ask(Request::Complain(String::from_str("madm: choose Enter, l, u, m, or q")));
    }

    fn ran_exec(&mut self, reply: Reply) -> (res: Progress<bool>)
        requires
            Self::valid(old(self).view()),
            old(self).phase == MergePhase::Listing || old(self).phase == MergePhase::Checking
                || old(self).phase == MergePhase::Tool || old(self).phase == MergePhase::ToolCheck
                || old(self).phase == MergePhase::Relisting || old(self).phase == MergePhase::Committing,
        ensures
            (final(self).view(), res@) == Self::ran(old(self).view(), reply@),
            Self::valid(final(self).view()),
    {
        let ghost s = self.view();
        let phase = self.phase;
        let outcome = match reply {
            Reply::Failed(f) => {
                self.phase = MergePhase::Over;
                return Progress::Done(Err(process_error(&f)));
            },
            Reply::Ran(o) => o,
            _ => {
                self.phase = MergePhase::Over;
                return Progress::Done(Err(unexpected()));
            },
        };
        let ok = crate::git::is_success(&outcome);
        match phase {
            MergePhase::Listing => {
                if !ok {
                    self.phase = MergePhase::Over;
                    return Progress::Done(Err(output_error("list unresolved merge paths", &outcome)));
                }
                self.paths = nul_paths(outcome.stdout.as_slice());
                self.index = 0;
                if self.paths.len() == 0 {
                    self.commit_exec()
                } else if !self.interactive {
                    self.phase = MergePhase::Reporting(false);
                    let mut text = String::from_str("Merge conflicts still need resolution:\n");
                    append_path_lines(&mut text, &self.paths, 0);
                    text.append("Run 'madm resolve' in an interactive terminal to continue.\n");
                    assert(self.paths.deep_view().skip(0) =~= self.paths.deep_view());
                    Progress::Ask(Request::Say(text))
                } else {
                    self.check_exec()
                }
            },
            MergePhase::Checking => {
                if !ok {
                    self.phase = MergePhase::Over;
                    return Progress::Done(Err(output_error("inspect unresolved merge path", &outcome)));
                }
                if outcome.stdout.len() == 0 {
                    self.advance_exec()
                } else {
                    self.phase = MergePhase::Prompting;
                    let text = self.path_text("", " is unresolved [Enter=skip, l=local, u=upstream, m=mergetool, q=quit]: ");
                    proof {
                        reveal_strlit("");
                        assert(text@ =~= prompt_text(s.paths[s.index]));
                    }
                    Progress::Ask(Request::Ask(text))
                }
            },
            MergePhase::Tool => {
                if ok {
                    self.phase = MergePhase::ToolCheck;
                    proof {
                        assert(self.paths@[self.index as int].deep_view() =~= self.paths@[self.index as int]@);
                    }
                    let args = words_then_path(&["ls-files", "--unmerged", "-z", "--"], self.paths[self.index].as_slice());
                    Progress::Ask(git_request(&self.context, args, true))
                } else {
                    self.phase = MergePhase::Warned;
                    let text = self.path_text("madm: the merge tool did not resolve ", "; choose another action");
                    Progress::Ask(Request::Complain(text))
                }
            },
            MergePhase::ToolCheck => {
                if !ok {
                    self.phase = MergePhase::Over;
                    return Progress::Done(Err(output_error("inspect unresolved merge path", &outcome)));
                }
                if outcome.stdout.len() == 0 {
                    self.phase = MergePhase::Announced;
                    let text = self.path_text("Resolved ", " with the configured merge tool.\n");
                    proof {
                        reveal_strlit(" with the configured merge tool.\n");
                        reveal_strlit(" with the configured merge tool");
                        reveal_strlit(".\n");
                        assert(text@ =~= resolved_text(s.paths[s.index], " with the configured merge tool"@));
                    }
                    Progress::Ask(Request::Say(text))
                } else {
                    self.phase = MergePhase::Warned;
                    let text = self.path_text("madm: the merge tool did not resolve ", "; choose another action");
                    Progress::Ask(Request::Complain(text))
                }
            },
            MergePhase::Relisting => {
                if !ok {
                    self.phase = MergePhase::Over;
                    return Progress::Done(Err(output_error("list unresolved merge paths", &outcome)));
                }
                let remaining = nul_paths(outcome.stdout.as_slice());
                if remaining.len() == 0 {
                    self.commit_exec()
                } else {
                    assert(remaining.deep_view().skip(0) =~= remaining.deep_view());
                    self.report_exec(&remaining, 0)
                }
            },
            _ => {
                if !ok {
                    self.phase = MergePhase::Over;
                    return Progress::Done(Err(status_error("finish the merge commit", outcome.code)));
                }
                self.phase = MergePhase::Reporting(true);
                Progress::Ask(Request::Say(String::from_str("Finished the merge commit.\n")))
            },
        }
    }

    /// Takes the host's reply and says what comes next.
    pub fn step(&mut self, reply: Reply) -> (res: Progress<bool>)
        requires
            Self::valid(old(self).view()),
        ensures
            (final(self).view(), res@) == Self::next(old(self).view(), reply@),
            Self::valid(final(self).view()),
    {
        let ghost s = self.view();
        match self.phase {
            MergePhase::Begin => {
                self.phase = MergePhase::Listing;
                let args = word_list(&["diff", "--name-only", "--diff-filter=U", "-z", "--"]);
                return Progress::Ask(git_request(&self.context, args, true));
            },
            MergePhase::Over => {
                return Progress::Done(Err(unexpected()));
            },
            MergePhase::Selecting(side) => {
                return self.selecting_exec(side, reply);
            },
            MergePhase::Prompting => {
                return self.answered_exec(reply);
            },
            MergePhase::Warned => {
                match reply {
                    Reply::Ack => {
                        return self.check_exec();
                    },
                    _ => {
                        self.phase = MergePhase::Over;
                        return Progress::Done(Err(unexpected()));
                    },
                }
            },
            MergePhase::Announced => {
                match reply {
                    Reply::Ack => {
                        return self.advance_exec();
                    },
                    _ => {
                        self.phase = MergePhase::Over;
                        return Progress::Done(Err(unexpected()));
                    },
                }
            },
            MergePhase::Reporting(done) => {
                self.phase = MergePhase::Over;
                match reply {
                    Reply::Ack => {
                        return Progress::Done(Ok(done));
                    },
                    _ => {
                        return Progress::Done(Err(unexpected()));
                    },
                }
            },
            _ => {},
        }
        self.ran_exec(reply)
    }
}

/// Without a terminal the dialogue only lists, commits or reports.
pub open spec fn unattended(s: MergeView) -> bool {
    !s.interactive ==> (s.phase == MergePhase::Begin || s.phase == MergePhase::Listing
        || s.phase == MergePhase::Committing || s.phase == MergePhase::Reporting(true)
        || s.phase == MergePhase::Reporting(false) || s.phase == MergePhase::Over)
}

/// The merge commit is only asked for after a listing of unresolved paths
/// came back empty: a merge with conflicts left is never committed.
pub proof fn lemma_commit_only_when_resolved(s: MergeView, r: ReplyView)
    ensures
        ({
            let (t, p) = MergeResolution::next(s, r);
            t.phase == MergePhase::Committing && s.phase != MergePhase::Committing ==> {
                &&& s.phase == MergePhase::Listing || s.phase == MergePhase::Relisting
                &&& r matches ReplyView::Ran(o) && succeeded(o) && nul_paths_spec(o.stdout).len() == 0
                &&& p == ask_git::<bool>(s.home, commit_args(), false)
            }
        }),
{
}

/// Without a terminal nothing is asked and no side is picked: the pending
/// paths are reported and the merge stays as it is.
pub proof fn lemma_unattended_touches_nothing(s: MergeView, r: ReplyView)
    requires
        unattended(s),
    ensures
        unattended(MergeResolution::next(s, r).0),
        !s.interactive ==> !(MergeResolution::next(s, r).1 matches ProgressView::Ask(
            RequestView::Ask(_),
        )),
{
}

/// Enter (or `s`) at a prompt skips the path: the next step checks the
/// following path or lists what is left; no side is staged.
pub proof fn lemma_enter_skips(s: MergeView, r: ReplyView)
    requires
        MergeResolution::valid(s),
        s.phase == MergePhase::Prompting,
        r matches ReplyView::Answer(a) && a.len() == 0,
    ensures
        MergeResolution::next(s, r).0.phase == MergePhase::Checking || MergeResolution::next(
            s,
            r,
        ).0.phase == MergePhase::Relisting,
{
}

/// Some `ls-files --unmerged` entry holds index stage `v`.
pub open spec fn has_stage(entries: Seq<Seq<u8>>, v: u8) -> bool {
    exists|i: int| 0 <= i < entries.len() && entry_stage(entries[i]) == Ok::<u8, Seq<char>>(v)
}

/// The stages read from the entries are exactly the entries' stages.
pub proof fn lemma_stages_are_the_entries(entries: Seq<Seq<u8>>, v: u8)
    requires
        stages_of(entries) is Ok,
    ensures
        stages_of(entries)->Ok_0.contains(v) <==> has_stage(entries, v),
    decreases entries.len(),
{
    if entries.len() > 0 {
        let init = entries.drop_last();
        lemma_stages_are_the_entries(init, v);
        if has_stage(init, v) {
            let i = choose|i: int| 0 <= i < init.len() && entry_stage(init[i]) == Ok::<u8, Seq<char>>(v);
            assert(entries[i] == init[i]);
        }
        if has_stage(entries, v) {
            let i = choose|i: int| 0 <= i < entries.len() && entry_stage(entries[i]) == Ok::<u8, Seq<char>>(v);
            if i < init.len() {
                assert(entries[i] == init[i]);
            }
        }
    }
}

/// Picking a side keeps that side's version: the local side (index stage
/// 2) is checked out with `--ours` and the upstream side (stage 3) with
/// `--theirs` whenever the path has that stage, and the path is removed
/// with `rm -f` only when that side has no version of it; a checkout that
/// worked is staged with `add`.
pub proof fn lemma_side_keeps_its_version(s: SelectView, o: OutcomeView)
    requires
        succeeded(o),
        stages_of(nul_paths_spec(o.stdout)) is Ok,
    ensures
        ({
            let entries = nul_paths_spec(o.stdout);
            let stages = SelectView { phase: SelectPhase::Stages, ..s };
            let p = SelectSide::next(stages, ReplyView::Ran(o)).1;
            &&& s.side == Side::Local && has_stage(entries, 2) ==> p == ask_git::<()>(
                s.home,
                words_of(seq!["checkout", "--ours", "--"]).push(s.path),
                false,
            )
            &&& s.side == Side::Upstream && has_stage(entries, 3) ==> p == ask_git::<()>(
                s.home,
                words_of(seq!["checkout", "--theirs", "--"]).push(s.path),
                false,
            )
            &&& s.side == Side::Local && !has_stage(entries, 2) ==> p == ask_git::<()>(
                s.home,
                words_of(seq!["rm", "-f", "--"]).push(s.path),
                false,
            )
            &&& s.side == Side::Upstream && !has_stage(entries, 3) ==> p == ask_git::<()>(
                s.home,
                words_of(seq!["rm", "-f", "--"]).push(s.path),
                false,
            )
            &&& SelectSide::next(SelectView { phase: SelectPhase::Checkout, ..s }, ReplyView::Ran(o)).1
                == ask_git::<()>(s.home, words_of(seq!["add", "--"]).push(s.path), false)
        }),
{
    let entries = nul_paths_spec(o.stdout);
    lemma_stages_are_the_entries(entries, 2);
    lemma_stages_are_the_entries(entries, 3);
}

impl DeepView for Operation {
    type V = Operation;

    open spec fn deep_view(&self) -> Operation {
        *self
    }
}

/// `git rev-parse --verify --quiet <reference>`.
pub open spec fn pseudo_ref_args(reference: Seq<char>) -> Seq<Seq<u8>> {
    words_of(seq!["rev-parse", "--verify", "--quiet"]).push(word(reference))
}

/// Whether a pseudo-reference such as `MERGE_HEAD` exists: it resolves, it
/// is missing (exit code 1 or 128), or the inspection failed.
pub open spec fn pseudo_ref_result(reference: Seq<char>, o: OutcomeView) -> Result<bool, ErrorView> {
    if succeeded(o) {
        Ok(true)
    } else if o.code == Some(1i32) || o.code == Some(128i32) {
        Ok(false)
    } else {
        Err(output_error_view("inspect Git state '"@ + reference + "'"@, o))
    }
}

pub fn pseudo_ref_request(context: &Context, reference: &str) -> (res: Request)
    ensures
        res@ == RequestView::RunGit(git_call(context.home_path(), pseudo_ref_args(reference@), true)),
{
    let mut args = word_list(&["rev-parse", "--verify", "--quiet"]);
    push_word(&mut args, reference);
    git_request(context, args, true)
}

/// Reads the outcome of `pseudo_ref_request`.
pub fn pseudo_ref_exists(reference: &str, o: &GitOutcome) -> (res: Result<bool, MadmError>)
    ensures
        match pseudo_ref_result(reference@, o@) {
            Ok(b) => res == Ok::<bool, MadmError>(b),
            Err(e) => res matches Err(r) && error_view(r) == e,
        },
{
    if is_success(o) {
        Ok(true)
    } else if o.code == Some(1i32) || o.code == Some(128i32) {
        Ok(false)
    } else {
        let mut action = String::from_str("inspect Git state '");
        action.append(reference);
        action.append("'");
        Err(output_error(action.as_str(), o))
    }
}

/// Whether a merge is in progress, from the outcome of
/// `pseudo_ref_request(context, "MERGE_HEAD")`.
pub fn merge_is_active(o: &GitOutcome) -> (res: Result<bool, MadmError>)
    ensures
        match pseudo_ref_result("MERGE_HEAD"@, o@) {
            Ok(b) => res == Ok::<bool, MadmError>(b),
            Err(e) => res matches Err(r) && error_view(r) == e,
        },
{
    pseudo_ref_exists("MERGE_HEAD", o)
}

/// Where finding the operation in progress stands.
#[derive(Copy, Clone, Debug, PartialEq, Eq, Structural)]
pub enum DetectPhase {
    Begin,
    Merge,
    RebaseMerge,
    RebaseApply,
    CherryPick,
    Revert,
    Over,
}

/// Finds the Git operation in progress, as `current_operation` orders
/// them: `MERGE_HEAD`, a `rebase-merge` or `rebase-apply` directory,
/// `CHERRY_PICK_HEAD`, `REVERT_HEAD`.
pub struct Detection {
    context: Context,
    phase: DetectPhase,
}

pub struct DetectionView {
    pub home: Seq<u8>,
    pub phase: DetectPhase,
}

/// A directory of the repository that a rebase leaves behind.
pub open spec fn rebase_dir(home: Seq<u8>, name: Seq<char>) -> Seq<u8> {
    join(repository_path(home), word(name))
}

impl Detection {
    pub closed spec fn view(&self) -> DetectionView {
        DetectionView { home: self.context.home_path(), phase: self.phase }
    }

    pub open spec fn initial(home: Seq<u8>) -> DetectionView {
        DetectionView { home, phase: DetectPhase::Begin }
    }

    /// One step of the detection; each question is asked only when the
    /// ones before it were answered no.
    pub open spec fn next(s: DetectionView, r: ReplyView) -> (DetectionView, ProgressView<Operation>) {
        let over = DetectionView { phase: DetectPhase::Over, ..s };
        match s.phase {
            DetectPhase::Begin => (
                DetectionView { phase: DetectPhase::Merge, ..s },
                ask_git(s.home, pseudo_ref_args("MERGE_HEAD"@), true),
            ),
            DetectPhase::RebaseMerge => match r {
                ReplyView::Flag(true) => (over, ProgressView::Done(Ok(operation_spec(false, true, false, false)))),
                ReplyView::Flag(false) => (
                    DetectionView { phase: DetectPhase::RebaseApply, ..s },
                    ProgressView::Ask(RequestView::Exists(rebase_dir(s.home, "rebase-apply"@))),
                ),
                _ => (over, ProgressView::Done(Err(unexpected_reply()))),
            },
            DetectPhase::RebaseApply => match r {
                ReplyView::Flag(true) => (over, ProgressView::Done(Ok(operation_spec(false, true, false, false)))),
                ReplyView::Flag(false) => (
                    DetectionView { phase: DetectPhase::CherryPick, ..s },
                    ask_git(s.home, pseudo_ref_args("CHERRY_PICK_HEAD"@), true),
                ),
                _ => (over, ProgressView::Done(Err(unexpected_reply()))),
            },
            DetectPhase::Over => (over, ProgressView::Done(Err(unexpected_reply()))),
            _ => match r {
                ReplyView::Failed(k, d) => (over, ProgressView::Done(Err(process_error_view(k, d)))),
                ReplyView::Ran(o) => match s.phase {
                    DetectPhase::Merge => match pseudo_ref_result("MERGE_HEAD"@, o) {
                        Err(e) => (over, ProgressView::Done(Err(e))),
                        Ok(true) => (over, ProgressView::Done(Ok(operation_spec(true, false, false, false)))),
                        Ok(false) => (
                            DetectionView { phase: DetectPhase::RebaseMerge, ..s },
                            ProgressView::Ask(RequestView::Exists(rebase_dir(s.home, "rebase-merge"@))),
                        ),
                    },
                    DetectPhase::CherryPick => match pseudo_ref_result("CHERRY_PICK_HEAD"@, o) {
                        Err(e) => (over, ProgressView::Done(Err(e))),
                        Ok(true) => (over, ProgressView::Done(Ok(operation_spec(false, false, true, false)))),
                        Ok(false) => (
                            DetectionView { phase: DetectPhase::Revert, ..s },
                            ask_git(s.home, pseudo_ref_args("REVERT_HEAD"@), true),
                        ),
                    },
                    _ => match pseudo_ref_result("REVERT_HEAD"@, o) {
                        Err(e) => (over, ProgressView::Done(Err(e))),
                        Ok(b) => (over, ProgressView::Done(Ok(operation_spec(false, false, false, b)))),
                    },
                },
                _ => (over, ProgressView::Done(Err(unexpected_reply()))),
            },
        }
    }

    pub fn new(context: &Context) -> (res: Detection)
        ensures
            res.view() == Self::initial(context.home_path()),
    {
        Detection { context: context.copy(), phase: DetectPhase::Begin }
    }

    fn dir_request(&self, name: &str) -> (res: Request)
        ensures
            res@ == RequestView::Exists(rebase_dir(self.view().home, name@)),
    {
        let part = bytes_of(name);
        Request::Exists(join_path(self.context.repository(), part.as_slice()))
    }

    pub fn step(&mut self, reply: Reply) -> (res: Progress<Operation>)
        ensures
            (final(self).view(), res@) == Self::next(old(self).view(), reply@),
    {
        let phase = self.phase;
        self.phase = DetectPhase::Over;
        match phase {
            DetectPhase::Begin => {
                self.phase = DetectPhase::Merge;
                return Progress::Ask(pseudo_ref_request(&self.context, "MERGE_HEAD"));
            },
            DetectPhase::RebaseMerge => {
                return match reply {
                    Reply::Flag(true) => Progress::Done(Ok(current_operation(false, true, false, false))),
                    Reply::Flag(false) => {
                        self.phase = DetectPhase::RebaseApply;
                        Progress::Ask(self.dir_request("rebase-apply"))
                    },
                    _ => Progress::Done(Err(unexpected())),
                };
            },
            DetectPhase::RebaseApply => {
                return match reply {
                    Reply::Flag(true) => Progress::Done(Ok(current_operation(false, true, false, false))),
                    Reply::Flag(false) => {
                        self.phase = DetectPhase::CherryPick;
                        Progress::Ask(pseudo_ref_request(&self.context, "CHERRY_PICK_HEAD"))
                    },
                    _ => Progress::Done(Err(unexpected())),
                };
            },
            DetectPhase::Over => {
                return Progress::Done(Err(unexpected()));
            },
            _ => {},
        }
        let o = match reply {
            Reply::Failed(f) => {
                return Progress::Done(Err(process_error(&f)));
            },
            Reply::Ran(o) => o,
            _ => {
                return Progress::Done(Err(unexpected()));
            },
        };
        match phase {
            DetectPhase::Merge => match merge_is_active(&o) {
                Err(e) => Progress::Done(Err(e)),
                Ok(true) => Progress::Done(Ok(current_operation(true, false, false, false))),
                Ok(false) => {
                    self.phase = DetectPhase::RebaseMerge;
                    Progress::Ask(self.dir_request("rebase-merge"))
                },
            },
            DetectPhase::CherryPick => match pseudo_ref_exists("CHERRY_PICK_HEAD", &o) {
                Err(e) => Progress::Done(Err(e)),
                Ok(true) => Progress::Done(Ok(current_operation(false, false, true, false))),
                Ok(false) => {
                    self.phase = DetectPhase::Revert;
                    Progress::Ask(pseudo_ref_request(&self.context, "REVERT_HEAD"))
                },
            },
            _ => match pseudo_ref_exists("REVERT_HEAD", &o) {
                Err(e) => Progress::Done(Err(e)),
                Ok(b) => Progress::Done(Ok(current_operation(false, false, false, b))),
            },
        }
    }
}

/// The exit code of a command that left conflicts for `madm resolve`.
pub const PENDING_RESOLUTION_EXIT_CODE: i32 = 2;

/// Where `madm resolve` stands.
#[derive(Copy, Clone, Debug, PartialEq, Eq, Structural)]
pub enum ResolvePhase {
    Preparing,
    Detecting,
    Resolving,
    Over,
}

/// `madm resolve`: continues a conflicted merge; any other operation in
/// progress, or none, is an error that says what to do.
pub struct ResolveRun {
    context: Context,
    interactive: bool,
    phase: ResolvePhase,
    prepare: Prepare,
    detection: Detection,
    merge: MergeResolution,
}

pub struct ResolveRunView {
    pub home: Seq<u8>,
    pub interactive: bool,
    pub phase: ResolvePhase,
    pub prepare: PrepareView,
    pub detection: DetectionView,
    pub merge: MergeView,
}

/// Starts `madm resolve` for the repository below `context`'s home.
pub fn run(context: &Context, interactive: bool) -> (res: ResolveRun)
    ensures
        res.view() == ResolveRun::initial(context.home_path(), interactive),
        ResolveRun::valid(res.view()),
{
    ResolveRun {
        context: context.copy(),
        interactive,
        phase: ResolvePhase::Preparing,
        prepare: Prepare::new(context),
        detection: Detection::new(context),
        merge: MergeResolution::new(context, interactive),
    }
}

impl ResolveRun {
    pub closed spec fn view(&self) -> ResolveRunView {
        ResolveRunView {
            home: self.context.home_path(),
            interactive: self.interactive,
            phase: self.phase,
            prepare: self.prepare.view(),
            detection: self.detection.view(),
            merge: self.merge.view(),
        }
    }

    pub open spec fn initial(home: Seq<u8>, interactive: bool) -> ResolveRunView {
        ResolveRunView {
            home,
            interactive,
            phase: ResolvePhase::Preparing,
            prepare: Prepare::initial(home),
            detection: Detection::initial(home),
            merge: MergeResolution::initial(home, interactive),
        }
    }

    pub open spec fn valid(s: ResolveRunView) -> bool {
        MergeResolution::valid(s.merge)
    }

    pub open spec fn resolving(s: ResolveRunView, r: ReplyView) -> (ResolveRunView, ProgressView<i32>) {
        let (mv, p) = MergeResolution::next(s.merge, r);
        let t = ResolveRunView { merge: mv, ..s };
        match p {
            ProgressView::Ask(q) => (ResolveRunView { phase: ResolvePhase::Resolving, ..t }, ProgressView::Ask(q)),
            ProgressView::Done(Err(e)) => (ResolveRunView { phase: ResolvePhase::Over, ..t }, ProgressView::Done(Err(e))),
            ProgressView::Done(Ok(done)) => (
                ResolveRunView { phase: ResolvePhase::Over, ..t },
                ProgressView::Done(Ok(if done { 0i32 } else { PENDING_RESOLUTION_EXIT_CODE })),
            ),
        }
    }

    pub open spec fn detecting(s: ResolveRunView, r: ReplyView) -> (ResolveRunView, ProgressView<i32>) {
        let (dv, p) = Detection::next(s.detection, r);
        let t = ResolveRunView { detection: dv, ..s };
        match p {
            ProgressView::Ask(q) => (ResolveRunView { phase: ResolvePhase::Detecting, ..t }, ProgressView::Ask(q)),
            ProgressView::Done(Err(e)) => (ResolveRunView { phase: ResolvePhase::Over, ..t }, ProgressView::Done(Err(e))),
            ProgressView::Done(Ok(op)) => if op == Operation::Merge {
                Self::resolving(
                    ResolveRunView { merge: MergeResolution::initial(s.home, s.interactive), ..t },
                    ReplyView::Start,
                )
            } else {
                (
                    ResolveRunView { phase: ResolvePhase::Over, ..t },
                    ProgressView::Done(Err((operation_message(op), 1))),
                )
            },
        }
    }

    /// One step of `madm resolve`: exit code 0 once the merge commit is
    /// made, 2 while conflicts remain.
    pub open spec fn next(s: ResolveRunView, r: ReplyView) -> (ResolveRunView, ProgressView<i32>) {
        match s.phase {
            ResolvePhase::Preparing => {
                let (pv, p) = Prepare::next(s.prepare, r);
                let t = ResolveRunView { prepare: pv, ..s };
                match p {
                    ProgressView::Ask(q) => (t, ProgressView::Ask(q)),
                    ProgressView::Done(Err(e)) => (ResolveRunView { phase: ResolvePhase::Over, ..t }, ProgressView::Done(Err(e))),
                    ProgressView::Done(Ok(_)) => Self::detecting(
                        ResolveRunView { detection: Detection::initial(s.home), ..t },
                        ReplyView::Start,
                    ),
                }
            },
            ResolvePhase::Detecting => Self::detecting(s, r),
            ResolvePhase::Resolving => Self::resolving(s, r),
            ResolvePhase::Over => (s, ProgressView::Done(Err(unexpected_reply()))),
        }
    }

    fn resolving_exec(&mut self, reply: Reply) -> (res: Progress<i32>)
        requires
            Self::valid(old(self).view()),
        ensures
            (final(self).view(), res@) == Self::resolving(old(self).view(), reply@),
            Self::valid(final(self).view()),
    {
        match self.merge.step(reply) {
            Progress::Ask(q) => {
                self.phase = ResolvePhase::Resolving;
                Progress::Ask(q)
            },
            Progress::Done(Err(e)) => {
                self.phase = ResolvePhase::Over;
                Progress::Done(Err(e))
            },
            Progress::Done(Ok(done)) => {
                self.phase = ResolvePhase::Over;
                Progress::Done(Ok(if done { 0i32 } else { PENDING_RESOLUTION_EXIT_CODE }))
            },
        }
    }

    fn detecting_exec(&mut self, reply: Reply) -> (res: Progress<i32>)
        requires
            Self::valid(old(self).view()),
        ensures
            (final(self).view(), res@) == Self::detecting(old(self).view(), reply@),
            Self::valid(final(self).view()),
    {
        match self.detection.step(reply) {
            Progress::Ask(q) => {
                self.phase = ResolvePhase::Detecting;
                Progress::Ask(q)
            },
            Progress::Done(Err(e)) => {
                self.phase = ResolvePhase::Over;
                Progress::Done(Err(e))
            },
            Progress::Done(Ok(op)) => {
                if op == Operation::Merge {
                    self.merge = MergeResolution::new(&self.context, self.interactive);
                    self.resolving_exec(Reply::Start)
                } else {
                    self.phase = ResolvePhase::Over;
                    Progress::Done(Err(non_merge_operation_error(op)))
                }
            },
        }
    }

    pub fn step(&mut self, reply: Reply) -> (res: Progress<i32>)
        requires
            Self::valid(old(self).view()),
        ensures
            (final(self).view(), res@) == Self::next(old(self).view(), reply@),
            Self::valid(final(self).view()),
    {
        match self.phase {
            ResolvePhase::Preparing => match self.prepare.step(reply) {
                Progress::Ask(q) => Progress::Ask(q),
                Progress::Done(Err(e)) => {
                    self.phase = ResolvePhase::Over;
                    Progress::Done(Err(e))
                },
                Progress::Done(Ok(_)) => {
                    self.detection = Detection::new(&self.context);
                    self.detecting_exec(Reply::Start)
                },
            },
            ResolvePhase::Detecting => self.detecting_exec(reply),
            ResolvePhase::Resolving => self.resolving_exec(reply),
            ResolvePhase::Over => Progress::Done(Err(unexpected())),
        }
    }
}

/// `madm resolve` handles merges only: any other operation in progress, or
/// none, ends with the error that names what to do instead.
pub proof fn lemma_resolve_merges_only(s: ResolveRunView, r: ReplyView, op: Operation)
    requires
        s.phase == ResolvePhase::Detecting,
        Detection::next(s.detection, r).1 == ProgressView::<Operation>::Done(Ok(op)),
        op != Operation::Merge,
    ensures
        ResolveRun::next(s, r).1 == ProgressView::<i32>::Done(Err((operation_message(op), 1))),
{
}

/// The answer of the detection is the operation `current_operation`
/// chooses: a merge whenever `MERGE_HEAD` resolves.
pub proof fn lemma_merge_detected_first(s: DetectionView, o: OutcomeView)
    requires
        s.phase == DetectPhase::Merge,
        pseudo_ref_result("MERGE_HEAD"@, o) == Ok::<bool, ErrorView>(true),
    ensures
        Detection::next(s, ReplyView::Ran(o)).1 == ProgressView::<Operation>::Done(Ok(Operation::Merge)),
{
}

} // verus!
