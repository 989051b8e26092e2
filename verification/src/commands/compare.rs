use vstd::prelude::*;

use crate::cli::word;
use crate::commands::setup::{
    exclude_file, info_dir, reserved_args, Exclusion, ExclusionView, Prepare, PrepareView,
};
use crate::commands::steps::{ask_git, git_request, lemma_words_of_first, word_list, words_of};
use crate::commands::upstream::{
    branch_result, config_args, config_result, configured_upstream, inferred_upstream, merge_key,
    remote_key, remote_names, resolved_revision, revision_args, revision_request, revision_result,
    ResolutionView, Upstream, UpstreamPhase, UpstreamResolution, UpstreamView,
};
use crate::context::{REPOSITORY_RELATIVE_GIT_PATH, Context};
use crate::error::MadmError;
use crate::git::{
    code_of, context_args, git_call, process_error, process_error_view, push_word, succeeded,
    text_view, Git,
};
use crate::host::{OutcomeView, Progress, ProgressView, Reply, ReplyView, Request, RequestView};
use crate::path::{unexpected, unexpected_reply};
use crate::text::{
    chars_of, debug_quoted, debug_text, decimal, decimal_text, parse_unsigned, parse_unsigned_text,
    split_words, words,
};

verus! {

/// The message for `rev-list --count` output that is not two counts.
pub open spec fn counts_message(counts: Seq<char>) -> Seq<char> {
    "unexpected Git ahead/behind output: "@ + debug_quoted(counts)
}

/// Reads `git rev-list --left-right --count`: exactly two blank-separated
/// unsigned numbers, the commits ahead and the commits behind.
pub open spec fn counts_spec(counts: Seq<char>) -> Option<(nat, nat)> {
    let w = words(counts);
    if w.len() == 2 && parse_unsigned(w[0], u64::MAX as nat) is Some && parse_unsigned(
        w[1],
        u64::MAX as nat,
    ) is Some {
        Some(
            (
                parse_unsigned(w[0], u64::MAX as nat)->0,
                parse_unsigned(w[1], u64::MAX as nat)->0,
            ),
        )
    } else {
        None
    }
}

fn counts_error(counts: &str) -> (res: MadmError)
    ensures
        res.text() == counts_message(counts@),
        res.exit_code() == 1,
{
    let mut message = String::from_str("unexpected Git ahead/behind output: ");
    let quoted = debug_text(counts);
    message.append(quoted.as_str());
    MadmError::new(message)
}

/// The commits ahead of and behind upstream.
pub fn parse_counts(counts: &str) -> (res: Result<(u64, u64), MadmError>)
    ensures
        match counts_spec(counts@) {
            Some((a, b)) => res matches Ok((x, y)) && x as nat == a && y as nat == b,
            None => res matches Err(e) && e.text() == counts_message(counts@) && e.exit_code()
                == 1,
        },
{
    let chars = chars_of(counts);
    let fields = split_words(chars.as_slice());
    let ghost w = words(counts@);
    assert(fields.deep_view() == w);
    if fields.len() != 2 {
        return Err(counts_error(counts));
    }
    assert(fields@[0].deep_view() =~= fields@[0]@);
    assert(fields@[1].deep_view() =~= fields@[1]@);
    let ahead = match parse_unsigned_text(fields[0].as_slice(), u64::MAX) {
        Some(v) => v,
        None => {
            return Err(counts_error(counts));
        },
    };
    let behind = match parse_unsigned_text(fields[1].as_slice(), u64::MAX) {
        Some(v) => v,
        None => {
            return Err(counts_error(counts));
        },
    };
    Ok((ahead, behind))
}

/// Where the comparison with upstream stands.
#[derive(Copy, Clone, Debug, PartialEq, Eq, Structural)]
pub enum ComparePhase {
    Preparing,
    Head,
    Resolving,
    Counting,
    Reporting,
    Diffing,
    Over,
}

/// `madm compare`: counts of commits ahead and behind upstream, then the
/// patch from upstream to the effective tracked home tree.
pub struct Compare {
    context: Context,
    phase: ComparePhase,
    prepare: Prepare,
    resolution: UpstreamResolution,
    upstream: Upstream,
}

pub struct CompareView {
    pub home: Seq<u8>,
    pub phase: ComparePhase,
    pub prepare: PrepareView,
    pub resolution: ResolutionView,
    pub upstream: UpstreamView,
}

pub open spec fn no_commits_message() -> Seq<char> {
    "the current branch has no commits; commit tracked files before comparing"@
}

/// `git rev-list --left-right --count HEAD...<upstream>`.
pub open spec fn count_args(reference: Seq<char>) -> Seq<Seq<u8>> {
    words_of(seq!["rev-list", "--left-right", "--count"]).push(word("HEAD..."@ + reference))
}

/// `git diff --patch <upstream> --`.
pub open spec fn patch_args(reference: Seq<char>) -> Seq<Seq<u8>> {
    words_of(seq!["diff", "--patch"]).push(word(reference)).push(word("--"@))
}

pub open spec fn summary_text(u: UpstreamView, ahead: nat, behind: nat) -> Seq<char> {
    "Branch '"@ + u.local_branch + "' is "@ + decimal(ahead) + " commit(s) ahead and "@
        + decimal(behind) + " commit(s) behind "@ + u.remote + "/"@ + u.remote_branch + ".\n"@
        + "--- tracked home state compared with "@ + u.remote + "/"@ + u.remote_branch
        + " ---\n"@
}

pub open spec fn compare_failed_message() -> Seq<char> {
    "Git could not compare the tracked home state with upstream"@
}

impl Compare {
    pub closed spec fn view(&self) -> CompareView {
        CompareView {
            home: self.context.home_path(),
            phase: self.phase,
            prepare: self.prepare.view(),
            resolution: self.resolution.view(),
            upstream: self.upstream.deep_view(),
        }
    }

    pub open spec fn initial(home: Seq<u8>) -> CompareView {
        CompareView {
            home,
            phase: ComparePhase::Preparing,
            prepare: Prepare::initial(home),
            resolution: UpstreamResolution::initial(home, false),
            upstream: crate::commands::upstream::empty_upstream(),
        }
    }

    pub open spec fn resolving(s: CompareView, r: ReplyView) -> (CompareView, ProgressView<i32>) {
        let (rv, p) = UpstreamResolution::next(s.resolution, r);
        let t = CompareView { resolution: rv, ..s };
        match p {
            ProgressView::Ask(q) => (CompareView { phase: ComparePhase::Resolving, ..t }, ProgressView::Ask(q)),
            ProgressView::Done(Err(e)) => (CompareView { phase: ComparePhase::Over, ..t }, ProgressView::Done(Err(e))),
            ProgressView::Done(Ok(u)) => (
                CompareView { phase: ComparePhase::Counting, upstream: u, ..t },
                ask_git(s.home, count_args(u.reference), true),
            ),
        }
    }

    /// One step of the comparison. Nothing but reading Git commands and a
    /// fetch is asked for.
    pub open spec fn next(s: CompareView, r: ReplyView) -> (CompareView, ProgressView<i32>) {
        let over = CompareView { phase: ComparePhase::Over, ..s };
        match s.phase {
            ComparePhase::Preparing => {
                let (pv, p) = Prepare::next(s.prepare, r);
                let t = CompareView { prepare: pv, ..s };
                match p {
                    ProgressView::Ask(q) => (t, ProgressView::Ask(q)),
                    ProgressView::Done(Err(e)) => (CompareView { phase: ComparePhase::Over, ..t }, ProgressView::Done(Err(e))),
                    ProgressView::Done(Ok(_)) => (
                        CompareView { phase: ComparePhase::Head, ..t },
                        ask_git(s.home, revision_args("HEAD"@), true),
                    ),
                }
            },
            ComparePhase::Resolving => Self::resolving(s, r),
            ComparePhase::Over => (over, ProgressView::Done(Err(unexpected_reply()))),
            _ => match r {
                ReplyView::Failed(k, d) => (over, ProgressView::Done(Err(process_error_view(k, d)))),
                ReplyView::Ran(o) => match s.phase {
                    ComparePhase::Head => match revision_result("HEAD"@, o) {
                        Err(e) => (over, ProgressView::Done(Err(e))),
                        Ok(None) => (over, ProgressView::Done(Err((no_commits_message(), 1)))),
                        Ok(Some(_)) => Self::resolving(
                            CompareView { resolution: UpstreamResolution::initial(s.home, false), ..s },
                            ReplyView::Start,
                        ),
                    },
                    ComparePhase::Counting => match text_view("calculate upstream difference"@, o) {
                        Err(e) => (over, ProgressView::Done(Err(e))),
                        Ok(t) => match counts_spec(t) {
                            None => (over, ProgressView::Done(Err((counts_message(t), 1)))),
                            Some((a, b)) => (
                                CompareView { phase: ComparePhase::Reporting, ..s },
                                ProgressView::Ask(RequestView::Say(summary_text(s.upstream, a, b))),
                            ),
                        },
                    },
                    ComparePhase::Diffing => if succeeded(o) {
                        (over, ProgressView::Done(Ok(0)))
                    } else {
                        (over, ProgressView::Done(Err((compare_failed_message(), code_of(o.code)))))
                    },
                    _ => (over, ProgressView::Done(Err(unexpected_reply()))),
                },
                ReplyView::Ack => if s.phase == ComparePhase::Reporting {
                    (
                        CompareView { phase: ComparePhase::Diffing, ..s },
                        ask_git(s.home, patch_args(s.upstream.reference), false),
                    )
                } else {
                    (over, ProgressView::Done(Err(unexpected_reply())))
                },
                _ => (over, ProgressView::Done(Err(unexpected_reply()))),
            },
        }
    }

    pub fn new(context: &Context) -> (res: Compare)
        ensures
            res.view() == Self::initial(context.home_path()),
    {
        let res = Compare {
            context: context.copy(),
            phase: ComparePhase::Preparing,
            prepare: Prepare::new(context),
            resolution: UpstreamResolution::new(context, false),
            upstream: Upstream {
                local_branch: String::new(),
                remote: String::new(),
                remote_branch: String::new(),
                reference: String::new(),
                inferred: false,
                exists: false,
            },
        };
        assert(res.view().upstream == crate::commands::upstream::empty_upstream());
        res
    }

    fn resolving_exec(&mut self, reply: Reply) -> (res: Progress<i32>)
        ensures
            (final(self).view(), res@) == Self::resolving(old(self).view(), reply@),
    {
        match self.resolution.step(reply) {
            Progress::Ask(q) => {
                self.phase = ComparePhase::Resolving;
                Progress::Ask(q)
            },
            Progress::Done(Err(e)) => {
                self.phase = ComparePhase::Over;
                Progress::Done(Err(e))
            },
            Progress::Done(Ok(u)) => {
                self.phase = ComparePhase::Counting;
                self.upstream = u;
                let mut args = word_list(&["rev-list", "--left-right", "--count"]);
                let mut range = String::from_str("HEAD...");
                range.append(self.upstream.reference.as_str());
                push_word(&mut args, range.as_str());
                Progress::Ask(git_request(&self.context, args, true))
            },
        }
    }

    fn summary(&self, ahead: u64, behind: u64) -> (res: String)
        ensures
            res@ == summary_text(self.view().upstream, ahead as nat, behind as nat),
    {
        let u = &self.upstream;
        let mut text = String::from_str("Branch '");
        text.append(u.local_branch.as_str());
        text.append("' is ");
        let a = decimal_text(ahead);
        text.append(a.as_str());
        text.append(" commit(s) ahead and ");
        let b = decimal_text(behind);
        text.append(b.as_str());
        text.append(" commit(s) behind ");
        text.append(u.remote.as_str());
        text.append("/");
        text.append(u.remote_branch.as_str());
        text.append(".\n");
        text.append("--- tracked home state compared with ");
        text.append(u.remote.as_str());
        text.append("/");
        text.append(u.remote_branch.as_str());
        text.append(" ---\n");
        text
    }

    pub fn step(&mut self, reply: Reply) -> (res: Progress<i32>)
        ensures
            (final(self).view(), res@) == Self::next(old(self).view(), reply@),
    {
        match self.phase {
            ComparePhase::Preparing => {
                return match self.prepare.step(reply) {
                    Progress::Ask(q) => Progress::Ask(q),
                    Progress::Done(Err(e)) => {
                        self.phase = ComparePhase::Over;
                        Progress::Done(Err(e))
                    },
                    Progress::Done(Ok(_)) => {
                        self.phase = ComparePhase::Head;
                        Progress::Ask(revision_request(&self.context, "HEAD"))
                    },
                };
            },
            ComparePhase::Resolving => {
                return self.resolving_exec(reply);
            },
            ComparePhase::Over => {
                return Progress::Done(Err(unexpected()));
            },
            _ => {},
        }
        let phase = self.phase;
        self.phase = ComparePhase::Over;
        let o = match reply {
            Reply::Failed(f) => {
                return Progress::Done(Err(process_error(&f)));
            },
            Reply::Ran(o) => o,
            Reply::Ack => {
                if phase == ComparePhase::Reporting {
                    self.phase = ComparePhase::Diffing;
                    let mut args = word_list(&["diff", "--patch"]);
                    push_word(&mut args, self.upstream.reference.as_str());
                    push_word(&mut args, "--");
                    return Progress::Ask(git_request(&self.context, args, false));
                }
                return Progress::Done(Err(unexpected()));
            },
            _ => {
                return Progress::Done(Err(unexpected()));
            },
        };
        match phase {
            ComparePhase::Head => match resolved_revision("HEAD", &o) {
                Err(e) => Progress::Done(Err(e)),
                Ok(None) => Progress::Done(
                    Err(MadmError::new(String::from_str(
                        "the current branch has no commits; commit tracked files before comparing",
                    ))),
                ),
                Ok(Some(_)) => {
                    self.resolution = UpstreamResolution::new(&self.context, false);
                    self.resolving_exec(Reply::Start)
                },
            },
            ComparePhase::Counting => {
                let counts = match Git::text(o, "calculate upstream difference") {
                    Err(e) => {
                        return Progress::Done(Err(e));
                    },
                    Ok(t) => t,
                };
                match parse_counts(counts.as_str()) {
                    Err(e) => Progress::Done(Err(e)),
                    Ok((ahead, behind)) => {
                        self.phase = ComparePhase::Reporting;
                        Progress::Ask(Request::Say(self.summary(ahead, behind)))
                    },
                }
            },
            ComparePhase::Diffing => {
                if crate::git::is_success(&o) {
                    Progress::Done(Ok(0))
                } else {
                    Progress::Done(
                        Err(
                            MadmError::with_code(
                                String::from_str("Git could not compare the tracked home state with upstream"),
                                crate::git::status_code(o.code),
                            ),
                        ),
                    )
                }
            },
            _ => Progress::Done(Err(unexpected())),
        }
    }
}

/// Starts `madm compare` for the repository below `context`'s home.
pub fn run(context: &Context) -> (res: Compare)
    ensures
        res.view() == Compare::initial(context.home_path()),
{
    Compare::new(context)
}

/// Git commands that read the repository or, for `fetch`, update
/// remote-tracking refs: none of them changes `HEAD`, the index or the
/// work tree.
pub open spec fn reading_args(a: Seq<Seq<u8>>) -> bool {
    ||| a.len() > 0 && a[0] == word("rev-parse"@)
    ||| a.len() > 0 && a[0] == word("rev-list"@)
    ||| a.len() > 0 && a[0] == word("diff"@)
    ||| a.len() > 0 && a[0] == word("ls-files"@)
    ||| a.len() > 0 && a[0] == word("symbolic-ref"@)
    ||| a.len() > 0 && a[0] == word("fetch"@)
    ||| a == seq![word("remote"@)]
    ||| a.len() > 1 && a[0] == word("config"@) && a[1] == word("--get"@)
}

/// A request that leaves `HEAD`, the index and the home work tree as they
/// are: a reading Git command against the repository, a look at a path,
/// text for the user, or the update of the repository's own exclude file.
pub open spec fn leaves_tree(home: Seq<u8>, q: RequestView) -> bool {
    match q {
        RequestView::RunGit(c) => exists|a: Seq<Seq<u8>>| c.args == context_args(home) + a && reading_args(a),
        RequestView::Inspect(_) => true,
        RequestView::Read(_) => true,
        RequestView::Say(_) => true,
        RequestView::MakeDirAll(p) => p == info_dir(home),
        RequestView::Append(p, _) => p == exclude_file(home),
        _ => false,
    }
}

pub open spec fn asks_only_leaving<V>(home: Seq<u8>, p: ProgressView<V>) -> bool {
    p matches ProgressView::Ask(q) ==> leaves_tree(home, q)
}

pub proof fn lemma_reading_call<V>(home: Seq<u8>, a: Seq<Seq<u8>>, captured: bool)
    requires
        reading_args(a),
    ensures
        asks_only_leaving(home, ask_git::<V>(home, a, captured)),
{
    assert(git_call(home, a, captured).args == context_args(home) + a);
}

pub proof fn lemma_exclusion_leaves_tree(s: ExclusionView, r: ReplyView)
    ensures
        asks_only_leaving(s.home, Exclusion::next(s, r).1),
        Exclusion::next(s, r).0.home == s.home,
{
}

pub proof fn lemma_prepare_leaves_tree(s: PrepareView, r: ReplyView)
    requires
        s.exclusion.home == s.home,
    ensures
        asks_only_leaving(s.home, Prepare::next(s, r).1),
        Prepare::next(s, r).0.home == s.home,
        Prepare::next(s, r).0.exclusion.home == s.home,
{
    lemma_words_of_first(seq!["rev-parse", "--git-dir"]);
    lemma_words_of_first(seq!["ls-files", "-z", "--", REPOSITORY_RELATIVE_GIT_PATH]);
    lemma_reading_call::<Seq<u8>>(s.home, words_of(seq!["rev-parse", "--git-dir"]), true);
    lemma_reading_call::<Seq<u8>>(s.home, reserved_args(), true);
    lemma_exclusion_leaves_tree(s.exclusion, r);
    lemma_exclusion_leaves_tree(Exclusion::initial(s.home), ReplyView::Start);
}

#[verifier::rlimit(80)]
pub proof fn lemma_resolution_leaves_tree(s: ResolutionView, r: ReplyView)
    ensures
        asks_only_leaving(s.home, UpstreamResolution::next(s, r).1),
        UpstreamResolution::next(s, r).0.home == s.home,
{
    lemma_words_of_first(seq!["symbolic-ref", "--quiet", "--short", "HEAD"]);
    lemma_words_of_first(seq!["config", "--get"]);
    lemma_words_of_first(seq!["fetch", "--"]);
    lemma_words_of_first(seq!["rev-parse", "--verify", "--quiet"]);
    assert(words_of(seq!["config", "--get"])[1] == word("--get"@)) by {
        reveal_with_fuel(words_of, 3);
    }
    lemma_reading_call::<UpstreamView>(s.home, words_of(seq!["symbolic-ref", "--quiet", "--short", "HEAD"]), true);
    lemma_reading_call::<UpstreamView>(s.home, config_args(remote_key(s.branch)), true);
    lemma_reading_call::<UpstreamView>(s.home, config_args(merge_key(s.branch)), true);
    lemma_reading_call::<UpstreamView>(s.home, seq![word("remote"@)], true);
    lemma_reading_call::<UpstreamView>(s.home, revision_args(s.upstream.reference), true);
    if let ReplyView::Ran(o) = r {
        if s.phase == UpstreamPhase::Branch {
            if let Ok(b) = branch_result(o) {
                lemma_reading_call::<UpstreamView>(s.home, config_args(remote_key(b)), true);
            }
        } else if s.phase == UpstreamPhase::MergeKey {
            if let Ok(m) = config_result(merge_key(s.branch), o) {
                if let Ok(Some(u)) = configured_upstream(s.branch, s.remote, m) {
                    lemma_reading_call::<UpstreamView>(s.home, words_of(seq!["fetch", "--"]).push(word(u.remote)), false);
                    lemma_reading_call::<UpstreamView>(s.home, revision_args(u.reference), true);
                }
            }
        } else if s.phase == UpstreamPhase::Remotes {
            if let Ok(t) = text_view("list Git remotes"@, o) {
                if let Ok(u) = inferred_upstream(s.branch, remote_names(t)) {
                    lemma_reading_call::<UpstreamView>(s.home, words_of(seq!["fetch", "--"]).push(word(u.remote)), false);
                    lemma_reading_call::<UpstreamView>(s.home, revision_args(u.reference), true);
                }
            }
        }
    }
}

/// What a comparison keeps: its parts work on its own home.
/// The counts line of `rev-list --left-right --count HEAD...<upstream>`
/// is reported as it comes: its first (left, local-only) number as the
/// commits ahead, its second (right, upstream-only) number as the commits
/// behind.
pub proof fn lemma_counts_reported_in_order(s: CompareView, o: OutcomeView, left: nat, right: nat)
    requires
        s.phase == ComparePhase::Counting,
        text_view("calculate upstream difference"@, o) is Ok,
        words(text_view("calculate upstream difference"@, o)->Ok_0).len() == 2,
        parse_unsigned(words(text_view("calculate upstream difference"@, o)->Ok_0)[0], u64::MAX as nat)
            == Some(left),
        parse_unsigned(words(text_view("calculate upstream difference"@, o)->Ok_0)[1], u64::MAX as nat)
            == Some(right),
    ensures
        Compare::next(s, ReplyView::Ran(o)).1 == ProgressView::<i32>::Ask(
            RequestView::Say(
                "Branch '"@ + s.upstream.local_branch + "' is "@ + decimal(left)
                    + " commit(s) ahead and "@ + decimal(right) + " commit(s) behind "@
                    + s.upstream.remote + "/"@ + s.upstream.remote_branch + ".\n"@
                    + "--- tracked home state compared with "@ + s.upstream.remote + "/"@
                    + s.upstream.remote_branch + " ---\n"@,
            ),
        ),
{
}

pub open spec fn compare_inv(s: CompareView) -> bool {
    &&& s.prepare.home == s.home
    &&& s.prepare.exclusion.home == s.home
    &&& s.resolution.home == s.home
}

/// `madm compare` does not change `HEAD`, the index or work-tree files:
/// every request of every step is a reading Git command (or a fetch), a
/// look at a path, output, or the repository's own exclude file.
#[verifier::rlimit(80)]
pub proof fn lemma_compare_leaves_tree(s: CompareView, r: ReplyView)
    requires
        compare_inv(s),
    ensures
        compare_inv(Compare::next(s, r).0),
        asks_only_leaving(s.home, Compare::next(s, r).1),
{
    lemma_words_of_first(seq!["rev-list", "--left-right", "--count"]);
    lemma_words_of_first(seq!["diff", "--patch"]);
    lemma_words_of_first(seq!["rev-parse", "--verify", "--quiet"]);
    match s.phase {
        ComparePhase::Preparing => {
            lemma_prepare_leaves_tree(s.prepare, r);
            lemma_reading_call::<i32>(s.home, revision_args("HEAD"@), true);
        },
        ComparePhase::Resolving => {
            lemma_resolution_leaves_tree(s.resolution, r);
            if let ProgressView::Done(Ok(u)) = UpstreamResolution::next(s.resolution, r).1 {
                lemma_reading_call::<i32>(s.home, count_args(u.reference), true);
            }
        },
        ComparePhase::Head => {
            lemma_resolution_leaves_tree(UpstreamResolution::initial(s.home, false), ReplyView::Start);
        },
        ComparePhase::Reporting => {
            lemma_reading_call::<i32>(s.home, patch_args(s.upstream.reference), false);
        },
        _ => {},
    }
}

/// `madm compare` starts in a state that keeps `compare_inv`.
pub proof fn lemma_compare_starts_well(home: Seq<u8>)
    ensures
        compare_inv(Compare::initial(home)),
{
}

} // verus!
