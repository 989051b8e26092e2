use vstd::prelude::*;
use vstd::utf8::*;

use crate::cli::word;
use crate::commands::steps::{ask_git, git_request, word_list, words_of};
use crate::context::Context;
use crate::error::MadmError;
use crate::git::{
    output_error, output_error_view, process_error, process_error_view, push_word, status_error,
    status_error_view, succeeded, text_view, Git,
};
use crate::host::{
    error_view, ErrorView, GitOutcome, Progress, ProgressView, Reply, ReplyView, Request,
};
use crate::path::{unexpected, unexpected_reply};
use crate::text::{
    at_char, chars_of, pieces, same_text, split_chars, string_of, texts, trim, trimmed, utf8_text,
};

verus! {

/// The remote branch that the current branch follows.
pub struct Upstream {
    pub local_branch: String,
    pub remote: String,
    pub remote_branch: String,
    pub reference: String,
    pub inferred: bool,
    pub exists: bool,
}

pub struct UpstreamView {
    pub local_branch: Seq<char>,
    pub remote: Seq<char>,
    pub remote_branch: Seq<char>,
    pub reference: Seq<char>,
    pub inferred: bool,
    pub exists: bool,
}

impl DeepView for Upstream {
    type V = UpstreamView;

    open spec fn deep_view(&self) -> UpstreamView {
        UpstreamView {
            local_branch: self.local_branch@,
            remote: self.remote@,
            remote_branch: self.remote_branch@,
            reference: self.reference@,
            inferred: self.inferred,
            exists: self.exists,
        }
    }
}

/// What `symbolic-ref --quiet --short HEAD` says of the current branch.
pub open spec fn branch_result(o: crate::host::OutcomeView) -> Result<Seq<char>, ErrorView> {
    if !succeeded(o) {
        Err(("HEAD is detached; check out a local branch before using this command"@, 1))
    } else if !valid_utf8(o.stdout) {
        Err(("the current Git branch name is not valid UTF-8"@, 1))
    } else {
        Ok(trim(decode_utf8(o.stdout)))
    }
}

/// What `config --get <key>` says: a value, none (exit code 1), or an error.
pub open spec fn config_result(key: Seq<char>, o: crate::host::OutcomeView) -> Result<
    Option<Seq<char>>,
    ErrorView,
> {
    if succeeded(o) {
        if !valid_utf8(o.stdout) {
            Err(("Git config value '"@ + key + "' is not valid UTF-8"@, 1))
        } else {
            Ok(Some(trim(decode_utf8(o.stdout))))
        }
    } else if o.code == Some(1i32) {
        Ok(None)
    } else {
        Err(output_error_view("read Git config value '"@ + key + "'"@, o))
    }
}

/// What `rev-parse --verify --quiet <rev>^{commit}` says: the commit, none
/// (exit code 1 or 128), or an error.
pub open spec fn revision_result(rev: Seq<char>, o: crate::host::OutcomeView) -> Result<
    Option<Seq<char>>,
    ErrorView,
> {
    if succeeded(o) {
        if !valid_utf8(o.stdout) {
            Err(("resolved Git revision '"@ + rev + "' is not valid UTF-8"@, 1))
        } else {
            Ok(Some(trim(decode_utf8(o.stdout))))
        }
    } else if o.code == Some(1i32) || o.code == Some(128i32) {
        Ok(None)
    } else {
        Err(output_error_view("resolve Git revision '"@ + rev + "'"@, o))
    }
}

/// `git rev-parse --verify --quiet <rev>^{commit}`.
pub open spec fn revision_args(rev: Seq<char>) -> Seq<Seq<u8>> {
    words_of(seq!["rev-parse", "--verify", "--quiet"]).push(word(rev + "^{commit}"@))
}

pub fn revision_request(context: &Context, rev: &str) -> (res: Request)
    ensures
        res@ == crate::host::RequestView::RunGit(
            crate::git::git_call(context.home_path(), revision_args(rev@), true),
        ),
{
    let mut args = word_list(&["rev-parse", "--verify", "--quiet"]);
    let mut target = String::from_str(rev);
    target.append("^{commit}");
    push_word(&mut args, target.as_str());
    git_request(context, args, true)
}

fn quoted_message(first: &str, middle: &str, last: &str) -> (res: MadmError)
    ensures
        res.text() == first@ + middle@ + last@,
        res.exit_code() == 1,
{
    let mut message = String::from_str(first);
    message.append(middle);
    message.append(last);
    MadmError::new(message)
}

fn optional_text(
    o: &GitOutcome,
    absent: bool,
    first: &str,
    subject: &str,
    last: &str,
    action_first: &str,
    action_last: &str,
) -> (res: Result<Option<String>, MadmError>)
    ensures
        succeeded(o@) ==> match res {
            Ok(Some(t)) => valid_utf8(o@.stdout) && t@ == trim(decode_utf8(o@.stdout)),
            Ok(None) => false,
            Err(e) => !valid_utf8(o@.stdout) && e.text() == first@ + subject@ + last@
                && e.exit_code() == 1,
        },
        !succeeded(o@) && absent ==> res matches Ok(None),
        !succeeded(o@) && !absent ==> (res matches Err(e) && error_view(e)
            == output_error_view(action_first@ + subject@ + action_last@, o@)),
{
    if crate::git::is_success(o) {
        match utf8_text(o.stdout.as_slice()) {
            Some(t) => Ok(Some(trimmed(t.as_str()))),
            None => Err(quoted_message(first, subject, last)),
        }
    } else if absent {
        Ok(None)
    } else {
        let mut action = String::from_str(action_first);
        action.append(subject);
        action.append(action_last);
        Err(output_error(action.as_str(), o))
    }
}

/// Reads the answer to `config --get <key>`.
pub fn config_value(key: &str, o: &GitOutcome) -> (res: Result<Option<String>, MadmError>)
    ensures
        match config_result(key@, o@) {
            Ok(Some(v)) => res matches Ok(Some(t)) && t@ == v,
            Ok(None) => res matches Ok(None),
            Err(e) => res matches Err(r) && error_view(r) == e,
        },
{
    let absent = o.code == Some(1i32);
    optional_text(o, absent, "Git config value '", key, "' is not valid UTF-8", "read Git config value '", "'")
}

/// Reads the answer to `rev-parse --verify --quiet <rev>^{commit}`.
pub fn resolved_revision(rev: &str, o: &GitOutcome) -> (res: Result<Option<String>, MadmError>)
    ensures
        match revision_result(rev@, o@) {
            Ok(Some(v)) => res matches Ok(Some(t)) && t@ == v,
            Ok(None) => res matches Ok(None),
            Err(e) => res matches Err(r) && error_view(r) == e,
        },
{
    let absent = o.code == Some(1i32) || o.code == Some(128i32);
    optional_text(o, absent, "resolved Git revision '", rev, "' is not valid UTF-8", "resolve Git revision '", "'")
}

/// Whether the current branch has a commit, from the outcome of
/// `revision_request(context, "HEAD")`.
pub fn head_exists(o: &GitOutcome) -> (res: Result<bool, MadmError>)
    ensures
        match revision_result("HEAD"@, o@) {
            Ok(v) => res == Ok::<bool, MadmError>(v is Some),
            Err(e) => res matches Err(r) && error_view(r) == e,
        },
{
    match resolved_revision("HEAD", o) {
        Ok(v) => Ok(v.is_some()),
        Err(e) => Err(e),
    }
}

/// The lines of a trimmed text, as `str::lines` gives them: split at line
/// feeds, a carriage return before a line feed dropped.
pub open spec fn text_lines(t: Seq<char>) -> Seq<Seq<char>> {
    pieces(t, at_char('\n')).map_values(|l: Seq<char>| strip_return(l))
}

pub open spec fn strip_return(l: Seq<char>) -> Seq<char> {
    if l.len() > 0 && l.last() == '\r' {
        l.drop_last()
    } else {
        l
    }
}

/// The remotes named in `git remote` output.
pub open spec fn remote_names(t: Seq<char>) -> Seq<Seq<char>> {
    if t.len() == 0 {
        Seq::empty()
    } else {
        text_lines(t)
    }
}

/// The remotes, one per line with two blanks in front, joined by line feeds.
pub open spec fn listed(names: Seq<Seq<char>>) -> Seq<char>
    decreases names.len(),
{
    if names.len() == 0 {
        Seq::empty()
    } else if names.len() == 1 {
        "  "@ + names[0]
    } else {
        listed(names.drop_last()) + "\n  "@ + names.last()
    }
}

pub open spec fn has_prefix(s: Seq<char>, p: Seq<char>) -> bool {
    s.len() >= p.len() && s.take(p.len() as int) == p
}

pub open spec fn missing_upstream_message(u: UpstreamView) -> Seq<char> {
    "remote branch '"@ + u.remote + "/"@ + u.remote_branch
        + "' does not exist\nPublish it and set upstream with:\n  madm push --set-upstream "@
        + u.remote + " HEAD:"@ + u.remote_branch
}

pub open spec fn no_remote_message(b: Seq<char>) -> Seq<char> {
    "branch '"@ + b
        + "' has no upstream and no remote is configured\nAdd one and publish the branch with:\n  madm remote add origin <url>\n  madm push --set-upstream origin HEAD:"@
        + b
}

pub open spec fn many_remotes_message(b: Seq<char>, names: Seq<Seq<char>>) -> Seq<char> {
    "branch '"@ + b + "' has no upstream and multiple remotes are configured:\n"@ + listed(names)
        + "\nConfigure the intended branch with:\n  madm branch --set-upstream-to=<remote>/"@ + b
        + " "@ + b
}

pub open spec fn not_branch_message(b: Seq<char>, merge: Seq<char>) -> Seq<char> {
    "upstream merge ref for '"@ + b + "' is not a branch: "@ + merge
}

pub open spec fn incomplete_message(b: Seq<char>) -> Seq<char> {
    "branch '"@ + b
        + "' has incomplete upstream configuration; set it with:\n  madm branch --set-upstream-to=<remote>/<branch> "@
        + b
}

/// The upstream that the branch configuration names: `branch.<b>.remote`
/// and `branch.<b>.merge` both set, or neither (no upstream configured).
pub open spec fn configured_upstream(b: Seq<char>, remote: Option<Seq<char>>, merge: Option<Seq<char>>) -> Result<
    Option<UpstreamView>,
    ErrorView,
> {
    match (remote, merge) {
        (None, None) => Ok(None),
        (Some(r), Some(m)) => if !has_prefix(m, "refs/heads/"@) {
            Err((not_branch_message(b, m), 1))
        } else {
            Ok(
                Some(
                    UpstreamView {
                        local_branch: b,
                        remote: r,
                        remote_branch: m.skip("refs/heads/"@.len() as int),
                        reference: if r == "."@ {
                            m
                        } else {
                            "@{upstream}"@
                        },
                        inferred: false,
                        exists: false,
                    },
                ),
            )
        },
        _ => Err((incomplete_message(b), 1)),
    }
}

/// The upstream chosen when none is configured: the same-named branch of the
/// only remote.
pub open spec fn inferred_upstream(b: Seq<char>, names: Seq<Seq<char>>) -> Result<UpstreamView, ErrorView> {
    if names.len() == 0 {
        Err((no_remote_message(b), 1))
    } else if names.len() == 1 {
        Ok(
            UpstreamView {
                local_branch: b,
                remote: names[0],
                remote_branch: b,
                reference: "refs/remotes/"@ + names[0] + "/"@ + b,
                inferred: true,
                exists: false,
            },
        )
    } else {
        Err((many_remotes_message(b, names), 1))
    }
}

fn starts_with(chars: &Vec<char>, prefix: &Vec<char>) -> (res: bool)
    ensures
        res == has_prefix(chars@, prefix@),
{
    if chars.len() < prefix.len() {
        return false;
    }
    let mut i: usize = 0;
    while i < prefix.len()
        invariant
            chars@.len() >= prefix@.len(),
            i <= prefix@.len(),
            forall|j: int| 0 <= j < i ==> chars@[j] == prefix@[j],
        decreases prefix@.len() - i,
    {
        if chars[i] != prefix[i] {
            assert(chars@.take(prefix@.len() as int)[i as int] != prefix@[i as int]);
            return false;
        }
        i = i + 1;
    }
    assert(chars@.take(prefix@.len() as int) =~= prefix@);
    true
}

/// The configured upstream, checked and built.
pub fn configured(branch: &str, remote: Option<String>, merge: Option<String>) -> (res: Result<
    Option<Upstream>,
    MadmError,
>)
    ensures
        match configured_upstream(
            branch@,
            match remote {
                Some(r) => Some(r@),
                None => None,
            },
            match merge {
                Some(m) => Some(m@),
                None => None,
            },
        ) {
            Ok(Some(u)) => res matches Ok(Some(x)) && x.deep_view() == u,
            Ok(None) => res matches Ok(None),
            Err(e) => res matches Err(r) && error_view(r) == e,
        },
{
    match (remote, merge) {
        (None, None) => Ok(None),
        (Some(r), Some(m)) => {
            let prefix = chars_of("refs/heads/");
            let chars = chars_of(m.as_str());
            let starts = starts_with(&chars, &prefix);
            proof { reveal_strlit("refs/heads/"); }
            if !starts {
                let mut message = String::from_str("upstream merge ref for '");
                message.append(branch);
                message.append("' is not a branch: ");
                message.append(m.as_str());
                return Err(MadmError::new(message));
            }
            assert(m@.take(prefix@.len() as int) =~= prefix@);
            let mut rest: Vec<char> = Vec::new();
            let mut k: usize = prefix.len();
            while k < chars.len()
                invariant
                    prefix@.len() <= k <= chars@.len(),
                    rest@ =~= chars@.subrange(prefix@.len() as int, k as int),
                decreases chars@.len() - k,
            {
                rest.push(chars[k]);
                k = k + 1;
            }
            let remote_branch = string_of(rest.as_slice());
            assert(remote_branch@ =~= m@.skip("refs/heads/"@.len() as int));
            let reference = if same_text(r.as_str(), ".") {
                String::from_str(m.as_str())
            } else {
                String::from_str("@{upstream}")
            };
            Ok(
                Some(
                    Upstream {
                        local_branch: String::from_str(branch),
                        remote: r,
                        remote_branch,
                        reference,
                        inferred: false,
                        exists: false,
                    },
                ),
            )
        },
        _ => {
            let mut message = String::from_str("branch '");
            message.append(branch);
            message.append(
                "' has incomplete upstream configuration; set it with:\n  madm branch --set-upstream-to=<remote>/<branch> ",
            );
            message.append(branch);
            Err(MadmError::new(message))
        },
    }
}

/// The remotes listed in `git remote` output.
pub fn remotes_of(t: &str) -> (res: Vec<String>)
    ensures
        texts(res@) == remote_names(t@),
{
    let chars = chars_of(t);
    if chars.len() == 0 {
        let res: Vec<String> = Vec::new();
        assert(texts(res@) =~= Seq::<Seq<char>>::empty());
        return res;
    }
    let parts = split_chars(chars.as_slice(), '\n');
    let ghost ps = pieces(t@, at_char('\n'));
    let mut out: Vec<String> = Vec::new();
    let mut i: usize = 0;
    while i < parts.len()
        invariant
            parts.deep_view() == ps,
            ps == pieces(t@, at_char('\n')),
            i <= ps.len(),
            texts(out@) =~= ps.take(i as int).map_values(
                |l: Seq<char>| strip_return(l),
            ),
        decreases ps.len() - i,
    {
        let line = &parts[i];
        assert(line@ == ps[i as int]) by {
            assert(parts@[i as int].deep_view() =~= parts@[i as int]@);
        }
        let n = line.len();
        let mut kept: Vec<char> = Vec::new();
        let end = if n > 0 && line[n - 1] == '\r' {
            n - 1
        } else {
            n
        };
        let mut k: usize = 0;
        while k < end
            invariant
                end <= line@.len(),
                k <= end,
                kept@ =~= line@.take(k as int),
            decreases end - k,
        {
            kept.push(line[k]);
            k = k + 1;
        }
        let text_line = string_of(kept.as_slice());
        assert(text_line@ =~= strip_return(ps[i as int]));
        let ghost before = out@;
        out.push(text_line);
        assert(ps.take(i + 1) =~= ps.take(i as int).push(ps[i as int]));
        assert(texts(before).len() == i);
        assert(before.len() == i);
        assert(out@ == before.push(text_line));
        assert forall|j: int| 0 <= j < i + 1 implies #[trigger] out@[j]@ == strip_return(ps[j]) by {
            if j < i {
                assert(texts(before)[j] == ps.take(i as int).map_values(
                    |l: Seq<char>| strip_return(l),
                )[j]);
                assert(out@[j] == before[j]);
            }
        }
        assert(texts(out@) =~= ps.take(i + 1).map_values(
            |l: Seq<char>| strip_return(l),
        ));
        i = i + 1;
    }
    assert(ps.take(ps.len() as int) =~= ps);
    out
}

/// Where finding the upstream stands.
#[derive(Copy, Clone, Debug, PartialEq, Eq, Structural)]
pub enum UpstreamPhase {
    Begin,
    Branch,
    RemoteKey,
    MergeKey,
    Remotes,
    Fetching,
    Pinning,
    Over,
}

/// Finding the upstream of the current branch (`upstream::resolve`):
/// the configured one, or the same-named branch of the only remote; it is
/// fetched and pinned to a commit when it exists.
pub struct UpstreamResolution {
    context: Context,
    allow_missing: bool,
    phase: UpstreamPhase,
    branch: String,
    remote: Option<String>,
    upstream: Upstream,
}

pub struct ResolutionView {
    pub home: Seq<u8>,
    pub allow_missing: bool,
    pub phase: UpstreamPhase,
    pub branch: Seq<char>,
    pub remote: Option<Seq<char>>,
    pub upstream: UpstreamView,
}

pub open spec fn empty_upstream() -> UpstreamView {
    UpstreamView {
        local_branch: Seq::empty(),
        remote: Seq::empty(),
        remote_branch: Seq::empty(),
        reference: Seq::empty(),
        inferred: false,
        exists: false,
    }
}

pub open spec fn remote_key(b: Seq<char>) -> Seq<char> {
    "branch."@ + b + ".remote"@
}

pub open spec fn merge_key(b: Seq<char>) -> Seq<char> {
    "branch."@ + b + ".merge"@
}

pub open spec fn config_args(key: Seq<char>) -> Seq<Seq<u8>> {
    words_of(seq!["config", "--get"]).push(word(key))
}

impl UpstreamResolution {
    pub closed spec fn view(&self) -> ResolutionView {
        ResolutionView {
            home: self.context.home_path(),
            allow_missing: self.allow_missing,
            phase: self.phase,
            branch: self.branch@,
            remote: match self.remote {
                Some(r) => Some(r@),
                None => None,
            },
            upstream: self.upstream.deep_view(),
        }
    }

    pub open spec fn initial(home: Seq<u8>, allow_missing: bool) -> ResolutionView {
        ResolutionView {
            home,
            allow_missing,
            phase: UpstreamPhase::Begin,
            branch: Seq::empty(),
            remote: None,
            upstream: empty_upstream(),
        }
    }

    /// Fetches the upstream's remote, unless it is the repository itself.
    pub open spec fn fetch(s: ResolutionView, u: UpstreamView) -> (ResolutionView, ProgressView<UpstreamView>) {
        if u.remote == "."@ {
            Self::pin(ResolutionView { upstream: u, ..s })
        } else {
            (
                ResolutionView { phase: UpstreamPhase::Fetching, upstream: u, ..s },
                ask_git(s.home, words_of(seq!["fetch", "--"]).push(word(u.remote)), false),
            )
        }
    }

    /// Resolves the upstream reference to a commit.
    pub open spec fn pin(s: ResolutionView) -> (ResolutionView, ProgressView<UpstreamView>) {
        (
            ResolutionView { phase: UpstreamPhase::Pinning, ..s },
            ask_git(s.home, revision_args(s.upstream.reference), true),
        )
    }

    /// One step of finding the upstream. A missing remote branch is an
    /// error unless `allow_missing`.
    pub open spec fn next(s: ResolutionView, r: ReplyView) -> (ResolutionView, ProgressView<UpstreamView>) {
        let over = ResolutionView { phase: UpstreamPhase::Over, ..s };
        match s.phase {
            UpstreamPhase::Begin => (
                ResolutionView { phase: UpstreamPhase::Branch, ..s },
                ask_git(s.home, words_of(seq!["symbolic-ref", "--quiet", "--short", "HEAD"]), true),
            ),
            UpstreamPhase::Over => (over, ProgressView::Done(Err(unexpected_reply()))),
            _ => match r {
                ReplyView::Failed(k, d) => (over, ProgressView::Done(Err(process_error_view(k, d)))),
                ReplyView::Ran(o) => match s.phase {
                    UpstreamPhase::Branch => match branch_result(o) {
                        Err(e) => (over, ProgressView::Done(Err(e))),
                        Ok(b) => (
                            ResolutionView { phase: UpstreamPhase::RemoteKey, branch: b, ..s },
                            ask_git(s.home, config_args(remote_key(b)), true),
                        ),
                    },
                    UpstreamPhase::RemoteKey => match config_result(remote_key(s.branch), o) {
                        Err(e) => (over, ProgressView::Done(Err(e))),
                        Ok(v) => (
                            ResolutionView { phase: UpstreamPhase::MergeKey, remote: v, ..s },
                            ask_git(s.home, config_args(merge_key(s.branch)), true),
                        ),
                    },
                    UpstreamPhase::MergeKey => match config_result(merge_key(s.branch), o) {
                        Err(e) => (over, ProgressView::Done(Err(e))),
                        Ok(m) => match configured_upstream(s.branch, s.remote, m) {
                            Err(e) => (over, ProgressView::Done(Err(e))),
                            Ok(Some(u)) => Self::fetch(s, u),
                            Ok(None) => (
                                ResolutionView { phase: UpstreamPhase::Remotes, ..s },
                                ask_git(s.home, seq![word("remote"@)], true),
                            ),
                        },
                    },
                    UpstreamPhase::Remotes => match text_view("list Git remotes"@, o) {
                        Err(e) => (over, ProgressView::Done(Err(e))),
                        Ok(t) => match inferred_upstream(s.branch, remote_names(t)) {
                            Err(e) => (over, ProgressView::Done(Err(e))),
                            Ok(u) => Self::fetch(s, u),
                        },
                    },
                    UpstreamPhase::Fetching => if !succeeded(o) {
                        (
                            over,
                            ProgressView::Done(
                                Err(status_error_view("fetch remote '"@ + s.upstream.remote + "'"@, o.code)),
                            ),
                        )
                    } else {
                        Self::pin(s)
                    },
                    _ => match revision_result(s.upstream.reference, o) {
                        Err(e) => (over, ProgressView::Done(Err(e))),
                        Ok(c) => {
                            let u = match c {
                                Some(commit) => UpstreamView {
                                    reference: commit,
                                    exists: true,
                                    ..s.upstream
                                },
                                None => UpstreamView { exists: false, ..s.upstream },
                            };
                            if !u.exists && !s.allow_missing {
                                (
                                    ResolutionView { upstream: u, ..over },
                                    ProgressView::Done(Err((missing_upstream_message(u), 1))),
                                )
                            } else {
                                (ResolutionView { upstream: u, ..over }, ProgressView::Done(Ok(u)))
                            }
                        },
                    },
                },
                _ => (over, ProgressView::Done(Err(unexpected_reply()))),
            },
        }
    }

    pub fn new(context: &Context, allow_missing: bool) -> (res: UpstreamResolution)
        ensures
            res.view() == Self::initial(context.home_path(), allow_missing),
    {
        let res = UpstreamResolution {
            context: context.copy(),
            allow_missing,
            phase: UpstreamPhase::Begin,
            branch: String::new(),
            remote: None,
            upstream: Upstream {
                local_branch: String::new(),
                remote: String::new(),
                remote_branch: String::new(),
                reference: String::new(),
                inferred: false,
                exists: false,
            },
        };
        assert(res.view().upstream == empty_upstream());
        res
    }

    fn copy_upstream(&self) -> (res: Upstream)
        ensures
            res.deep_view() == self.upstream.deep_view(),
    {
        Upstream {
            local_branch: String::from_str(self.upstream.local_branch.as_str()),
            remote: String::from_str(self.upstream.remote.as_str()),
            remote_branch: String::from_str(self.upstream.remote_branch.as_str()),
            reference: String::from_str(self.upstream.reference.as_str()),
            inferred: self.upstream.inferred,
            exists: self.upstream.exists,
        }
    }

    fn pin_exec(&mut self) -> (res: Progress<Upstream>)
        ensures
            (final(self).view(), res@) == Self::pin(old(self).view()),
    {
        self.phase = UpstreamPhase::Pinning;
        Progress::Ask(revision_request(&self.context, self.upstream.reference.as_str()))
    }

    fn fetch_exec(&mut self, u: Upstream) -> (res: Progress<Upstream>)
        ensures
            (final(self).view(), res@) == Self::fetch(old(self).view(), u.deep_view()),
    {
        self.upstream = u;
        if same_text(self.upstream.remote.as_str(), ".") {
            self.pin_exec()
        } else {
            self.phase = UpstreamPhase::Fetching;
            let mut args = word_list(&["fetch", "--"]);
            push_word(&mut args, self.upstream.remote.as_str());
            Progress::Ask(git_request(&self.context, args, false))
        }
    }

    fn key_request(&self, last: &str) -> (res: Request)
        ensures
            res@ == crate::host::RequestView::RunGit(
                crate::git::git_call(
                    self.view().home,
                    config_args("branch."@ + self.view().branch + last@),
                    true,
                ),
            ),
    {
        let mut key = String::from_str("branch.");
        key.append(self.branch.as_str());
        key.append(last);
        let mut args = word_list(&["config", "--get"]);
        push_word(&mut args, key.as_str());
        git_request(&self.context, args, true)
    }

    fn key_text(&self, last: &str) -> (res: String)
        ensures
            res@ == "branch."@ + self.view().branch + last@,
    {
        let mut key = String::from_str("branch.");
        key.append(self.branch.as_str());
        key.append(last);
        key
    }

    pub fn step(&mut self, reply: Reply) -> (res: Progress<Upstream>)
        ensures
            (final(self).view(), res@) == Self::next(old(self).view(), reply@),
    {
        match self.phase {
            UpstreamPhase::Begin => {
                self.phase = UpstreamPhase::Branch;
                let args = word_list(&["symbolic-ref", "--quiet", "--short", "HEAD"]);
                return Progress::Ask(git_request(&self.context, args, true));
            },
            UpstreamPhase::Over => {
                return Progress::Done(Err(unexpected()));
            },
            _ => {},
        }
        let phase = self.phase;
        self.phase = UpstreamPhase::Over;
        let o = match reply {
            Reply::Failed(f) => {
                return Progress::Done(Err(process_error(&f)));
            },
            Reply::Ran(o) => o,
            _ => {
                return Progress::Done(Err(unexpected()));
            },
        };
        match phase {
            UpstreamPhase::Branch => {
                if !crate::git::is_success(&o) {
                    return Progress::Done(Err(MadmError::new(String::from_str(
                        "HEAD is detached; check out a local branch before using this command",
                    ))));
                }
                let text = match utf8_text(o.stdout.as_slice()) {
                    Some(t) => t,
                    None => {
                        return Progress::Done(Err(MadmError::new(String::from_str(
                            "the current Git branch name is not valid UTF-8",
                        ))));
                    },
                };
                self.branch = trimmed(text.as_str());
                self.phase = UpstreamPhase::RemoteKey;
                proof {
                    reveal_strlit(".remote");
                }
                Progress::Ask(self.key_request(".remote"))
            },
            UpstreamPhase::RemoteKey => {
                let key = self.key_text(".remote");
                match config_value(key.as_str(), &o) {
                    Err(e) => Progress::Done(Err(e)),
                    Ok(v) => {
                        self.remote = v;
                        self.phase = UpstreamPhase::MergeKey;
                        Progress::Ask(self.key_request(".merge"))
                    },
                }
            },
            UpstreamPhase::MergeKey => {
                let key = self.key_text(".merge");
                let merge = match config_value(key.as_str(), &o) {
                    Err(e) => {
                        return Progress::Done(Err(e));
                    },
                    Ok(m) => m,
                };
                let remote = match &self.remote {
                    Some(r) => Some(String::from_str(r.as_str())),
                    None => None,
                };
                match configured(self.branch.as_str(), remote, merge) {
                    Err(e) => Progress::Done(Err(e)),
                    Ok(Some(u)) => self.fetch_exec(u),
                    Ok(None) => {
                        self.phase = UpstreamPhase::Remotes;
                        let mut args: Vec<Vec<u8>> = Vec::new();
                        push_word(&mut args, "remote");
                        assert(args.deep_view() =~= seq![word("remote"@)]);
                        Progress::Ask(git_request(&self.context, args, true))
                    },
                }
            },
            UpstreamPhase::Remotes => {
                let listing = match Git::text(o, "list Git remotes") {
                    Err(e) => {
                        return Progress::Done(Err(e));
                    },
                    Ok(t) => t,
                };
                let names = remotes_of(listing.as_str());
                match inferred(self.branch.as_str(), names) {
                    Err(e) => Progress::Done(Err(e)),
                    Ok(u) => self.fetch_exec(u),
                }
            },
            UpstreamPhase::Fetching => {
                if !crate::git::is_success(&o) {
                    let mut action = String::from_str("fetch remote '");
                    action.append(self.upstream.remote.as_str());
                    action.append("'");
                    return Progress::Done(Err(status_error(action.as_str(), o.code)));
                }
                self.pin_exec()
            },
            _ => {
                match resolved_revision(self.upstream.reference.as_str(), &o) {
                    Err(e) => Progress::Done(Err(e)),
                    Ok(c) => {
                        match c {
                            Some(commit) => {
                                self.upstream.reference = commit;
                                self.upstream.exists = true;
                            },
                            None => {
                                self.upstream.exists = false;
                            },
                        }
                        if !self.upstream.exists && !self.allow_missing {
                            let mut message = String::from_str("remote branch '");
                            message.append(self.upstream.remote.as_str());
                            message.append("/");
                            message.append(self.upstream.remote_branch.as_str());
                            message.append(
                                "' does not exist\nPublish it and set upstream with:\n  madm push --set-upstream ",
                            );
                            message.append(self.upstream.remote.as_str());
                            message.append(" HEAD:");
                            message.append(self.upstream.remote_branch.as_str());
                            Progress::Done(Err(MadmError::new(message)))
                        } else {
                            Progress::Done(Ok(self.copy_upstream()))
                        }
                    },
                }
            },
        }
    }
}

/// The upstream of the only remote, or the error for none or several.
pub fn inferred(branch: &str, names: Vec<String>) -> (res: Result<Upstream, MadmError>)
    ensures
        match inferred_upstream(branch@, texts(names@)) {
            Ok(u) => res matches Ok(x) && x.deep_view() == u,
            Err(e) => res matches Err(r) && error_view(r) == e,
        },
{
    let ghost nv = texts(names@);
    if names.len() == 0 {
        let mut message = String::from_str("branch '");
        message.append(branch);
        message.append(
            "' has no upstream and no remote is configured\nAdd one and publish the branch with:\n  madm remote add origin <url>\n  madm push --set-upstream origin HEAD:",
        );
        message.append(branch);
        return Err(MadmError::new(message));
    }
    if names.len() == 1 {
        let mut names = names;
        let remote = names.remove(0);
        assert(remote@ == nv[0]);
        let mut reference = String::from_str("refs/remotes/");
        reference.append(remote.as_str());
        reference.append("/");
        reference.append(branch);
        return Ok(
            Upstream {
                local_branch: String::from_str(branch),
                remote,
                remote_branch: String::from_str(branch),
                reference,
                inferred: true,
                exists: false,
            },
        );
    }
    let mut listing = String::new();
    let mut i: usize = 0;
    while i < names.len()
        invariant
            names@.len() >= 2,
            nv == texts(names@),
            i <= names@.len(),
            listing@ == listed(nv.take(i as int)),
        decreases names@.len() - i,
    {
        assert(nv.take(i + 1).drop_last() =~= nv.take(i as int));
        assert(nv.take(i + 1).last() == names@[i as int]@);
        if i == 0 {
            listing.append("  ");
            assert(listed(nv.take(1)) == "  "@ + nv.take(1)[0]);
        } else {
            listing.append("\n  ");
        }
        listing.append(names[i].as_str());
        i = i + 1;
    }
    assert(nv.take(i as int) =~= nv);
    let mut message = String::from_str("branch '");
    message.append(branch);
    message.append("' has no upstream and multiple remotes are configured:\n");
    message.append(listing.as_str());
    message.append("\nConfigure the intended branch with:\n  madm branch --set-upstream-to=<remote>/");
    message.append(branch);
    message.append(" ");
    message.append(branch);
    Err(MadmError::new(message))
}

} // verus!
