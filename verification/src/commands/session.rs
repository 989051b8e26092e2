use vstd::prelude::*;

use crate::cli::{help, help_spec, word, CliCommand, CommandView};
use crate::commands::clone::{CloneRun, CloneView};
use crate::commands::compare::{Compare, CompareView};
use crate::commands::init::{InitRun, InitView};
use crate::commands::resolve::{ResolveRun, ResolveRunView};
use crate::commands::setup::{Prepare, PrepareView};
use crate::commands::steps::{ask_git, git_request, raw_request};
use crate::commands::sync::{SyncRun, SyncView};
use crate::context::Context;
use crate::error::MadmError;
use crate::git::{
    code_of, process_error, process_error_view, push_arg, push_word, raw_call, status_code,
};
use crate::host::{
    error_view, ErrorView, OutcomeView, Progress, ProgressView, Reply, ReplyView, Request,
    RequestView,
};
use crate::path::{unexpected, unexpected_reply};

verus! {

/// The version that `madm --version` reports.
pub const VERSION: &'static str = "0.1.0";

pub open spec fn clean_message() -> Seq<char> {
    "'madm clean' is disabled because it could delete untracked files throughout your home directory; invoke raw Git deliberately if needed"@
}

pub open spec fn version_text() -> Seq<char> {
    "madm "@ + VERSION@ + "\n"@
}

/// Writing a text and ending with exit code 0.
pub struct Announcement {
    text: String,
    said: bool,
}

pub struct AnnouncementView {
    pub text: Seq<char>,
    pub said: bool,
}

impl Announcement {
    pub closed spec fn view(&self) -> AnnouncementView {
        AnnouncementView { text: self.text@, said: self.said }
    }

    pub open spec fn next(s: AnnouncementView, r: ReplyView) -> (AnnouncementView, ProgressView<i32>) {
        if !s.said {
            (AnnouncementView { said: true, ..s }, ProgressView::Ask(RequestView::Say(s.text)))
        } else {
            match r {
                ReplyView::Ack => (s, ProgressView::Done(Ok(0))),
                _ => (s, ProgressView::Done(Err(unexpected_reply()))),
            }
        }
    }

    pub fn new(text: String) -> (res: Announcement)
        ensures
            res.view() == (AnnouncementView { text: text@, said: false }),
    {
        Announcement { text, said: false }
    }

    pub fn step(&mut self, reply: Reply) -> (res: Progress<i32>)
        ensures
            (final(self).view(), res@) == Self::next(old(self).view(), reply@),
    {
        if !self.said {
            self.said = true;
            let mut text = String::new();
            std::mem::swap(&mut text, &mut self.text);
            self.text = String::from_str(text.as_str());
            Progress::Ask(Request::Say(text))
        } else {
            match reply {
                Reply::Ack => Progress::Done(Ok(0)),
                _ => Progress::Done(Err(unexpected())),
            }
        }
    }
}

/// Ending with an error before anything is done.
pub struct Refusal {
    error: MadmError,
    given: bool,
}

pub struct RefusalView {
    pub error: ErrorView,
    pub given: bool,
}

impl Refusal {
    pub closed spec fn view(&self) -> RefusalView {
        RefusalView { error: error_view(self.error), given: self.given }
    }

    pub open spec fn next(s: RefusalView, r: ReplyView) -> (RefusalView, ProgressView<i32>) {
        if !s.given {
            (RefusalView { given: true, error: (Seq::empty(), 1) }, ProgressView::Done(Err(s.error)))
        } else {
            (s, ProgressView::Done(Err(unexpected_reply())))
        }
    }

    pub fn new(error: MadmError) -> (res: Refusal)
        ensures
            res.view() == (RefusalView { error: error_view(error), given: false }),
    {
        Refusal { error, given: false }
    }

    pub fn step(&mut self, reply: Reply) -> (res: Progress<i32>)
        ensures
            (final(self).view(), res@) == Self::next(old(self).view(), reply@),
    {
        if !self.given {
            self.given = true;
            let mut e = MadmError::new(String::new());
            std::mem::swap(&mut e, &mut self.error);
            Progress::Done(Err(e))
        } else {
            Progress::Done(Err(unexpected()))
        }
    }
}

/// One Git process outside any repository, ending with its exit code.
pub struct RawRun {
    args: Vec<Vec<u8>>,
    started: bool,
}

pub struct RawRunView {
    pub args: Seq<Seq<u8>>,
    pub started: bool,
}

impl RawRun {
    pub closed spec fn view(&self) -> RawRunView {
        RawRunView { args: self.args.deep_view(), started: self.started }
    }

    pub open spec fn next(s: RawRunView, r: ReplyView) -> (RawRunView, ProgressView<i32>) {
        if !s.started {
            (
                RawRunView { started: true, args: Seq::empty() },
                ProgressView::Ask(RequestView::RunGit(raw_call(s.args, false))),
            )
        } else {
            match r {
                ReplyView::Ran(o) => (s, ProgressView::Done(Ok(code_of(o.code)))),
                ReplyView::Failed(k, d) => (s, ProgressView::Done(Err(process_error_view(k, d)))),
                _ => (s, ProgressView::Done(Err(unexpected_reply()))),
            }
        }
    }

    pub fn new(args: Vec<Vec<u8>>) -> (res: RawRun)
        ensures
            res.view() == (RawRunView { args: args.deep_view(), started: false }),
    {
        RawRun { args, started: false }
    }

    pub fn step(&mut self, reply: Reply) -> (res: Progress<i32>)
        ensures
            (final(self).view(), res@) == Self::next(old(self).view(), reply@),
    {
        if !self.started {
            self.started = true;
            let mut args: Vec<Vec<u8>> = Vec::new();
            std::mem::swap(&mut args, &mut self.args);
            assert(self.args.deep_view() =~= Seq::<Seq<u8>>::empty());
            Progress::Ask(raw_request(args, false))
        } else {
            match reply {
                Reply::Ran(o) => Progress::Done(Ok(status_code(o.code))),
                Reply::Failed(f) => Progress::Done(Err(process_error(&f))),
                _ => Progress::Done(Err(unexpected())),
            }
        }
    }
}

/// Where handing a command to Git stands.
#[derive(Copy, Clone, Debug, PartialEq, Eq, Structural)]
pub enum PassPhase {
    Preparing,
    Running,
    Over,
}

/// `passthrough`: once the repository is prepared, Git runs with the
/// arguments as given, on the terminal, and its exit code is madm's.
pub struct Passthrough {
    context: Context,
    args: Vec<Vec<u8>>,
    phase: PassPhase,
    prepare: Prepare,
}

pub struct PassthroughView {
    pub home: Seq<u8>,
    pub args: Seq<Seq<u8>>,
    pub phase: PassPhase,
    pub prepare: PrepareView,
}

impl Passthrough {
    pub closed spec fn view(&self) -> PassthroughView {
        PassthroughView {
            home: self.context.home_path(),
            args: self.args.deep_view(),
            phase: self.phase,
            prepare: self.prepare.view(),
        }
    }

    pub open spec fn initial(home: Seq<u8>, args: Seq<Seq<u8>>) -> PassthroughView {
        PassthroughView { home, args, phase: PassPhase::Preparing, prepare: Prepare::initial(home) }
    }

    pub open spec fn next(s: PassthroughView, r: ReplyView) -> (PassthroughView, ProgressView<i32>) {
        let over = PassthroughView { phase: PassPhase::Over, ..s };
        match s.phase {
            PassPhase::Preparing => {
                let (pv, p) = Prepare::next(s.prepare, r);
                let t = PassthroughView { prepare: pv, ..s };
                match p {
                    ProgressView::Ask(q) => (t, ProgressView::Ask(q)),
                    ProgressView::Done(Err(e)) => (PassthroughView { phase: PassPhase::Over, ..t }, ProgressView::Done(Err(e))),
                    ProgressView::Done(Ok(_)) => (
                        PassthroughView { phase: PassPhase::Running, args: Seq::empty(), ..t },
                        ask_git(s.home, s.args, false),
                    ),
                }
            },
            PassPhase::Running => match r {
                ReplyView::Ran(o) => (over, ProgressView::Done(Ok(code_of(o.code)))),
                ReplyView::Failed(k, d) => (over, ProgressView::Done(Err(process_error_view(k, d)))),
                _ => (over, ProgressView::Done(Err(unexpected_reply()))),
            },
            PassPhase::Over => (over, ProgressView::Done(Err(unexpected_reply()))),
        }
    }

    pub fn new(context: &Context, args: Vec<Vec<u8>>) -> (res: Passthrough)
        ensures
            res.view() == Self::initial(context.home_path(), args.deep_view()),
    {
        Passthrough { context: context.copy(), args, phase: PassPhase::Preparing, prepare: Prepare::new(context) }
    }

    pub fn step(&mut self, reply: Reply) -> (res: Progress<i32>)
        ensures
            (final(self).view(), res@) == Self::next(old(self).view(), reply@),
    {
        match self.phase {
            PassPhase::Preparing => match self.prepare.step(reply) {
                Progress::Ask(q) => Progress::Ask(q),
                Progress::Done(Err(e)) => {
                    self.phase = PassPhase::Over;
                    Progress::Done(Err(e))
                },
                Progress::Done(Ok(_)) => {
                    self.phase = PassPhase::Running;
                    let mut args: Vec<Vec<u8>> = Vec::new();
                    std::mem::swap(&mut args, &mut self.args);
                    assert(self.args.deep_view() =~= Seq::<Seq<u8>>::empty());
                    Progress::Ask(git_request(&self.context, args, false))
                },
            },
            PassPhase::Running => {
                self.phase = PassPhase::Over;
                match reply {
                    Reply::Ran(o) => Progress::Done(Ok(status_code(o.code))),
                    Reply::Failed(f) => Progress::Done(Err(process_error(&f))),
                    _ => Progress::Done(Err(unexpected())),
                }
            },
            PassPhase::Over => Progress::Done(Err(unexpected())),
        }
    }
}

/// A whole madm invocation, from its parsed command line to its exit code.
pub enum Session {
    Report(Announcement),
    Refuse(Refusal),
    GitHelp(RawRun),
    Init(InitRun),
    Clone(CloneRun),
    Compare(Compare),
    Sync(SyncRun),
    Resolve(ResolveRun),
    Pass(Passthrough),
}

pub enum SessionView {
    Report(AnnouncementView),
    Refuse(RefusalView),
    GitHelp(RawRunView),
    Init(InitView),
    Clone(CloneView),
    Compare(CompareView),
    Sync(SyncView),
    Resolve(ResolveRunView),
    Pass(PassthroughView),
}

pub open spec fn report(text: Seq<char>) -> SessionView {
    SessionView::Report(AnnouncementView { text, said: false })
}

pub open spec fn refuse(e: ErrorView) -> SessionView {
    SessionView::Refuse(RefusalView { error: e, given: false })
}

/// The session that a command line starts: help and version texts, the
/// refusal of `clean` and Git's own help need no home directory; every
/// other command runs against the repository below `home`, or fails with
/// the error of finding it.
pub open spec fn session_spec(
    command: Result<CommandView, ErrorView>,
    home: Result<Seq<u8>, ErrorView>,
    interactive: bool,
) -> SessionView {
    match command {
        Err(e) => refuse(e),
        Ok(CommandView::Help(c)) => match help_spec(c) {
            Ok(t) => report(t),
            Err(m) => refuse((m, 1)),
        },
        Ok(CommandView::GitHelp(c)) => SessionView::GitHelp(
            RawRunView { args: seq![word("help"@), c], started: false },
        ),
        Ok(CommandView::Version) => report(version_text()),
        Ok(CommandView::Clean) => refuse((clean_message(), 1)),
        Ok(c) => match home {
            Err(e) => refuse(e),
            Ok(h) => match c {
                CommandView::Init => SessionView::Init(InitRun::initial(h)),
                CommandView::Clone(url) => SessionView::Clone(CloneRun::initial(h, url, interactive)),
                CommandView::Compare => SessionView::Compare(Compare::initial(h)),
                CommandView::Sync => SessionView::Sync(SyncRun::initial(h, interactive)),
                CommandView::Resolve => SessionView::Resolve(ResolveRun::initial(h, interactive)),
                CommandView::List(args) => SessionView::Pass(Passthrough::initial(h, seq![word("ls-files"@)] + args)),
                CommandView::Git(args) => SessionView::Pass(Passthrough::initial(h, args)),
                _ => refuse(unexpected_reply()),
            },
        },
    }
}

pub open spec fn command_view(command: Result<CliCommand, MadmError>) -> Result<CommandView, ErrorView> {
    match command {
        Ok(c) => Ok(c@),
        Err(e) => Err(error_view(e)),
    }
}

pub open spec fn home_view(context: Result<Context, MadmError>) -> Result<Seq<u8>, ErrorView> {
    match context {
        Ok(c) => Ok(c.home_path()),
        Err(e) => Err(error_view(e)),
    }
}

impl Session {
    pub closed spec fn view(&self) -> SessionView {
        match self {
            Session::Report(a) => SessionView::Report(a.view()),
            Session::Refuse(a) => SessionView::Refuse(a.view()),
            Session::GitHelp(a) => SessionView::GitHelp(a.view()),
            Session::Init(a) => SessionView::Init(a.view()),
            Session::Clone(a) => SessionView::Clone(a.view()),
            Session::Compare(a) => SessionView::Compare(a.view()),
            Session::Sync(a) => SessionView::Sync(a.view()),
            Session::Resolve(a) => SessionView::Resolve(a.view()),
            Session::Pass(a) => SessionView::Pass(a.view()),
        }
    }

    pub open spec fn valid(s: SessionView) -> bool {
        match s {
            SessionView::Clone(c) => CloneRun::valid(c),
            SessionView::Sync(c) => SyncRun::valid(c),
            SessionView::Resolve(c) => ResolveRun::valid(c),
            _ => true,
        }
    }

    /// One step of the session: the step of the command it runs.
    pub open spec fn next(s: SessionView, r: ReplyView) -> (SessionView, ProgressView<i32>) {
        match s {
            SessionView::Report(a) => {
                let (t, p) = Announcement::next(a, r);
                (SessionView::Report(t), p)
            },
            SessionView::Refuse(a) => {
                let (t, p) = Refusal::next(a, r);
                (SessionView::Refuse(t), p)
            },
            SessionView::GitHelp(a) => {
                let (t, p) = RawRun::next(a, r);
                (SessionView::GitHelp(t), p)
            },
            SessionView::Init(a) => {
                let (t, p) = InitRun::next(a, r);
                (SessionView::Init(t), p)
            },
            SessionView::Clone(a) => {
                let (t, p) = CloneRun::next(a, r);
                (SessionView::Clone(t), p)
            },
            SessionView::Compare(a) => {
                let (t, p) = Compare::next(a, r);
                (SessionView::Compare(t), p)
            },
            SessionView::Sync(a) => {
                let (t, p) = SyncRun::next(a, r);
                (SessionView::Sync(t), p)
            },
            SessionView::Resolve(a) => {
                let (t, p) = ResolveRun::next(a, r);
                (SessionView::Resolve(t), p)
            },
            SessionView::Pass(a) => {
                let (t, p) = Passthrough::next(a, r);
                (SessionView::Pass(t), p)
            },
        }
    }

    pub fn step(&mut self, reply: Reply) -> (res: Progress<i32>)
        requires
            Self::valid(old(self).view()),
        ensures
            (final(self).view(), res@) == Self::next(old(self).view(), reply@),
            Self::valid(final(self).view()),
    {
        match self {
            Session::Report(a) => a.step(reply),
            Session::Refuse(a) => a.step(reply),
            Session::GitHelp(a) => a.step(reply),
            Session::Init(a) => a.step(reply),
            Session::Clone(a) => a.step(reply),
            Session::Compare(a) => a.step(reply),
            Session::Sync(a) => a.step(reply),
            Session::Resolve(a) => a.step(reply),
            Session::Pass(a) => a.step(reply),
        }
    }
}

/// Starts the session for a parsed command line. `context` is the home
/// directory found for this process, or the error of finding it;
/// `interactive` says whether prompts can be answered.
pub fn execute(command: Result<CliCommand, MadmError>, context: Result<Context, MadmError>, interactive: bool) -> (res: Session)
    ensures
        res.view() == session_spec(command_view(command), home_view(context), interactive),
        Session::valid(res.view()),
{
    let c = match command {
        Err(e) => {
            return Session::Refuse(Refusal::new(e));
        },
        Ok(c) => c,
    };
    match c {
        CliCommand::Help(name) => {
            let found = match &name {
                Some(n) => help(Some(n.as_slice())),
                None => help(None),
            };
            return match found {
                Ok(t) => Session::Report(Announcement::new(String::from_str(t))),
                Err(e) => Session::Refuse(Refusal::new(e)),
            };
        },
        CliCommand::GitHelp(name) => {
            let ghost n = name@;
            let mut args: Vec<Vec<u8>> = Vec::new();
            push_word(&mut args, "help");
            push_arg(&mut args, name);
            assert(args.deep_view() =~= seq![word("help"@), n]);
            return Session::GitHelp(RawRun::new(args));
        },
        CliCommand::Version => {
            let mut text = String::from_str("madm ");
            text.append(VERSION);
            text.append("\n");
            return Session::Report(Announcement::new(text));
        },
        CliCommand::Clean => {
            return Session::Refuse(
                Refusal::new(
                    MadmError::new(String::from_str(
                        "'madm clean' is disabled because it could delete untracked files throughout your home directory; invoke raw Git deliberately if needed",
                    )),
                ),
            );
        },
        _ => {},
    }
    let context = match context {
        Err(e) => {
            return Session::Refuse(Refusal::new(e));
        },
        Ok(context) => context,
    };
    match c {
        CliCommand::Init => Session::Init(crate::commands::init::run(&context)),
        CliCommand::Clone(url) => Session::Clone(crate::commands::clone::run(&context, url, interactive)),
        CliCommand::Compare => Session::Compare(crate::commands::compare::run(&context)),
        CliCommand::Sync => Session::Sync(crate::commands::sync::run(&context, interactive)),
        CliCommand::Resolve => Session::Resolve(crate::commands::resolve::run(&context, interactive)),
        CliCommand::List(rest) => {
            let mut args: Vec<Vec<u8>> = Vec::new();
            push_word(&mut args, "ls-files");
            let mut i: usize = 0;
            let ghost start = args.deep_view();
            assert(start =~= seq![word("ls-files"@)]);
            while i < rest.len()
                invariant
                    i <= rest@.len(),
                    args.deep_view() == start + rest.deep_view().take(i as int),
                decreases rest@.len() - i,
            {
                let a = crate::commands::steps::copy_bytes(rest[i].as_slice());
                assert(rest.deep_view()[i as int] =~= rest@[i as int]@);
                assert(start + rest.deep_view().take(i + 1) =~= (start + rest.deep_view().take(i as int)).push(a@));
                push_arg(&mut args, a);
                i = i + 1;
            }
            assert(rest.deep_view().take(rest@.len() as int) =~= rest.deep_view());
            Session::Pass(Passthrough::new(&context, args))
        },
        CliCommand::Git(args) => Session::Pass(Passthrough::new(&context, args)),
        _ => Session::Refuse(Refusal::new(unexpected())),
    }
}

/// `madm clean` is refused at its first step, with nothing asked of the
/// host, whatever the home directory and the terminal.
pub proof fn lemma_clean_is_refused(home: Result<Seq<u8>, ErrorView>, interactive: bool, r: ReplyView)
    ensures
        Session::next(session_spec(Ok(CommandView::Clean), home, interactive), r).1
            == ProgressView::<i32>::Done(Err((clean_message(), 1))),
{
}

/// Git commands reach Git with their arguments as given, and `madm list`
/// with `ls-files` in front of them.
pub proof fn lemma_git_and_list_arguments(home: Seq<u8>, args: Seq<Seq<u8>>, interactive: bool)
    ensures
        session_spec(Ok(CommandView::Git(args)), Ok(home), interactive) == SessionView::Pass(
            Passthrough::initial(home, args),
        ),
        session_spec(Ok(CommandView::List(args)), Ok(home), interactive) == SessionView::Pass(
            Passthrough::initial(home, seq![word("ls-files"@)] + args),
        ),
{
}

/// Once the repository is prepared, a passed-through command runs as Git
/// with exactly its arguments, and Git's exit code is madm's.
pub proof fn lemma_passthrough_runs_git_unchanged(s: PassthroughView, r: ReplyView, o: OutcomeView)
    ensures
        s.phase == PassPhase::Preparing && (Prepare::next(s.prepare, r).1 matches ProgressView::Done(Ok(_)))
            ==> Passthrough::next(s, r).1 == ask_git::<i32>(s.home, s.args, false),
        s.phase == PassPhase::Running ==> Passthrough::next(s, ReplyView::Ran(o)).1
            == ProgressView::<i32>::Done(Ok(code_of(o.code))),
{
}

} // verus!
