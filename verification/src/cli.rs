use vstd::prelude::*;
use vstd::utf8::*;

use crate::error::MadmError;
use crate::text::{bytes_of, debug_quoted, debug_text, same_bytes, utf8_text};

verus! {

/// A command line argument as the operating system hands it over: its bytes.
pub type Arg = Vec<u8>;

/// What the command line asks for.
#[derive(Debug, PartialEq, Eq)]
pub enum CliCommand {
    Help(Option<Arg>),
    GitHelp(Arg),
    Version,
    Init,
    Clone(Arg),
    Compare,
    Sync,
    Resolve,
    List(Vec<Arg>),
    Clean,
    Git(Vec<Arg>),
}

/// A parsed command line, with arguments as byte sequences.
pub enum CommandView {
    Help(Option<Seq<u8>>),
    GitHelp(Seq<u8>),
    Version,
    Init,
    Clone(Seq<u8>),
    Compare,
    Sync,
    Resolve,
    List(Seq<Seq<u8>>),
    Clean,
    Git(Seq<Seq<u8>>),
}

impl View for CliCommand {
    type V = CommandView;

    open spec fn view(&self) -> CommandView {
        match self {
            CliCommand::Help(c) => CommandView::Help(
                match c {
                    Some(a) => Some(a@),
                    None => None,
                },
            ),
            CliCommand::GitHelp(a) => CommandView::GitHelp(a@),
            CliCommand::Version => CommandView::Version,
            CliCommand::Init => CommandView::Init,
            CliCommand::Clone(a) => CommandView::Clone(a@),
            CliCommand::Compare => CommandView::Compare,
            CliCommand::Sync => CommandView::Sync,
            CliCommand::Resolve => CommandView::Resolve,
            CliCommand::List(v) => CommandView::List(v.deep_view()),
            CliCommand::Clean => CommandView::Clean,
            CliCommand::Git(v) => CommandView::Git(v.deep_view()),
        }
    }
}

/// The bytes of a command word.
pub open spec fn word(text: Seq<char>) -> Seq<u8> {
    encode_utf8(text)
}

/// The remaining arguments are exactly one `-h` or `--help`.
pub open spec fn is_help_request(rest: Seq<Seq<u8>>) -> bool {
    rest.len() == 1 && (rest[0] == word("-h"@) || rest[0] == word("--help"@))
}

/// The names of madm's own commands.
pub open spec fn is_native(command: Seq<u8>) -> bool {
    ||| command == word("init"@)
    ||| command == word("clone"@)
    ||| command == word("compare"@)
    ||| command == word("sync"@)
    ||| command == word("resolve"@)
    ||| command == word("list"@)
    ||| command == word("clean"@)
    ||| command == word("help"@)
    ||| command == word("version"@)
}

/// `command` alone, or the usage error for the command line `usage`.
pub open spec fn alone(
    args: Seq<Seq<u8>>,
    command: CommandView,
    usage: Seq<char>,
) -> Result<CommandView, Seq<char>> {
    if args.len() == 1 {
        Ok(command)
    } else {
        Err("usage: "@ + usage)
    }
}

/// A command without arguments: its help on request, else the command alone.
pub open spec fn no_args(args: Seq<Seq<u8>>, name: Seq<char>, command: CommandView) -> Result<
    CommandView,
    Seq<char>,
> {
    if is_help_request(args.drop_first()) {
        Ok(CommandView::Help(Some(word(name))))
    } else {
        alone(args, command, "madm "@ + name)
    }
}

/// How the command line is read; an error is given by its message.
pub open spec fn parse_spec(args: Seq<Seq<u8>>) -> Result<CommandView, Seq<char>> {
    if args.len() == 0 {
        Ok(CommandView::Help(None))
    } else {
        let first = args[0];
        let rest = args.drop_first();
        if first == word("-h"@) || first == word("--help"@) {
            alone(args, CommandView::Help(None), "madm --help"@)
        } else if first == word("-V"@) || first == word("--version"@) || first == word(
            "version"@,
        ) {
            alone(args, CommandView::Version, "madm --version"@)
        } else if first == word("help"@) {
            if args.len() == 1 {
                Ok(CommandView::Help(None))
            } else if args.len() == 2 && is_native(args[1]) {
                Ok(CommandView::Help(Some(args[1])))
            } else if args.len() == 2 {
                Ok(CommandView::GitHelp(args[1]))
            } else {
                Err("usage: madm help [command]"@)
            }
        } else if first == word("init"@) {
            no_args(args, "init"@, CommandView::Init)
        } else if first == word("clone"@) {
            if is_help_request(rest) {
                Ok(CommandView::Help(Some(word("clone"@))))
            } else if args.len() == 2 {
                Ok(CommandView::Clone(args[1]))
            } else {
                Err("usage: madm clone <url>"@)
            }
        } else if first == word("compare"@) {
            no_args(args, "compare"@, CommandView::Compare)
        } else if first == word("sync"@) {
            no_args(args, "sync"@, CommandView::Sync)
        } else if first == word("resolve"@) {
            no_args(args, "resolve"@, CommandView::Resolve)
        } else if first == word("list"@) {
            if is_help_request(rest) {
                Ok(CommandView::Help(Some(word("list"@))))
            } else {
                Ok(CommandView::List(rest))
            }
        } else if first == word("clean"@) {
            if is_help_request(rest) {
                Ok(CommandView::Help(Some(word("clean"@))))
            } else {
                Ok(CommandView::Clean)
            }
        } else {
            Ok(CommandView::Git(args))
        }
    }
}

/// Native command names take precedence; any other first argument (that
/// is not a help or version flag) hands the whole command line to Git as
/// it is.
pub proof fn lemma_other_commands_go_to_git(args: Seq<Seq<u8>>)
    requires
        args.len() > 0,
        !is_native(args[0]),
        args[0] != word("-h"@),
        args[0] != word("--help"@),
        args[0] != word("-V"@),
        args[0] != word("--version"@),
    ensures
        parse_spec(args) == Ok::<CommandView, Seq<char>>(CommandView::Git(args)),
{
}

/// `madm clean` is always the blocked command, whatever follows it (preview
/// flags included), unless help is asked for.
pub proof fn lemma_clean_is_never_forwarded(args: Seq<Seq<u8>>)
    requires
        args.len() > 0,
        args[0] == word("clean"@),
        !is_help_request(args.drop_first()),
    ensures
        parse_spec(args) == Ok::<CommandView, Seq<char>>(CommandView::Clean),
{
    reveal_strlit("clean");
    let others = seq![
        "-h"@, "--help"@, "-V"@, "--version"@, "version"@, "help"@, "init"@, "clone"@, "compare"@,
        "sync"@, "resolve"@, "list"@,
    ];
    reveal_strlit("-h");
    reveal_strlit("--help");
    reveal_strlit("-V");
    reveal_strlit("--version");
    reveal_strlit("version");
    reveal_strlit("help");
    reveal_strlit("init");
    reveal_strlit("clone");
    reveal_strlit("compare");
    reveal_strlit("sync");
    reveal_strlit("resolve");
    reveal_strlit("list");
    assert forall|i: int| 0 <= i < others.len() implies word("clean"@) != word(#[trigger] others[i]) by {
        lemma_word_injective("clean"@, others[i]);
        if i == 7 {
            assert("clean"@[2] != "clone"@[2]);
        }
    }
    assert(word("clean"@) != word(others[0]));
    assert(word("clean"@) != word(others[1]));
    assert(word("clean"@) != word(others[2]));
    assert(word("clean"@) != word(others[3]));
    assert(word("clean"@) != word(others[4]));
    assert(word("clean"@) != word(others[5]));
    assert(word("clean"@) != word(others[6]));
    assert(word("clean"@) != word(others[7]));
    assert(word("clean"@) != word(others[8]));
    assert(word("clean"@) != word(others[9]));
    assert(word("clean"@) != word(others[10]));
    assert(word("clean"@) != word(others[11]));
}

/// `madm help <name>` shows madm's own help for each of madm's commands,
/// and hands any other name to `git help`.
pub proof fn lemma_help_names_a_command(name: Seq<char>, other: Seq<u8>)
    ensures
        seq![
            "init"@, "clone"@, "compare"@, "sync"@, "resolve"@, "list"@, "clean"@, "help"@,
            "version"@,
        ].contains(name) ==> parse_spec(seq![word("help"@), word(name)]) == Ok::<
            CommandView,
            Seq<char>,
        >(CommandView::Help(Some(word(name)))),
        (forall|c: Seq<char>|
            #![trigger word(c)]
            seq![
                "init"@, "clone"@, "compare"@, "sync"@, "resolve"@, "list"@, "clean"@, "help"@,
                "version"@,
            ].contains(c) ==> other != word(c)) ==> parse_spec(seq![word("help"@), other]) == Ok::<
            CommandView,
            Seq<char>,
        >(CommandView::GitHelp(other)),
{
    reveal_strlit("help");
    reveal_strlit("-h");
    reveal_strlit("--help");
    reveal_strlit("-V");
    reveal_strlit("--version");
    reveal_strlit("version");
    lemma_word_injective("help"@, "-h"@);
    lemma_word_injective("help"@, "--help"@);
    lemma_word_injective("help"@, "-V"@);
    lemma_word_injective("help"@, "--version"@);
    lemma_word_injective("help"@, "version"@);
    let names = seq![
        "init"@, "clone"@, "compare"@, "sync"@, "resolve"@, "list"@, "clean"@, "help"@,
        "version"@,
    ];
    let a = seq![word("help"@), word(name)];
    assert(a[0] == word("help"@));
    assert(a.len() == 2);
    if names.contains(name) {
        let k = choose|k: int| 0 <= k < names.len() && names[k] == name;
        assert(is_native(word(name))) by {
            if k == 0 {} else if k == 1 {} else if k == 2 {} else if k == 3 {} else if k == 4 {}
            else if k == 5 {} else if k == 6 {} else if k == 7 {} else {}
        }
    }
    let b = seq![word("help"@), other];
    assert(b[0] == word("help"@));
    if forall|c: Seq<char>| #![trigger word(c)] names.contains(c) ==> other != word(c) {
        assert(names[0] == "init"@ && names.contains(names[0]));
        assert(names.contains(names[1]));
        assert(names.contains(names[2]));
        assert(names.contains(names[3]));
        assert(names.contains(names[4]));
        assert(names.contains(names[5]));
        assert(names.contains(names[6]));
        assert(names.contains(names[7]));
        assert(names.contains(names[8]));
        assert(!is_native(other));
    }
}

/// Different command words have different bytes.
pub proof fn lemma_word_injective(a: Seq<char>, b: Seq<char>)
    ensures
        word(a) == word(b) ==> a == b,
{
    encode_utf8_decode_utf8(a);
    encode_utf8_decode_utf8(b);
}

fn is_word(arg: &[u8], text: &str) -> (res: bool)
    ensures
        res == (arg@ == word(text@)),
{
    let w = bytes_of(text);
    same_bytes(arg, w.as_slice())
}

fn help_request(args: &Vec<Arg>) -> (res: bool)
    requires
        args@.len() >= 1,
    ensures
        res == is_help_request(args.deep_view().drop_first()),
{
    proof {
        lemma_deep_args(args);
    }
    args.len() == 2 && (is_word(args[1].as_slice(), "-h") || is_word(args[1].as_slice(), "--help"))
}

fn native(command: &[u8]) -> (res: bool)
    ensures
        res == is_native(command@),
{
    is_word(command, "init") || is_word(command, "clone") || is_word(command, "compare")
        || is_word(command, "sync") || is_word(command, "resolve") || is_word(command, "list")
        || is_word(command, "clean") || is_word(command, "help") || is_word(command, "version")
}

proof fn lemma_deep_args(args: &Vec<Arg>)
    ensures
        args.deep_view().len() == args@.len(),
        forall|i: int| 0 <= i < args@.len() ==> #[trigger] args.deep_view()[i] == args@[i]@,
        forall|i: int|
            0 <= i < args@.len() - 1 ==> #[trigger] args.deep_view().drop_first()[i] == args@[i
                + 1]@,
{
    assert forall|i: int| 0 <= i < args@.len() implies #[trigger] args.deep_view()[i]
        == args@[i]@ by {
        assert(args@[i].deep_view() =~= args@[i]@);
    }
}

fn usage_error(usage: &str) -> (res: MadmError)
    ensures
        res.text() == "usage: "@ + usage@,
        res.exit_code() == 1,
{
    let mut message = String::from_str("usage: ");
    message.append(usage);
    MadmError::new(message)
}

fn no_extra(args: &Vec<Arg>, command: CliCommand, usage: &str) -> (res: Result<
    CliCommand,
    MadmError,
>)
    ensures
        match alone(args.deep_view(), command@, usage@) {
            Ok(c) => res matches Ok(r) && r@ == c,
            Err(m) => res matches Err(e) && e.text() == m && e.exit_code() == 1,
        },
{
    if args.len() == 1 {
        Ok(command)
    } else {
        Err(usage_error(usage))
    }
}

fn parse_no_args(args: &Vec<Arg>, name: &str, command: CliCommand) -> (res: Result<
    CliCommand,
    MadmError,
>)
    requires
        args@.len() >= 1,
    ensures
        match no_args(args.deep_view(), name@, command@) {
            Ok(c) => res matches Ok(r) && r@ == c,
            Err(m) => res matches Err(e) && e.text() == m && e.exit_code() == 1,
        },
{
    if help_request(args) {
        return Ok(CliCommand::Help(Some(bytes_of(name))));
    }
    let mut usage = String::from_str("madm ");
    usage.append(name);
    no_extra(args, command, usage.as_str())
}

/// Reads the command line (without the program name).
///
/// A first argument that is not one of madm's own commands, including one
/// that is not UTF-8, makes the whole line a Git command.
pub fn parse(args: Vec<Arg>) -> (res: Result<CliCommand, MadmError>)
    ensures
        match parse_spec(args.deep_view()) {
            Ok(c) => res matches Ok(r) && r@ == c,
            Err(m) => res matches Err(e) && e.text() == m && e.exit_code() == 1,
        },
{
    proof {
        lemma_deep_args(&args);
    }
    if args.len() == 0 {
        return Ok(CliCommand::Help(None));
    }
    let ghost dv = args.deep_view();
    if is_word(args[0].as_slice(), "-h") || is_word(args[0].as_slice(), "--help") {
        no_extra(&args, CliCommand::Help(None), "madm --help")
    } else if is_word(args[0].as_slice(), "-V") || is_word(args[0].as_slice(), "--version")
        || is_word(args[0].as_slice(), "version") {
        no_extra(&args, CliCommand::Version, "madm --version")
    } else if is_word(args[0].as_slice(), "help") {
        if args.len() == 1 {
            Ok(CliCommand::Help(None))
        } else if args.len() == 2 {
            let mut args = args;
            let command = args.remove(1);
            if native(command.as_slice()) {
                Ok(CliCommand::Help(Some(command)))
            } else {
                Ok(CliCommand::GitHelp(command))
            }
        } else {
            Err(MadmError::new(String::from_str("usage: madm help [command]")))
        }
    } else if is_word(args[0].as_slice(), "init") {
        parse_no_args(&args, "init", CliCommand::Init)
    } else if is_word(args[0].as_slice(), "clone") {
        if help_request(&args) {
            Ok(CliCommand::Help(Some(bytes_of("clone"))))
        } else if args.len() == 2 {
            let mut args = args;
            let url = args.remove(1);
            Ok(CliCommand::Clone(url))
        } else {
            Err(MadmError::new(String::from_str("usage: madm clone <url>")))
        }
    } else if is_word(args[0].as_slice(), "compare") {
        parse_no_args(&args, "compare", CliCommand::Compare)
    } else if is_word(args[0].as_slice(), "sync") {
        parse_no_args(&args, "sync", CliCommand::Sync)
    } else if is_word(args[0].as_slice(), "resolve") {
        parse_no_args(&args, "resolve", CliCommand::Resolve)
    } else if is_word(args[0].as_slice(), "list") {
        if help_request(&args) {
            Ok(CliCommand::Help(Some(bytes_of("list"))))
        } else {
            let mut rest = args;
            rest.remove(0);
            assert(rest.deep_view() =~= dv.drop_first());
            Ok(CliCommand::List(rest))
        }
    } else if is_word(args[0].as_slice(), "clean") {
        if help_request(&args) {
            Ok(CliCommand::Help(Some(bytes_of("clean"))))
        } else {
            Ok(CliCommand::Clean)
        }
    } else {
        Ok(CliCommand::Git(args))
    }
}

pub const GENERAL_HELP: &'static str = "\
madm - a minimal, Git-native dotfiles manager

Usage:
  madm <command> [arguments...]
  madm <git-command-or-alias> [arguments...]

Native commands:
  init          Initialize an empty dotfiles repository
  clone <url>   Clone and safely reconcile an existing repository
  compare       Fetch and compare the effective home tree with upstream
  sync          Merge inbound changes, resolve conflicts, and push
  resolve       Resume madm's merge-conflict workflow
  list          Alias for git ls-files
  help          Show help for a madm or Git command

Any other command is passed to Git with:
  work tree:  <home>
  Git dir:   <home>/.local/share/madm/repo.git

Examples:
  madm init
  madm add .gitconfig
  madm commit -m \"Track Git configuration\"
  madm remote add origin <url>
  madm sync

Safety:
  madm clean is disabled because Git clean could delete untracked files
  throughout your home directory. Invoke raw Git deliberately if needed.

Run 'madm help <command>' for details.
";

pub const INIT_HELP: &'static str = "\
Usage: madm init

Create an empty Git repository at <home>/.local/share/madm/repo.git and use
the real home directory as its work tree. Existing paths are never replaced.
No home files are added, copied, moved, or committed.
";

pub const CLONE_HELP: &'static str = "\
Usage: madm clone <url>

Clone a remote repository without overwriting existing home files. Missing
tracked files are checked out. Differing files can be kept, replaced with the
remote version, or reviewed with the configured Git diff tool.

At each differing file:
  Enter   keep the local file untouched and unstaged
  a       keep all remaining local files
  r       replace this file with the remote version
  m       launch git difftool and leave the result unstaged
  q       stop resolving and keep all remaining local files

Without an interactive terminal, all differing local files are kept and
listed for later review.
";

pub const COMPARE_HELP: &'static str = "\
Usage: madm compare

Fetch the configured upstream and show:
  1. commit counts ahead of and behind upstream
  2. a full patch from upstream to the effective tracked home tree

The patch combines committed, staged, and unstaged tracked state. Compare
does not alter HEAD, the index, or work-tree files.
";

pub const SYNC_HELP: &'static str = "\
Usage: madm sync

Synchronize both directions: fetch, merge upstream without rebasing, resolve
merge conflicts, then push automatically. Tracked work-tree and index changes
must be committed first. Sync never auto-stashes, force-pushes, or rewrites
local commits.
";

pub const RESOLVE_HELP: &'static str = "\
Usage: madm resolve

Resume a conflicted Git merge. For each unresolved path, choose the local
side, upstream side, configured Git merge tool, skip, or quit. Enter skips
without staging anything. When every conflict is resolved, madm creates the
prepared merge commit automatically.

This command intentionally does not handle rebase or cherry-pick conflicts,
where Git's sides have different meanings.
";

pub const LIST_HELP: &'static str = "\
Usage: madm list [git-ls-files-options...]

Alias for 'git ls-files'. Every argument is forwarded unchanged.
";

pub const CLEAN_HELP: &'static str = "\
madm clean is disabled.

The home directory is madm's Git work tree. Commands such as 'git clean -fdx'
could therefore delete most of the user's files. Use raw Git with explicit
--git-dir and --work-tree arguments if this destructive operation is truly
intended.
";

pub const HELP_HELP: &'static str = "\
Usage: madm help [command]

Show madm help. For a non-native command, delegate to 'git help <command>'.
";

pub const VERSION_HELP: &'static str = "\
Usage: madm --version

Print the madm version.
";


/// Which help text answers a command name; a name that is not UTF-8 gets the
/// general help, an unknown one an error message.
pub open spec fn help_spec(command: Option<Seq<u8>>) -> Result<Seq<char>, Seq<char>> {
    match command {
        None => Ok(GENERAL_HELP@),
        Some(c) => if !valid_utf8(c) {
            Ok(GENERAL_HELP@)
        } else if c == word("init"@) {
            Ok(INIT_HELP@)
        } else if c == word("clone"@) {
            Ok(CLONE_HELP@)
        } else if c == word("compare"@) {
            Ok(COMPARE_HELP@)
        } else if c == word("sync"@) {
            Ok(SYNC_HELP@)
        } else if c == word("resolve"@) {
            Ok(RESOLVE_HELP@)
        } else if c == word("list"@) {
            Ok(LIST_HELP@)
        } else if c == word("clean"@) {
            Ok(CLEAN_HELP@)
        } else if c == word("help"@) {
            Ok(HELP_HELP@)
        } else if c == word("version"@) {
            Ok(VERSION_HELP@)
        } else {
            Err("no native help is available for "@ + debug_quoted(decode_utf8(c)))
        },
    }
}

/// The help text for madm or one of its commands.
pub fn help(command: Option<&[u8]>) -> (res: Result<&'static str, MadmError>)
    ensures
        match help_spec(
            match command {
                Some(c) => Some(c@),
                None => None,
            },
        ) {
            Ok(t) => res matches Ok(r) && r@ == t,
            Err(m) => res matches Err(e) && e.text() == m && e.exit_code() == 1,
        },
{
    let c = match command {
        None => {
            return Ok(GENERAL_HELP);
        },
        Some(c) => c,
    };
    if utf8_text(c).is_none() {
        return Ok(GENERAL_HELP);
    }
    if is_word(c, "init") {
        Ok(INIT_HELP)
    } else if is_word(c, "clone") {
        Ok(CLONE_HELP)
    } else if is_word(c, "compare") {
        Ok(COMPARE_HELP)
    } else if is_word(c, "sync") {
        Ok(SYNC_HELP)
    } else if is_word(c, "resolve") {
        Ok(RESOLVE_HELP)
    } else if is_word(c, "list") {
        Ok(LIST_HELP)
    } else if is_word(c, "clean") {
        Ok(CLEAN_HELP)
    } else if is_word(c, "help") {
        Ok(HELP_HELP)
    } else if is_word(c, "version") {
        Ok(VERSION_HELP)
    } else {
        let text = match utf8_text(c) {
            Some(t) => t,
            None => {
                return Ok(GENERAL_HELP);
            },
        };
        let mut message = String::from_str("no native help is available for ");
        let quoted = debug_text(text.as_str());
        message.append(quoted.as_str());
        Err(MadmError::new(message))
    }
}

} // verus!
