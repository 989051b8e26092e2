use madm::cli::parse;
use madm::commands::clone::Reconcile;
use madm::commands::resolve::MergeResolution;
use madm::commands::session::execute;
use madm::context::Context;
use madm::error::MadmError;
use madm::host::{FailureKind, GitOutcome, IoFailure, PathKind, Progress, Reply, Request};
use madm::path::{existing_path_blocker, SearchStep};
use madm::prompt::{FakeInteraction, Interaction};

const HOME: &str = "/home/test";
const REPO: &str = "/home/test/.local/share/madm/repo.git";

fn strings(values: &[&str]) -> Vec<Vec<u8>> {
    values.iter().map(|value| value.as_bytes().to_vec()).collect()
}

fn context() -> Context {
    Context::from_home(HOME.as_bytes().to_vec(), true).unwrap()
}

fn shown(bytes: &[u8]) -> String {
    String::from_utf8_lossy(bytes).into_owned()
}

/// A readable form of a request: Git's arguments after the repository
/// ones, or the kind of request and its path or text.
fn describe(request: &Request) -> String {
    match request {
        Request::RunGit(call) => {
            let args: Vec<String> = call.args.iter().map(|a| shown(a)).collect();
            if args.len() >= 2 && args[0].starts_with("--git-dir=") {
                assert_eq!(args[0], format!("--git-dir={REPO}"));
                assert_eq!(args[1], format!("--work-tree={HOME}"));
                format!("git {}", args[2..].join(" "))
            } else {
                format!("raw git {}", args.join(" "))
            }
        }
        Request::Ask(text) => format!("ask {text}"),
        Request::Say(text) => format!("say {text}"),
        Request::Complain(text) => format!("complain {text}"),
        Request::Inspect(p) => format!("inspect {}", shown(p)),
        Request::Exists(p) => format!("exists {}", shown(p)),
        Request::IsDir(p) => format!("isdir {}", shown(p)),
        Request::MakeDir(p) => format!("mkdir {}", shown(p)),
        Request::MakeDirAll(p) => format!("mkdir -p {}", shown(p)),
        Request::RemoveDir(p) => format!("rmdir {}", shown(p)),
        Request::RemoveTree(p) => format!("rm -r {}", shown(p)),
        Request::RemoveFile(p) => format!("rm {}", shown(p)),
        Request::Read(p) => format!("read {}", shown(p)),
        Request::Append(p, bytes) => format!("append {} {}", shown(p), shown(bytes)),
        Request::MakeTemp(prefix) => format!("mktemp {prefix}"),
        Request::DropTemp => "drop temp".to_string(),
    }
}

/// Steps a piece of work against a scripted host until it is done.
fn drive<T>(
    mut step: impl FnMut(Reply) -> Progress<T>,
    host: &mut dyn FnMut(&str) -> Reply,
) -> (Result<T, MadmError>, Vec<String>) {
    let mut seen = Vec::new();
    let mut reply = Reply::Start;
    for _ in 0..1000 {
        match step(reply) {
            Progress::Ask(request) => {
                let d = describe(&request);
                reply = host(&d);
                seen.push(d);
            }
            Progress::Done(result) => return (result, seen),
        }
    }
    panic!("the work did not finish");
}

fn ran(code: i32, stdout: &str) -> Reply {
    Reply::Ran(GitOutcome {
        code: Some(code),
        stdout: stdout.as_bytes().to_vec(),
        stderr: Vec::new(),
    })
}

fn ok(stdout: &str) -> Reply {
    ran(0, stdout)
}

fn failed(kind: FailureKind) -> Reply {
    Reply::Failed(IoFailure {
        kind,
        detail: "os error".to_string(),
    })
}

fn missing() -> Reply {
    failed(FailureKind::NotFound)
}

fn exclude_content() -> Reply {
    Reply::Content(b"# madm: never track the repository's own data\n/.local/share/madm/repo.git/\n".to_vec())
}

/// The answers of a healthy repository with no operation in progress.
fn repository(d: &str) -> Option<Reply> {
    let reply = match d {
        _ if d == format!("inspect {REPO}") => Reply::Kind(PathKind::Directory),
        "git rev-parse --git-dir" => ok(REPO),
        _ if d == format!("read {REPO}/info/exclude") => exclude_content(),
        "git ls-files -z -- .local/share/madm/repo.git" => ok(""),
        "git rev-parse --verify --quiet MERGE_HEAD" => ran(1, ""),
        _ if d == format!("exists {REPO}/rebase-merge") => Reply::Flag(false),
        _ if d == format!("exists {REPO}/rebase-apply") => Reply::Flag(false),
        "git rev-parse --verify --quiet CHERRY_PICK_HEAD" => ran(1, ""),
        "git rev-parse --verify --quiet REVERT_HEAD" => ran(1, ""),
        "git rev-parse --verify --quiet HEAD^{commit}" => ok("2222222\n"),
        _ if d.starts_with("say ") || d.starts_with("complain ") => Reply::Ack,
        _ => return None,
    };
    Some(reply)
}

/// The answers about an upstream `origin/main` that exists at `1111111`.
fn upstream(d: &str) -> Option<Reply> {
    let reply = match d {
        "git symbolic-ref --quiet --short HEAD" => ok("main\n"),
        "git config --get branch.main.remote" => ok("origin\n"),
        "git config --get branch.main.merge" => ok("refs/heads/main\n"),
        "git fetch -- origin" => ok(""),
        "git rev-parse --verify --quiet @{upstream}^{commit}" => ok("1111111\n"),
        "git status --porcelain=v1 -z --untracked-files=no" => ok(""),
        "git ls-tree -r --name-only -z 1111111 -- .local/share/madm/repo.git" => ok(""),
        _ => return None,
    };
    Some(reply)
}

fn usual(d: &str) -> Reply {
    repository(d)
        .or_else(|| upstream(d))
        .unwrap_or_else(|| panic!("unexpected request: {d}"))
}

fn sync(host: &mut dyn FnMut(&str) -> Reply) -> (Result<i32, MadmError>, Vec<String>) {
    let mut session = execute(parse(strings(&["sync"])), Ok(context()), false);
    drive(|r| session.step(r), host)
}

fn changes_something(d: &str) -> bool {
    ["git merge", "git push", "git checkout", "git reset", "git add", "git commit", "git rm"]
        .iter()
        .any(|prefix| d.starts_with(prefix))
}

#[test]
fn help_and_version_work_without_a_repository() {
    let no_home = || Err(MadmError::new("no home".to_string()));
    let mut help = execute(parse(strings(&["--help"])), no_home(), false);
    let (result, seen) = drive(|r| help.step(r), &mut |_| Reply::Ack);
    assert_eq!(result.unwrap(), 0);
    assert!(seen[0].contains("minimal, Git-native"));

    let mut version = execute(parse(strings(&["--version"])), no_home(), false);
    let (result, seen) = drive(|r| version.step(r), &mut |_| Reply::Ack);
    assert_eq!(result.unwrap(), 0);
    assert!(seen[0].starts_with("say madm "));
}

#[test]
fn sync_rejects_dirty_tracked_state_with_exact_commit_steps() {
    let (result, seen) = sync(&mut |d| match d {
        "git status --porcelain=v1 -z --untracked-files=no" => ok(" M .config\0"),
        "git status --short --untracked-files=no" => ok(" M .config\n"),
        _ => usual(d),
    });
    let error = result.unwrap_err();
    assert!(error.message().contains("madm add -u"));
    assert!(error.message().contains("madm commit"));
    assert!(error.message().contains("madm sync"));
    assert!(error.message().contains("Tracked changes:\nM .config\n"));
    assert!(!seen.iter().any(|d| changes_something(d) || d.starts_with("git fetch")));
}

fn colliding(d: &str, ignored: bool) -> Reply {
    match d {
        "git diff --name-only --diff-filter=A --no-renames -z HEAD 1111111 --" => ok(".collision\0"),
        _ if d == format!("inspect {HOME}/.collision") => Reply::Kind(PathKind::NotDirectory),
        "git check-ignore --quiet -- .collision" => ran(if ignored { 0 } else { 1 }, ""),
        _ => usual(d),
    }
}

#[test]
fn sync_stops_before_overwriting_untracked_home_content() {
    let (result, seen) = sync(&mut |d| colliding(d, false));
    let error = result.unwrap_err();
    assert!(error.message().contains("upstream would overwrite untracked home content"));
    assert!(error.message().contains("madm add"));
    assert!(error.message().contains("  upstream .collision is blocked by local .collision"));
    assert!(error.message().contains("  madm add -- \".collision\""));
    assert!(!seen.iter().any(|d| changes_something(d)));
}

#[test]
fn sync_collision_guidance_uses_force_for_an_ignored_file() {
    let (result, seen) = sync(&mut |d| colliding(d, true));
    let error = result.unwrap_err();
    assert!(error.message().contains("madm add -f -- \".collision\""));
    assert!(!seen.iter().any(|d| changes_something(d)));
}

#[test]
fn sync_rejects_an_incoming_tree_that_uses_the_repository_path() {
    let (result, seen) = sync(&mut |d| match d {
        "git ls-tree -r --name-only -z 1111111 -- .local/share/madm/repo.git" => {
            ok(".local/share/madm/repo.git/evil\0")
        }
        _ => usual(d),
    });
    let error = result.unwrap_err();
    assert!(error.message().contains("reserved path"));
    assert!(!seen.iter().any(|d| changes_something(d)));
}

#[test]
fn noninteractive_sync_preserves_a_conflicted_merge_for_resolve() {
    let mut merged = false;
    let (result, seen) = sync(&mut |d| match d {
        "git diff --name-only --diff-filter=A --no-renames -z HEAD 1111111 --" => ok(""),
        "git merge --ff --no-edit 1111111" => {
            merged = true;
            ran(1, "")
        }
        "git rev-parse --verify --quiet MERGE_HEAD" => ran(if merged { 0 } else { 1 }, ""),
        "git diff --name-only --diff-filter=U -z --" => ok(".config\0"),
        _ => usual(d),
    });
    assert_eq!(result.unwrap(), 2);
    assert!(seen.iter().any(|d| d.contains("Merge conflicts still need resolution")));
    assert!(!seen.iter().any(|d| d.starts_with("git push") || d.starts_with("git commit")));

    let mut resolve = execute(parse(strings(&["resolve"])), Ok(context()), false);
    let (result, seen) = drive(|r| resolve.step(r), &mut |d| match d {
        "git rev-parse --verify --quiet MERGE_HEAD" => ok(""),
        "git diff --name-only --diff-filter=U -z --" => ok(".config\0"),
        _ => usual(d),
    });
    assert_eq!(result.unwrap(), 2);
    assert!(seen.iter().any(|d| d.starts_with("say Merge conflicts") && d.contains("  .config\n")));
}

#[test]
fn compare_fetches_and_preserves_head_index_and_work_tree() {
    let mut session = execute(parse(strings(&["compare"])), Ok(context()), false);
    let (result, seen) = drive(|r| session.step(r), &mut |d| match d {
        "git rev-list --left-right --count HEAD...1111111" => ok("0\t1\n"),
        "git diff --patch 1111111 --" => ok(""),
        _ => usual(d),
    });
    assert_eq!(result.unwrap(), 0);
    assert!(seen.contains(&"git fetch -- origin".to_string()));
    assert!(seen.iter().any(|d| d.contains("0 commit(s) ahead and 1 commit(s) behind")));
    assert_eq!(seen.last().unwrap(), "git diff --patch 1111111 --");
    assert!(!seen.iter().any(|d| changes_something(d)));
}

/// The answers during a clone into an empty home whose parents are missing.
fn cloning(d: &str) -> Option<Reply> {
    let reply = match d {
        _ if d == format!("inspect {REPO}") => missing(),
        "mktemp madm-clone" => Reply::Content(b"/tmp/madm-clone-1-0".to_vec()),
        _ if d.starts_with("inspect /home/test/.local") => missing(),
        _ if d.starts_with("mkdir /home/test/.local") => Reply::Ack,
        "git config core.bare false" => ok(""),
        _ if d == format!("git config core.worktree {HOME}") => ok(""),
        "git config status.showUntrackedFiles no" => ok(""),
        _ if d == format!("read {REPO}/info/exclude") => missing(),
        _ if d == format!("mkdir -p {REPO}/info") => Reply::Ack,
        _ if d.starts_with(&format!("append {REPO}/info/exclude")) => Reply::Ack,
        "git rev-parse --verify --quiet HEAD" => ok("3333333\n"),
        "git ls-tree -r --name-only -z HEAD -- .local/share/madm/repo.git" => ok(""),
        "git reset --quiet -- :/" => ok(""),
        "git ls-files -z -- .local/share/madm/repo.git" => ok(""),
        "drop temp" => Reply::Ack,
        _ if d.starts_with("rmdir ") || d.starts_with("rm ") => Reply::Ack,
        _ if d.starts_with("say ") || d.starts_with("complain ") => Reply::Ack,
        _ => return None,
    };
    Some(reply)
}

fn clone_url() -> Vec<String> {
    vec!["clone".to_string(), "/srv/remote.git".to_string()]
}

fn clone(interactive: bool, host: &mut dyn FnMut(&str) -> Reply) -> (Result<i32, MadmError>, Vec<String>) {
    let args: Vec<Vec<u8>> = clone_url().iter().map(|a| a.as_bytes().to_vec()).collect();
    let mut session = execute(parse(args), Ok(context()), interactive);
    drive(|r| session.step(r), host)
}

#[test]
fn clone_installs_missing_files_and_keeps_differences_unstaged() {
    let (result, seen) = clone(false, &mut |d| match d {
        _ if d.starts_with("raw git clone") => ok(""),
        "git ls-files --deleted -z" => ok(".missing\0"),
        _ if d == format!("inspect {HOME}/.missing") => missing(),
        "git checkout -- .missing" => ok(""),
        "git ls-files --modified -z" => ok(".different\0"),
        _ => cloning(d).unwrap_or_else(|| panic!("unexpected request: {d}")),
    });
    assert_eq!(result.unwrap(), 0);
    assert!(seen.contains(&format!(
        "raw git clone --no-checkout --separate-git-dir={REPO} /srv/remote.git /tmp/madm-clone-1-0/checkout"
    )));
    assert!(seen.iter().any(|d| d.contains("Kept differing local files")));
    assert!(seen.iter().any(|d| d.contains("  .different\n")));
    assert!(seen.contains(&"git checkout -- .missing".to_string()));
    assert!(!seen.iter().any(|d| d.contains("checkout -- .different") || d.starts_with("git add")));
}

#[test]
fn clone_rejects_a_tree_that_tracks_the_reserved_repository_path() {
    let mut cloned = false;
    let (result, seen) = clone(false, &mut |d| match d {
        _ if d.starts_with("raw git clone") => {
            cloned = true;
            ok("")
        }
        _ if cloned && d == format!("inspect {REPO}") => Reply::Kind(PathKind::Directory),
        "git ls-tree -r --name-only -z HEAD -- .local/share/madm/repo.git" => {
            ok(".local/share/madm/repo.git/evil\0")
        }
        _ => cloning(d).unwrap_or_else(|| panic!("unexpected request: {d}")),
    });
    let error = result.unwrap_err();
    assert!(error.message().contains("reserved path"));
    assert!(seen.contains(&format!("rm -r {REPO}")));
    assert!(!seen.iter().any(|d| d.starts_with("git checkout") || d.starts_with("git reset")));
    assert_eq!(seen.last().unwrap(), "drop temp");
}

#[test]
fn failed_clone_removes_only_the_setup_directories_it_created() {
    let (result, seen) = clone(false, &mut |d| match d {
        _ if d.starts_with("raw git clone") => ran(128, ""),
        _ => cloning(d).unwrap_or_else(|| panic!("unexpected request: {d}")),
    });
    let error = result.unwrap_err();
    assert_eq!(error.code(), 128);
    assert_eq!(error.message(), "Git could not clone the madm repository");
    let removals: Vec<&String> = seen
        .iter()
        .filter(|d| d.starts_with("rm") || d.starts_with("drop"))
        .collect();
    assert_eq!(
        removals,
        vec![
            "rmdir /home/test/.local/share/madm",
            "rmdir /home/test/.local/share",
            "rmdir /home/test/.local",
            "drop temp",
        ]
    );
}

#[test]
fn init_passthrough_list_and_safety_are_git_native() {
    let mut created = false;
    let mut init = execute(parse(strings(&["init"])), Ok(context()), false);
    let (result, seen) = drive(|r| init.step(r), &mut |d| match d {
        _ if d == format!("inspect {REPO}") && !created => missing(),
        _ if d.starts_with("raw git init --bare") => {
            created = true;
            ok("")
        }
        _ => cloning(d).unwrap_or_else(|| panic!("unexpected request: {d}")),
    });
    assert_eq!(result.unwrap(), 0);
    assert!(seen.contains(&format!("raw git init --bare {REPO}")));
    assert!(seen.contains(&format!("git config core.worktree {HOME}")));
    assert!(seen.contains(&"git config status.showUntrackedFiles no".to_string()));
    assert!(seen.contains(&format!(
        "append {REPO}/info/exclude # madm: never track the repository's own data\n/.local/share/madm/repo.git/\n"
    )));
    assert!(seen.contains(&format!("say Initialized madm repository at {REPO}\n")));

    let mut list = execute(parse(strings(&["list"])), Ok(context()), false);
    let (result, seen) = drive(|r| list.step(r), &mut |d| match d {
        "git ls-files" => ok(""),
        _ => usual(d),
    });
    assert_eq!(result.unwrap(), 0);
    assert_eq!(seen.last().unwrap(), "git ls-files");

    let mut user_rules = execute(parse(strings(&["status", "--short"])), Ok(context()), false);
    let (result, seen) = drive(|r| user_rules.step(r), &mut |d| match d {
        _ if d == format!("read {REPO}/info/exclude") => Reply::Content(
            b"# madm: never track the repository's own data\n/.local/share/madm/repo.git/\n# user rule\n*.private\n"
                .to_vec(),
        ),
        "git status --short" => ok(""),
        _ => usual(d),
    });
    assert_eq!(result.unwrap(), 0);
    assert!(!seen.iter().any(|d| d.starts_with("append")));

    let mut clean = execute(parse(strings(&["clean", "-fdx"])), Ok(context()), false);
    let (result, seen) = drive(|r| clean.step(r), &mut |d| panic!("unexpected request: {d}"));
    assert!(result.unwrap_err().message().contains("disabled"));
    assert!(seen.is_empty());

    let mut again = execute(parse(strings(&["init"])), Ok(context()), false);
    let (result, seen) = drive(|r| again.step(r), &mut |d| match d {
        _ if d == format!("inspect {REPO}") => Reply::Kind(PathKind::Directory),
        _ => panic!("unexpected request: {d}"),
    });
    assert!(result.unwrap_err().message().contains("refusing to overwrite"));
    assert_eq!(seen.len(), 1);
}

#[test]
fn existing_fixed_path_bare_repository_works_without_conversion() {
    let mut add = execute(parse(strings(&["add", ".existing"])), Ok(context()), false);
    let (result, seen) = drive(|r| add.step(r), &mut |d| match d {
        _ if d == format!("read {REPO}/info/exclude") => missing(),
        _ if d == format!("mkdir -p {REPO}/info") => Reply::Ack,
        _ if d.starts_with(&format!("append {REPO}/info/exclude")) => Reply::Ack,
        "git add .existing" => ok(""),
        _ => usual(d),
    });
    assert_eq!(result.unwrap(), 0);
    assert!(seen.iter().any(|d| d.starts_with("append") && d.contains("/.local/share/madm/repo.git/")));
    assert!(!seen.iter().any(|d| d.starts_with("git config")));
    assert_eq!(seen.last().unwrap(), "git add .existing");
}

#[test]
fn sync_merges_divergent_commits_and_pushes_automatically() {
    let (result, seen) = sync(&mut |d| match d {
        "git diff --name-only --diff-filter=A --no-renames -z HEAD 1111111 --" => ok(""),
        "git merge --ff --no-edit 1111111" => ok(""),
        "git push origin HEAD:refs/heads/main" => ok(""),
        _ => usual(d),
    });
    assert_eq!(result.unwrap(), 0);
    assert!(seen.iter().any(|d| d == "say Synchronized 'main' with origin/main.\n"));
    let merge = seen.iter().position(|d| d.starts_with("git merge")).unwrap();
    let push = seen.iter().position(|d| d.starts_with("git push")).unwrap();
    assert!(merge < push);
    assert!(!seen.iter().any(|d| d.contains("--force") || d.contains("+HEAD")));
}

#[test]
fn sync_publishes_a_new_branch_and_sets_its_upstream() {
    let (result, seen) = sync(&mut |d| match d {
        "git config --get branch.main.remote" => ran(1, ""),
        "git config --get branch.main.merge" => ran(1, ""),
        "git remote" => ok("origin\n"),
        "git rev-parse --verify --quiet refs/remotes/origin/main^{commit}" => ran(1, ""),
        "git push --set-upstream origin HEAD:refs/heads/main" => ok(""),
        _ => usual(d),
    });
    assert_eq!(result.unwrap(), 0);
    assert!(seen.contains(&"git push --set-upstream origin HEAD:refs/heads/main".to_string()));
    assert!(!seen.iter().any(|d| d.starts_with("git merge")));
}

fn interact(interaction: &mut FakeInteraction, d: &str) -> Option<Reply> {
    let text = d.strip_prefix("ask ")?;
    Some(match interaction.prompt(text) {
        Ok(answer) => Reply::Answer(answer),
        Err(error) => Reply::Refused(error),
    })
}

#[test]
fn keeping_a_clone_conflict_does_not_stage_it() {
    let mut interaction = FakeInteraction::interactive(&[""]);
    let mut review = Reconcile::new(&context(), interaction.is_interactive(), strings(&[".config"]));
    let (result, seen) = drive(|r| review.step(r), &mut |d| {
        interact(&mut interaction, d)
            .or_else(|| repository(d))
            .unwrap_or_else(|| panic!("unexpected request: {d}"))
    });
    result.unwrap();
    assert_eq!(interaction.prompts.len(), 1);
    assert!(seen.contains(&"say Kept .config untouched and unstaged.\n".to_string()));
    assert!(!seen.iter().any(|d| d.starts_with("git")));
}

#[test]
fn accepting_remote_replaces_only_the_selected_path() {
    let mut interaction = FakeInteraction::interactive(&["r"]);
    let mut review = Reconcile::new(&context(), interaction.is_interactive(), strings(&[".config"]));
    let (result, seen) = drive(|r| review.step(r), &mut |d| match d {
        "git checkout -- .config" => ok(""),
        _ => interact(&mut interaction, d)
            .or_else(|| repository(d))
            .unwrap_or_else(|| panic!("unexpected request: {d}")),
    });
    result.unwrap();
    let git: Vec<&String> = seen.iter().filter(|d| d.starts_with("git")).collect();
    assert_eq!(git, vec!["git checkout -- .config"]);
    assert!(seen.contains(&"say Replaced .config with the remote version.\n".to_string()));
}

const STAGES: &str = "100644 aaaaa 1\t.config\0100644 bbbbb 2\t.config\0100644 ccccc 3\t.config\0";

#[test]
fn skipped_conflict_is_resumable_and_local_resolution_is_committed() {
    let mut skip = FakeInteraction::interactive(&[""]);
    let mut first = MergeResolution::new(&context(), skip.is_interactive());
    let (result, seen) = drive(|r| first.step(r), &mut |d| match d {
        "git diff --name-only --diff-filter=U -z --" => ok(".config\0"),
        "git ls-files --unmerged -z -- .config" => ok(STAGES),
        _ => interact(&mut skip, d)
            .or_else(|| repository(d))
            .unwrap_or_else(|| panic!("unexpected request: {d}")),
    });
    assert!(!result.unwrap());
    assert!(!seen.iter().any(|d| d.starts_with("git commit") || d.starts_with("git add")));

    let mut local = FakeInteraction::interactive(&["l"]);
    let mut resolved = false;
    let mut second = MergeResolution::new(&context(), local.is_interactive());
    let (result, seen) = drive(|r| second.step(r), &mut |d| match d {
        "git diff --name-only --diff-filter=U -z --" => ok(if resolved { "" } else { ".config\0" }),
        "git ls-files --unmerged -z -- .config" => ok(STAGES),
        "git checkout --ours -- .config" => ok(""),
        "git add -- .config" => {
            resolved = true;
            ok("")
        }
        "git commit --no-edit" => ok(""),
        _ => interact(&mut local, d)
            .or_else(|| repository(d))
            .unwrap_or_else(|| panic!("unexpected request: {d}")),
    });
    assert!(result.unwrap());
    assert!(seen.contains(&"say Resolved .config with the local side.\n".to_string()));
    assert_eq!(seen.iter().filter(|d| d.starts_with("git commit")).count(), 1);
}

#[test]
fn upstream_deletion_removes_the_file() {
    let mut upstream = FakeInteraction::interactive(&["u"]);
    let mut resolved = false;
    let mut resolution = MergeResolution::new(&context(), upstream.is_interactive());
    let (result, seen) = drive(|r| resolution.step(r), &mut |d| match d {
        "git diff --name-only --diff-filter=U -z --" => ok(if resolved { "" } else { ".config\0" }),
        "git ls-files --unmerged -z -- .config" => ok("100644 aaaaa 1\t.config\0100644 bbbbb 2\t.config\0"),
        "git rm -f -- .config" => {
            resolved = true;
            ok("")
        }
        "git commit --no-edit" => ok(""),
        _ => interact(&mut upstream, d)
            .or_else(|| repository(d))
            .unwrap_or_else(|| panic!("unexpected request: {d}")),
    });
    assert!(result.unwrap());
    assert!(seen.contains(&"git rm -f -- .config".to_string()));
    assert!(!seen.iter().any(|d| d.starts_with("git checkout")));
}

fn blocker(path: &str, host: &mut dyn FnMut(&str) -> Reply) -> Option<String> {
    let mut search = existing_path_blocker(b"/tmp/madm-collision-test", path.as_bytes());
    let mut reply = Reply::Start;
    loop {
        match search.step(reply) {
            SearchStep::Ask(request) => reply = host(&describe(&request)),
            SearchStep::Found(found) => return found.unwrap().map(|p| shown(&p)),
        }
    }
}

#[test]
fn detects_exact_and_parent_file_collisions() {
    let mut host = |d: &str| match d {
        "inspect /tmp/madm-collision-test/exact" => Reply::Kind(PathKind::NotDirectory),
        "inspect /tmp/madm-collision-test/parent" => Reply::Kind(PathKind::NotDirectory),
        _ => missing(),
    };
    assert_eq!(blocker("exact", &mut host), Some("exact".to_string()));
    assert_eq!(blocker("parent/child", &mut host), Some("parent".to_string()));
    assert_eq!(blocker("missing/child", &mut host), None);
}

#[test]
fn a_blocker_of_several_incoming_paths_is_listed_once() {
    let (result, seen) = sync(&mut |d| match d {
        "git diff --name-only --diff-filter=A --no-renames -z HEAD 1111111 --" => ok("dir/a\0dir/b\0"),
        _ if d == format!("inspect {HOME}/dir") => Reply::Kind(PathKind::NotDirectory),
        "git check-ignore --quiet -- dir" => ran(1, ""),
        _ => usual(d),
    });
    let message = result.unwrap_err().message().to_string();
    assert!(message.contains("  upstream dir/a is blocked by local dir"));
    assert!(!message.contains("dir/b"));
    assert_eq!(message.matches("madm add -- \"dir\"").count(), 1);
    assert_eq!(seen.iter().filter(|d| d.starts_with("git check-ignore")).count(), 1);
    assert!(!seen.iter().any(|d| changes_something(d)));
}

#[test]
fn clone_leaves_a_missing_file_alone_when_a_local_file_is_in_its_way() {
    let (result, seen) = clone(false, &mut |d| match d {
        _ if d.starts_with("raw git clone") => ok(""),
        "git ls-files --deleted -z" => ok("dir/file\0"),
        _ if d == format!("inspect {HOME}/dir") => Reply::Kind(PathKind::NotDirectory),
        "git ls-files --modified -z" => ok(""),
        _ => cloning(d).unwrap_or_else(|| panic!("unexpected request: {d}")),
    });
    assert_eq!(result.unwrap(), 0);
    assert!(!seen.iter().any(|d| d.starts_with("git checkout")));
    assert!(seen.iter().any(|d| d.starts_with("say Kept differing local files") && d.contains("  dir/file\n")));
}

#[test]
fn rejected_push_reports_that_nothing_was_forced() {
    let (result, _) = sync(&mut |d| match d {
        "git diff --name-only --diff-filter=A --no-renames -z HEAD 1111111 --" => ok(""),
        "git merge --ff --no-edit 1111111" => ok(""),
        "git push origin HEAD:refs/heads/main" => ran(1, ""),
        _ => usual(d),
    });
    let error = result.unwrap_err();
    assert_eq!(error.code(), 1);
    assert!(error.message().starts_with("push was rejected or failed; no force push was attempted."));
}

#[test]
fn a_failed_merge_without_conflicts_keeps_git_exit_code() {
    let (result, seen) = sync(&mut |d| match d {
        "git diff --name-only --diff-filter=A --no-renames -z HEAD 1111111 --" => ok(""),
        "git merge --ff --no-edit 1111111" => ran(3, ""),
        _ => usual(d),
    });
    let error = result.unwrap_err();
    assert_eq!(error.code(), 3);
    assert_eq!(error.message(), "Git could not merge upstream; no files were forcefully overwritten");
    assert!(!seen.iter().any(|d| d.starts_with("git push")));
}

#[test]
fn incomplete_cleanup_is_reported_with_the_cause() {
    let (result, _) = clone(false, &mut |d| match d {
        _ if d.starts_with("raw git clone") => ran(128, ""),
        "rmdir /home/test/.local/share" => failed(FailureKind::Other),
        _ => cloning(d).unwrap_or_else(|| panic!("unexpected request: {d}")),
    });
    let error = result.unwrap_err();
    assert_eq!(
        error.message(),
        "Git could not clone the madm repository; setup cleanup was incomplete: remove /home/test/.local/share: os error"
    );
    assert_eq!(error.code(), 1);
}

#[test]
fn sync_without_commits_says_how_to_make_the_first() {
    let (result, seen) = sync(&mut |d| match d {
        "git rev-parse --verify --quiet HEAD^{commit}" => ran(128, ""),
        _ => usual(d),
    });
    let error = result.unwrap_err();
    assert!(error.message().starts_with("the current branch has no commits\n"));
    assert!(error.message().ends_with("  madm add -- <path>\n  madm commit\n  madm sync"));
    assert!(!seen.iter().any(|d| d.starts_with("git status")));
}
