use madm::cli::{help, parse, CliCommand};
use madm::commands::clone::merge_unique_paths;
use madm::commands::compare::parse_counts;
use madm::commands::resolve::{current_operation, non_merge_operation_error, Operation};
use madm::commands::session::execute;
use madm::commands::sync::escape_double_quotes;
use madm::context::{Context, REPOSITORY_EXCLUDE_PATTERN};
use madm::error::MadmError;
use madm::exclude::{exclusion_update, EXCLUDE_COMMENT};
use madm::git::{describe_status, output_error, status_code, Git};
use madm::host::{FailureKind, GitOutcome, IoFailure, PathKind, Progress, Reply, Request};
use madm::path::nul_paths;
use madm::prompt::{FakeInteraction, Interaction};
use madm::text::{decimal_text, signed_decimal_text, trimmed};

const HOME: &str = "/home/test";
const REPO: &str = "/home/test/.local/share/madm/repo.git";

fn words(values: &[&str]) -> Vec<Vec<u8>> {
    values.iter().map(|value| value.as_bytes().to_vec()).collect()
}

fn home() -> Context {
    Context::from_home(HOME.as_bytes().to_vec(), true).unwrap()
}

fn outcome(code: Option<i32>, stdout: &[u8], stderr: &[u8]) -> GitOutcome {
    GitOutcome {
        code,
        stdout: stdout.to_vec(),
        stderr: stderr.to_vec(),
    }
}

fn git_args(request: &Request) -> Option<Vec<String>> {
    match request {
        Request::RunGit(call) => Some(
            call.args
                .iter()
                .map(|a| String::from_utf8_lossy(a).into_owned())
                .collect(),
        ),
        _ => None,
    }
}

/// Answers a prepared repository with nothing in progress, and the
/// command's own Git run with `code`.
fn prepared(request: &Request, code: i32) -> Reply {
    match request {
        Request::Inspect(_) => Reply::Kind(PathKind::Directory),
        Request::Read(_) => Reply::Content(format!("{REPOSITORY_EXCLUDE_PATTERN}\n").into_bytes()),
        Request::Exists(_) => Reply::Flag(false),
        Request::Say(_) | Request::Complain(_) => Reply::Ack,
        Request::RunGit(_) => {
            let args = git_args(request).unwrap();
            let command = args[2..].join(" ");
            let code = match command.as_str() {
                "rev-parse --git-dir" | "ls-files -z -- .local/share/madm/repo.git" => 0,
                c if c.starts_with("rev-parse --verify --quiet") => 1,
                _ => code,
            };
            Reply::Ran(outcome(Some(code), b"", b""))
        }
        _ => panic!("unexpected request"),
    }
}

#[test]
fn exclusion_is_added_once_and_keeps_user_rules() {
    let first = exclusion_update(b"*.private", EXCLUDE_COMMENT, REPOSITORY_EXCLUDE_PATTERN).unwrap();
    assert_eq!(
        first,
        format!("\n{EXCLUDE_COMMENT}\n{REPOSITORY_EXCLUDE_PATTERN}\n").into_bytes()
    );
    let mut updated = b"*.private".to_vec();
    updated.extend_from_slice(&first);
    assert!(exclusion_update(&updated, EXCLUDE_COMMENT, REPOSITORY_EXCLUDE_PATTERN).is_none());
    assert!(exclusion_update(b"/.local/share/madm/repo.git/\r\n", EXCLUDE_COMMENT, REPOSITORY_EXCLUDE_PATTERN).is_none());
    assert_eq!(
        exclusion_update(b"", EXCLUDE_COMMENT, REPOSITORY_EXCLUDE_PATTERN).unwrap(),
        format!("{EXCLUDE_COMMENT}\n{REPOSITORY_EXCLUDE_PATTERN}\n").into_bytes()
    );
}

#[test]
fn nul_paths_keep_every_path_and_drop_empty_ones() {
    assert_eq!(nul_paths(b"a\0\0b c\0"), words(&["a", "b c"]));
    assert!(nul_paths(b"").is_empty());
}

#[test]
fn merged_paths_keep_first_occurrences_in_order() {
    assert_eq!(
        merge_unique_paths(words(&["a", "b", "a"]), words(&["c", "b", "d"])),
        words(&["a", "b", "c", "d"])
    );
}

#[test]
fn clean_is_refused_even_with_preview_flags() {
    assert_eq!(parse(words(&["clean", "-n"])).unwrap(), CliCommand::Clean);
    let mut session = execute(parse(words(&["clean", "--dry-run"])), Ok(home()), false);
    match session.step(Reply::Start) {
        Progress::Done(Err(error)) => {
            assert_eq!(
                error.message(),
                "'madm clean' is disabled because it could delete untracked files throughout your home directory; invoke raw Git deliberately if needed"
            );
            assert_eq!(error.code(), 1);
        }
        _ => panic!("clean must be refused at once"),
    }
}

#[test]
fn git_commands_pass_through_unchanged_with_their_exit_code() {
    let args = words(&["commit", "-m", "a b", "--", "list"]);
    assert_eq!(parse(args.clone()).unwrap(), CliCommand::Git(args));
    let mut session = execute(parse(words(&["commit", "-m", "a b"])), Ok(home()), false);
    let mut reply = Reply::Start;
    let mut last = Vec::new();
    let code = loop {
        match session.step(reply) {
            Progress::Ask(request) => {
                if let Some(args) = git_args(&request) {
                    last = args;
                }
                reply = prepared(&request, 3);
            }
            Progress::Done(result) => break result.unwrap(),
        }
    };
    assert_eq!(code, 3);
    assert_eq!(
        last,
        vec![
            format!("--git-dir={REPO}"),
            format!("--work-tree={HOME}"),
            "commit".to_string(),
            "-m".to_string(),
            "a b".to_string(),
        ]
    );
}

#[test]
fn git_help_runs_outside_the_repository() {
    assert_eq!(
        parse(words(&["help", "rebase"])).unwrap(),
        CliCommand::GitHelp(b"rebase".to_vec())
    );
    let mut session = execute(parse(words(&["help", "rebase"])), Err(MadmError::new("no home".to_string())), false);
    match session.step(Reply::Start) {
        Progress::Ask(request) => assert_eq!(git_args(&request).unwrap(), vec!["help", "rebase"]),
        _ => panic!("git help must run"),
    }
    match session.step(Reply::Ran(outcome(Some(0), b"", b""))) {
        Progress::Done(Ok(code)) => assert_eq!(code, 0),
        _ => panic!("git help must end with its code"),
    }
}

#[test]
fn resolve_reports_a_rebase_instead_of_guessing_sides() {
    assert_eq!(current_operation(false, true, true, true), Operation::Rebase);
    assert_eq!(current_operation(true, true, false, false), Operation::Merge);
    assert_eq!(current_operation(false, false, false, false), Operation::Nothing);
    let mut session = execute(parse(words(&["resolve"])), Ok(home()), true);
    let mut reply = Reply::Start;
    let error = loop {
        match session.step(reply) {
            Progress::Ask(request) => {
                reply = match &request {
                    Request::Exists(p) if p.ends_with(b"rebase-merge") => Reply::Flag(true),
                    _ => prepared(&request, 0),
                };
            }
            Progress::Done(result) => break result.unwrap_err(),
        }
    };
    assert_eq!(error.message(), non_merge_operation_error(Operation::Rebase).message());
    assert!(error.message().contains("madm rebase --continue"));
}

#[test]
fn missing_repository_is_reported_with_the_setup_commands() {
    let mut session = execute(parse(words(&["status"])), Ok(home()), false);
    match session.step(Reply::Start) {
        Progress::Ask(Request::Inspect(p)) => assert_eq!(p, REPO.as_bytes().to_vec()),
        _ => panic!("the repository path is inspected first"),
    }
    let missing = Reply::Failed(IoFailure {
        kind: FailureKind::NotFound,
        detail: "gone".to_string(),
    });
    match session.step(missing) {
        Progress::Done(Err(error)) => assert_eq!(
            error.message(),
            format!("no madm repository found at {REPO}; run 'madm init' or 'madm clone <url>'")
        ),
        _ => panic!("a missing repository is an error"),
    }
}

#[test]
fn a_repository_tracking_its_own_path_is_rejected_before_the_command() {
    let mut session = execute(parse(words(&["add", "-A"])), Ok(home()), false);
    let mut reply = Reply::Start;
    let mut commands = Vec::new();
    let error = loop {
        match session.step(reply) {
            Progress::Ask(request) => {
                let args = git_args(&request);
                reply = match &args {
                    Some(a) if a[2] == "ls-files" => {
                        Reply::Ran(outcome(Some(0), b".local/share/madm/repo.git/HEAD\0", b""))
                    }
                    _ => prepared(&request, 0),
                };
                if let Some(a) = args {
                    commands.push(a[2].clone());
                }
            }
            Progress::Done(result) => break result.unwrap_err(),
        }
    };
    assert!(error.message().contains("tracks files below the reserved path"));
    assert!(!commands.contains(&"add".to_string()));
}

#[test]
fn counts_are_read_exactly() {
    assert_eq!(parse_counts("12\t0").unwrap(), (12, 0));
    assert_eq!(
        parse_counts("two 3").unwrap_err().message(),
        "unexpected Git ahead/behind output: \"two 3\""
    );
    assert!(parse_counts("1 2 3").is_err());
    assert!(parse_counts("18446744073709551616 0").is_err());
}

#[test]
fn numbers_and_status_texts() {
    assert_eq!(decimal_text(0), "0");
    assert_eq!(decimal_text(90210), "90210");
    assert_eq!(signed_decimal_text(-17), "-17");
    assert_eq!(status_code(Some(4)), 4);
    assert_eq!(status_code(None), 1);
    assert_eq!(describe_status(Some(128)), "exit code 128");
    assert_eq!(describe_status(None), "termination by signal");
}

#[test]
fn git_errors_carry_the_trimmed_stderr_or_the_status() {
    let with_text = output_error("list things", &outcome(Some(2), b"", b"  fatal: broken\n"));
    assert_eq!(with_text.message(), "list things failed: fatal: broken");
    assert_eq!(with_text.code(), 2);
    let silent = output_error("list things", &outcome(Some(5), b"", b""));
    assert_eq!(silent.message(), "list things failed with exit code 5");
    assert_eq!(
        Git::text(outcome(Some(0), b"  main \n", b""), "read branch").unwrap(),
        "main"
    );
    assert_eq!(
        Git::text(outcome(Some(0), b"\xff", b""), "read branch").unwrap_err().message(),
        "read branch: Git returned non-UTF-8 text"
    );
    assert_eq!(
        Git::checked_output(outcome(Some(0), b"x", b""), "read").unwrap(),
        b"x".to_vec()
    );
    assert_eq!(
        Git::checked_status(Some(1), "configure").unwrap_err().message(),
        "configure failed with exit code 1"
    );
}

#[test]
fn quotes_are_escaped_and_invalid_bytes_replaced_in_shown_paths() {
    assert_eq!(escape_double_quotes(b"say \"hi\""), "say \\\"hi\\\"");
    assert_eq!(escape_double_quotes(b"a\xffb"), "a\u{FFFD}b");
    assert_eq!(trimmed(" \t x y \n"), "x y");
}

#[test]
fn errors_keep_their_message_and_code() {
    let io = MadmError::io("read file", "denied");
    assert_eq!(io.message(), "read file: denied");
    assert_eq!(io.code(), 1);
    let coded = MadmError::with_code("failed".to_string(), 7);
    assert_eq!(coded.code(), 7);
    assert_eq!(MadmError::new("plain".to_string()).code(), 1);
}

#[test]
fn home_must_be_an_absolute_directory() {
    assert_eq!(
        Context::from_home(b"relative".to_vec(), true).unwrap_err().message(),
        "home directory must be an absolute path: relative"
    );
    assert_eq!(
        Context::from_home(b"/nowhere".to_vec(), false).unwrap_err().message(),
        "home directory does not exist or is not a directory: /nowhere"
    );
    let context = Context::discover(words(&["", "/home/test"]), vec![false, true]).unwrap();
    assert_eq!(context.home(), b"/home/test");
    assert_eq!(context.repository(), REPO.as_bytes());
    assert_eq!(
        Context::discover(Vec::new(), Vec::new()).unwrap_err().message(),
        "could not determine the home directory from the operating-system environment"
    );
}

#[test]
fn unknown_native_help_is_an_error() {
    assert_eq!(
        help(Some(&b"frobnicate"[..])).unwrap_err().message(),
        "no native help is available for \"frobnicate\""
    );
    assert!(help(Some(&b"sync"[..])).unwrap().contains("sync"));
}

#[test]
fn fake_interaction_records_prompts_and_runs_out() {
    let mut interaction = FakeInteraction::interactive(&["a"]);
    assert!(interaction.is_interactive());
    assert_eq!(interaction.prompt("first? ").unwrap(), "a");
    assert_eq!(
        interaction.prompt("second? ").unwrap_err().message(),
        "test prompt had no prepared response"
    );
    assert_eq!(interaction.prompts, vec!["first? ".to_string(), "second? ".to_string()]);
}
