use std::collections::HashSet;
use std::path::Path;

use madm::cli::{parse, CliCommand};
use madm::commands::compare::parse_counts;
use madm::commands::resolve::parse_unmerged_stages;
use madm::context::Context;
use madm::exclude::has_exact_line;
use madm::path::nul_paths;

fn strings(values: &[&str]) -> Vec<Vec<u8>> {
    values.iter().map(|value| value.as_bytes().to_vec()).collect()
}

#[test]
fn unknown_commands_are_preserved_for_git() {
    let args = strings(&["status", "--short"]);
    assert_eq!(parse(args.clone()).unwrap(), CliCommand::Git(args));
}

#[test]
fn list_forwards_arguments() {
    assert_eq!(
        parse(strings(&["list", "-m", "--", "a b"])).unwrap(),
        CliCommand::List(strings(&["-m", "--", "a b"]))
    );
}

#[test]
fn native_help_is_recognized() {
    assert_eq!(
        parse(strings(&["clone", "--help"])).unwrap(),
        CliCommand::Help(Some(b"clone".to_vec()))
    );
}

#[test]
fn clone_requires_exactly_one_url() {
    assert!(parse(strings(&["clone"])).is_err());
    assert!(parse(strings(&["clone", "one", "two"])).is_err());
}

#[test]
fn parses_ahead_and_behind_counts() {
    assert_eq!(parse_counts("2\t3").unwrap(), (2, 3));
    assert!(parse_counts("2").is_err());
    assert!(parse_counts("two 3").is_err());
}

#[test]
fn parses_unmerged_index_stages() {
    let entries = b"100644 aaaaa 1\tfile\0\
                    100644 bbbbb 2\tfile\0\
                    100644 ccccc 3\tfile\0";
    assert_eq!(
        parse_unmerged_stages(entries).unwrap(),
        HashSet::from([1, 2, 3])
    );
}

#[test]
fn fixed_repository_is_below_home_on_every_platform() {
    let root = Path::new("/home/test");
    let context = Context::from_home(b"/home/test".to_vec(), true).unwrap();
    let repository = Path::new(std::str::from_utf8(context.repository()).unwrap());
    assert_eq!(
        repository.strip_prefix(root).unwrap(),
        Path::new(".local")
            .join("share")
            .join("madm")
            .join("repo.git")
    );
}

#[test]
fn exact_line_detection_accepts_lf_and_crlf() {
    assert!(has_exact_line(b"one\n/pattern/\n", b"/pattern/"));
    assert!(has_exact_line(b"one\r\n/pattern/\r\n", b"/pattern/"));
    assert!(!has_exact_line(b"/pattern/extra\n", b"/pattern/"));
}

#[test]
fn parses_nul_delimited_paths_without_splitting_whitespace() {
    let paths = nul_paths(b"one path\0line\nbreak\0");
    assert_eq!(paths, vec![b"one path".to_vec(), b"line\nbreak".to_vec()]);
}
