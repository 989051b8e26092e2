use vstd::prelude::*;
use vstd::utf8::*;

use crate::cli::word;
use crate::context::{repository_path, Context};
use crate::error::MadmError;
use crate::host::{
    error_view, ErrorView, FailureKind, GitCall, GitCallView, GitOutcome, IoFailure, OutcomeView,
};
use crate::text::{
    bytes_of, lossy, lossy_text, signed_decimal, signed_decimal_text, trim, trimmed, utf8_text,
};

verus! {

/// The arguments that point Git at the repository and the home work tree.
pub open spec fn context_args(home: Seq<u8>) -> Seq<Seq<u8>> {
    seq![
        word("--git-dir="@) + repository_path(home),
        word("--work-tree="@) + home,
    ]
}

/// A Git process run against the madm repository.
pub open spec fn git_call(home: Seq<u8>, args: Seq<Seq<u8>>, captured: bool) -> GitCallView {
    GitCallView { args: context_args(home) + args, captured }
}

/// A Git process run without a repository of madm's.
pub open spec fn raw_call(args: Seq<Seq<u8>>, captured: bool) -> GitCallView {
    GitCallView { args, captured }
}

/// Git pointed at madm's repository and the home work tree.
pub struct Git<'a> {
    context: &'a Context,
}

/// Appends one argument.
pub fn push_arg(args: &mut Vec<Vec<u8>>, arg: Vec<u8>)
    ensures
        final(args).deep_view() == old(args).deep_view().push(arg@),
{
    let ghost before = args.deep_view();
    let ghost a = arg@;
    args.push(arg);
    assert(args@.last().deep_view() =~= a);
    assert(args.deep_view() =~= before.push(a));
}

/// Appends one word.
pub fn push_word(args: &mut Vec<Vec<u8>>, text: &str)
    ensures
        final(args).deep_view() == old(args).deep_view().push(word(text@)),
{
    push_arg(args, bytes_of(text));
}

/// Concatenation of two byte strings.
pub fn concat_bytes(a: &[u8], b: &[u8]) -> (res: Vec<u8>)
    ensures
        res@ == a@ + b@,
{
    let mut out = vstd::slice::slice_to_vec(a);
    let mut i: usize = 0;
    while i < b.len()
        invariant
            i <= b@.len(),
            out@ == a@ + b@.take(i as int),
        decreases b@.len() - i,
    {
        assert(a@ + b@.take(i + 1) =~= (a@ + b@.take(i as int)).push(b@[i as int]));
        out.push(b[i]);
        i = i + 1;
    }
    assert(b@.take(b@.len() as int) =~= b@);
    out
}

impl<'a> Git<'a> {
    pub fn new(context: &'a Context) -> (res: Git<'a>)
        ensures
            res.home() == context.home_path(),
    {
        Git { context }
    }

    /// The home directory of the context.
    pub closed spec fn home(&self) -> Seq<u8> {
        self.context.home_path()
    }

    /// A Git process with these arguments against the repository.
    pub fn call(&self, args: Vec<Vec<u8>>, captured: bool) -> (res: GitCall)
        ensures
            res@ == git_call(self.home(), args.deep_view(), captured),
    {
        let mut all: Vec<Vec<u8>> = Vec::new();
        let git_dir = bytes_of("--git-dir=");
        push_arg(&mut all, concat_bytes(git_dir.as_slice(), self.context.repository()));
        let work_tree = bytes_of("--work-tree=");
        push_arg(&mut all, concat_bytes(work_tree.as_slice(), self.context.home()));
        let ghost prefix = all.deep_view();
        assert(prefix =~= context_args(self.home()));
        let mut i: usize = 0;
        let mut args = args;
        let ghost rest = args.deep_view();
        let n = args.len();
        assert(rest.len() == n);
        while args.len() > 0
            invariant
                all.deep_view() == prefix + rest.take(i as int),
                args.deep_view() == rest.skip(i as int),
                i <= rest.len(),
                rest.len() == n,
                args.deep_view().len() == args@.len(),
                prefix == context_args(self.home()),
            decreases args@.len(),
        {
            let ghost before = args.deep_view();
            assert(before.len() > 0);
            assert(i < rest.len());
            let a = args.remove(0);
            assert(args.deep_view() =~= before.drop_first());
            assert(rest.skip(i as int).drop_first() =~= rest.skip(i + 1));
            assert(a@ == rest[i as int]) by {
                assert(before[0] == a.deep_view());
                assert(a.deep_view() =~= a@);
            }
            assert(prefix + rest.take(i + 1) =~= (prefix + rest.take(i as int)).push(a@));
            push_arg(&mut all, a);
            i = i + 1;
        }
        assert(i == rest.len());
        assert(rest.take(rest.len() as int) =~= rest);
        GitCall { args: all, captured }
    }

    /// The output of a captured run, or its error when it failed.
    pub fn checked_output(outcome: GitOutcome, action: &str) -> (res: Result<Vec<u8>, MadmError>)
        ensures
            succeeded(outcome@) ==> (res matches Ok(b) && b@ == outcome@.stdout),
            !succeeded(outcome@) ==> (res matches Err(e) && error_view(e) == output_error_view(
                action@,
                outcome@,
            )),
    {
        if is_success(&outcome) {
            Ok(outcome.stdout)
        } else {
            Err(output_error(action, &outcome))
        }
    }

    /// Nothing, or the error of a shown run that failed.
    pub fn checked_status(code: Option<i32>, action: &str) -> (res: Result<(), MadmError>)
        ensures
            code == Some(0i32) ==> res is Ok,
            code != Some(0i32) ==> (res matches Err(e) && error_view(e) == status_error_view(
                action@,
                code,
            )),
    {
        if code == Some(0i32) {
            Ok(())
        } else {
            Err(status_error(action, code))
        }
    }

    /// The trimmed text of a captured run.
    pub fn text(outcome: GitOutcome, action: &str) -> (res: Result<String, MadmError>)
        ensures
            match text_view(action@, outcome@) {
                Ok(t) => res matches Ok(s) && s@ == t,
                Err(e) => res matches Err(r) && error_view(r) == e,
            },
    {
        let ghost o = outcome@;
        let bytes = Self::checked_output(outcome, action)?;
        match utf8_text(bytes.as_slice()) {
            Some(t) => Ok(trimmed(t.as_str())),
            None => {
                let mut message = String::from_str(action);
                message.append(": Git returned non-UTF-8 text");
                Err(MadmError::new(message))
            },
        }
    }
}

/// The exit code that a finished process stands for: its own, or 1 after a signal.
pub open spec fn code_of(code: Option<i32>) -> i32 {
    match code {
        Some(c) => c,
        None => 1,
    }
}

/// How an exit is described in messages.
pub open spec fn describe(code: Option<i32>) -> Seq<char> {
    match code {
        Some(c) => "exit code "@ + signed_decimal(c as int),
        None => "termination by signal"@,
    }
}

/// A process succeeded when it exited with code 0.
pub open spec fn succeeded(outcome: OutcomeView) -> bool {
    outcome.code == Some(0i32)
}

/// The error for a failed captured Git run: the trimmed error output, or the
/// exit description when there is none.
pub open spec fn output_error_view(action: Seq<char>, outcome: OutcomeView) -> ErrorView {
    let detail = trim(lossy_text(outcome.stderr));
    (
        if detail.len() == 0 {
            action + " failed with "@ + describe(outcome.code)
        } else {
            action + " failed: "@ + detail
        },
        code_of(outcome.code),
    )
}

/// The error for a failed Git run whose output was shown.
pub open spec fn status_error_view(action: Seq<char>, code: Option<i32>) -> ErrorView {
    (action + " failed with "@ + describe(code), code_of(code))
}

/// The error for a Git process that could not be started.
pub open spec fn process_error_view(kind: FailureKind, detail: Seq<char>) -> ErrorView {
    if kind == FailureKind::NotFound {
        ("Git is required, but 'git' was not found on PATH"@, 1)
    } else {
        ("run Git"@ + ": "@ + detail, 1)
    }
}

/// The error for non-UTF-8 output where text was expected.
pub open spec fn not_text_view(action: Seq<char>) -> ErrorView {
    (action + ": Git returned non-UTF-8 text"@, 1)
}

/// What a captured run yields as text: the trimmed UTF-8 output.
pub open spec fn text_view(action: Seq<char>, outcome: OutcomeView) -> Result<Seq<char>, ErrorView> {
    if !succeeded(outcome) {
        Err(output_error_view(action, outcome))
    } else if !valid_utf8(outcome.stdout) {
        Err(not_text_view(action))
    } else {
        Ok(trim(decode_utf8(outcome.stdout)))
    }
}

pub fn status_code(code: Option<i32>) -> (res: i32)
    ensures
        res == code_of(code),
{
    match code {
        Some(c) => c,
        None => 1,
    }
}

pub fn describe_status(code: Option<i32>) -> (res: String)
    ensures
        res@ == describe(code),
{
    match code {
        Some(c) => {
            let mut text = String::from_str("exit code ");
            let digits = signed_decimal_text(c);
            text.append(digits.as_str());
            text
        },
        None => String::from_str("termination by signal"),
    }
}

pub fn is_success(outcome: &GitOutcome) -> (res: bool)
    ensures
        res == succeeded(outcome@),
{
    match outcome.code {
        Some(c) => c == 0,
        None => false,
    }
}

pub fn output_error(action: &str, outcome: &GitOutcome) -> (res: MadmError)
    ensures
        error_view(res) == output_error_view(action@, outcome@),
{
    let shown = lossy(outcome.stderr.as_slice());
    let detail = trimmed(shown.as_str());
    let mut message = String::from_str(action);
    if detail.as_str().unicode_len() == 0 {
        message.append(" failed with ");
        let described = describe_status(outcome.code);
        message.append(described.as_str());
    } else {
        message.append(" failed: ");
        message.append(detail.as_str());
    }
    MadmError::with_code(message, status_code(outcome.code))
}

pub fn status_error(action: &str, code: Option<i32>) -> (res: MadmError)
    ensures
        error_view(res) == status_error_view(action@, code),
{
    let mut message = String::from_str(action);
    message.append(" failed with ");
    let described = describe_status(code);
    message.append(described.as_str());
    MadmError::with_code(message, status_code(code))
}

pub fn process_error(failure: &IoFailure) -> (res: MadmError)
    ensures
        error_view(res) == process_error_view(failure.kind, failure.detail@),
{
    match failure.kind {
        FailureKind::NotFound => MadmError::new(
            String::from_str("Git is required, but 'git' was not found on PATH"),
        ),
        _ => MadmError::io("run Git", failure.detail.as_str()),
    }
}

} // verus!
