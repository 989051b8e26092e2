use vstd::prelude::*;

use crate::cli::word;
use crate::context::Context;
use crate::git::{git_call, push_arg, push_word, raw_call, Git};
use crate::host::{GitCall, ProgressView, Request, RequestView};
use crate::text::{chars_of, lossy, lossy_text};

verus! {

/// Ask for a Git run against the repository.
pub open spec fn ask_git<V>(home: Seq<u8>, args: Seq<Seq<u8>>, captured: bool) -> ProgressView<V> {
    ProgressView::Ask(RequestView::RunGit(git_call(home, args, captured)))
}

/// The request for a Git run against the repository.
pub fn git_request(context: &Context, args: Vec<Vec<u8>>, captured: bool) -> (res: Request)
    ensures
        res@ == RequestView::RunGit(git_call(context.home_path(), args.deep_view(), captured)),
{
    Request::RunGit(Git::new(context).call(args, captured))
}

/// The request for a Git run outside madm's repository.
pub fn raw_request(args: Vec<Vec<u8>>, captured: bool) -> (res: Request)
    ensures
        res@ == RequestView::RunGit(raw_call(args.deep_view(), captured)),
{
    Request::RunGit(GitCall { args, captured })
}

/// Appends the displayed form of a path.
pub fn append_path(text: &mut String, path: &[u8])
    ensures
        final(text)@ == old(text)@ + lossy_text(path@),
{
    let shown = lossy(path);
    text.append(shown.as_str());
}

/// A copy of a byte string.
pub fn copy_bytes(bytes: &[u8]) -> (res: Vec<u8>)
    ensures
        res@ == bytes@,
{
    vstd::slice::slice_to_vec(bytes)
}

/// Argument lists of a few words and a path.
pub fn words_then_path(words: &[&str], path: &[u8]) -> (res: Vec<Vec<u8>>)
    ensures
        res.deep_view() == words_of(words@).push(path@),
{
    let mut args = word_list(words);
    push_arg(&mut args, copy_bytes(path));
    args
}

/// The bytes of each word.
pub open spec fn words_of(words: Seq<&str>) -> Seq<Seq<u8>>
    decreases words.len(),
{
    if words.len() == 0 {
        Seq::empty()
    } else {
        words_of(words.drop_last()).push(word(words.last()@))
    }
}

/// An argument list of words.
pub fn word_list(words: &[&str]) -> (res: Vec<Vec<u8>>)
    ensures
        res.deep_view() == words_of(words@),
{
    let mut args: Vec<Vec<u8>> = Vec::new();
    let mut i: usize = 0;
    assert(words@.take(0) =~= Seq::<&str>::empty());
    while i < words.len()
        invariant
            i <= words@.len(),
            args.deep_view() == words_of(words@.take(i as int)),
        decreases words@.len() - i,
    {
        assert(words@.take(i + 1).drop_last() =~= words@.take(i as int));
        push_word(&mut args, words[i]);
        i = i + 1;
    }
    assert(words@.take(words@.len() as int) =~= words@);
    args
}

/// `char::to_ascii_lowercase`.
pub open spec fn ascii_lower(c: char) -> char {
    if 65 <= c as u32 <= 90 {
        ((c as u32) + 32) as char
    } else {
        c
    }
}

/// The answer, lowercased, is exactly the letter `c`.
pub open spec fn answer_is(answer: Seq<char>, c: char) -> bool {
    answer.len() == 1 && ascii_lower(answer[0]) == c
}

/// The lowercased letter of a one-letter answer.
pub fn answer_letter(answer: &str) -> (res: Option<char>)
    ensures
        answer@.len() == 1 ==> res == Some(ascii_lower(answer@[0])),
        answer@.len() != 1 ==> res is None,
{
    let chars = chars_of(answer);
    if chars.len() != 1 {
        return None;
    }
    let c = chars[0];
    let v = c as u32;
    if 65 <= v && v <= 90 {
        let lowered = ((v + 32) as u8) as char;
        assert(lowered == ascii_lower(c)) by {
            assert((v + 32) as u8 as u32 == v + 32);
        }
        Some(lowered)
    } else {
        Some(c)
    }
}

/// One indented line per path: `"  <path>\n"`.
pub open spec fn path_lines(paths: Seq<Seq<u8>>) -> Seq<char>
    decreases paths.len(),
{
    if paths.len() == 0 {
        Seq::empty()
    } else {
        path_lines(paths.drop_last()) + "  "@ + lossy_text(paths.last()) + "\n"@
    }
}

/// Appends one indented line per path, from index `from` on.
pub fn append_path_lines(text: &mut String, paths: &Vec<Vec<u8>>, from: usize)
    requires
        from <= paths@.len(),
    ensures
        final(text)@ == old(text)@ + path_lines(paths.deep_view().skip(from as int)),
{
    let ghost all = paths.deep_view().skip(from as int);
    let mut i: usize = from;
    assert(all.take(0) =~= Seq::<Seq<u8>>::empty());
    while i < paths.len()
        invariant
            from <= i <= paths@.len(),
            all == paths.deep_view().skip(from as int),
            text@ == old(text)@ + path_lines(all.take(i - from)),
        decreases paths@.len() - i,
    {
        assert(all.take(i + 1 - from).drop_last() =~= all.take(i - from));
        assert(all.take(i + 1 - from).last() == paths@[i as int]@) by {
            assert(paths@[i as int].deep_view() =~= paths@[i as int]@);
        }
        text.append("  ");
        append_path(text, paths[i].as_slice());
        text.append("\n");
        i = i + 1;
    }
    assert(all.take(paths@.len() - from) =~= all);
}

/// An argument list of words starts with the first word and has one
/// argument per word.
pub proof fn lemma_words_of_first(words: Seq<&str>)
    ensures
        words_of(words).len() == words.len(),
        words.len() > 0 ==> words_of(words)[0] == word(words[0]@),
    decreases words.len(),
{
    if words.len() > 0 {
        lemma_words_of_first(words.drop_last());
        if words.len() > 1 {
            assert(words.drop_last()[0] == words[0]);
        }
    }
}

} // verus!
