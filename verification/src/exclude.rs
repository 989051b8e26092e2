use vstd::prelude::*;

use crate::commands::setup::Exclusion;
use crate::context::{REPOSITORY_EXCLUDE_PATTERN, Context};
use crate::text::{at_byte, bytes_of, lemma_pieces_len, pieces, split_bytes};

verus! {

/// The comment line written above the repository's exclude pattern.
pub const EXCLUDE_COMMENT: &'static str = "# madm: never track the repository's own data";

/// A line without its carriage return, as CRLF files have it.
pub open spec fn strip_cr(line: Seq<u8>) -> Seq<u8> {
    if line.len() > 0 && line.last() == 13 {
        line.drop_last()
    } else {
        line
    }
}

/// Some line of the content, without a trailing carriage return, is exactly
/// `expected`.
pub open spec fn has_line(content: Seq<u8>, expected: Seq<u8>) -> bool {
    exists|i: int|
        0 <= i < pieces(content, at_byte(10)).len() && strip_cr(
            #[trigger] pieces(content, at_byte(10))[i],
        ) == expected
}

/// Whether some line of `content` is exactly `expected`, with LF or CRLF endings.
pub fn has_exact_line(content: &[u8], expected: &[u8]) -> (res: bool)
    ensures
        res == has_line(content@, expected@),
{
    let lines = split_bytes(content, 10);
    let ghost ps = pieces(content@, at_byte(10));
    let mut i: usize = 0;
    while i < lines.len()
        invariant
            lines.deep_view() == ps,
            ps == pieces(content@, at_byte(10)),
            i <= lines@.len(),
            forall|j: int| 0 <= j < i ==> strip_cr(#[trigger] ps[j]) != expected@,
        decreases lines@.len() - i,
    {
        let line = lines[i].as_slice();
        assert(line@ == ps[i as int]) by {
            assert(lines@[i as int].deep_view() =~= lines@[i as int]@);
        }
        let n = line.len();
        let stripped: &[u8] = if n > 0 && line[n - 1] == 13 {
            vstd::slice::slice_subrange(line, 0, n - 1)
        } else {
            line
        };
        assert(stripped@ == strip_cr(ps[i as int])) by {
            if n > 0 && line@[n - 1] == 13 {
                assert(line@.subrange(0, n - 1) =~= line@.drop_last());
            }
        }
        if crate::text::same_bytes(stripped, expected) {
            return true;
        }
        i = i + 1;
    }
    false
}

/// The bytes that make `content` exclude the repository: none when a line
/// already is the pattern; otherwise a line break if the content does not
/// end with one, the comment line and the pattern line.
pub open spec fn exclusion_addition(content: Seq<u8>, comment: Seq<u8>, pattern: Seq<u8>) -> Option<
    Seq<u8>,
> {
    if has_line(content, pattern) {
        None
    } else {
        let pad = if content.len() > 0 && content.last() != 10 {
            seq![10u8]
        } else {
            Seq::empty()
        };
        Some(pad + comment + seq![10u8] + pattern + seq![10u8])
    }
}

/// What must be appended to an exclude file with this content.
pub fn exclusion_update(content: &[u8], comment: &str, pattern: &str) -> (res: Option<Vec<u8>>)
    ensures
        match exclusion_addition(content@, bytes_of_spec(comment@), bytes_of_spec(pattern@)) {
            None => res is None,
            Some(a) => res matches Some(b) && b@ == a,
        },
{
    let pattern_bytes = bytes_of(pattern);
    if has_exact_line(content, pattern_bytes.as_slice()) {
        return None;
    }
    let mut out: Vec<u8> = Vec::new();
    if content.len() > 0 && content[content.len() - 1] != 10 {
        out.push(10);
    }
    let comment_bytes = bytes_of(comment);
    let mut out = crate::git::concat_bytes(out.as_slice(), comment_bytes.as_slice());
    out.push(10);
    let mut out = crate::git::concat_bytes(out.as_slice(), pattern_bytes.as_slice());
    out.push(10);
    let ghost pad = if content@.len() > 0 && content@.last() != 10 {
        seq![10u8]
    } else {
        Seq::<u8>::empty()
    };
    assert(out@ =~= pad + comment_bytes@ + seq![10u8] + pattern_bytes@ + seq![10u8]);
    Some(out)
}

/// The UTF-8 bytes of a text.
pub open spec fn bytes_of_spec(text: Seq<char>) -> Seq<u8> {
    vstd::utf8::encode_utf8(text)
}

/// Splitting a concatenation: the last piece of the first part joins the
/// first piece of the second.
pub proof fn lemma_pieces_concat<T>(x: Seq<T>, y: Seq<T>, is_sep: spec_fn(T) -> bool)
    ensures
        pieces(x + y, is_sep) == pieces(x, is_sep).drop_last().push(
            pieces(x, is_sep).last() + pieces(y, is_sep)[0],
        ) + pieces(y, is_sep).drop_first(),
    decreases y.len(),
{
    lemma_pieces_len(x, is_sep);
    lemma_pieces_len(y, is_sep);
    let px = pieces(x, is_sep);
    if y.len() == 0 {
        assert(x + y =~= x);
        assert(pieces(y, is_sep) =~= seq![Seq::<T>::empty()]);
        assert(px.last() + Seq::<T>::empty() =~= px.last());
        assert(px.drop_last().push(px.last()) =~= px);
        assert(px.drop_last().push(px.last() + pieces(y, is_sep)[0]) + pieces(
            y,
            is_sep,
        ).drop_first() =~= px);
    } else {
        let y1 = y.drop_last();
        let b = y.last();
        lemma_pieces_concat(x, y1, is_sep);
        lemma_pieces_len(y1, is_sep);
        assert((x + y).drop_last() =~= x + y1);
        assert((x + y).last() == b);
        let p1 = pieces(y1, is_sep);
        let a = px.drop_last().push(px.last() + p1[0]) + p1.drop_first();
        assert(pieces(x + y1, is_sep) == a);
        if is_sep(b) {
            assert(pieces(y, is_sep) == p1.push(Seq::empty()));
            assert(p1.push(Seq::empty())[0] == p1[0]);
            assert(p1.push(Seq::empty()).drop_first() =~= p1.drop_first().push(Seq::empty()));
            assert(a.push(Seq::empty()) =~= px.drop_last().push(px.last() + p1[0]) + p1.drop_first().push(Seq::empty()));
        } else {
            let q = p1.update(p1.len() - 1, p1.last().push(b));
            assert(pieces(y, is_sep) == q);
            assert(pieces(x + y, is_sep) == a.update(a.len() - 1, a.last().push(b)));
            if p1.len() == 1 {
                assert(q[0] =~= p1[0].push(b));
                assert(q.drop_first() =~= Seq::<Seq<T>>::empty());
                assert(p1.drop_first() =~= Seq::<Seq<T>>::empty());
                assert(px.last() + p1[0].push(b) =~= (px.last() + p1[0]).push(b));
                assert(a.update(a.len() - 1, a.last().push(b)) =~= px.drop_last().push(
                    px.last() + q[0],
                ) + q.drop_first());
            } else {
                assert(q[0] == p1[0]);
                assert(q.drop_first() =~= p1.drop_first().update(
                    p1.len() - 2,
                    p1.last().push(b),
                ));
                assert(a.update(a.len() - 1, a.last().push(b)) =~= px.drop_last().push(
                    px.last() + q[0],
                ) + q.drop_first());
            }
        }
    }
}

/// A sequence without separators is a single piece.
pub proof fn lemma_pieces_single<T>(z: Seq<T>, is_sep: spec_fn(T) -> bool)
    requires
        forall|i: int| 0 <= i < z.len() ==> !is_sep(#[trigger] z[i]),
    ensures
        pieces(z, is_sep) == seq![z],
    decreases z.len(),
{
    if z.len() > 0 {
        lemma_pieces_single(z.drop_last(), is_sep);
        assert(z.drop_last().push(z.last()) =~= z);
        assert(seq![z.drop_last()].update(0, z.drop_last().push(z.last())) =~= seq![z]);
    } else {
        assert(z =~= Seq::<T>::empty());
    }
}

/// A sequence that is empty or ends with a separator ends with an empty piece.
pub proof fn lemma_pieces_last_empty<T>(x: Seq<T>, is_sep: spec_fn(T) -> bool)
    requires
        x.len() == 0 || is_sep(x.last()),
    ensures
        pieces(x, is_sep).last() == Seq::<T>::empty(),
{
}

/// Applying the exclusion update makes the pattern a line of the file, so a
/// second update adds nothing; the user's content stays in front unchanged.
pub proof fn lemma_exclusion_idempotent(content: Seq<u8>, comment: Seq<u8>, pattern: Seq<u8>)
    requires
        forall|i: int| 0 <= i < comment.len() ==> #[trigger] comment[i] != 10,
        forall|i: int| 0 <= i < pattern.len() ==> #[trigger] pattern[i] != 10,
        pattern.len() == 0 || pattern.last() != 13,
    ensures
        match exclusion_addition(content, comment, pattern) {
            None => has_line(content, pattern),
            Some(a) => {
                &&& has_line(content + a, pattern)
                &&& exclusion_addition(content + a, comment, pattern) is None
                &&& (content + a).subrange(0, content.len() as int) == content
            },
        },
{
    if !has_line(content, pattern) {
        let nl = at_byte(10);
        let pad = if content.len() > 0 && content.last() != 10 {
            seq![10u8]
        } else {
            Seq::<u8>::empty()
        };
        let x = content + pad;
        let tail = comment + seq![10u8] + pattern + seq![10u8];
        let a = pad + comment + seq![10u8] + pattern + seq![10u8];
        assert(exclusion_addition(content, comment, pattern) == Some(a));
        assert(content + a =~= x + tail);
        assert(x.len() == 0 || nl(x.last()));
        lemma_pieces_last_empty(x, nl);
        lemma_pieces_len(x, nl);
        lemma_pieces_single(comment, nl);
        lemma_pieces_single(pattern, nl);
        let e = Seq::<u8>::empty();
        lemma_pieces_single(e, nl);
        // the tail splits into the comment, the pattern and an empty piece
        assert(pieces(seq![10u8], nl) == seq![e, e]) by {
            assert(seq![10u8].drop_last() =~= e);
        }
        lemma_pieces_concat(comment, seq![10u8], nl);
        let c1 = comment + seq![10u8];
        assert(pieces(c1, nl) =~= seq![comment, e]);
        lemma_pieces_concat(c1, pattern, nl);
        let c2 = c1 + pattern;
        assert(pieces(c2, nl) =~= seq![comment, pattern]);
        lemma_pieces_concat(c2, seq![10u8], nl);
        assert(pieces(tail, nl) =~= seq![comment, pattern, e]);
        lemma_pieces_concat(x, tail, nl);
        let px = pieces(x, nl);
        let all = pieces(x + tail, nl);
        assert(all == px.drop_last().push(px.last() + comment) + seq![pattern, e]);
        let k = px.len() as int;
        assert(all[k] == pattern);
        assert(strip_cr(pattern) == pattern);
        assert(strip_cr(all[k]) == pattern);
        assert(has_line(x + tail, pattern));
        assert((content + a).subrange(0, content.len() as int) =~= content);
    }
}

/// ASCII text without line breaks encodes to bytes without line breaks.
pub proof fn lemma_plain_bytes(t: Seq<char>)
    requires
        vstd::utf8::is_ascii_chars(t),
        forall|i: int| 0 <= i < t.len() ==> #[trigger] t[i] != '\n' && t[i] != '\r',
    ensures
        forall|i: int|
            0 <= i < bytes_of_spec(t).len() ==> #[trigger] bytes_of_spec(t)[i] != 10
                && bytes_of_spec(t)[i] != 13,
{
    vstd::utf8::is_ascii_chars_encode_utf8(t);
    assert forall|i: int| 0 <= i < bytes_of_spec(t).len() implies #[trigger] bytes_of_spec(t)[i]
        != 10 && bytes_of_spec(t)[i] != 13 by {
        assert(t[i] as u8 == bytes_of_spec(t)[i]);
        assert((t[i] as u32) < 128);
    }
}

/// The update of the repository's exclude file is idempotent: once applied,
/// the pattern line is present and the next update adds nothing.
pub proof fn lemma_repository_exclusion_idempotent(content: Seq<u8>)
    ensures
        match exclusion_addition(
            content,
            bytes_of_spec(EXCLUDE_COMMENT@),
            bytes_of_spec(REPOSITORY_EXCLUDE_PATTERN@),
        ) {
            None => has_line(content, bytes_of_spec(REPOSITORY_EXCLUDE_PATTERN@)),
            Some(a) => {
                &&& has_line(content + a, bytes_of_spec(REPOSITORY_EXCLUDE_PATTERN@))
                &&& exclusion_addition(
                    content + a,
                    bytes_of_spec(EXCLUDE_COMMENT@),
                    bytes_of_spec(REPOSITORY_EXCLUDE_PATTERN@),
                ) is None
                &&& (content + a).subrange(0, content.len() as int) == content
            },
        },
{
    reveal_strlit("# madm: never track the repository's own data");
    reveal_strlit("/.local/share/madm/repo.git/");
    let c = EXCLUDE_COMMENT@;
    let p = REPOSITORY_EXCLUDE_PATTERN@;
    assert(vstd::utf8::is_ascii_chars(c));
    assert(vstd::utf8::is_ascii_chars(p));
    lemma_plain_bytes(c);
    lemma_plain_bytes(p);
    lemma_exclusion_idempotent(content, bytes_of_spec(c), bytes_of_spec(p));
}

/// Starts keeping the repository out of its own index through its
/// `info/exclude` file.
pub fn ensure_repository_excluded(context: &Context) -> (res: Exclusion)
    ensures
        res.view() == Exclusion::initial(context.home_path()),
{
    Exclusion::new(context)
}

} // verus!
