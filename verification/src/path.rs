use vstd::prelude::*;

use crate::context::{is_absolute, join, join_path};
use crate::error::MadmError;
use crate::host::{
    error_view, ErrorView, FailureKind, PathKind, Reply, ReplyView, Request, RequestView,
};
use crate::text::{
    at_byte, lemma_pieces_len, lossy, lossy_text, non_empty, non_empty_pieces, pieces, split_bytes,
};

verus! {

/// The paths in Git's NUL-terminated output (`-z`), in order; empty pieces
/// are skipped and nothing else is split.
pub open spec fn nul_paths_spec(output: Seq<u8>) -> Seq<Seq<u8>> {
    non_empty(pieces(output, at_byte(0)))
}

/// The paths listed in Git's NUL-delimited output.
pub fn nul_paths(output: &[u8]) -> (res: Vec<Vec<u8>>)
    ensures
        res.deep_view() == nul_paths_spec(output@),
{
    non_empty_pieces(output, 0)
}

/// Git's `-z` output for a list of paths: each path followed by a NUL.
pub open spec fn nul_terminated(paths: Seq<Seq<u8>>) -> Seq<u8>
    decreases paths.len(),
{
    if paths.len() == 0 {
        Seq::empty()
    } else {
        nul_terminated(paths.drop_last()) + paths.last() + seq![0u8]
    }
}

/// Reading NUL-terminated output gives back exactly the listed paths, when
/// none is empty or holds a NUL: blanks and line breaks stay inside paths.
pub proof fn lemma_nul_paths_round_trip(paths: Seq<Seq<u8>>)
    requires
        forall|i: int| 0 <= i < paths.len() ==> #[trigger] paths[i].len() > 0,
        forall|i: int, j: int|
            0 <= i < paths.len() && 0 <= j < paths[i].len() ==> #[trigger] paths[i][j] != 0,
    ensures
        nul_paths_spec(nul_terminated(paths)) == paths,
{
    lemma_round_trip_pieces(paths);
    lemma_non_empty_push_empty(paths);
}

proof fn lemma_non_empty_push_empty(paths: Seq<Seq<u8>>)
    requires
        forall|i: int| 0 <= i < paths.len() ==> #[trigger] paths[i].len() > 0,
    ensures
        non_empty(paths.push(Seq::<u8>::empty())) == paths,
    decreases paths.len(),
{
    assert(paths.push(Seq::<u8>::empty()).drop_last() =~= paths);
    lemma_non_empty_all(paths);
}

proof fn lemma_non_empty_all(paths: Seq<Seq<u8>>)
    requires
        forall|i: int| 0 <= i < paths.len() ==> #[trigger] paths[i].len() > 0,
    ensures
        non_empty(paths) == paths,
    decreases paths.len(),
{
    if paths.len() > 0 {
        assert(paths.last().len() > 0);
        lemma_non_empty_all(paths.drop_last());
        assert(paths.drop_last().push(paths.last()) =~= paths);
    }
}

proof fn lemma_round_trip_pieces(paths: Seq<Seq<u8>>)
    requires
        forall|i: int, j: int|
            0 <= i < paths.len() && 0 <= j < paths[i].len() ==> #[trigger] paths[i][j] != 0,
    ensures
        pieces(nul_terminated(paths), at_byte(0)) == paths.push(Seq::<u8>::empty()),
    decreases paths.len(),
{
    let nul = at_byte(0);
    if paths.len() == 0 {
        assert(nul_terminated(paths) =~= Seq::<u8>::empty());
    } else {
        let front = paths.drop_last();
        let p = paths.last();
        assert forall|i: int, j: int|
            0 <= i < front.len() && 0 <= j < front[i].len() implies #[trigger] front[i][j]
            != 0 by {
            assert(front[i] == paths[i]);
        }
        lemma_round_trip_pieces(front);
        let x = nul_terminated(front);
        let tail = p + seq![0u8];
        assert(nul_terminated(paths) =~= x + tail);
        assert forall|j: int| 0 <= j < p.len() implies !nul(#[trigger] p[j]) by {
            assert(p[j] == paths[paths.len() - 1][j]);
        }
        crate::exclude::lemma_pieces_single(p, nul);
        let e = Seq::<u8>::empty();
        crate::exclude::lemma_pieces_single(e, nul);
        assert(pieces(seq![0u8], nul) == seq![e, e]) by {
            assert(seq![0u8].drop_last() =~= e);
        }
        crate::exclude::lemma_pieces_concat(p, seq![0u8], nul);
        assert(pieces(tail, nul) =~= seq![p, e]);
        crate::exclude::lemma_pieces_concat(x, tail, nul);
        let px = pieces(x, nul);
        assert(px == front.push(e));
        assert(px.drop_last() =~= front);
        assert(px.last() + p =~= p);
        assert(pieces(x + tail, nul) =~= paths.push(e));
    }
}

/// One component of a path: `Some(name)` for a named part, `None` for the
/// root, `.` at the start or `..`.
pub open spec fn is_dot(part: Seq<u8>) -> bool {
    part == seq![46u8]
}

pub open spec fn is_dot_dot(part: Seq<u8>) -> bool {
    part == seq![46u8, 46u8]
}

/// The components after the first, as `Path::components` gives them on Unix:
/// empty parts and `.` are skipped, `..` is no named part.
pub open spec fn later_components(parts: Seq<Seq<u8>>) -> Seq<Option<Seq<u8>>>
    decreases parts.len(),
{
    if parts.len() == 0 {
        Seq::empty()
    } else {
        let r = later_components(parts.drop_last());
        let p = parts.last();
        if p.len() == 0 || is_dot(p) {
            r
        } else if is_dot_dot(p) {
            r.push(None)
        } else {
            r.push(Some(p))
        }
    }
}

/// The components of a path on Unix: a leading root or `.` first, then the
/// named parts and `..`.
pub open spec fn components(path: Seq<u8>) -> Seq<Option<Seq<u8>>> {
    let parts = pieces(path, at_byte(47));
    if is_absolute(path) || is_dot(parts[0]) {
        seq![None] + later_components(parts)
    } else {
        later_components(parts)
    }
}

/// The message for a path that leaves the work tree.
pub open spec fn outside_message(path: Seq<u8>) -> Seq<char> {
    "Git returned a path outside the work tree: "@ + lossy_text(path)
}

/// The components of a path.
pub fn path_components(path: &[u8]) -> (res: Vec<Option<Vec<u8>>>)
    ensures
        res@.len() == components(path@).len(),
        forall|i: int|
            0 <= i < res@.len() ==> (match #[trigger] res@[i] {
                Some(p) => components(path@)[i] == Some(p@),
                None => components(path@)[i] is None,
            }),
{
    let parts = split_bytes(path, 47);
    let ghost ps = pieces(path@, at_byte(47));
    proof {
        lemma_pieces_len(path@, at_byte(47));
    }
    let mut out: Vec<Option<Vec<u8>>> = Vec::new();
    assert(parts@[0].deep_view() =~= parts@[0]@);
    let leading = (path.len() > 0 && path[0] == 47) || (parts[0].len() == 1 && parts[0][0] == 46);
    assert(leading == (is_absolute(path@) || is_dot(ps[0]))) by {
        if parts@[0]@.len() == 1 {
            assert(ps[0] =~= seq![ps[0][0]]);
            assert(is_dot(ps[0]) == (ps[0][0] == 46));
        }
    }
    let ghost head: Seq<Option<Seq<u8>>> = if leading {
        seq![None]
    } else {
        Seq::empty()
    };
    if leading {
        out.push(None);
    }
    let mut k: usize = 0;
    while k < parts.len()
        invariant
            parts.deep_view() == ps,
            k <= ps.len(),
            out@.len() == head.len() + later_components(ps.take(k as int)).len(),
            forall|i: int|
                0 <= i < out@.len() ==> (match #[trigger] out@[i] {
                    Some(p) => (head + later_components(ps.take(k as int)))[i] == Some(p@),
                    None => (head + later_components(ps.take(k as int)))[i] is None,
                }),
        decreases ps.len() - k,
    {
        let part = &parts[k];
        assert(part@ == ps[k as int]) by {
            assert(parts@[k as int].deep_view() =~= parts@[k as int]@);
        }
        assert(ps.take(k + 1).drop_last() =~= ps.take(k as int));
        assert(ps.take(k + 1).last() == ps[k as int]);
        let ghost before = head + later_components(ps.take(k as int));
        let n = part.len();
        if n == 0 || (n == 1 && part[0] == 46) {
            assert(is_dot(part@) == (n == 1 && part@[0] == 46)) by {
                if n == 1 {
                    assert(part@ =~= seq![part@[0]]);
                }
            }
        } else if n == 2 && part[0] == 46 && part[1] == 46 {
            assert(part@ =~= seq![46u8, 46u8]);
            assert(head + later_components(ps.take(k + 1)) =~= before.push(None));
            out.push(None);
        } else {
            assert(!is_dot(part@)) by {
                if part@ == seq![46u8] {
                    assert(part@.len() == 1);
                }
            }
            assert(!is_dot_dot(part@)) by {
                if part@ == seq![46u8, 46u8] {
                    assert(part@[0] == 46 && part@[1] == 46);
                }
            }
            let copy = vstd::slice::slice_to_vec(part.as_slice());
            assert(head + later_components(ps.take(k + 1)) =~= before.push(Some(part@)));
            out.push(Some(copy));
        }
        k = k + 1;
    }
    assert(ps.take(ps.len() as int) =~= ps);
    out
}

/// How the search for a local path in the way of an incoming path stands.
pub struct BlockerSearch {
    home: Vec<u8>,
    path: Vec<u8>,
    parts: Vec<Option<Vec<u8>>>,
    index: usize,
    relative: Vec<u8>,
}

/// The search by its values.
pub struct BlockerSearchView {
    pub home: Seq<u8>,
    pub path: Seq<u8>,
    pub index: int,
    pub relative: Seq<u8>,
}

/// What one step of the search yields: a request, or the result.
pub enum SearchStep {
    Ask(Request),
    Found(Result<Option<Vec<u8>>, MadmError>),
}

pub enum SearchStepView {
    Ask(RequestView),
    Found(Result<Option<Seq<u8>>, ErrorView>),
}

impl View for SearchStep {
    type V = SearchStepView;

    open spec fn view(&self) -> SearchStepView {
        match self {
            SearchStep::Ask(r) => SearchStepView::Ask(r@),
            SearchStep::Found(Ok(Some(p))) => SearchStepView::Found(Ok(Some(p@))),
            SearchStep::Found(Ok(None)) => SearchStepView::Found(Ok(None)),
            SearchStep::Found(Err(e)) => SearchStepView::Found(Err(error_view(*e))),
        }
    }
}

/// The message for a local path that could not be inspected.
pub open spec fn inspect_error(candidate: Seq<u8>, detail: Seq<char>) -> ErrorView {
    ("inspect local path "@ + lossy_text(candidate) + ": "@ + detail, 1)
}

impl BlockerSearch {
    #[verifier::type_invariant]
    closed spec fn well_formed(&self) -> bool {
        &&& self.parts@.len() == components(self.path@).len()
        &&& forall|i: int|
            0 <= i < self.parts@.len() ==> (match #[trigger] self.parts@[i] {
                Some(p) => components(self.path@)[i] == Some(p@),
                None => components(self.path@)[i] is None,
            })
        &&& self.index <= self.parts@.len()
    }

    pub closed spec fn view(&self) -> BlockerSearchView {
        BlockerSearchView {
            home: self.home@,
            path: self.path@,
            index: self.index as int,
            relative: self.relative@,
        }
    }

    /// The search that starts at the first component.
    pub open spec fn initial(home: Seq<u8>, path: Seq<u8>) -> BlockerSearchView {
        BlockerSearchView { home, path, index: 0, relative: Seq::empty() }
    }

    /// One step of `existing_path_blocker`: component by component, the
    /// first local path that exists and is the last component or no
    /// directory blocks; a missing one means nothing is in the way.
    pub open spec fn next(s: BlockerSearchView, reply: ReplyView) -> (BlockerSearchView, SearchStepView) {
        let comps = components(s.path);
        let candidate = join(s.home, s.relative);
        match reply {
            ReplyView::Start => Self::visit(s),
            ReplyView::Kind(kind) => {
                if s.index + 1 >= comps.len() || kind != PathKind::Directory {
                    (s, SearchStepView::Found(Ok(Some(s.relative))))
                } else {
                    Self::visit(BlockerSearchView { index: s.index + 1, ..s })
                }
            },
            ReplyView::Failed(kind, detail) => {
                if kind == FailureKind::NotFound {
                    (s, SearchStepView::Found(Ok(None)))
                } else {
                    (s, SearchStepView::Found(Err(inspect_error(candidate, detail))))
                }
            },
            _ => (s, SearchStepView::Found(Err(unexpected_reply()))),
        }
    }

    /// Moves to component `s.index`: stops at the end or at a component
    /// that is not a name, else inspects the extended prefix.
    pub open spec fn visit(s: BlockerSearchView) -> (BlockerSearchView, SearchStepView) {
        let comps = components(s.path);
        if s.index >= comps.len() {
            (s, SearchStepView::Found(Ok(None)))
        } else {
            match comps[s.index] {
                None => (s, SearchStepView::Found(Err((outside_message(s.path), 1)))),
                Some(name) => {
                    let relative = join(s.relative, name);
                    (
                        BlockerSearchView { relative, ..s },
                        SearchStepView::Ask(RequestView::Inspect(join(s.home, relative))),
                    )
                },
            }
        }
    }

    pub fn new(home: &[u8], path: &[u8]) -> (res: BlockerSearch)
        ensures
            res.view() == Self::initial(home@, path@),
    {
        let parts = path_components(path);
        BlockerSearch {
            home: vstd::slice::slice_to_vec(home),
            path: vstd::slice::slice_to_vec(path),
            parts,
            index: 0,
            relative: Vec::new(),
        }
    }

    fn visit_exec(&mut self) -> (res: SearchStep)
        ensures
            (final(self).view(), res@) == Self::visit(old(self).view()),
    {
        proof {
            use_type_invariant(&*self);
        }
        if self.index >= self.parts.len() {
            return SearchStep::Found(Ok(None));
        }
        match &self.parts[self.index] {
            None => {
                let mut message = String::from_str("Git returned a path outside the work tree: ");
                let shown = lossy(self.path.as_slice());
                message.append(shown.as_str());
                SearchStep::Found(Err(MadmError::new(message)))
            },
            Some(name) => {
                let relative = join_path(self.relative.as_slice(), name.as_slice());
                let candidate = join_path(self.home.as_slice(), relative.as_slice());
                self.relative = relative;
                SearchStep::Ask(Request::Inspect(candidate))
            },
        }
    }

    /// Takes the host's reply and says what comes next.
    pub fn step(&mut self, reply: Reply) -> (res: SearchStep)
        ensures
            (final(self).view(), res@) == Self::next(old(self).view(), reply@),
    {
        proof {
            use_type_invariant(&*self);
        }
        match reply {
            Reply::Start => self.visit_exec(),
            Reply::Kind(kind) => {
                if self.parts.len() - self.index <= 1 || kind != PathKind::Directory {
                    SearchStep::Found(Ok(Some(vstd::slice::slice_to_vec(self.relative.as_slice()))))
                } else {
                    self.index = self.index + 1;
                    self.visit_exec()
                }
            },
            Reply::Failed(failure) => {
                if failure.kind == FailureKind::NotFound {
                    SearchStep::Found(Ok(None))
                } else {
                    let candidate = join_path(self.home.as_slice(), self.relative.as_slice());
                    let mut action = String::from_str("inspect local path ");
                    let shown = lossy(candidate.as_slice());
                    action.append(shown.as_str());
                    SearchStep::Found(Err(MadmError::io(action.as_str(), failure.detail.as_str())))
                }
            },
            _ => SearchStep::Found(Err(unexpected())),
        }
    }
}

/// The error for a reply that does not answer the request made.
pub open spec fn unexpected_reply() -> ErrorView {
    ("the host answered a request with an unexpected reply"@, 1)
}

pub fn unexpected() -> (res: MadmError)
    ensures
        error_view(res) == unexpected_reply(),
{
    MadmError::new(String::from_str("the host answered a request with an unexpected reply"))
}

/// Starts the search for the local path that would be in the way of the
/// tracked path `path` below `home`.
pub fn existing_path_blocker(home: &[u8], path: &[u8]) -> (res: BlockerSearch)
    ensures
        res.view() == BlockerSearch::initial(home@, path@),
{
    BlockerSearch::new(home, path)
}

} // verus!
