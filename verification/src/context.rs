use vstd::prelude::*;

use crate::cli::word;
use crate::commands::parents::ParentCreation;
use crate::error::{fails_with, MadmError};
use crate::text::{bytes_of, lossy, lossy_text};

verus! {

/// Where the repository lives, relative to the home directory.
pub const REPOSITORY_RELATIVE_GIT_PATH: &'static str = ".local/share/madm/repo.git";

/// The `info/exclude` line that keeps the repository out of its own index.
pub const REPOSITORY_EXCLUDE_PATTERN: &'static str = "/.local/share/madm/repo.git/";

/// The directory that holds the repository, relative to the home directory.
pub const REPOSITORY_PARENT_PATH: &'static str = ".local/share/madm";

/// `Path::is_absolute` on Unix: the path starts at the root `/`.
pub open spec fn is_absolute(path: Seq<u8>) -> bool {
    path.len() > 0 && path[0] == 47
}

/// `Path::join` of a relative path on Unix: a `/` goes between the two
/// unless the base is empty or already ends with one.
pub open spec fn join(base: Seq<u8>, relative: Seq<u8>) -> Seq<u8> {
    if base.len() == 0 || base.last() == 47 {
        base + relative
    } else {
        base + seq![47u8] + relative
    }
}

/// The fixed repository path below a home directory.
pub open spec fn repository_path(home: Seq<u8>) -> Seq<u8> {
    join(home, word(REPOSITORY_RELATIVE_GIT_PATH@))
}

/// The fixed repository's parent directory below a home directory.
pub open spec fn repository_parent_path(home: Seq<u8>) -> Seq<u8> {
    join(home, word(REPOSITORY_PARENT_PATH@))
}

/// `base.join(relative)` for a relative path.
pub fn join_path(base: &[u8], relative: &[u8]) -> (res: Vec<u8>)
    ensures
        res@ == join(base@, relative@),
{
    let mut out = vstd::slice::slice_to_vec(base);
    if base.len() > 0 && base[base.len() - 1] != 47 {
        out.push(47);
    }
    let mut i: usize = 0;
    let ghost start = out@;
    while i < relative.len()
        invariant
            i <= relative@.len(),
            out@ == start + relative@.take(i as int),
        decreases relative@.len() - i,
    {
        assert(start + relative@.take(i + 1) =~= (start + relative@.take(i as int)).push(
            relative@[i as int],
        ));
        out.push(relative[i]);
        i = i + 1;
    }
    assert(relative@.take(relative@.len() as int) =~= relative@);
    out
}

/// The home directory and the repository at its fixed place below it.
#[derive(Debug)]
pub struct Context {
    home: Vec<u8>,
    repository: Vec<u8>,
    parent: Vec<u8>,
}

impl Context {
    #[verifier::type_invariant]
    closed spec fn well_formed(&self) -> bool {
        &&& is_absolute(self.home@)
        &&& self.repository@ == repository_path(self.home@)
        &&& self.parent@ == repository_parent_path(self.home@)
    }

    /// The home directory, the Git work tree.
    pub closed spec fn home_path(&self) -> Seq<u8> {
        self.home@
    }

    /// The message for a home path that is not absolute.
    pub open spec fn not_absolute_message(home: Seq<u8>) -> Seq<char> {
        "home directory must be an absolute path: "@ + lossy_text(home)
    }

    /// The message for a home path that is no directory.
    pub open spec fn not_directory_message(home: Seq<u8>) -> Seq<char> {
        "home directory does not exist or is not a directory: "@ + lossy_text(home)
    }

    /// Whether a home path is accepted: it must be absolute and a directory.
    pub open spec fn home_check(home: Seq<u8>, is_dir: bool) -> Result<Seq<u8>, Seq<char>> {
        if !is_absolute(home) {
            Err(Self::not_absolute_message(home))
        } else if !is_dir {
            Err(Self::not_directory_message(home))
        } else {
            Ok(home)
        }
    }

    /// A context for the given home directory; `home_is_dir` tells whether
    /// the path names an existing directory.
    pub fn from_home(home: Vec<u8>, home_is_dir: bool) -> (res: Result<Context, MadmError>)
        ensures
            match Self::home_check(home@, home_is_dir) {
                Ok(h) => res matches Ok(c) && c.home_path() == h,
                Err(m) => fails_with(res, m),
            },
    {
        if !(home.len() > 0 && home[0] == 47) {
            let mut message = String::from_str("home directory must be an absolute path: ");
            let shown = lossy(home.as_slice());
            message.append(shown.as_str());
            return Err(MadmError::new(message));
        }
        if !home_is_dir {
            let mut message = String::from_str(
                "home directory does not exist or is not a directory: ",
            );
            let shown = lossy(home.as_slice());
            message.append(shown.as_str());
            return Err(MadmError::new(message));
        }
        let relative = bytes_of(REPOSITORY_RELATIVE_GIT_PATH);
        let repository = join_path(home.as_slice(), relative.as_slice());
        let parent_relative = bytes_of(REPOSITORY_PARENT_PATH);
        let parent = join_path(home.as_slice(), parent_relative.as_slice());
        Ok(Context { home, repository, parent })
    }

    /// The context for the home directory that the environment names.
    ///
    /// `candidates` are the environment's home values in order of preference;
    /// `candidate_is_dir[i]` tells whether `candidates[i]` is a directory.
    pub fn discover(candidates: Vec<Vec<u8>>, candidate_is_dir: Vec<bool>) -> (res: Result<
        Context,
        MadmError,
    >)
        requires
            candidates@.len() == candidate_is_dir@.len(),
        ensures
            match first_non_empty(candidates.deep_view()) {
                None => res matches Err(e) && e.text() == no_home_message() && e.exit_code()
                    == 1,
                Some(i) => match Self::home_check(candidates@[i]@, candidate_is_dir@[i]) {
                    Ok(h) => res matches Ok(c) && c.home_path() == h,
                    Err(m) => fails_with(res, m),
                },
            },
    {
        let index = resolve_home(&candidates)?;
        let is_dir = candidate_is_dir[index];
        let mut candidates = candidates;
        let home = candidates.remove(index);
        Self::from_home(home, is_dir)
    }

    /// Another context for the same home directory.
    pub fn copy(&self) -> (res: Context)
        ensures
            res.home_path() == self.home_path(),
    {
        proof {
            use_type_invariant(self);
        }
        Context {
            home: vstd::slice::slice_to_vec(self.home.as_slice()),
            repository: vstd::slice::slice_to_vec(self.repository.as_slice()),
            parent: vstd::slice::slice_to_vec(self.parent.as_slice()),
        }
    }

    pub fn home(&self) -> (res: &[u8])
        ensures
            res@ == self.home_path(),
            is_absolute(res@),
    {
        proof {
            use_type_invariant(self);
        }
        self.home.as_slice()
    }

    pub fn repository(&self) -> (res: &[u8])
        ensures
            res@ == repository_path(self.home_path()),
    {
        proof {
            use_type_invariant(self);
        }
        self.repository.as_slice()
    }

    pub fn repository_parent(&self) -> (res: &[u8])
        ensures
            res@ == repository_parent_path(self.home_path()),
    {
        proof {
            use_type_invariant(self);
        }
        self.parent.as_slice()
    }

    /// The directories that must exist for the repository, outermost first:
    /// `<home>/.local`, `<home>/.local/share`, `<home>/.local/share/madm`.
    pub fn repository_parent_chain(&self) -> (res: Vec<Vec<u8>>)
        ensures
            res.deep_view() == seq![
                join(self.home_path(), word(".local"@)),
                join(self.home_path(), word(".local/share"@)),
                repository_parent_path(self.home_path()),
            ],
    {
        let mut chain: Vec<Vec<u8>> = Vec::new();
        let a = bytes_of(".local");
        let b = bytes_of(".local/share");
        chain.push(join_path(self.home.as_slice(), a.as_slice()));
        chain.push(join_path(self.home.as_slice(), b.as_slice()));
        chain.push(vstd::slice::slice_to_vec(self.repository_parent()));
        assert(chain.deep_view() =~= seq![
            join(self.home_path(), word(".local"@)),
            join(self.home_path(), word(".local/share"@)),
            repository_parent_path(self.home_path()),
        ]) by {
            assert(chain@[0].deep_view() =~= chain@[0]@);
            assert(chain@[1].deep_view() =~= chain@[1]@);
            assert(chain@[2].deep_view() =~= chain@[2]@);
        }
        chain
    }
}

impl Context {
    /// Starts creating the missing directories above the repository.
    pub fn create_repository_parent(&self) -> (res: ParentCreation)
        ensures
            res.view() == ParentCreation::initial(self.home_path()),
    {
        ParentCreation::new(self)
    }
}

impl DeepView for Context {
    type V = Seq<u8>;

    open spec fn deep_view(&self) -> Seq<u8> {
        self.home_path()
    }
}

/// The index of the first non-empty candidate.
pub open spec fn first_non_empty(candidates: Seq<Seq<u8>>) -> Option<int> {
    if exists|i: int| 0 <= i < candidates.len() && candidates[i].len() > 0 {
        Some(
            choose|i: int|
                0 <= i < candidates.len() && candidates[i].len() > 0 && (forall|j: int|
                    0 <= j < i ==> candidates[j].len() == 0),
        )
    } else {
        None
    }
}

pub open spec fn no_home_message() -> Seq<char> {
    "could not determine the home directory from the operating-system environment"@
}

/// Picks the first non-empty home value of the environment.
pub fn resolve_home(candidates: &Vec<Vec<u8>>) -> (res: Result<usize, MadmError>)
    ensures
        match first_non_empty(candidates.deep_view()) {
            None => res matches Err(e) && e.text() == no_home_message() && e.exit_code() == 1,
            Some(i) => res matches Ok(k) && k == i,
        },
        res matches Ok(k) ==> k < candidates@.len(),
{
    let ghost dv = candidates.deep_view();
    let mut i: usize = 0;
    while i < candidates.len()
        invariant
            i <= candidates@.len(),
            dv == candidates.deep_view(),
            forall|j: int| 0 <= j < i ==> #[trigger] dv[j].len() == 0,
        decreases candidates@.len() - i,
    {
        assert(dv[i as int] =~= candidates@[i as int]@);
        if candidates[i].len() > 0 {
            proof {
                let w = choose|k: int|
                    0 <= k < dv.len() && dv[k].len() > 0 && (forall|j: int|
                        0 <= j < k ==> dv[j].len() == 0);
                assert(0 <= i < dv.len() && dv[i as int].len() > 0 && (forall|j: int|
                    0 <= j < i ==> dv[j].len() == 0));
                if w < i {
                    assert(dv[w].len() == 0);
                } else if w > i {
                    assert(dv[i as int].len() == 0);
                }
            }
            return Ok(i);
        }
        i = i + 1;
    }
    Err(MadmError::new(String::from_str(
        "could not determine the home directory from the operating-system environment",
    )))
}

} // verus!
