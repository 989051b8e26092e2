# madm

`madm` is a minimal, Git-native dotfiles manager: the home directory is the
work tree, and the repository lives at `<home>/.local/share/madm/repo.git`.
Commands that madm does not implement itself are passed to Git unchanged;
`init`, `clone`, `compare`, `sync` and `resolve` add safe workflows on top.

## Layout

- `src/` is the library, verified with Verus. Every decision madm makes is a
  state machine there: each command is a value with a `step` method that
  takes the host's answer to the previous request (`host::Reply`) and returns
  the next request (`host::Request`: run Git, inspect or change a path, ask
  or tell the user) or the command's result. Each `step` is proved equal to
  an `open spec fn next`, so the contracts describe exactly which requests
  are made in which order and what every answer leads to.
  - `cli`: the command line; `context`: the home directory and the fixed
    repository path; `git`: Git invocations and their errors; `exclude`:
    the repository's self-exclusion; `path`: Git's NUL-separated path lists
    and the search for local content in the way of a tracked path;
    `prompt`: the interaction interface and a scripted implementation.
  - `commands::*`: the commands and the steps they share (preparing the
    repository, finding the upstream, resolving merges, cleaning up after a
    failed setup, dispatching a parsed command line in `session`).
  - Proof functions named `lemma_*` state the safety properties: for
    example that `compare` only reads, that `sync` merges only after the
    collision check passed and never forces a push, that a failed setup
    removes only what it created, and that `clean` is always refused.
- `app/` is the program: it runs Git processes, touches the file system and
  the terminal on the library's behalf, and feeds the answers back.
- `tests/` drives the library with scripted hosts.

## Platform scope

The library follows Unix path rules: a home directory is absolute when it
starts with `/`, paths are joined with `/`, and paths are handled as bytes.
A home such as `C:\Users\name` is therefore refused as not absolute. `app/`
reads the home directory from `HOME` and converts arguments and paths with
`std::os::unix`, so the program builds and runs on Unix systems (Linux,
macOS) only; Windows paths, separators and home variables (`USERPROFILE`,
`HOMEDRIVE` with `HOMEPATH`) are not supported.
