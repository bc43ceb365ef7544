# pesde command line

The decisions that the `pesde` package manager's command line takes, verified
with Verus: which files are published and which are refused, which package a
name means, whether a lockfile is up to date, which runtime runs a package, how
a login goes on, and what the user is told at each point.

- `src/` is the verified library. What a command does is a machine: a `run`
  function gives the first step, and a `step` function gives the next one for
  each event. A step names the work to do next and what to say. Each machine has
  a relation `is_step` that says exactly what comes of an event, and laws over
  all its runs.
  - `cli/commands/` holds the commands: publishing, running, executing, logging
    in and upgrading.
  - `cli/` holds what they share: directories, overrides, lockfiles, names,
    workspace members, indices, engines and errors.
  - `engine/` holds the engines, and the source that downloads them from GitHub.
  - The files at the top hold texts, versions, URLs and the other values. A
    manifest, a lockfile and the tokens of the user hold lists; `well_formed`
    says of each that nothing occurs twice, and what is in ascending order.
- `tests/` runs the library.
- `app/` does the work: files, requests, prompts and processes. What the package
  manager itself does is behind the trait `Host`.

Calls into other crates stand behind functions marked
`#[verifier::external_body]`; the comment above each says what is believed of
the call.
