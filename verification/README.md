# verified_bot_commit

A GitHub Action that commits changed files through the GitHub REST API, so
that the commit is signed by GitHub. The decisions it makes are a Verus
library, proved against their contracts; a thin program around it does the
I/O.

- `src/` — the verified library:
  - `text.rs`: characters, prefixes, line splitting as `str::lines` does it,
    white-space trimming, decimal numbers;
  - `refs.rs`: ref normalization (`heads/…`, `tags/…`) and its laws;
  - `inputs.rs`: input names, boolean, numeric and list inputs, and the
    round trip of list inputs;
  - `git.rs`: file modes, blobs, commit messages, base64 blob content, ref
    targets;
  - `api.rs`: request URLs and headers, the retry and backoff rule;
  - `patterns.rs`: which changed files the `files` patterns select;
  - `workflow.rs`: reading all inputs, changed files, what happens when
    there is nothing to commit, outputs, updating the local branch.
- `tests/` — tests of the library on concrete values.
- `app/` — the program: environment, `git` processes, HTTP requests and
  JSON bodies.
