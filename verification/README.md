# gitproxy

The logic of a service that keeps one git repository per namespace, with
branch, tag, commit, merge, revert, diff and blob operations on it.

- `src/` is the verified library (Verus): the rules that each wire message
  must meet (`validate`, `rules`, `proto`), the decisions made around every
  repository operation (`repository`), the results of the service's
  operations and their wire form (`service`, `server`), the JSON patches
  between file versions (`json`), time bounds (`time`) and error answers
  (`error`).
- `app/` is the program around it: configuration, logging, the repository
  on disk reached through libgit2, and an HTTP server that answers a health
  check only; the RPC layer needs generated protocol code that this tree
  does not hold.
- `tests/` exercises the library on concrete values.
