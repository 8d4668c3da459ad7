# lazytree

Copy-on-write development workspaces for parallel coding agents. Each
session is an overlay mount over a registered repository's base copy, with
private Git metadata that shares the repository's objects, and per-session
caches.

The library in `src/` holds the decisions and text processing, each with a
contract proved by Verus:

- `filesystem`: mount and unmount procedures (backend order, privilege
  fallback, command lines), mountinfo parsing, the backend plugins.
- `git`: the session Git setup procedure (fast path with a seed index, slow
  path through `git`), configuration and pointer files.
- `session`, `repository`, `metadata`: records, lookups, lifecycle checks
  (create, archive, destroy, status, diff), the home layout and mount hints.
- `runtime`: plain and canonical-path runs in a session.
- `fsmonitor`: the Git fsmonitor protocol answer from an upper layer.
- `doctor`: consistency report from what the disk shows.
- `cursor_integration`: what is reported of a Cursor session mapping file.

`app/` is the `lazytree` command: argument parsing, files, processes and
mounts, carrying out what the library decides.
