# remote_build

The verified core of a remote build service: a desktop client uploads a C,
C++ or Rust project, the server stores it in a workspace, builds it inside a
Docker container and hands back the build output.

- `src/` is the library, proved with Verus:
  - `validation` — upload paths, source types, per-file and total size limits;
  - `codec` — workspace identifiers (UUID text) and Base64 file contents;
  - `rate_limit` — ten requests per client per sliding minute;
  - `exit_code` — reading a build's exit status back out of its log;
  - `docker` — the container command plans (bring the container up, copy a
    workspace in, build, pack the output, clean up), one step per command;
  - `api` — the requests and answers, and each request's decisions as steps
    that ask the server for one piece of outside work at a time;
  - `error` — error codes, their HTTP statuses and error bodies;
  - `client` — what the desktop client uploads of a project folder, and
    the unpacking of a build's output archive, one step per file action;
  - `text` — character-level helpers.
- `app/` is the server program (HTTP, files, the `docker` command line) and
  the desktop client's file commands, which run the library's steps.
- `tests/` exercises the library on concrete values.
