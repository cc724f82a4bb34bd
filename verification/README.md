# fabro-sandbox

Sandboxes on Azure Container Apps (ACA): a verified core, and the input and output around it.

The library under `src/` decides and computes. It builds the requests of the ACA data plane and
reads its answers, turns a run's environment settings into sandbox configurations, quotes command
lines, and steers everything that takes more than one answer (creating a sandbox, making it ready,
starting it, cloning a repository into it, guarding a command against a suspended sandbox, setting
up a run's branch, pushing). What takes several answers is a state machine: a state asks for a
call or a command, and takes the answer. Verus proves every function of the library against its
contract.

| Module | What it holds |
| --- | --- |
| `aca` | regions, configuration, token scopes, the data-plane client, the sandbox handle |
| `aca::command`, `shell` | the command line of a command, and how a shell reads it |
| `aca::initialize`, `aca::start`, `aca::running`, `aca::git` | the state machines of a sandbox |
| `provider` | creating, finding, listing and deleting sandboxes |
| `clone_source` | GitHub origins, exact revisions, and the git commands that fetch them |
| `from_environment`, `settings` | configurations from environment settings |
| `sandbox_spec` | what a run's sandbox is to be, and what is recorded of it |
| `error`, `exec`, `text`, `decimal` | errors, outcomes of commands, text and numerals |
| `outside` | what is taken from other crates: trusted, not proved |

`app/` carries the calls out over HTTP, reads the clock, the process environment and local files,
and asks Entra for tokens. `tests/` runs the library on concrete values.
