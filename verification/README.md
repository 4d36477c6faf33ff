# devhub

A command line tool that starts, stops and monitors local development projects
from one config file, with a Caddy reverse proxy in front of them.

- `src/` is the library, verified with Verus. It decides: which project runs,
  what is to be done next and what the user is told. It performs nothing itself.
  What has to be read from the machine comes in as plain values, and work that
  takes several steps is a small machine that asks for one action at a time.
- `app/` is the program around it: arguments, files, processes and signals.
- `tests/` runs the library on concrete values.

| Module | What it holds |
|--------|---------------|
| `config` | the user's projects |
| `state` | the projects that were started, and pruning of the dead ones |
| `process` | starting and stopping a project |
| `startup` | waiting until a project is ready |
| `signals` | the end of a process group |
| `logs` | where logs lie, what is shown of them, when they go |
| `caddy` | the routes of the proxy, and bringing it up to date |
| `commands` | what every command does and says |
| `dirs` | where the files lie |
| `names`, `text`, `seqs` | the map, text and sequences beneath all that |

The laws of each module are its public proof functions, named `law_...`.
