# golem-cli

The decision-making core of the Golem command line interface, written in Verus: every
function under `src/` carries a contract. Verus proves them all except the small trusted
wrappers around outside crates, whose contracts it takes as given.

## Layout

- `src/` — the verified library:
  - `command`, `command_v_1_2`: the command model, the global flags and the recognition of
    partially typed commands;
  - `config`, `context`: profiles, their selection and merging, client settings, and the
    lazily loaded application context;
  - `command_handler`: worker name resolution, invocation planning, listing, updates and
    redeployments, component selection, the interactive wizards, API definition deployment
    steps, cloud projects and the tool server's requests, results and resources;
  - `app::build::task_result_marker`: the markers that decide whether a build task is up to
    date;
  - `log`: indented, wrapped log output with its state;
  - `error`, `fuzzy`, `clients`, `desktop`, `model`, `cloud`: error messages, fuzzy name
    search, service endpoints, the desktop application's checks, shared values.
- `app/` — a small program around the library: it parses the command line of the 1.2
  command model and prints hints for partially typed commands, and it holds the terminal,
  environment and marker file I/O that the library leaves out. Invocation, deployment,
  profile and wizard commands are not driven from it: their service clients and prompt
  libraries are not part of this project.
- `tests/` — tests of the library on concrete values.

Calls into outside crates (`fuzzy-matcher`, `blake3`, `iso8601`, `textwrap`, `colored`,
`console`, `http`, `uuid`, `lenient_bool`, `regex`) go through small trusted wrappers
whose contracts state what those crates' sources show of the calls made.
