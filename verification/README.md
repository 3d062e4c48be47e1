# memo

`memo` keeps short, local context between agent sessions and human work. This
crate holds its store selection and initialization logic, verified with Verus,
and a thin command-line front end.

- `src/` is the verified library. The file system and the environment never
  enter it: functions take what was observed (an environment value, the
  contents of a marker file, the answer to a file-system question) and return
  plain values. The repository search (`src/discovery.rs`) and the commands
  `where` and `init` (`src/command.rs`) are machines whose file-system effects
  the front end performs one at a time.
- `app/` parses the command line (`where`, `init`, `--store`, `--data-dir`,
  `--auto-project`, `--no-auto-project`), reads the environment, the
  configuration file (TOML) and the file system, and prints reports and errors.
- `tests/` exercises the library, the repository search against a file system
  held in memory.

Stores live under `${XDG_DATA_HOME:-$HOME/.local/share}/memo/stores` (or
`--data-dir` / `MEMO_DATA_DIR`): `default/`, `projects/<sha256-id>/` and
`named/<name>/`. The report of `where` and `init` gives each store's selector
(`default`, its name, or `project:<id>`), which selects it again with
`--store` from any directory. A store is initialized when its `FORMAT_VERSION` file holds
exactly `1\n`.
