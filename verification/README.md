# Eiyah

Eiyah sets up a user environment: it installs a program, a package manager, dotfiles and
SSH keys, keeps the program up to date, and removes everything again. This crate holds
the decisions of that program, written and proved in Verus.

- `src/` is the library. Every operation is a state machine: it asks for something by a
  value of `host::Request` and goes on with a `host::Reply`. The contracts say which
  request follows which reply, what is undone after a failure, and in which words a
  failure is told.
- `app/` is the program around it: the command line, the file system, processes, the
  network and the terminal.
- `tests/` runs the library on a machine made of a map.

Where the library is spread out:

- `host`, `script`, `survey`, `failure`: requests and replies, tables of steps, looks at
  several places, failures.
- `transaction`, `undo`, `backup`, `backup_index`: what is recorded and taken back.
- `arrival`, `journey`, `deployment`, `acts`: the install command from its first look to
  its end, and the way back where a step fails.
- `install`, `directories`, `creation`, `binary`, `pixi`, `dotfiles`, `stow`, `ssh`, `archive`,
  `private_release`, `preflight`, `verify`, `state`: the plan of the first installation
  and its steps.
- `release`, `update`, `device`, `checksum`: releases and permissions.
- `withdrawal`, `uninstall`, `removal`, `restore`, `restoration`, `scaffold`: the removal.
- `config`, `settings`, `storage`, `installed`, `lock`: what is kept on disk.
- `cli`, `doctor`, `system`, `handoff`, `ui`: commands and what they show.
- `paths`, `bytes`, `text`, `checks`: paths as bytes, and text.
