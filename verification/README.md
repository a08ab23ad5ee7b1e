# Nanocodex

The decisions of Nanocodex, a coding agent and its evaluation harness, as a Verus
library: executable Rust whose contracts Verus proves.

- `src/` is the library.
  - `cli`, `cli_grammar`, `grammar`, `dispatch`: the command line, read by `clap`
    along a grammar that is proved sound, and where each command goes.
  - `vm_args`, `vm_run`: `KEY=VALUE` arguments, and the machine that a raw VM
    command describes.
  - `digest`, `path`, `runtime_disk`, `preparation`, `preparation_laws`: the
    content-addressed ext4 disk that carries the guest runtime, prepared one host
    operation at a time, and what every preparation comes to.
  - `frame`, `protocol`, `session`, `command`, `guest_files`, `guest_error`: the
    tool server inside a guest.
  - `task`, `task_images`, `result`, `event`, `observability`: tasks and their
    images, and what evaluations report.
- `app/` is the program around it: arguments, files, processes, JSON.
- `tests/` runs the library with the crates it calls.

A module that drives outside work is a state machine. It says what it needs
(`Preparation::ask`, `CommandPlan`, `CommandStep`, `WriteStep`, `PrepareTasks::next`,
`SessionAction`), and takes what came of it. The functions named `law_...` state
what holds of whole runs, whatever the outside answers.
