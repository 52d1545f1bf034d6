# jolonel

The core of a command line task tracker, verified with Verus.

- `src/` is the library: the task model (`models`), the command line as
  plain values (`cli`), the name caches for tags, goals and due shorthands
  (`cache`), points in time and the calls into chrono (`time`), the helpers
  that settle a new task's due date, goal, tags, state and priority
  (`helpers`), the creation of a task from the command line (`new_task`),
  the assembler that turns messages into table updates (`assemble`), the
  routing of commands (`dispatch`), the errors (`errors`) and the properties
  that tie these together (`laws`).
- `app/` is the program around it: argument parsing with clap, the
  PostgreSQL and SQLite access, the global caches and the helpers running as
  tokio tasks.
- `tests/` runs the library on concrete values.
