# to_do_cli

A to-do list kept in an SQLite table, driven from a prompt: add, show, list,
complete, reopen, update, delete and restore, purge, search, due dates and
statistics.

`src/` is the library, verified with Verus:

- `models` — tasks, their status and priority, the rows of the `tasks` table,
  and the one-line text of a task;
- `db` — every operation on the table: which rows a listing selects, what a
  write changes (`Change`, `apply_change`) and the SQL statement that makes it
  (`change_statement`);
- `session` — what each command does, as a state machine that asks its caller
  for one write at a time (`begin_command`, `resume`);
- `like` — the `LIKE` pattern match that search uses;
- `dates` — calendar dates, the `dd/mm/yyyy` check, and the clock;
- `text` — whitespace, words, decimal numbers;
- `seed` — the sample tasks;
- `laws` — properties that span operations, proved.

`app/` is the program: the prompt, the command line grammar for clap, and the
database file, read before each command and written as the library asks.
Started with the argument `seed`, it fills `todo.db` with the sample tasks.
